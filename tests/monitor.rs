use giveeggs::catalog::{find_product_by_id, select_products};
use giveeggs::models::{Product, Variant};
use giveeggs::monitor::ProductMonitor;
use giveeggs::product_comparison::ProductChange;

fn product(id: u64, title: &str, price: &str) -> Product {
    Product {
        id,
        title: title.to_string(),
        handle: format!("product-{}", id),
        variants: vec![Variant { id: 1, price: price.to_string(), available: true, ..Default::default() }],
        ..Default::default()
    }
}

#[test]
fn find_returns_first_match() {
    let mut second = product(5, "second", "1.00");
    second.vendor = "later".to_string();
    let products = vec![product(4, "a", "1.00"), product(5, "first", "1.00"), second];
    let found = find_product_by_id(&products, 5).expect("present");
    assert_eq!(found.title, "first");
    assert!(find_product_by_id(&products, 6).is_none());
    assert!(find_product_by_id(&[], 4).is_none());
}

#[test]
fn select_keeps_tracked_ids_once_in_order() {
    let catalog = vec![product(1, "one", "1"), product(2, "two", "2"), product(3, "three", "3")];
    let table = select_products(&catalog, &[3, 9, 1, 3]);
    assert_eq!(table.len(), 2);
    assert_eq!(table[0].id, 3);
    assert_eq!(table[1].id, 1);
    assert_eq!(table[1], catalog[0]);
    assert!(select_products(&catalog, &[]).is_empty());
}

#[test]
fn initialize_adopts_without_reporting() {
    let mut monitor = ProductMonitor::new(vec![1, 2]);
    assert!(!monitor.ready);
    monitor.initialize(vec![product(1, "one", "1.00")]);
    assert!(monitor.ready);
    assert_eq!(monitor.previous_products.len(), 1);
    assert_eq!(monitor.product_ids, vec![1, 2]);
}

#[test]
fn product_new_to_the_table_gives_no_records() {
    let mut monitor = ProductMonitor::new(vec![1, 2]);
    monitor.initialize(vec![product(1, "one", "1.00")]);
    let report = monitor.check_for_changes(vec![product(1, "one", "1.00"), product(2, "two", "2.00")]);
    assert_eq!(report.len(), 1);
    assert_eq!(report[0].0, 1);
    assert!(report[0].1.is_empty());
    assert!(report.iter().all(|(id, _)| *id != 2));
    assert_eq!(monitor.previous_products.len(), 2);
}

#[test]
fn cycle_reports_changes_and_replaces_table() {
    let mut monitor = ProductMonitor::new(vec![1, 2]);
    monitor.initialize(vec![product(1, "one", "1.00"), product(2, "two", "2.00")]);
    let report = monitor.check_for_changes(vec![product(2, "two", "2.50")]);
    assert_eq!(report.len(), 1);
    assert_eq!(report[0].0, 2);
    assert_eq!(report[0].1.len(), 1);
    assert!(matches!(&report[0].1[0], ProductChange::VariantPriceChanged { variant_id: 1, old_price, new_price } if old_price == "2.00" && new_price == "2.50"));
    assert_eq!(monitor.previous_products.len(), 1);
    assert_eq!(monitor.previous_products[0].id, 2);
    let again = monitor.check_for_changes(vec![product(1, "one", "1.00"), product(2, "two v2", "2.50")]);
    assert_eq!(again.len(), 1);
    assert_eq!(again[0].0, 2);
    assert!(matches!(&again[0].1[0], ProductChange::TitleChanged { old, new } if old == "two" && new == "two v2"));
}

#[test]
fn cycle_before_initialize_reports_nothing() {
    let mut monitor = ProductMonitor::new(vec![1]);
    let report = monitor.check_for_changes(vec![product(1, "one", "1.00")]);
    assert!(report.is_empty());
    assert!(monitor.ready);
}
