use giveeggs::models::{Product, Variant};
use giveeggs::product_comparison::ProductChange;

fn variant(id: i64, price: &str, available: bool) -> Variant {
    Variant {
        id,
        title: format!("Variant {}", id),
        price: price.to_string(),
        available,
        ..Default::default()
    }
}

fn product(title: &str, body: &str, variants: Vec<Variant>) -> Product {
    Product {
        id: 7,
        title: title.to_string(),
        handle: "red-mug".to_string(),
        body_html: body.to_string(),
        variants,
        ..Default::default()
    }
}

#[test]
fn equal_fields_give_no_changes() {
    let a = product("Red Mug", "<p>A mug</p>", vec![variant(1, "10.00", true), variant(2, "5.00", false)]);
    let mut b = a.clone();
    b.vendor = "someone else".to_string();
    b.variants[0].sku = "SKU-1".to_string();
    assert!(a.compare_with(&b).is_empty());
}

#[test]
fn diff_with_itself_is_empty() {
    let a = product("Red Mug", "<p>A mug</p>", vec![variant(1, "10.00", true), variant(3, "1.00", false)]);
    assert!(a.compare_with(&a).is_empty());
    let empty = product("", "", vec![]);
    assert!(empty.compare_with(&empty).is_empty());
}

#[test]
fn reversed_diff_swaps_old_and_new() {
    let a = product("Red Mug", "<p>A</p>", vec![variant(1, "10.00", true), variant(2, "3.00", true)]);
    let b = product("Blue Mug", "<p>B</p>", vec![variant(1, "12.50", false), variant(2, "3.00", true)]);
    let ab = a.compare_with(&b);
    let ba = b.compare_with(&a);
    assert_eq!(ab.len(), 4);
    assert_eq!(ba.len(), 4);
    assert!(matches!(&ab[0], ProductChange::TitleChanged { old, new } if old == "Red Mug" && new == "Blue Mug"));
    assert!(matches!(&ba[0], ProductChange::TitleChanged { old, new } if old == "Blue Mug" && new == "Red Mug"));
    assert!(matches!(&ab[1], ProductChange::DescriptionChanged { old, new } if old == "<p>A</p>" && new == "<p>B</p>"));
    assert!(matches!(&ba[1], ProductChange::DescriptionChanged { old, new } if old == "<p>B</p>" && new == "<p>A</p>"));
    assert!(matches!(&ab[2], ProductChange::VariantAvailabilityChanged { variant_id: 1, old_available: true, new_available: false }));
    assert!(matches!(&ba[2], ProductChange::VariantAvailabilityChanged { variant_id: 1, old_available: false, new_available: true }));
    assert!(matches!(&ab[3], ProductChange::VariantPriceChanged { variant_id: 1, old_price, new_price } if old_price == "10.00" && new_price == "12.50"));
    assert!(matches!(&ba[3], ProductChange::VariantPriceChanged { variant_id: 1, old_price, new_price } if old_price == "12.50" && new_price == "10.00"));
}

#[test]
fn removed_variant_is_not_reported() {
    let a = product("Red Mug", "", vec![variant(1, "10.00", true), variant(2, "5.00", true)]);
    let b = product("Red Mug", "", vec![variant(1, "10.00", true)]);
    assert!(a.compare_with(&b).is_empty());
}

#[test]
fn new_variant_reported_once_whatever_its_fields() {
    let a = product("Red Mug", "", vec![variant(1, "10.00", true)]);
    let b = product("Red Mug", "", vec![variant(9, "99.99", false), variant(1, "10.00", true)]);
    let changes = a.compare_with(&b);
    assert_eq!(changes.len(), 1);
    match &changes[0] {
        ProductChange::NewVariantAdded(v) => {
            assert_eq!(v.id, 9);
            assert_eq!(v.price, "99.99");
            assert!(!v.available);
            assert_eq!(v, &b.variants[0]);
        }
        other => panic!("unexpected change {:?}", other),
    }
}

#[test]
fn price_and_availability_change_of_one_variant() {
    let a = product("Mug", "", vec![variant(1, "10.00", true)]);
    let b = product("Mug", "", vec![variant(1, "12.50", false)]);
    let changes = a.compare_with(&b);
    assert_eq!(changes.len(), 2);
    assert!(matches!(&changes[0], ProductChange::VariantAvailabilityChanged { variant_id: 1, old_available: true, new_available: false }));
    assert!(matches!(&changes[1], ProductChange::VariantPriceChanged { variant_id: 1, old_price, new_price } if old_price == "10.00" && new_price == "12.50"));
}

#[test]
fn title_change_alone() {
    let a = product("Red Mug", "<p>x</p>", vec![variant(1, "10.00", true)]);
    let b = product("Red Mug v2", "<p>x</p>", vec![variant(1, "10.00", true)]);
    let changes = a.compare_with(&b);
    assert_eq!(changes.len(), 1);
    assert!(matches!(&changes[0], ProductChange::TitleChanged { old, new } if old == "Red Mug" && new == "Red Mug v2"));
}

#[test]
fn one_added_variant_among_kept_ones() {
    let a = product("Mug", "", vec![variant(1, "10.00", true)]);
    let b = product("Mug", "", vec![variant(1, "10.00", true), variant(2, "10.00", true)]);
    let changes = a.compare_with(&b);
    assert_eq!(changes.len(), 1);
    assert!(matches!(&changes[0], ProductChange::NewVariantAdded(v) if v.id == 2));
}

#[test]
fn price_compared_as_text() {
    let a = product("Mug", "", vec![variant(1, "10.0", true)]);
    let b = product("Mug", "", vec![variant(1, "10.00", true)]);
    let changes = a.compare_with(&b);
    assert_eq!(changes.len(), 1);
    assert!(matches!(&changes[0], ProductChange::VariantPriceChanged { variant_id: 1, old_price, new_price } if old_price == "10.0" && new_price == "10.00"));
}

#[test]
fn emission_order_is_fixed() {
    let a = product("A", "x", vec![variant(1, "1", true), variant(2, "2", true)]);
    let b = product("B", "y", vec![variant(3, "3", true), variant(2, "5", false), variant(4, "4", true), variant(1, "1", false)]);
    let changes = a.compare_with(&b);
    assert_eq!(changes.len(), 7);
    assert!(matches!(&changes[0], ProductChange::TitleChanged { .. }));
    assert!(matches!(&changes[1], ProductChange::DescriptionChanged { .. }));
    assert!(matches!(&changes[2], ProductChange::NewVariantAdded(v) if v.id == 3));
    assert!(matches!(&changes[3], ProductChange::NewVariantAdded(v) if v.id == 4));
    assert!(matches!(&changes[4], ProductChange::VariantAvailabilityChanged { variant_id: 1, .. }));
    assert!(matches!(&changes[5], ProductChange::VariantAvailabilityChanged { variant_id: 2, .. }));
    assert!(matches!(&changes[6], ProductChange::VariantPriceChanged { variant_id: 2, .. }));
}

#[test]
fn empty_variant_lists() {
    let empty = product("Mug", "", vec![]);
    let full = product("Mug", "", vec![variant(1, "1", true), variant(2, "2", true)]);
    let added = empty.compare_with(&full);
    assert_eq!(added.len(), 2);
    assert!(matches!(&added[0], ProductChange::NewVariantAdded(v) if v.id == 1));
    assert!(matches!(&added[1], ProductChange::NewVariantAdded(v) if v.id == 2));
    assert!(full.compare_with(&empty).is_empty());
}

#[test]
fn duplicate_ids_last_occurrence_wins() {
    let a = product("Mug", "", vec![variant(1, "1.00", true)]);
    let b = product("Mug", "", vec![variant(1, "2.00", true), variant(1, "3.00", true)]);
    let changes = a.compare_with(&b);
    assert_eq!(changes.len(), 1);
    assert!(matches!(&changes[0], ProductChange::VariantPriceChanged { variant_id: 1, old_price, new_price } if old_price == "1.00" && new_price == "3.00"));
}

#[test]
fn equal_fields_in_another_order_give_no_changes() {
    let a = product("Mug", "d", vec![variant(1, "1.00", true), variant(2, "2.00", false), variant(3, "3.00", true)]);
    let b = product("Mug", "d", vec![variant(2, "2.00", false), variant(1, "1.00", true)]);
    assert!(a.compare_with(&b).is_empty());
}

#[test]
fn new_variant_once_though_other_ids_repeat() {
    let a = product("Mug", "", vec![variant(1, "1.00", true)]);
    let b = product("Mug", "", vec![variant(1, "1.00", true), variant(1, "1.00", true), variant(5, "7.00", false)]);
    let changes = a.compare_with(&b);
    assert_eq!(changes.len(), 1);
    assert!(matches!(&changes[0], ProductChange::NewVariantAdded(v) if v.id == 5 && v.price == "7.00"));
}
