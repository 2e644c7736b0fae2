use giveeggs::models::{Product, Variant};
use giveeggs::notification::{description_message, BuildError, NotificationBuilder, Priority};
use giveeggs::product_comparison::ProductChange;

#[test]
fn price_notification() {
    let change = ProductChange::VariantPriceChanged {
        variant_id: 42,
        old_price: "10.00".to_string(),
        new_price: "12.50".to_string(),
    };
    let n = NotificationBuilder::notification_for(&change, "", "");
    assert_eq!(n.title, "Price Update for Variant 42");
    assert_eq!(n.message, "Price changed from 10.00 GBP to 12.50 GBP");
    assert_eq!(n.priority, Priority::High);
    assert_eq!(n.tags, vec!["price".to_string(), "loudspeaker".to_string()]);
}

#[test]
fn negative_variant_id_is_written_with_sign() {
    let change = ProductChange::VariantAvailabilityChanged {
        variant_id: -7,
        old_available: true,
        new_available: false,
    };
    let n = NotificationBuilder::notification_for(&change, "", "");
    assert_eq!(n.title, "Variant -7 Availability Update");
    assert_eq!(n.message, "Availability changed from In Stock to Out of Stock");
    assert_eq!(n.priority, Priority::Max);
    assert_eq!(n.tags, vec!["availability".to_string(), "rotating_light".to_string()]);
}

#[test]
fn back_in_stock_has_the_same_priority() {
    let change = ProductChange::VariantAvailabilityChanged {
        variant_id: 8314152616094,
        old_available: false,
        new_available: true,
    };
    let n = NotificationBuilder::notification_for(&change, "", "");
    assert_eq!(n.title, "Variant 8314152616094 Availability Update");
    assert_eq!(n.message, "Availability changed from Out of Stock to In Stock");
    assert_eq!(n.priority, Priority::Max);
}

#[test]
fn added_variant_notification() {
    let v = Variant { id: 2, title: "Large".to_string(), price: "15.00".to_string(), ..Default::default() };
    let n = NotificationBuilder::notification_for(&ProductChange::NewVariantAdded(v), "", "");
    assert_eq!(n.title, "New Variant Added: Large");
    assert_eq!(n.message, "New variant added with price: 15.00 GBP");
    assert_eq!(n.priority, Priority::Default);
    assert_eq!(n.tags, vec!["variant".to_string(), "new".to_string()]);
}

#[test]
fn title_notification() {
    let change = ProductChange::TitleChanged { old: "Red Mug".to_string(), new: "Red Mug v2".to_string() };
    let n = NotificationBuilder::notification_for(&change, "", "");
    assert_eq!(n.title, "Product Title Changed");
    assert_eq!(n.message, "Changed from 'Red Mug' to 'Red Mug v2'");
    let same = NotificationBuilder::notification_for(&change, "ignored", "also ignored");
    assert_eq!(same.message, n.message);
    assert_eq!(n.priority, Priority::Default);
    assert_eq!(n.tags, vec!["title".to_string(), "womans_hat".to_string()]);
}

#[test]
fn description_notification_shows_rendered_texts() {
    let old = "<p><strong>Old</strong> mug</p>";
    let new = "<p>New mug</p>";
    let change = ProductChange::DescriptionChanged { old: old.to_string(), new: new.to_string() };
    let old_md = html2md::parse_html(old);
    let new_md = html2md::parse_html(new);
    let n = NotificationBuilder::notification_for(&change, &old_md, &new_md);
    assert_eq!(n.title, "Product Description Changed");
    assert_eq!(n.message, format!("Changed from:\n{}\nto:\n{}", old_md, new_md));
    assert!(n.message.contains("**Old** mug"));
    assert!(!n.message.contains("<p>"));
    assert_eq!(n.priority, Priority::Low);
    assert_eq!(n.tags, vec!["description".to_string(), "womans_clothes".to_string()]);
}

#[test]
fn description_message_layout() {
    assert_eq!(description_message("a", "b"), "Changed from:\na\nto:\nb");
    assert_eq!(description_message("", ""), "Changed from:\n\nto:\n");
}

#[test]
fn link_points_at_product_page() {
    let product = Product { id: 1, handle: "red-mug".to_string(), ..Default::default() };
    let change = ProductChange::TitleChanged { old: "a".to_string(), new: "b".to_string() };
    let (n, link) = NotificationBuilder::build_from_change(&change, &product, "https://eggdot.net/", "", "").expect("link");
    assert_eq!(link, "https://eggdot.net/products/red-mug");
    assert_eq!(n.message, "Changed from 'a' to 'b'");
}

#[test]
fn unusable_base_gives_link_error() {
    let product = Product { id: 1, handle: "red-mug".to_string(), ..Default::default() };
    let change = ProductChange::TitleChanged { old: "a".to_string(), new: "b".to_string() };
    let r = NotificationBuilder::build_from_change(&change, &product, "data:text/plain,hello", "", "");
    assert!(matches!(r, Err(BuildError::ProductLink)));
    let r = NotificationBuilder::build_from_change(&change, &product, "not a url", "", "");
    assert!(matches!(r, Err(BuildError::ProductLink)));
}

#[test]
fn extreme_variant_ids_are_written_in_full() {
    let low = ProductChange::VariantPriceChanged {
        variant_id: i64::MIN,
        old_price: "1".to_string(),
        new_price: "2".to_string(),
    };
    assert_eq!(NotificationBuilder::notification_for(&low, "", "").title, "Price Update for Variant -9223372036854775808");
    let high = ProductChange::VariantPriceChanged {
        variant_id: i64::MAX,
        old_price: "1".to_string(),
        new_price: "2".to_string(),
    };
    assert_eq!(NotificationBuilder::notification_for(&high, "", "").title, "Price Update for Variant 9223372036854775807");
    let zero = ProductChange::VariantPriceChanged { variant_id: 0, old_price: "1".to_string(), new_price: "2".to_string() };
    assert_eq!(NotificationBuilder::notification_for(&zero, "", "").title, "Price Update for Variant 0");
}
