//! The push notification that reports one change of a product.

use reqwest::Url;
use vstd::prelude::*;

use crate::models::{Product, strs_view};
use crate::product_comparison::{ChangeView, ProductChange};

verus! {

/// How urgently the receiving client presents a notification.
#[derive(Debug, Clone, Copy, PartialEq, Eq, Structural)]
pub enum Priority {
    Min,
    Low,
    Default,
    High,
    Max,
}

/// What is sent for one change.
#[derive(Debug)]
pub struct Notification {
    pub title: String,
    pub message: String,
    pub priority: Priority,
    pub tags: Vec<String>,
}

/// Why a notification could not be built.
#[derive(Debug, Clone, Copy, PartialEq, Eq, Structural)]
pub enum BuildError {
    /// The link to the product page could not be formed from the base URL.
    ProductLink,
}


/// The decimal digits of `n`, most significant first.
pub open spec fn digits(n: nat) -> Seq<char>
    decreases n,
{
    let d = seq!['0', '1', '2', '3', '4', '5', '6', '7', '8', '9'];
    if n < 10 {
        seq![d[n as int]]
    } else {
        digits(n / 10).push(d[(n % 10) as int])
    }
}

/// The decimal text of an integer, with a leading minus sign when negative.
pub open spec fn decimal_text(n: int) -> Seq<char> {
    if n < 0 {
        seq!['-'] + digits((-n) as nat)
    } else {
        digits(n as nat)
    }
}

/// The digit character of a single decimal digit.
fn digit_str(d: u64) -> (r: &'static str)
    requires
        d < 10,
    ensures
        r@ == seq![seq!['0', '1', '2', '3', '4', '5', '6', '7', '8', '9'][d as int]],
{
    proof {
        reveal_strlit("0");
        reveal_strlit("1");
        reveal_strlit("2");
        reveal_strlit("3");
        reveal_strlit("4");
        reveal_strlit("5");
        reveal_strlit("6");
        reveal_strlit("7");
        reveal_strlit("8");
        reveal_strlit("9");
    }
    match d {
        0 => "0",
        1 => "1",
        2 => "2",
        3 => "3",
        4 => "4",
        5 => "5",
        6 => "6",
        7 => "7",
        8 => "8",
        _ => "9",
    }
}

/// The decimal digits of `m`.
fn digits_of(m: u64) -> (r: String)
    ensures
        r@ == digits(m as nat),
    decreases m,
{
    if m < 10 {
        String::from_str(digit_str(m))
    } else {
        let mut s = digits_of(m / 10);
        s.append(digit_str(m % 10));
        s
    }
}

/// The decimal text of `n`.
fn decimal(n: i64) -> (r: String)
    ensures
        r@ == decimal_text(n as int),
{
    if n < 0 {
        let m: u64 = (0i128 - n as i128) as u64;
        let mut s = String::from_str("-");
        proof {
            reveal_strlit("-");
        }
        s.append(digits_of(m).as_str());
        s
    } else {
        digits_of(n as u64)
    }
}

/// The text of the URL that `input` denotes relative to the URL `base`, if
/// `base` parses as a URL and `input` resolves against it.
pub uninterp spec fn joined_url(base: Seq<char>, input: Seq<char>) -> Option<Seq<char>>;

/// Relies on url::Url::parse and url::Url::join, which reqwest re-exports:
/// `input` resolved against `base`, a function of the two texts alone.
#[verifier::external_body]
fn join_url(base: &str, input: &str) -> (r: Option<String>)
    ensures
        match r {
            Some(u) => joined_url(base@, input@) == Some(u@),
            None => joined_url(base@, input@) is None,
        },
{
    match Url::parse(base) {
        Ok(b) => b.join(input).ok().map(String::from),
        Err(_) => None,
    }
}

/// The link to a product page: `handle` under `/products/` of `base`.
pub open spec fn product_link(base: Seq<char>, handle: Seq<char>) -> Option<Seq<char>> {
    match joined_url(base, "/products/"@) {
        Some(products) => joined_url(products, handle),
        None => None,
    }
}

/// How a stock state reads in a message.
pub open spec fn stock_text(available: bool) -> Seq<char> {
    if available {
        "In Stock"@
    } else {
        "Out of Stock"@
    }
}

/// The heading of the notification for a change.
pub open spec fn notification_title(c: ChangeView) -> Seq<char> {
    match c {
        ChangeView::VariantPriceChanged { variant_id, .. } => "Price Update for Variant "@
            + decimal_text(variant_id as int),
        ChangeView::VariantAvailabilityChanged { variant_id, .. } => "Variant "@ + decimal_text(
            variant_id as int,
        ) + " Availability Update"@,
        ChangeView::NewVariantAdded(v) => "New Variant Added: "@ + v.title,
        ChangeView::TitleChanged { .. } => "Product Title Changed"@,
        ChangeView::DescriptionChanged { .. } => "Product Description Changed"@,
    }
}

/// The message of a description change, given both texts already rendered.
pub open spec fn description_text(old_md: Seq<char>, new_md: Seq<char>) -> Seq<char> {
    "Changed from:\n"@ + old_md + "\nto:\n"@ + new_md
}

/// The body of the notification for a change; a description change shows
/// the two descriptions as rendered for reading (`old_md`, `new_md`).
pub open spec fn notification_message(c: ChangeView, old_md: Seq<char>, new_md: Seq<char>) -> Seq<
    char,
> {
    match c {
        ChangeView::VariantPriceChanged { old_price, new_price, .. } => "Price changed from "@
            + old_price + " GBP to "@ + new_price + " GBP"@,
        ChangeView::VariantAvailabilityChanged { old_available, new_available, .. } =>
            "Availability changed from "@ + stock_text(old_available) + " to "@ + stock_text(
            new_available,
        ),
        ChangeView::NewVariantAdded(v) => "New variant added with price: "@ + v.price + " GBP"@,
        ChangeView::TitleChanged { old, new } => "Changed from '"@ + old + "' to '"@ + new + "'"@,
        ChangeView::DescriptionChanged { .. } => description_text(old_md, new_md),
    }
}

/// The priority of the notification for a change, fixed by its kind: a
/// change of availability is the most urgent, a description change the least.
pub open spec fn notification_priority(c: ChangeView) -> Priority {
    match c {
        ChangeView::VariantPriceChanged { .. } => Priority::High,
        ChangeView::VariantAvailabilityChanged { .. } => Priority::Max,
        ChangeView::NewVariantAdded(_) => Priority::Default,
        ChangeView::TitleChanged { .. } => Priority::Default,
        ChangeView::DescriptionChanged { .. } => Priority::Low,
    }
}

/// The two tags of the notification for a change: its kind, then an icon.
pub open spec fn notification_tags(c: ChangeView) -> Seq<Seq<char>> {
    match c {
        ChangeView::VariantPriceChanged { .. } => seq!["price"@, "loudspeaker"@],
        ChangeView::VariantAvailabilityChanged { .. } => seq!["availability"@, "rotating_light"@],
        ChangeView::NewVariantAdded(_) => seq!["variant"@, "new"@],
        ChangeView::TitleChanged { .. } => seq!["title"@, "womans_hat"@],
        ChangeView::DescriptionChanged { .. } => seq!["description"@, "womans_clothes"@],
    }
}

/// The notification is the one that `c` calls for.
pub open spec fn describes(
    n: Notification,
    c: ChangeView,
    old_md: Seq<char>,
    new_md: Seq<char>,
) -> bool {
    &&& n.title@ == notification_title(c)
    &&& n.message@ == notification_message(c, old_md, new_md)
    &&& n.priority == notification_priority(c)
    &&& strs_view(n.tags@) == notification_tags(c)
}

fn stock_label(available: bool) -> (r: &'static str)
    ensures
        r@ == stock_text(available),
{
    if available {
        "In Stock"
    } else {
        "Out of Stock"
    }
}

fn two_tags(kind: &str, icon: &str) -> (r: Vec<String>)
    ensures
        strs_view(r@) == seq![kind@, icon@],
{
    let mut tags: Vec<String> = Vec::new();
    tags.push(String::from_str(kind));
    tags.push(String::from_str(icon));
    assert(strs_view(tags@) =~= seq![kind@, icon@]);
    tags
}

/// The message of a description change, from the two texts already rendered
/// as markdown.
pub fn description_message(old_md: &str, new_md: &str) -> (r: String)
    ensures
        r@ == description_text(old_md@, new_md@),
{
    let mut m = String::from_str("Changed from:\n");
    m.append(old_md);
    m.append("\nto:\n");
    m.append(new_md);
    m
}

/// Builds notifications for changes.
pub struct NotificationBuilder;

impl NotificationBuilder {
    /// The notification that reports `change`. For a description change,
    /// `old_markdown` and `new_markdown` are the two descriptions already
    /// rendered from HTML for reading; other changes do not use them.
    pub fn notification_for(change: &ProductChange, old_markdown: &str, new_markdown: &str) -> (n:
        Notification)
        ensures
            describes(n, change@, old_markdown@, new_markdown@),
    {
        match change {
            ProductChange::VariantPriceChanged { variant_id, old_price, new_price } => {
                let mut title = String::from_str("Price Update for Variant ");
                title.append(decimal(*variant_id).as_str());
                let mut message = String::from_str("Price changed from ");
                message.append(old_price.as_str());
                message.append(" GBP to ");
                message.append(new_price.as_str());
                message.append(" GBP");
                Notification {
                    title,
                    message,
                    priority: Priority::High,
                    tags: two_tags("price", "loudspeaker"),
                }
            },
            ProductChange::VariantAvailabilityChanged {
                variant_id,
                old_available,
                new_available,
            } => {
                let mut title = String::from_str("Variant ");
                title.append(decimal(*variant_id).as_str());
                title.append(" Availability Update");
                let mut message = String::from_str("Availability changed from ");
                message.append(stock_label(*old_available));
                message.append(" to ");
                message.append(stock_label(*new_available));
                Notification {
                    title,
                    message,
                    priority: Priority::Max,
                    tags: two_tags("availability", "rotating_light"),
                }
            },
            ProductChange::NewVariantAdded(variant) => {
                let mut title = String::from_str("New Variant Added: ");
                title.append(variant.title.as_str());
                let mut message = String::from_str("New variant added with price: ");
                message.append(variant.price.as_str());
                message.append(" GBP");
                Notification {
                    title,
                    message,
                    priority: Priority::Default,
                    tags: two_tags("variant", "new"),
                }
            },
            ProductChange::TitleChanged { old, new } => {
                let mut message = String::from_str("Changed from '");
                message.append(old.as_str());
                message.append("' to '");
                message.append(new.as_str());
                message.append("'");
                Notification {
                    title: String::from_str("Product Title Changed"),
                    message,
                    priority: Priority::Default,
                    tags: two_tags("title", "womans_hat"),
                }
            },
            ProductChange::DescriptionChanged { .. } => {
                Notification {
                    title: String::from_str("Product Description Changed"),
                    message: description_message(old_markdown, new_markdown),
                    priority: Priority::Low,
                    tags: two_tags("description", "womans_clothes"),
                }
            },
        }
    }

    /// The notification that reports `change`, with the link to the page of
    /// `product`: its handle under `/products/` of `base_url`. Fails exactly
    /// where that link cannot be formed. The two markdown texts serve as in
    /// [`NotificationBuilder::notification_for`].
    pub fn build_from_change(
        change: &ProductChange,
        product: &Product,
        base_url: &str,
        old_markdown: &str,
        new_markdown: &str,
    ) -> (r: Result<(Notification, String), BuildError>)
        ensures
            r is Ok <==> product_link(base_url@, product.handle@) is Some,
            r matches Ok((n, link)) ==> describes(n, change@, old_markdown@, new_markdown@) && Some(link@) == product_link(
                base_url@,
                product.handle@,
            ),
            r matches Err(e) ==> e == BuildError::ProductLink,
    {
        let notification = Self::notification_for(change, old_markdown, new_markdown);
        let products = match join_url(base_url, "/products/") {
            Some(u) => u,
            None => return Err(BuildError::ProductLink),
        };
        match join_url(products.as_str(), product.handle.as_str()) {
            Some(link) => Ok((notification, link)),
            None => Err(BuildError::ProductLink),
        }
    }
}

} // verus!
