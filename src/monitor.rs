//! The state kept between polling cycles, and what one cycle decides.

use vstd::prelude::*;

use crate::catalog::{find_product_by_id, first_match};
use crate::models::{Product, ProductView, products_view};
use crate::product_comparison::{ChangeView, ProductChange, changes_view, diff};

verus! {

/// The changes of each product compared in one cycle, tagged with its id.
pub open spec fn report_view(r: Seq<(u64, Vec<ProductChange>)>) -> Seq<(u64, Seq<ChangeView>)> {
    r.map_values(|e: (u64, Vec<ProductChange>)| (e.0, changes_view(e.1@)))
}

/// For each product of `cur`, in order, that `prev` also holds: its id and
/// the diff from the earlier snapshot to the later one. A product that
/// `prev` lacks is taken in silently.
pub open spec fn cycle_changes(prev: Seq<ProductView>, cur: Seq<ProductView>) -> Seq<
    (u64, Seq<ChangeView>),
>
    decreases cur.len(),
{
    if cur.len() == 0 {
        seq![]
    } else {
        cycle_changes(prev, cur.drop_last()) + match first_match(prev, cur.last().id) {
            Some(q) => seq![(cur.last().id, diff(q, cur.last()))],
            None => seq![],
        }
    }
}

/// Watches a set of products: holds the last table of snapshots taken.
pub struct ProductMonitor {
    /// The ids of the products watched.
    pub product_ids: Vec<u64>,
    /// The table adopted at the last successful fetch.
    pub previous_products: Vec<Product>,
    /// A first table has been adopted.
    pub ready: bool,
}

impl ProductMonitor {
    /// A monitor of `product_ids` that has seen nothing yet.
    pub fn new(product_ids: Vec<u64>) -> (m: Self)
        ensures
            m.product_ids@ == product_ids@,
            m.previous_products@.len() == 0,
            !m.ready,
    {
        ProductMonitor { product_ids, previous_products: Vec::new(), ready: false }
    }

    /// Adopts the first fetched table as the baseline, reporting nothing.
    pub fn initialize(&mut self, current: Vec<Product>)
        ensures
            final(self).previous_products == current,
            final(self).product_ids == old(self).product_ids,
            final(self).ready,
    {
        self.previous_products = current;
        self.ready = true;
    }

    /// One cycle after a successful fetch of `current`: the changes of every
    /// product that was seen before, then `current` replaces the table whole.
    pub fn check_for_changes(&mut self, current: Vec<Product>) -> (r: Vec<(u64, Vec<ProductChange>)>)
        ensures
            report_view(r@) == cycle_changes(
                products_view(old(self).previous_products@),
                products_view(current@),
            ),
            final(self).previous_products == current,
            final(self).product_ids == old(self).product_ids,
            final(self).ready,
    {
        let ghost prev = products_view(self.previous_products@);
        let ghost cur = products_view(current@);
        let mut report: Vec<(u64, Vec<ProductChange>)> = Vec::new();
        let mut i: usize = 0;
        while i < current.len()
            invariant
                i <= current@.len(),
                prev == products_view(self.previous_products@),
                cur == products_view(current@),
                report_view(report@) == cycle_changes(prev, cur.take(i as int)),
            decreases current@.len() - i,
        {
            let product = &current[i];
            proof {
                assert(cur.take(i + 1).drop_last() =~= cur.take(i as int));
                assert(cur.take(i + 1).last() == product@);
            }
            let ghost before = report_view(report@);
            match find_product_by_id(self.previous_products.as_slice(), product.id) {
                Some(previous) => {
                    let changes = previous.compare_with(product);
                    report.push((product.id, changes));
                    assert(report_view(report@) =~= before.push(
                        (product@.id, diff(previous@, product@)),
                    ));
                },
                None => {},
            }
            assert(report_view(report@) =~= cycle_changes(prev, cur.take(i + 1)));
            i = i + 1;
        }
        assert(cur.take(i as int) =~= cur);
        self.previous_products = current;
        self.ready = true;
        report
    }
}

} // verus!
