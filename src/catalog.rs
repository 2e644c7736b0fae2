//! Picking the tracked products out of a fetched catalog.

use vstd::prelude::*;

use crate::models::{Product, ProductView, products_view};

verus! {

/// The earliest product in `ps` with identity `id`.
pub open spec fn first_match(ps: Seq<ProductView>, id: u64) -> Option<ProductView>
    decreases ps.len(),
{
    if ps.len() == 0 {
        None
    } else {
        match first_match(ps.drop_last(), id) {
            Some(p) => Some(p),
            None => if ps.last().id == id {
                Some(ps.last())
            } else {
                None
            },
        }
    }
}

/// Some product in `ps` has identity `id`.
pub open spec fn has_product(ps: Seq<ProductView>, id: u64) -> bool {
    exists|i: int| 0 <= i < ps.len() && ps[i].id == id
}

/// No two products in `ps` share an identity.
pub open spec fn unique_products(ps: Seq<ProductView>) -> bool {
    forall|i: int, j: int| 0 <= i < ps.len() && 0 <= j < ps.len() && i != j ==> ps[i].id != ps[j].id
}

/// The table of tracked products: for each id of `ids` in turn, the first
/// product of the catalog `ps` with it, unless the table already holds that id.
pub open spec fn selected(ps: Seq<ProductView>, ids: Seq<u64>) -> Seq<ProductView>
    decreases ids.len(),
{
    if ids.len() == 0 {
        seq![]
    } else {
        let table = selected(ps, ids.drop_last());
        if has_product(table, ids.last()) {
            table
        } else {
            match first_match(ps, ids.last()) {
                Some(p) => table.push(p),
                None => table,
            }
        }
    }
}

proof fn lemma_first_match(ps: Seq<ProductView>, id: u64)
    ensures
        first_match(ps, id) is Some <==> has_product(ps, id),
        first_match(ps, id) is Some ==> first_match(ps, id)->Some_0.id == id,
    decreases ps.len(),
{
    if ps.len() > 0 {
        lemma_first_match(ps.drop_last(), id);
        if has_product(ps, id) && ps.last().id != id {
            let i = choose|i: int| 0 <= i < ps.len() && ps[i].id == id;
            assert(ps.drop_last()[i].id == id);
        }
        if has_product(ps.drop_last(), id) {
            let i = choose|i: int| 0 <= i < ps.drop_last().len() && ps.drop_last()[i].id == id;
            assert(ps[i].id == id);
        }
    }
}

/// The first product in `products` whose identity is `target_id`.
pub fn find_product_by_id(products: &[Product], target_id: u64) -> (r: Option<&Product>)
    ensures
        match r {
            Some(p) => first_match(products_view(products@), target_id) == Some(p@),
            None => first_match(products_view(products@), target_id) is None,
        },
{
    let ghost pv = products_view(products@);
    let mut i: usize = 0;
    while i < products.len()
        invariant
            i <= products@.len(),
            pv == products_view(products@),
            first_match(pv.take(i as int), target_id) is None,
        decreases products@.len() - i,
    {
        proof {
            assert(pv.take(i + 1).drop_last() =~= pv.take(i as int));
            assert(pv.take(i + 1).last() == products@[i as int]@);
        }
        if products[i].id == target_id {
            proof {
                lemma_first_match_prefix(pv, i as int + 1, target_id);
            }
            return Some(&products[i]);
        }
        i = i + 1;
    }
    assert(pv.take(i as int) =~= pv);
    None
}

/// A match found in a prefix is the match of the whole sequence.
proof fn lemma_first_match_prefix(ps: Seq<ProductView>, n: int, id: u64)
    requires
        0 <= n <= ps.len(),
        first_match(ps.take(n), id) is Some,
    ensures
        first_match(ps, id) == first_match(ps.take(n), id),
    decreases ps.len() - n,
{
    if n < ps.len() {
        assert(ps.take(n + 1).drop_last() =~= ps.take(n));
        lemma_first_match_prefix(ps, n + 1, id);
    } else {
        assert(ps.take(n) =~= ps);
    }
}

/// Keeps the products that `product_ids` asks for, each id once, in the order
/// in which the ids first ask for them.
pub fn select_products(products: &[Product], product_ids: &[u64]) -> (r: Vec<Product>)
    ensures
        products_view(r@) == selected(products_view(products@), product_ids@),
        unique_products(products_view(r@)),
{
    let ghost pv = products_view(products@);
    let mut table: Vec<Product> = Vec::new();
    let mut i: usize = 0;
    while i < product_ids.len()
        invariant
            i <= product_ids@.len(),
            pv == products_view(products@),
            products_view(table@) == selected(pv, product_ids@.take(i as int)),
            unique_products(products_view(table@)),
        decreases product_ids@.len() - i,
    {
        let id = product_ids[i];
        let ghost before = products_view(table@);
        proof {
            assert(product_ids@.take(i + 1).drop_last() =~= product_ids@.take(i as int));
            assert(product_ids@.take(i + 1).last() == id);
            lemma_first_match(before, id);
        }
        let present = find_product_by_id(table.as_slice(), id).is_some();
        if !present {
            match find_product_by_id(products, id) {
                Some(p) => {
                    proof {
                        lemma_first_match(pv, id);
                    }
                    table.push(p.clone());
                    assert(products_view(table@) =~= before.push(p@));
                },
                None => {},
            }
        }
        i = i + 1;
    }
    assert(product_ids@.take(i as int) =~= product_ids@);
    table
}

} // verus!
