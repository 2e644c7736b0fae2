//! The diff between two snapshots of one product.

use std::collections::HashMap;
use vstd::prelude::*;

use crate::models::{Product, ProductView, Variant, VariantView, variants_view};

verus! {

broadcast use vstd::std_specs::hash::group_hash_axioms;

/// One detected difference between two snapshots of a product.
#[derive(Debug)]
pub enum ProductChange {
    TitleChanged { old: String, new: String },
    DescriptionChanged { old: String, new: String },
    VariantPriceChanged { variant_id: i64, old_price: String, new_price: String },
    VariantAvailabilityChanged { variant_id: i64, old_available: bool, new_available: bool },
    NewVariantAdded(Variant),
}

/// The mathematical value of a [`ProductChange`].
pub enum ChangeView {
    TitleChanged { old: Seq<char>, new: Seq<char> },
    DescriptionChanged { old: Seq<char>, new: Seq<char> },
    VariantPriceChanged { variant_id: i64, old_price: Seq<char>, new_price: Seq<char> },
    VariantAvailabilityChanged { variant_id: i64, old_available: bool, new_available: bool },
    NewVariantAdded(VariantView),
}

impl View for ProductChange {
    type V = ChangeView;

    open spec fn view(&self) -> ChangeView {
        match self {
            ProductChange::TitleChanged { old, new } => ChangeView::TitleChanged {
                old: old@,
                new: new@,
            },
            ProductChange::DescriptionChanged { old, new } => ChangeView::DescriptionChanged {
                old: old@,
                new: new@,
            },
            ProductChange::VariantPriceChanged { variant_id, old_price, new_price } =>
                ChangeView::VariantPriceChanged {
                variant_id: *variant_id,
                old_price: old_price@,
                new_price: new_price@,
            },
            ProductChange::VariantAvailabilityChanged {
                variant_id,
                old_available,
                new_available,
            } => ChangeView::VariantAvailabilityChanged {
                variant_id: *variant_id,
                old_available: *old_available,
                new_available: *new_available,
            },
            ProductChange::NewVariantAdded(v) => ChangeView::NewVariantAdded(v@),
        }
    }
}

/// The views of a sequence of changes, in order.
pub open spec fn changes_view(s: Seq<ProductChange>) -> Seq<ChangeView> {
    s.map_values(|c: ProductChange| c@)
}

/// The variant that a lookup by `id` finds: the last one in `vs` that has it.
pub open spec fn lookup(vs: Seq<VariantView>, id: i64) -> Option<VariantView>
    decreases vs.len(),
{
    if vs.len() == 0 {
        None
    } else if vs.last().id == id {
        Some(vs.last())
    } else {
        lookup(vs.drop_last(), id)
    }
}

/// Some variant in `vs` has the identity `id`.
pub open spec fn has_variant(vs: Seq<VariantView>, id: i64) -> bool {
    exists|i: int| 0 <= i < vs.len() && vs[i].id == id
}

/// No two variants in `vs` share an identity.
pub open spec fn unique_ids(vs: Seq<VariantView>) -> bool {
    forall|i: int, j: int| 0 <= i < vs.len() && 0 <= j < vs.len() && i != j ==> vs[i].id != vs[j].id
}

/// Title then description: each reported where it differs.
pub open spec fn attribute_changes(prev: ProductView, cur: ProductView) -> Seq<ChangeView> {
    (if prev.title != cur.title {
        seq![ChangeView::TitleChanged { old: prev.title, new: cur.title }]
    } else {
        seq![]
    }) + (if prev.body_html != cur.body_html {
        seq![ChangeView::DescriptionChanged { old: prev.body_html, new: cur.body_html }]
    } else {
        seq![]
    })
}

/// One record for each variant of `cur`, in its order, whose identity `prev` lacks.
pub open spec fn added_changes(prev: Seq<VariantView>, cur: Seq<VariantView>) -> Seq<ChangeView>
    decreases cur.len(),
{
    if cur.len() == 0 {
        seq![]
    } else {
        added_changes(prev, cur.drop_last()) + if lookup(prev, cur.last().id) is None {
            seq![ChangeView::NewVariantAdded(cur.last())]
        } else {
            seq![]
        }
    }
}

/// Availability, then price, of one variant seen before (`o`) and now (`n`).
pub open spec fn variant_changes(o: VariantView, n: VariantView) -> Seq<ChangeView> {
    (if o.available != n.available {
        seq![
            ChangeView::VariantAvailabilityChanged {
                variant_id: o.id,
                old_available: o.available,
                new_available: n.available,
            },
        ]
    } else {
        seq![]
    }) + (if o.price != n.price {
        seq![
            ChangeView::VariantPriceChanged {
                variant_id: o.id,
                old_price: o.price,
                new_price: n.price,
            },
        ]
    } else {
        seq![]
    })
}

/// For each variant of `prev`, in its order, that `cur` still has: what changed.
pub open spec fn updated_changes(prev: Seq<VariantView>, cur: Seq<VariantView>) -> Seq<ChangeView>
    decreases prev.len(),
{
    if prev.len() == 0 {
        seq![]
    } else {
        updated_changes(prev.drop_last(), cur) + match lookup(cur, prev.last().id) {
            Some(n) => variant_changes(prev.last(), n),
            None => seq![],
        }
    }
}

/// Everything that changed from `prev` to `cur`, in the order of emission.
pub open spec fn diff(prev: ProductView, cur: ProductView) -> Seq<ChangeView> {
    attribute_changes(prev, cur) + added_changes(prev.variants, cur.variants) + updated_changes(
        prev.variants,
        cur.variants,
    )
}

/// Builds the lookup from identity to the index of the last variant that has it.
fn index_variants(vs: &Vec<Variant>) -> (m: HashMap<i64, usize>)
    ensures
        forall|k: i64|
            #![trigger m@.contains_key(k)]
            {
                &&& m@.contains_key(k) <==> lookup(variants_view(vs@), k) is Some
                &&& m@.contains_key(k) ==> {
                    &&& m@[k] < vs@.len()
                    &&& lookup(variants_view(vs@), k) == Some(vs@[m@[k] as int]@)
                }
            },
{
    let mut m: HashMap<i64, usize> = HashMap::new();
    let ghost vv = variants_view(vs@);
    let mut i: usize = 0;
    while i < vs.len()
        invariant
            i <= vs@.len(),
            vv == variants_view(vs@),
            forall|k: i64|
                #![trigger m@.contains_key(k)]
                {
                    &&& m@.contains_key(k) <==> lookup(vv.take(i as int), k) is Some
                    &&& m@.contains_key(k) ==> {
                        &&& m@[k] < i
                        &&& lookup(vv.take(i as int), k) == Some(vs@[m@[k] as int]@)
                    }
                },
        decreases vs@.len() - i,
    {
        let id = vs[i].id;
        m.insert(id, i);
        proof {
            assert(vv.take(i + 1).drop_last() =~= vv.take(i as int));
            assert(vv.take(i + 1).last() == vs@[i as int]@);
        }
        i = i + 1;
    }
    assert(vv.take(vs@.len() as int) =~= vv);
    m
}

impl Product {
    /// Every change from `self` (the earlier snapshot) to `other` (the later one).
    pub fn compare_with(&self, other: &Product) -> (changes: Vec<ProductChange>)
        ensures
            changes_view(changes@) == diff(self@, other@),
    {
        let mut changes = Vec::new();
        self.compare_basic_attributes(other, &mut changes);
        self.compare_variants(other, &mut changes);
        assert(changes_view(changes@) =~= diff(self@, other@));
        changes
    }

    fn compare_basic_attributes(&self, other: &Product, changes: &mut Vec<ProductChange>)
        ensures
            changes_view(final(changes)@) == changes_view(old(changes)@) + attribute_changes(
                self@,
                other@,
            ),
    {
        let ghost start = changes_view(changes@);
        if self.title != other.title {
            changes.push(
                ProductChange::TitleChanged { old: self.title.clone(), new: other.title.clone() },
            );
        }
        let ghost mid = changes_view(changes@);
        assert(mid =~= start + (if self@.title != other@.title {
            seq![ChangeView::TitleChanged { old: self@.title, new: other@.title }]
        } else {
            seq![]
        }));
        if self.body_html != other.body_html {
            changes.push(
                ProductChange::DescriptionChanged {
                    old: self.body_html.clone(),
                    new: other.body_html.clone(),
                },
            );
        }
        assert(changes_view(changes@) =~= start + attribute_changes(self@, other@));
    }

    fn compare_variants(&self, other: &Product, changes: &mut Vec<ProductChange>)
        ensures
            changes_view(final(changes)@) == changes_view(old(changes)@) + added_changes(
                self@.variants,
                other@.variants,
            ) + updated_changes(self@.variants, other@.variants),
    {
        let old_variants = index_variants(&self.variants);
        let new_variants = index_variants(&other.variants);
        let ghost start = changes_view(changes@);
        let ghost pv = self@.variants;
        let ghost cv = other@.variants;

        let mut j: usize = 0;
        while j < other.variants.len()
            invariant
                j <= other.variants@.len(),
                pv == self@.variants,
                cv == other@.variants,
                forall|k: i64|
                    #![trigger old_variants@.contains_key(k)]
                    old_variants@.contains_key(k) <==> lookup(pv, k) is Some,
                changes_view(changes@) == start + added_changes(pv, cv.take(j as int)),
            decreases other.variants@.len() - j,
        {
            let new_variant = &other.variants[j];
            proof {
                assert(cv.take(j + 1).drop_last() =~= cv.take(j as int));
                assert(cv.take(j + 1).last() == new_variant@);
            }
            let ghost before = changes_view(changes@);
            let seen = old_variants.contains_key(&new_variant.id);
            assert(seen == old_variants@.contains_key(new_variant.id));
            if !seen {
                changes.push(ProductChange::NewVariantAdded(new_variant.clone()));
                assert(changes_view(changes@) =~= before.push(ChangeView::NewVariantAdded(new_variant@)));
            }
            assert(changes_view(changes@) =~= start + added_changes(pv, cv.take(j + 1)));
            j = j + 1;
        }
        assert(cv.take(j as int) =~= cv);
        let ghost mid = changes_view(changes@);

        let mut i: usize = 0;
        while i < self.variants.len()
            invariant
                i <= self.variants@.len(),
                pv == self@.variants,
                cv == other@.variants,
                forall|k: i64|
                    #![trigger new_variants@.contains_key(k)]
                    {
                        &&& new_variants@.contains_key(k) <==> lookup(cv, k) is Some
                        &&& new_variants@.contains_key(k) ==> {
                            &&& new_variants@[k] < other.variants@.len()
                            &&& lookup(cv, k) == Some(other.variants@[new_variants@[k] as int]@)
                        }
                    },
                changes_view(changes@) == mid + updated_changes(pv.take(i as int), cv),
            decreases self.variants@.len() - i,
        {
            let old_variant = &self.variants[i];
            proof {
                assert(pv.take(i + 1).drop_last() =~= pv.take(i as int));
                assert(pv.take(i + 1).last() == old_variant@);
            }
            let ghost before = changes_view(changes@);
            if let Some(idx) = new_variants.get(&old_variant.id) {
                let new_variant = &other.variants[*idx];
                if old_variant.available != new_variant.available {
                    changes.push(
                        ProductChange::VariantAvailabilityChanged {
                            variant_id: old_variant.id,
                            old_available: old_variant.available,
                            new_available: new_variant.available,
                        },
                    );
                }
                let ghost after_availability = changes_view(changes@);
                if old_variant.price != new_variant.price {
                    changes.push(
                        ProductChange::VariantPriceChanged {
                            variant_id: old_variant.id,
                            old_price: old_variant.price.clone(),
                            new_price: new_variant.price.clone(),
                        },
                    );
                }
                assert(changes_view(changes@) =~= before + variant_changes(
                    old_variant@,
                    new_variant@,
                ));
            }
            assert(changes_view(changes@) =~= mid + updated_changes(pv.take(i + 1), cv));
            i = i + 1;
        }
        assert(pv.take(i as int) =~= pv);
    }
}

} // verus!
