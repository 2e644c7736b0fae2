//! What the diff guarantees across inputs and across calls.

use vstd::prelude::*;

use crate::models::{ProductView, VariantView};
use crate::product_comparison::{
    ChangeView, added_changes, attribute_changes, diff, has_variant, lookup, unique_ids,
    updated_changes, variant_changes,
};

verus! {

/// The variant that a record is about, if it is about one.
pub open spec fn change_variant_id(c: ChangeView) -> Option<i64> {
    match c {
        ChangeView::VariantPriceChanged { variant_id, .. } => Some(variant_id),
        ChangeView::VariantAvailabilityChanged { variant_id, .. } => Some(variant_id),
        ChangeView::NewVariantAdded(v) => Some(v.id),
        _ => None,
    }
}

/// The records of `s` about the variant `key` names, in order; with `None`,
/// those about the product itself (its title and description).
pub open spec fn about(s: Seq<ChangeView>, key: Option<i64>) -> Seq<ChangeView>
    decreases s.len(),
{
    if s.len() == 0 {
        seq![]
    } else {
        about(s.drop_last(), key) + if change_variant_id(s.last()) == key {
            seq![s.last()]
        } else {
            seq![]
        }
    }
}

/// The same record seen from the other direction: old and new trade places.
pub open spec fn swapped(c: ChangeView) -> ChangeView {
    match c {
        ChangeView::TitleChanged { old, new } => ChangeView::TitleChanged { old: new, new: old },
        ChangeView::DescriptionChanged { old, new } => ChangeView::DescriptionChanged {
            old: new,
            new: old,
        },
        ChangeView::VariantPriceChanged { variant_id, old_price, new_price } =>
            ChangeView::VariantPriceChanged {
            variant_id,
            old_price: new_price,
            new_price: old_price,
        },
        ChangeView::VariantAvailabilityChanged { variant_id, old_available, new_available } =>
            ChangeView::VariantAvailabilityChanged {
            variant_id,
            old_available: new_available,
            new_available: old_available,
        },
        ChangeView::NewVariantAdded(v) => ChangeView::NewVariantAdded(v),
    }
}

/// Any variant of `prev` and any variant of `cur` with the same identity have
/// the same price and availability.
pub open spec fn agree_on_shared(prev: Seq<VariantView>, cur: Seq<VariantView>) -> bool {
    forall|i: int, j: int|
        0 <= i < prev.len() && 0 <= j < cur.len() && #[trigger] prev[i].id == #[trigger] cur[j].id
            ==> prev[i].price == cur[j].price && prev[i].available == cur[j].available
}

/// Two snapshots agree on every field that the diff compares: title and
/// description are equal, every variant of `b` has its identity in `a`, and
/// variants with one identity have the same price and availability.
pub open spec fn same_comparable_fields(a: ProductView, b: ProductView) -> bool {
    &&& a.title == b.title
    &&& a.body_html == b.body_html
    &&& forall|j: int| 0 <= j < b.variants.len() ==> has_variant(a.variants, #[trigger] b.variants[j].id)
    &&& agree_on_shared(a.variants, b.variants)
}

proof fn lemma_lookup(vs: Seq<VariantView>, id: i64)
    ensures
        lookup(vs, id) is Some <==> has_variant(vs, id),
        lookup(vs, id) is Some ==> lookup(vs, id)->Some_0.id == id,
        lookup(vs, id) is Some ==> exists|j: int|
            0 <= j < vs.len() && vs[j] == lookup(vs, id)->Some_0,
    decreases vs.len(),
{
    if vs.len() > 0 {
        lemma_lookup(vs.drop_last(), id);
        if has_variant(vs, id) && vs.last().id != id {
            let i = choose|i: int| 0 <= i < vs.len() && vs[i].id == id;
            assert(vs.drop_last()[i].id == id);
        }
        if has_variant(vs.drop_last(), id) {
            let i = choose|i: int| 0 <= i < vs.drop_last().len() && vs.drop_last()[i].id == id;
            assert(vs[i].id == id);
        }
        if vs.last().id == id {
            assert(vs[vs.len() - 1] == lookup(vs, id)->Some_0);
        } else if lookup(vs, id) is Some {
            let j = choose|j: int|
                0 <= j < vs.drop_last().len() && vs.drop_last()[j] == lookup(vs.drop_last(), id)->Some_0;
            assert(vs[j] == lookup(vs, id)->Some_0);
        }
    }
}

proof fn lemma_lookup_unique(vs: Seq<VariantView>, i: int)
    requires
        unique_ids(vs),
        0 <= i < vs.len(),
    ensures
        lookup(vs, vs[i].id) == Some(vs[i]),
    decreases vs.len(),
{
    if i != vs.len() - 1 {
        assert(vs.last().id != vs[i].id);
        assert(unique_ids(vs.drop_last()));
        lemma_lookup_unique(vs.drop_last(), i);
    }
}

proof fn lemma_no_added(prev: Seq<VariantView>, cur: Seq<VariantView>)
    requires
        forall|i: int| 0 <= i < cur.len() ==> has_variant(prev, #[trigger] cur[i].id),
    ensures
        added_changes(prev, cur) == Seq::<ChangeView>::empty(),
    decreases cur.len(),
{
    if cur.len() > 0 {
        lemma_no_added(prev, cur.drop_last());
        lemma_lookup(prev, cur.last().id);
        assert(has_variant(prev, cur[cur.len() - 1].id));
        assert(added_changes(prev, cur) =~= Seq::<ChangeView>::empty());
    }
}

proof fn lemma_no_updates(prev: Seq<VariantView>, cur: Seq<VariantView>)
    requires
        agree_on_shared(prev, cur),
    ensures
        updated_changes(prev, cur) == Seq::<ChangeView>::empty(),
    decreases prev.len(),
{
    if prev.len() > 0 {
        let rest = prev.drop_last();
        assert forall|i: int, j: int|
            0 <= i < rest.len() && 0 <= j < cur.len() && #[trigger] rest[i].id == #[trigger] cur[j].id
            implies rest[i].price == cur[j].price && rest[i].available == cur[j].available by {
            assert(prev[i] == rest[i]);
        }
        lemma_no_updates(rest, cur);
        let o = prev.last();
        lemma_lookup(cur, o.id);
        if lookup(cur, o.id) is Some {
            let n = lookup(cur, o.id)->Some_0;
            let j = choose|j: int| 0 <= j < cur.len() && cur[j] == n;
            assert(prev[prev.len() - 1].id == cur[j].id);
            assert(variant_changes(o, n) =~= Seq::<ChangeView>::empty());
        }
        assert(updated_changes(prev, cur) =~= Seq::<ChangeView>::empty());
    }
}

/// Where two snapshots agree on every compared field, the diff is empty,
/// whatever the fields that it does not compare hold.
pub proof fn lemma_equal_fields_no_changes(a: ProductView, b: ProductView)
    requires
        same_comparable_fields(a, b),
    ensures
        diff(a, b) == Seq::<ChangeView>::empty(),
{
    lemma_no_added(a.variants, b.variants);
    lemma_no_updates(a.variants, b.variants);
    assert(attribute_changes(a, b) =~= Seq::<ChangeView>::empty());
    assert(diff(a, b) =~= Seq::<ChangeView>::empty());
}

/// A snapshot compared with itself shows no change, provided that it holds
/// each variant identity once.
pub proof fn lemma_diff_self_empty(a: ProductView)
    requires
        unique_ids(a.variants),
    ensures
        diff(a, a) == Seq::<ChangeView>::empty(),
{
    let vs = a.variants;
    assert forall|j: int| 0 <= j < vs.len() implies has_variant(vs, #[trigger] vs[j].id) by {}
    assert forall|i: int, j: int|
        0 <= i < vs.len() && 0 <= j < vs.len() && #[trigger] vs[i].id == #[trigger] vs[j].id
        implies vs[i].price == vs[j].price && vs[i].available == vs[j].available by {
        if i != j {
            assert(vs[i].id != vs[j].id);
        }
    }
    lemma_equal_fields_no_changes(a, a);
}

proof fn lemma_about_concat(s1: Seq<ChangeView>, s2: Seq<ChangeView>, key: Option<i64>)
    ensures
        about(s1 + s2, key) == about(s1, key) + about(s2, key),
    decreases s2.len(),
{
    if s2.len() > 0 {
        assert((s1 + s2).drop_last() =~= s1 + s2.drop_last());
        lemma_about_concat(s1, s2.drop_last(), key);
        assert(about(s1 + s2, key) =~= about(s1, key) + about(s2, key));
    } else {
        assert(s1 + s2 =~= s1);
        assert(about(s1, key) + about(s2, key) =~= about(s1, key));
    }
}

proof fn lemma_about_all(s: Seq<ChangeView>, key: Option<i64>)
    requires
        forall|k: int| 0 <= k < s.len() ==> change_variant_id(#[trigger] s[k]) == key,
    ensures
        about(s, key) == s,
    decreases s.len(),
{
    if s.len() > 0 {
        lemma_about_all(s.drop_last(), key);
        assert(about(s, key) =~= s);
    }
}

proof fn lemma_about_none(s: Seq<ChangeView>, key: Option<i64>)
    requires
        forall|k: int| 0 <= k < s.len() ==> change_variant_id(#[trigger] s[k]) != key,
    ensures
        about(s, key) == Seq::<ChangeView>::empty(),
    decreases s.len(),
{
    if s.len() > 0 {
        lemma_about_none(s.drop_last(), key);
        assert(about(s, key) =~= Seq::<ChangeView>::empty());
    }
}

/// The records about one variant among those of the variants kept.
pub open spec fn kept_changes(prev: Seq<VariantView>, cur: Seq<VariantView>, id: i64) -> Seq<
    ChangeView,
> {
    match (lookup(prev, id), lookup(cur, id)) {
        (Some(o), Some(n)) => variant_changes(o, n),
        _ => seq![],
    }
}

proof fn lemma_updated_about_one(prev: Seq<VariantView>, cur: Seq<VariantView>, id: i64)
    requires
        unique_ids(prev),
    ensures
        about(updated_changes(prev, cur), Some(id)) == kept_changes(prev, cur, id),
    decreases prev.len(),
{
    if prev.len() > 0 {
        let rest = prev.drop_last();
        let o = prev.last();
        assert(unique_ids(rest));
        lemma_updated_about_one(rest, cur, id);
        let tail = match lookup(cur, o.id) {
            Some(n) => variant_changes(o, n),
            None => seq![],
        };
        lemma_about_concat(updated_changes(rest, cur), tail, Some(id));
        if o.id == id {
            assert(!has_variant(rest, id)) by {
                if has_variant(rest, id) {
                    let i = choose|i: int| 0 <= i < rest.len() && rest[i].id == id;
                    assert(prev[i].id == id);
                    assert(prev[prev.len() - 1].id == id);
                }
            }
            lemma_lookup(rest, id);
            lemma_about_all(tail, Some(id));
            assert(about(updated_changes(prev, cur), Some(id)) =~= kept_changes(prev, cur, id));
        } else {
            lemma_about_none(tail, Some(id));
            assert(about(updated_changes(prev, cur), Some(id)) =~= kept_changes(prev, cur, id));
        }
    }
}

proof fn lemma_about_contains(s: Seq<ChangeView>, key: Option<i64>, c: ChangeView)
    ensures
        about(s, key).contains(c) <==> s.contains(c) && change_variant_id(c) == key,
    decreases s.len(),
{
    if s.len() > 0 {
        let rest = s.drop_last();
        lemma_about_contains(rest, key, c);
        let tail = if change_variant_id(s.last()) == key {
            seq![s.last()]
        } else {
            seq![]
        };
        let r = about(rest, key);
        assert(about(s, key) == r + tail);
        if about(s, key).contains(c) {
            let k = choose|k: int| 0 <= k < (r + tail).len() && (r + tail)[k] == c;
            if k < r.len() {
                assert(r[k] == c);
                assert(rest[choose|m: int| 0 <= m < rest.len() && rest[m] == c] == c);
            } else {
                assert(s[s.len() - 1] == c);
            }
        }
        if s.contains(c) && change_variant_id(c) == key {
            let k = choose|k: int| 0 <= k < s.len() && s[k] == c;
            if k < s.len() - 1 {
                assert(rest[k] == c);
                let m = choose|m: int| 0 <= m < r.len() && r[m] == c;
                assert((r + tail)[m] == c);
            } else {
                assert((r + tail)[r.len() as int] == c);
            }
        }
    }
}

proof fn lemma_added_are_variant_records(prev: Seq<VariantView>, cur: Seq<VariantView>)
    ensures
        forall|k: int|
            0 <= k < added_changes(prev, cur).len() ==> change_variant_id(
                #[trigger] added_changes(prev, cur)[k],
            ) is Some,
    decreases cur.len(),
{
    if cur.len() > 0 {
        lemma_added_are_variant_records(prev, cur.drop_last());
        let r = added_changes(prev, cur.drop_last());
        let tail = if lookup(prev, cur.last().id) is None {
            seq![ChangeView::NewVariantAdded(cur.last())]
        } else {
            seq![]
        };
        assert forall|k: int| 0 <= k < (r + tail).len() implies change_variant_id(
            #[trigger] (r + tail)[k],
        ) is Some by {
            if k < r.len() {
                assert((r + tail)[k] == r[k]);
            }
        }
    }
}

proof fn lemma_updated_are_variant_records(prev: Seq<VariantView>, cur: Seq<VariantView>)
    ensures
        forall|k: int|
            0 <= k < updated_changes(prev, cur).len() ==> change_variant_id(
                #[trigger] updated_changes(prev, cur)[k],
            ) is Some,
    decreases prev.len(),
{
    if prev.len() > 0 {
        lemma_updated_are_variant_records(prev.drop_last(), cur);
        let r = updated_changes(prev.drop_last(), cur);
        let o = prev.last();
        let tail = match lookup(cur, o.id) {
            Some(n) => variant_changes(o, n),
            None => seq![],
        };
        assert forall|k: int| 0 <= k < (r + tail).len() implies change_variant_id(
            #[trigger] (r + tail)[k],
        ) is Some by {
            if k < r.len() {
                assert((r + tail)[k] == r[k]);
            } else {
                assert((r + tail)[k] == tail[k - r.len()]);
            }
        }
    }
}

/// For any two snapshots, the title and description records of the diff in
/// one direction are those of the other direction with old and new
/// exchanged; they are the records of `attribute_changes`.
pub proof fn lemma_product_records_mirrored(a: ProductView, b: ProductView)
    ensures
        about(diff(a, b), None) == attribute_changes(a, b),
        about(diff(b, a), None) == about(diff(a, b), None).map_values(|c: ChangeView| swapped(c)),
        forall|c: ChangeView|
            change_variant_id(c) is None ==> (diff(a, b).contains(c) <==> #[trigger] diff(
                b,
                a,
            ).contains(swapped(c))),
{
    let f = |c: ChangeView| swapped(c);
    lemma_product_records_of(a, b);
    lemma_product_records_of(b, a);
    assert(attribute_changes(b, a) =~= attribute_changes(a, b).map_values(f));
    let s = attribute_changes(a, b);
    assert forall|c: ChangeView| change_variant_id(c) is None implies (diff(a, b).contains(c)
        <==> #[trigger] diff(b, a).contains(swapped(c))) by {
        lemma_about_contains(diff(a, b), None, c);
        lemma_about_contains(diff(b, a), None, swapped(c));
        if diff(a, b).contains(c) {
            let k = choose|k: int| 0 <= k < s.len() && s[k] == c;
            assert(s.map_values(f)[k] == swapped(c));
        }
        if diff(b, a).contains(swapped(c)) {
            let k = choose|k: int| 0 <= k < s.len() && s.map_values(f)[k] == swapped(c);
            assert(swapped(swapped(s[k])) == s[k]);
            assert(swapped(swapped(c)) == c);
            assert(s[k] == c);
        }
    }
}

/// A diff holds at most one title record and at most one description record.
pub proof fn lemma_one_title_one_description(a: ProductView, b: ProductView)
    ensures
        forall|i: int, j: int|
            0 <= i < diff(a, b).len() && 0 <= j < diff(a, b).len() && #[trigger] diff(a, b)[i]
                is TitleChanged && #[trigger] diff(a, b)[j] is TitleChanged ==> i == j,
        forall|i: int, j: int|
            0 <= i < diff(a, b).len() && 0 <= j < diff(a, b).len() && #[trigger] diff(a, b)[i]
                is DescriptionChanged && #[trigger] diff(a, b)[j] is DescriptionChanged ==> i == j,
{
    let attrs = attribute_changes(a, b);
    let rest = added_changes(a.variants, b.variants) + updated_changes(a.variants, b.variants);
    lemma_added_are_variant_records(a.variants, b.variants);
    lemma_updated_are_variant_records(a.variants, b.variants);
    let d = diff(a, b);
    assert(d =~= attrs + rest);
    assert forall|k: int| attrs.len() <= k < d.len() implies change_variant_id(#[trigger] d[k]) is Some by {
        let added = added_changes(a.variants, b.variants);
        let m = k - attrs.len();
        if m < added.len() {
            assert(d[k] == added[m]);
        } else {
            assert(d[k] == updated_changes(a.variants, b.variants)[m - added.len()]);
        }
    }
    assert forall|k: int| 0 <= k < attrs.len() implies d[k] == #[trigger] attrs[k] by {}
}

proof fn lemma_product_records_of(a: ProductView, b: ProductView)
    ensures
        about(diff(a, b), None) == attribute_changes(a, b),
{
    let attrs = attribute_changes(a, b);
    let added = added_changes(a.variants, b.variants);
    let updated = updated_changes(a.variants, b.variants);
    lemma_about_all(attrs, None);
    lemma_added_are_variant_records(a.variants, b.variants);
    lemma_updated_are_variant_records(a.variants, b.variants);
    lemma_about_none(added, None);
    lemma_about_none(updated, None);
    lemma_about_concat(attrs, added, None);
    lemma_about_concat(attrs + added, updated, None);
    assert(about(diff(a, b), None) =~= attrs);
}

/// Two snapshots that hold the same variant identities, each once, give
/// diffs in the two directions that mirror each other: title and description
/// records with old and new exchanged, the records about each variant with
/// old and new exchanged, and no variant reported as added either way.
pub proof fn lemma_diff_mirrored(a: ProductView, b: ProductView)
    requires
        unique_ids(a.variants),
        unique_ids(b.variants),
        forall|id: i64| has_variant(a.variants, id) <==> has_variant(b.variants, id),
    ensures
        attribute_changes(b, a) == attribute_changes(a, b).map_values(|c: ChangeView| swapped(c)),
        added_changes(a.variants, b.variants) == Seq::<ChangeView>::empty(),
        added_changes(b.variants, a.variants) == Seq::<ChangeView>::empty(),
        forall|id: i64|
            #[trigger] about(diff(b, a), Some(id)) == about(diff(a, b), Some(id)).map_values(
                |c: ChangeView| swapped(c),
            ),
        forall|c: ChangeView|
            diff(a, b).contains(c) && change_variant_id(c) is Some ==> #[trigger] diff(
                b,
                a,
            ).contains(swapped(c)),
        forall|c: ChangeView|
            diff(b, a).contains(c) && change_variant_id(c) is Some ==> #[trigger] diff(
                a,
                b,
            ).contains(swapped(c)),
{
    let (av, bv) = (a.variants, b.variants);
    assert forall|i: int| 0 <= i < bv.len() implies has_variant(av, #[trigger] bv[i].id) by {
        assert(has_variant(bv, bv[i].id));
    }
    assert forall|i: int| 0 <= i < av.len() implies has_variant(bv, #[trigger] av[i].id) by {
        assert(has_variant(av, av[i].id));
    }
    lemma_no_added(av, bv);
    lemma_no_added(bv, av);
    let f = |c: ChangeView| swapped(c);
    assert(attribute_changes(b, a) =~= attribute_changes(a, b).map_values(f));
    assert forall|id: i64| #[trigger]
        about(diff(b, a), Some(id)) == about(diff(a, b), Some(id)).map_values(f) by {
        lemma_about_none(attribute_changes(a, b), Some(id));
        lemma_about_none(attribute_changes(b, a), Some(id));
        assert(diff(a, b) =~= attribute_changes(a, b) + updated_changes(av, bv));
        assert(diff(b, a) =~= attribute_changes(b, a) + updated_changes(bv, av));
        lemma_about_concat(attribute_changes(a, b), updated_changes(av, bv), Some(id));
        lemma_about_concat(attribute_changes(b, a), updated_changes(bv, av), Some(id));
        lemma_updated_about_one(av, bv, id);
        lemma_updated_about_one(bv, av, id);
        lemma_lookup(av, id);
        lemma_lookup(bv, id);
        assert(kept_changes(bv, av, id) =~= kept_changes(av, bv, id).map_values(f));
        assert(about(diff(a, b), Some(id)) =~= kept_changes(av, bv, id));
        assert(about(diff(b, a), Some(id)) =~= kept_changes(bv, av, id));
    }
    assert forall|c: ChangeView|
        diff(a, b).contains(c) && change_variant_id(c) is Some implies #[trigger] diff(
            b,
            a,
        ).contains(swapped(c)) by {
        let key = change_variant_id(c);
        lemma_about_contains(diff(a, b), key, c);
        let s = about(diff(a, b), key);
        let k = choose|k: int| 0 <= k < s.len() && s[k] == c;
        assert(about(diff(b, a), key) == s.map_values(f));
        assert(about(diff(b, a), key)[k] == swapped(c));
        lemma_about_contains(diff(b, a), key, swapped(c));
    }
    assert forall|c: ChangeView|
        diff(b, a).contains(c) && change_variant_id(c) is Some implies #[trigger] diff(
            a,
            b,
        ).contains(swapped(c)) by {
        let key = change_variant_id(c);
        lemma_about_contains(diff(b, a), key, c);
        let s = about(diff(a, b), key);
        assert(about(diff(b, a), key) == s.map_values(f));
        let k = choose|k: int| 0 <= k < s.len() && s.map_values(f)[k] == c;
        assert(swapped(s[k]) == c);
        assert(s[k] == swapped(c));
        lemma_about_contains(diff(a, b), key, swapped(c));
    }
}

proof fn lemma_added_absent(prev: Seq<VariantView>, cur: Seq<VariantView>, id: i64)
    requires
        !has_variant(cur, id),
    ensures
        about(added_changes(prev, cur), Some(id)) == Seq::<ChangeView>::empty(),
    decreases cur.len(),
{
    if cur.len() > 0 {
        assert(!has_variant(cur.drop_last(), id)) by {
            if has_variant(cur.drop_last(), id) {
                let i = choose|i: int|
                    0 <= i < cur.drop_last().len() && cur.drop_last()[i].id == id;
                assert(cur[i].id == id);
            }
        }
        lemma_added_absent(prev, cur.drop_last(), id);
        assert(cur[cur.len() - 1].id != id);
        let tail = if lookup(prev, cur.last().id) is None {
            seq![ChangeView::NewVariantAdded(cur.last())]
        } else {
            seq![]
        };
        lemma_about_none(tail, Some(id));
        lemma_about_concat(added_changes(prev, cur.drop_last()), tail, Some(id));
        assert(about(added_changes(prev, cur), Some(id)) =~= Seq::<ChangeView>::empty());
    }
}

proof fn lemma_added_once(prev: Seq<VariantView>, cur: Seq<VariantView>, j: int)
    requires
        forall|i: int| 0 <= i < cur.len() && #[trigger] cur[i].id == cur[j].id ==> i == j,
        0 <= j < cur.len(),
        !has_variant(prev, cur[j].id),
    ensures
        about(added_changes(prev, cur), Some(cur[j].id)) == seq![ChangeView::NewVariantAdded(cur[j])],
    decreases cur.len(),
{
    let id = cur[j].id;
    let rest = cur.drop_last();
    let tail = if lookup(prev, cur.last().id) is None {
        seq![ChangeView::NewVariantAdded(cur.last())]
    } else {
        seq![]
    };
    lemma_about_concat(added_changes(prev, rest), tail, Some(id));
    assert(added_changes(prev, cur) == added_changes(prev, rest) + tail);
    if j == cur.len() - 1 {
        assert(!has_variant(rest, id)) by {
            if has_variant(rest, id) {
                let i = choose|i: int| 0 <= i < rest.len() && rest[i].id == id;
                assert(cur[i].id == id);
            }
        }
        lemma_added_absent(prev, rest, id);
        lemma_lookup(prev, id);
        assert(cur.last() == cur[j]);
        assert(tail == seq![ChangeView::NewVariantAdded(cur[j])]);
        lemma_about_all(tail, Some(id));
        assert(about(added_changes(prev, cur), Some(id)) =~= tail);
    } else {
        assert(rest[j] == cur[j]);
        assert forall|i: int| 0 <= i < rest.len() && #[trigger] rest[i].id == rest[j].id implies i
            == j by {
            assert(rest[i] == cur[i]);
        }
        lemma_added_once(prev, rest, j);
        assert(cur.last().id != id);
        lemma_about_none(tail, Some(id));
        assert(about(added_changes(prev, cur), Some(id)) =~= seq![ChangeView::NewVariantAdded(cur[j])]);
    }
}

proof fn lemma_updated_about(prev: Seq<VariantView>, cur: Seq<VariantView>, id: i64)
    requires
        !has_variant(prev, id) || !has_variant(cur, id),
    ensures
        about(updated_changes(prev, cur), Some(id)) == Seq::<ChangeView>::empty(),
    decreases prev.len(),
{
    if prev.len() > 0 {
        let rest = prev.drop_last();
        assert(!has_variant(rest, id) || !has_variant(cur, id)) by {
            if has_variant(rest, id) {
                let i = choose|i: int| 0 <= i < rest.len() && rest[i].id == id;
                assert(prev[i].id == id);
            }
        }
        lemma_updated_about(rest, cur, id);
        let o = prev.last();
        let tail = match lookup(cur, o.id) {
            Some(n) => variant_changes(o, n),
            None => seq![],
        };
        lemma_lookup(cur, o.id);
        if lookup(cur, o.id) is Some {
            assert(o.id != id) by {
                assert(prev[prev.len() - 1].id == o.id);
            }
        }
        lemma_about_none(tail, Some(id));
        lemma_about_concat(updated_changes(rest, cur), tail, Some(id));
        assert(about(updated_changes(prev, cur), Some(id)) =~= Seq::<ChangeView>::empty());
    }
}

/// A variant that the later snapshot no longer has is the subject of no
/// record: removal is not reported.
pub proof fn lemma_removed_variant_unreported(prev: ProductView, cur: ProductView, id: i64)
    requires
        has_variant(prev.variants, id),
        !has_variant(cur.variants, id),
    ensures
        about(diff(prev, cur), Some(id)) == Seq::<ChangeView>::empty(),
{
    let attrs = attribute_changes(prev, cur);
    let added = added_changes(prev.variants, cur.variants);
    let updated = updated_changes(prev.variants, cur.variants);
    lemma_about_none(attrs, Some(id));
    lemma_added_absent(prev.variants, cur.variants, id);
    lemma_updated_about(prev.variants, cur.variants, id);
    lemma_about_concat(attrs, added, Some(id));
    lemma_about_concat(attrs + added, updated, Some(id));
    assert(about(diff(prev, cur), Some(id)) =~= Seq::<ChangeView>::empty());
}

/// A variant that only the later snapshot has is the subject of exactly one
/// record, which reports it as added, whatever its other fields hold,
/// provided that the later snapshot holds its identity once.
pub proof fn lemma_new_variant_reported_once(prev: ProductView, cur: ProductView, j: int)
    requires
        forall|i: int|
            0 <= i < cur.variants.len() && #[trigger] cur.variants[i].id == cur.variants[j].id
                ==> i == j,
        0 <= j < cur.variants.len(),
        !has_variant(prev.variants, cur.variants[j].id),
    ensures
        about(diff(prev, cur), Some(cur.variants[j].id)) == seq![
            ChangeView::NewVariantAdded(cur.variants[j]),
        ],
{
    let id = cur.variants[j].id;
    let attrs = attribute_changes(prev, cur);
    let added = added_changes(prev.variants, cur.variants);
    let updated = updated_changes(prev.variants, cur.variants);
    lemma_about_none(attrs, Some(id));
    lemma_added_once(prev.variants, cur.variants, j);
    lemma_updated_about(prev.variants, cur.variants, id);
    lemma_about_concat(attrs, added, Some(id));
    lemma_about_concat(attrs + added, updated, Some(id));
    assert(about(diff(prev, cur), Some(id)) =~= seq![ChangeView::NewVariantAdded(cur.variants[j])]);
}

} // verus!
