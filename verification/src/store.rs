//! The mathematical model of a store of items: its listing, newest first,
//! and what each operation of a store makes of it.

use vstd::prelude::*;
use crate::models::{Timestamp, TodoView};

verus! {

/// No two items of the listing share an id.
pub open spec fn ids_distinct(s: Seq<TodoView>) -> bool {
    forall|i: int, j: int| 0 <= i < j < s.len() ==> (#[trigger] s[i]).id != (#[trigger] s[j]).id
}

/// The listing is ordered by creation time, newest first.
pub open spec fn newest_first(s: Seq<TodoView>) -> bool {
    forall|i: int, j: int|
        0 <= i < j < s.len() ==> (#[trigger] s[j]).created_at.spec_le((#[trigger] s[i]).created_at)
}

/// The invariant of a store's listing.
pub open spec fn store_wf(s: Seq<TodoView>) -> bool {
    ids_distinct(s) && newest_first(s)
}

/// Whether an item with this id is stored.
pub open spec fn has_id(s: Seq<TodoView>, id: u128) -> bool {
    exists|i: int| 0 <= i < s.len() && (#[trigger] s[i]).id == id
}

/// The place of the item with this id in the listing, where there is one.
pub open spec fn position(s: Seq<TodoView>, id: u128) -> int {
    choose|i: int| 0 <= i < s.len() && (#[trigger] s[i]).id == id
}

/// The stored item with this id.
pub open spec fn lookup(s: Seq<TodoView>, id: u128) -> Option<TodoView> {
    if has_id(s, id) {
        Some(s[position(s, id)])
    } else {
        None
    }
}

/// The place at which an item created at `t` enters the listing: behind every
/// item created later than `t`, before every other.
pub open spec fn slot_for(s: Seq<TodoView>, t: Timestamp) -> int
    decreases s.len(),
{
    if s.len() == 0 || s[0].created_at.spec_le(t) {
        0
    } else {
        1 + slot_for(s.drop_first(), t)
    }
}

/// The listing after `item` was stored.
pub open spec fn store_insert(s: Seq<TodoView>, item: TodoView) -> Seq<TodoView> {
    s.insert(slot_for(s, item.created_at), item)
}

/// The listing after the item with this id was removed, if there was one.
pub open spec fn store_remove(s: Seq<TodoView>, id: u128) -> Seq<TodoView> {
    if has_id(s, id) {
        s.remove(position(s, id))
    } else {
        s
    }
}

/// The listing after the record of `item.id` was overwritten with `item`.
pub open spec fn store_replace(s: Seq<TodoView>, item: TodoView) -> Seq<TodoView> {
    store_insert(store_remove(s, item.id), item)
}

/// The items that are not completed, in the order of the listing.
pub open spec fn pending(s: Seq<TodoView>) -> Seq<TodoView> {
    s.filter(|item: TodoView| !item.completed)
}

/// The listing after the first `n` of `items` were stored one after another.
pub open spec fn store_insert_all(s: Seq<TodoView>, items: Seq<TodoView>, n: int) -> Seq<TodoView>
    decreases n,
{
    if n <= 0 {
        s
    } else {
        store_insert(store_insert_all(s, items, n - 1), items[n - 1])
    }
}

/// The place that `slot_for` names lies in the listing or at its end, every
/// item before it was created later than `t`, and the item at it was not.
pub proof fn lemma_slot_for(s: Seq<TodoView>, t: Timestamp)
    ensures
        0 <= slot_for(s, t) <= s.len(),
        forall|j: int| 0 <= j < slot_for(s, t) ==> !(#[trigger] s[j]).created_at.spec_le(t),
        slot_for(s, t) < s.len() ==> s[slot_for(s, t)].created_at.spec_le(t),
    decreases s.len(),
{
    if s.len() == 0 || s[0].created_at.spec_le(t) {
    } else {
        let rest = s.drop_first();
        lemma_slot_for(rest, t);
        let k: int = slot_for(rest, t);
        assert forall|j: int| 0 <= j < k + 1 implies !(#[trigger] s[j]).created_at.spec_le(t) by {
            if j > 0 {
                assert(rest[j - 1] == s[j]);
            }
        }
        if k + 1 < s.len() {
            assert(rest[k] == s[k + 1]);
        }
    }
}

/// A place with the two properties of `lemma_slot_for` is the one that
/// `slot_for` names.
pub proof fn lemma_slot_unique(s: Seq<TodoView>, t: Timestamp, k: int)
    requires
        0 <= k <= s.len(),
        forall|j: int| 0 <= j < k ==> !(#[trigger] s[j]).created_at.spec_le(t),
        k < s.len() ==> s[k].created_at.spec_le(t),
    ensures
        slot_for(s, t) == k,
{
    lemma_slot_for(s, t);
    let m: int = slot_for(s, t);
    if m < k {
        assert(!s[m].created_at.spec_le(t));
    } else if k < m {
        assert(!s[k].created_at.spec_le(t));
    }
}

/// In a listing without repeated ids, the item with a given id stands at one
/// place only.
pub proof fn lemma_position(s: Seq<TodoView>, i: int)
    requires
        ids_distinct(s),
        0 <= i < s.len(),
    ensures
        has_id(s, s[i].id),
        position(s, s[i].id) == i,
        lookup(s, s[i].id) == Some(s[i]),
{
    let p: int = position(s, s[i].id);
    assert(0 <= p < s.len() && s[p].id == s[i].id);
    if p < i {
        assert(s[p].id != s[i].id);
    } else if i < p {
        assert(s[i].id != s[p].id);
    }
}

/// Storing an item under a fresh id keeps the invariant, makes the listing
/// one longer, makes the item retrievable and leaves every other id as it
/// was.
pub proof fn lemma_store_insert(s: Seq<TodoView>, item: TodoView)
    requires
        store_wf(s),
        !has_id(s, item.id),
    ensures
        store_wf(store_insert(s, item)),
        store_insert(s, item).len() == s.len() + 1,
        lookup(store_insert(s, item), item.id) == Some(item),
        forall|id: u128| id != item.id ==> lookup(store_insert(s, item), id) == lookup(s, id),
        forall|id: u128| has_id(store_insert(s, item), id) <==> (id == item.id || has_id(s, id)),
{
    lemma_slot_for(s, item.created_at);
    let k: int = slot_for(s, item.created_at);
    let r = store_insert(s, item);
    assert(r.len() == s.len() + 1);
    assert(r[k] == item);
    assert forall|i: int| 0 <= i < r.len() && i != k implies #[trigger] r[i] == s[if i < k { i } else { i - 1 }] by {}
    assert forall|i: int, j: int| 0 <= i < j < r.len() implies (#[trigger] r[i]).id != (#[trigger] r[j]).id by {
        let a: int = if i < k { i } else { i - 1 };
        let b: int = if j < k { j } else { j - 1 };
        if i == k {
            assert(r[j] == s[b]);
        } else if j == k {
            assert(r[i] == s[a]);
        } else {
            assert(r[i] == s[a]);
            assert(r[j] == s[b]);
            assert(s[a].id != s[b].id);
        }
    }
    assert forall|i: int, j: int| 0 <= i < j < r.len() implies (#[trigger] r[j]).created_at.spec_le(
        (#[trigger] r[i]).created_at,
    ) by {
        let a: int = if i < k { i } else { i - 1 };
        let b: int = if j < k { j } else { j - 1 };
        if i == k {
            assert(r[j] == s[b]);
            if b > k {
                assert(s[b].created_at.spec_le(s[k].created_at));
            }
        } else if j == k {
            assert(r[i] == s[a]);
            assert(!s[a].created_at.spec_le(item.created_at));
        } else {
            assert(r[i] == s[a]);
            assert(r[j] == s[b]);
            assert(s[b].created_at.spec_le(s[a].created_at));
        }
    }
    lemma_position(r, k);
    assert forall|id: u128| has_id(r, id) <==> (id == item.id || has_id(s, id)) by {
        if has_id(r, id) {
            let p: int = position(r, id);
            if p != k {
                assert(r[p] == s[if p < k { p } else { p - 1 }]);
            }
        }
        if has_id(s, id) {
            let p: int = position(s, id);
            assert(r[if p < k { p } else { p + 1 }] == s[p]);
        }
    }
    assert forall|id: u128| id != item.id implies lookup(r, id) == lookup(s, id) by {
        if has_id(s, id) {
            let p: int = position(s, id);
            let q: int = if p < k { p } else { p + 1 };
            assert(r[q] == s[p]);
            lemma_position(r, q);
            lemma_position(s, p);
        }
    }
}

/// Removing a stored item keeps the invariant, makes the listing one
/// shorter, makes its id unknown and leaves every other id as it was.
pub proof fn lemma_store_remove(s: Seq<TodoView>, id: u128)
    requires
        store_wf(s),
        has_id(s, id),
    ensures
        store_wf(store_remove(s, id)),
        store_remove(s, id).len() == s.len() - 1,
        !has_id(store_remove(s, id), id),
        lookup(store_remove(s, id), id) is None,
        forall|other: u128| other != id ==> lookup(store_remove(s, id), other) == lookup(s, other),
        forall|other: u128| has_id(store_remove(s, id), other) <==> (other != id && has_id(s, other)),
{
    let k: int = position(s, id);
    let r = store_remove(s, id);
    assert(r == s.remove(k));
    assert forall|i: int| 0 <= i < r.len() implies #[trigger] r[i] == s[if i < k { i } else { i + 1 }] by {}
    assert forall|i: int, j: int| 0 <= i < j < r.len() implies (#[trigger] r[i]).id != (#[trigger] r[j]).id by {
        let a: int = if i < k { i } else { i + 1 };
        let b: int = if j < k { j } else { j + 1 };
        assert(r[i] == s[a]);
        assert(r[j] == s[b]);
        assert(s[a].id != s[b].id);
    }
    assert forall|i: int, j: int| 0 <= i < j < r.len() implies (#[trigger] r[j]).created_at.spec_le(
        (#[trigger] r[i]).created_at,
    ) by {
        let a: int = if i < k { i } else { i + 1 };
        let b: int = if j < k { j } else { j + 1 };
        assert(r[i] == s[a]);
        assert(r[j] == s[b]);
        assert(s[b].created_at.spec_le(s[a].created_at));
    }
    assert forall|other: u128| has_id(r, other) <==> (other != id && has_id(s, other)) by {
        if has_id(r, other) {
            let p: int = position(r, other);
            let a: int = if p < k { p } else { p + 1 };
            assert(r[p] == s[a]);
            if other == id {
                lemma_position(s, a);
            }
        }
        if other != id && has_id(s, other) {
            let p: int = position(s, other);
            assert(p != k);
            assert(r[if p < k { p } else { p - 1 }] == s[p]);
        }
    }
    assert forall|other: u128| other != id implies lookup(r, other) == lookup(s, other) by {
        if has_id(s, other) {
            let p: int = position(s, other);
            let q: int = if p < k { p } else { p - 1 };
            assert(r[q] == s[p]);
            lemma_position(r, q);
            lemma_position(s, p);
        }
    }
}

/// Overwriting the record of a stored id keeps the invariant and the length,
/// makes the new state retrievable and leaves every other id as it was.
pub proof fn lemma_store_replace(s: Seq<TodoView>, item: TodoView)
    requires
        store_wf(s),
        has_id(s, item.id),
    ensures
        store_wf(store_replace(s, item)),
        store_replace(s, item).len() == s.len(),
        lookup(store_replace(s, item), item.id) == Some(item),
        forall|id: u128| id != item.id ==> lookup(store_replace(s, item), id) == lookup(s, id),
        forall|id: u128| has_id(store_replace(s, item), id) <==> has_id(s, id),
{
    lemma_store_remove(s, item.id);
    lemma_store_insert(store_remove(s, item.id), item);
}

/// What the next item adds to the pending ones.
pub proof fn lemma_pending_push(s: Seq<TodoView>, item: TodoView)
    ensures
        pending(s.push(item)) == if item.completed {
            pending(s)
        } else {
            pending(s).push(item)
        },
{
    reveal(Seq::filter);
    assert(s.push(item).drop_last() =~= s);
}

/// The pending items are the items of the listing that are not completed.
pub proof fn lemma_pending_members(s: Seq<TodoView>)
    ensures
        pending(s).len() <= s.len(),
        forall|i: int|
            0 <= i < pending(s).len() ==> !(#[trigger] pending(s)[i]).completed && s.contains(
                pending(s)[i],
            ),
        forall|j: int| 0 <= j < s.len() && !(#[trigger] s[j]).completed ==> pending(s).contains(s[j]),
    decreases s.len(),
{
    reveal(Seq::filter);
    if s.len() > 0 {
        let init = s.drop_last();
        let last = s.last();
        lemma_pending_members(init);
        assert(s =~= init.push(last));
        lemma_pending_push(init, last);
        let p = pending(s);
        let q = pending(init);
        assert forall|i: int| 0 <= i < p.len() implies !(#[trigger] p[i]).completed && s.contains(
            p[i],
        ) by {
            if i < q.len() {
                assert(p[i] == q[i]);
                let j: int = choose|j: int| 0 <= j < init.len() && init[j] == q[i];
                assert(s[j] == p[i]);
            } else {
                assert(s[s.len() - 1] == p[i]);
            }
        }
        assert forall|j: int| 0 <= j < s.len() && !(#[trigger] s[j]).completed implies p.contains(
            s[j],
        ) by {
            if j < init.len() {
                assert(init[j] == s[j]);
                let i: int = choose|i: int| 0 <= i < q.len() && q[i] == init[j];
                assert(p[i] == s[j]);
            } else {
                assert(p[p.len() - 1] == s[j]);
            }
        }
    }
}

/// Removing the completed items keeps the invariant, keeps every pending
/// item retrievable and makes the id of every completed one unknown.
pub proof fn lemma_pending(s: Seq<TodoView>)
    requires
        store_wf(s),
    ensures
        store_wf(pending(s)),
        pending(s).len() <= s.len(),
        forall|id: u128|
            #[trigger] lookup(pending(s), id) == match lookup(s, id) {
                Some(item) => if item.completed {
                    None
                } else {
                    Some(item)
                },
                None => None,
            },
    decreases s.len(),
{
    reveal(Seq::filter);
    lemma_pending_members(s);
    let p = pending(s);
    if s.len() > 0 {
        let init = s.drop_last();
        let last = s.last();
        assert(s =~= init.push(last));
        lemma_pending_push(init, last);
        assert(store_wf(init)) by {
            assert forall|i: int, j: int| 0 <= i < j < init.len() implies (#[trigger] init[i]).id != (
            #[trigger] init[j]).id by {
                assert(init[i] == s[i] && init[j] == s[j]);
            }
            assert forall|i: int, j: int| 0 <= i < j < init.len() implies (
            #[trigger] init[j]).created_at.spec_le((#[trigger] init[i]).created_at) by {
                assert(init[i] == s[i] && init[j] == s[j]);
            }
        }
        lemma_pending(init);
        lemma_pending_members(init);
        let q = pending(init);
        if !last.completed {
            assert(p == q.push(last));
            assert forall|i: int, j: int| 0 <= i < j < p.len() implies (#[trigger] p[i]).id != (
            #[trigger] p[j]).id && p[j].created_at.spec_le(p[i].created_at) by {
                if j == q.len() {
                    assert(p[i] == q[i]);
                    let a: int = choose|a: int| 0 <= a < init.len() && init[a] == q[i];
                    assert(s[a] == p[i]);
                    assert(s[s.len() - 1] == p[j]);
                } else {
                    assert(p[i] == q[i] && p[j] == q[j]);
                }
            }
        }
    }
    assert(store_wf(p));
    assert forall|id: u128|
        #[trigger] lookup(p, id) == match lookup(s, id) {
            Some(item) => if item.completed {
                None
            } else {
                Some(item)
            },
            None => None,
        } by {
        if has_id(p, id) {
            let i: int = position(p, id);
            lemma_position(p, i);
            let j: int = choose|j: int| 0 <= j < s.len() && s[j] == p[i];
            lemma_position(s, j);
        } else if has_id(s, id) {
            let j: int = position(s, id);
            lemma_position(s, j);
            if !s[j].completed {
                let i: int = choose|i: int| 0 <= i < p.len() && p[i] == s[j];
                assert(p[i].id == id);
            }
        }
    }
}

} // verus!
