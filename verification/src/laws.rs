//! Laws of the list controller, proved over the abstract model: uniqueness
//! under any run of adds, idempotence, boundary no-ops, deletion of the last
//! entry, and closure of the selection cycle.

use vstd::prelude::*;
use crate::list::{
    ListView, list_wf, empty_view, add_step, delete_step, move_up_step, move_down_step, next_step,
};

verus! {

broadcast use vstd::set::group_set_axioms;

/// The list after a whole run of offered paths, one `add_current` each.
pub open spec fn add_all(v: ListView, ps: Seq<Seq<char>>) -> ListView
    decreases ps.len(),
{
    if ps.len() == 0 {
        v
    } else {
        add_all(add_step(v, ps[0]), ps.drop_first())
    }
}

/// The cursor after a number of `select_next` steps.
pub open spec fn next_n(v: ListView, n: nat) -> ListView
    decreases n,
{
    if n == 0 {
        v
    } else {
        next_n(next_step(v), (n - 1) as nat)
    }
}

proof fn lemma_contains_push(s: Seq<Seq<char>>, p: Seq<char>, x: Seq<char>)
    ensures
        s.push(p).contains(x) <==> (s.contains(x) || x == p),
{
    if s.push(p).contains(x) {
        let k = choose|k: int| 0 <= k < s.push(p).len() && s.push(p)[k] == x;
        if k < s.len() {
            assert(s[k] == x);
        }
    }
    if s.contains(x) {
        let k = choose|k: int| 0 <= k < s.len() && s[k] == x;
        assert(s.push(p)[k] == x);
    }
    if x == p {
        assert(s.push(p)[s.len() as int] == x);
    }
}

proof fn lemma_contains_drop_first(s: Seq<Seq<char>>, x: Seq<char>)
    requires
        s.len() > 0,
    ensures
        s.contains(x) <==> (x == s[0] || s.drop_first().contains(x)),
{
    if s.contains(x) {
        let k = choose|k: int| 0 <= k < s.len() && s[k] == x;
        if k > 0 {
            assert(s.drop_first()[k - 1] == x);
        }
    }
    if s.drop_first().contains(x) {
        let k = choose|k: int| 0 <= k < s.drop_first().len() && s.drop_first()[k] == x;
        assert(s[k + 1] == x);
    }
    if x == s[0] {
        assert(s[0] == x);
    }
}

/// One add keeps the entries duplicate-free and adds exactly the offered
/// path to the set of entries.
proof fn lemma_add_step_distinct(v: ListView, p: Seq<char>)
    requires
        v.entries.no_duplicates(),
    ensures
        add_step(v, p).entries.no_duplicates(),
        add_step(v, p).entries.to_set() == v.entries.to_set().insert(p),
{
    if v.entries.contains(p) {
        assert(add_step(v, p).entries.to_set() =~= v.entries.to_set().insert(p));
    } else {
        let pushed = v.entries.push(p);
        assert forall|i: int, j: int| 0 <= i < j < pushed.len() implies pushed[i] != pushed[j] by {
            if j == v.entries.len() {
                assert(pushed[j] == p);
                if v.entries[i] == p {
                    assert(v.entries.contains(p));
                }
            }
        }
        assert forall|x: Seq<char>| #[trigger] pushed.to_set().contains(x)
            <==> v.entries.to_set().insert(p).contains(x) by {
            lemma_contains_push(v.entries, p, x);
        }
        assert(pushed.to_set() =~= v.entries.to_set().insert(p));
    }
}

/// For all sequences of `add_current` calls: starting from a duplicate-free
/// list, the result is duplicate-free and its entries are exactly the old
/// ones together with the offered ones.
pub proof fn lemma_add_all_distinct(v: ListView, ps: Seq<Seq<char>>)
    requires
        v.entries.no_duplicates(),
    ensures
        add_all(v, ps).entries.no_duplicates(),
        add_all(v, ps).entries.to_set() == v.entries.to_set().union(ps.to_set()),
    decreases ps.len(),
{
    if ps.len() == 0 {
        assert(v.entries.to_set().union(ps.to_set()) =~= v.entries.to_set());
    } else {
        let p = ps[0];
        let v1 = add_step(v, p);
        lemma_add_step_distinct(v, p);
        lemma_add_all_distinct(v1, ps.drop_first());
        assert forall|x: Seq<char>| #[trigger] ps.to_set().contains(x)
            <==> (x == p || ps.drop_first().to_set().contains(x)) by {
            lemma_contains_drop_first(ps, x);
        }
        assert(v1.entries.to_set().union(ps.drop_first().to_set()) =~= v.entries.to_set().union(
            ps.to_set(),
        ));
    }
}

/// Starting from nothing, the list never holds a duplicate and its length is
/// exactly the number of distinct paths ever offered.
pub proof fn lemma_add_all_count(ps: Seq<Seq<char>>)
    ensures
        add_all(empty_view(), ps).entries.no_duplicates(),
        add_all(empty_view(), ps).entries.len() == ps.to_set().len(),
{
    lemma_add_all_distinct(empty_view(), ps);
    let l = add_all(empty_view(), ps);
    assert(l.entries.to_set() =~= ps.to_set());
    l.entries.unique_seq_to_set();
}

/// Offering the same path twice in a row ends in the same state as offering
/// it once.
pub proof fn lemma_add_twice(v: ListView, p: Seq<char>)
    ensures
        add_step(add_step(v, p), p) == add_step(v, p),
{
    if !v.entries.contains(p) {
        assert(v.entries.push(p)[v.entries.len() as int] == p);
        assert(add_step(v, p).entries.contains(p));
    }
}

/// Moving up with the cursor at index 0 changes nothing, and symmetrically
/// moving down at the last index changes nothing.
pub proof fn lemma_move_at_boundary(v: ListView)
    requires
        list_wf(v),
    ensures
        v.cursor == Some(0int) ==> move_up_step(v) == v,
        (v.cursor matches Some(c) && c == v.entries.len() - 1) ==> move_down_step(v) == v,
{
}

/// Deleting the selected entry of a one-entry list leaves the empty list
/// with no selection.
pub proof fn lemma_delete_last_entry(v: ListView)
    requires
        list_wf(v),
        v.entries.len() == 1,
    ensures
        delete_step(v) == empty_view(),
{
    assert(v.entries.remove(0) =~= Seq::<Seq<char>>::empty());
    assert(delete_step(v) =~= empty_view());
}

proof fn lemma_next_n_cursor(v: ListView, k: nat)
    requires
        list_wf(v),
        v.cursor is Some,
        k <= v.entries.len(),
    ensures
        next_n(v, k).entries == v.entries,
        next_n(v, k).cursor == Some(
            if v.cursor.unwrap() + k < v.entries.len() {
                v.cursor.unwrap() + k
            } else {
                v.cursor.unwrap() + k - v.entries.len()
            },
        ),
    decreases k,
{
    if k > 0 {
        let v2 = next_step(v);
        lemma_next_n_cursor(v2, (k - 1) as nat);
    }
}

/// Advancing the selection once per entry walks the whole cycle: after
/// `length` steps the cursor is back at its starting index.
pub proof fn lemma_select_next_cycle(v: ListView)
    requires
        list_wf(v),
        v.cursor is Some,
    ensures
        next_n(v, v.entries.len()) == v,
{
    lemma_next_n_cursor(v, v.entries.len());
    assert(next_n(v, v.entries.len()) =~= v);
}

} // verus!
