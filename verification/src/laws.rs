use vstd::prelude::*;
use vstd::arithmetic::div_mod::lemma_add_mod_noop_right;
use vstd::arithmetic::div_mod::lemma_mod_bound;
use vstd::arithmetic::div_mod::lemma_mod_self_0;
use vstd::arithmetic::div_mod::lemma_small_mod;
use crate::session::SessionView;
use crate::track::TrackView;

verus! {

/// For every valid index of the result set, selection removes exactly
/// that one entry: the set shrinks by exactly one, the entry becomes the
/// selection, and every other entry survives in its order.
pub proof fn lemma_select_removes_one(s: SessionView, i: int)
    requires
        0 <= i < s.results.len(),
    ensures
        s.selected(i).results.len() == s.results.len() - 1,
        s.selected(i).selection == Some(s.results[i]),
        forall|j: int| 0 <= j < i ==> s.selected(i).results[j] == s.results[j],
        forall|j: int|
            i <= j < s.results.len() - 1 ==> s.selected(i).results[j] == s.results[j + 1],
{
}

/// Replacing the result set wholesale forgets the prior browsing state
/// entirely: two sessions with the same selection agree exactly after
/// loading the same reply, whatever result sets and cursors they held.
pub proof fn lemma_load_forgets(s1: SessionView, s2: SessionView, rs: Seq<TrackView>)
    requires
        s1.selection == s2.selection,
    ensures
        s1.loaded(rs) == s2.loaded(rs),
{
    assert(s1.loaded(rs) =~= s2.loaded(rs));
}

/// Clearing twice yields exactly the state clearing once yields: an
/// empty result set, the cursor at the front, the selection untouched.
pub proof fn lemma_clear_idempotent(s: SessionView)
    ensures
        s.cleared().cleared() == s.cleared(),
{
    assert(s.cleared().cleared() =~= s.cleared());
}

/// The session after `n` rounds of `cycle` from state `s`.
pub open spec fn after_cycles(s: SessionView, n: nat) -> SessionView
    decreases n,
{
    if n == 0 {
        s
    } else {
        after_cycles(s, (n - 1) as nat).cycled()
    }
}

/// The wraparound law of round-robin browsing: starting at the front of
/// a result set of size `k > 0`, successive `cycle` calls display the
/// indices `0, 1, ..., k-1, 0, 1, ...` in that exact order — the call
/// made after `n` earlier calls displays index `n % k` — and cycling
/// never touches the result set or the selection.
pub proof fn lemma_cycle_visits(s: SessionView, n: nat)
    requires
        s.results.len() > 0,
        s.cursor == 0,
    ensures
        after_cycles(s, n).cycle_index() == (n as int) % (s.results.len() as int),
        after_cycles(s, n).results == s.results,
        after_cycles(s, n).selection == s.selection,
    decreases n,
{
    let k = s.results.len() as int;
    if n == 0 {
        lemma_small_mod(0, s.results.len());
    } else {
        lemma_cycle_visits(s, (n - 1) as nat);
        let t = after_cycles(s, (n - 1) as nat);
        assert(after_cycles(s, n) == t.cycled());
        lemma_mod_bound(n as int - 1, k);
        lemma_add_mod_noop_right(1, n as int - 1, k);
        assert(((n - 1) % k + 1) % k == (n as int) % k);
        if (n as int - 1) % k == k - 1 {
            lemma_mod_self_0(k);
        } else {
            lemma_small_mod(((n as int - 1) % k + 1) as nat, s.results.len());
        }
    }
}

} // verus!
