use vstd::prelude::*;
use crate::decide::{
    Decision, Selection, decision_of, placed, lemma_position_in_range, next_index, position_of,
    selection_of, target_of,
};
use crate::placement::PlacementMode;
use crate::window::{Window, addresses_unique};
use vstd::arithmetic::div_mod::{lemma_add_mod_noop_right, lemma_mod_bound, lemma_small_mod};

verus! {

/// The focused window after `k` rounds of deciding and then focusing the
/// chosen target, starting from `start`.
pub open spec fn focus_after(cands: Seq<Window>, start: Window, k: nat) -> Window
    decreases k,
{
    if k == 0 {
        start
    } else {
        let prev = focus_after(cands, start, (k - 1) as nat);
        match selection_of(cands, Some(prev)) {
            Selection::Target(j) => cands[j as int],
            _ => prev,
        }
    }
}

/// With unique addresses, a window's own address finds that window.
pub proof fn lemma_position_unique(cands: Seq<Window>, j: int)
    requires
        0 <= j < cands.len(),
        addresses_unique(cands),
    ensures
        position_of(cands, cands[j].address@) == Some(j),
    decreases cands.len(),
{
    let rest = cands.drop_last();
    let addr = cands[j].address@;
    if j < cands.len() - 1 {
        assert(rest[j] == cands[j]);
        lemma_position_unique(rest, j);
    } else {
        lemma_position_in_range(rest, addr);
        if let Some(i) = position_of(rest, addr) {
            assert(rest[i] == cands[i]);
        }
    }
}

/// Where no candidate has the address, none is found.
pub proof fn lemma_position_absent(cands: Seq<Window>, addr: Seq<char>)
    requires
        forall|i: int| 0 <= i < cands.len() ==> cands[i].address@ != addr,
    ensures
        position_of(cands, addr) is None,
    decreases cands.len(),
{
    if cands.len() > 0 {
        let rest = cands.drop_last();
        assert forall|i: int| 0 <= i < rest.len() implies rest[i].address@ != addr by {
            assert(rest[i] == cands[i]);
        }
        lemma_position_absent(rest, addr);
    }
}

/// After `k` rounds from candidate `i`, the focus is on candidate `(i + k) mod n`.
pub proof fn lemma_focus_after(cands: Seq<Window>, i: int, k: nat)
    requires
        0 <= i < cands.len() <= usize::MAX,
        addresses_unique(cands),
    ensures
        focus_after(cands, cands[i], k) == cands[(i + k) % (cands.len() as int)],
    decreases k,
{
    let n = cands.len() as int;
    if k == 0 {
        lemma_small_mod(i as nat, n as nat);
    } else {
        lemma_focus_after(cands, i, (k - 1) as nat);
        let j = (i + k - 1) % n;
        lemma_mod_bound(i + k - 1, n);
        lemma_position_unique(cands, j);
        lemma_mod_bound(j + 1, n);
        lemma_add_mod_noop_right(1, i + k - 1, n);
        assert(next_index(j, n) == (i + k) % n);
    }
}

/// Cycling is a permutation: starting from any candidate of a non-empty list
/// with unique addresses, deciding and then focusing the chosen target `n`
/// times, where `n` is the number of candidates, comes back to the start; and
/// after `k` rounds the focus is on the candidate `k` places further, wrapping.
pub proof fn lemma_cycle_closes(cands: Seq<Window>, i: int)
    requires
        0 <= i < cands.len() <= usize::MAX,
        addresses_unique(cands),
    ensures
        focus_after(cands, cands[i], cands.len()) == cands[i],
        forall|k: nat| #[trigger]
            focus_after(cands, cands[i], k) == cands[(i + k) % (cands.len() as int)],
{
    let n = cands.len() as int;
    assert forall|k: nat| #[trigger]
        focus_after(cands, cands[i], k) == cands[(i + k) % n] by {
        lemma_focus_after(cands, i, k);
    }
    lemma_focus_after(cands, i, cands.len());
    lemma_add_mod_noop_right(i, n, n);
    vstd::arithmetic::div_mod::lemma_mod_self_0(n);
    lemma_small_mod(i as nat, n as nat);
}

/// A single candidate that is focused is chosen again, whatever the placement.
pub proof fn lemma_single_window(cands: Seq<Window>, focused: Window, placement: PlacementMode)
    requires
        cands.len() == 1,
        focused.address@ == cands[0].address@,
    ensures
        selection_of(cands, Some(focused)) == Selection::Target(0),
        target_of(decision_of(cands, Some(focused), placement)) == Some(focused.address@),
{
    assert(position_of(cands.drop_last(), focused.address@) is None);
    assert(position_of(cands, focused.address@) == Some(0int));
    assert(next_index(0, 1) == 0);
}

/// Without candidates and without a focused window, a new instance is
/// launched, on the nearest empty workspace where that placement is asked.
pub proof fn lemma_no_candidates_launch(cands: Seq<Window>, placement: PlacementMode)
    requires
        cands.len() == 0,
    ensures
        decision_of(cands, None, placement) == if placement
            == PlacementMode::ToNearestEmptyWorkspace {
            Decision::<Seq<char>>::LaunchInEmpty
        } else {
            Decision::<Seq<char>>::Launch
        },
{
}

/// A focused window whose address no candidate has leads to no action, for
/// every placement.
pub proof fn lemma_stale_focus_no_action(
    cands: Seq<Window>,
    focused: Window,
    placement: PlacementMode,
)
    requires
        forall|i: int| 0 <= i < cands.len() ==> cands[i].address@ != focused.address@,
    ensures
        decision_of(cands, Some(focused), placement) == Decision::<Seq<char>>::NoAction,
{
    lemma_position_absent(cands, focused.address@);
}

/// The placement does not change which window is chosen, only the kind of
/// action taken on it: the action is the placement applied to that window.
pub proof fn lemma_placement_orthogonal(
    cands: Seq<Window>,
    focused: Option<Window>,
    p1: PlacementMode,
    p2: PlacementMode,
)
    ensures
        target_of(decision_of(cands, focused, p1)) == target_of(decision_of(cands, focused, p2)),
        target_of(decision_of(cands, focused, p1)) matches Some(a) ==> decision_of(
            cands,
            focused,
            p1,
        ) == placed(a, p1),
{
}

} // verus!
