use vstd::prelude::*;
use crate::placement::PlacementMode;
use crate::window::{Window, candidates_of, filter_candidates, focused_matching, matching_focus};
use vstd::arithmetic::div_mod::{lemma_mod_self_0, lemma_small_mod};

verus! {

/// Which candidate the decision is about, if any.
#[derive(Clone, Copy, Debug, PartialEq, Eq, Structural)]
pub enum Selection {
    /// The candidate at this index.
    Target(usize),
    /// No candidate exists: a new instance is launched.
    Launch,
    /// The focused window is not among the candidates: nothing is done.
    Stale,
}

/// The action to perform. `A` is the address type: `String` when run,
/// `Seq<char>` in specifications.
#[derive(Debug, PartialEq, Eq)]
pub enum Decision<A> {
    /// Focus the window where it is.
    Focus(A),
    /// Move the window to the current workspace.
    Move(A),
    /// Switch to the nearest empty workspace, then move the window there.
    MoveToEmpty(A),
    /// Launch a new instance.
    Launch,
    /// Switch to the nearest empty workspace, then launch a new instance there.
    LaunchInEmpty,
    /// Do nothing.
    NoAction,
}

impl View for Decision<String> {
    type V = Decision<Seq<char>>;

    open spec fn view(&self) -> Decision<Seq<char>> {
        match self {
            Decision::Focus(a) => Decision::Focus(a@),
            Decision::Move(a) => Decision::Move(a@),
            Decision::MoveToEmpty(a) => Decision::MoveToEmpty(a@),
            Decision::Launch => Decision::Launch,
            Decision::LaunchInEmpty => Decision::LaunchInEmpty,
            Decision::NoAction => Decision::NoAction,
        }
    }
}

/// The index of the first window with address `addr`, if there is one.
pub open spec fn position_of(cands: Seq<Window>, addr: Seq<char>) -> Option<int>
    decreases cands.len(),
{
    if cands.len() == 0 {
        None
    } else {
        match position_of(cands.drop_last(), addr) {
            Some(i) => Some(i),
            None => if cands.last().address@ == addr {
                Some(cands.len() - 1)
            } else {
                None
            },
        }
    }
}

/// The candidate after index `i`, wrapping to the first after the last.
pub open spec fn next_index(i: int, n: int) -> int {
    (i + 1) % n
}

/// The selection for the candidates and the matching focused window.
pub open spec fn selection_of(cands: Seq<Window>, focused: Option<Window>) -> Selection {
    match focused {
        Some(w) => match position_of(cands, w.address@) {
            Some(i) => Selection::Target(next_index(i, cands.len() as int) as usize),
            None => Selection::Stale,
        },
        None => if cands.len() == 0 {
            Selection::Launch
        } else {
            Selection::Target(0)
        },
    }
}

/// The action that the placement makes of a target address.
pub open spec fn placed(addr: Seq<char>, placement: PlacementMode) -> Decision<Seq<char>> {
    match placement {
        PlacementMode::Normal => Decision::Focus(addr),
        PlacementMode::ToCurrentWorkspace => Decision::Move(addr),
        PlacementMode::ToNearestEmptyWorkspace => Decision::MoveToEmpty(addr),
    }
}

/// The decision for candidates, matching focused window and placement.
pub open spec fn decision_of(
    cands: Seq<Window>,
    focused: Option<Window>,
    placement: PlacementMode,
) -> Decision<Seq<char>> {
    match selection_of(cands, focused) {
        Selection::Target(i) => placed(cands[i as int].address@, placement),
        Selection::Launch => if placement == PlacementMode::ToNearestEmptyWorkspace {
            Decision::LaunchInEmpty
        } else {
            Decision::Launch
        },
        Selection::Stale => Decision::NoAction,
    }
}

/// The address that a decision acts on, if it acts on a window.
pub open spec fn target_of(d: Decision<Seq<char>>) -> Option<Seq<char>> {
    match d {
        Decision::Focus(a) => Some(a),
        Decision::Move(a) => Some(a),
        Decision::MoveToEmpty(a) => Some(a),
        _ => None,
    }
}

/// Finds the first candidate whose address is `addr`.
pub fn find_position(cands: &Vec<Window>, addr: &String) -> (r: Option<usize>)
    ensures
        r matches Some(i) ==> position_of(cands@, addr@) == Some(i as int),
        r is None ==> position_of(cands@, addr@) is None,
{
    let mut i: usize = 0;
    while i < cands.len()
        invariant
            i <= cands@.len(),
            position_of(cands@.subrange(0, i as int), addr@) is None,
        decreases cands@.len() - i,
    {
        proof {
            let pre = cands@.subrange(0, i as int + 1);
            assert(pre.drop_last() == cands@.subrange(0, i as int));
        }
        if cands[i].address == *addr {
            proof {
                lemma_position_prefix(cands@, addr@, i as int + 1);
            }
            return Some(i);
        }
        i = i + 1;
    }
    assert(cands@.subrange(0, cands@.len() as int) == cands@);
    None
}

/// A position found in a prefix is the position in the whole sequence.
proof fn lemma_position_prefix(cands: Seq<Window>, addr: Seq<char>, k: int)
    requires
        0 <= k <= cands.len(),
        position_of(cands.subrange(0, k), addr) is Some,
    ensures
        position_of(cands, addr) == position_of(cands.subrange(0, k), addr),
    decreases cands.len() - k,
{
    if k < cands.len() {
        let next = cands.subrange(0, k + 1);
        assert(next.drop_last() == cands.subrange(0, k));
        lemma_position_prefix(cands, addr, k + 1);
    } else {
        assert(cands.subrange(0, k) == cands);
    }
}

/// The index after `i` is `i + 1`, or `0` after the last.
proof fn lemma_next_index(i: int, n: int)
    requires
        0 <= i < n,
    ensures
        next_index(i, n) == if i + 1 == n { 0 } else { i + 1 },
{
    if i + 1 == n {
        lemma_mod_self_0(n);
    } else {
        lemma_small_mod((i + 1) as nat, n as nat);
    }
}

/// Chooses the candidate to act on: the one after the focused window, the
/// first where none is focused, or none.
pub fn select_target(cands: &Vec<Window>, focused: &Option<Window>) -> (r: Selection)
    ensures
        r == selection_of(cands@, *focused),
{
    match focused {
        Some(w) => match find_position(cands, &w.address) {
            Some(i) => {
                proof {
                    lemma_position_in_range(cands@, w.address@);
                    lemma_next_index(i as int, cands@.len() as int);
                }
                assert(i < cands.len());
                Selection::Target(if i + 1 == cands.len() { 0 } else { i + 1 })
            },
            None => Selection::Stale,
        },
        None => if cands.len() == 0 {
            Selection::Launch
        } else {
            Selection::Target(0)
        },
    }
}

/// A found position indexes a window with that address.
pub proof fn lemma_position_in_range(cands: Seq<Window>, addr: Seq<char>)
    ensures
        position_of(cands, addr) matches Some(i) ==> 0 <= i < cands.len() && cands[i].address@
            == addr,
    decreases cands.len(),
{
    if cands.len() > 0 {
        lemma_position_in_range(cands.drop_last(), addr);
    }
}

/// Decides the action for the candidates, the focused window of their class,
/// and the placement.
pub fn decide(cands: &Vec<Window>, focused: &Option<Window>, placement: PlacementMode) -> (r:
    Decision<String>)
    ensures
        r@ == decision_of(cands@, *focused, placement),
{
    match select_target(cands, focused) {
        Selection::Target(i) => {
            let addr = cands[i].address.clone();
            match placement {
                PlacementMode::Normal => Decision::Focus(addr),
                PlacementMode::ToCurrentWorkspace => Decision::Move(addr),
                PlacementMode::ToNearestEmptyWorkspace => Decision::MoveToEmpty(addr),
            }
        },
        Selection::Launch => match placement {
            PlacementMode::ToNearestEmptyWorkspace => Decision::LaunchInEmpty,
            _ => Decision::Launch,
        },
        Selection::Stale => Decision::NoAction,
    }
}

/// The decision for a whole snapshot: `windows` is `None` where the window
/// list could not be read, in which case a new instance is launched.
pub open spec fn snapshot_decision(
    windows: Option<Seq<Window>>,
    focused: Option<Window>,
    class: Seq<char>,
    placement: PlacementMode,
) -> Decision<Seq<char>> {
    match windows {
        None => Decision::Launch,
        Some(ws) => decision_of(candidates_of(ws, class), matching_focus(focused, class), placement),
    }
}

/// Decides the action for a snapshot: the window list (or `None` where it
/// could not be read), the focused window of any class, the target class and
/// the placement.
pub fn decide_from_snapshot(
    windows: &Option<Vec<Window>>,
    focused: Option<Window>,
    class: &String,
    placement: PlacementMode,
) -> (r: Decision<String>)
    ensures
        r@ == snapshot_decision(
            match windows {
                Some(ws) => Some(ws@),
                None => None,
            },
            focused,
            class@,
            placement,
        ),
{
    match windows {
        None => Decision::Launch,
        Some(ws) => {
            let cands = filter_candidates(ws, class);
            let focus = focused_matching(focused, class);
            decide(&cands, &focus, placement)
        },
    }
}

} // verus!
