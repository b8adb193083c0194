use vstd::prelude::*;

verus! {

/// One open window as the compositor reports it.
#[derive(Debug)]
pub struct Window {
    pub class: String,
    pub address: String,
}

impl Window {
    pub fn new(class: String, address: String) -> (r: Window)
        ensures
            r.class@ == class@,
            r.address@ == address@,
    {
        Window { class, address }
    }
}

/// The windows of the given class, in the order in which they were listed.
pub open spec fn candidates_of(windows: Seq<Window>, class: Seq<char>) -> Seq<Window> {
    windows.filter(|w: Window| w.class@ == class)
}

/// No two windows share an address.
pub open spec fn addresses_unique(windows: Seq<Window>) -> bool {
    forall|i: int, j: int|
        0 <= i < windows.len() && 0 <= j < windows.len() && i != j ==> windows[i].address@
            != windows[j].address@
}

/// Keeps the windows whose class is `class`, in their original order.
pub fn filter_candidates(windows: &Vec<Window>, class: &String) -> (r: Vec<Window>)
    ensures
        r@ == candidates_of(windows@, class@),
{
    let mut r: Vec<Window> = Vec::new();
    let mut i: usize = 0;
    while i < windows.len()
        invariant
            i <= windows@.len(),
            r@ == candidates_of(windows@.subrange(0, i as int), class@),
        decreases windows@.len() - i,
    {
        let w = &windows[i];
        proof {
            let pre = windows@.subrange(0, i as int + 1);
            assert(pre.drop_last() == windows@.subrange(0, i as int));
            assert(pre.last() == windows@[i as int]);
            reveal(Seq::filter);
        }
        if w.class == *class {
            r.push(Window { class: w.class.clone(), address: w.address.clone() });
        }
        i = i + 1;
    }
    assert(windows@.subrange(0, windows@.len() as int) == windows@);
    r
}

/// The focused window where its class is `class`, else none.
pub open spec fn matching_focus(focused: Option<Window>, class: Seq<char>) -> Option<Window> {
    match focused {
        Some(w) => if w.class@ == class {
            Some(w)
        } else {
            None
        },
        None => None,
    }
}

/// The focused window, kept only where its class is `class`.
pub fn focused_matching(focused: Option<Window>, class: &String) -> (r: Option<Window>)
    ensures
        r == matching_focus(focused, class@),
{
    match focused {
        Some(w) => if w.class == *class { Some(w) } else { None },
        None => None,
    }
}

} // verus!
