//! Binding dispatch: which entry of a binding table an input event fires.
//!
//! A key event is matched by its resolved symbol, a drag by the button
//! captured when the drag began.  Table order is configuration order and
//! is significant: at most one binding fires per event, always the
//! earliest match.

use vstd::prelude::*;

use crate::config::{Keybind, Mousebind};

verus! {

/// The index of the first key binding whose symbol is `sym`, if any.
pub open spec fn first_key_match(ks: Seq<Keybind>, sym: Seq<char>) -> Option<int>
    decreases ks.len(),
{
    if ks.len() == 0 {
        None
    } else if ks[0].sym@ == sym {
        Some(0int)
    } else {
        match first_key_match(ks.drop_first(), sym) {
            Some(i) => Some(i + 1),
            None => None,
        }
    }
}

/// The index of the first mouse binding for button `button`, if any.
pub open spec fn first_mouse_match(ms: Seq<Mousebind>, button: u32) -> Option<int>
    decreases ms.len(),
{
    if ms.len() == 0 {
        None
    } else if ms[0].button == button {
        Some(0int)
    } else {
        match first_mouse_match(ms.drop_first(), button) {
            Some(i) => Some(i + 1),
            None => None,
        }
    }
}

/// What `first_key_match` returns: the index of a matching entry with no
/// match anywhere before it, or nothing when no entry matches at all.
pub proof fn lemma_first_key_match_ensures(ks: Seq<Keybind>, sym: Seq<char>)
    ensures
        match first_key_match(ks, sym) {
            Some(i) => 0 <= i < ks.len() && ks[i].sym@ == sym && (forall|j: int|
                0 <= j < i ==> ks[j].sym@ != sym),
            None => forall|j: int| 0 <= j < ks.len() ==> ks[j].sym@ != sym,
        },
    decreases ks.len(),
{
    if ks.len() == 0 {
    } else if ks[0].sym@ == sym {
    } else {
        let tail = ks.drop_first();
        lemma_first_key_match_ensures(tail, sym);
        match first_key_match(tail, sym) {
            Some(i) => {
                assert(tail[i] == ks[i + 1]);
                assert forall|j: int| 0 <= j < i + 1 implies ks[j].sym@ != sym by {
                    if j > 0 {
                        assert(tail[j - 1] == ks[j]);
                    }
                }
            },
            None => {
                assert forall|j: int| 0 <= j < ks.len() implies ks[j].sym@ != sym by {
                    if j > 0 {
                        assert(tail[j - 1] == ks[j]);
                    }
                }
            },
        }
    }
}

/// What `first_mouse_match` returns, in the same shape.
pub proof fn lemma_first_mouse_match_ensures(ms: Seq<Mousebind>, button: u32)
    ensures
        match first_mouse_match(ms, button) {
            Some(i) => 0 <= i < ms.len() && ms[i].button == button && (forall|j: int|
                0 <= j < i ==> ms[j].button != button),
            None => forall|j: int| 0 <= j < ms.len() ==> ms[j].button != button,
        },
    decreases ms.len(),
{
    if ms.len() == 0 {
    } else if ms[0].button == button {
    } else {
        let tail = ms.drop_first();
        lemma_first_mouse_match_ensures(tail, button);
        match first_mouse_match(tail, button) {
            Some(i) => {
                assert(tail[i] == ms[i + 1]);
                assert forall|j: int| 0 <= j < i + 1 implies ms[j].button != button by {
                    if j > 0 {
                        assert(tail[j - 1] == ms[j]);
                    }
                }
            },
            None => {
                assert forall|j: int| 0 <= j < ms.len() implies ms[j].button != button by {
                    if j > 0 {
                        assert(tail[j - 1] == ms[j]);
                    }
                }
            },
        }
    }
}

/// First match wins: when two key bindings carry the same symbol, the one
/// earlier in configuration order is the one that fires; the later one
/// never does.
pub proof fn lemma_first_match_wins(ks: Seq<Keybind>, sym: Seq<char>, i1: int, i2: int)
    requires
        0 <= i1 < i2 < ks.len(),
        ks[i1].sym@ == sym,
        ks[i2].sym@ == sym,
    ensures
        (first_key_match(ks, sym) matches Some(i) && i <= i1 && i < i2),
{
    lemma_first_key_match_ensures(ks, sym);
}

/// Find the binding a key event fires: the first entry whose symbol
/// equals the event's resolved symbol.
pub fn find_keybind(ks: &Vec<Keybind>, sym: &String) -> (r: Option<usize>)
    ensures
        match r {
            Some(i) => first_key_match(ks@, sym@) == Some(i as int),
            None => first_key_match(ks@, sym@) is None,
        },
{
    proof {
        lemma_first_key_match_ensures(ks@, sym@);
    }
    let n = ks.len();
    let mut i: usize = 0;
    while i < n
        invariant
            i <= n,
            n == ks@.len(),
            forall|j: int| 0 <= j < i ==> ks@[j].sym@ != sym@,
            match first_key_match(ks@, sym@) {
                Some(k) => 0 <= k < ks@.len() && ks@[k].sym@ == sym@ && (forall|j: int|
                    0 <= j < k ==> ks@[j].sym@ != sym@),
                None => forall|j: int| 0 <= j < ks@.len() ==> ks@[j].sym@ != sym@,
            },
        decreases n - i,
    {
        if ks[i].sym == *sym {
            return Some(i);
        }
        i += 1;
    }
    None
}

/// Find the binding a drag fires: the first entry for the button that
/// began the drag.
pub fn find_mousebind(ms: &Vec<Mousebind>, button: u32) -> (r: Option<usize>)
    ensures
        match r {
            Some(i) => first_mouse_match(ms@, button) == Some(i as int),
            None => first_mouse_match(ms@, button) is None,
        },
{
    proof {
        lemma_first_mouse_match_ensures(ms@, button);
    }
    let n = ms.len();
    let mut i: usize = 0;
    while i < n
        invariant
            i <= n,
            n == ms@.len(),
            forall|j: int| 0 <= j < i ==> ms@[j].button != button,
            match first_mouse_match(ms@, button) {
                Some(k) => 0 <= k < ms@.len() && ms@[k].button == button && (forall|j: int|
                    0 <= j < k ==> ms@[j].button != button),
                None => forall|j: int| 0 <= j < ms@.len() ==> ms@[j].button != button,
            },
        decreases n - i,
    {
        if ms[i].button == button {
            return Some(i);
        }
        i += 1;
    }
    None
}

} // verus!
