//! The focus-ordered window stack.
//!
//! An ordered sequence of window handles, front first: the front element is
//! the window that is currently focused and raised.  The stack never holds
//! a handle twice.  Reordering is done in place, one element at a time.

use vstd::prelude::*;
use moveslice::Moveslice;

verus! {

/// The stack after cycling forward: the tail element wraps around to the
/// front.  An empty stack stays empty.
pub open spec fn rotated_next(s: Seq<u64>) -> Seq<u64> {
    if s.len() == 0 {
        s
    } else {
        seq![s.last()] + s.drop_last()
    }
}

/// The stack after cycling backward: the front element wraps around to the
/// tail.  An empty stack stays empty.
pub open spec fn rotated_prev(s: Seq<u64>) -> Seq<u64> {
    if s.len() == 0 {
        s
    } else {
        s.drop_first().push(s.first())
    }
}

/// The stack after toggling to the last-focused window: the second element
/// steps in front of the first.  A stack of fewer than two stays as it is.
pub open spec fn swapped_front(s: Seq<u64>) -> Seq<u64> {
    if s.len() < 2 {
        s
    } else {
        seq![s[1], s[0]] + s.skip(2)
    }
}

/// The stack after handle `h` is brought to the front: `h` stands first,
/// exactly once, and the others keep their relative order — whether or not
/// `h` was present before.
pub open spec fn fronted(s: Seq<u64>, h: u64) -> Seq<u64> {
    seq![h] + s.remove_value(h)
}

/// Removing an element of a duplicate-free sequence keeps it duplicate-free
/// and leaves no occurrence of that element behind.
proof fn lemma_remove_keeps_no_dup(s: Seq<u64>, i: int)
    requires
        s.no_duplicates(),
        0 <= i < s.len(),
    ensures
        s.remove(i).no_duplicates(),
        !s.remove(i).contains(s[i]),
{
    s.remove_ensures(i);
    assert forall|j: int| 0 <= j < s.remove(i).len() implies s.remove(i)[j] != s[i] by {
        if j < i {
            assert(s.remove(i)[j] == s[j]);
        } else {
            assert(s.remove(i)[j] == s[j + 1]);
        }
    }
    if s.remove(i).contains(s[i]) {
        let j = choose|j: int| 0 <= j < s.remove(i).len() && s.remove(i)[j] == s[i];
    }
}

/// Inserting a fresh element into a duplicate-free sequence keeps it
/// duplicate-free.
proof fn lemma_insert_keeps_no_dup(s: Seq<u64>, i: int, a: u64)
    requires
        s.no_duplicates(),
        !s.contains(a),
        0 <= i <= s.len(),
    ensures
        s.insert(i, a).no_duplicates(),
{
    s.insert_ensures(i, a);
    let r = s.insert(i, a);
    assert forall|p: int, q: int|
        0 <= p < r.len() && 0 <= q < r.len() && p != q implies r[p] != r[q] by {
        assert(forall|j: int| 0 <= j < r.len() && j != i ==> #[trigger] r[j] == (if j < i {
            s[j]
        } else {
            s[j - 1]
        }));
        if p != i && q != i {
            let p0: int = if p < i { p } else { p - 1 };
            let q0: int = if q < i { q } else { q - 1 };
            assert(s[p0] != s[q0]);
        }
    }
}

/// Taking one element out and putting the same element back elsewhere is a
/// permutation: a duplicate-free stack stays duplicate-free.
proof fn lemma_move_keeps_no_dup(s: Seq<u64>, from: int, to: int)
    requires
        s.no_duplicates(),
        0 <= from < s.len(),
        0 <= to < s.len(),
    ensures
        s.remove(from).insert(to, s[from]).no_duplicates(),
{
    lemma_remove_keeps_no_dup(s, from);
    lemma_insert_keeps_no_dup(s.remove(from), to, s[from]);
}

/// Relies on `moveslice::Moveslice::moveslice` over a one-element range:
/// the element at `from` is taken out and re-inserted so that it lands at
/// index `to`, every other element keeping its relative order.  Both
/// indices in bounds rule out the two panics the crate reserves for an
/// out-of-range chunk or destination.
#[verifier::external_body]
fn move_element(v: &mut Vec<u64>, from: usize, to: usize)
    requires
        from < old(v).len(),
        to < old(v).len(),
    ensures
        final(v)@ == old(v)@.remove(from as int).insert(to as int, old(v)@[from as int]),
{
    v.moveslice(from..=from, to);
}

/// The focus-ordered window stack itself.  The handles live in a plain
/// vector, front at index zero; `wf` says no handle occurs twice.
pub struct WindowStack {
    windows: Vec<u64>,
}

impl View for WindowStack {
    type V = Seq<u64>;

    closed spec fn view(&self) -> Seq<u64> {
        self.windows@
    }
}

impl WindowStack {
    /// The stack's one invariant: no window handle occurs twice.
    pub open spec fn wf(&self) -> bool {
        self@.no_duplicates()
    }

    /// An empty stack.
    pub fn new() -> (s: WindowStack)
        ensures
            s@ == Seq::<u64>::empty(),
            s.wf(),
    {
        WindowStack { windows: Vec::new() }
    }

    /// How many windows are managed.
    pub fn len(&self) -> (n: usize)
        ensures
            n == self@.len(),
    {
        self.windows.len()
    }

    /// The focused window: the front of the stack, if any.
    pub fn focused(&self) -> (r: Option<u64>)
        ensures
            r == (if self@.len() == 0 {
                Option::<u64>::None
            } else {
                Option::Some(self@[0])
            }),
    {
        if self.windows.len() == 0 {
            None
        } else {
            Some(self.windows[0])
        }
    }

    /// The handle at a given position, front first.
    pub fn get(&self, i: usize) -> (h: u64)
        requires
            i < self@.len(),
        ensures
            h == self@[i as int],
    {
        self.windows[i]
    }

    /// Where `h` stands in the stack: the index of its first (and, on a
    /// well-formed stack, only) occurrence.
    fn position_of(&self, h: u64) -> (r: Option<usize>)
        ensures
            match r {
                Some(i) => i < self@.len() && self@[i as int] == h && forall|j: int|
                    0 <= j < i ==> self@[j] != h,
                None => !self@.contains(h),
            },
    {
        let n = self.windows.len();
        let mut i: usize = 0;
        while i < n
            invariant
                i <= n,
                n == self@.len(),
                forall|j: int| 0 <= j < i ==> self@[j] != h,
            decreases n - i,
        {
            if self.windows[i] == h {
                return Some(i);
            }
            i += 1;
        }
        None
    }

    /// Whether `h` is currently managed.
    pub fn contains(&self, h: u64) -> (r: bool)
        ensures
            r == self@.contains(h),
    {
        match self.position_of(h) {
            Some(_) => true,
            None => false,
        }
    }

    /// Bring `h` to the front: insert it if it is new, move it if it is
    /// already managed.  Either way it ends up first, exactly once, and
    /// the remaining windows keep their relative order.
    pub fn bring_to_front(&mut self, h: u64)
        requires
            old(self).wf(),
        ensures
            final(self)@ == fronted(old(self)@, h),
            final(self).wf(),
            final(self)@[0] == h,
            final(self)@.contains(h),
    {
        let ghost s = self@;
        proof {
            s.index_of_first_ensures(h);
        }
        match self.position_of(h) {
            Some(i) => {
                proof {
                    assert(s.index_of_first(h) == Some(i as int));
                    assert(s.remove_value(h) == s.remove(i as int));
                    lemma_move_keeps_no_dup(s, i as int, 0);
                }
                if i > 0 {
                    move_element(&mut self.windows, i, 0);
                }
                proof {
                    assert(self@ =~= seq![h] + s.remove(i as int));
                }
            },
            None => {
                proof {
                    assert(s.remove_value(h) == s);
                    lemma_insert_keeps_no_dup(s, 0, h);
                }
                self.windows.insert(0, h);
                proof {
                    assert(self@ =~= seq![h] + s);
                }
            },
        }
        proof {
            assert(self@[0] == h);
            assert(self@.contains(h));
        }
    }

    /// Insert `h` at the front.  On a stack that already holds `h` this
    /// must not duplicate it: it reorders instead, exactly as
    /// `bring_to_front` does.
    pub fn push_front(&mut self, h: u64)
        requires
            old(self).wf(),
        ensures
            final(self)@ == fronted(old(self)@, h),
            final(self).wf(),
            final(self)@[0] == h,
    {
        self.bring_to_front(h);
    }

    /// Forget `h`: delete its occurrence wherever it stands; a stack
    /// without `h` is left as it is.
    pub fn remove(&mut self, h: u64)
        requires
            old(self).wf(),
        ensures
            final(self)@ == old(self)@.remove_value(h),
            final(self).wf(),
            !final(self)@.contains(h),
    {
        let ghost s = self@;
        proof {
            s.index_of_first_ensures(h);
        }
        match self.position_of(h) {
            Some(i) => {
                proof {
                    assert(s.index_of_first(h) == Some(i as int));
                    lemma_remove_keeps_no_dup(s, i as int);
                }
                self.windows.remove(i);
            },
            None => {
                proof {
                    assert(s.remove_value(h) == s);
                }
            },
        }
    }

    /// Cycle forward: the tail window wraps around to the front.  An empty
    /// stack is left alone.
    pub fn rotate_next(&mut self)
        requires
            old(self).wf(),
        ensures
            final(self)@ == rotated_next(old(self)@),
            final(self).wf(),
    {
        let ghost s = self@;
        let n = self.windows.len();
        if n > 0 {
            proof {
                lemma_move_keeps_no_dup(s, s.len() - 1, 0);
            }
            move_element(&mut self.windows, n - 1, 0);
            proof {
                assert(self@ =~= rotated_next(s));
            }
        }
    }

    /// Cycle backward: the front window steps down to the tail.  An empty
    /// stack is left alone.
    pub fn rotate_prev(&mut self)
        requires
            old(self).wf(),
        ensures
            final(self)@ == rotated_prev(old(self)@),
            final(self).wf(),
    {
        let ghost s = self@;
        let n = self.windows.len();
        if n > 0 {
            proof {
                lemma_move_keeps_no_dup(s, 0, s.len() - 1);
            }
            move_element(&mut self.windows, 0, n - 1);
            proof {
                assert(self@ =~= rotated_prev(s));
            }
        }
    }

    /// Toggle to the last-focused window: the second window steps in front
    /// of the first.  With fewer than two windows nothing happens.
    pub fn swap_to_last_focused(&mut self)
        requires
            old(self).wf(),
        ensures
            final(self)@ == swapped_front(old(self)@),
            final(self).wf(),
    {
        let ghost s = self@;
        let n = self.windows.len();
        if n >= 2 {
            proof {
                lemma_move_keeps_no_dup(s, 1, 0);
            }
            move_element(&mut self.windows, 1, 0);
            proof {
                assert(self@ =~= swapped_front(s));
            }
        }
    }
}

/// Cycling forward and then backward restores any stack exactly.
pub proof fn lemma_rotate_round_trip(s: Seq<u64>)
    ensures
        rotated_prev(rotated_next(s)) == s,
{
    if s.len() > 0 {
        assert(rotated_prev(rotated_next(s)) =~= s);
    }
}

/// The last-focus toggle is its own inverse: applying it twice restores
/// any stack exactly.
pub proof fn lemma_swap_to_last_focused_round_trip(s: Seq<u64>)
    ensures
        swapped_front(swapped_front(s)) == s,
{
    if s.len() >= 2 {
        assert(swapped_front(swapped_front(s)) =~= s);
    }
}

/// Removing a handle and then bringing it to the front leaves exactly one
/// occurrence of it: at the front, and nowhere behind it.
pub proof fn lemma_remove_then_front_single(s: Seq<u64>, h: u64)
    requires
        s.no_duplicates(),
    ensures
        ({
            let f = fronted(s.remove_value(h), h);
            f[0] == h && forall|j: int| 1 <= j < f.len() ==> f[j] != h
        }),
{
    let r = s.remove_value(h);
    s.index_of_first_ensures(h);
    match s.index_of_first(h) {
        Some(i) => {
            lemma_remove_keeps_no_dup(s, i);
        },
        None => {},
    }
    assert(!r.contains(h));
    r.index_of_first_ensures(h);
    assert(r.remove_value(h) == r);
    let f = fronted(r, h);
    assert forall|j: int| 1 <= j < f.len() implies f[j] != h by {
        assert(f[j] == r[j - 1]);
    }
}

} // verus!
