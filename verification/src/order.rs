//! Ordered, duplicate-free sequences of windows and the moves made on them.

use vstd::prelude::*;
use std::collections::VecDeque;
use crate::types::{PrevOrNext, Window};

verus! {

/// Whether `i` is the first place at which `w` stands in `s`.
pub open spec fn first_at(s: Seq<Window>, w: Window, i: int) -> bool {
    &&& 0 <= i < s.len()
    &&& s[i] == w
    &&& forall|j: int| 0 <= j < i ==> s[j] != w
}

/// The first place at which `w` stands in `s`; meaningful when `s` holds `w`.
pub open spec fn position_of(s: Seq<Window>, w: Window) -> int {
    choose|i: int| first_at(s, w, i)
}

/// `s` with the first `w` taken out; `s` itself when it does not hold `w`.
pub open spec fn without(s: Seq<Window>, w: Window) -> Seq<Window> {
    if s.contains(w) {
        s.remove(position_of(s, w))
    } else {
        s
    }
}

/// `s` with the first `w` moved to the front and the rest left in order;
/// `s` itself when it does not hold `w`.
pub open spec fn to_front(s: Seq<Window>, w: Window) -> Seq<Window> {
    if s.contains(w) {
        seq![w] + s.remove(position_of(s, w))
    } else {
        s
    }
}

/// `s` with the first `w` moved to the back and the rest left in order;
/// `s` itself when it does not hold `w`.
pub open spec fn to_back(s: Seq<Window>, w: Window) -> Seq<Window> {
    if s.contains(w) {
        s.remove(position_of(s, w)).push(w)
    } else {
        s
    }
}

/// The place next to `i` among `n` places in direction `dir`, wrapping
/// around both ends.
pub open spec fn neighbour(i: int, dir: PrevOrNext, n: int) -> int {
    match dir {
        PrevOrNext::Prev => if i == 0 { n - 1 } else { i - 1 },
        PrevOrNext::Next => if i == n - 1 { 0 } else { i + 1 },
    }
}

/// `s` with the entries at `i` and `j` exchanged.
pub open spec fn exchanged(s: Seq<Window>, i: int, j: int) -> Seq<Window> {
    s.update(i, s[j]).update(j, s[i])
}

/// `s` with the first `w` exchanged with its neighbour in direction `dir`;
/// `s` itself when it does not hold `w`.
pub open spec fn swapped(s: Seq<Window>, w: Window, dir: PrevOrNext) -> Seq<Window> {
    if s.contains(w) {
        exchanged(s, position_of(s, w), neighbour(position_of(s, w), dir, s.len() as int))
    } else {
        s
    }
}

/// A sequence that holds `w` has a first place for it, and only one.
pub proof fn lemma_position(s: Seq<Window>, w: Window)
    requires
        s.contains(w),
    ensures
        first_at(s, w, position_of(s, w)),
        forall|i: int| first_at(s, w, i) ==> i == position_of(s, w),
{
    s.index_of_first_ensures(w);
    let k = s.index_of_first(w).unwrap();
    assert(first_at(s, w, k));
    assert forall|i: int| first_at(s, w, i) implies i == position_of(s, w) by {
        let p = position_of(s, w);
        if i < p {
            assert(s[i] != w);
        } else if p < i {
            assert(s[p] != w);
        }
    }
}

/// A place that is the first for `w` is the position of `w`.
pub proof fn lemma_position_is(s: Seq<Window>, w: Window, i: int)
    requires
        first_at(s, w, i),
    ensures
        s.contains(w),
        position_of(s, w) == i,
{
    assert(s[i] == w);
    lemma_position(s, w);
}

/// In a sequence without duplicates every place is the first of its entry.
pub proof fn lemma_position_unique(s: Seq<Window>, i: int)
    requires
        s.no_duplicates(),
        0 <= i < s.len(),
    ensures
        first_at(s, s[i], i),
        position_of(s, s[i]) == i,
{
    lemma_position_is(s, s[i], i);
}

/// The first place of `window` in `tiles`, if it is there.
pub fn position(tiles: &VecDeque<Window>, window: Window) -> (found: Option<usize>)
    ensures
        match found {
            Some(i) => first_at(tiles@, window, i as int) && i as int == position_of(
                tiles@,
                window,
            ),
            None => !tiles@.contains(window),
        },
{
    let n: usize = tiles.len();
    let mut i: usize = 0;
    while i < n
        invariant
            n == tiles@.len(),
            i <= n,
            forall|j: int| 0 <= j < i ==> tiles@[j] != window,
        decreases n - i,
    {
        if tiles[i] == window {
            proof {
                lemma_position_is(tiles@, window, i as int);
            }
            return Some(i);
        }
        i += 1;
    }
    None
}

/// The windows of `tiles`, front first.
pub fn listed(tiles: &VecDeque<Window>) -> (list: Vec<Window>)
    ensures
        list@ == tiles@,
{
    let n: usize = tiles.len();
    let mut list: Vec<Window> = Vec::new();
    let mut i: usize = 0;
    while i < n
        invariant
            n == tiles@.len(),
            i <= n,
            list@ == tiles@.subrange(0, i as int),
        decreases n - i,
    {
        list.push(tiles[i]);
        assert(tiles@.subrange(0, i + 1) =~= tiles@.subrange(0, i as int).push(tiles@[i as int]));
        i += 1;
    }
    assert(tiles@.subrange(0, n as int) =~= tiles@);
    list
}

/// Taking a window out of a sequence without duplicates leaves a sequence
/// without duplicates that holds every other window and not this one.
pub proof fn lemma_without_distinct(s: Seq<Window>, w: Window)
    requires
        s.no_duplicates(),
    ensures
        without(s, w).no_duplicates(),
        !without(s, w).contains(w),
        forall|x: Window|
            #![trigger without(s, w).contains(x)]
            #![trigger s.contains(x)]
            without(s, w).contains(x) <==> s.contains(x) && x != w,
        s.contains(w) ==> without(s, w).push(w).no_duplicates(),
        s.contains(w) ==> without(s, w).len() == s.len() - 1,
{
    if s.contains(w) {
        lemma_position(s, w);
        let p = position_of(s, w);
        let r = s.remove(p);
        assert forall|i: int, j: int| 0 <= i < r.len() && 0 <= j < r.len() && i != j implies r[i]
            != r[j] by {
            let a = if i < p { i } else { i + 1 };
            let b = if j < p { j } else { j + 1 };
            assert(r[i] == s[a] && r[j] == s[b]);
        }
        assert forall|x: Window| r.contains(x) <==> s.contains(x) && x != w by {
            if r.contains(x) {
                let i = choose|i: int| 0 <= i < r.len() && r[i] == x;
                let a = if i < p { i } else { i + 1 };
                assert(r[i] == s[a]);
                assert(s[a] == x);
            }
            if s.contains(x) && x != w {
                let a = choose|a: int| 0 <= a < s.len() && s[a] == x;
                let i = if a < p { a } else { a - 1 };
                assert(r[i] == s[a]);
            }
        }
        let q = r.push(w);
        assert forall|i: int, j: int| 0 <= i < q.len() && 0 <= j < q.len() && i != j implies q[i]
            != q[j] by {
            if i < r.len() {
                assert(r.contains(q[i]));
            }
            if j < r.len() {
                assert(r.contains(q[j]));
            }
        }
    }
}

/// Putting a window that a sequence without duplicates does not hold
/// behind it leaves a sequence without duplicates that holds it and the
/// others.
pub proof fn lemma_push_distinct(s: Seq<Window>, w: Window)
    requires
        s.no_duplicates(),
        !s.contains(w),
    ensures
        s.push(w).no_duplicates(),
        forall|x: Window|
            #![trigger s.push(w).contains(x)]
            #![trigger s.contains(x)]
            s.push(w).contains(x) <==> s.contains(x) || x == w,
        without(s.push(w), w) == s,
{
    let b = s.push(w);
    assert forall|i: int, j: int| 0 <= i < b.len() && 0 <= j < b.len() && i != j implies b[i]
        != b[j] by {
        if i < s.len() {
            assert(s.contains(b[i]));
        }
        if j < s.len() {
            assert(s.contains(b[j]));
        }
    }
    assert forall|x: Window| b.contains(x) <==> s.contains(x) || x == w by {
        if b.contains(x) {
            let i = choose|i: int| 0 <= i < b.len() && b[i] == x;
            if i < s.len() {
                assert(s[i] == x);
            }
        }
        if s.contains(x) {
            let i = choose|i: int| 0 <= i < s.len() && s[i] == x;
            assert(b[i] == x);
        }
        assert(b[s.len() as int] == w);
    }
    lemma_position_unique(b, s.len() as int);
    assert(b.remove(s.len() as int) =~= s);
}

/// Moving a window of a sequence without duplicates to the front keeps
/// the windows and keeps them distinct.
pub proof fn lemma_to_front_distinct(s: Seq<Window>, w: Window)
    requires
        s.no_duplicates(),
    ensures
        to_front(s, w).no_duplicates(),
        to_front(s, w).len() == s.len(),
        forall|x: Window|
            #![trigger to_front(s, w).contains(x)]
            #![trigger s.contains(x)]
            to_front(s, w).contains(x) <==> s.contains(x),
        s.contains(w) ==> to_front(s, w)[0] == w && position_of(to_front(s, w), w) == 0,
{
    if s.contains(w) {
        lemma_without_distinct(s, w);
        let r = without(s, w);
        let b = to_front(s, w);
        assert(b == seq![w] + r);
        assert forall|i: int, j: int| 0 <= i < b.len() && 0 <= j < b.len() && i != j implies b[i]
            != b[j] by {
            if i > 0 {
                assert(b[i] == r[i - 1]);
                assert(r.contains(b[i]));
            }
            if j > 0 {
                assert(b[j] == r[j - 1]);
                assert(r.contains(b[j]));
            }
        }
        assert forall|x: Window| b.contains(x) <==> s.contains(x) by {
            if b.contains(x) {
                let i = choose|i: int| 0 <= i < b.len() && b[i] == x;
                if i > 0 {
                    assert(r[i - 1] == x);
                    assert(r.contains(x));
                }
            }
            if s.contains(x) {
                if x == w {
                    assert(b[0] == w);
                } else {
                    assert(r.contains(x));
                    let i = choose|i: int| 0 <= i < r.len() && r[i] == x;
                    assert(b[i + 1] == x);
                }
            }
        }
        lemma_position_is(b, w, 0);
    }
}

/// Exchanging two entries of a sequence without duplicates keeps the
/// windows and keeps them distinct.
pub proof fn lemma_exchanged_distinct(s: Seq<Window>, i: int, j: int)
    requires
        s.no_duplicates(),
        0 <= i < s.len(),
        0 <= j < s.len(),
    ensures
        exchanged(s, i, j).no_duplicates(),
        exchanged(s, i, j).len() == s.len(),
        forall|x: Window|
            #![trigger exchanged(s, i, j).contains(x)]
            #![trigger s.contains(x)]
            exchanged(s, i, j).contains(x) <==> s.contains(x),
{
    let b = exchanged(s, i, j);
    assert forall|k: int| 0 <= k < s.len() implies b[k] == s[if k == i {
        j
    } else if k == j {
        i
    } else {
        k
    }] by {}
    assert forall|x: Window| b.contains(x) <==> s.contains(x) by {
        if b.contains(x) {
            let k = choose|k: int| 0 <= k < b.len() && b[k] == x;
            let m = if k == i { j } else if k == j { i } else { k };
            assert(s[m] == x);
        }
        if s.contains(x) {
            let k = choose|k: int| 0 <= k < s.len() && s[k] == x;
            let m = if k == i { j } else if k == j { i } else { k };
            assert(b[m] == x);
        }
    }
}

/// Exchanging a window of a sequence without duplicates with its
/// neighbour keeps the windows and keeps them distinct.
pub proof fn lemma_swapped_distinct(s: Seq<Window>, w: Window, dir: PrevOrNext)
    requires
        s.no_duplicates(),
    ensures
        swapped(s, w, dir).no_duplicates(),
        swapped(s, w, dir).len() == s.len(),
        forall|x: Window|
            #![trigger swapped(s, w, dir).contains(x)]
            #![trigger s.contains(x)]
            swapped(s, w, dir).contains(x) <==> s.contains(x),
{
    if s.contains(w) {
        lemma_position(s, w);
        lemma_exchanged_distinct(
            s,
            position_of(s, w),
            neighbour(position_of(s, w), dir, s.len() as int),
        );
    }
}

} // verus!
