use vstd::arithmetic::div_mod::{lemma_add_mod_noop, lemma_mod_self_0, lemma_small_mod};
use vstd::prelude::*;

verus! {

/// The abstract state of a selectable list: the items in insertion order and
/// the optional index of the highlighted item.
#[verifier::ext_equal]
pub ghost struct ListView<T> {
    pub items: Seq<T>,
    pub selected: Option<int>,
}

impl<T> ListView<T> {
    /// The selection, when present, is a valid index into the items.
    pub open spec fn wf(self) -> bool {
        match self.selected {
            Some(i) => 0 <= i < self.items.len(),
            None => true,
        }
    }

    /// Appending an item keeps the selection as it was.
    pub open spec fn push(self, item: T) -> ListView<T> {
        ListView { items: self.items.push(item), selected: self.selected }
    }

    /// Selects index 0 when there is anything to select; otherwise leaves the
    /// list as it is.
    pub open spec fn select_first_if_present(self) -> ListView<T> {
        if self.items.len() > 0 {
            ListView { items: self.items, selected: Some(0int) }
        } else {
            self
        }
    }

    /// Moves the highlight one item forward, wrapping from the last item to
    /// the first; with no selection it starts at index 0. A no-op on an empty
    /// list.
    pub open spec fn next(self) -> ListView<T> {
        if self.items.len() == 0 {
            self
        } else {
            let i = match self.selected {
                Some(i) => (i + 1) % (self.items.len() as int),
                None => 0int,
            };
            ListView { items: self.items, selected: Some(i) }
        }
    }

    /// Moves the highlight one item backward, wrapping from the first item to
    /// the last; with no selection it starts at index 0. A no-op on an empty
    /// list.
    pub open spec fn previous(self) -> ListView<T> {
        if self.items.len() == 0 {
            self
        } else {
            let i = match self.selected {
                Some(i) => if i == 0 { self.items.len() as int - 1 } else { i - 1 },
                None => 0int,
            };
            ListView { items: self.items, selected: Some(i) }
        }
    }

    /// Clears the selection.
    pub open spec fn unselect(self) -> ListView<T> {
        ListView { items: self.items, selected: None }
    }
}

/// An ordered collection with an optional single highlighted index.
/// Insertion order is preserved and duplicates are allowed; `next` and
/// `previous` move the highlight cyclically and are total, with the
/// empty-list case a no-op.
pub struct StatefulList<T> {
    items: Vec<T>,
    selected: Option<usize>,
}

impl<T: View> View for StatefulList<T> {
    type V = ListView<T::V>;

    closed spec fn view(&self) -> ListView<T::V> {
        ListView {
            items: self.items@.map_values(|t: T| t@),
            selected: match self.selected {
                Some(i) => Some(i as int),
                None => None,
            },
        }
    }
}

impl<T: View> StatefulList<T> {
    /// Creates an empty list with nothing selected.
    pub fn new() -> (l: StatefulList<T>)
        ensures
            l@.items == Seq::<T::V>::empty(),
            l@.selected is None,
            l@.wf(),
    {
        let l = StatefulList { items: Vec::new(), selected: None };
        proof {
            assert(l@.items =~= Seq::<T::V>::empty());
        }
        l
    }

    /// The number of items held.
    pub fn len(&self) -> (n: usize)
        ensures
            n == self@.items.len(),
    {
        self.items.len()
    }

    /// A reference to the item at the given index.
    pub fn get(&self, i: usize) -> (item: &T)
        requires
            i < self@.items.len(),
        ensures
            item@ == self@.items[i as int],
    {
        &self.items[i]
    }

    /// The index of the highlighted item, if any.
    pub fn selected(&self) -> (s: Option<usize>)
        ensures
            match s {
                Some(i) => self@.selected == Some(i as int),
                None => self@.selected is None,
            },
    {
        self.selected
    }

    /// Appends an item at the end, leaving the selection unchanged.
    pub fn push(&mut self, item: T)
        requires
            old(self)@.wf(),
        ensures
            final(self)@ == old(self)@.push(item@),
            final(self)@.wf(),
    {
        let ghost pre = self.items@;
        self.items.push(item);
        proof {
            assert(self.items@.map_values(|t: T| t@) =~= pre.map_values(|t: T| t@).push(item@));
        }
    }

    /// Selects index 0 when the list is non-empty; otherwise does nothing.
    pub fn select_first_if_present(&mut self)
        requires
            old(self)@.wf(),
        ensures
            final(self)@ == old(self)@.select_first_if_present(),
            final(self)@.wf(),
    {
        if self.items.len() > 0 {
            self.selected = Some(0);
        }
    }

    /// Moves the highlight one item forward, cyclically; a no-op on an empty
    /// list.
    pub fn next(&mut self)
        requires
            old(self)@.wf(),
        ensures
            final(self)@ == old(self)@.next(),
            final(self)@.wf(),
    {
        let n = self.items.len();
        if n > 0 {
            let i: usize = match self.selected {
                Some(i) => {
                    if i + 1 == n {
                        0
                    } else {
                        i + 1
                    }
                },
                None => 0,
            };
            proof {
                if old(self)@.selected is Some {
                    let j = old(self)@.selected->0;
                    if j + 1 == n {
                        lemma_mod_self_0(n as int);
                    } else {
                        lemma_small_mod((j + 1) as nat, n as nat);
                    }
                }
            }
            self.selected = Some(i);
        }
    }

    /// Moves the highlight one item backward, cyclically; a no-op on an empty
    /// list.
    pub fn previous(&mut self)
        requires
            old(self)@.wf(),
        ensures
            final(self)@ == old(self)@.previous(),
            final(self)@.wf(),
    {
        let n = self.items.len();
        if n > 0 {
            let i: usize = match self.selected {
                Some(i) => {
                    if i == 0 {
                        n - 1
                    } else {
                        i - 1
                    }
                },
                None => 0,
            };
            self.selected = Some(i);
        }
    }

    /// Clears the selection, leaving the items untouched.
    pub fn unselect(&mut self)
        ensures
            final(self)@ == old(self)@.unselect(),
            final(self)@.wf(),
    {
        self.selected = None;
    }
}

/// Repeated forward movement: `v` after `n` calls of `next`.
pub open spec fn next_n<T>(v: ListView<T>, n: nat) -> ListView<T>
    decreases n,
{
    if n == 0 {
        v
    } else {
        next_n(v, (n - 1) as nat).next()
    }
}

/// After `k` steps forward from selection `i`, the selection is
/// `(i + k) mod len` and the items are untouched.
proof fn lemma_next_n_selection<T>(v: ListView<T>, k: nat)
    requires
        v.wf(),
        v.items.len() > 0,
        v.selected is Some,
    ensures
        next_n(v, k).items == v.items,
        next_n(v, k).selected == Some((v.selected->0 + k) % (v.items.len() as int)),
    decreases k,
{
    let n = v.items.len() as int;
    let i = v.selected->0;
    if k == 0 {
        lemma_small_mod(i as nat, n as nat);
    } else {
        lemma_next_n_selection(v, (k - 1) as nat);
        let prev = next_n(v, (k - 1) as nat);
        assert(prev.selected == Some((i + k - 1) % n));
        lemma_add_mod_noop(i + k - 1, 1, n);
        if n == 1 {
            lemma_mod_self_0(n);
            assert((i + k - 1) % n == 0 && (i + k) % n == 0);
        } else {
            lemma_small_mod(1nat, n as nat);
            assert(((i + k - 1) % n + 1int % n) % n == (i + k) % n);
        }
    }
}

/// Cyclic closure: on a non-empty list with a selection, calling `next` once
/// per item brings the selection back to where it started.
pub proof fn lemma_next_cycles<T>(v: ListView<T>)
    requires
        v.wf(),
        v.items.len() > 0,
        v.selected is Some,
    ensures
        next_n(v, v.items.len()) == v,
{
    let n = v.items.len() as int;
    let i = v.selected->0;
    lemma_next_n_selection(v, v.items.len());
    lemma_add_mod_noop(i, n, n);
    lemma_mod_self_0(n);
    lemma_small_mod(i as nat, n as nat);
    assert((i + n) % n == i);
    assert(next_n(v, v.items.len()) =~= v);
}

/// `previous` is the exact inverse of `next`: moving forward and then
/// backward restores the prior selection on any well-formed list that has
/// one.
pub proof fn lemma_previous_inverts_next<T>(v: ListView<T>)
    requires
        v.wf(),
        v.items.len() > 0,
        v.selected is Some,
    ensures
        v.next().previous() == v,
{
    let n = v.items.len() as int;
    let i = v.selected->0;
    if i + 1 == n {
        lemma_mod_self_0(n);
    } else {
        lemma_small_mod((i + 1) as nat, n as nat);
    }
    assert(v.next().previous() =~= v);
}

/// On a well-formed empty list nothing is ever selected: `next` and
/// `previous` are no-ops and the selection stays `None`.
pub proof fn lemma_empty_list_stays_unselected<T>(v: ListView<T>)
    requires
        v.wf(),
        v.items.len() == 0,
    ensures
        v.next() == v,
        v.previous() == v,
        v.selected is None,
{
}

} // verus!
