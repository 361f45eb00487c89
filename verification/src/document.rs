//! The document: the steps in their order, and the row that is selected.

use crate::err_msg::StateError;
use crate::test_step::{steps_view, StepView, TestStep};
use vstd::arithmetic::div_mod::{
    lemma_fundamental_div_mod, lemma_fundamental_div_mod_converse, lemma_mod_bound,
};
use vstd::prelude::*;

verus! {

/// What a document holds: the steps, and the index of the selected one.
pub struct DocumentView {
    pub steps: Seq<StepView>,
    pub selected: Option<int>,
}

/// The index `selected`, as a number.
pub open spec fn index_view(selected: Option<usize>) -> Option<int> {
    match selected {
        Some(i) => Some(i as int),
        None => None,
    }
}

/// The selection `selected`, brought back into a list of `len` rows: none
/// in an empty list, the last row where it pointed behind it.
pub open spec fn clamped(selected: Option<int>, len: int) -> Option<int> {
    match selected {
        Some(i) => if len <= 0 {
            None
        } else if i >= len {
            Some(len - 1)
        } else {
            Some(i)
        },
        None => None,
    }
}

/// The row that lies `delta` rows behind row `current` in a ring of `len`
/// rows.
pub open spec fn wrapped(current: int, delta: int, len: int) -> int {
    (current + delta) % len
}

impl DocumentView {
    /// The selected index, if there is one, is an index of the document.
    pub open spec fn wf(self) -> bool {
        match self.selected {
            Some(i) => 0 <= i < self.steps.len(),
            None => true,
        }
    }

    /// The document with `step` at `position`; the selected index stays.
    pub open spec fn insert(self, position: int, step: StepView) -> DocumentView {
        DocumentView { steps: self.steps.insert(position, step), selected: self.selected }
    }

    /// The document without the step at `position`; the selected index
    /// stays where it still is one, and else falls back to the last row.
    pub open spec fn remove(self, position: int) -> DocumentView {
        DocumentView {
            steps: self.steps.remove(position),
            selected: clamped(self.selected, self.steps.len() - 1),
        }
    }

    /// The document with `step` in place of the step at `position`.
    pub open spec fn replace(self, position: int, step: StepView) -> DocumentView {
        DocumentView { steps: self.steps.update(position, step), selected: self.selected }
    }

    /// The document with the selection moved by `delta` rows, round the
    /// ends. With nothing selected, the first row gets selected; in an empty
    /// document nothing is.
    pub open spec fn move_selection(self, delta: int) -> DocumentView {
        DocumentView {
            steps: self.steps,
            selected: if self.steps.len() == 0 {
                None
            } else {
                match self.selected {
                    Some(i) => Some(wrapped(i, delta, self.steps.len() as int)),
                    None => Some(0),
                }
            },
        }
    }
}

/// Moving the selection in a document that has steps selects one of its
/// rows, whatever was selected and however far the move goes.
pub proof fn lemma_move_selection_in_range(doc: DocumentView, delta: int)
    requires
        doc.steps.len() > 0,
    ensures
        doc.move_selection(delta).selected is Some,
        0 <= doc.move_selection(delta).selected->0 < doc.steps.len(),
        doc.move_selection(delta).steps == doc.steps,
        doc.move_selection(delta).wf(),
{
    if let Some(i) = doc.selected {
        lemma_mod_bound(i + delta, doc.steps.len() as int);
    }
}

/// An ordered list of steps and at most one selected row.
#[derive(Debug)]
pub struct Document {
    items: Vec<TestStep>,
    selected: Option<usize>,
}

impl View for Document {
    type V = DocumentView;

    closed spec fn view(&self) -> DocumentView {
        DocumentView { steps: steps_view(self.items@), selected: index_view(self.selected) }
    }
}

impl Clone for Document {
    fn clone(&self) -> (r: Self)
        ensures
            r@ == self@,
    {
        proof {
            use_type_invariant(self);
        }
        Document { items: clone_steps(&self.items), selected: self.selected }
    }
}

/// A copy of `steps`.
pub fn clone_steps(steps: &Vec<TestStep>) -> (r: Vec<TestStep>)
    ensures
        r@ == steps@,
{
    let mut r: Vec<TestStep> = Vec::new();
    let mut i: usize = 0;
    while i < steps.len()
        invariant
            i <= steps.len(),
            r@ == steps@.take(i as int),
        decreases steps.len() - i,
    {
        r.push(steps[i].clone());
        assert(steps@.take(i + 1) == steps@.take(i as int).push(steps@[i as int]));
        i = i + 1;
    }
    assert(steps@.take(steps.len() as int) == steps@);
    r
}

impl Document {
    #[verifier::type_invariant]
    spec fn selection_in_range(&self) -> bool {
        match self.selected {
            Some(i) => i < self.items.len(),
            None => true,
        }
    }

    /// Takes the steps and the selection out, and leaves the document empty.
    fn take(&mut self) -> (r: (Vec<TestStep>, Option<usize>))
        ensures
            r.0 == old(self).items,
            r.1 == old(self).selected,
            r.1 matches Some(i) ==> i < r.0.len(),
            final(self).items@.len() == 0,
            final(self).selected is None,
    {
        proof {
            use_type_invariant(&*self);
        }
        let selected = self.selected;
        self.selected = None;
        let mut items: Vec<TestStep> = Vec::new();
        std::mem::swap(&mut self.items, &mut items);
        (items, selected)
    }

    /// Puts steps and a selection into the document that `take` left empty.
    fn put(&mut self, items: Vec<TestStep>, selected: Option<usize>)
        requires
            old(self).selected is None,
            selected matches Some(i) ==> i < items.len(),
        ensures
            final(self).items == items,
            final(self).selected == selected,
    {
        let mut items = items;
        std::mem::swap(&mut self.items, &mut items);
        self.selected = selected;
    }

    /// The empty document, with nothing selected.
    pub fn new() -> (doc: Document)
        ensures
            doc@.steps == Seq::<StepView>::empty(),
            doc@.selected is None,
    {
        Document { items: Vec::new(), selected: None }
    }

    /// The document of `items`, with `selected` brought into their range.
    pub fn from_items(items: Vec<TestStep>, selected: Option<usize>) -> (doc: Document)
        ensures
            doc@.steps == steps_view(items@),
            doc@.selected == clamped(index_view(selected), items@.len() as int),
    {
        let selected = clamp(selected, items.len());
        Document { items, selected }
    }

    /// The number of steps.
    pub fn len(&self) -> (n: usize)
        ensures
            n == self@.steps.len(),
    {
        self.items.len()
    }

    /// The steps, in order.
    pub fn items(&self) -> (items: &Vec<TestStep>)
        ensures
            steps_view(items@) == self@.steps,
    {
        &self.items
    }

    /// The selected index, which is an index of the document.
    pub fn selected(&self) -> (selected: Option<usize>)
        ensures
            index_view(selected) == self@.selected,
            self@.wf(),
            self@.steps.len() <= usize::MAX,
    {
        proof {
            use_type_invariant(self);
        }
        let _ = self.items.len();
        self.selected
    }

    /// The step at `position`.
    pub fn get(&self, position: usize) -> (r: Result<&TestStep, StateError>)
        ensures
            match r {
                Ok(step) => position < self@.steps.len() && step@ == self@.steps[position as int],
                Err(e) => e == StateError::OutOfRange && position >= self@.steps.len(),
            },
    {
        if position < self.items.len() {
            Ok(&self.items[position])
        } else {
            Err(StateError::OutOfRange)
        }
    }

    /// The step at `position`, to be changed in place.
    pub fn get_mut(&mut self, position: usize) -> (r: Result<&mut TestStep, StateError>)
        ensures
            match r {
                Ok(step) => {
                    &&& position < old(self)@.steps.len()
                    &&& step@ == old(self)@.steps[position as int]
                    &&& final(self)@ == old(self)@.replace(position as int, final(step)@)
                },
                Err(e) => e == StateError::OutOfRange && position >= old(self)@.steps.len()
                    && final(self)@ == old(self)@,
            },
    {
        proof {
            use_type_invariant(&*self);
        }
        if position < self.items.len() {
            let step = &mut self.items[position];
            proof {
                let before = old(self).items@;
                let after = before.update(position as int, *final(step));
                assert(steps_view(after) == steps_view(before).update(
                    position as int,
                    final(step)@,
                ));
            }
            Ok(step)
        } else {
            Err(StateError::OutOfRange)
        }
    }

    /// Puts `step` at `position`, before the step that was there. The
    /// selected index stays.
    pub fn insert(&mut self, position: usize, step: TestStep) -> (r: Result<(), StateError>)
        ensures
            match r {
                Ok(()) => position <= old(self)@.steps.len() && final(self)@ == old(self)@.insert(
                    position as int,
                    step@,
                ),
                Err(e) => e == StateError::OutOfRange && position > old(self)@.steps.len()
                    && final(self)@ == old(self)@,
            },
    {
        if position > self.items.len() {
            return Err(StateError::OutOfRange);
        }
        let (mut items, selected) = self.take();
        items.insert(position, step);
        self.put(items, selected);
        assert(steps_view(self.items@) == steps_view(old(self).items@).insert(
            position as int,
            step@,
        ));
        Ok(())
    }

    /// Takes the step at `position` out and returns it.
    pub fn remove(&mut self, position: usize) -> (r: Result<TestStep, StateError>)
        ensures
            match r {
                Ok(step) => {
                    &&& position < old(self)@.steps.len()
                    &&& step@ == old(self)@.steps[position as int]
                    &&& final(self)@ == old(self)@.remove(position as int)
                },
                Err(e) => e == StateError::OutOfRange && position >= old(self)@.steps.len()
                    && final(self)@ == old(self)@,
            },
    {
        if position >= self.items.len() {
            return Err(StateError::OutOfRange);
        }
        let (mut items, selected) = self.take();
        let step = items.remove(position);
        let selected = clamp(selected, items.len());
        self.put(items, selected);
        assert(steps_view(self.items@) == steps_view(old(self).items@).remove(position as int));
        Ok(step)
    }

    /// Selects the row at `position`.
    pub fn select(&mut self, position: usize) -> (r: Result<(), StateError>)
        ensures
            match r {
                Ok(()) => position < old(self)@.steps.len() && final(self)@ == (DocumentView {
                    selected: Some(position as int),
                    ..old(self)@
                }),
                Err(e) => e == StateError::OutOfRange && position >= old(self)@.steps.len()
                    && final(self)@ == old(self)@,
            },
    {
        if position >= self.items.len() {
            return Err(StateError::OutOfRange);
        }
        self.selected = Some(position);
        Ok(())
    }

    /// Moves the selection by `delta` rows, round the ends of the document:
    /// from row `i` of `n` to row `(i + delta) mod n`. With nothing selected
    /// the first row gets selected. In an empty document nothing is
    /// selected afterwards.
    pub fn move_selection(&mut self, delta: isize)
        ensures
            final(self)@ == old(self)@.move_selection(delta as int),
            final(self)@.steps.len() > 0 ==> final(self)@.selected is Some && 0
                <= final(self)@.selected->0 < final(self)@.steps.len(),
    {
        proof {
            use_type_invariant(&*self);
        }
        let len = self.items.len();
        if len == 0 {
            self.selected = None;
        } else {
            let next = match self.selected {
                Some(i) => delta_selection(i, delta, len),
                None => 0,
            };
            self.selected = Some(next);
        }
    }

    /// Selects what `selected` says, brought into the range of the
    /// document.
    pub fn reselect(&mut self, selected: Option<usize>)
        ensures
            final(self)@ == (DocumentView {
                selected: clamped(index_view(selected), old(self)@.steps.len() as int),
                ..old(self)@
            }),
    {
        self.selected = clamp(selected, self.items.len());
    }

    /// Takes every step out; nothing is selected then.
    pub fn clear(&mut self)
        ensures
            final(self)@.steps == Seq::<StepView>::empty(),
            final(self)@.selected is None,
    {
        let _ = self.take();
    }
}

/// The row that lies `delta` rows behind row `i` in a ring of `len` rows.
pub fn delta_selection(i: usize, delta: isize, len: usize) -> (r: usize)
    requires
        len > 0,
    ensures
        r == wrapped(i as int, delta as int, len as int),
        r < len,
{
    let base: usize = i % len;
    proof {
        lemma_fundamental_div_mod(i as int, len as int);
    }
    if delta >= 0 {
        let d: usize = (delta as usize) % len;
        let r: usize = if d < len - base {
            base + d
        } else {
            d - (len - base)
        };
        proof {
            let n = len as int;
            let qi = (i as int) / n;
            let qd = (delta as int) / n;
            lemma_fundamental_div_mod(delta as int, n);
            let q = if d < len - base {
                qi + qd
            } else {
                qi + qd + 1
            };
            assert(i + delta == q * n + r) by (nonlinear_arith)
                requires
                    i == n * qi + base,
                    delta == n * qd + d,
                    q == (if d < n - base {
                        qi + qd
                    } else {
                        qi + qd + 1
                    }),
                    r == (if d < n - base {
                        base + d
                    } else {
                        d - (n - base)
                    }),
            ;
            lemma_fundamental_div_mod_converse(i + delta, n, q, r as int);
        }
        r
    } else {
        let back: usize = (-(delta + 1)) as usize;
        let m: usize = back % len;
        let d: usize = if m + 1 == len {
            0
        } else {
            m + 1
        };
        let r: usize = if base >= d {
            base - d
        } else {
            len - (d - base)
        };
        proof {
            let n = len as int;
            let qi = (i as int) / n;
            let qm = (back as int) / n;
            lemma_fundamental_div_mod(back as int, n);
            let q = qi - qm - (if m + 1 == len {
                1int
            } else {
                0int
            }) - (if base >= d {
                0int
            } else {
                1int
            });
            assert(i + delta == q * n + r) by (nonlinear_arith)
                requires
                    i == n * qi + base,
                    -delta - 1 == n * qm + m,
                    d == (if m + 1 == n {
                        0
                    } else {
                        m + 1
                    }),
                    q == qi - qm - (if m + 1 == n {
                        1int
                    } else {
                        0int
                    }) - (if base >= d {
                        0int
                    } else {
                        1int
                    }),
                    r == (if base >= d {
                        base - d
                    } else {
                        n - (d - base)
                    }),
            ;
            lemma_fundamental_div_mod_converse(i + delta, n, q, r as int);
        }
        r
    }
}

/// The selection `selected`, brought back into a list of `len` rows.
pub fn clamp(selected: Option<usize>, len: usize) -> (r: Option<usize>)
    ensures
        index_view(r) == clamped(index_view(selected), len as int),
{
    match selected {
        Some(i) => if len == 0 {
            None
        } else if i >= len {
            Some(len - 1)
        } else {
            Some(i)
        },
        None => None,
    }
}

} // verus!
