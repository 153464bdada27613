//! The committed marks of the canvas together with their undo and redo
//! stacks of whole-canvas snapshots. A committed mark never changes, so the
//! snapshots share the marks (`Rc`) instead of copying them.

use std::rc::Rc;

use vstd::prelude::*;

verus! {

/// At most this many undo steps are kept; older ones are dropped first.
pub const MAX_UNDO: usize = 100;

/// The abstract state of a [`History`]: the current marks, the snapshots that
/// undo restores (most recent last) and those that redo restores (most recent last).
#[verifier::ext_equal]
pub struct HistoryView<T> {
    pub marks: Seq<T>,
    pub undo: Seq<Seq<T>>,
    pub redo: Seq<Seq<T>>,
}

/// The undo stack `undo` after pushing `marks`: when it already held
/// `MAX_UNDO` snapshots, the oldest is dropped first.
pub open spec fn pushed<T>(undo: Seq<Seq<T>>, marks: Seq<T>) -> Seq<Seq<T>> {
    if undo.len() >= MAX_UNDO {
        undo.drop_first().push(marks)
    } else {
        undo.push(marks)
    }
}

/// The elements of `s` whose flag in `drop` is false, in order.
pub open spec fn kept<T>(s: Seq<T>, drop: Seq<bool>) -> Seq<T>
    decreases s.len(),
{
    if s.len() == 0 {
        Seq::empty()
    } else {
        let rest = kept(s.drop_last(), drop.take(s.len() - 1));
        if drop[s.len() - 1] {
            rest
        } else {
            rest.push(s.last())
        }
    }
}

/// Some flag of `drop` is set.
pub open spec fn any_set(drop: Seq<bool>) -> bool {
    exists|i: int| 0 <= i < drop.len() && drop[i]
}

/// The state after a snapshot: the current marks go on the undo stack and
/// the redo stack is emptied.
pub open spec fn after_snapshot<T>(h: HistoryView<T>) -> HistoryView<T> {
    HistoryView { marks: h.marks, undo: pushed(h.undo, h.marks), redo: Seq::empty() }
}

/// The state after one undo step.
pub open spec fn after_undo<T>(h: HistoryView<T>) -> HistoryView<T> {
    if h.undo.len() == 0 {
        h
    } else {
        HistoryView { marks: h.undo.last(), undo: h.undo.drop_last(), redo: h.redo.push(h.marks) }
    }
}

/// The state after one redo step.
pub open spec fn after_redo<T>(h: HistoryView<T>) -> HistoryView<T> {
    if h.redo.len() == 0 {
        h
    } else {
        HistoryView { marks: h.redo.last(), undo: h.undo.push(h.marks), redo: h.redo.drop_last() }
    }
}

/// The state after committing `mark`.
pub open spec fn after_commit<T>(h: HistoryView<T>, mark: T) -> HistoryView<T> {
    let s = after_snapshot(h);
    HistoryView { marks: h.marks.push(mark), ..s }
}

/// The state after clearing the canvas: nothing happens on an empty canvas;
/// otherwise a snapshot is taken and the marks are removed.
pub open spec fn after_clear<T>(h: HistoryView<T>) -> HistoryView<T> {
    if h.marks.len() == 0 {
        h
    } else {
        HistoryView { marks: Seq::empty(), ..after_snapshot(h) }
    }
}

/// The state after erasing the marks flagged in `hit`: nothing happens when
/// no mark is hit; otherwise a snapshot is taken and the hit marks are removed.
pub open spec fn after_erase<T>(h: HistoryView<T>, hit: Seq<bool>) -> HistoryView<T> {
    if !any_set(hit) {
        h
    } else {
        HistoryView { marks: kept(h.marks, hit), ..after_snapshot(h) }
    }
}

/// The state after removing the marks flagged in `expired`, with no undo step.
pub open spec fn after_prune<T>(h: HistoryView<T>, expired: Seq<bool>) -> HistoryView<T> {
    HistoryView { marks: kept(h.marks, expired), ..h }
}

/// The marks a sequence of shared marks points to.
pub open spec fn contents<T>(v: Seq<Rc<T>>) -> Seq<T> {
    v.map_values(|r: Rc<T>| *r)
}

/// The view of a stack of snapshots.
pub open spec fn stack_view<T>(s: Seq<Vec<Rc<T>>>) -> Seq<Seq<T>> {
    s.map_values(|v: Vec<Rc<T>>| contents(v@))
}

/// Calls `Rc::clone`, which makes another pointer to the same allocation, so
/// the result holds the same value.
#[verifier::external_body]
fn share<T>(rc: &Rc<T>) -> (res: Rc<T>)
    ensures
        res == *rc,
{
    Rc::clone(rc)
}

/// The marks and the two stacks, without their bound.
struct Stacks<T> {
    marks: Vec<Rc<T>>,
    undo_stack: Vec<Vec<Rc<T>>>,
    redo_stack: Vec<Vec<Rc<T>>>,
}

impl<T> View for Stacks<T> {
    type V = HistoryView<T>;

    closed spec fn view(&self) -> HistoryView<T> {
        HistoryView {
            marks: contents(self.marks@),
            undo: stack_view(self.undo_stack@),
            redo: stack_view(self.redo_stack@),
        }
    }
}

/// The history's bound: undo and redo together hold at most `MAX_UNDO` snapshots.
pub open spec fn bounded<T>(h: HistoryView<T>) -> bool {
    h.undo.len() + h.redo.len() <= MAX_UNDO
}

proof fn lemma_stack_push<T>(s: Seq<Vec<Rc<T>>>, v: Vec<Rc<T>>)
    ensures
        stack_view(s.push(v)) == stack_view(s).push(contents(v@)),
{
    assert(stack_view(s.push(v)) =~= stack_view(s).push(contents(v@)));
}

proof fn lemma_stack_drop_last<T>(s: Seq<Vec<Rc<T>>>)
    requires
        s.len() > 0,
    ensures
        stack_view(s.subrange(0, s.len() - 1)) == stack_view(s).drop_last(),
        stack_view(s).last() == contents(s.last()@),
{
    assert(stack_view(s.subrange(0, s.len() - 1)) =~= stack_view(s).drop_last());
}

proof fn lemma_kept_contents<T>(s: Seq<Rc<T>>, drop: Seq<bool>)
    ensures
        contents(kept(s, drop)) == kept(contents(s), drop),
    decreases s.len(),
{
    if s.len() > 0 {
        lemma_kept_contents(s.drop_last(), drop.take(s.len() - 1));
        assert(contents(s.drop_last()) =~= contents(s).drop_last());
        let rest = kept(s.drop_last(), drop.take(s.len() - 1));
        assert(contents(rest.push(s.last())) =~= contents(rest).push(*s.last()));
    } else {
        assert(contents(kept(s, drop)) =~= kept(contents(s), drop));
    }
}

proof fn lemma_stack_remove_first<T>(s: Seq<Vec<Rc<T>>>)
    requires
        s.len() > 0,
    ensures
        stack_view(s.remove(0)) == stack_view(s).drop_first(),
{
    assert(stack_view(s.remove(0)) =~= stack_view(s).drop_first());
}

proof fn lemma_kept_len<T>(s: Seq<T>, drop: Seq<bool>)
    ensures
        kept(s, drop).len() <= s.len(),
    decreases s.len(),
{
    if s.len() > 0 {
        lemma_kept_len(s.drop_last(), drop.take(s.len() - 1));
    }
}

proof fn lemma_kept_step<T>(s: Seq<T>, drop: Seq<bool>, j: int)
    requires
        0 <= j < s.len(),
        s.len() == drop.len(),
    ensures
        kept(s.take(j + 1), drop.take(j + 1)) == if drop[j] {
            kept(s.take(j), drop.take(j))
        } else {
            kept(s.take(j), drop.take(j)).push(s[j])
        },
{
    let t = s.take(j + 1);
    let d = drop.take(j + 1);
    assert(t.drop_last() =~= s.take(j));
    assert(d.take(j) =~= drop.take(j));
}

/// Removes from `v` the elements whose flag is set, keeping the order of the rest.
fn remove_flagged<T>(v: &mut Vec<T>, flags: &Vec<bool>)
    requires
        flags@.len() == old(v)@.len(),
    ensures
        final(v)@ == kept(old(v)@, flags@),
{
    let ghost s = v@;
    let n = flags.len();
    let mut i: usize = 0;
    let mut j: usize = 0;
    assert(s.take(0) =~= Seq::<T>::empty());
    assert(s.skip(0) =~= s);
    while j < n
        invariant
            n == flags@.len(),
            n == s.len(),
            j <= n,
            i <= j,
            i == kept(s.take(j as int), flags@.take(j as int)).len(),
            v@ == kept(s.take(j as int), flags@.take(j as int)) + s.skip(j as int),
        decreases n - j,
    {
        proof {
            lemma_kept_step(s, flags@, j as int);
            lemma_kept_len(s.take(j + 1), flags@.take(j + 1));
        }
        if flags[j] {
            v.remove(i);
            assert(v@ =~= kept(s.take(j + 1), flags@.take(j + 1)) + s.skip(j + 1));
        } else {
            assert(v@ =~= kept(s.take(j + 1), flags@.take(j + 1)) + s.skip(j + 1));
            i = i + 1;
        }
        j = j + 1;
    }
    assert(s.take(n as int) =~= s);
    assert(flags@.take(n as int) =~= flags@);
    assert(v@ =~= kept(s, flags@));
}

/// Whether some flag is set.
fn any_flag(flags: &Vec<bool>) -> (r: bool)
    ensures
        r == any_set(flags@),
{
    let mut j: usize = 0;
    while j < flags.len()
        invariant
            j <= flags@.len(),
            forall|k: int| 0 <= k < j ==> !flags@[k],
        decreases flags@.len() - j,
    {
        if flags[j] {
            return true;
        }
        j = j + 1;
    }
    false
}

/// A new vector sharing the marks of `v`.
fn share_all<T>(v: &Vec<Rc<T>>) -> (copy: Vec<Rc<T>>)
    ensures
        copy@ == v@,
{
    let mut copy: Vec<Rc<T>> = Vec::new();
    let mut i: usize = 0;
    while i < v.len()
        invariant
            i <= v@.len(),
            copy@ == v@.take(i as int),
        decreases v@.len() - i,
    {
        copy.push(share(&v[i]));
        assert(copy@ =~= v@.take(i + 1));
        i = i + 1;
    }
    assert(v@.take(v@.len() as int) =~= v@);
    copy
}

impl<T> Stacks<T> {
    /// No marks and nothing to undo or redo.
    fn new() -> (h: Self)
        ensures
            h@.marks == Seq::<T>::empty(),
            h@.undo == Seq::<Seq<T>>::empty(),
            h@.redo == Seq::<Seq<T>>::empty(),
            bounded(h@),
    {
        let h = Stacks { marks: Vec::new(), undo_stack: Vec::new(), redo_stack: Vec::new() };
        assert(h@.marks =~= Seq::<T>::empty());
        assert(h@.undo =~= Seq::<Seq<T>>::empty());
        assert(h@.redo =~= Seq::<Seq<T>>::empty());
        h
    }

    /// The committed marks, oldest first.
    fn marks(&self) -> (m: &Vec<Rc<T>>)
        ensures
            contents(m@) == self@.marks,
    {
        &self.marks
    }

    /// Pushes the current marks on the undo stack, dropping the oldest
    /// snapshot past `MAX_UNDO`, and forgets the redo stack.
    fn snapshot(&mut self)
        requires
            bounded(old(self)@),
        ensures
            final(self)@ == after_snapshot(old(self)@),
            bounded(final(self)@),
    {
        let copy = share_all(&self.marks);
        let ghost h = self@;
        let ghost with_copy = stack_view(self.undo_stack@).push(self@.marks);
        proof {
            lemma_stack_push(self.undo_stack@, copy);
        }
        self.undo_stack.push(copy);
        assert(stack_view(self.undo_stack@) == with_copy);
        if self.undo_stack.len() > MAX_UNDO {
            proof {
                lemma_stack_remove_first(self.undo_stack@);
            }
            self.undo_stack.remove(0);
        }
        self.redo_stack.clear();
        assert(stack_view(self.redo_stack@) =~= Seq::<Seq<T>>::empty());
        proof {
            if h.undo.len() >= MAX_UNDO {
                assert(with_copy.drop_first() =~= h.undo.drop_first().push(h.marks));
            }
        }
        assert(self@.undo == pushed(h.undo, h.marks));
    }

    /// Restores the most recent undo snapshot; the current marks go on the
    /// redo stack. Does nothing when there is nothing to undo.
    fn undo(&mut self)
        requires
            bounded(old(self)@),
        ensures
            final(self)@ == after_undo(old(self)@),
            bounded(final(self)@),
    {
        let ghost h = self@;
        if self.undo_stack.len() > 0 {
            proof {
                lemma_stack_drop_last(self.undo_stack@);
            }
            let mut prev = self.undo_stack.pop().unwrap();
            std::mem::swap(&mut self.marks, &mut prev);
            proof {
                lemma_stack_push(self.redo_stack@, prev);
            }
            self.redo_stack.push(prev);
            assert(self@ =~= after_undo(h));
        }
    }

    /// Restores the most recent redo snapshot; the current marks go back on
    /// the undo stack. Does nothing when there is nothing to redo.
    fn redo(&mut self)
        requires
            bounded(old(self)@),
        ensures
            final(self)@ == after_redo(old(self)@),
            bounded(final(self)@),
    {
        let ghost h = self@;
        if self.redo_stack.len() > 0 {
            proof {
                lemma_stack_drop_last(self.redo_stack@);
            }
            let mut next = self.redo_stack.pop().unwrap();
            std::mem::swap(&mut self.marks, &mut next);
            proof {
                lemma_stack_push(self.undo_stack@, next);
            }
            self.undo_stack.push(next);
            assert(self@ =~= after_redo(h));
        }
    }

    /// Takes a snapshot and appends a new mark.
    fn commit(&mut self, mark: T)
        requires
            bounded(old(self)@),
        ensures
            final(self)@ == after_commit(old(self)@, mark),
            bounded(final(self)@),
            final(self)@.marks == old(self)@.marks.push(mark),
            final(self)@.redo.len() == 0,
            old(self)@.undo.len() < MAX_UNDO ==> final(self)@.undo == old(self)@.undo.push(
                old(self)@.marks,
            ),
    {
        let ghost h = self@;
        self.snapshot();
        let ghost before = self.marks@;
        self.marks.push(Rc::new(mark));
        assert(contents(self.marks@) =~= contents(before).push(mark));
        assert(self@ =~= after_commit(h, mark));
    }

    /// Removes every mark, as one undoable step; an empty canvas is left
    /// alone and no undo step is recorded.
    fn clear(&mut self)
        requires
            bounded(old(self)@),
        ensures
            final(self)@ == after_clear(old(self)@),
            bounded(final(self)@),
            final(self)@.marks.len() == 0,
            old(self)@.marks.len() == 0 ==> final(self)@ == old(self)@,
            old(self)@.marks.len() > 0 ==> final(self)@.redo.len() == 0,
            old(self)@.marks.len() > 0 && old(self)@.undo.len() < MAX_UNDO ==> final(self)@.undo
                == old(self)@.undo.push(old(self)@.marks),
    {
        let ghost h = self@;
        if !self.marks.is_empty() {
            self.snapshot();
            self.marks.clear();
            assert(contents(self.marks@) =~= Seq::<T>::empty());
            assert(self@ =~= after_clear(h));
        }
    }

    /// The eraser: removes the marks flagged in `hit` as one undoable step.
    /// When no mark is hit nothing changes and no undo step is recorded.
    fn erase(&mut self, hit: &Vec<bool>)
        requires
            bounded(old(self)@),
            hit@.len() == old(self)@.marks.len(),
        ensures
            final(self)@ == after_erase(old(self)@, hit@),
            bounded(final(self)@),
            !any_set(hit@) ==> final(self)@ == old(self)@,
            any_set(hit@) ==> final(self)@.marks == kept(old(self)@.marks, hit@),
            any_set(hit@) ==> final(self)@.redo.len() == 0,
            any_set(hit@) && old(self)@.undo.len() < MAX_UNDO ==> final(self)@.undo
                == old(self)@.undo.push(old(self)@.marks),
    {
        let ghost h = self@;
        if any_flag(hit) {
            self.snapshot();
            let ghost before = self.marks@;
            remove_flagged(&mut self.marks, hit);
            proof {
                lemma_kept_contents(before, hit@);
            }
            assert(self@ =~= after_erase(h, hit@));
        }
    }

    /// Drops the marks flagged in `expired` (faded out) without recording an
    /// undo step; the undo and redo stacks are left as they are.
    fn prune(&mut self, expired: &Vec<bool>)
        requires
            bounded(old(self)@),
            expired@.len() == old(self)@.marks.len(),
        ensures
            final(self)@ == after_prune(old(self)@, expired@),
            bounded(final(self)@),
            final(self)@.marks == kept(old(self)@.marks, expired@),
            final(self)@.undo == old(self)@.undo,
            final(self)@.redo == old(self)@.redo,
    {
        let ghost h = self@;
        let ghost before = self.marks@;
        remove_flagged(&mut self.marks, expired);
        proof {
            lemma_kept_contents(before, expired@);
        }
        assert(self@ =~= after_prune(h, expired@));
    }
}

/// Committed marks with whole-canvas undo and redo snapshots; undo and redo
/// together hold at most `MAX_UNDO` snapshots.
pub struct History<T> {
    stacks: Stacks<T>,
}

impl<T> View for History<T> {
    type V = HistoryView<T>;

    closed spec fn view(&self) -> HistoryView<T> {
        self.stacks@
    }
}

impl<T> History<T> {
    #[verifier::type_invariant]
    spec fn within_bound(self) -> bool {
        bounded(self.stacks@)
    }

    /// Takes the stacks out, leaving empty ones behind.
    fn take_stacks(&mut self) -> (s: Stacks<T>)
        ensures
            s@ == old(self)@,
            bounded(s@),
    {
        proof {
            use_type_invariant(&*self);
        }
        let mut s = Stacks::new();
        std::mem::swap(&mut self.stacks, &mut s);
        s
    }

    /// An empty canvas with nothing to undo or redo.
    pub fn new() -> (h: Self)
        ensures
            h@.marks == Seq::<T>::empty(),
            h@.undo == Seq::<Seq<T>>::empty(),
            h@.redo == Seq::<Seq<T>>::empty(),
            bounded(h@),
    {
        History { stacks: Stacks::new() }
    }

    /// The committed marks, oldest first.
    pub fn marks(&self) -> (m: &Vec<Rc<T>>)
        ensures
            contents(m@) == self@.marks,
    {
        self.stacks.marks()
    }

    /// Restores the most recent undo snapshot; the current marks go on the
    /// redo stack. Does nothing when there is nothing to undo.
    pub fn undo(&mut self)
        ensures
            final(self)@ == after_undo(old(self)@),
            bounded(final(self)@),
    {
        let mut s = self.take_stacks();
        s.undo();
        self.stacks = s;
    }

    /// Restores the most recent redo snapshot; the current marks go back on
    /// the undo stack. Does nothing when there is nothing to redo.
    pub fn redo(&mut self)
        ensures
            final(self)@ == after_redo(old(self)@),
            bounded(final(self)@),
    {
        let mut s = self.take_stacks();
        s.redo();
        self.stacks = s;
    }

    /// Takes a snapshot and appends a new mark: the undo stack gains the
    /// marks before the commit (dropping its oldest snapshot when it already
    /// held `MAX_UNDO`) and the redo stack is emptied.
    pub fn commit(&mut self, mark: T)
        ensures
            final(self)@ == after_commit(old(self)@, mark),
            bounded(final(self)@),
            final(self)@.marks == old(self)@.marks.push(mark),
            final(self)@.redo.len() == 0,
            old(self)@.undo.len() < MAX_UNDO ==> final(self)@.undo == old(self)@.undo.push(
                old(self)@.marks,
            ),
    {
        let mut s = self.take_stacks();
        s.commit(mark);
        self.stacks = s;
    }

    /// Removes every mark, as one undoable step; an empty canvas is left
    /// alone and no undo step is recorded.
    pub fn clear(&mut self)
        ensures
            final(self)@ == after_clear(old(self)@),
            bounded(final(self)@),
            final(self)@.marks.len() == 0,
            old(self)@.marks.len() == 0 ==> final(self)@ == old(self)@,
            old(self)@.marks.len() > 0 ==> final(self)@.redo.len() == 0,
            old(self)@.marks.len() > 0 && old(self)@.undo.len() < MAX_UNDO ==> final(self)@.undo
                == old(self)@.undo.push(old(self)@.marks),
    {
        let mut s = self.take_stacks();
        s.clear();
        self.stacks = s;
    }

    /// The eraser: removes the marks flagged in `hit` as one undoable step.
    /// When no mark is hit nothing changes and no undo step is recorded.
    pub fn erase(&mut self, hit: &Vec<bool>)
        requires
            hit@.len() == old(self)@.marks.len(),
        ensures
            final(self)@ == after_erase(old(self)@, hit@),
            bounded(final(self)@),
            !any_set(hit@) ==> final(self)@ == old(self)@,
            any_set(hit@) ==> final(self)@.marks == kept(old(self)@.marks, hit@),
            any_set(hit@) ==> final(self)@.redo.len() == 0,
            any_set(hit@) && old(self)@.undo.len() < MAX_UNDO ==> final(self)@.undo
                == old(self)@.undo.push(old(self)@.marks),
    {
        let mut s = self.take_stacks();
        s.erase(hit);
        self.stacks = s;
    }

    /// Drops the marks flagged in `expired` (faded out) without recording an
    /// undo step; the undo and redo stacks are left as they are.
    pub fn prune(&mut self, expired: &Vec<bool>)
        requires
            expired@.len() == old(self)@.marks.len(),
        ensures
            final(self)@ == after_prune(old(self)@, expired@),
            bounded(final(self)@),
            final(self)@.marks == kept(old(self)@.marks, expired@),
            final(self)@.undo == old(self)@.undo,
            final(self)@.redo == old(self)@.redo,
    {
        let mut s = self.take_stacks();
        s.prune(expired);
        self.stacks = s;
    }
}

/// Redo takes back an undo: undoing and then redoing returns to the same state.
pub proof fn law_redo_after_undo<T>(h: HistoryView<T>)
    requires
        h.undo.len() > 0,
    ensures
        after_redo(after_undo(h)) == h,
{
    assert(after_redo(after_undo(h)).undo =~= h.undo);
    assert(after_redo(after_undo(h)).redo =~= h.redo);
}

/// Undo takes back a redo: redoing and then undoing returns to the same state.
pub proof fn law_undo_after_redo<T>(h: HistoryView<T>)
    requires
        h.redo.len() > 0,
    ensures
        after_undo(after_redo(h)) == h,
{
    assert(after_undo(after_redo(h)).undo =~= h.undo);
    assert(after_undo(after_redo(h)).redo =~= h.redo);
}

/// A snapshot keeps the newest `MAX_UNDO` steps: the current marks go on top
/// of the undo stack, and when it already held `MAX_UNDO` snapshots the
/// oldest is dropped; redo is forgotten and the marks stay.
pub proof fn law_snapshot<T>(h: HistoryView<T>)
    requires
        h.undo.len() <= MAX_UNDO,
    ensures
        after_snapshot(h).undo == if h.undo.len() == MAX_UNDO {
            h.undo.drop_first().push(h.marks)
        } else {
            h.undo.push(h.marks)
        },
        after_snapshot(h).undo.len() <= MAX_UNDO,
        after_snapshot(h).undo.last() == h.marks,
        after_snapshot(h).redo.len() == 0,
        after_snapshot(h).marks == h.marks,
{
    if h.undo.len() == MAX_UNDO {
        assert(h.undo.push(h.marks).drop_first() =~= h.undo.drop_first().push(h.marks));
    }
}

/// Undo takes back a commit: the marks before the commit come back, the
/// committed state waits on the redo stack, and unless the oldest snapshot
/// was dropped for the bound, the undo stack is as before.
pub proof fn law_undo_after_commit<T>(h: HistoryView<T>, mark: T)
    requires
        bounded(h),
    ensures
        after_undo(after_commit(h, mark)).marks == h.marks,
        after_undo(after_commit(h, mark)).redo == seq![h.marks.push(mark)],
        h.undo.len() < MAX_UNDO ==> after_undo(after_commit(h, mark)).undo == h.undo,
{
    let c = after_commit(h, mark);
    assert(c.undo.len() > 0);
    assert(c.redo.push(c.marks) =~= seq![h.marks.push(mark)]);
    if h.undo.len() < MAX_UNDO {
        assert(c.undo.drop_last() =~= h.undo);
    }
}

/// Clearing takes one undo step: a non-empty canvas is emptied with its
/// marks on top of the undo stack and nothing to redo, and undo brings them
/// back; an empty canvas is left exactly as it is.
pub proof fn law_clear<T>(h: HistoryView<T>)
    requires
        bounded(h),
    ensures
        after_clear(h).marks.len() == 0,
        h.marks.len() > 0 ==> after_clear(h).undo.last() == h.marks,
        h.marks.len() > 0 ==> after_clear(h).redo.len() == 0,
        h.marks.len() > 0 ==> after_undo(after_clear(h)).marks == h.marks,
        h.marks.len() == 0 ==> after_clear(h) == h,
{
}

/// Every change to the marks forgets what could be redone, so redo after a
/// commit, a clear of a non-empty canvas or an erase that hits does nothing.
pub proof fn law_change_forgets_redo<T>(h: HistoryView<T>, mark: T, hit: Seq<bool>)
    ensures
        after_commit(h, mark).redo.len() == 0,
        after_redo(after_commit(h, mark)) == after_commit(h, mark),
        h.marks.len() > 0 ==> after_clear(h).redo.len() == 0,
        any_set(hit) ==> after_erase(h, hit).redo.len() == 0,
{
}

/// At most `MAX_UNDO` steps can be taken back: the bound holds for the
/// empty history and is kept by every operation.
pub proof fn law_history_bounded<T>(h: HistoryView<T>, mark: T, hit: Seq<bool>)
    requires
        bounded(h),
    ensures
        bounded(after_undo(h)),
        bounded(after_redo(h)),
        bounded(after_commit(h, mark)),
        bounded(after_clear(h)),
        bounded(after_erase(h, hit)),
        bounded(after_prune(h, hit)),
{
}

/// Erasing removes exactly the marks hit and keeps the others in order, and
/// undo brings the erased marks back.
pub proof fn law_undo_after_erase<T>(h: HistoryView<T>, hit: Seq<bool>)
    requires
        bounded(h),
        any_set(hit),
    ensures
        after_erase(h, hit).marks == kept(h.marks, hit),
        after_undo(after_erase(h, hit)).marks == h.marks,
        after_undo(after_erase(h, hit)).redo == seq![kept(h.marks, hit)],
{
    let e = after_erase(h, hit);
    assert(e.redo.push(e.marks) =~= seq![kept(h.marks, hit)]);
}

/// The number of set flags.
pub open spec fn count_set(d: Seq<bool>) -> nat
    decreases d.len(),
{
    if d.len() == 0 {
        0
    } else {
        count_set(d.drop_last()) + if d.last() {
            1nat
        } else {
            0nat
        }
    }
}

/// Filtering by flags keeps exactly the unflagged elements: as many as there
/// are unset flags, all of them when no flag is set, none when every flag is
/// set, and the kept elements are elements of `s`.
pub proof fn law_kept_filters<T>(s: Seq<T>, d: Seq<bool>)
    requires
        s.len() == d.len(),
    ensures
        kept(s, d).len() + count_set(d) == s.len(),
        (forall|i: int| 0 <= i < d.len() ==> !d[i]) ==> kept(s, d) == s,
        (forall|i: int| 0 <= i < d.len() ==> d[i]) ==> kept(s, d).len() == 0,
        forall|j: int| 0 <= j < kept(s, d).len() ==> s.contains(#[trigger] kept(s, d)[j]),
    decreases s.len(),
{
    if s.len() > 0 {
        let s1 = s.drop_last();
        let d1 = d.take(s.len() - 1);
        assert(d1 =~= d.drop_last());
        law_kept_filters(s1, d1);
        assert forall|j: int| 0 <= j < kept(s, d).len() implies s.contains(
            #[trigger] kept(s, d)[j],
        ) by {
            if j < kept(s1, d1).len() {
                let x = kept(s1, d1)[j];
                assert(s1.contains(x));
                let k = choose|k: int| 0 <= k < s1.len() && s1[k] == x;
                assert(s[k] == x);
            } else {
                assert(kept(s, d)[j] == s[s.len() - 1]);
            }
        }
        if forall|i: int| 0 <= i < d.len() ==> !d[i] {
            assert forall|i: int| 0 <= i < d1.len() implies !d1[i] by {
                assert(d1[i] == d[i]);
            }
            assert(!d[s.len() - 1]);
            assert(kept(s, d) =~= s);
        }
        if forall|i: int| 0 <= i < d.len() ==> d[i] {
            assert forall|i: int| 0 <= i < d1.len() implies d1[i] by {
                assert(d1[i] == d[i]);
            }
            assert(d[s.len() - 1]);
        }
    } else {
        assert(kept(s, d) =~= s);
    }
}

/// Clearing a non-empty canvas takes exactly one undo step: the marks go on
/// top of the old undo stack (whose oldest snapshot is dropped only at
/// `MAX_UNDO`), the canvas is empty, redo is forgotten, and undo returns both
/// the marks and the undo stack as they were.
pub proof fn law_clear_one_step<T>(h: HistoryView<T>)
    requires
        h.marks.len() > 0,
    ensures
        after_clear(h).marks.len() == 0,
        after_clear(h).redo.len() == 0,
        h.undo.len() < MAX_UNDO ==> after_clear(h).undo == h.undo.push(h.marks),
        h.undo.len() == MAX_UNDO ==> after_clear(h).undo == h.undo.drop_first().push(h.marks),
        after_undo(after_clear(h)).marks == h.marks,
        h.undo.len() < MAX_UNDO ==> after_undo(after_clear(h)).undo == h.undo,
{
    assert(after_clear(h).undo.len() > 0);
    if h.undo.len() < MAX_UNDO {
        assert(after_clear(h).undo.drop_last() =~= h.undo);
    }
}

/// An erase that hits takes exactly one undo step: the hit marks are gone and
/// the rest kept in order, the marks before go on top of the old undo stack,
/// redo is forgotten, and undo returns both the marks and the undo stack as
/// they were. An erase that hits nothing changes nothing.
pub proof fn law_erase_one_step<T>(h: HistoryView<T>, hit: Seq<bool>)
    requires
        hit.len() == h.marks.len(),
    ensures
        !any_set(hit) ==> after_erase(h, hit) == h,
        any_set(hit) ==> after_erase(h, hit).marks == kept(h.marks, hit),
        any_set(hit) ==> after_erase(h, hit).marks.len() < h.marks.len(),
        any_set(hit) ==> after_erase(h, hit).redo.len() == 0,
        any_set(hit) && h.undo.len() < MAX_UNDO ==> after_erase(h, hit).undo == h.undo.push(
            h.marks,
        ),
        any_set(hit) ==> after_undo(after_erase(h, hit)).marks == h.marks,
        any_set(hit) && h.undo.len() < MAX_UNDO ==> after_undo(after_erase(h, hit)).undo
            == h.undo,
{
    law_kept_filters(h.marks, hit);
    if any_set(hit) {
        let i = choose|i: int| 0 <= i < hit.len() && hit[i];
        lemma_count_set_positive(hit, i);
        assert(after_erase(h, hit).undo.len() > 0);
        if h.undo.len() < MAX_UNDO {
            assert(after_erase(h, hit).undo.drop_last() =~= h.undo);
        }
    }
}

proof fn lemma_count_set_positive(d: Seq<bool>, i: int)
    requires
        0 <= i < d.len(),
        d[i],
    ensures
        count_set(d) > 0,
    decreases d.len(),
{
    if i < d.len() - 1 {
        let d1 = d.drop_last();
        assert(d1[i] == d[i]);
        lemma_count_set_positive(d1, i);
    }
}

/// Pruning removes exactly the expired marks, keeping the rest in order:
/// when every mark has expired the canvas is empty, when none has it is
/// unchanged; undo and redo are left alone.
pub proof fn law_prune_removes_expired<T>(h: HistoryView<T>, expired: Seq<bool>)
    requires
        expired.len() == h.marks.len(),
    ensures
        after_prune(h, expired).marks == kept(h.marks, expired),
        after_prune(h, expired).marks.len() + count_set(expired) == h.marks.len(),
        (forall|i: int| 0 <= i < expired.len() ==> expired[i]) ==> after_prune(h, expired).marks.len()
            == 0,
        (forall|i: int| 0 <= i < expired.len() ==> !expired[i]) ==> after_prune(h, expired) == h,
        after_prune(h, expired).undo == h.undo,
        after_prune(h, expired).redo == h.redo,
{
    law_kept_filters(h.marks, expired);
    if forall|i: int| 0 <= i < expired.len() ==> !expired[i] {
        assert(after_prune(h, expired) =~= h);
    }
}

} // verus!
