//! Cursor-style iteration wrappers that mutate the plural they walk: an
//! [`Adder`] that can append a value at the end of each step, and a
//! [`Remover`] that can delete the element a step just produced.
//!
//! Each cursor owns its plural for its whole lifetime, so nothing else can
//! observe or mutate the value while the cursor is alive; `into_inner` gives
//! the plural back. The visitor signals its intent for a step through a small
//! controller value, and the cursor applies the signalled effect at the
//! boundary between steps.

use vstd::prelude::*;

use crate::Pluralize;

verus! {

/// The handle through which a visitor schedules an addition for the step
/// boundary an [`Adder`] is about to cross.
pub struct AddController<T> {
    /// The pending directive: `Some(v)` schedules `v` to be appended; `None`
    /// ends iteration at the next step.
    pub cell: Option<T>,
}

impl<T> AddController<T> {
    /// Signal that the [`Adder`] should append the given value to the
    /// underlying sequence at the end of the current step.
    pub fn add(&mut self, d: T)
        ensures
            final(self).cell == Some(d),
    {
        self.cell = Some(d);
    }

    /// Return the controller to its default value. A controller at its
    /// default value at the end of a step ends the iteration.
    ///
    /// Calling this without first calling `add` is superfluous.
    pub fn clear(&mut self)
        ensures
            final(self).cell is None,
    {
        self.cell = None;
    }

    fn _replace(&mut self, d: Option<T>) -> (r: Option<T>)
        ensures
            final(self).cell == d,
            r == old(self).cell,
    {
        let mut taken = d;
        core::mem::swap(&mut self.cell, &mut taken);
        taken
    }

    fn new() -> (c: Self)
        ensures
            c.cell is None,
    {
        AddController { cell: None }
    }
}

/// The observable state of an [`Adder`]: the plural's logical elements,
/// whether it can grow, the pending directive, and where the cursor stands in
/// its start-running-done lifecycle.
#[verifier::ext_equal]
pub struct AdderState<T> {
    /// The logical elements of the plural being iterated.
    pub view: Seq<T>,
    /// Whether the plural can grow.
    pub growable: bool,
    /// The controller's pending directive.
    pub pending: Option<T>,
    /// Whether the next step is the first.
    pub first: bool,
    /// Whether iteration has permanently ended.
    pub done: bool,
}

/// The state an [`AdderState`] reaches when the visitor writes `pending` into
/// the controller: `add` writes `Some(v)`, `clear` writes `None`.
pub open spec fn adder_with_pending<T>(s: AdderState<T>, pending: Option<T>) -> AdderState<T> {
    AdderState { view: s.view, growable: s.growable, pending, first: s.first, done: s.done }
}

/// One step of the appender protocol: the very first step only exposes the
/// controller; every later step consumes the directive, appending the pending
/// value when the plural can grow and ending the iteration otherwise.
pub open spec fn adder_step_state<T>(s: AdderState<T>) -> AdderState<T> {
    if s.done {
        s
    } else if s.first {
        AdderState { view: s.view, growable: s.growable, pending: s.pending, first: false, done: false }
    } else {
        match s.pending {
            None => AdderState { view: s.view, growable: s.growable, pending: None, first: false, done: true },
            Some(v) => if s.growable {
                AdderState {
                    view: s.view.push(v),
                    growable: s.growable,
                    pending: None,
                    first: false,
                    done: false,
                }
            } else {
                AdderState { view: s.view, growable: s.growable, pending: None, first: false, done: true }
            },
        }
    }
}

/// Whether one step of the appender protocol yields a fresh controller
/// exposure to the visitor.
pub open spec fn adder_step_yields<T>(s: AdderState<T>) -> bool {
    !s.done && (s.first || (s.pending is Some && s.growable))
}

/// A cursor which progressively appends to a plural. Sequences are appended
/// to in stack order; a bare element never accepts additions.
///
/// To append, call `add` on the controller during a step: the supplied value
/// is pushed at the end of the step. To end iteration, take no action (or
/// `clear` the controller if a value was supplied within the current step):
/// a step that consumes no directive stops the iteration permanently.
pub struct Adder<T, P: Pluralize<T>> {
    /// The plural being iterated; owned by the cursor until `into_inner`.
    pub collection: P,
    /// The decision cell the visitor writes between steps.
    pub controller: AddController<T>,
    /// Whether the next step is the first.
    pub first_run: bool,
    /// Whether iteration has permanently ended.
    pub done: bool,
}

impl<T, P: Pluralize<T>> Adder<T, P> {
    /// The cursor's observable state.
    pub open spec fn abs(&self) -> AdderState<T> {
        AdderState {
            view: self.collection.pview(),
            growable: self.collection.growable(),
            pending: self.controller.cell,
            first: self.first_run,
            done: self.done,
        }
    }

    /// Prefer the `adder` method provided by the
    /// [`crate::PluralizeControlIter`] trait.
    pub fn new(collection: P) -> (a: Self)
        ensures
            a.collection == collection,
            a.controller.cell is None,
            a.first_run,
            !a.done,
    {
        Adder { collection, controller: AddController::new(), first_run: true, done: false }
    }

    /// One step of the appender protocol; reports whether the step yields a
    /// fresh controller exposure. Once a step reports `false`, every later
    /// step does too.
    pub fn next(&mut self) -> (stepped: bool)
        ensures
            final(self).abs() == adder_step_state(old(self).abs()),
            stepped == adder_step_yields(old(self).abs()),
            (old(self).done || old(self).first_run || old(self).controller.cell is None
                || !old(self).collection.growable())
                ==> final(self).collection == old(self).collection,
    {
        if self.done {
            return false;
        }
        if self.first_run {
            self.first_run = false;
            return true;
        }
        let directive = self.controller._replace(None);
        match directive {
            None => {
                self.done = true;
                false
            }
            Some(v) => {
                let grew = self.collection.grow(v);
                if !grew {
                    self.done = true;
                }
                grew
            }
        }
    }

    /// Give the underlying plural back, ending the iteration.
    pub fn into_inner(self) -> (p: P)
        ensures
            p == self.collection,
    {
        self.collection
    }
}

/// The directive a visitor leaves for the [`Remover`] about the element a
/// step just produced.
#[derive(Clone, Copy, PartialEq, Eq, Structural, Debug)]
pub enum RemoveCmd {
    /// Delete the element the cursor produced last, before the next one.
    Remove,
    /// Keep the element; the default.
    Pass,
}

/// Why a removal request failed: a bare element cannot be removed, since a
/// single slot has no representable "empty" state.
#[derive(Clone, Copy, PartialEq, Eq, Structural, Debug)]
pub enum RemoveError {
    /// A removal was flagged while the cursor walks a bare element.
    BareRemoval,
}

/// The handle through which a visitor flags the element a step just produced
/// for removal at the step boundary a [`Remover`] is about to cross.
pub struct RemoveController {
    /// The pending directive; reset to `Pass` once a step consumes it.
    pub cell: RemoveCmd,
}

impl RemoveController {
    /// Flag the element returned with this controller for removal. Removals
    /// occur at the end of the current step, before the next element is
    /// produced.
    pub fn remove(&mut self)
        ensures
            final(self).cell is Remove,
    {
        self.cell = RemoveCmd::Remove;
    }

    /// Clear the removal flag for the element returned with this controller.
    /// This is the controller's initial value; if no element was flagged for
    /// removal this call is superfluous.
    pub fn pass(&mut self)
        ensures
            final(self).cell is Pass,
    {
        self.cell = RemoveCmd::Pass;
    }

    fn _replace(&mut self, cmd: RemoveCmd) -> (r: RemoveCmd)
        ensures
            final(self).cell == cmd,
            r == old(self).cell,
    {
        let mut taken = cmd;
        core::mem::swap(&mut self.cell, &mut taken);
        taken
    }

    fn new() -> (c: Self)
        ensures
            c.cell is Pass,
    {
        RemoveController { cell: RemoveCmd::Pass }
    }
}

/// The observable state of a [`Remover`]: the plural's logical elements,
/// whether it can shrink, the cursor position, and the pending directive.
/// The cursor position is the index of the next element to produce; the
/// pending directive refers to the element at the position just before it.
#[verifier::ext_equal]
pub struct RemoverState<T> {
    /// The logical elements of the plural being iterated.
    pub view: Seq<T>,
    /// Whether the plural can shrink.
    pub growable: bool,
    /// The index of the next element to produce.
    pub pos: int,
    /// The controller's pending directive.
    pub cmd: RemoveCmd,
}

impl<T> RemoverState<T> {
    /// The cursor position never drifts outside the plural's current bounds.
    pub open spec fn wf(&self) -> bool {
        0 <= self.pos <= self.view.len()
    }
}

/// Whether one step of the remover protocol fails: a removal is pending but
/// the plural is a bare element, which cannot lose its sole slot.
pub open spec fn remover_step_err<T>(s: RemoverState<T>) -> bool {
    s.cmd is Remove && !s.growable
}

/// One step of the remover protocol: a pending removal deletes the element
/// just produced (the one before the cursor) and re-numbers the elements
/// after it, so the cursor does not advance past the position it freed; then
/// the next element, if any, is produced and the cursor advances by one.
///
/// A step whose removal fails ([`remover_step_err`]) only resets the
/// directive: the plural is never corrupted.
pub open spec fn remover_step_state<T>(s: RemoverState<T>) -> RemoverState<T> {
    if s.cmd is Remove {
        if s.growable {
            let view = s.view.remove(s.pos - 1);
            let pos = s.pos - 1;
            if pos < view.len() {
                RemoverState { view, growable: s.growable, pos: pos + 1, cmd: RemoveCmd::Pass }
            } else {
                RemoverState { view, growable: s.growable, pos, cmd: RemoveCmd::Pass }
            }
        } else {
            RemoverState { view: s.view, growable: s.growable, pos: s.pos, cmd: RemoveCmd::Pass }
        }
    } else {
        if s.pos < s.view.len() {
            RemoverState { view: s.view, growable: s.growable, pos: s.pos + 1, cmd: RemoveCmd::Pass }
        } else {
            s
        }
    }
}

/// The index one step of the remover protocol produces, if any: after a
/// removal, the re-numbered position the deleted element held; otherwise the
/// cursor position itself. `None` once the cursor reaches the end, and on a
/// failing step.
pub open spec fn remover_step_yield<T>(s: RemoverState<T>) -> Option<int> {
    if remover_step_err(s) {
        None
    } else if s.cmd is Remove {
        if s.pos - 1 < s.view.len() - 1 {
            Some(s.pos - 1)
        } else {
            None
        }
    } else {
        if s.pos < s.view.len() {
            Some(s.pos)
        } else {
            None
        }
    }
}

/// Whether an executable yield agrees with the index [`remover_step_yield`]
/// calls for.
pub open spec fn remover_yield_matches(y: Option<usize>, z: Option<int>) -> bool {
    match y {
        Some(i) => z == Some(i as int),
        None => z is None,
    }
}

/// A cursor over a plural which can modify the elements it produces and
/// remove them from an underlying sequence.
///
/// Each step produces the index of the current element; `get` reads it and
/// `set` rewrites it. Flagging `remove` on the controller deletes the element
/// the last step produced, before the next one is produced: the element that
/// followed it is re-numbered into the freed position and visited next, not
/// skipped. Flagging a removal over a bare element fails fatally with
/// [`RemoveError::BareRemoval`]: a single slot cannot become empty.
pub struct Remover<T, P: Pluralize<T>> {
    /// The plural being iterated; owned by the cursor until `into_inner`.
    pub collection: P,
    /// The index of the next element to produce.
    pub pos: usize,
    /// One past the last index; always the plural's current element count.
    pub end: usize,
    /// The decision cell the visitor writes between steps.
    pub controller: RemoveController,
    /// Marks the cursor with the element type its plural holds.
    pub elem: core::marker::PhantomData<T>,
}

impl<T, P: Pluralize<T>> Remover<T, P> {
    /// The cursor's observable state.
    pub open spec fn abs(&self) -> RemoverState<T> {
        RemoverState {
            view: self.collection.pview(),
            growable: self.collection.growable(),
            pos: self.pos as int,
            cmd: self.controller.cell,
        }
    }

    /// The bookkeeping the cursor maintains: `end` tracks the plural's
    /// current element count and the position stays within `[0, end]`.
    pub open spec fn wf(&self) -> bool {
        self.end == self.collection.pview().len() && self.pos <= self.end
    }

    /// Prefer the `remover` method provided by the
    /// [`crate::PluralizeControlIter`] trait.
    pub fn new(collection: P) -> (r: Self)
        ensures
            r.collection == collection,
            r.pos == 0,
            r.controller.cell is Pass,
            r.wf(),
    {
        let end = collection.plen();
        Remover {
            collection,
            pos: 0,
            end,
            controller: RemoveController::new(),
            elem: core::marker::PhantomData,
        }
    }

    /// One step of the remover protocol: apply the pending directive, then
    /// produce the index of the next element, `Ok(None)` once the walk is
    /// done, or `Err` for a removal flagged over a bare element.
    ///
    /// A pending removal refers to the most recently produced element, so one
    /// must have been produced.
    pub fn next(&mut self) -> (r: Result<Option<usize>, RemoveError>)
        requires
            old(self).wf(),
            old(self).controller.cell is Remove ==> 0 < old(self).pos,
        ensures
            final(self).wf(),
            final(self).abs() == remover_step_state(old(self).abs()),
            (r is Err) == remover_step_err(old(self).abs()),
            r matches Err(e) ==> e == RemoveError::BareRemoval,
            r matches Ok(y) ==> remover_yield_matches(y, remover_step_yield(old(self).abs())),
            (old(self).controller.cell is Pass || !old(self).collection.growable())
                ==> final(self).collection == old(self).collection,
    {
        let directive = self.controller._replace(RemoveCmd::Pass);
        match directive {
            RemoveCmd::Remove => {
                if !self.collection.is_growable() {
                    return Err(RemoveError::BareRemoval);
                }
                let freed = self.pos - 1;
                self.collection.shrink(freed);
                self.pos = freed;
                self.end = self.end - 1;
            }
            RemoveCmd::Pass => {}
        }
        if self.pos == self.end {
            Ok(None)
        } else {
            let idx = self.pos;
            self.pos = self.pos + 1;
            Ok(Some(idx))
        }
    }

    /// Read the element at index `i` of the plural being iterated.
    pub fn get(&self, i: usize) -> (r: &T)
        requires
            i < self.abs().view.len(),
        ensures
            *r == self.abs().view[i as int],
    {
        self.collection.pget(i)
    }

    /// Replace the element at index `i` of the plural being iterated: the
    /// mutable access a step grants to the element it produced.
    pub fn set(&mut self, i: usize, v: T)
        requires
            old(self).wf(),
            i < old(self).abs().view.len(),
        ensures
            final(self).wf(),
            final(self).abs().view == old(self).abs().view.update(i as int, v),
            final(self).abs().growable == old(self).abs().growable,
            final(self).pos == old(self).pos,
            final(self).end == old(self).end,
            final(self).controller == old(self).controller,
    {
        self.collection.pset(i, v);
    }

    /// Give the underlying plural back, ending the iteration.
    pub fn into_inner(self) -> (p: P)
        ensures
            p == self.collection,
    {
        self.collection
    }
}

/// Law: an appender over an empty sequence, told to add `v1` during its first
/// exposure and `v2` during the second, then cleared, ends with exactly
/// `[v1, v2]`, appended in that order.
pub proof fn lemma_appender_appends_in_order<T>(v1: T, v2: T)
    ensures
        ({
            let s0 = AdderState::<T> {
                view: Seq::empty(),
                growable: true,
                pending: None,
                first: true,
                done: false,
            };
            let s1 = adder_step_state(s0);
            let s2 = adder_step_state(adder_with_pending(s1, Some(v1)));
            let s3 = adder_step_state(adder_with_pending(s2, Some(v2)));
            let s4 = adder_step_state(adder_with_pending(s3, None));
            &&& adder_step_yields(s0)
            &&& adder_step_yields(adder_with_pending(s1, Some(v1)))
            &&& adder_step_yields(adder_with_pending(s2, Some(v2)))
            &&& !adder_step_yields(adder_with_pending(s3, None))
            &&& s4.view =~= seq![v1, v2]
            &&& s4.done
        }),
{
    assert(Seq::<T>::empty().push(v1).push(v2) =~= seq![v1, v2]);
}

/// Law: an appender stepped without a pending addition stops permanently and
/// leaves the sequence unchanged.
pub proof fn lemma_appender_stops_without_add<T>(s: AdderState<T>)
    requires
        !s.first,
        s.pending is None,
    ensures
        adder_step_state(s).view == s.view,
        adder_step_state(s).done,
        !adder_step_yields(s),
        forall|later: AdderState<T>| later.done ==> #[trigger] adder_step_state(later) == later
            && !adder_step_yields(later),
{
}

/// Law: an appender over a bare element never changes the view, yields at
/// most its very first exposure, and is done by the step after it.
pub proof fn lemma_bare_appender_inert<T>(s: AdderState<T>)
    requires
        !s.growable,
    ensures
        adder_step_state(s).view == s.view,
        adder_step_yields(s) ==> s.first && !s.done,
        !s.done ==> !adder_step_state(s).first,
        !s.first && !s.done ==> adder_step_state(s).done,
{
}

/// Law: a remover step that applies a removal deletes exactly the most
/// recently produced element; the element that followed it is re-numbered
/// into the freed position and is the next one produced — not skipped, not
/// duplicated — and the walk ends if nothing followed.
pub proof fn lemma_remover_removal_shifts<T>(s: RemoverState<T>)
    requires
        s.wf(),
        s.cmd is Remove,
        s.growable,
        0 < s.pos,
    ensures
        !remover_step_err(s),
        remover_step_state(s).view == s.view.remove(s.pos - 1),
        remover_step_state(s).view.len() == s.view.len() - 1,
        remover_step_state(s).wf(),
        s.pos < s.view.len() ==> remover_step_yield(s) == Some(s.pos - 1)
            && remover_step_state(s).view[s.pos - 1] == s.view[s.pos]
            && remover_step_state(s).pos == s.pos,
        s.pos == s.view.len() ==> remover_step_yield(s) is None
            && remover_step_state(s).pos == s.pos - 1,
{
    s.view.remove_ensures(s.pos - 1);
}

/// Law: a remover step with no removal flagged leaves the sequence unchanged
/// and produces each position exactly once, in order, until the end.
pub proof fn lemma_remover_pass_preserves<T>(s: RemoverState<T>)
    requires
        s.wf(),
        s.cmd is Pass,
    ensures
        !remover_step_err(s),
        remover_step_state(s).view == s.view,
        remover_step_state(s).wf(),
        s.pos < s.view.len() ==> remover_step_yield(s) == Some(s.pos)
            && remover_step_state(s).pos == s.pos + 1,
        s.pos == s.view.len() ==> remover_step_yield(s) is None
            && remover_step_state(s).pos == s.pos,
{
}

/// Law: a removal flagged over a bare element fails and corrupts nothing:
/// the step only resets the directive, and the element stays in place.
pub proof fn lemma_bare_removal_fails<T>(s: RemoverState<T>)
    requires
        s.cmd is Remove,
        !s.growable,
    ensures
        remover_step_err(s),
        remover_step_yield(s) is None,
        remover_step_state(s).view == s.view,
        remover_step_state(s).pos == s.pos,
        remover_step_state(s).cmd is Pass,
{
}

/// Law: clearing a controller that holds no pending addition changes nothing,
/// and a redundant clear leaves an appender's state as it was.
pub proof fn lemma_clear_idempotent<T>(c: AddController<T>, s: AdderState<T>)
    requires
        c.cell is None,
        s.pending is None,
    ensures
        (AddController::<T> { cell: None }) == c,
        adder_with_pending(s, None) =~= s,
{
}

/// Law: resetting a controller that holds no removal flag changes nothing.
pub proof fn lemma_pass_idempotent(c: RemoveController)
    requires
        c.cell is Pass,
    ensures
        (RemoveController { cell: RemoveCmd::Pass }) == c,
{
}

} // verus!
