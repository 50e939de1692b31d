use crate::layout::TaskLayout;
use crate::task::PollContext;
use crate::task::ScriptedTask;
use crate::task::TaskModel;
use crate::task::TaskPoll;
use crate::task::Teardown;
use crate::task::spec_step;
use vstd::prelude::*;

verus! {

/// The report handed back whenever an occupant is destroyed: which occupant
/// it was, and whether its teardown completed normally or raised a fault. A
/// raised fault is surfaced through this report only after the container has
/// reached its next valid state, so the caller may keep using (or safely
/// destroy) the container after observing it.
#[derive(Clone, Copy, PartialEq, Eq, Structural, Debug)]
pub struct TeardownReport {
    /// The identity of the occupant that was destroyed.
    pub destroyed_id: u64,
    /// How the occupant's teardown ended.
    pub outcome: Teardown,
}

/// The mathematical state of the container: the occupant, the stored layout
/// descriptor, the identity of the backing allocation, and the record of the
/// occupants destroyed so far, in order.
pub ghost struct BoxModel<T> {
    /// The task currently installed in the allocation.
    pub occupant: TaskModel<T>,
    /// The layout descriptor of the allocation as currently sized.
    pub layout: TaskLayout,
    /// The identity of the backing allocation; it changes exactly when the
    /// container rebuilds around a fresh allocation.
    pub alloc: u64,
    /// The identities of the occupants destroyed so far, oldest first. Each
    /// replacement and the final close append exactly one entry, which is how
    /// every occupant is destroyed exactly once.
    pub destroyed: Seq<u64>,
}

impl<T> BoxModel<T> {
    /// The container's invariant: outside an in-progress replacement, the
    /// stored layout descriptor exactly equals the footprint of the occupant
    /// physically present in the allocation.
    pub open spec fn wf(self) -> bool {
        self.layout == self.occupant.layout
    }
}

/// The allocation identity a rebuild moves to: always different from the one
/// it replaces, though an identity may recur across several rebuilds, as real
/// allocators may hand an address out again.
pub open spec fn spec_succ_alloc(a: u64) -> u64 {
    if a == u64::MAX {
        0
    } else {
        (a + 1) as u64
    }
}

/// The report produced by destroying the given occupant.
pub open spec fn spec_teardown_report<T>(t: TaskModel<T>) -> TeardownReport {
    TeardownReport {
        destroyed_id: t.id,
        outcome: if t.raises_on_destroy {
            Teardown::Raised
        } else {
            Teardown::Clean
        },
    }
}

/// Construction: a fresh allocation sized to the task, the layout descriptor
/// recorded, and nothing destroyed yet.
pub open spec fn spec_new<T>(t: TaskModel<T>) -> BoxModel<T> {
    BoxModel { occupant: t, layout: t.layout, alloc: 0, destroyed: Seq::empty() }
}

/// Unconditional replacement: when the footprints are equal the allocation is
/// reused in place; otherwise the container rebuilds around a fresh
/// allocation. Either way the old occupant is destroyed exactly once and the
/// new task ends up installed with an exact layout descriptor.
pub open spec fn spec_set<T>(b: BoxModel<T>, t: TaskModel<T>) -> (BoxModel<T>, TeardownReport) {
    if t.layout == b.layout {
        (
            BoxModel { occupant: t, destroyed: b.destroyed.push(b.occupant.id), ..b },
            spec_teardown_report(b.occupant),
        )
    } else {
        (
            BoxModel {
                occupant: t,
                layout: t.layout,
                alloc: spec_succ_alloc(b.alloc),
                destroyed: b.destroyed.push(b.occupant.id),
            },
            spec_teardown_report(b.occupant),
        )
    }
}

/// Replacement that never reallocates: on equal footprints it behaves as
/// `spec_set`; on differing footprints it mutates nothing and hands the
/// rejected task back unchanged.
pub open spec fn spec_try_set<T>(b: BoxModel<T>, t: TaskModel<T>) -> (BoxModel<
    T,
>, Result<TeardownReport, TaskModel<T>>) {
    if t.layout == b.layout {
        (spec_set(b, t).0, Ok(spec_set(b, t).1))
    } else {
        (b, Err(t))
    }
}

/// One drive of the container: exactly one drive of its occupant, with the
/// layout descriptor, the allocation and the destruction record untouched.
pub open spec fn spec_poll<T>(b: BoxModel<T>, tag: u64) -> (BoxModel<T>, TaskPoll<T>) {
    (BoxModel { occupant: spec_step(b.occupant, tag).0, ..b }, spec_step(b.occupant, tag).1)
}

/// Destruction of the container: the current occupant is destroyed, once,
/// and the allocation is released; previously replaced occupants are not
/// touched, having been destroyed at their own replacement time.
pub open spec fn spec_close<T>(b: BoxModel<T>) -> (Seq<u64>, TeardownReport) {
    (b.destroyed.push(b.occupant.id), spec_teardown_report(b.occupant))
}

/// A reusable slot for a task producing `T`: one logical heap allocation,
/// remembered by its layout descriptor and its identity, holding exactly one
/// occupant at a time. Replacing the occupant reuses the allocation whenever
/// the new task's footprint equals the stored one, and rebuilds otherwise;
/// the in-place protocol leaves the container valid even when the outgoing
/// occupant's teardown raises. All mutating and driving operations demand
/// exclusive access by taking the container uniquely, so exclusivity is
/// enforced by the type of access required rather than by any locking.
pub struct ReusableBoxFuture<T> {
    occupant: ScriptedTask<T>,
    layout: TaskLayout,
    alloc: u64,
    destroyed: Ghost<Seq<u64>>,
}

impl<T> View for ReusableBoxFuture<T> {
    type V = BoxModel<T>;

    closed spec fn view(&self) -> BoxModel<T> {
        BoxModel {
            occupant: self.occupant@,
            layout: self.layout,
            alloc: self.alloc,
            destroyed: self.destroyed@,
        }
    }
}

impl<T> ReusableBoxFuture<T> {
    /// The container's invariant, on its mathematical state.
    pub open spec fn wf(self) -> bool {
        self@.wf()
    }

    /// Creates a container holding the given task: a fresh allocation sized
    /// to the task's footprint, with that footprint recorded as the stored
    /// layout descriptor.
    pub fn new(task: ScriptedTask<T>) -> (r: ReusableBoxFuture<T>)
        ensures
            r@ == spec_new(task@),
            r.wf(),
    {
        let layout = task.layout();
        ReusableBoxFuture { occupant: task, layout, alloc: 0, destroyed: Ghost(Seq::empty()) }
    }

    /// Replaces the occupant unconditionally. When the new task's footprint
    /// equals the stored layout descriptor, the replacement happens in place
    /// with no allocation traffic and the allocation identity is kept;
    /// otherwise the whole container state is torn down and rebuilt around a
    /// fresh allocation, as construction would. Either way the old occupant
    /// is destroyed exactly once, and its teardown outcome is surfaced in the
    /// report only after the container holds the new task.
    pub fn set(&mut self, task: ScriptedTask<T>) -> (r: TeardownReport)
        requires
            old(self).wf(),
        ensures
            final(self).wf(),
            final(self)@ == spec_set(old(self)@, task@).0,
            r == spec_set(old(self)@, task@).1,
    {
        let layout = task.layout();
        if layout == self.layout {
            self.set_same_layout(task)
        } else {
            // The footprints differ: destroy the old occupant and release the
            // old allocation through ordinary destruction, then reconstruct
            // around a fresh allocation holding the new task.
            let destroyed_id = self.occupant.id();
            let outcome = if self.occupant.raises_on_destroy() {
                Teardown::Raised
            } else {
                Teardown::Clean
            };
            self.occupant = task;
            self.layout = layout;
            self.alloc = if self.alloc == u64::MAX {
                0
            } else {
                self.alloc + 1
            };
            self.destroyed = Ghost(self.destroyed@.push(destroyed_id));
            TeardownReport { destroyed_id, outcome }
        }
    }

    /// Replaces the occupant without ever reallocating. On a footprint match
    /// this is the in-place protocol and the call reports the old occupant's
    /// teardown; on a mismatch the container is not mutated at all — the
    /// existing occupant stays installed and drivable exactly as before — and
    /// the rejected task is handed back unchanged, so no work is lost.
    pub fn try_set(&mut self, task: ScriptedTask<T>) -> (r: Result<
        TeardownReport,
        ScriptedTask<T>,
    >)
        requires
            old(self).wf(),
        ensures
            final(self).wf(),
            task@.layout == old(self)@.layout ==> r is Ok && final(self)@ == spec_set(
                old(self)@,
                task@,
            ).0 && r->Ok_0 == spec_set(old(self)@, task@).1,
            task@.layout != old(self)@.layout ==> r is Err && *final(self) == *old(self),
            r is Err ==> r->Err_0 == task,
            final(self)@ == spec_try_set(old(self)@, task@).0,
    {
        let layout = task.layout();
        if layout == self.layout {
            Ok(self.set_same_layout(task))
        } else {
            Err(task)
        }
    }

    /// The in-place same-layout replacement protocol. The new task's
    /// footprint must equal the stored layout descriptor; the container comes
    /// out valid — new occupant installed, metadata and layout descriptor
    /// exact — whatever the old occupant's teardown did.
    fn set_same_layout(&mut self, task: ScriptedTask<T>) -> (r: TeardownReport)
        requires
            old(self).wf(),
            task@.layout == old(self)@.layout,
        ensures
            final(self).wf(),
            final(self)@ == spec_set(old(self)@, task@).0,
            r == spec_set(old(self)@, task@).1,
    {
        // Run the old occupant's teardown in a fault-isolating manner: a
        // fault is captured here rather than surfaced, and the allocation is
        // not yet overwritten — only the teardown's own effects happen.
        let destroyed_id = self.occupant.id();
        let outcome = if self.occupant.raises_on_destroy() {
            Teardown::Raised
        } else {
            Teardown::Clean
        };
        // Whatever the teardown did, install the new task in the same slot:
        // no allocation traffic, and from here on the slot unconditionally
        // holds a fully valid occupant. The dispatch metadata travels with
        // the occupant value, so it describes the new task from the same
        // moment; the layout descriptor is unchanged and still exact.
        self.occupant = task;
        self.destroyed = Ghost(self.destroyed@.push(destroyed_id));
        // Only now, with the container valid again, surface the captured
        // teardown outcome to the caller.
        TeardownReport { destroyed_id, outcome }
    }

    /// An address-stable, exclusively held reference to the occupant, for
    /// driving it without risking relocation. The stored layout descriptor,
    /// the allocation and the destruction record are untouched by the borrow,
    /// and driving the occupant never changes its footprint, so
    /// well-formedness survives any sequence of drives through the reference.
    pub fn get_pin(&mut self) -> (r: &mut ScriptedTask<T>)
        ensures
            (*r)@ == old(self)@.occupant,
            final(self)@ == (BoxModel { occupant: (*final(r))@, ..old(self)@ }),
    {
        &mut self.occupant
    }

    /// Drives the occupant exactly one step with the supplied context and
    /// forwards whatever the occupant returns — no buffering, no retry, no
    /// interpretation. This is also what driving the container as a task of
    /// result type `T` means, so a container can stand as a component of a
    /// larger composed task.
    pub fn poll(&mut self, cx: &PollContext) -> (r: TaskPoll<T>)
        requires
            old(self).wf(),
            old(self)@.occupant.live(),
        ensures
            final(self).wf(),
            final(self)@ == spec_poll(old(self)@, cx.tag).0,
            r == spec_poll(old(self)@, cx.tag).1,
    {
        self.get_pin().poll(cx)
    }

    /// Destroys the container: the occupant currently in the allocation is
    /// destroyed, exactly once, and the allocation is released. Occupants
    /// replaced earlier are not touched — each was already destroyed exactly
    /// once at its own replacement time.
    pub fn close(self) -> (r: TeardownReport)
        ensures
            r == spec_close(self@).1,
    {
        let destroyed_id = self.occupant.id();
        let outcome = if self.occupant.raises_on_destroy() {
            Teardown::Raised
        } else {
            Teardown::Clean
        };
        TeardownReport { destroyed_id, outcome }
    }

    /// The identity of the allocation currently backing the occupant: kept
    /// by every in-place replacement, changed by every rebuild.
    pub fn address(&self) -> (r: u64)
        ensures
            r == self@.alloc,
    {
        self.alloc
    }

    /// The stored layout descriptor. Outside an in-progress replacement it
    /// exactly equals the footprint of the occupant present in the
    /// allocation.
    pub fn stored_layout(&self) -> (r: TaskLayout)
        ensures
            r == self@.layout,
    {
        self.layout
    }

    /// A diagnostic description of the container: its kind alone. The
    /// occupant is type-erased and not assumed printable, so nothing of it is
    /// inspected or exposed.
    pub fn describe(&self) -> (r: &'static str)
        ensures
            r@ == "ReusableBoxFuture"@,
    {
        "ReusableBoxFuture"
    }
}

} // verus!
