use crate::boxed::BoxModel;
use crate::boxed::TeardownReport;
use crate::boxed::spec_close;
use crate::boxed::spec_new;
use crate::boxed::spec_poll;
use crate::boxed::spec_set;
use crate::boxed::spec_teardown_report;
use crate::boxed::spec_try_set;
use crate::task::TaskModel;
use crate::task::TaskPoll;
use crate::task::Teardown;
use crate::task::spec_step;
use vstd::prelude::*;

verus! {

/// Allocation reuse: for any two tasks of equal footprint, installing the
/// first and then the second keeps the very same allocation identity — the
/// second replacement happens in place, with no allocation traffic.
pub proof fn lemma_allocation_reuse<T>(b: BoxModel<T>, a: TaskModel<T>, c: TaskModel<T>)
    requires
        b.wf(),
        a.layout == c.layout,
    ensures
        ({
            let b1 = spec_set(b, a).0;
            let b2 = spec_set(b1, c).0;
            &&& b2.alloc == b1.alloc
            &&& b1.wf()
            &&& b2.wf()
        }),
{
}

/// Reallocation on mismatch: installing a task whose footprint differs from
/// the one installed before it moves to a different allocation identity, and
/// the stored layout descriptor then equals the new task's footprint.
pub proof fn lemma_reallocation_on_mismatch<T>(b: BoxModel<T>, a: TaskModel<T>, c: TaskModel<T>)
    requires
        b.wf(),
        a.layout != c.layout,
    ensures
        ({
            let b1 = spec_set(b, a).0;
            let b2 = spec_set(b1, c).0;
            &&& b2.alloc != b1.alloc
            &&& b2.layout == c.layout
            &&& b2.wf()
        }),
{
}

/// A rejected replacement preserves the state exactly: when the footprints
/// differ, `try_set` hands the task back unchanged, mutates nothing of the
/// container, and a subsequent drive still drives the old occupant exactly as
/// it would have before the attempt.
pub proof fn lemma_try_set_rejection_preserves_state<T>(b: BoxModel<T>, t: TaskModel<T>, tag: u64)
    requires
        b.wf(),
        t.layout != b.layout,
    ensures
        spec_try_set(b, t).0 == b,
        spec_try_set(b, t).1 == Err::<TeardownReport, TaskModel<T>>(t),
        spec_poll(spec_try_set(b, t).0, tag) == spec_poll(b, tag),
{
}

/// An accepted replacement reports success with the old occupant's teardown,
/// keeps the allocation identity, and installs the new task: a subsequent
/// drive drives the new task, not the old occupant.
pub proof fn lemma_try_set_acceptance<T>(b: BoxModel<T>, c: TaskModel<T>, tag: u64)
    requires
        b.wf(),
        c.layout == b.layout,
    ensures
        ({
            let b2 = spec_try_set(b, c).0;
            &&& spec_try_set(b, c).1 == Ok::<TeardownReport, TaskModel<T>>(
                spec_teardown_report(b.occupant),
            )
            &&& b2.alloc == b.alloc
            &&& b2.occupant == c
            &&& b2.wf()
            &&& spec_poll(b2, tag).1 == spec_step(c, tag).1
        }),
{
}

/// Single destruction: construction destroys nothing; every replacement
/// destroys exactly the occupant it replaces, appending exactly one entry to
/// the destruction record while the incoming task is installed, not
/// destroyed; and closing the container destroys exactly the occupant
/// installed at that moment. So each occupant is destroyed exactly once — at
/// its own replacement, or at the close — and never both, never neither.
pub proof fn lemma_single_destruction<T>(b: BoxModel<T>, t: TaskModel<T>)
    requires
        b.wf(),
    ensures
        spec_new(t).destroyed == Seq::<u64>::empty(),
        spec_set(b, t).0.destroyed == b.destroyed.push(b.occupant.id),
        spec_set(b, t).0.occupant == t,
        spec_close(b).0 == b.destroyed.push(b.occupant.id),
        spec_close(b).1.destroyed_id == b.occupant.id,
{
}

/// Single destruction, counted: a replacement raises the number of
/// destructions of the replaced occupant's identity by exactly one and leaves
/// the count of every other identity as it was; the close does the same for
/// the occupant installed at that moment.
pub proof fn lemma_destruction_counts<T>(b: BoxModel<T>, t: TaskModel<T>, id: u64)
    ensures
        id == b.occupant.id ==> spec_set(b, t).0.destroyed.to_multiset().count(id)
            == b.destroyed.to_multiset().count(id) + 1,
        id != b.occupant.id ==> spec_set(b, t).0.destroyed.to_multiset().count(id)
            == b.destroyed.to_multiset().count(id),
        id == b.occupant.id ==> spec_close(b).0.to_multiset().count(id)
            == b.destroyed.to_multiset().count(id) + 1,
        id != b.occupant.id ==> spec_close(b).0.to_multiset().count(id)
            == b.destroyed.to_multiset().count(id),
{
    broadcast use vstd::seq_lib::group_to_multiset_ensures;
    broadcast use vstd::multiset::group_multiset_axioms;

}

/// Poll transparency, one step: one drive of the container is exactly one
/// drive of its occupant — same result, same resulting task — and touches
/// nothing else of the container.
pub proof fn lemma_poll_transparency<T>(b: BoxModel<T>, tag: u64)
    ensures
        spec_poll(b, tag).1 == spec_step(b.occupant, tag).1,
        spec_poll(b, tag).0.occupant == spec_step(b.occupant, tag).0,
        spec_poll(b, tag).0.layout == b.layout,
        spec_poll(b, tag).0.alloc == b.alloc,
        spec_poll(b, tag).0.destroyed == b.destroyed,
{
}

/// A whole run of a task on its own: the task after driving it once per
/// context in `tags`, oldest first, and the outputs of those drives in order.
pub open spec fn spec_task_run<T>(t: TaskModel<T>, tags: Seq<u64>) -> (TaskModel<
    T,
>, Seq<TaskPoll<T>>)
    decreases tags.len(),
{
    if tags.len() == 0 {
        (t, Seq::empty())
    } else {
        let first = spec_step(t, tags[0]);
        let rest = spec_task_run(first.0, tags.skip(1));
        (rest.0, seq![first.1] + rest.1)
    }
}

/// A whole run of the container: the container after driving it once per
/// context in `tags`, oldest first, and the outputs of those drives in order.
pub open spec fn spec_box_run<T>(b: BoxModel<T>, tags: Seq<u64>) -> (BoxModel<
    T,
>, Seq<TaskPoll<T>>)
    decreases tags.len(),
{
    if tags.len() == 0 {
        (b, Seq::empty())
    } else {
        let first = spec_poll(b, tags[0]);
        let rest = spec_box_run(first.0, tags.skip(1));
        (rest.0, seq![first.1] + rest.1)
    }
}

/// Poll transparency over any run: driving the container with any sequence
/// of contexts yields exactly the outputs the occupant would yield unwrapped,
/// leaves the occupant exactly as the unwrapped run leaves it, and touches
/// nothing else of the container.
pub proof fn lemma_poll_transparency_run<T>(b: BoxModel<T>, tags: Seq<u64>)
    ensures
        spec_box_run(b, tags).1 == spec_task_run(b.occupant, tags).1,
        spec_box_run(b, tags).0.occupant == spec_task_run(b.occupant, tags).0,
        spec_box_run(b, tags).0.layout == b.layout,
        spec_box_run(b, tags).0.alloc == b.alloc,
        spec_box_run(b, tags).0.destroyed == b.destroyed,
    decreases tags.len(),
{
    if tags.len() == 0 {
    } else {
        lemma_poll_transparency_run(spec_poll(b, tags[0]).0, tags.skip(1));
    }
}

/// A teardown fault during in-place replacement leaves the container valid:
/// with matching footprints and an outgoing occupant whose teardown raises,
/// the replacement still installs the new task with the allocation and the
/// layout descriptor intact, the fault is surfaced in the report, and a
/// subsequent drive drives the new task, not the old occupant.
pub proof fn lemma_teardown_fault_leaves_valid_state<T>(
    b: BoxModel<T>,
    t: TaskModel<T>,
    tag: u64,
)
    requires
        b.wf(),
        t.layout == b.layout,
        b.occupant.raises_on_destroy,
    ensures
        ({
            let b2 = spec_set(b, t).0;
            let rep = spec_set(b, t).1;
            &&& rep.outcome == Teardown::Raised
            &&& rep.destroyed_id == b.occupant.id
            &&& b2.wf()
            &&& b2.occupant == t
            &&& b2.alloc == b.alloc
            &&& b2.layout == b.layout
            &&& spec_poll(b2, tag).1 == spec_step(t, tag).1
        }),
{
}

} // verus!
