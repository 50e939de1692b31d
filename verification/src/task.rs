use crate::layout::TaskLayout;
use vstd::prelude::*;

verus! {

/// The outcome of driving a task one step: either the task is not yet
/// complete, or it is complete with its result.
#[derive(PartialEq, Debug)]
pub enum TaskPoll<T> {
    /// The task has more work to do and must be driven again later.
    Pending,
    /// The task finished and produced its result.
    Ready(T),
}

/// The outcome of running a task's teardown: either it completed normally, or
/// it raised a fault. A raised fault is captured by the replacement protocol
/// and surfaced to the caller only after the container is valid again.
#[derive(Clone, Copy, PartialEq, Eq, Structural, Debug)]
pub enum Teardown {
    /// The teardown completed normally.
    Clean,
    /// The teardown raised a fault.
    Raised,
}

/// The progress context a scheduler supplies on each drive. It is opaque to
/// the container, which forwards it verbatim to the occupant; the tag lets a
/// caller observe that the very context it passed in reached the task.
#[derive(Clone, Copy, PartialEq, Eq, Structural, Debug)]
pub struct PollContext {
    /// An identifier chosen by the scheduler that owns this context.
    pub tag: u64,
}

/// The mathematical state of a task: its identity, footprint, remaining
/// pending steps, completion value, teardown behaviour, and the tag of the
/// last context it was driven with.
pub ghost struct TaskModel<T> {
    /// Identity of the task, used to account for destructions.
    pub id: u64,
    /// The footprint of the task's representation.
    pub layout: TaskLayout,
    /// How many more drives return `Pending` before the task completes.
    pub pends: nat,
    /// The completion value; `None` once the task has completed.
    pub value: Option<T>,
    /// Whether the task's teardown raises a fault.
    pub raises_on_destroy: bool,
    /// The tag of the last context the task was driven with, if any.
    pub last_tag: Option<u64>,
}

impl<T> TaskModel<T> {
    /// A task is live while it still holds its completion value; only a live
    /// task may be driven.
    pub open spec fn live(self) -> bool {
        self.value is Some
    }
}

/// One drive of a task: the task state afterwards, and what the drive
/// returned. While pending steps remain the task stays live and yields
/// `Pending`; on the step after the last one it hands out its value.
pub open spec fn spec_step<T>(t: TaskModel<T>, tag: u64) -> (TaskModel<T>, TaskPoll<T>) {
    if t.pends > 0 {
        (
            TaskModel { pends: (t.pends - 1) as nat, last_tag: Some(tag), ..t },
            TaskPoll::Pending,
        )
    } else {
        (
            TaskModel { value: None, last_tag: Some(tag), ..t },
            TaskPoll::Ready(t.value->0),
        )
    }
}

/// A resumable computation producing a value of type `T`, described by a
/// script: it reports "not complete" for a fixed number of drives and then
/// completes with its value. Its layout descriptor stands for the footprint
/// of the concrete representation, and its identity and teardown behaviour
/// let callers observe exactly when and how it is destroyed.
pub struct ScriptedTask<T> {
    id: u64,
    layout: TaskLayout,
    pends_remaining: u64,
    value: Option<T>,
    raises_on_destroy: bool,
    last_tag: Option<u64>,
}

impl<T> View for ScriptedTask<T> {
    type V = TaskModel<T>;

    closed spec fn view(&self) -> TaskModel<T> {
        TaskModel {
            id: self.id,
            layout: self.layout,
            pends: self.pends_remaining as nat,
            value: self.value,
            raises_on_destroy: self.raises_on_destroy,
            last_tag: self.last_tag,
        }
    }
}

impl<T> ScriptedTask<T> {
    /// Builds a live task that yields "not complete" on its first `pends`
    /// drives and completes with `value` on the drive after them.
    pub fn new(id: u64, layout: TaskLayout, pends: u64, value: T, raises_on_destroy: bool) -> (r:
        ScriptedTask<T>)
        ensures
            r@ == (TaskModel {
                id,
                layout,
                pends: pends as nat,
                value: Some(value),
                raises_on_destroy,
                last_tag: None::<u64>,
            }),
    {
        ScriptedTask { id, layout, pends_remaining: pends, value: Some(value), raises_on_destroy, last_tag: None }
    }

    /// The task's identity.
    pub fn id(&self) -> (r: u64)
        ensures
            r == self@.id,
    {
        self.id
    }

    /// The footprint of the task's representation.
    pub fn layout(&self) -> (r: TaskLayout)
        ensures
            r == self@.layout,
    {
        self.layout
    }

    /// Whether the task is still live, that is, has not completed yet.
    pub fn is_live(&self) -> (r: bool)
        ensures
            r == self@.live(),
    {
        self.value.is_some()
    }

    /// Whether the task's teardown raises a fault.
    pub fn raises_on_destroy(&self) -> (r: bool)
        ensures
            r == self@.raises_on_destroy,
    {
        self.raises_on_destroy
    }

    /// The tag of the most recent context the task has seen, if any.
    pub fn last_tag(&self) -> (r: Option<u64>)
        ensures
            r == self@.last_tag,
    {
        self.last_tag
    }

    /// Drives the task one step with the given context. Yields `Pending`
    /// while scripted steps remain, and the completion value once they are
    /// exhausted; the context's tag is recorded, which is how a caller can
    /// see that the context was forwarded verbatim.
    pub fn poll(&mut self, cx: &PollContext) -> (r: TaskPoll<T>)
        requires
            old(self)@.live(),
        ensures
            final(self)@ == spec_step(old(self)@, cx.tag).0,
            r == spec_step(old(self)@, cx.tag).1,
    {
        self.last_tag = Some(cx.tag);
        if self.pends_remaining > 0 {
            self.pends_remaining = self.pends_remaining - 1;
            TaskPoll::Pending
        } else {
            let v = self.value.take();
            TaskPoll::Ready(v.unwrap())
        }
    }
}

} // verus!
