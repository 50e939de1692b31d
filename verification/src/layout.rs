use vstd::prelude::*;

verus! {

/// The memory footprint of a task's concrete representation: the size and
/// alignment of the block of storage that holds it. Two tasks can live in the
/// same allocation exactly when their layout descriptors are equal.
#[derive(Clone, Copy, PartialEq, Eq, Structural, Debug)]
pub struct TaskLayout {
    /// Size of the representation, in bytes.
    pub size: usize,
    /// Required alignment of the representation, in bytes.
    pub align: usize,
}

impl TaskLayout {
    /// Builds a layout descriptor from a size and an alignment.
    pub fn new(size: usize, align: usize) -> (r: TaskLayout)
        ensures
            r.size == size,
            r.align == align,
    {
        TaskLayout { size, align }
    }
}

} // verus!
