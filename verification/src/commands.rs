//! The commands recorded into a compute command buffer, as plain values: the
//! windowing and GPU layer replays them in order.
use vstd::prelude::*;

verus! {

/// The compute pipelines of the simulation frame.
#[derive(Clone, Copy, PartialEq, Eq, Structural, Debug)]
pub enum Pipeline {
    Histogram,
    Sort,
    Bounds,
    Morton,
    BuildTree,
    ParentSet,
    ComputeMass,
    Integrate,
}

/// A global memory barrier, named by the accesses it orders.
#[derive(Clone, Copy, PartialEq, Eq, Structural, Debug)]
pub enum Barrier {
    /// Compute-shader storage writes before compute-shader storage reads.
    ComputeWriteToRead,
    /// Compute-shader storage writes before compute-shader storage writes.
    ComputeWriteToWrite,
    /// Compute-shader storage writes before compute-shader storage writes and reads.
    ComputeWriteToReadWrite,
    /// Transfer writes before compute-shader storage writes and reads.
    TransferToReadWrite,
    /// Transfer writes before compute-shader storage writes.
    TransferToWrite,
}

/// The buffers that a frame fills with a constant.
#[derive(Clone, Copy, PartialEq, Eq, Structural, Debug)]
pub enum BufferSlot {
    Bounds,
    Tree,
    Counter,
}

/// Push constants of the radix-sort histogram pass.
#[derive(Clone, Copy, PartialEq, Eq, Structural, Debug)]
pub struct HistogramPc {
    pub count: u32,
    pub shift: u32,
    pub workgroups: u32,
    pub blocks_per_workgroup: u32,
    pub in_buffer_id: u32,
    pub histogram_buffer_id: u32,
}

/// Push constants of the radix-sort scatter pass.
#[derive(Clone, Copy, PartialEq, Eq, Structural, Debug)]
pub struct SortPc {
    pub count: u32,
    pub shift: u32,
    pub workgroups: u32,
    pub blocks_per_workgroup: u32,
    pub in_buffer_id: u32,
    pub out_buffer_id: u32,
    pub in_index_id: u32,
    pub out_index_id: u32,
    pub histogram_buffer_id: u32,
}

/// Push constants of the bounding-box pass.
#[derive(Clone, Copy, PartialEq, Eq, Structural, Debug)]
pub struct BoundsPc {
    pub particle_buffer_id: u32,
    pub bounds_buffer_id: u32,
    pub num_of_particles: u32,
}

/// Push constants of the Morton-code pass.
#[derive(Clone, Copy, PartialEq, Eq, Structural, Debug)]
pub struct MortonPc {
    pub particle_buffer_id: u32,
    pub morton_buffer_id: u32,
    pub num_of_particles: u32,
    pub bounds_buffer: u32,
}

/// Push constants of the tree-building pass.
#[derive(Clone, Copy, PartialEq, Eq, Structural, Debug)]
pub struct BuildTreePc {
    pub morton_buffer_id: u32,
    pub indices_buffer_id: u32,
    pub node_buffer_id: u32,
    pub num_of_particles: u32,
}

/// Push constants of the parent-pointer pass.
#[derive(Clone, Copy, PartialEq, Eq, Structural, Debug)]
pub struct ParentsPc {
    pub node_buffer_id: u32,
    pub num_of_particles: u32,
}

/// Push constants of the centre-of-mass pass.
#[derive(Clone, Copy, PartialEq, Eq, Structural, Debug)]
pub struct ComputeMassPc {
    pub particle_buffer_id: u32,
    pub indices_buffer_id: u32,
    pub node_buffer_id: u32,
    pub counter_buffer_id: u32,
    pub num_of_particles: u32,
}

/// The integer push constants of the traversal and integration pass; the
/// time step and the approximation parameters are added by the GPU layer.
#[derive(Clone, Copy, PartialEq, Eq, Structural, Debug)]
pub struct IntegratePc {
    pub particle_buffer_id: u32,
    pub indices_buffer_id: u32,
    pub node_buffer_id: u32,
    pub num_of_particles: u32,
}

/// The push constants of one pass.
#[derive(Clone, Copy, PartialEq, Eq, Structural, Debug)]
pub enum PushConstants {
    Histogram(HistogramPc),
    Sort(SortPc),
    Bounds(BoundsPc),
    Morton(MortonPc),
    BuildTree(BuildTreePc),
    Parents(ParentsPc),
    ComputeMass(ComputeMassPc),
    Integrate(IntegratePc),
}

/// One recorded command.
#[derive(Clone, Copy, PartialEq, Eq, Structural, Debug)]
pub enum Command {
    Bind(Pipeline),
    Push(PushConstants),
    Dispatch { x: u32, y: u32, z: u32 },
    Barrier(Barrier),
    Fill { buffer: BufferSlot, offset: u64, size: u64, data: u32 },
}

/// Every dispatch that is not the last command is directly followed by a
/// barrier, so that what it writes is visible to what comes next.
pub open spec fn dispatches_fenced(s: Seq<Command>) -> bool {
    forall|i: int| 0 <= i < s.len() - 1 && (#[trigger] s[i]) is Dispatch ==> s[i + 1] is Barrier
}

/// Concatenating two fenced sequences gives a fenced sequence, provided that a
/// dispatch at the end of the first is followed by a barrier at the start of
/// the second.
pub proof fn lemma_fenced_concat(a: Seq<Command>, b: Seq<Command>)
    requires
        dispatches_fenced(a),
        dispatches_fenced(b),
        a.len() > 0 && a.last() is Dispatch && b.len() > 0 ==> b[0] is Barrier,
    ensures
        dispatches_fenced(a + b),
{
    assert forall|i: int| 0 <= i < (a + b).len() - 1 && (#[trigger] (a + b)[i]) is Dispatch implies (a
        + b)[i + 1] is Barrier by {
        if i < a.len() - 1 {
            assert((a + b)[i] == a[i]);
            assert((a + b)[i + 1] == a[i + 1]);
        } else if i == a.len() - 1 {
            assert((a + b)[i] == a.last());
            assert((a + b)[i + 1] == b[0]);
        } else {
            assert((a + b)[i] == b[i - a.len()]);
            assert((a + b)[i + 1] == b[i + 1 - a.len()]);
        }
    }
}

} // verus!
