//! Planning of the Barnes–Hut frame: buffer sizes for `n` particles and the
//! command sequence of one simulation step (bounds, Morton codes, radix sort,
//! LBVH construction, parent pointers, centres of mass, traversal and
//! integration), and the same work split into separately timed passes.
use vstd::prelude::*;
use crate::commands::{
    Barrier, BoundsPc, BufferSlot, BuildTreePc, Command, ComputeMassPc, IntegratePc, MortonPc,
    ParentsPc, Pipeline, PushConstants, dispatches_fenced, lemma_fenced_concat,
};
use crate::dispatch::{ceil_div, div_ceil_u32, lemma_ceil_div_covers, WORKGROUP_SIZE};
use crate::commands::{HistogramPc, SortPc};
use crate::radix_sort::{RadixSorter, SortBuffers, lemma_sort_commands_fenced, lemma_sort_pass_buffers};

verus! {

/// Bytes of one BVH node on the GPU.
pub const NODE_SIZE: u64 = 64;

/// Value the tree buffer is filled with before the tree is built in a frame.
pub const TREE_FILL: u32 = 1000000000;

/// Byte sizes of the simulator's buffers.
#[derive(Clone, Copy, PartialEq, Eq, Structural, Debug)]
pub struct BufferSizes {
    /// The host-visible staging buffer, also used for read-back.
    pub staging: u64,
    pub debug: u64,
    pub particles: u64,
    /// Minimum and maximum corners, four 4-byte lanes each.
    pub bounds: u64,
    pub morton: u64,
    pub indices: u64,
    pub tree: u64,
    pub counter: u64,
}

/// Descriptor indices of the buffers a frame uses.
#[derive(Clone, Copy, PartialEq, Eq, Structural, Debug)]
pub struct SimBuffers {
    pub particles: u32,
    pub bounds: u32,
    pub morton: u32,
    pub indices: u32,
    pub tree: u32,
    pub counter: u32,
    pub sort_temp: u32,
    pub sort_temp_indices: u32,
    pub sort_histogram: u32,
}

/// The plan of a simulator for a fixed number of particles.
#[derive(Clone, Copy, PartialEq, Eq, Structural, Debug)]
pub struct Simulator {
    pub sizes: BufferSizes,
    pub radix_sort: RadixSorter,
    pub num_of_particles: u32,
}

/// The separately timed passes.
#[derive(Clone, Copy, PartialEq, Eq, Structural, Debug)]
pub enum PassName {
    Bounds,
    Morton,
    RadixSort,
    BuildTree,
    ParentSet,
    ComputeMass,
    Integrate,
}

/// One timed pass: its name and the commands submitted for it.
pub struct TimedPass {
    pub name: PassName,
    pub commands: Vec<Command>,
}

/// The buffers of the radix sort of a frame: Morton codes as keys, the
/// particle indices carried along.
pub open spec fn sort_buffers(ids: SimBuffers) -> SortBuffers {
    SortBuffers {
        values: ids.morton,
        temp: ids.sort_temp,
        indices: ids.indices,
        temp_indices: ids.sort_temp_indices,
        histogram: ids.sort_histogram,
    }
}

/// Keeps the commands that do work (binds, push constants, dispatches) and
/// drops barriers and fills.
pub open spec fn work_of(s: Seq<Command>) -> Seq<Command>
    decreases s.len(),
{
    if s.len() == 0 {
        Seq::empty()
    } else {
        work_of(s.drop_last()) + if s.last() is Barrier || s.last() is Fill {
            Seq::empty()
        } else {
            seq![s.last()]
        }
    }
}

/// Dropping barriers and fills distributes over concatenation.
proof fn lemma_work_of_concat(a: Seq<Command>, b: Seq<Command>)
    ensures
        work_of(a + b) == work_of(a) + work_of(b),
    decreases b.len(),
{
    if b.len() == 0 {
        assert(a + b =~= a);
    } else {
        lemma_work_of_concat(a, b.drop_last());
        assert((a + b).drop_last() =~= a + b.drop_last());
        assert((a + b).last() == b.last());
    }
}

impl Simulator {
    /// Workgroups of the per-particle passes.
    pub open spec fn groups(self) -> int {
        ceil_div(self.num_of_particles as int, 256)
    }

    /// Workgroups of the per-internal-node passes.
    pub open spec fn tree_groups(self) -> int {
        ceil_div(self.num_of_particles - 1, 256)
    }

    pub open spec fn bounds_pc(self, ids: SimBuffers) -> BoundsPc {
        BoundsPc {
            particle_buffer_id: ids.particles,
            bounds_buffer_id: ids.bounds,
            num_of_particles: self.num_of_particles,
        }
    }

    pub open spec fn morton_pc(self, ids: SimBuffers) -> MortonPc {
        MortonPc {
            particle_buffer_id: ids.particles,
            morton_buffer_id: ids.morton,
            num_of_particles: self.num_of_particles,
            bounds_buffer: ids.bounds,
        }
    }

    pub open spec fn build_tree_pc(self, ids: SimBuffers) -> BuildTreePc {
        BuildTreePc {
            morton_buffer_id: ids.morton,
            indices_buffer_id: ids.indices,
            node_buffer_id: ids.tree,
            num_of_particles: self.num_of_particles,
        }
    }

    pub open spec fn parents_pc(self, ids: SimBuffers) -> ParentsPc {
        ParentsPc { node_buffer_id: ids.tree, num_of_particles: self.num_of_particles }
    }

    pub open spec fn compute_mass_pc(self, ids: SimBuffers) -> ComputeMassPc {
        ComputeMassPc {
            particle_buffer_id: ids.particles,
            indices_buffer_id: ids.indices,
            node_buffer_id: ids.tree,
            counter_buffer_id: ids.counter,
            num_of_particles: self.num_of_particles,
        }
    }

    pub open spec fn integrate_pc(self, ids: SimBuffers) -> IntegratePc {
        IntegratePc {
            particle_buffer_id: ids.particles,
            indices_buffer_id: ids.indices,
            node_buffer_id: ids.tree,
            num_of_particles: self.num_of_particles,
        }
    }

    /// Bind, push constants and dispatch of a pass.
    pub open spec fn run(p: Pipeline, pc: PushConstants, groups: int) -> Seq<Command> {
        seq![
            Command::Bind(p),
            Command::Push(pc),
            Command::Dispatch { x: groups as u32, y: 1, z: 1 },
        ]
    }

    pub open spec fn bounds_run(self, ids: SimBuffers) -> Seq<Command> {
        Self::run(Pipeline::Bounds, PushConstants::Bounds(self.bounds_pc(ids)), self.groups())
    }

    pub open spec fn morton_run(self, ids: SimBuffers) -> Seq<Command> {
        Self::run(Pipeline::Morton, PushConstants::Morton(self.morton_pc(ids)), self.groups())
    }

    pub open spec fn build_tree_run(self, ids: SimBuffers) -> Seq<Command> {
        Self::run(Pipeline::BuildTree, PushConstants::BuildTree(self.build_tree_pc(ids)), self.tree_groups())
    }

    pub open spec fn parents_run(self, ids: SimBuffers) -> Seq<Command> {
        Self::run(Pipeline::ParentSet, PushConstants::Parents(self.parents_pc(ids)), self.tree_groups())
    }

    pub open spec fn compute_mass_run(self, ids: SimBuffers) -> Seq<Command> {
        Self::run(Pipeline::ComputeMass, PushConstants::ComputeMass(self.compute_mass_pc(ids)), self.groups())
    }

    pub open spec fn integrate_run(self, ids: SimBuffers) -> Seq<Command> {
        Self::run(Pipeline::Integrate, PushConstants::Integrate(self.integrate_pc(ids)), self.groups())
    }

    /// Resetting the bounds: minima to 0, maxima to all ones.
    pub open spec fn bounds_reset() -> Seq<Command> {
        seq![
            Command::Fill { buffer: BufferSlot::Bounds, offset: 0, size: 16, data: 0 },
            Command::Fill { buffer: BufferSlot::Bounds, offset: 16, size: 16, data: 0xFFFF_FFFF },
        ]
    }

    /// Filling the whole tree buffer with `data`.
    pub open spec fn tree_fill(self, data: u32) -> Seq<Command> {
        seq![
            Command::Fill {
                buffer: BufferSlot::Tree,
                offset: 0,
                size: (2 * self.num_of_particles * NODE_SIZE) as u64,
                data,
            },
        ]
    }

    /// Zeroing the per-internal-node counters.
    pub open spec fn counter_fill(self) -> Seq<Command> {
        seq![
            Command::Fill {
                buffer: BufferSlot::Counter,
                offset: 0,
                size: ((self.num_of_particles - 1) * 4) as u64,
                data: 0,
            },
        ]
    }

    pub open spec fn barrier(b: Barrier) -> Seq<Command> {
        seq![Command::Barrier(b)]
    }

    /// The commands of one simulation frame.
    pub open spec fn frame_commands(self, ids: SimBuffers) -> Seq<Command> {
        Self::bounds_reset() + self.bounds_run(ids) + Self::barrier(Barrier::ComputeWriteToWrite)
            + self.morton_run(ids) + Self::barrier(Barrier::ComputeWriteToWrite)
            + self.radix_sort.sort_commands(sort_buffers(ids)) + Self::barrier(
            Barrier::ComputeWriteToRead,
        ) + self.tree_fill(TREE_FILL) + Self::barrier(Barrier::TransferToReadWrite)
            + self.build_tree_run(ids) + Self::barrier(Barrier::ComputeWriteToReadWrite)
            + self.parents_run(ids) + Self::barrier(Barrier::ComputeWriteToWrite)
            + self.counter_fill() + Self::barrier(Barrier::TransferToWrite)
            + self.compute_mass_run(ids) + Self::barrier(Barrier::ComputeWriteToRead)
            + self.integrate_run(ids)
    }

    /// The name of timed pass `k`.
    pub open spec fn pass_name(k: int) -> PassName {
        if k == 0 {
            PassName::Bounds
        } else if k == 1 {
            PassName::Morton
        } else if k == 2 {
            PassName::RadixSort
        } else if k == 3 {
            PassName::BuildTree
        } else if k == 4 {
            PassName::ParentSet
        } else if k == 5 {
            PassName::ComputeMass
        } else {
            PassName::Integrate
        }
    }

    /// The commands of timed pass `k`. The tree buffer is cleared to zero here.
    pub open spec fn timed_commands(self, ids: SimBuffers, k: int) -> Seq<Command> {
        if k == 0 {
            Self::bounds_reset() + self.bounds_run(ids)
        } else if k == 1 {
            self.morton_run(ids)
        } else if k == 2 {
            self.radix_sort.sort_commands(sort_buffers(ids))
        } else if k == 3 {
            self.tree_fill(0) + Self::barrier(Barrier::TransferToReadWrite) + self.build_tree_run(ids)
        } else if k == 4 {
            self.parents_run(ids)
        } else if k == 5 {
            self.counter_fill() + Self::barrier(Barrier::TransferToWrite) + self.compute_mass_run(ids)
        } else {
            self.integrate_run(ids)
        }
    }

    /// Plans a simulator for `num_particles` particles of `particle_size`
    /// bytes each (the count is taken as a `u64`, and as a `u32` for the GPU).
    pub fn new(num_particles: usize, particle_size: u64) -> (s: Simulator)
        requires
            num_particles >= 1,
            particle_size * num_particles * 4 <= u64::MAX,
            2 * num_particles * NODE_SIZE <= u64::MAX,
            4 * num_particles <= u64::MAX,
            (num_particles as u32) + 32 <= u32::MAX,
        ensures
            s.num_of_particles == num_particles as u32,
            s.sizes.staging == particle_size * num_particles * 4,
            s.sizes.debug == particle_size * num_particles * 4,
            s.sizes.particles == num_particles * particle_size,
            s.sizes.bounds == 2 * 4 * 4,
            s.sizes.morton == 4 * num_particles,
            s.sizes.indices == 4 * num_particles,
            s.sizes.tree == 2 * num_particles * NODE_SIZE,
            s.sizes.counter == (num_particles - 1) * 4,
            s.radix_sort.count == num_particles as u32,
            s.radix_sort.dispatch_x == ceil_div(ceil_div(num_particles as u32 as int, 32), 256),
            s.radix_sort.blocks_per_wg == 32,
            s.radix_sort.temp_buffer_size == num_particles * 4,
            s.radix_sort.temp_index_buffer_size == num_particles * 4,
            s.radix_sort.histogram_buffer_size == s.radix_sort.dispatch_x * 256 * 4,
    {
        let n: u64 = num_particles as u64;
        let sizes = BufferSizes {
            staging: particle_size * n * 4,
            debug: particle_size * n * 4,
            particles: n * particle_size,
            bounds: 2 * 4 * 4,
            morton: 4 * n,
            indices: 4 * n,
            tree: 2 * n * NODE_SIZE,
            counter: (n - 1) * 4,
        };
        proof {
            assert(n * particle_size == particle_size * n) by (nonlinear_arith);
            assert(particle_size * n <= particle_size * n * 4) by (nonlinear_arith);
        }
        Simulator {
            sizes,
            radix_sort: RadixSorter::new(n as usize),
            num_of_particles: n as u32,
        }
    }

    /// Records one simulation frame.
    pub fn record_simulation(&self, ids: &SimBuffers) -> (cmds: Vec<Command>)
        requires
            self.num_of_particles >= 1,
        ensures
            cmds@ == self.frame_commands(*ids),
    {
        let n = self.num_of_particles;
        let groups = div_ceil_u32(n, WORKGROUP_SIZE);
        let tree_groups = div_ceil_u32(n - 1, WORKGROUP_SIZE);
        let mut cmds: Vec<Command> = Vec::new();

        push_bounds_reset(&mut cmds);
        push_run(&mut cmds, Pipeline::Bounds, PushConstants::Bounds(BoundsPc {
            particle_buffer_id: ids.particles,
            bounds_buffer_id: ids.bounds,
            num_of_particles: n,
        }), groups);
        push_barrier(&mut cmds, Barrier::ComputeWriteToWrite);
        push_run(&mut cmds, Pipeline::Morton, PushConstants::Morton(MortonPc {
            particle_buffer_id: ids.particles,
            morton_buffer_id: ids.morton,
            num_of_particles: n,
            bounds_buffer: ids.bounds,
        }), groups);
        push_barrier(&mut cmds, Barrier::ComputeWriteToWrite);

        let sort_ids = SortBuffers {
            values: ids.morton,
            temp: ids.sort_temp,
            indices: ids.indices,
            temp_indices: ids.sort_temp_indices,
            histogram: ids.sort_histogram,
        };
        let mut sort_cmds = self.radix_sort.record(&sort_ids);
        cmds.append(&mut sort_cmds);

        push_barrier(&mut cmds, Barrier::ComputeWriteToRead);
        push_fill(&mut cmds, BufferSlot::Tree, 2 * n as u64 * NODE_SIZE, TREE_FILL);
        push_barrier(&mut cmds, Barrier::TransferToReadWrite);
        push_run(&mut cmds, Pipeline::BuildTree, PushConstants::BuildTree(BuildTreePc {
            morton_buffer_id: ids.morton,
            indices_buffer_id: ids.indices,
            node_buffer_id: ids.tree,
            num_of_particles: n,
        }), tree_groups);
        push_barrier(&mut cmds, Barrier::ComputeWriteToReadWrite);
        push_run(&mut cmds, Pipeline::ParentSet, PushConstants::Parents(ParentsPc {
            node_buffer_id: ids.tree,
            num_of_particles: n,
        }), tree_groups);
        push_barrier(&mut cmds, Barrier::ComputeWriteToWrite);
        push_fill(&mut cmds, BufferSlot::Counter, (n as u64 - 1) * 4, 0);
        push_barrier(&mut cmds, Barrier::TransferToWrite);
        push_run(&mut cmds, Pipeline::ComputeMass, PushConstants::ComputeMass(ComputeMassPc {
            particle_buffer_id: ids.particles,
            indices_buffer_id: ids.indices,
            node_buffer_id: ids.tree,
            counter_buffer_id: ids.counter,
            num_of_particles: n,
        }), groups);
        push_barrier(&mut cmds, Barrier::ComputeWriteToRead);
        push_run(&mut cmds, Pipeline::Integrate, PushConstants::Integrate(IntegratePc {
            particle_buffer_id: ids.particles,
            indices_buffer_id: ids.indices,
            node_buffer_id: ids.tree,
            num_of_particles: n,
        }), groups);
        cmds
    }
}

impl Simulator {
    /// Records the frame's work as seven passes that are submitted and timed
    /// one by one: bounds, Morton codes, radix sort, tree building (after
    /// clearing the tree buffer to zero), parent pointers, centres of mass,
    /// and integration.
    pub fn record_and_time_simulation(&self, ids: &SimBuffers) -> (passes: Vec<TimedPass>)
        requires
            self.num_of_particles >= 1,
        ensures
            passes@.len() == 7,
            forall|k: int|
                0 <= k < 7 ==> {
                    &&& (#[trigger] passes@[k]).name == Self::pass_name(k)
                    &&& passes@[k].commands@ == self.timed_commands(*ids, k)
                },
    {
        let n = self.num_of_particles;
        let groups = div_ceil_u32(n, WORKGROUP_SIZE);
        let mut passes: Vec<TimedPass> = Vec::new();

        let mut c: Vec<Command> = Vec::new();
        push_bounds_reset(&mut c);
        push_run(&mut c, Pipeline::Bounds, PushConstants::Bounds(BoundsPc {
            particle_buffer_id: ids.particles,
            bounds_buffer_id: ids.bounds,
            num_of_particles: n,
        }), groups);
        assert(c@ == Self::bounds_reset() + self.bounds_run(*ids)) by {
            assert(Seq::<Command>::empty() + Self::bounds_reset() =~= Self::bounds_reset());
        }
        passes.push(TimedPass { name: PassName::Bounds, commands: c });

        let mut c: Vec<Command> = Vec::new();
        push_run(&mut c, Pipeline::Morton, PushConstants::Morton(MortonPc {
            particle_buffer_id: ids.particles,
            morton_buffer_id: ids.morton,
            num_of_particles: n,
            bounds_buffer: ids.bounds,
        }), groups);
        assert(c@ =~= self.morton_run(*ids));
        passes.push(TimedPass { name: PassName::Morton, commands: c });

        let sort_ids = SortBuffers {
            values: ids.morton,
            temp: ids.sort_temp,
            indices: ids.indices,
            temp_indices: ids.sort_temp_indices,
            histogram: ids.sort_histogram,
        };
        let c = self.radix_sort.record(&sort_ids);
        passes.push(TimedPass { name: PassName::RadixSort, commands: c });

        let tree_groups = div_ceil_u32(n - 1, WORKGROUP_SIZE);
        let mut c: Vec<Command> = Vec::new();
        push_fill(&mut c, BufferSlot::Tree, 2 * n as u64 * NODE_SIZE, 0);
        push_barrier(&mut c, Barrier::TransferToReadWrite);
        push_run(&mut c, Pipeline::BuildTree, PushConstants::BuildTree(BuildTreePc {
            morton_buffer_id: ids.morton,
            indices_buffer_id: ids.indices,
            node_buffer_id: ids.tree,
            num_of_particles: n,
        }), tree_groups);
        assert(c@ =~= self.timed_commands(*ids, 3));
        passes.push(TimedPass { name: PassName::BuildTree, commands: c });

        let mut c: Vec<Command> = Vec::new();
        push_run(&mut c, Pipeline::ParentSet, PushConstants::Parents(ParentsPc {
            node_buffer_id: ids.tree,
            num_of_particles: n,
        }), tree_groups);
        assert(c@ =~= self.parents_run(*ids));
        passes.push(TimedPass { name: PassName::ParentSet, commands: c });

        let mut c: Vec<Command> = Vec::new();
        push_fill(&mut c, BufferSlot::Counter, (n as u64 - 1) * 4, 0);
        push_barrier(&mut c, Barrier::TransferToWrite);
        push_run(&mut c, Pipeline::ComputeMass, PushConstants::ComputeMass(ComputeMassPc {
            particle_buffer_id: ids.particles,
            indices_buffer_id: ids.indices,
            node_buffer_id: ids.tree,
            counter_buffer_id: ids.counter,
            num_of_particles: n,
        }), groups);
        assert(c@ =~= self.timed_commands(*ids, 5));
        passes.push(TimedPass { name: PassName::ComputeMass, commands: c });

        let mut c: Vec<Command> = Vec::new();
        push_run(&mut c, Pipeline::Integrate, PushConstants::Integrate(IntegratePc {
            particle_buffer_id: ids.particles,
            indices_buffer_id: ids.indices,
            node_buffer_id: ids.tree,
            num_of_particles: n,
        }), groups);
        assert(c@ =~= self.integrate_run(*ids));
        passes.push(TimedPass { name: PassName::Integrate, commands: c });
        passes
    }
}

proof fn lemma_run_facts(p: Pipeline, pc: PushConstants, groups: int)
    ensures
        dispatches_fenced(Simulator::run(p, pc, groups)),
        Simulator::run(p, pc, groups).len() == 3,
        Simulator::run(p, pc, groups).last() is Dispatch,
        Simulator::run(p, pc, groups)[0] is Bind,
        work_of(Simulator::run(p, pc, groups)) == Simulator::run(p, pc, groups),
{
    let r = Simulator::run(p, pc, groups);
    assert forall|i: int| 0 <= i < r.len() - 1 && (#[trigger] r[i]) is Dispatch implies r[i + 1] is Barrier by {
        assert(i == 0 || i == 1);
    }
    lemma_single_facts(r[0]);
    lemma_single_facts(r[1]);
    lemma_single_facts(r[2]);
    lemma_work_of_concat(seq![r[0]], seq![r[1]]);
    lemma_work_of_concat(seq![r[0]] + seq![r[1]], seq![r[2]]);
    assert(r =~= seq![r[0]] + seq![r[1]] + seq![r[2]]);
    assert(work_of(r) =~= r);
}

proof fn lemma_single_facts(c: Command)
    ensures
        dispatches_fenced(seq![c]),
        seq![c].last() == c,
        seq![c][0] == c,
        (c is Barrier || c is Fill) ==> work_of(seq![c]) == Seq::<Command>::empty(),
        !(c is Barrier || c is Fill) ==> work_of(seq![c]) == seq![c],
{
    assert(seq![c].drop_last() =~= Seq::<Command>::empty());
    assert(work_of(Seq::<Command>::empty()) == Seq::<Command>::empty());
    assert(work_of(seq![c]) == work_of(seq![c].drop_last()) + if c is Barrier || c is Fill {
        Seq::<Command>::empty()
    } else {
        seq![c]
    });
    assert(Seq::<Command>::empty() + Seq::<Command>::empty() =~= Seq::<Command>::empty());
    assert(Seq::<Command>::empty() + seq![c] =~= seq![c]);
}

proof fn lemma_bounds_reset_facts()
    ensures
        dispatches_fenced(Simulator::bounds_reset()),
        Simulator::bounds_reset().last() is Fill,
        work_of(Simulator::bounds_reset()) == Seq::<Command>::empty(),
{
    let b = Simulator::bounds_reset();
    lemma_single_facts(b[0]);
    lemma_single_facts(b[1]);
    lemma_work_of_concat(seq![b[0]], seq![b[1]]);
    assert(b =~= seq![b[0]] + seq![b[1]]);
    assert(work_of(b) =~= Seq::<Command>::empty());
}

/// Appending `b` to a fenced `a` keeps it fenced, when a dispatch at the end
/// of `a` is followed by a barrier; the result ends as `b` ends.
proof fn lemma_extend(a: Seq<Command>, b: Seq<Command>)
    requires
        dispatches_fenced(a),
        dispatches_fenced(b),
        b.len() > 0,
        a.len() > 0 && a.last() is Dispatch ==> b[0] is Barrier,
    ensures
        dispatches_fenced(a + b),
        (a + b).last() == b.last(),
        work_of(a + b) == work_of(a) + work_of(b),
{
    lemma_fenced_concat(a, b);
    lemma_work_of_concat(a, b);
}

impl Simulator {
    /// The commands of all seven timed passes, one after the other.
    pub open spec fn timed_all(self, ids: SimBuffers) -> Seq<Command> {
        self.timed_commands(ids, 0) + self.timed_commands(ids, 1) + self.timed_commands(ids, 2)
            + self.timed_commands(ids, 3) + self.timed_commands(ids, 4) + self.timed_commands(ids, 5)
            + self.timed_commands(ids, 6)
    }
}

/// In a frame every dispatch but the last is directly followed by a barrier,
/// and the frame ends with the integration dispatch.
pub proof fn lemma_frame_fenced(s: Simulator, ids: SimBuffers)
    ensures
        dispatches_fenced(s.frame_commands(ids)),
        s.frame_commands(ids).last() == (Command::Dispatch { x: s.groups() as u32, y: 1, z: 1 }),
{
    let sort = s.radix_sort.sort_commands(sort_buffers(ids));
    lemma_sort_commands_fenced(s.radix_sort, sort_buffers(ids));
    lemma_bounds_reset_facts();
    let bww = Simulator::barrier(Barrier::ComputeWriteToWrite);
    let bwr = Simulator::barrier(Barrier::ComputeWriteToRead);
    let btrw = Simulator::barrier(Barrier::TransferToReadWrite);
    let bwrw = Simulator::barrier(Barrier::ComputeWriteToReadWrite);
    let btw = Simulator::barrier(Barrier::TransferToWrite);
    lemma_single_facts(Command::Barrier(Barrier::ComputeWriteToWrite));
    lemma_single_facts(Command::Barrier(Barrier::ComputeWriteToRead));
    lemma_single_facts(Command::Barrier(Barrier::TransferToReadWrite));
    lemma_single_facts(Command::Barrier(Barrier::ComputeWriteToReadWrite));
    lemma_single_facts(Command::Barrier(Barrier::TransferToWrite));
    lemma_single_facts(s.tree_fill(TREE_FILL)[0]);
    lemma_single_facts(s.counter_fill()[0]);
    assert(s.tree_fill(TREE_FILL) == seq![s.tree_fill(TREE_FILL)[0]]);
    assert(s.counter_fill() == seq![s.counter_fill()[0]]);
    lemma_run_facts(Pipeline::Bounds, PushConstants::Bounds(s.bounds_pc(ids)), s.groups());
    lemma_run_facts(Pipeline::Morton, PushConstants::Morton(s.morton_pc(ids)), s.groups());
    lemma_run_facts(Pipeline::BuildTree, PushConstants::BuildTree(s.build_tree_pc(ids)), s.tree_groups());
    lemma_run_facts(Pipeline::ParentSet, PushConstants::Parents(s.parents_pc(ids)), s.tree_groups());
    lemma_run_facts(Pipeline::ComputeMass, PushConstants::ComputeMass(s.compute_mass_pc(ids)), s.groups());
    lemma_run_facts(Pipeline::Integrate, PushConstants::Integrate(s.integrate_pc(ids)), s.groups());

    let step1 = Simulator::bounds_reset();
    lemma_extend(step1, s.bounds_run(ids));
    let step2 = step1 + s.bounds_run(ids);
    lemma_extend(step2, bww);
    let step3 = step2 + bww;
    lemma_extend(step3, s.morton_run(ids));
    let step4 = step3 + s.morton_run(ids);
    lemma_extend(step4, bww);
    let step5 = step4 + bww;
    lemma_extend(step5, sort);
    let step6 = step5 + sort;
    lemma_extend(step6, bwr);
    let step7 = step6 + bwr;
    lemma_extend(step7, s.tree_fill(TREE_FILL));
    let step8 = step7 + s.tree_fill(TREE_FILL);
    lemma_extend(step8, btrw);
    let step9 = step8 + btrw;
    lemma_extend(step9, s.build_tree_run(ids));
    let step10 = step9 + s.build_tree_run(ids);
    lemma_extend(step10, bwrw);
    let step11 = step10 + bwrw;
    lemma_extend(step11, s.parents_run(ids));
    let step12 = step11 + s.parents_run(ids);
    lemma_extend(step12, bww);
    let step13 = step12 + bww;
    lemma_extend(step13, s.counter_fill());
    let step14 = step13 + s.counter_fill();
    lemma_extend(step14, btw);
    let step15 = step14 + btw;
    lemma_extend(step15, s.compute_mass_run(ids));
    let step16 = step15 + s.compute_mass_run(ids);
    lemma_extend(step16, bwr);
    let step17 = step16 + bwr;
    lemma_extend(step17, s.integrate_run(ids));
}

/// Timing the frame pass by pass does the frame's work: with barriers and
/// fills left out, the seven timed passes bind the same pipelines, push the
/// same constants and dispatch the same workgroups, in the same order, as
/// one recorded frame.
pub proof fn lemma_timed_passes_do_frame_work(s: Simulator, ids: SimBuffers)
    ensures
        work_of(s.timed_all(ids)) == work_of(s.frame_commands(ids)),
{
    let sort = s.radix_sort.sort_commands(sort_buffers(ids));
    lemma_bounds_reset_facts();
    let bww = Simulator::barrier(Barrier::ComputeWriteToWrite);
    let bwr = Simulator::barrier(Barrier::ComputeWriteToRead);
    let btrw = Simulator::barrier(Barrier::TransferToReadWrite);
    let bwrw = Simulator::barrier(Barrier::ComputeWriteToReadWrite);
    let btw = Simulator::barrier(Barrier::TransferToWrite);
    lemma_single_facts(Command::Barrier(Barrier::ComputeWriteToWrite));
    lemma_single_facts(Command::Barrier(Barrier::ComputeWriteToRead));
    lemma_single_facts(Command::Barrier(Barrier::TransferToReadWrite));
    lemma_single_facts(Command::Barrier(Barrier::ComputeWriteToReadWrite));
    lemma_single_facts(Command::Barrier(Barrier::TransferToWrite));
    lemma_single_facts(s.tree_fill(TREE_FILL)[0]);
    lemma_single_facts(s.tree_fill(0)[0]);
    lemma_single_facts(s.counter_fill()[0]);
    assert(s.tree_fill(TREE_FILL) == seq![s.tree_fill(TREE_FILL)[0]]);
    assert(s.tree_fill(0) == seq![s.tree_fill(0)[0]]);
    assert(s.counter_fill() == seq![s.counter_fill()[0]]);
    lemma_run_facts(Pipeline::Bounds, PushConstants::Bounds(s.bounds_pc(ids)), s.groups());
    lemma_run_facts(Pipeline::Morton, PushConstants::Morton(s.morton_pc(ids)), s.groups());
    lemma_run_facts(Pipeline::BuildTree, PushConstants::BuildTree(s.build_tree_pc(ids)), s.tree_groups());
    lemma_run_facts(Pipeline::ParentSet, PushConstants::Parents(s.parents_pc(ids)), s.tree_groups());
    lemma_run_facts(Pipeline::ComputeMass, PushConstants::ComputeMass(s.compute_mass_pc(ids)), s.groups());
    lemma_run_facts(Pipeline::Integrate, PushConstants::Integrate(s.integrate_pc(ids)), s.groups());
    let e = Seq::<Command>::empty();
    let ws = work_of(sort);
    let br = s.bounds_run(ids);
    let mr = s.morton_run(ids);
    let tr = s.build_tree_run(ids);
    let pr = s.parents_run(ids);
    let cr = s.compute_mass_run(ids);
    let ir = s.integrate_run(ids);

    // The frame, piece by piece.
    let step1 = Simulator::bounds_reset();
    lemma_work_of_concat(step1, br);
    let step2 = step1 + br;
    lemma_work_of_concat(step2, bww);
    let step3 = step2 + bww;
    lemma_work_of_concat(step3, mr);
    let step4 = step3 + mr;
    lemma_work_of_concat(step4, bww);
    let step5 = step4 + bww;
    lemma_work_of_concat(step5, sort);
    let step6 = step5 + sort;
    lemma_work_of_concat(step6, bwr);
    let step7 = step6 + bwr;
    lemma_work_of_concat(step7, s.tree_fill(TREE_FILL));
    let step8 = step7 + s.tree_fill(TREE_FILL);
    lemma_work_of_concat(step8, btrw);
    let step9 = step8 + btrw;
    lemma_work_of_concat(step9, tr);
    let step10 = step9 + tr;
    lemma_work_of_concat(step10, bwrw);
    let step11 = step10 + bwrw;
    lemma_work_of_concat(step11, pr);
    let step12 = step11 + pr;
    lemma_work_of_concat(step12, bww);
    let step13 = step12 + bww;
    lemma_work_of_concat(step13, s.counter_fill());
    let step14 = step13 + s.counter_fill();
    lemma_work_of_concat(step14, btw);
    let step15 = step14 + btw;
    lemma_work_of_concat(step15, cr);
    let step16 = step15 + cr;
    lemma_work_of_concat(step16, bwr);
    let step17 = step16 + bwr;
    lemma_work_of_concat(step17, ir);
    assert(work_of(s.frame_commands(ids)) =~= br + mr + ws + tr + pr + cr + ir);

    // The timed passes, piece by piece.
    let t0 = s.timed_commands(ids, 0);
    let t3 = s.timed_commands(ids, 3);
    let t5 = s.timed_commands(ids, 5);
    lemma_work_of_concat(step1, br);
    assert(work_of(t0) =~= br);
    lemma_work_of_concat(s.tree_fill(0), btrw);
    lemma_work_of_concat(s.tree_fill(0) + btrw, tr);
    assert(work_of(t3) =~= tr);
    lemma_work_of_concat(s.counter_fill(), btw);
    lemma_work_of_concat(s.counter_fill() + btw, cr);
    assert(work_of(t5) =~= cr);
    let g1 = t0 + mr;
    lemma_work_of_concat(t0, mr);
    let g2 = g1 + sort;
    lemma_work_of_concat(g1, sort);
    let g3 = g2 + t3;
    lemma_work_of_concat(g2, t3);
    let g4 = g3 + pr;
    lemma_work_of_concat(g3, pr);
    let g5 = g4 + t5;
    lemma_work_of_concat(g4, t5);
    lemma_work_of_concat(g5, ir);
    assert(s.timed_all(ids) == g5 + ir);
    assert(work_of(s.timed_all(ids)) =~= br + mr + ws + tr + pr + cr + ir);
}

/// The per-particle passes dispatch just enough 256-thread workgroups to cover
/// every particle, and the per-internal-node passes enough to cover the
/// `n - 1` internal nodes.
pub proof fn lemma_dispatch_covers_particles(s: Simulator)
    requires
        s.num_of_particles >= 1,
    ensures
        s.groups() * 256 >= s.num_of_particles,
        (s.groups() - 1) * 256 < s.num_of_particles,
        s.tree_groups() * 256 >= s.num_of_particles - 1,
        s.tree_groups() == 0 || (s.tree_groups() - 1) * 256 < s.num_of_particles - 1,
{
    lemma_ceil_div_covers(s.num_of_particles as int, 256);
    lemma_ceil_div_covers(s.num_of_particles - 1, 256);
}

proof fn lemma_frame_split(s: Simulator, ids: SimBuffers)
    ensures
        ({
            let head = Simulator::bounds_reset() + s.bounds_run(ids) + Simulator::barrier(
                Barrier::ComputeWriteToWrite,
            ) + s.morton_run(ids) + Simulator::barrier(Barrier::ComputeWriteToWrite);
            let tail = Simulator::barrier(Barrier::ComputeWriteToRead) + s.tree_fill(TREE_FILL)
                + Simulator::barrier(Barrier::TransferToReadWrite) + s.build_tree_run(ids)
                + Simulator::barrier(Barrier::ComputeWriteToReadWrite) + s.parents_run(ids)
                + Simulator::barrier(Barrier::ComputeWriteToWrite) + s.counter_fill()
                + Simulator::barrier(Barrier::TransferToWrite) + s.compute_mass_run(ids)
                + Simulator::barrier(Barrier::ComputeWriteToRead) + s.integrate_run(ids);
            &&& head.len() == 10
            &&& tail.len() == 20
            &&& s.frame_commands(ids) == head + s.radix_sort.sort_commands(sort_buffers(ids)) + tail
        }),
{
    let head = Simulator::bounds_reset() + s.bounds_run(ids) + Simulator::barrier(Barrier::ComputeWriteToWrite)
        + s.morton_run(ids) + Simulator::barrier(Barrier::ComputeWriteToWrite);
    let tail = Simulator::barrier(Barrier::ComputeWriteToRead) + s.tree_fill(TREE_FILL) + Simulator::barrier(
        Barrier::TransferToReadWrite,
    ) + s.build_tree_run(ids) + Simulator::barrier(Barrier::ComputeWriteToReadWrite) + s.parents_run(ids)
        + Simulator::barrier(Barrier::ComputeWriteToWrite) + s.counter_fill() + Simulator::barrier(
        Barrier::TransferToWrite,
    ) + s.compute_mass_run(ids) + Simulator::barrier(Barrier::ComputeWriteToRead) + s.integrate_run(ids);
    assert(s.frame_commands(ids) =~= head + s.radix_sort.sort_commands(sort_buffers(ids)) + tail);
}

/// The first ten commands of a frame: reset and compute the bounds, then the
/// Morton codes.
proof fn lemma_frame_head(s: Simulator, ids: SimBuffers)
    ensures
        Simulator::bounds_reset() + s.bounds_run(ids) + Simulator::barrier(Barrier::ComputeWriteToWrite)
            + s.morton_run(ids) + Simulator::barrier(Barrier::ComputeWriteToWrite) == seq![
            Command::Fill { buffer: BufferSlot::Bounds, offset: 0, size: 16, data: 0 },
            Command::Fill { buffer: BufferSlot::Bounds, offset: 16, size: 16, data: 0xFFFF_FFFF },
            Command::Bind(Pipeline::Bounds),
            Command::Push(PushConstants::Bounds(s.bounds_pc(ids))),
            Command::Dispatch { x: s.groups() as u32, y: 1, z: 1 },
            Command::Barrier(Barrier::ComputeWriteToWrite),
            Command::Bind(Pipeline::Morton),
            Command::Push(PushConstants::Morton(s.morton_pc(ids))),
            Command::Dispatch { x: s.groups() as u32, y: 1, z: 1 },
            Command::Barrier(Barrier::ComputeWriteToWrite),
        ],
{
    assert(Simulator::bounds_reset() + s.bounds_run(ids) + Simulator::barrier(Barrier::ComputeWriteToWrite)
        + s.morton_run(ids) + Simulator::barrier(Barrier::ComputeWriteToWrite) =~= seq![
        Command::Fill { buffer: BufferSlot::Bounds, offset: 0, size: 16, data: 0 },
        Command::Fill { buffer: BufferSlot::Bounds, offset: 16, size: 16, data: 0xFFFF_FFFF },
        Command::Bind(Pipeline::Bounds),
        Command::Push(PushConstants::Bounds(s.bounds_pc(ids))),
        Command::Dispatch { x: s.groups() as u32, y: 1, z: 1 },
        Command::Barrier(Barrier::ComputeWriteToWrite),
        Command::Bind(Pipeline::Morton),
        Command::Push(PushConstants::Morton(s.morton_pc(ids))),
        Command::Dispatch { x: s.groups() as u32, y: 1, z: 1 },
        Command::Barrier(Barrier::ComputeWriteToWrite),
    ]);
}

/// The last twenty commands of a frame, after the sort.
proof fn lemma_frame_tail(s: Simulator, ids: SimBuffers)
    ensures
        Simulator::barrier(Barrier::ComputeWriteToRead) + s.tree_fill(TREE_FILL) + Simulator::barrier(
            Barrier::TransferToReadWrite,
        ) + s.build_tree_run(ids) + Simulator::barrier(Barrier::ComputeWriteToReadWrite) + s.parents_run(ids)
            + Simulator::barrier(Barrier::ComputeWriteToWrite) + s.counter_fill() + Simulator::barrier(
            Barrier::TransferToWrite,
        ) + s.compute_mass_run(ids) + Simulator::barrier(Barrier::ComputeWriteToRead) + s.integrate_run(ids)
            == seq![
            Command::Barrier(Barrier::ComputeWriteToRead),
            Command::Fill {
                buffer: BufferSlot::Tree,
                offset: 0,
                size: (2 * s.num_of_particles * NODE_SIZE) as u64,
                data: TREE_FILL,
            },
            Command::Barrier(Barrier::TransferToReadWrite),
            Command::Bind(Pipeline::BuildTree),
            Command::Push(PushConstants::BuildTree(s.build_tree_pc(ids))),
            Command::Dispatch { x: s.tree_groups() as u32, y: 1, z: 1 },
            Command::Barrier(Barrier::ComputeWriteToReadWrite),
            Command::Bind(Pipeline::ParentSet),
            Command::Push(PushConstants::Parents(s.parents_pc(ids))),
            Command::Dispatch { x: s.tree_groups() as u32, y: 1, z: 1 },
            Command::Barrier(Barrier::ComputeWriteToWrite),
            Command::Fill {
                buffer: BufferSlot::Counter,
                offset: 0,
                size: ((s.num_of_particles - 1) * 4) as u64,
                data: 0,
            },
            Command::Barrier(Barrier::TransferToWrite),
            Command::Bind(Pipeline::ComputeMass),
            Command::Push(PushConstants::ComputeMass(s.compute_mass_pc(ids))),
            Command::Dispatch { x: s.groups() as u32, y: 1, z: 1 },
            Command::Barrier(Barrier::ComputeWriteToRead),
            Command::Bind(Pipeline::Integrate),
            Command::Push(PushConstants::Integrate(s.integrate_pc(ids))),
            Command::Dispatch { x: s.groups() as u32, y: 1, z: 1 },
        ],
{
    let t = Simulator::barrier(Barrier::ComputeWriteToRead) + s.tree_fill(TREE_FILL) + Simulator::barrier(
        Barrier::TransferToReadWrite,
    ) + s.build_tree_run(ids) + Simulator::barrier(Barrier::ComputeWriteToReadWrite) + s.parents_run(ids)
        + Simulator::barrier(Barrier::ComputeWriteToWrite) + s.counter_fill() + Simulator::barrier(
        Barrier::TransferToWrite,
    ) + s.compute_mass_run(ids) + Simulator::barrier(Barrier::ComputeWriteToRead) + s.integrate_run(ids);
    assert(t =~= seq![
        Command::Barrier(Barrier::ComputeWriteToRead),
        Command::Fill {
            buffer: BufferSlot::Tree,
            offset: 0,
            size: (2 * s.num_of_particles * NODE_SIZE) as u64,
            data: TREE_FILL,
        },
        Command::Barrier(Barrier::TransferToReadWrite),
        Command::Bind(Pipeline::BuildTree),
        Command::Push(PushConstants::BuildTree(s.build_tree_pc(ids))),
        Command::Dispatch { x: s.tree_groups() as u32, y: 1, z: 1 },
        Command::Barrier(Barrier::ComputeWriteToReadWrite),
        Command::Bind(Pipeline::ParentSet),
        Command::Push(PushConstants::Parents(s.parents_pc(ids))),
        Command::Dispatch { x: s.tree_groups() as u32, y: 1, z: 1 },
        Command::Barrier(Barrier::ComputeWriteToWrite),
        Command::Fill {
            buffer: BufferSlot::Counter,
            offset: 0,
            size: ((s.num_of_particles - 1) * 4) as u64,
            data: 0,
        },
        Command::Barrier(Barrier::TransferToWrite),
        Command::Bind(Pipeline::ComputeMass),
        Command::Push(PushConstants::ComputeMass(s.compute_mass_pc(ids))),
        Command::Dispatch { x: s.groups() as u32, y: 1, z: 1 },
        Command::Barrier(Barrier::ComputeWriteToRead),
        Command::Bind(Pipeline::Integrate),
        Command::Push(PushConstants::Integrate(s.integrate_pc(ids))),
        Command::Dispatch { x: s.groups() as u32, y: 1, z: 1 },
    ]);
}

/// Pass `p` of the frame's radix sort (at commands `10 + 8p ..`) sorts the
/// frame's Morton codes, carrying the frame's particle indices: even passes
/// read `ids.morton` and `ids.indices` and write the sort temporaries, odd
/// passes read the temporaries and write `ids.morton` and `ids.indices`.
pub proof fn lemma_frame_sort_pass(s: Simulator, ids: SimBuffers, p: int)
    requires
        0 <= p < 4,
    ensures
        s.frame_commands(ids).len() == 61,
        s.frame_commands(ids)[10 + 8 * p + 1] == Command::Push(
            PushConstants::Histogram(
                HistogramPc {
                    count: s.radix_sort.count,
                    shift: (8 * p) as u32,
                    workgroups: s.radix_sort.dispatch_x,
                    blocks_per_workgroup: s.radix_sort.blocks_per_wg,
                    in_buffer_id: if p % 2 == 0 { ids.morton } else { ids.sort_temp },
                    histogram_buffer_id: ids.sort_histogram,
                },
            ),
        ),
        s.frame_commands(ids)[10 + 8 * p + 5] == Command::Push(
            PushConstants::Sort(
                SortPc {
                    count: s.radix_sort.count,
                    shift: (8 * p) as u32,
                    workgroups: s.radix_sort.dispatch_x,
                    blocks_per_workgroup: s.radix_sort.blocks_per_wg,
                    in_buffer_id: if p % 2 == 0 { ids.morton } else { ids.sort_temp },
                    out_buffer_id: if p % 2 == 0 { ids.sort_temp } else { ids.morton },
                    in_index_id: if p % 2 == 0 { ids.indices } else { ids.sort_temp_indices },
                    out_index_id: if p % 2 == 0 { ids.sort_temp_indices } else { ids.indices },
                    histogram_buffer_id: ids.sort_histogram,
                },
            ),
        ),
{
    lemma_frame_split(s, ids);
    lemma_sort_pass_buffers(s.radix_sort, sort_buffers(ids), p);
    lemma_sort_commands_fenced(s.radix_sort, sort_buffers(ids));
    let sort = s.radix_sort.sort_commands(sort_buffers(ids));
    assert(s.frame_commands(ids)[10 + 8 * p + 1] == sort[8 * p + 1]);
    assert(s.frame_commands(ids)[10 + 8 * p + 5] == sort[8 * p + 5]);
}

/// The frame's passes and the buffers they use: reset the bounds, compute them,
/// compute the Morton codes from the particles and bounds, sort (commands
/// `10 .. 41`), then clear the tree, build it from the sorted Morton codes and
/// the particle indices that the sort left in `ids.indices`, set the parent
/// pointers, clear the counters, compute the centres of mass and integrate
/// the particles, every pass reading the index buffer that the sort wrote.
pub proof fn lemma_frame_layout(s: Simulator, ids: SimBuffers)
    ensures
        s.frame_commands(ids).len() == 61,
        s.frame_commands(ids)[0] == (Command::Fill { buffer: BufferSlot::Bounds, offset: 0, size: 16, data: 0 }),
        s.frame_commands(ids)[1] == (Command::Fill {
            buffer: BufferSlot::Bounds,
            offset: 16,
            size: 16,
            data: 0xFFFF_FFFF,
        }),
        s.frame_commands(ids)[2] == Command::Bind(Pipeline::Bounds),
        s.frame_commands(ids)[3] == Command::Push(
            PushConstants::Bounds(
                BoundsPc {
                    particle_buffer_id: ids.particles,
                    bounds_buffer_id: ids.bounds,
                    num_of_particles: s.num_of_particles,
                },
            ),
        ),
        s.frame_commands(ids)[4] == (Command::Dispatch { x: s.groups() as u32, y: 1, z: 1 }),
        s.frame_commands(ids)[6] == Command::Bind(Pipeline::Morton),
        s.frame_commands(ids)[7] == Command::Push(
            PushConstants::Morton(
                MortonPc {
                    particle_buffer_id: ids.particles,
                    morton_buffer_id: ids.morton,
                    num_of_particles: s.num_of_particles,
                    bounds_buffer: ids.bounds,
                },
            ),
        ),
        s.frame_commands(ids)[8] == (Command::Dispatch { x: s.groups() as u32, y: 1, z: 1 }),
        s.frame_commands(ids)[42] == (Command::Fill {
            buffer: BufferSlot::Tree,
            offset: 0,
            size: (2 * s.num_of_particles * NODE_SIZE) as u64,
            data: TREE_FILL,
        }),
        s.frame_commands(ids)[44] == Command::Bind(Pipeline::BuildTree),
        s.frame_commands(ids)[45] == Command::Push(
            PushConstants::BuildTree(
                BuildTreePc {
                    morton_buffer_id: ids.morton,
                    indices_buffer_id: ids.indices,
                    node_buffer_id: ids.tree,
                    num_of_particles: s.num_of_particles,
                },
            ),
        ),
        s.frame_commands(ids)[46] == (Command::Dispatch { x: s.tree_groups() as u32, y: 1, z: 1 }),
        s.frame_commands(ids)[48] == Command::Bind(Pipeline::ParentSet),
        s.frame_commands(ids)[49] == Command::Push(
            PushConstants::Parents(ParentsPc { node_buffer_id: ids.tree, num_of_particles: s.num_of_particles }),
        ),
        s.frame_commands(ids)[50] == (Command::Dispatch { x: s.tree_groups() as u32, y: 1, z: 1 }),
        s.frame_commands(ids)[52] == (Command::Fill {
            buffer: BufferSlot::Counter,
            offset: 0,
            size: ((s.num_of_particles - 1) * 4) as u64,
            data: 0,
        }),
        s.frame_commands(ids)[54] == Command::Bind(Pipeline::ComputeMass),
        s.frame_commands(ids)[55] == Command::Push(
            PushConstants::ComputeMass(
                ComputeMassPc {
                    particle_buffer_id: ids.particles,
                    indices_buffer_id: ids.indices,
                    node_buffer_id: ids.tree,
                    counter_buffer_id: ids.counter,
                    num_of_particles: s.num_of_particles,
                },
            ),
        ),
        s.frame_commands(ids)[56] == (Command::Dispatch { x: s.groups() as u32, y: 1, z: 1 }),
        s.frame_commands(ids)[58] == Command::Bind(Pipeline::Integrate),
        s.frame_commands(ids)[59] == Command::Push(
            PushConstants::Integrate(
                IntegratePc {
                    particle_buffer_id: ids.particles,
                    indices_buffer_id: ids.indices,
                    node_buffer_id: ids.tree,
                    num_of_particles: s.num_of_particles,
                },
            ),
        ),
        s.frame_commands(ids)[60] == (Command::Dispatch { x: s.groups() as u32, y: 1, z: 1 }),
        s.frame_commands(ids)[5] == Command::Barrier(Barrier::ComputeWriteToWrite),
        s.frame_commands(ids)[9] == Command::Barrier(Barrier::ComputeWriteToWrite),
        s.frame_commands(ids)[41] == Command::Barrier(Barrier::ComputeWriteToRead),
        s.frame_commands(ids)[43] == Command::Barrier(Barrier::TransferToReadWrite),
        s.frame_commands(ids)[47] == Command::Barrier(Barrier::ComputeWriteToReadWrite),
        s.frame_commands(ids)[51] == Command::Barrier(Barrier::ComputeWriteToWrite),
        s.frame_commands(ids)[53] == Command::Barrier(Barrier::TransferToWrite),
        s.frame_commands(ids)[57] == Command::Barrier(Barrier::ComputeWriteToRead),
        s.frame_commands(ids).subrange(10, 41) == s.radix_sort.sort_commands(
            SortBuffers {
                values: ids.morton,
                temp: ids.sort_temp,
                indices: ids.indices,
                temp_indices: ids.sort_temp_indices,
                histogram: ids.sort_histogram,
            },
        ),
        // The sort starts from the frame's own key and index buffers and ends in them,
        // which are the buffers the tree passes read.
        s.frame_commands(ids)[15] == Command::Push(
            PushConstants::Sort(
                SortPc {
                    count: s.radix_sort.count,
                    shift: 0,
                    workgroups: s.radix_sort.dispatch_x,
                    blocks_per_workgroup: s.radix_sort.blocks_per_wg,
                    in_buffer_id: ids.morton,
                    out_buffer_id: ids.sort_temp,
                    in_index_id: ids.indices,
                    out_index_id: ids.sort_temp_indices,
                    histogram_buffer_id: ids.sort_histogram,
                },
            ),
        ),
        s.frame_commands(ids)[39] == Command::Push(
            PushConstants::Sort(
                SortPc {
                    count: s.radix_sort.count,
                    shift: 24,
                    workgroups: s.radix_sort.dispatch_x,
                    blocks_per_workgroup: s.radix_sort.blocks_per_wg,
                    in_buffer_id: ids.sort_temp,
                    out_buffer_id: ids.morton,
                    in_index_id: ids.sort_temp_indices,
                    out_index_id: ids.indices,
                    histogram_buffer_id: ids.sort_histogram,
                },
            ),
        ),
{
    lemma_frame_split(s, ids);
    lemma_frame_head(s, ids);
    lemma_frame_tail(s, ids);
    lemma_sort_commands_fenced(s.radix_sort, sort_buffers(ids));
    lemma_frame_sort_pass(s, ids, 0);
    lemma_frame_sort_pass(s, ids, 3);
    assert(s.frame_commands(ids).subrange(10, 41) =~= s.radix_sort.sort_commands(sort_buffers(ids)));
}

/// The frame as its first ten commands, the sort, and its last twenty commands.
pub open spec fn frame_head(s: Simulator, ids: SimBuffers) -> Seq<Command> {
    seq![
        Command::Fill { buffer: BufferSlot::Bounds, offset: 0, size: 16, data: 0 },
        Command::Fill { buffer: BufferSlot::Bounds, offset: 16, size: 16, data: 0xFFFF_FFFF },
        Command::Bind(Pipeline::Bounds),
        Command::Push(PushConstants::Bounds(s.bounds_pc(ids))),
        Command::Dispatch { x: s.groups() as u32, y: 1, z: 1 },
        Command::Barrier(Barrier::ComputeWriteToWrite),
        Command::Bind(Pipeline::Morton),
        Command::Push(PushConstants::Morton(s.morton_pc(ids))),
        Command::Dispatch { x: s.groups() as u32, y: 1, z: 1 },
        Command::Barrier(Barrier::ComputeWriteToWrite),
    ]
}

/// The frame's last twenty commands, after the sort.
pub open spec fn frame_tail(s: Simulator, ids: SimBuffers) -> Seq<Command> {
    seq![
        Command::Barrier(Barrier::ComputeWriteToRead),
        Command::Fill {
            buffer: BufferSlot::Tree,
            offset: 0,
            size: (2 * s.num_of_particles * NODE_SIZE) as u64,
            data: TREE_FILL,
        },
        Command::Barrier(Barrier::TransferToReadWrite),
        Command::Bind(Pipeline::BuildTree),
        Command::Push(PushConstants::BuildTree(s.build_tree_pc(ids))),
        Command::Dispatch { x: s.tree_groups() as u32, y: 1, z: 1 },
        Command::Barrier(Barrier::ComputeWriteToReadWrite),
        Command::Bind(Pipeline::ParentSet),
        Command::Push(PushConstants::Parents(s.parents_pc(ids))),
        Command::Dispatch { x: s.tree_groups() as u32, y: 1, z: 1 },
        Command::Barrier(Barrier::ComputeWriteToWrite),
        Command::Fill {
            buffer: BufferSlot::Counter,
            offset: 0,
            size: ((s.num_of_particles - 1) * 4) as u64,
            data: 0,
        },
        Command::Barrier(Barrier::TransferToWrite),
        Command::Bind(Pipeline::ComputeMass),
        Command::Push(PushConstants::ComputeMass(s.compute_mass_pc(ids))),
        Command::Dispatch { x: s.groups() as u32, y: 1, z: 1 },
        Command::Barrier(Barrier::ComputeWriteToRead),
        Command::Bind(Pipeline::Integrate),
        Command::Push(PushConstants::Integrate(s.integrate_pc(ids))),
        Command::Dispatch { x: s.groups() as u32, y: 1, z: 1 },
    ]
}

proof fn lemma_frame_parts(s: Simulator, ids: SimBuffers)
    ensures
        s.frame_commands(ids) == frame_head(s, ids) + s.radix_sort.sort_commands(sort_buffers(ids))
            + frame_tail(s, ids),
        s.radix_sort.sort_commands(sort_buffers(ids)).len() == 31,
        s.frame_commands(ids).len() == 61,
{
    lemma_frame_split(s, ids);
    lemma_frame_head(s, ids);
    lemma_frame_tail(s, ids);
    lemma_sort_commands_fenced(s.radix_sort, sort_buffers(ids));
}

proof fn lemma_frame_range(s: Simulator, ids: SimBuffers, a: int, b: int, part: Seq<Command>, off: int)
    requires
        0 <= off,
        off + part.len() <= b - a + off,
        part.len() == b - a,
        (off == 0 && part == frame_head(s, ids).subrange(a, b) && b <= 10) || (off == 41 && part
            == frame_tail(s, ids).subrange(a - 41, b - 41) && 41 <= a && b <= 61),
        0 <= a <= b,
    ensures
        s.frame_commands(ids).subrange(a, b) == part,
{
    lemma_frame_parts(s, ids);
    let f = s.frame_commands(ids);
    let sort = s.radix_sort.sort_commands(sort_buffers(ids));
    assert forall|k: int| 0 <= k < b - a implies #[trigger] f.subrange(a, b)[k] == part[k] by {
        assert(f.subrange(a, b)[k] == f[a + k]);
        if off == 0 {
            assert(f[a + k] == frame_head(s, ids)[a + k]);
        } else {
            assert(f[a + k] == frame_tail(s, ids)[a + k - 41]);
        }
    }
    assert(f.subrange(a, b) =~= part);
}

/// The timed passes do what the frame does, pass for pass: each timed pass
/// holds the frame's commands for that pass, with the same buffer resets
/// before its dispatch (the bounds reset before the bounds pass, the counter
/// reset before the centre-of-mass pass, and the tree cleared over the same
/// range before the tree build, here to zero), and the timed sort is the
/// frame's sort over the same buffers.
pub proof fn lemma_timed_passes_match_frame(s: Simulator, ids: SimBuffers)
    ensures
        s.timed_commands(ids, 0) == s.frame_commands(ids).subrange(0, 5),
        s.timed_commands(ids, 0)[0] == (Command::Fill { buffer: BufferSlot::Bounds, offset: 0, size: 16, data: 0 }),
        s.timed_commands(ids, 0)[1] == (Command::Fill {
            buffer: BufferSlot::Bounds,
            offset: 16,
            size: 16,
            data: 0xFFFF_FFFF,
        }),
        s.timed_commands(ids, 1) == s.frame_commands(ids).subrange(6, 9),
        s.timed_commands(ids, 2) == s.frame_commands(ids).subrange(10, 41),
        s.timed_commands(ids, 3).len() == 5,
        s.timed_commands(ids, 3)[0] == (Command::Fill {
            buffer: BufferSlot::Tree,
            offset: 0,
            size: (2 * s.num_of_particles * NODE_SIZE) as u64,
            data: 0,
        }),
        s.frame_commands(ids)[42] == (Command::Fill {
            buffer: BufferSlot::Tree,
            offset: 0,
            size: (2 * s.num_of_particles * NODE_SIZE) as u64,
            data: TREE_FILL,
        }),
        s.timed_commands(ids, 3).subrange(1, 5) == s.frame_commands(ids).subrange(43, 47),
        s.timed_commands(ids, 4) == s.frame_commands(ids).subrange(48, 51),
        s.timed_commands(ids, 5) == s.frame_commands(ids).subrange(52, 57),
        s.timed_commands(ids, 6) == s.frame_commands(ids).subrange(58, 61),
{
    let h = frame_head(s, ids);
    let t = frame_tail(s, ids);
    assert(s.timed_commands(ids, 0) =~= h.subrange(0, 5));
    lemma_frame_range(s, ids, 0, 5, h.subrange(0, 5), 0);
    assert(s.timed_commands(ids, 1) =~= h.subrange(6, 9));
    lemma_frame_range(s, ids, 6, 9, h.subrange(6, 9), 0);
    lemma_frame_parts(s, ids);
    let f = s.frame_commands(ids);
    let sort = s.radix_sort.sort_commands(sort_buffers(ids));
    assert(f.subrange(10, 41) =~= sort);
    assert(s.timed_commands(ids, 3).subrange(1, 5) =~= t.subrange(2, 6));
    lemma_frame_range(s, ids, 43, 47, t.subrange(2, 6), 41);
    assert(s.timed_commands(ids, 4) =~= t.subrange(7, 10));
    lemma_frame_range(s, ids, 48, 51, t.subrange(7, 10), 41);
    assert(s.timed_commands(ids, 5) =~= t.subrange(11, 16));
    lemma_frame_range(s, ids, 52, 57, t.subrange(11, 16), 41);
    assert(s.timed_commands(ids, 6) =~= t.subrange(17, 20));
    lemma_frame_range(s, ids, 58, 61, t.subrange(17, 20), 41);
    assert(f[42] == t[1]);
}

/// The timed passes are named, in order, bounds, Morton, radix sort, tree
/// building, parent pointers, centres of mass and integration, and each
/// (but the sort) binds the pipeline it is named for.
pub proof fn lemma_timed_pass_names(s: Simulator, ids: SimBuffers)
    ensures
        Simulator::pass_name(0) == PassName::Bounds,
        Simulator::pass_name(1) == PassName::Morton,
        Simulator::pass_name(2) == PassName::RadixSort,
        Simulator::pass_name(3) == PassName::BuildTree,
        Simulator::pass_name(4) == PassName::ParentSet,
        Simulator::pass_name(5) == PassName::ComputeMass,
        Simulator::pass_name(6) == PassName::Integrate,
        s.timed_commands(ids, 0)[2] == Command::Bind(Pipeline::Bounds),
        s.timed_commands(ids, 1)[0] == Command::Bind(Pipeline::Morton),
        s.timed_commands(ids, 3)[2] == Command::Bind(Pipeline::BuildTree),
        s.timed_commands(ids, 4)[0] == Command::Bind(Pipeline::ParentSet),
        s.timed_commands(ids, 5)[2] == Command::Bind(Pipeline::ComputeMass),
        s.timed_commands(ids, 6)[0] == Command::Bind(Pipeline::Integrate),
{
    assert(s.timed_commands(ids, 0)[2] == s.bounds_run(ids)[0]);
    assert(s.timed_commands(ids, 3)[2] == s.build_tree_run(ids)[0]);
    assert(s.timed_commands(ids, 5)[2] == s.compute_mass_run(ids)[0]);
}

/// Appends the bind, push constants and dispatch of one pass.
fn push_run(cmds: &mut Vec<Command>, p: Pipeline, pc: PushConstants, groups: u32)
    ensures
        final(cmds)@ == old(cmds)@ + Simulator::run(p, pc, groups as int),
{
    cmds.push(Command::Bind(p));
    cmds.push(Command::Push(pc));
    cmds.push(Command::Dispatch { x: groups, y: 1, z: 1 });
    assert(cmds@ =~= old(cmds)@ + Simulator::run(p, pc, groups as int));
}

/// Appends a barrier.
fn push_barrier(cmds: &mut Vec<Command>, b: Barrier)
    ensures
        final(cmds)@ == old(cmds)@ + Simulator::barrier(b),
{
    cmds.push(Command::Barrier(b));
    assert(cmds@ =~= old(cmds)@ + Simulator::barrier(b));
}

/// Appends a fill of a whole buffer from offset 0.
fn push_fill(cmds: &mut Vec<Command>, buffer: BufferSlot, size: u64, data: u32)
    ensures
        final(cmds)@ == old(cmds)@ + seq![Command::Fill { buffer, offset: 0, size, data }],
{
    cmds.push(Command::Fill { buffer, offset: 0, size, data });
    assert(cmds@ =~= old(cmds)@ + seq![Command::Fill { buffer, offset: 0, size, data }]);
}

/// Appends the reset of the bounds buffer.
fn push_bounds_reset(cmds: &mut Vec<Command>)
    ensures
        final(cmds)@ == old(cmds)@ + Simulator::bounds_reset(),
{
    cmds.push(Command::Fill { buffer: BufferSlot::Bounds, offset: 0, size: 4 * 4, data: 0 });
    cmds.push(Command::Fill { buffer: BufferSlot::Bounds, offset: 4 * 4, size: 4 * 4, data: 0xFFFF_FFFF });
    assert(cmds@ =~= old(cmds)@ + Simulator::bounds_reset());
}

} // verus!
