//! Planning of one step of the grid simulation: clear the finest grid,
//! scatter particles into it, downsample level by level, then update the
//! particles from the grids.
use vstd::prelude::*;
use crate::dispatch::{ceil_div, lemma_ceil_div_covers};
use crate::simulation::lod_grids::{lod_level, LodPyramid, NO_OF_LODS};

verus! {

pub const LOD_0_BINDING: u32 = 0;
pub const LOD_1_BINDING: u32 = 1;
pub const LOD_2_BINDING: u32 = 2;
pub const LOD_3_BINDING: u32 = 3;

/// Pipeline stages named in buffer barriers.
#[derive(Clone, Copy, PartialEq, Eq, Structural, Debug)]
pub enum Stage {
    Transfer,
    ComputeShader,
}

/// Memory accesses named in buffer barriers.
#[derive(Clone, Copy, PartialEq, Eq, Structural, Debug)]
pub enum Access {
    TransferWrite,
    ShaderWrite,
    ShaderRead,
}

/// The buffers of the grid simulation: a level of the pyramid, or the particles.
#[derive(Clone, Copy, PartialEq, Eq, Structural, Debug)]
pub enum FieldBuffer {
    Lod(u32),
    Particles,
}

/// The compute pipelines of the grid simulation.
#[derive(Clone, Copy, PartialEq, Eq, Structural, Debug)]
pub enum FieldPipeline {
    Scatter,
    Downsample,
    Update,
}

#[derive(Clone, Copy, PartialEq, Eq, Structural, Debug)]
pub struct ScatterParams {
    pub cell_size: u32,
    pub grid_res: u32,
    pub num_of_particles: u32,
}

#[derive(Clone, Copy, PartialEq, Eq, Structural, Debug)]
pub struct DownsampleParams {
    pub src_res: u32,
    pub src_binding: u32,
    pub dst_res: u32,
    pub dst_binding: u32,
}

/// The integer parameters of the particle update; the time step and the
/// fall-off are added by the GPU layer.
#[derive(Clone, Copy, PartialEq, Eq, Structural, Debug)]
pub struct UpdateParams {
    pub cell_size: u32,
    pub lod_0_res: u32,
}

#[derive(Clone, Copy, PartialEq, Eq, Structural, Debug)]
pub enum FieldParams {
    Scatter(ScatterParams),
    Downsample(DownsampleParams),
    Update(UpdateParams),
}

/// One recorded command of the grid simulation.
#[derive(Clone, Copy, PartialEq, Eq, Structural, Debug)]
pub enum FieldCommand {
    Fill { buffer: FieldBuffer, offset: u64, size: u64, data: u32 },
    BufferBarrier {
        buffer: FieldBuffer,
        src_stage: Stage,
        dst_stage: Stage,
        src_access: Access,
        dst_access: Access,
    },
    Bind(FieldPipeline),
    Push(FieldParams),
    Dispatch { x: u32, y: u32, z: u32 },
}

/// The plan of the grid simulation.
#[derive(Clone, Copy, Debug)]
pub struct ParticleSimulation {
    pub lods: LodPyramid,
    pub num_of_particles: u32,
}

/// A barrier making compute writes to `buffer` visible to compute reads.
pub open spec fn compute_barrier(buffer: FieldBuffer) -> FieldCommand {
    FieldCommand::BufferBarrier {
        buffer,
        src_stage: Stage::ComputeShader,
        dst_stage: Stage::ComputeShader,
        src_access: Access::ShaderWrite,
        dst_access: Access::ShaderRead,
    }
}

/// Workgroups of 8 cells per axis covering a grid of `res` cells per side.
pub open spec fn cell_groups(res: u32) -> int {
    ceil_div(res as int, 8)
}

impl ParticleSimulation {
    /// Parameters of the downsampling into level `l` (from level `l - 1`).
    pub open spec fn downsample_params(self, l: int) -> DownsampleParams {
        DownsampleParams {
            src_res: self.lods.lods[l - 1].resolution,
            src_binding: (l - 1) as u32,
            dst_res: self.lods.lods[l].resolution,
            dst_binding: l as u32,
        }
    }

    /// The commands that downsample into level `l`.
    pub open spec fn downsample_commands(self, l: int) -> Seq<FieldCommand> {
        let c = cell_groups(self.lods.lods[l].resolution) as u32;
        seq![
            FieldCommand::Push(FieldParams::Downsample(self.downsample_params(l))),
            FieldCommand::Dispatch { x: c, y: c, z: c },
            compute_barrier(FieldBuffer::Lod(l as u32)),
        ]
    }

    /// Workgroups of the per-particle passes.
    pub open spec fn groups(self) -> int {
        ceil_div(self.num_of_particles as int, 256)
    }

    /// The commands of one simulation step.
    pub open spec fn step_commands(self) -> Seq<FieldCommand> {
        let lod0 = self.lods.lods[0];
        seq![
            FieldCommand::Fill { buffer: FieldBuffer::Lod(0), offset: 0, size: u64::MAX, data: 0 },
            FieldCommand::BufferBarrier {
                buffer: FieldBuffer::Lod(0),
                src_stage: Stage::Transfer,
                dst_stage: Stage::ComputeShader,
                src_access: Access::TransferWrite,
                dst_access: Access::ShaderWrite,
            },
            FieldCommand::Bind(FieldPipeline::Scatter),
            FieldCommand::Push(
                FieldParams::Scatter(
                    ScatterParams {
                        cell_size: lod0.cell_size,
                        grid_res: lod0.resolution,
                        num_of_particles: self.num_of_particles,
                    },
                ),
            ),
            FieldCommand::Dispatch { x: self.groups() as u32, y: 1, z: 1 },
            compute_barrier(FieldBuffer::Lod(0)),
            FieldCommand::Bind(FieldPipeline::Downsample),
        ] + self.downsample_commands(1) + self.downsample_commands(2) + self.downsample_commands(3)
            + seq![
            FieldCommand::Bind(FieldPipeline::Update),
            FieldCommand::Push(
                FieldParams::Update(UpdateParams { cell_size: lod0.cell_size, lod_0_res: lod0.resolution }),
            ),
            FieldCommand::Dispatch { x: self.groups() as u32, y: 1, z: 1 },
            compute_barrier(FieldBuffer::Particles),
        ]
    }

    /// Plans the simulation over a world `grid_size` units wide with cells
    /// `cell_size` units wide: the finest level has `grid_size / cell_size`
    /// cells per side.
    pub fn new(grid_size: u32, cell_size: u32, num_of_particles: u32) -> (s: ParticleSimulation)
        requires
            cell_size > 0,
            (grid_size / cell_size) * (grid_size / cell_size) * (grid_size / cell_size) * 4 <= u64::MAX,
        ensures
            s.num_of_particles == num_of_particles,
            forall|i: int|
                0 <= i < NO_OF_LODS ==> #[trigger] s.lods.lods[i] == lod_level(
                    grid_size / cell_size,
                    cell_size,
                    i,
                ),
    {
        let lods = LodPyramid::new(grid_size / cell_size, cell_size);
        ParticleSimulation { lods, num_of_particles }
    }

    /// Records one step: clear level 0, scatter the particles into it,
    /// downsample into levels 1 to 3, and update the particles.
    pub fn record(&self) -> (cmds: Vec<FieldCommand>)
        requires
            self.num_of_particles + 255 <= u32::MAX,
        ensures
            cmds@ == self.step_commands(),
    {
        let groups: u32 = (self.num_of_particles + 255) / 256;
        let lod0 = self.lods.lods[0];
        let mut cmds: Vec<FieldCommand> = Vec::new();
        cmds.push(FieldCommand::Fill { buffer: FieldBuffer::Lod(0), offset: 0, size: u64::MAX, data: 0 });
        cmds.push(FieldCommand::BufferBarrier {
            buffer: FieldBuffer::Lod(0),
            src_stage: Stage::Transfer,
            dst_stage: Stage::ComputeShader,
            src_access: Access::TransferWrite,
            dst_access: Access::ShaderWrite,
        });
        cmds.push(FieldCommand::Bind(FieldPipeline::Scatter));
        cmds.push(FieldCommand::Push(FieldParams::Scatter(ScatterParams {
            cell_size: lod0.cell_size,
            grid_res: lod0.resolution,
            num_of_particles: self.num_of_particles,
        })));
        cmds.push(FieldCommand::Dispatch { x: groups, y: 1, z: 1 });
        cmds.push(FieldCommand::BufferBarrier {
            buffer: FieldBuffer::Lod(0),
            src_stage: Stage::ComputeShader,
            dst_stage: Stage::ComputeShader,
            src_access: Access::ShaderWrite,
            dst_access: Access::ShaderRead,
        });
        cmds.push(FieldCommand::Bind(FieldPipeline::Downsample));

        self.push_downsample(&mut cmds, LOD_0_BINDING, LOD_1_BINDING);
        self.push_downsample(&mut cmds, LOD_1_BINDING, LOD_2_BINDING);
        self.push_downsample(&mut cmds, LOD_2_BINDING, LOD_3_BINDING);

        cmds.push(FieldCommand::Bind(FieldPipeline::Update));
        cmds.push(FieldCommand::Push(FieldParams::Update(UpdateParams {
            cell_size: lod0.cell_size,
            lod_0_res: lod0.resolution,
        })));
        cmds.push(FieldCommand::Dispatch { x: groups, y: 1, z: 1 });
        cmds.push(FieldCommand::BufferBarrier {
            buffer: FieldBuffer::Particles,
            src_stage: Stage::ComputeShader,
            dst_stage: Stage::ComputeShader,
            src_access: Access::ShaderWrite,
            dst_access: Access::ShaderRead,
        });
        assert(cmds@ =~= self.step_commands());
        cmds
    }

    /// Appends the downsampling from level `src` into level `dst = src + 1`.
    fn push_downsample(&self, cmds: &mut Vec<FieldCommand>, src: u32, dst: u32)
        requires
            dst < NO_OF_LODS,
            src + 1 == dst,
        ensures
            final(cmds)@ == old(cmds)@ + self.downsample_commands(dst as int),
    {
        let src_grid = self.lods.lods[src as usize];
        let dst_grid = self.lods.lods[dst as usize];
        let c: u32 = (dst_grid.resolution / 8) + if dst_grid.resolution % 8 == 0 { 0 } else { 1 };
        proof {
            let r = dst_grid.resolution as int;
            assert(c == cell_groups(dst_grid.resolution)) by (nonlinear_arith)
                requires
                    c == r / 8 + if r % 8 == 0 { 0int } else { 1int },
                    cell_groups(dst_grid.resolution) == (r + 8 - 1) / 8,
                    r >= 0;
        }
        cmds.push(FieldCommand::Push(FieldParams::Downsample(DownsampleParams {
            src_binding: src,
            dst_binding: dst,
            src_res: src_grid.resolution,
            dst_res: dst_grid.resolution,
        })));
        cmds.push(FieldCommand::Dispatch { x: c, y: c, z: c });
        cmds.push(FieldCommand::BufferBarrier {
            buffer: FieldBuffer::Lod(dst),
            src_stage: Stage::ComputeShader,
            dst_stage: Stage::ComputeShader,
            src_access: Access::ShaderWrite,
            dst_access: Access::ShaderRead,
        });
        assert(cmds@ =~= old(cmds)@ + self.downsample_commands(dst as int));
    }
}

/// Each downsampling step reads the level the previous step wrote (the first
/// reads level 0, filled by the scatter), writes the next level, and is
/// followed by a barrier on the level it wrote; its workgroups of 8 cells per
/// axis cover the level it writes.
pub proof fn lemma_downsample_chain(s: ParticleSimulation, l: int)
    requires
        1 <= l < NO_OF_LODS,
    ensures
        s.downsample_params(l).src_binding == l - 1,
        s.downsample_params(l).dst_binding == l,
        l > 1 ==> s.downsample_params(l).src_binding == s.downsample_params(l - 1).dst_binding,
        l > 1 ==> s.downsample_params(l).src_res == s.downsample_params(l - 1).dst_res,
        s.downsample_commands(l)[2] == compute_barrier(FieldBuffer::Lod(s.downsample_params(l).dst_binding)),
        cell_groups(s.downsample_params(l).dst_res) * 8 >= s.downsample_params(l).dst_res,
{
    lemma_ceil_div_covers(s.downsample_params(l).dst_res as int, 8);
}

/// One simulation step, on the pyramid's fields: clear level 0, scatter the
/// particles into level 0 with level 0's cell size and resolution, downsample
/// into levels 1, 2 and 3 (see `lemma_step_downsample`), then update the
/// particles from the grids with the same level-0 cell size and resolution
/// the scatter used; each compute pass is followed by a barrier on what it
/// wrote, and the per-particle passes dispatch enough 256-thread groups to
/// cover every particle.
pub proof fn lemma_step_layout(s: ParticleSimulation)
    ensures
        s.step_commands().len() == 20,
        s.step_commands()[0] == (FieldCommand::Fill {
            buffer: FieldBuffer::Lod(0),
            offset: 0,
            size: u64::MAX,
            data: 0,
        }),
        s.step_commands()[1] == (FieldCommand::BufferBarrier {
            buffer: FieldBuffer::Lod(0),
            src_stage: Stage::Transfer,
            dst_stage: Stage::ComputeShader,
            src_access: Access::TransferWrite,
            dst_access: Access::ShaderWrite,
        }),
        s.step_commands()[2] == FieldCommand::Bind(FieldPipeline::Scatter),
        s.step_commands()[3] == FieldCommand::Push(
            FieldParams::Scatter(
                ScatterParams {
                    cell_size: s.lods.lods[0].cell_size,
                    grid_res: s.lods.lods[0].resolution,
                    num_of_particles: s.num_of_particles,
                },
            ),
        ),
        s.step_commands()[4] matches FieldCommand::Dispatch { x, y, z } && y == 1 && z == 1 && x * 256
            >= s.num_of_particles && (x - 1) * 256 < s.num_of_particles,
        s.step_commands()[5] == compute_barrier(FieldBuffer::Lod(0)),
        s.step_commands()[6] == FieldCommand::Bind(FieldPipeline::Downsample),
        s.step_commands()[16] == FieldCommand::Bind(FieldPipeline::Update),
        s.step_commands()[17] == FieldCommand::Push(
            FieldParams::Update(
                UpdateParams { cell_size: s.lods.lods[0].cell_size, lod_0_res: s.lods.lods[0].resolution },
            ),
        ),
        s.step_commands()[18] == s.step_commands()[4],
        s.step_commands()[19] == compute_barrier(FieldBuffer::Particles),
{
    lemma_ceil_div_covers(s.num_of_particles as int, 256);
    assert(s.groups() <= u32::MAX) by {
        assert(s.groups() * 256 < s.num_of_particles + 256);
    }
}

/// Downsampling into level `l` (commands `7 + 3(l - 1) ..`): it reads level
/// `l - 1` (binding and resolution) and writes level `l`, dispatches
/// 8-cell groups along each axis just covering level `l`, and is followed by
/// a barrier on level `l`.
pub proof fn lemma_step_downsample(s: ParticleSimulation, l: int)
    requires
        1 <= l < NO_OF_LODS,
    ensures
        s.step_commands()[7 + 3 * (l - 1)] == FieldCommand::Push(
            FieldParams::Downsample(
                DownsampleParams {
                    src_res: s.lods.lods[l - 1].resolution,
                    src_binding: (l - 1) as u32,
                    dst_res: s.lods.lods[l].resolution,
                    dst_binding: l as u32,
                },
            ),
        ),
        s.step_commands()[8 + 3 * (l - 1)] matches FieldCommand::Dispatch { x, y, z } && x == y && y == z && x
            * 8 >= s.lods.lods[l].resolution && (x - 1) * 8 < s.lods.lods[l].resolution,
        s.step_commands()[9 + 3 * (l - 1)] == compute_barrier(FieldBuffer::Lod(l as u32)),
{
    let r = s.lods.lods[l].resolution as int;
    lemma_ceil_div_covers(r, 8);
    assert(cell_groups(s.lods.lods[l].resolution) <= u32::MAX) by {
        assert(cell_groups(s.lods.lods[l].resolution) * 8 < r + 8);
    }
    let d = s.downsample_commands(l);
    assert(s.step_commands()[7 + 3 * (l - 1)] == d[0]);
    assert(s.step_commands()[8 + 3 * (l - 1)] == d[1]);
    assert(s.step_commands()[9 + 3 * (l - 1)] == d[2]);
}

} // verus!
