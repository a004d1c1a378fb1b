use nbody_sim::commands::{Barrier, BufferSlot, Command, HistogramPc, Pipeline, PushConstants, SortPc};
use nbody_sim::dispatch::div_ceil_u32;
use nbody_sim::radix_sort::{RadixSorter, SortBuffers};
use nbody_sim::renderer::Renderer;
use nbody_sim::simulation::lod_grids::LodPyramid;
use nbody_sim::simulation::particle_simulation::{
    DownsampleParams, FieldBuffer, FieldCommand, FieldParams, ParticleSimulation,
};
use nbody_sim::simulator::{PassName, SimBuffers, Simulator, TREE_FILL};

fn sort_ids() -> SortBuffers {
    SortBuffers { values: 10, temp: 11, indices: 12, temp_indices: 13, histogram: 14 }
}

fn sim_ids() -> SimBuffers {
    SimBuffers {
        particles: 1,
        bounds: 2,
        morton: 3,
        indices: 4,
        tree: 5,
        counter: 6,
        sort_temp: 7,
        sort_temp_indices: 8,
        sort_histogram: 9,
    }
}

#[test]
fn div_ceil_values() {
    assert_eq!(div_ceil_u32(0, 256), 0);
    assert_eq!(div_ceil_u32(1, 256), 1);
    assert_eq!(div_ceil_u32(256, 256), 1);
    assert_eq!(div_ceil_u32(257, 256), 2);
    assert_eq!(div_ceil_u32(u32::MAX, 256), 16777216);
}

#[test]
fn radix_sorter_sizes() {
    let s = RadixSorter::new(1_000_000);
    assert_eq!(s.count, 1_000_000);
    assert_eq!(s.blocks_per_wg, 32);
    assert_eq!(s.dispatch_x, 123);
    assert_eq!(s.temp_buffer_size, 4_000_000);
    assert_eq!(s.histogram_buffer_size, 123 * 256 * 4);
    let small = RadixSorter::new(1);
    assert_eq!(small.dispatch_x, 1);
}

#[test]
fn radix_sort_ping_pongs_back_to_caller_buffers() {
    let s = RadixSorter::new(1 << 18);
    let cmds = s.record(&sort_ids());
    assert_eq!(cmds.len(), 31);
    let sorts: Vec<SortPc> = cmds
        .iter()
        .filter_map(|c| match c {
            Command::Push(PushConstants::Sort(pc)) => Some(*pc),
            _ => None,
        })
        .collect();
    assert_eq!(sorts.len(), 4);
    assert_eq!(sorts.iter().map(|p| p.shift).collect::<Vec<_>>(), vec![0, 8, 16, 24]);
    assert_eq!((sorts[0].in_buffer_id, sorts[0].out_buffer_id), (10, 11));
    assert_eq!((sorts[1].in_buffer_id, sorts[1].out_buffer_id), (11, 10));
    assert_eq!((sorts[3].out_buffer_id, sorts[3].out_index_id), (10, 12));
    assert_eq!(
        cmds[1],
        Command::Push(PushConstants::Histogram(HistogramPc {
            count: 1 << 18,
            shift: 0,
            workgroups: s.dispatch_x,
            blocks_per_workgroup: 32,
            in_buffer_id: 10,
            histogram_buffer_id: 14,
        }))
    );
    assert!(matches!(cmds[30], Command::Dispatch { .. }));
    for i in 0..cmds.len() - 1 {
        if let Command::Dispatch { .. } = cmds[i] {
            assert!(matches!(cmds[i + 1], Command::Barrier(_)));
        }
    }
}

#[test]
fn simulator_buffer_sizes() {
    let s = Simulator::new(1 << 20, 32);
    let n: u64 = 1 << 20;
    assert_eq!(s.num_of_particles, 1 << 20);
    assert_eq!(s.sizes.staging, 32 * n * 4);
    assert_eq!(s.sizes.particles, 32 * n);
    assert_eq!(s.sizes.bounds, 32);
    assert_eq!(s.sizes.morton, 4 * n);
    assert_eq!(s.sizes.tree, 2 * n * 64);
    assert_eq!(s.sizes.counter, (n - 1) * 4);
    assert_eq!(s.radix_sort.count, 1 << 20);
}

#[test]
fn simulation_frame_commands() {
    let s = Simulator::new(1000, 32);
    let cmds = s.record_simulation(&sim_ids());
    assert_eq!(cmds.len(), 10 + 31 + 20);
    assert_eq!(cmds[0], Command::Fill { buffer: BufferSlot::Bounds, offset: 0, size: 16, data: 0 });
    assert_eq!(cmds[1], Command::Fill { buffer: BufferSlot::Bounds, offset: 16, size: 16, data: 0xFFFF_FFFF });
    assert_eq!(cmds[4], Command::Dispatch { x: 4, y: 1, z: 1 });
    assert_eq!(cmds[42], Command::Fill { buffer: BufferSlot::Tree, offset: 0, size: 2 * 1000 * 64, data: TREE_FILL });
    assert_eq!(cmds[44], Command::Bind(Pipeline::BuildTree));
    assert_eq!(cmds[46], Command::Dispatch { x: 4, y: 1, z: 1 });
    assert_eq!(cmds[52], Command::Fill { buffer: BufferSlot::Counter, offset: 0, size: 999 * 4, data: 0 });
    assert_eq!(cmds[53], Command::Barrier(Barrier::TransferToWrite));
    assert_eq!(cmds[58], Command::Bind(Pipeline::Integrate));
    assert_eq!(*cmds.last().unwrap(), Command::Dispatch { x: 4, y: 1, z: 1 });
    // The sort inside the frame sorts the Morton codes, carrying the indices.
    assert_eq!(cmds[10], Command::Bind(Pipeline::Histogram));
}

#[test]
fn tree_passes_cover_internal_nodes() {
    let s = Simulator::new(257, 32);
    let cmds = s.record_simulation(&sim_ids());
    assert_eq!(cmds[4], Command::Dispatch { x: 2, y: 1, z: 1 });
    assert_eq!(cmds[46], Command::Dispatch { x: 1, y: 1, z: 1 });
}

#[test]
fn timed_passes_do_the_frame_work() {
    let s = Simulator::new(5000, 32);
    let frame = s.record_simulation(&sim_ids());
    let passes = s.record_and_time_simulation(&sim_ids());
    let names: Vec<PassName> = passes.iter().map(|p| p.name).collect();
    assert_eq!(
        names,
        vec![
            PassName::Bounds,
            PassName::Morton,
            PassName::RadixSort,
            PassName::BuildTree,
            PassName::ParentSet,
            PassName::ComputeMass,
            PassName::Integrate
        ]
    );
    let is_work = |c: &&Command| !matches!(c, Command::Barrier(_) | Command::Fill { .. });
    let frame_work: Vec<Command> = frame.iter().filter(is_work).cloned().collect();
    let timed_work: Vec<Command> =
        passes.iter().flat_map(|p| p.commands.iter()).filter(is_work).cloned().collect();
    assert_eq!(frame_work, timed_work);
    assert_eq!(passes[3].commands[0], Command::Fill { buffer: BufferSlot::Tree, offset: 0, size: 2 * 5000 * 64, data: 0 });
}

#[test]
fn lod_pyramid_levels() {
    let p = LodPyramid::new(256, 4);
    let res: Vec<u32> = p.lods.iter().map(|g| g.resolution).collect();
    let cells: Vec<u32> = p.lods.iter().map(|g| g.cell_size).collect();
    assert_eq!(res, vec![256, 128, 64, 32]);
    assert_eq!(cells, vec![4, 8, 16, 32]);
    assert_eq!(p.lods[0].buffer_size, 256 * 256 * 256 * 4);
    assert_eq!(p.lods[3].buffer_size, 32 * 32 * 32 * 4);
    for g in p.lods.iter() {
        assert_eq!(g.resolution * g.cell_size, 1024);
    }
}

#[test]
fn lod_pyramid_rounds_odd_sizes_down() {
    let p = LodPyramid::new(13, 1);
    let res: Vec<u32> = p.lods.iter().map(|g| g.resolution).collect();
    assert_eq!(res, vec![13, 6, 3, 1]);
}

#[test]
fn particle_simulation_step() {
    let s = ParticleSimulation::new(4096, 16, 1000);
    assert_eq!(s.lods.lods[0].resolution, 256);
    let cmds = s.record();
    assert_eq!(cmds.len(), 7 + 9 + 4);
    assert_eq!(cmds[0], FieldCommand::Fill { buffer: FieldBuffer::Lod(0), offset: 0, size: u64::MAX, data: 0 });
    assert_eq!(cmds[4], FieldCommand::Dispatch { x: 4, y: 1, z: 1 });
    assert_eq!(
        cmds[7],
        FieldCommand::Push(FieldParams::Downsample(DownsampleParams {
            src_res: 256,
            src_binding: 0,
            dst_res: 128,
            dst_binding: 1
        }))
    );
    assert_eq!(cmds[8], FieldCommand::Dispatch { x: 16, y: 16, z: 16 });
    assert_eq!(cmds[14], FieldCommand::Dispatch { x: 4, y: 4, z: 4 });
    assert!(matches!(cmds[19], FieldCommand::BufferBarrier { buffer: FieldBuffer::Particles, .. }));
}

#[test]
fn downsample_groups_round_up() {
    let s = ParticleSimulation::new(100, 1, 1);
    let cmds = s.record();
    assert_eq!(cmds[8], FieldCommand::Dispatch { x: 7, y: 7, z: 7 });
    assert_eq!(cmds[11], FieldCommand::Dispatch { x: 4, y: 4, z: 4 });
    assert_eq!(cmds[14], FieldCommand::Dispatch { x: 2, y: 2, z: 2 });
}

#[test]
fn renderer_draws_six_vertices_per_particle() {
    let mut r = Renderer::new(1 << 18, 1280, 720);
    let d = r.record_rendering();
    assert_eq!(d.vertex_count, 6 << 18);
    assert_eq!((d.instance_count, d.first_vertex, d.first_instance), (1, 0, 0));
    assert_eq!((d.area_width, d.area_height), (1280, 720));
    r.resize(800, 600);
    let d = r.record_rendering();
    assert_eq!((d.viewport_width, d.viewport_height, d.scissor_width, d.scissor_height), (800, 600, 800, 600));
    assert_eq!(r.num_of_particles, 1 << 18);
}

#[test]
fn frame_dispatches_are_fenced() {
    let s = Simulator::new(100_000, 32);
    let cmds = s.record_simulation(&sim_ids());
    for i in 0..cmds.len() - 1 {
        if let Command::Dispatch { .. } = cmds[i] {
            assert!(matches!(cmds[i + 1], Command::Barrier(_)), "dispatch at {} is not fenced", i);
        }
    }
    assert_eq!(*cmds.last().unwrap(), Command::Dispatch { x: 391, y: 1, z: 1 });
}
