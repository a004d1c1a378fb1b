//! Planning of the GPU least-significant-digit radix sort: four passes over
//! 8-bit digits of 32-bit keys, each a histogram pass and a scatter pass,
//! ping-ponging between the caller's buffers and the sorter's own.
use vstd::prelude::*;
use crate::commands::{
    Barrier, Command, HistogramPc, Pipeline, PushConstants, SortPc, dispatches_fenced, lemma_fenced_concat,
};
use crate::dispatch::ceil_div;

verus! {

/// Key blocks handled by one workgroup.
pub const BLOCKS_PER_WORKGROUP: u32 = 32;

/// Threads per workgroup of the sort shaders.
pub const SORT_WORKGROUP_SIZE: u32 = 256;

/// Number of digit passes.
pub const RADIX_PASSES: u32 = 4;

/// Bits per digit.
pub const DIGIT_BITS: u32 = 8;

/// Sizes and dispatch parameters of a radix sorter for `count` keys.
#[derive(Clone, Copy, PartialEq, Eq, Structural, Debug)]
pub struct RadixSorter {
    pub count: u32,
    pub blocks_per_wg: u32,
    pub dispatch_x: u32,
    /// Bytes of the temporary key buffer.
    pub temp_buffer_size: u64,
    /// Bytes of the temporary index buffer.
    pub temp_index_buffer_size: u64,
    /// Bytes of the per-workgroup digit histogram buffer.
    pub histogram_buffer_size: u64,
}

/// Descriptor indices of the buffers a sort reads and writes: the caller's
/// keys and indices, and the sorter's temporaries and histogram.
#[derive(Clone, Copy, PartialEq, Eq, Structural, Debug)]
pub struct SortBuffers {
    pub values: u32,
    pub temp: u32,
    pub indices: u32,
    pub temp_indices: u32,
    pub histogram: u32,
}

/// The key buffer read by pass `pass`: the caller's on even passes, the
/// temporary on odd ones.
pub open spec fn src_values(ids: SortBuffers, pass: int) -> u32 {
    if pass % 2 == 0 { ids.values } else { ids.temp }
}

/// The key buffer written by pass `pass`.
pub open spec fn dst_values(ids: SortBuffers, pass: int) -> u32 {
    if pass % 2 == 0 { ids.temp } else { ids.values }
}

/// The index buffer read by pass `pass`.
pub open spec fn src_indices(ids: SortBuffers, pass: int) -> u32 {
    if pass % 2 == 0 { ids.indices } else { ids.temp_indices }
}

/// The index buffer written by pass `pass`.
pub open spec fn dst_indices(ids: SortBuffers, pass: int) -> u32 {
    if pass % 2 == 0 { ids.temp_indices } else { ids.indices }
}

impl RadixSorter {
    /// Push constants of the histogram step of pass `pass`.
    pub open spec fn histogram_pc(self, ids: SortBuffers, pass: int) -> HistogramPc {
        HistogramPc {
            count: self.count,
            shift: (pass * 8) as u32,
            workgroups: self.dispatch_x,
            blocks_per_workgroup: self.blocks_per_wg,
            in_buffer_id: src_values(ids, pass),
            histogram_buffer_id: ids.histogram,
        }
    }

    /// Push constants of the scatter step of pass `pass`.
    pub open spec fn sort_pc(self, ids: SortBuffers, pass: int) -> SortPc {
        SortPc {
            count: self.count,
            shift: (pass * 8) as u32,
            workgroups: self.dispatch_x,
            blocks_per_workgroup: self.blocks_per_wg,
            in_buffer_id: src_values(ids, pass),
            out_buffer_id: dst_values(ids, pass),
            in_index_id: src_indices(ids, pass),
            out_index_id: dst_indices(ids, pass),
            histogram_buffer_id: ids.histogram,
        }
    }

    /// The commands of pass `pass`: histogram, barrier, scatter, and a barrier
    /// before the next pass (none after the last).
    pub open spec fn pass_commands(self, ids: SortBuffers, pass: int) -> Seq<Command> {
        seq![
            Command::Bind(Pipeline::Histogram),
            Command::Push(PushConstants::Histogram(self.histogram_pc(ids, pass))),
            Command::Dispatch { x: self.dispatch_x, y: 1, z: 1 },
            Command::Barrier(Barrier::ComputeWriteToRead),
            Command::Bind(Pipeline::Sort),
            Command::Push(PushConstants::Sort(self.sort_pc(ids, pass))),
            Command::Dispatch { x: self.dispatch_x, y: 1, z: 1 },
        ] + if pass < 3 {
            seq![Command::Barrier(Barrier::ComputeWriteToRead)]
        } else {
            Seq::empty()
        }
    }

    /// The commands of the first `n` passes.
    pub open spec fn commands_upto(self, ids: SortBuffers, n: int) -> Seq<Command>
        decreases n,
    {
        if n <= 0 {
            Seq::empty()
        } else {
            self.commands_upto(ids, n - 1) + self.pass_commands(ids, n - 1)
        }
    }

    /// All commands of a sort.
    pub open spec fn sort_commands(self, ids: SortBuffers) -> Seq<Command> {
        self.commands_upto(ids, 4)
    }

    /// Plans a sorter for `count` keys (taken as a `u32`): 32 key blocks per
    /// workgroup, enough workgroups of 256 threads to cover them, temporaries
    /// of 4 bytes per key and a histogram of 256 4-byte counters per workgroup.
    pub fn new(count: usize) -> (s: RadixSorter)
        requires
            (count as u32) + BLOCKS_PER_WORKGROUP <= u32::MAX,
            count * 4 <= u64::MAX,
        ensures
            s.count == count as u32,
            s.blocks_per_wg == BLOCKS_PER_WORKGROUP,
            s.dispatch_x == ceil_div(ceil_div(count as u32 as int, 32), 256),
            s.temp_buffer_size == count * 4,
            s.temp_index_buffer_size == count * 4,
            s.histogram_buffer_size == s.dispatch_x * 256 * 4,
            s.dispatch_x * 256 * 32 >= s.count,
            s.count > 0 ==> (s.dispatch_x - 1) * 256 * 32 < s.count,
            s.count == 0 ==> s.dispatch_x == 0,
    {
        let blocks_per_wg: u32 = BLOCKS_PER_WORKGROUP;
        let c: u32 = count as u32;
        let global_inv: u32 = (c + blocks_per_wg - 1) / blocks_per_wg;
        let groups: u32 = (global_inv + 255) / 256;
        proof {
            assert(global_inv * 32 >= c) by (nonlinear_arith)
                requires global_inv == (c + 31) / 32;
            assert(groups * 256 >= global_inv) by (nonlinear_arith)
                requires groups == (global_inv + 255) / 256;
            assert(groups * 256 * 32 >= c) by (nonlinear_arith)
                requires groups * 256 >= global_inv, global_inv * 32 >= c;
            assert(c > 0 ==> (groups - 1) * 256 * 32 < c) by (nonlinear_arith)
                requires groups == (global_inv + 255) / 256, global_inv == (c + 31) / 32;
            assert(c == 0 ==> groups == 0) by (nonlinear_arith)
                requires groups == (global_inv + 255) / 256, global_inv == (c + 31) / 32;
        }
        RadixSorter {
            count: c,
            blocks_per_wg,
            dispatch_x: groups,
            temp_buffer_size: count as u64 * 4,
            temp_index_buffer_size: count as u64 * 4,
            histogram_buffer_size: groups as u64 * 256 * 4,
        }
    }

    /// Records the four passes of the sort of the keys in `ids.values`,
    /// carrying `ids.indices` along.
    pub fn record(&self, ids: &SortBuffers) -> (cmds: Vec<Command>)
        ensures
            cmds@ == self.sort_commands(*ids),
    {
        let val_buffers: [u32; 2] = [ids.values, ids.temp];
        let index_buffers: [u32; 2] = [ids.indices, ids.temp_indices];
        let mut cmds: Vec<Command> = Vec::new();
        let mut pass: u32 = 0;
        while pass < 4
            invariant
                pass <= 4,
                cmds@ == self.commands_upto(*ids, pass as int),
                val_buffers@ == seq![ids.values, ids.temp],
                index_buffers@ == seq![ids.indices, ids.temp_indices],
            decreases 4 - pass,
        {
            let ghost before = cmds@;
            let shift: u32 = pass * 8;
            let src_val = val_buffers[(pass % 2) as usize];
            let dst_val = val_buffers[((pass + 1) % 2) as usize];
            let src_index = index_buffers[(pass % 2) as usize];
            let dst_index = index_buffers[((pass + 1) % 2) as usize];

            cmds.push(Command::Bind(Pipeline::Histogram));
            cmds.push(
                Command::Push(
                    PushConstants::Histogram(
                        HistogramPc {
                            count: self.count,
                            shift,
                            workgroups: self.dispatch_x,
                            blocks_per_workgroup: self.blocks_per_wg,
                            in_buffer_id: src_val,
                            histogram_buffer_id: ids.histogram,
                        },
                    ),
                ),
            );
            cmds.push(Command::Dispatch { x: self.dispatch_x, y: 1, z: 1 });
            cmds.push(Command::Barrier(Barrier::ComputeWriteToRead));
            cmds.push(Command::Bind(Pipeline::Sort));
            cmds.push(
                Command::Push(
                    PushConstants::Sort(
                        SortPc {
                            count: self.count,
                            shift,
                            workgroups: self.dispatch_x,
                            blocks_per_workgroup: self.blocks_per_wg,
                            in_buffer_id: src_val,
                            out_buffer_id: dst_val,
                            in_index_id: src_index,
                            out_index_id: dst_index,
                            histogram_buffer_id: ids.histogram,
                        },
                    ),
                ),
            );
            cmds.push(Command::Dispatch { x: self.dispatch_x, y: 1, z: 1 });
            if pass < 3 {
                cmds.push(Command::Barrier(Barrier::ComputeWriteToRead));
            }
            assert(cmds@ =~= before + self.pass_commands(*ids, pass as int));
            pass += 1;
        }
        cmds
    }
}

/// Whether the 8-bit digit at `shift` holds key bit `b`.
pub open spec fn digit_covers(shift: u32, b: int) -> bool {
    shift <= b < shift + 8
}

/// After the four passes the sorted keys and their indices are back in the
/// caller's buffers; every pass reads what the one before it wrote, and the
/// first reads the caller's buffers.
pub proof fn lemma_sort_ends_in_caller_buffers(s: RadixSorter, ids: SortBuffers)
    ensures
        s.sort_pc(ids, 0).in_buffer_id == ids.values,
        s.sort_pc(ids, 0).in_index_id == ids.indices,
        s.histogram_pc(ids, 0).in_buffer_id == ids.values,
        s.sort_pc(ids, 3).out_buffer_id == ids.values,
        s.sort_pc(ids, 3).out_index_id == ids.indices,
        forall|p: int|
            0 <= p < 3 ==> {
                &&& (#[trigger] s.sort_pc(ids, p + 1)).in_buffer_id == s.sort_pc(ids, p).out_buffer_id
                &&& s.sort_pc(ids, p + 1).in_index_id == s.sort_pc(ids, p).out_index_id
                &&& s.histogram_pc(ids, p + 1).in_buffer_id == s.sort_pc(ids, p).out_buffer_id
            },
{
}

/// The digits of the four passes, 8 bits at shifts 0, 8, 16 and 24, cover
/// every bit of a 32-bit key exactly once.
pub proof fn lemma_digits_cover_key(s: RadixSorter, ids: SortBuffers)
    ensures
        forall|p: int| 0 <= p < 4 ==> (#[trigger] s.sort_pc(ids, p)).shift == 8 * p,
        forall|p: int| 0 <= p < 4 ==> (#[trigger] s.histogram_pc(ids, p)).shift == 8 * p,
        forall|b: int|
            0 <= b < 32 ==> 0 <= #[trigger] (b / 8) < 4 && digit_covers(s.sort_pc(ids, b / 8).shift, b),
        forall|b: int, p: int, q: int|
            0 <= p < 4 && 0 <= q < 4 && #[trigger] digit_covers(s.sort_pc(ids, p).shift, b)
                && #[trigger] digit_covers(s.sort_pc(ids, q).shift, b) ==> p == q,
{
}

proof fn lemma_commands_upto_fenced(s: RadixSorter, ids: SortBuffers, n: int)
    requires
        0 <= n <= 4,
    ensures
        dispatches_fenced(s.commands_upto(ids, n)),
        s.commands_upto(ids, n).len() == if n < 4 { 8 * n } else { 31 },
        0 < n < 4 ==> s.commands_upto(ids, n).last() is Barrier,
        n == 4 ==> s.commands_upto(ids, n).last() == (Command::Dispatch { x: s.dispatch_x, y: 1, z: 1 }),
    decreases n,
{
    if n > 0 {
        lemma_commands_upto_fenced(s, ids, n - 1);
        let a = s.commands_upto(ids, n - 1);
        let b = s.pass_commands(ids, n - 1);
        assert(dispatches_fenced(b)) by {
            assert forall|i: int| 0 <= i < b.len() - 1 && (#[trigger] b[i]) is Dispatch implies b[i
                + 1] is Barrier by {
                assert(i == 2 || i == 6);
            }
        }
        lemma_fenced_concat(a, b);
        assert((a + b).last() == b.last());
    }
}

/// In a sort's commands every dispatch but the last is followed by a barrier,
/// there are 31 of them, and the last is the final scatter dispatch.
pub proof fn lemma_sort_commands_fenced(s: RadixSorter, ids: SortBuffers)
    ensures
        dispatches_fenced(s.sort_commands(ids)),
        s.sort_commands(ids).len() == 31,
        s.sort_commands(ids).last() == (Command::Dispatch { x: s.dispatch_x, y: 1, z: 1 }),
{
    lemma_commands_upto_fenced(s, ids, 4);
}

proof fn lemma_commands_upto_index(s: RadixSorter, ids: SortBuffers, n: int, k: int, j: int)
    requires
        0 <= k < n <= 4,
        0 <= j < s.pass_commands(ids, k).len(),
    ensures
        s.commands_upto(ids, n).len() == if n < 4 { 8 * n } else { 31 },
        s.commands_upto(ids, n)[8 * k + j] == s.pass_commands(ids, k)[j],
    decreases n,
{
    lemma_commands_upto_fenced(s, ids, n);
    lemma_commands_upto_fenced(s, ids, n - 1);
    if k < n - 1 {
        lemma_commands_upto_index(s, ids, n - 1, k, j);
    }
}

/// Pass `p` of a sort (at command offset `8p`) histograms the digit at shift
/// `8p` of the keys it reads, then scatters keys and indices out of one pair of
/// buffers into the other pair: even passes read the caller's keys and
/// indices and write the temporaries, odd passes read the temporaries and
/// write the caller's buffers. The indices always move between their own two
/// buffers, in step with the keys, and never in place when the two index
/// buffers differ.
pub proof fn lemma_sort_pass_buffers(s: RadixSorter, ids: SortBuffers, p: int)
    requires
        0 <= p < 4,
    ensures
        s.sort_commands(ids).len() == 31,
        s.sort_commands(ids)[8 * p] == Command::Bind(Pipeline::Histogram),
        s.sort_commands(ids)[8 * p + 1] == Command::Push(
            PushConstants::Histogram(
                HistogramPc {
                    count: s.count,
                    shift: (8 * p) as u32,
                    workgroups: s.dispatch_x,
                    blocks_per_workgroup: s.blocks_per_wg,
                    in_buffer_id: if p % 2 == 0 { ids.values } else { ids.temp },
                    histogram_buffer_id: ids.histogram,
                },
            ),
        ),
        s.sort_commands(ids)[8 * p + 2] == (Command::Dispatch { x: s.dispatch_x, y: 1, z: 1 }),
        s.sort_commands(ids)[8 * p + 3] == Command::Barrier(Barrier::ComputeWriteToRead),
        s.sort_commands(ids)[8 * p + 4] == Command::Bind(Pipeline::Sort),
        s.sort_commands(ids)[8 * p + 5] == Command::Push(
            PushConstants::Sort(
                SortPc {
                    count: s.count,
                    shift: (8 * p) as u32,
                    workgroups: s.dispatch_x,
                    blocks_per_workgroup: s.blocks_per_wg,
                    in_buffer_id: if p % 2 == 0 { ids.values } else { ids.temp },
                    out_buffer_id: if p % 2 == 0 { ids.temp } else { ids.values },
                    in_index_id: if p % 2 == 0 { ids.indices } else { ids.temp_indices },
                    out_index_id: if p % 2 == 0 { ids.temp_indices } else { ids.indices },
                    histogram_buffer_id: ids.histogram,
                },
            ),
        ),
        s.sort_commands(ids)[8 * p + 6] == (Command::Dispatch { x: s.dispatch_x, y: 1, z: 1 }),
        p < 3 ==> s.sort_commands(ids)[8 * p + 7] == Command::Barrier(Barrier::ComputeWriteToRead),
        ids.indices != ids.temp_indices ==> s.sort_pc(ids, p).out_index_id != s.sort_pc(ids, p).in_index_id,
        ids.values != ids.temp ==> s.sort_pc(ids, p).out_buffer_id != s.sort_pc(ids, p).in_buffer_id,
{
    lemma_commands_upto_index(s, ids, 4, p, 0);
    lemma_commands_upto_index(s, ids, 4, p, 1);
    lemma_commands_upto_index(s, ids, 4, p, 2);
    lemma_commands_upto_index(s, ids, 4, p, 3);
    lemma_commands_upto_index(s, ids, 4, p, 4);
    lemma_commands_upto_index(s, ids, 4, p, 5);
    lemma_commands_upto_index(s, ids, 4, p, 6);
    if p < 3 {
        lemma_commands_upto_index(s, ids, 4, p, 7);
    }
}

} // verus!
