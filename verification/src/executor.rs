//! Running decoded commands against a block store.

use vstd::prelude::*;
use vstd::slice::slice_subrange;
use crate::framing::CswStatus;
use crate::scsi::be_bytes;
use crate::scsi::screen;
use crate::scsi::executed;
use crate::scsi::inquiry_bytes;
use crate::scsi::overwritten;
use crate::scsi::span;
use crate::scsi::Command;
use crate::scsi::Given;
use crate::scsi::Outcome;
use crate::scsi::Sense;
use crate::store::all_reliable;
use crate::store::same_outside;
use crate::store::well_formed;
use crate::store::BlockStore;

verus! {

fn push_be_u32(out: &mut Vec<u8>, v: u32)
    ensures
        final(out)@ == old(out)@ + be_bytes(v),
{
    out.push((v / 0x100_0000) as u8);
    out.push((v / 0x1_0000 % 0x100) as u8);
    out.push((v / 0x100 % 0x100) as u8);
    out.push((v % 0x100) as u8);
    assert(out@ =~= old(out)@ + be_bytes(v));
}

/// Reads `count` blocks from `lba` on; `None` when the medium fails, which
/// it does not where all of them are reliable.
pub fn read_blocks<S: BlockStore>(store: &S, lba: u32, count: u16) -> (r: Option<Vec<u8>>)
    requires
        well_formed(store.block_size(), store.blocks()),
        lba + count <= store.blocks().len(),
    ensures
        r matches Some(v) ==> v@ == span(store.blocks(), lba as int, count as int),
        all_reliable(store.reliable(), lba as int, lba + count) ==> r is Some,
{
    let mut out: Vec<u8> = Vec::new();
    let mut i: u16 = 0;
    while i < count
        invariant
            i <= count,
            well_formed(store.block_size(), store.blocks()),
            lba + count <= store.blocks().len(),
            out@ == span(store.blocks(), lba as int, i as int),
        decreases count - i,
    {
        match store.read_block(lba + i as u32) {
            Some(mut block) => {
                out.append(&mut block);
            },
            None => {
                return None;
            },
        }
        i = i + 1;
    }
    Some(out)
}

/// Writes `count` blocks from `lba` on, taken from the front of `data`;
/// `false` when the medium fails, which it does not where all of them are
/// reliable.
pub fn write_blocks<S: BlockStore>(store: &mut S, lba: u32, count: u16, data: &[u8]) -> (ok: bool)
    requires
        well_formed(old(store).block_size(), old(store).blocks()),
        lba + count <= old(store).blocks().len(),
        data@.len() >= count * old(store).block_size(),
    ensures
        final(store).block_size() == old(store).block_size(),
        well_formed(final(store).block_size(), final(store).blocks()),
        same_outside(old(store).blocks(), final(store).blocks(), lba as int, lba + count),
        ok ==> final(store).blocks() == overwritten(
            old(store).blocks(),
            old(store).block_size(),
            lba as int,
            count as int,
            data@,
        ),
        final(store).reliable() == old(store).reliable(),
        all_reliable(old(store).reliable(), lba as int, lba + count) ==> ok,
{
    let (block_size, _) = store.capacity();
    let total: usize = data.len();
    let ghost before = store.blocks();
    let mut i: u16 = 0;
    assert(store.blocks() =~= overwritten(before, block_size as nat, lba as int, 0, data@));
    while i < count
        invariant
            i <= count,
            store.block_size() == block_size,
            store.reliable() == old(store).reliable(),
            old(store).block_size() == block_size,
            total == data@.len(),
            before == old(store).blocks(),
            before.len() == store.blocks().len(),
            well_formed(store.block_size(), store.blocks()),
            lba + count <= store.blocks().len(),
            data@.len() >= count * block_size,
            store.blocks() == overwritten(before, block_size as nat, lba as int, i as int, data@),
        decreases count - i,
    {
        assert(0 <= i * block_size && i * block_size + block_size <= count * block_size)
            by (nonlinear_arith)
            requires
                0 <= i < count,
                0 <= block_size,
        ;
        assert(count * block_size <= u64::MAX) by (nonlinear_arith)
            requires
                0 <= count <= 0xffff,
                0 <= block_size <= 0xffff_ffff,
        ;
        let start: usize = (i as u64 * block_size as u64) as usize;
        let chunk = slice_subrange(data, start, start + block_size as usize);
        let ghost mid = store.blocks();
        let ok = store.write_block(lba + i as u32, chunk);
        if !ok {
            proof {
                assert forall|j: int|
                    0 <= j < before.len() && !(lba <= j < lba + count) implies #[trigger] before[j]
                    == store.blocks()[j] by {
                    assert(store.blocks()[j] == mid[j]);
                }
            }
            return false;
        }
        proof {
            assert(store.blocks() =~= overwritten(
                before,
                block_size as nat,
                lba as int,
                i + 1,
                data@,
            )) by {
                assert forall|j: int| 0 <= j < before.len() implies store.blocks()[j]
                    == overwritten(before, block_size as nat, lba as int, i + 1, data@)[j] by {
                    if j != lba + i {
                        assert(store.blocks()[j] == mid[j]);
                    }
                }
            }
        }
        i = i + 1;
    }
    true
}

/// Runs one command. `data` is what the host sent in the data stage of a
/// WRITE(10), and is ignored by every other command. A failure replaces the
/// retained sense; a REQUEST SENSE that passes clears it.
pub fn execute<S: BlockStore>(
    store: &mut S,
    sense: &mut Sense,
    lun: u8,
    cmd: &Command,
    data: &[u8],
) -> (out: Outcome)
    requires
        well_formed(old(store).block_size(), old(store).blocks()),
    ensures
        final(store).block_size() == old(store).block_size(),
        final(store).blocks().len() == old(store).blocks().len(),
        final(store).reliable() == old(store).reliable(),
        well_formed(final(store).block_size(), final(store).blocks()),
        executed(
            (Given {
                cmd: *cmd,
                lun,
                sense: *old(sense),
                block_size: old(store).block_size(),
                blocks: old(store).blocks(),
                reliable: old(store).reliable(),
                data: data@,
            }),
            out.status,
            out.response@,
            *final(sense),
            final(store).blocks(),
        ),
{
    let (block_size, block_count) = store.capacity();
    match screen(cmd, lun, block_size, block_count) {
        Some(s) => {
            *sense = s;
            return Outcome { status: CswStatus::Failed, response: Vec::new() };
        },
        None => {},
    }
    match cmd {
        Command::Inquiry => Outcome { status: CswStatus::Passed, response: inquiry_bytes() },
        Command::RequestSense => {
            let response = sense.to_bytes();
            *sense = Sense::NoSense;
            Outcome { status: CswStatus::Passed, response }
        },
        Command::ReadCapacity => {
            let mut response: Vec<u8> = Vec::new();
            push_be_u32(&mut response, block_count - 1);
            push_be_u32(&mut response, block_size);
            Outcome { status: CswStatus::Passed, response }
        },
        Command::Read10 { lba, blocks } => match read_blocks(&*store, *lba, *blocks) {
            Some(response) => Outcome { status: CswStatus::Passed, response },
            None => {
                *sense = Sense::MediumError;
                Outcome { status: CswStatus::Failed, response: Vec::new() }
            },
        },
        Command::Write10 { lba, blocks } => {
            if (data.len() as u64) < cmd.host_data_len(block_size) {
                return Outcome { status: CswStatus::PhaseError, response: Vec::new() };
            }
            if write_blocks(store, *lba, *blocks, data) {
                Outcome { status: CswStatus::Passed, response: Vec::new() }
            } else {
                *sense = Sense::MediumError;
                Outcome { status: CswStatus::Failed, response: Vec::new() }
            }
        },
        Command::TestUnitReady | Command::Unsupported { .. } => Outcome {
            status: CswStatus::Passed,
            response: Vec::new(),
        },
    }
}

/// The bytes of a span of well-formed blocks number the block count times
/// the block size.
pub proof fn lemma_span_len(blocks: Seq<Seq<u8>>, block_size: nat, lba: int, count: int)
    requires
        well_formed(block_size, blocks),
        0 <= lba,
        0 <= count,
        lba + count <= blocks.len(),
    ensures
        span(blocks, lba, count).len() == count * block_size,
    decreases count,
{
    if count > 0 {
        lemma_span_len(blocks, block_size, lba, count - 1);
        assert((count - 1) * block_size + block_size == count * block_size) by (nonlinear_arith);
    }
}

/// Reading back a range that was just overwritten gives the first
/// `count * block_size` bytes that were written.
pub proof fn lemma_read_after_write(
    blocks: Seq<Seq<u8>>,
    block_size: nat,
    lba: int,
    count: int,
    data: Seq<u8>,
)
    requires
        0 <= lba,
        0 <= count,
        lba + count <= blocks.len(),
        data.len() >= count * block_size,
    ensures
        span(overwritten(blocks, block_size, lba, count, data), lba, count) == data.subrange(
            0,
            count * block_size,
        ),
{
    lemma_read_prefix(blocks, block_size, lba, count, count, data);
}

proof fn lemma_read_prefix(
    blocks: Seq<Seq<u8>>,
    block_size: nat,
    lba: int,
    count: int,
    k: int,
    data: Seq<u8>,
)
    requires
        0 <= lba,
        0 <= k <= count,
        lba + count <= blocks.len(),
        data.len() >= count * block_size,
    ensures
        k * block_size <= data.len(),
        span(overwritten(blocks, block_size, lba, count, data), lba, k) == data.subrange(
            0,
            k * block_size,
        ),
    decreases k,
{
    assert(k * block_size <= count * block_size) by (nonlinear_arith)
        requires
            0 <= k <= count,
    ;
    let after = overwritten(blocks, block_size, lba, count, data);
    if k > 0 {
        lemma_read_prefix(blocks, block_size, lba, count, k - 1, data);
        let a = (k - 1) * block_size;
        let b = k * block_size;
        assert(b == a + block_size && 0 <= a) by (nonlinear_arith)
            requires
                a == (k - 1) * block_size,
                b == k * block_size,
                k >= 1,
        ;
        let i = lba + k - 1;
        assert(i - lba == k - 1);
        assert((i - lba) * block_size == a);
        assert(after[i] == data.subrange(a, a + block_size));
        assert(span(after, lba, k) == span(after, lba, k - 1) + after[i]);
        assert(data.subrange(0, a) + data.subrange(a, b) =~= data.subrange(0, b));
    } else {
        assert(span(after, lba, k) =~= data.subrange(0, k * block_size));
    }
}

} // verus!
