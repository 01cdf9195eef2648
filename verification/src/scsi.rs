//! The SCSI command executor: decodes a command block and runs it against
//! a block store, keeping the sense data of the last failure.

use vstd::prelude::*;
use crate::framing::CswStatus;
use crate::store::all_reliable;
use crate::store::same_outside;

verus! {

/// Operation code of TEST UNIT READY.
pub const OP_TEST_UNIT_READY: u8 = 0x00;

/// Operation code of REQUEST SENSE.
pub const OP_REQUEST_SENSE: u8 = 0x03;

/// Operation code of INQUIRY.
pub const OP_INQUIRY: u8 = 0x12;

/// Operation code of READ CAPACITY (10).
pub const OP_READ_CAPACITY: u8 = 0x25;

/// Operation code of READ (10).
pub const OP_READ_10: u8 = 0x28;

/// Operation code of WRITE (10).
pub const OP_WRITE_10: u8 = 0x2A;

/// Length of a READ(10) or WRITE(10) command block.
pub const CDB10_LEN: usize = 10;

/// Number of logical units the device exposes.
pub const LUN_COUNT: u8 = 1;

/// Length of the sense data returned by REQUEST SENSE.
pub const SENSE_LEN: usize = 18;

/// Length of the INQUIRY response.
pub const INQUIRY_LEN: usize = 36;

/// Why the last command failed.
#[derive(Clone, Copy, Debug, PartialEq, Eq, Structural)]
pub enum Sense {
    /// Nothing failed since sense was last read.
    NoSense,
    /// The store has no capacity to report.
    NotReady,
    /// The store failed to read or write a block.
    MediumError,
    /// Illegal request: invalid command operation code.
    InvalidCommand,
    /// Illegal request: logical block address out of range.
    LbaOutOfRange,
}

impl Sense {
    /// The sense key.
    pub open spec fn key(self) -> u8 {
        match self {
            Sense::NoSense => 0x00,
            Sense::NotReady => 0x02,
            Sense::MediumError => 0x03,
            Sense::InvalidCommand => 0x05,
            Sense::LbaOutOfRange => 0x05,
        }
    }

    /// The additional sense code.
    pub open spec fn code(self) -> u8 {
        match self {
            Sense::NoSense => 0x00,
            Sense::NotReady => 0x3A,
            Sense::MediumError => 0x11,
            Sense::InvalidCommand => 0x20,
            Sense::LbaOutOfRange => 0x21,
        }
    }

    /// Fixed-format sense data: response code 0x70, the key at byte 2, ten
    /// additional bytes announced at byte 7, the code at byte 12.
    pub open spec fn data(self) -> Seq<u8> {
        seq![0x70u8, 0, self.key(), 0, 0, 0, 0, 10, 0, 0, 0, 0, self.code(), 0, 0, 0, 0, 0]
    }

    /// The sense key.
    pub fn key_byte(self) -> (b: u8)
        ensures
            b == self.key(),
    {
        match self {
            Sense::NoSense => 0x00,
            Sense::NotReady => 0x02,
            Sense::MediumError => 0x03,
            Sense::InvalidCommand => 0x05,
            Sense::LbaOutOfRange => 0x05,
        }
    }

    /// The additional sense code.
    pub fn code_byte(self) -> (b: u8)
        ensures
            b == self.code(),
    {
        match self {
            Sense::NoSense => 0x00,
            Sense::NotReady => 0x3A,
            Sense::MediumError => 0x11,
            Sense::InvalidCommand => 0x20,
            Sense::LbaOutOfRange => 0x21,
        }
    }

    /// The sense data as REQUEST SENSE returns it.
    pub fn to_bytes(self) -> (out: Vec<u8>)
        ensures
            out@ == self.data(),
            out@.len() == SENSE_LEN,
    {
        let out: Vec<u8> = vec![
            0x70u8, 0, self.key_byte(), 0, 0, 0, 0, 10, 0, 0, 0, 0, self.code_byte(), 0, 0, 0, 0, 0,
        ];
        assert(out@ =~= self.data());
        out
    }
}

/// The commands the executor knows, and one variant for all others.
#[derive(Clone, Copy, Debug, PartialEq, Eq, Structural)]
pub enum Command {
    TestUnitReady,
    RequestSense,
    Inquiry,
    ReadCapacity,
    Read10 { lba: u32, blocks: u16 },
    Write10 { lba: u32, blocks: u16 },
    Unsupported { opcode: u8 },
}

/// Which way a command moves data.
#[derive(Clone, Copy, Debug, PartialEq, Eq, Structural)]
pub enum DataDirection {
    NoData,
    ToHost,
    FromHost,
}

/// The big-endian 32-bit number held by `b[at..at + 4]`.
pub open spec fn be_u32(b: Seq<u8>, at: int) -> int {
    0x100_0000 * (b[at] as int) + 0x1_0000 * (b[at + 1] as int) + 0x100 * (b[at + 2] as int)
        + b[at + 3] as int
}

/// The big-endian 16-bit number held by `b[at..at + 2]`.
pub open spec fn be_u16(b: Seq<u8>, at: int) -> int {
    0x100 * (b[at] as int) + b[at + 1] as int
}

/// The four bytes that hold `v` in big-endian order.
pub open spec fn be_bytes(v: u32) -> Seq<u8> {
    seq![
        (v as int / 0x100_0000) as u8,
        (v as int / 0x1_0000 % 0x100) as u8,
        (v as int / 0x100 % 0x100) as u8,
        (v as int % 0x100) as u8,
    ]
}

/// The command a command block stands for. READ(10) and WRITE(10) take the
/// address from bytes 2..6 and the block count from bytes 7..9; a block too
/// short to hold them, like an unknown operation code, is unsupported.
pub open spec fn decode(cdb: Seq<u8>) -> Command {
    if cdb.len() == 0 {
        Command::Unsupported { opcode: 0 }
    } else if cdb[0] == OP_TEST_UNIT_READY {
        Command::TestUnitReady
    } else if cdb[0] == OP_REQUEST_SENSE {
        Command::RequestSense
    } else if cdb[0] == OP_INQUIRY {
        Command::Inquiry
    } else if cdb[0] == OP_READ_CAPACITY {
        Command::ReadCapacity
    } else if cdb[0] == OP_READ_10 && cdb.len() >= CDB10_LEN {
        Command::Read10 { lba: be_u32(cdb, 2) as u32, blocks: be_u16(cdb, 7) as u16 }
    } else if cdb[0] == OP_WRITE_10 && cdb.len() >= CDB10_LEN {
        Command::Write10 { lba: be_u32(cdb, 2) as u32, blocks: be_u16(cdb, 7) as u16 }
    } else {
        Command::Unsupported { opcode: cdb[0] }
    }
}

fn read_be_u32(bytes: &[u8], at: usize) -> (v: u32)
    requires
        at + 4 <= bytes@.len(),
    ensures
        v as int == be_u32(bytes@, at as int),
{
    let b0: u32 = bytes[at] as u32;
    let b1: u32 = bytes[at + 1] as u32;
    let b2: u32 = bytes[at + 2] as u32;
    let b3: u32 = bytes[at + 3] as u32;
    0x100_0000 * b0 + 0x1_0000 * b1 + 0x100 * b2 + b3
}

fn read_be_u16(bytes: &[u8], at: usize) -> (v: u16)
    requires
        at + 2 <= bytes@.len(),
    ensures
        v as int == be_u16(bytes@, at as int),
{
    let b0: u16 = bytes[at] as u16;
    let b1: u16 = bytes[at + 1] as u16;
    0x100 * b0 + b1
}

impl Command {
    /// Decodes a command block.
    pub fn parse(cdb: &[u8]) -> (c: Command)
        ensures
            c == decode(cdb@),
    {
        if cdb.len() == 0 {
            return Command::Unsupported { opcode: 0 };
        }
        let op: u8 = cdb[0];
        if op == OP_TEST_UNIT_READY {
            Command::TestUnitReady
        } else if op == OP_REQUEST_SENSE {
            Command::RequestSense
        } else if op == OP_INQUIRY {
            Command::Inquiry
        } else if op == OP_READ_CAPACITY {
            Command::ReadCapacity
        } else if op == OP_READ_10 && cdb.len() >= CDB10_LEN {
            Command::Read10 { lba: read_be_u32(cdb, 2), blocks: read_be_u16(cdb, 7) }
        } else if op == OP_WRITE_10 && cdb.len() >= CDB10_LEN {
            Command::Write10 { lba: read_be_u32(cdb, 2), blocks: read_be_u16(cdb, 7) }
        } else {
            Command::Unsupported { opcode: op }
        }
    }

    /// Which way the command moves data.
    pub open spec fn direction(self) -> DataDirection {
        match self {
            Command::RequestSense | Command::Inquiry | Command::ReadCapacity | Command::Read10 {
                ..
            } => DataDirection::ToHost,
            Command::Write10 { .. } => DataDirection::FromHost,
            Command::TestUnitReady | Command::Unsupported { .. } => DataDirection::NoData,
        }
    }

    /// Which way the command moves data.
    pub fn data_direction(&self) -> (d: DataDirection)
        ensures
            d == self.direction(),
    {
        match self {
            Command::RequestSense | Command::Inquiry | Command::ReadCapacity | Command::Read10 {
                ..
            } => DataDirection::ToHost,
            Command::Write10 { .. } => DataDirection::FromHost,
            Command::TestUnitReady | Command::Unsupported { .. } => DataDirection::NoData,
        }
    }

    /// The number of bytes a WRITE(10) takes from the host; 0 for other commands.
    pub open spec fn write_len(self, block_size: nat) -> nat {
        match self {
            Command::Write10 { blocks, .. } => blocks as nat * block_size,
            _ => 0,
        }
    }

    /// The number of bytes a WRITE(10) takes from the host; 0 for other commands.
    pub fn host_data_len(&self, block_size: u32) -> (n: u64)
        ensures
            n as nat == self.write_len(block_size as nat),
    {
        match self {
            Command::Write10 { blocks, .. } => {
                assert(*blocks as nat * block_size as nat <= 0xffff * 0xffff_ffff) by (nonlinear_arith)
                    requires
                        *blocks <= 0xffff,
                        block_size <= 0xffff_ffff,
                ;
                *blocks as u64 * block_size as u64
            },
            _ => 0,
        }
    }
}

/// The failure that is decided before the store is touched, if any: a
/// logical unit that does not exist, an unknown command, a store without
/// capacity asked for its readiness or capacity, or a READ(10) or WRITE(10)
/// whose address is that of no block or whose range reaches past the end
/// of the store. An address past the last block is refused even when the
/// command asks for no blocks.
pub open spec fn refusal(cmd: Command, lun: u8, block_size: nat, block_count: nat) -> Option<Sense> {
    if lun >= LUN_COUNT {
        Some(Sense::LbaOutOfRange)
    } else {
        match cmd {
            Command::Unsupported { .. } => Some(Sense::InvalidCommand),
            Command::TestUnitReady | Command::ReadCapacity => if block_size == 0 || block_count
                == 0 {
                Some(Sense::NotReady)
            } else {
                None
            },
            Command::Read10 { lba, blocks } | Command::Write10 { lba, blocks } => if lba
                >= block_count || lba + blocks > block_count {
                Some(Sense::LbaOutOfRange)
            } else {
                None
            },
            Command::RequestSense | Command::Inquiry => None,
        }
    }
}

/// Decides whether a command fails before the store is touched.
pub fn screen(cmd: &Command, lun: u8, block_size: u32, block_count: u32) -> (r: Option<Sense>)
    ensures
        r == refusal(*cmd, lun, block_size as nat, block_count as nat),
{
    if lun >= LUN_COUNT {
        return Some(Sense::LbaOutOfRange);
    }
    match cmd {
        Command::Unsupported { .. } => Some(Sense::InvalidCommand),
        Command::TestUnitReady | Command::ReadCapacity => if block_size == 0 || block_count == 0 {
            Some(Sense::NotReady)
        } else {
            None
        },
        Command::Read10 { lba, blocks } | Command::Write10 { lba, blocks } => if *lba
            >= block_count || *lba as u64 + *blocks as u64 > block_count as u64 {
            Some(Sense::LbaOutOfRange)
        } else {
            None
        },
        Command::RequestSense | Command::Inquiry => None,
    }
}

/// The fixed INQUIRY response: a removable direct-access device, vendor
/// "GENERIC ", product "USB Mass Storage", revision "1.00".
pub open spec fn inquiry_data() -> Seq<u8> {
    seq![
        0x00u8, 0x80, 0x04, 0x02, 0x1F, 0x00, 0x00, 0x00,
        0x47, 0x45, 0x4E, 0x45, 0x52, 0x49, 0x43, 0x20,
        0x55, 0x53, 0x42, 0x20, 0x4D, 0x61, 0x73, 0x73,
        0x20, 0x53, 0x74, 0x6F, 0x72, 0x61, 0x67, 0x65,
        0x31, 0x2E, 0x30, 0x30,
    ]
}

/// The fixed INQUIRY response.
pub fn inquiry_bytes() -> (out: Vec<u8>)
    ensures
        out@ == inquiry_data(),
        out@.len() == INQUIRY_LEN,
{
    let out: Vec<u8> = vec![
        0x00u8, 0x80, 0x04, 0x02, 0x1F, 0x00, 0x00, 0x00,
        0x47, 0x45, 0x4E, 0x45, 0x52, 0x49, 0x43, 0x20,
        0x55, 0x53, 0x42, 0x20, 0x4D, 0x61, 0x73, 0x73,
        0x20, 0x53, 0x74, 0x6F, 0x72, 0x61, 0x67, 0x65,
        0x31, 0x2E, 0x30, 0x30,
    ];
    assert(out@ =~= inquiry_data());
    out
}

/// The bytes of `count` consecutive blocks starting at `lba`.
pub open spec fn span(blocks: Seq<Seq<u8>>, lba: int, count: int) -> Seq<u8>
    decreases count,
{
    if count <= 0 {
        Seq::empty()
    } else {
        span(blocks, lba, count - 1) + blocks[lba + count - 1]
    }
}

/// The store after `count` blocks from `lba` on were overwritten with
/// consecutive `block_size`-byte pieces of `data`.
pub open spec fn overwritten(
    blocks: Seq<Seq<u8>>,
    block_size: nat,
    lba: int,
    count: int,
    data: Seq<u8>,
) -> Seq<Seq<u8>> {
    Seq::new(
        blocks.len(),
        |i: int|
            if lba <= i < lba + count {
                data.subrange((i - lba) * block_size, (i - lba) * block_size + block_size)
            } else {
                blocks[i]
            },
    )
}

/// What a command that passes returns to the host.
pub open spec fn response(cmd: Command, sense: Sense, block_size: nat, blocks: Seq<Seq<u8>>) -> Seq<
    u8,
> {
    match cmd {
        Command::Inquiry => inquiry_data(),
        Command::RequestSense => sense.data(),
        Command::ReadCapacity => be_bytes((blocks.len() - 1) as u32) + be_bytes(block_size as u32),
        Command::Read10 { lba, blocks: count } => span(blocks, lba as int, count as int),
        _ => Seq::empty(),
    }
}

/// The store after a command that passes.
pub open spec fn store_after(cmd: Command, block_size: nat, blocks: Seq<Seq<u8>>, data: Seq<u8>) -> Seq<
    Seq<u8>,
> {
    match cmd {
        Command::Write10 { lba, blocks: count } => overwritten(
            blocks,
            block_size,
            lba as int,
            count as int,
            data,
        ),
        _ => blocks,
    }
}

/// The retained sense after a command that passes: reading it clears it.
pub open spec fn sense_after(cmd: Command, sense: Sense) -> Sense {
    match cmd {
        Command::RequestSense => Sense::NoSense,
        _ => sense,
    }
}

/// Whether the command's outcome depends on the store's medium.
pub open spec fn uses_medium(cmd: Command) -> bool {
    match cmd {
        Command::Read10 { blocks, .. } | Command::Write10 { blocks, .. } => blocks > 0,
        _ => false,
    }
}

/// Whether every block the command reads or writes is reliable, so that
/// the medium cannot fail it.
pub open spec fn medium_sure(cmd: Command, reliable: Set<int>) -> bool {
    match cmd {
        Command::Read10 { lba, blocks } | Command::Write10 { lba, blocks } => all_reliable(
            reliable,
            lba as int,
            lba + blocks,
        ),
        _ => true,
    }
}

/// What running a command gives: a status and, when it passed, the bytes
/// for the host.
#[derive(Debug, PartialEq, Eq)]
pub struct Outcome {
    pub status: CswStatus,
    pub response: Vec<u8>,
}

/// The state before a command and what it was given.
pub struct Given {
    pub cmd: Command,
    pub lun: u8,
    pub sense: Sense,
    pub block_size: nat,
    pub blocks: Seq<Seq<u8>>,
    /// The blocks whose reads and writes are sure to succeed.
    pub reliable: Set<int>,
    pub data: Seq<u8>,
}

/// Whether status, response, retained sense and store are a correct result
/// of running the command.
///
/// A refused command fails with its sense and changes nothing else. A
/// WRITE(10) given fewer bytes than it takes is a phase error and changes
/// nothing. Otherwise the command passes with its response and effects,
/// unless it uses the medium and the medium fails, which it cannot where
/// every block of the command's range is reliable: then it fails with a
/// medium error, and only blocks in its range may have changed.
pub open spec fn executed(
    g: Given,
    status: CswStatus,
    resp: Seq<u8>,
    sense: Sense,
    blocks: Seq<Seq<u8>>,
) -> bool {
    match refusal(g.cmd, g.lun, g.block_size, g.blocks.len()) {
        Some(s) => status == CswStatus::Failed && sense == s && resp.len() == 0 && blocks
            == g.blocks,
        None => if g.data.len() < g.cmd.write_len(g.block_size) {
            status == CswStatus::PhaseError && sense == g.sense && resp.len() == 0 && blocks
                == g.blocks
        } else if status == CswStatus::Passed {
            &&& resp == response(g.cmd, g.sense, g.block_size, g.blocks)
            &&& sense == sense_after(g.cmd, g.sense)
            &&& blocks == store_after(g.cmd, g.block_size, g.blocks, g.data)
        } else {
            &&& status == CswStatus::Failed
            &&& uses_medium(g.cmd)
            &&& !medium_sure(g.cmd, g.reliable)
            &&& sense == Sense::MediumError
            &&& resp.len() == 0
            &&& match g.cmd {
                Command::Write10 { lba, blocks: count } => same_outside(
                    g.blocks,
                    blocks,
                    lba as int,
                    lba + count,
                ),
                _ => blocks == g.blocks,
            }
        },
    }
}

} // verus!
