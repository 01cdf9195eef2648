//! Bulk-Only Transport wire framing: the 31-byte Command Block Wrapper that
//! the host sends and the 13-byte Command Status Wrapper that answers it.

use vstd::prelude::*;
use vstd::slice::slice_subrange;
use vstd::slice::slice_to_vec;

verus! {

/// Length of a Command Block Wrapper on the wire.
pub const CBW_LEN: usize = 31;

/// Length of a Command Status Wrapper on the wire.
pub const CSW_LEN: usize = 13;

/// Signature that opens every Command Block Wrapper ("USBC", little endian).
pub const CBW_SIGNATURE: u32 = 0x4342_5355;

/// Signature that opens every Command Status Wrapper ("USBS", little endian).
pub const CSW_SIGNATURE: u32 = 0x5342_5355;

/// Largest command block a wrapper can carry.
pub const MAX_COMMAND_LEN: u8 = 16;

/// The little-endian 32-bit number held by `b[at..at + 4]`.
pub open spec fn le_u32(b: Seq<u8>, at: int) -> int {
    b[at] as int + 0x100 * (b[at + 1] as int) + 0x1_0000 * (b[at + 2] as int) + 0x100_0000 * (
    b[at + 3] as int)
}

/// The four bytes that hold `v` in little-endian order.
pub open spec fn le_bytes(v: u32) -> Seq<u8> {
    seq![
        (v as int % 0x100) as u8,
        (v as int / 0x100 % 0x100) as u8,
        (v as int / 0x1_0000 % 0x100) as u8,
        (v as int / 0x100_0000) as u8,
    ]
}

/// Reading back the bytes written for `v` gives `v`.
pub proof fn lemma_le_round_trip(v: u32)
    ensures
        le_u32(le_bytes(v), 0) == v as int,
{
}

/// Reads a little-endian 32-bit number.
pub fn read_le_u32(bytes: &[u8], at: usize) -> (v: u32)
    requires
        at + 4 <= bytes@.len(),
    ensures
        v as int == le_u32(bytes@, at as int),
{
    let b0: u32 = bytes[at] as u32;
    let b1: u32 = bytes[at + 1] as u32;
    let b2: u32 = bytes[at + 2] as u32;
    let b3: u32 = bytes[at + 3] as u32;
    b0 + 0x100 * b1 + 0x1_0000 * b2 + 0x100_0000 * b3
}

/// Appends `v` in little-endian order.
pub fn push_le_u32(out: &mut Vec<u8>, v: u32)
    ensures
        final(out)@ == old(out)@ + le_bytes(v),
{
    out.push((v % 0x100) as u8);
    out.push((v / 0x100 % 0x100) as u8);
    out.push((v / 0x1_0000 % 0x100) as u8);
    out.push((v / 0x100_0000) as u8);
    assert(out@ =~= old(out)@ + le_bytes(v));
}

/// Why a packet is no Command Block Wrapper.
#[derive(Clone, Copy, Debug, PartialEq, Eq)]
pub enum FramingError {
    /// The packet is not exactly 31 bytes long.
    BadLength,
    /// The first four bytes are not the wrapper signature.
    BadSignature,
    /// The command block length is outside 1..=16.
    BadCommandLength,
}

/// A decoded Command Block Wrapper.
#[derive(Debug, PartialEq, Eq)]
pub struct Cbw {
    /// Correlation value that the status wrapper echoes.
    pub tag: u32,
    /// Number of bytes the host expects to move in the data stage.
    pub data_len: u32,
    /// Direction of the data stage: `true` for device to host.
    pub device_to_host: bool,
    /// Addressed logical unit (low four bits of the LUN byte).
    pub lun: u8,
    /// The SCSI command block, 1 to 16 bytes.
    pub command: Vec<u8>,
}

/// The verdict on a packet: `None` when it is a well-formed wrapper,
/// otherwise the first rule it breaks.
pub open spec fn cbw_error(b: Seq<u8>) -> Option<FramingError> {
    if b.len() != CBW_LEN {
        Some(FramingError::BadLength)
    } else if le_u32(b, 0) != CBW_SIGNATURE {
        Some(FramingError::BadSignature)
    } else if b[14] < 1 || b[14] > MAX_COMMAND_LEN {
        Some(FramingError::BadCommandLength)
    } else {
        None
    }
}

/// Whether a packet is a well-formed Command Block Wrapper.
pub open spec fn cbw_valid(b: Seq<u8>) -> bool {
    cbw_error(b) is None
}

/// The tag field of a packet.
pub open spec fn cbw_tag(b: Seq<u8>) -> int {
    le_u32(b, 4)
}

/// The declared data transfer length of a packet.
pub open spec fn cbw_data_len(b: Seq<u8>) -> int {
    le_u32(b, 8)
}

/// Whether the packet's flags ask for a device-to-host data stage (bit 7).
pub open spec fn cbw_device_to_host(b: Seq<u8>) -> bool {
    b[12] >= 0x80
}

/// The logical unit a packet addresses.
pub open spec fn cbw_lun(b: Seq<u8>) -> int {
    b[13] as int % 16
}

/// The command block a packet carries.
pub open spec fn cbw_command(b: Seq<u8>) -> Seq<u8> {
    b.subrange(15, 15 + b[14] as int)
}

impl Cbw {
    /// Whether this value is what the packet `b` decodes to.
    pub open spec fn decodes(&self, b: Seq<u8>) -> bool {
        &&& self.tag as int == cbw_tag(b)
        &&& self.data_len as int == cbw_data_len(b)
        &&& self.device_to_host == cbw_device_to_host(b)
        &&& self.lun as int == cbw_lun(b)
        &&& self.command@ == cbw_command(b)
    }

    /// Decodes a packet received on the bulk OUT endpoint.
    pub fn parse(packet: &[u8]) -> (r: Result<Cbw, FramingError>)
        ensures
            match r {
                Ok(cbw) => cbw_valid(packet@) && cbw.decodes(packet@) && 1 <= cbw.command@.len()
                    <= 16 && cbw.lun < 16,
                Err(e) => cbw_error(packet@) == Some(e),
            },
    {
        if packet.len() != CBW_LEN {
            return Err(FramingError::BadLength);
        }
        if read_le_u32(packet, 0) != CBW_SIGNATURE {
            return Err(FramingError::BadSignature);
        }
        let n: u8 = packet[14];
        if n < 1 || n > MAX_COMMAND_LEN {
            return Err(FramingError::BadCommandLength);
        }
        let command = slice_to_vec(slice_subrange(packet, 15, 15 + n as usize));
        Ok(
            Cbw {
                tag: read_le_u32(packet, 4),
                data_len: read_le_u32(packet, 8),
                device_to_host: packet[12] >= 0x80,
                lun: packet[13] % 16,
                command,
            },
        )
    }
}

/// Completion status carried by a Command Status Wrapper.
#[derive(Clone, Copy, Debug, PartialEq, Eq, Structural)]
pub enum CswStatus {
    /// The command succeeded.
    Passed,
    /// The command failed; sense data says why.
    Failed,
    /// Host and device disagree on the data stage.
    PhaseError,
}

impl CswStatus {
    /// The status byte on the wire.
    pub open spec fn code(self) -> u8 {
        match self {
            CswStatus::Passed => 0,
            CswStatus::Failed => 1,
            CswStatus::PhaseError => 2,
        }
    }

    /// The status byte on the wire.
    pub fn to_byte(self) -> (b: u8)
        ensures
            b == self.code(),
    {
        match self {
            CswStatus::Passed => 0,
            CswStatus::Failed => 1,
            CswStatus::PhaseError => 2,
        }
    }
}

/// A Command Status Wrapper.
#[derive(Clone, Copy, Debug, PartialEq, Eq, Structural)]
pub struct Csw {
    /// Tag of the command this status completes.
    pub tag: u32,
    /// Declared bytes that were not moved or not used.
    pub residue: u32,
    /// Outcome of the command.
    pub status: CswStatus,
}

/// The 13 bytes of a status wrapper.
pub open spec fn csw_bytes(c: Csw) -> Seq<u8> {
    le_bytes(CSW_SIGNATURE) + le_bytes(c.tag) + le_bytes(c.residue) + seq![c.status.code()]
}

/// The wire form is 13 bytes and the tag and residue can be read back from it.
pub proof fn lemma_csw_fields(c: Csw)
    ensures
        csw_bytes(c).len() == CSW_LEN,
        le_u32(csw_bytes(c), 0) == CSW_SIGNATURE,
        le_u32(csw_bytes(c), 4) == c.tag,
        le_u32(csw_bytes(c), 8) == c.residue,
        csw_bytes(c)[12] == c.status.code(),
{
    lemma_le_round_trip(CSW_SIGNATURE);
    lemma_le_round_trip(c.tag);
    lemma_le_round_trip(c.residue);
}

impl Csw {
    /// Encodes the wrapper for the bulk IN endpoint.
    pub fn to_bytes(&self) -> (out: Vec<u8>)
        ensures
            out@ == csw_bytes(*self),
            out@.len() == CSW_LEN,
    {
        let mut out: Vec<u8> = Vec::new();
        push_le_u32(&mut out, CSW_SIGNATURE);
        push_le_u32(&mut out, self.tag);
        push_le_u32(&mut out, self.residue);
        out.push(self.status.to_byte());
        assert(out@ =~= csw_bytes(*self));
        out
    }
}

} // verus!
