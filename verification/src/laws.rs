//! What holds of every session, stated over the step relation.

use vstd::prelude::*;
use crate::executor::lemma_read_after_write;
use crate::executor::lemma_span_len;
use crate::framing::cbw_command;
use crate::framing::cbw_data_len;
use crate::framing::cbw_device_to_host;
use crate::framing::cbw_lun;
use crate::framing::cbw_tag;
use crate::framing::cbw_valid;
use crate::framing::le_u32;
use crate::framing::Csw;
use crate::framing::CswStatus;
use crate::framing::CBW_SIGNATURE;
use crate::scsi::decode;
use crate::scsi::executed;
use crate::scsi::overwritten;
use crate::scsi::Command;
use crate::scsi::Given;
use crate::scsi::Sense;
use crate::session::fresh;
use crate::session::session_wf;
use crate::session::stepped;
use crate::session::ActionView;
use crate::session::DataStage;
use crate::session::Event;
use crate::session::Session;
use crate::session::SessionState;
use crate::store::all_reliable;
use crate::store::well_formed;

verus! {

/// A step that answers a command wrapper retains the wrapper's tag, every
/// other step but a reset keeps the retained tag, and a status wrapper
/// always carries the tag retained after the step. So the status that
/// follows a command wrapper carries that wrapper's tag.
pub proof fn law_status_echoes_tag(
    pre: Session,
    block_size: nat,
    reliable: Set<int>,
    blocks: Seq<Seq<u8>>,
    ev: Event,
    post: Session,
    after: Seq<Seq<u8>>,
    act: ActionView,
)
    requires
        stepped(pre, block_size, blocks, reliable, ev, post, after, act),
    ensures
        act matches ActionView::SendStatus(csw) ==> csw.tag == post.tag,
        match ev {
            Event::Reset => true,
            Event::BulkOut(packet) => if pre.state == SessionState::Idle && cbw_valid(packet@) {
                post.tag == cbw_tag(packet@)
            } else {
                post.tag == pre.tag
            },
            _ => post.tag == pre.tag,
        },
{
}

/// The status wrapper that completes a command carries the tag of its
/// command wrapper, whether it follows the wrapper at once or ends the
/// data stage; until it is sent no other status wrapper is.
pub proof fn law_command_status_tag(
    block_size: nat,
    reliable: Set<int>,
    s0: Session,
    b0: Seq<Seq<u8>>,
    packet: Vec<u8>,
    s1: Session,
    b1: Seq<Seq<u8>>,
    a1: ActionView,
    ev: Event,
    s2: Session,
    b2: Seq<Seq<u8>>,
    a2: ActionView,
)
    requires
        s0.state == SessionState::Idle,
        cbw_valid(packet@),
        stepped(s0, block_size, b0, reliable, Event::BulkOut(packet), s1, b1, a1),
        stepped(s1, block_size, b1, reliable, ev, s2, b2, a2),
    ensures
        a1 matches ActionView::SendStatus(csw) ==> csw.tag == cbw_tag(packet@),
        a1 is SendStatus || a1 is SendData || a1 is ReceiveData,
        a2 matches ActionView::SendStatus(csw) ==> csw.tag == cbw_tag(packet@) && !(a1
            is SendStatus),
{
}

/// A command wrapper that declares no data is answered at once with a
/// status wrapper of residue 0: no data stage takes place.
pub proof fn law_no_data_no_stage(
    pre: Session,
    block_size: nat,
    reliable: Set<int>,
    blocks: Seq<Seq<u8>>,
    packet: Vec<u8>,
    post: Session,
    after: Seq<Seq<u8>>,
    act: ActionView,
)
    requires
        pre.state == SessionState::Idle,
        cbw_valid(packet@),
        cbw_data_len(packet@) == 0,
        stepped(pre, block_size, blocks, reliable, Event::BulkOut(packet), post, after, act),
    ensures
        post.state == SessionState::SendingStatus,
        post.stage == DataStage::NoStage,
        act matches ActionView::SendStatus(csw) && csw.residue == 0 && csw.tag == cbw_tag(
            packet@,
        ),
{
}

/// Data sent to the host is never longer than the declared length, and
/// the residue kept for the status is exactly what is missing to it.
pub proof fn law_response_within_declared(
    pre: Session,
    block_size: nat,
    reliable: Set<int>,
    blocks: Seq<Seq<u8>>,
    ev: Event,
    post: Session,
    after: Seq<Seq<u8>>,
    act: ActionView,
)
    requires
        stepped(pre, block_size, blocks, reliable, ev, post, after, act),
    ensures
        act matches ActionView::SendData(bytes) ==> {
            &&& 0 < bytes.len() <= post.declared
            &&& post.state == SessionState::ExpectingData
            &&& post.stage matches DataStage::Sending { residue, .. } && residue
                == post.declared - bytes.len()
        },
{
}

/// When the data sent to the host is complete, the status wrapper carries
/// the residue and status that were kept for it.
pub proof fn law_kept_residue_reported(
    pre: Session,
    block_size: nat,
    reliable: Set<int>,
    blocks: Seq<Seq<u8>>,
    status: CswStatus,
    residue: u32,
    post: Session,
    after: Seq<Seq<u8>>,
    act: ActionView,
)
    requires
        pre.state == SessionState::ExpectingData,
        pre.stage == (DataStage::Sending { status, residue }),
        stepped(pre, block_size, blocks, reliable, Event::BulkInDone, post, after, act),
    ensures
        act == ActionView::SendStatus(Csw { tag: pre.tag, residue, status }),
        post.state == SessionState::SendingStatus,
{
}

/// A reset, in whatever state, makes the session idle, clears the retained
/// sense and the command context, clears the stall, and leaves the store
/// alone.
pub proof fn law_reset_from_any_state(
    pre: Session,
    block_size: nat,
    reliable: Set<int>,
    blocks: Seq<Seq<u8>>,
    post: Session,
    after: Seq<Seq<u8>>,
    act: ActionView,
)
    requires
        stepped(pre, block_size, blocks, reliable, Event::Reset, post, after, act),
    ensures
        post.state == SessionState::Idle,
        post.sense == Sense::NoSense,
        post.stage == DataStage::NoStage,
        post == fresh(),
        act == ActionView::ClearStall,
        after == blocks,
{
}

/// A packet with a wrong signature stalls an idle session.
pub proof fn law_bad_signature_stalls(
    pre: Session,
    block_size: nat,
    reliable: Set<int>,
    blocks: Seq<Seq<u8>>,
    packet: Vec<u8>,
    post: Session,
    after: Seq<Seq<u8>>,
    act: ActionView,
)
    requires
        pre.state == SessionState::Idle,
        packet@.len() != 31 || le_u32(packet@, 0) != CBW_SIGNATURE,
        stepped(pre, block_size, blocks, reliable, Event::BulkOut(packet), post, after, act),
    ensures
        post.state == SessionState::Stalled,
        act == ActionView::Stall,
        after == blocks,
{
}

/// A stalled session stays stalled, answers with a stall and leaves the
/// store alone, whatever happens but a reset.
pub proof fn law_stall_holds_until_reset(
    pre: Session,
    block_size: nat,
    reliable: Set<int>,
    blocks: Seq<Seq<u8>>,
    ev: Event,
    post: Session,
    after: Seq<Seq<u8>>,
    act: ActionView,
)
    requires
        pre.state == SessionState::Stalled,
        !(ev is Reset),
        stepped(pre, block_size, blocks, reliable, ev, post, after, act),
    ensures
        post.state == SessionState::Stalled,
        act == ActionView::Stall,
        after == blocks,
        post.sense == pre.sense,
{
}

/// A command wrapper is accepted only by an idle session: a transfer on
/// bulk OUT while the response or the status is on its way stalls.
pub proof fn law_no_command_before_status_sent(
    pre: Session,
    block_size: nat,
    reliable: Set<int>,
    blocks: Seq<Seq<u8>>,
    packet: Vec<u8>,
    post: Session,
    after: Seq<Seq<u8>>,
    act: ActionView,
)
    requires
        pre.state == SessionState::SendingStatus || (pre.state == SessionState::ExpectingData
            && pre.stage is Sending),
        stepped(pre, block_size, blocks, reliable, Event::BulkOut(packet), post, after, act),
    ensures
        post.state == SessionState::Stalled,
        act == ActionView::Stall,
        after == blocks,
{
}

/// The residue of a status wrapper never exceeds the declared length.
pub proof fn law_residue_within_declared(
    pre: Session,
    block_size: nat,
    reliable: Set<int>,
    blocks: Seq<Seq<u8>>,
    ev: Event,
    post: Session,
    after: Seq<Seq<u8>>,
    act: ActionView,
)
    requires
        session_wf(pre, block_size, blocks.len()),
        stepped(pre, block_size, blocks, reliable, ev, post, after, act),
    ensures
        act matches ActionView::SendStatus(csw) ==> csw.residue <= post.declared,
{
}

/// A status wrapper is handed out only as the session enters the status
/// stage with its data stage over, and data only as it enters the data
/// stage.
pub proof fn law_status_follows_data_stage(
    pre: Session,
    block_size: nat,
    reliable: Set<int>,
    blocks: Seq<Seq<u8>>,
    ev: Event,
    post: Session,
    after: Seq<Seq<u8>>,
    act: ActionView,
)
    requires
        stepped(pre, block_size, blocks, reliable, ev, post, after, act),
    ensures
        act is SendStatus <==> post.state == SessionState::SendingStatus,
        act is SendStatus ==> post.stage == DataStage::NoStage,
        act is SendData || act is ReceiveData ==> post.state == SessionState::ExpectingData,
        act is Stall <==> post.state == SessionState::Stalled,
{
}

/// No failure is silent: a transfer from the host that is answered with a
/// failed status leaves sense data that says why.
pub proof fn law_failure_leaves_sense(
    pre: Session,
    block_size: nat,
    reliable: Set<int>,
    blocks: Seq<Seq<u8>>,
    data: Vec<u8>,
    post: Session,
    after: Seq<Seq<u8>>,
    act: ActionView,
)
    requires
        stepped(pre, block_size, blocks, reliable, Event::BulkOut(data), post, after, act),
    ensures
        act matches ActionView::SendStatus(csw) && csw.status == CswStatus::Failed ==> post.sense
            != Sense::NoSense,
{
}

/// A READ(10) that passes returns as many bytes as its blocks hold.
pub proof fn law_read_length(read: Given, lba: u32, count: u16, resp: Seq<u8>, sense: Sense, kept: Seq<Seq<u8>>)
    requires
        well_formed(read.block_size, read.blocks),
        read.cmd == (Command::Read10 { lba, blocks: count }),
        executed(read, CswStatus::Passed, resp, sense, kept),
    ensures
        resp.len() == count * read.block_size,
        kept == read.blocks,
        sense == read.sense,
{
    lemma_span_len(read.blocks, read.block_size, lba as int, count as int);
}

/// A READ(10) that passes after a WRITE(10) of the same range that passed
/// returns the bytes that were written.
pub proof fn law_read_returns_written(
    written: Given,
    lba: u32,
    count: u16,
    sense: Sense,
    stored: Seq<Seq<u8>>,
    read: Given,
    resp: Seq<u8>,
    sense_after: Sense,
    kept: Seq<Seq<u8>>,
)
    requires
        well_formed(written.block_size, written.blocks),
        written.cmd == (Command::Write10 { lba, blocks: count }),
        executed(written, CswStatus::Passed, Seq::empty(), sense, stored),
        read.cmd == (Command::Read10 { lba, blocks: count }),
        read.block_size == written.block_size,
        read.blocks == stored,
        executed(read, CswStatus::Passed, resp, sense_after, kept),
    ensures
        resp == written.data.subrange(0, count * written.block_size),
        kept == stored,
{
    lemma_read_after_write(
        written.blocks,
        written.block_size,
        lba as int,
        count as int,
        written.data,
    );
}

/// A round trip through the session: a WRITE(10) whose wrapper declares
/// exactly its blocks, answered with a passed status, followed by a
/// READ(10) of the same range that declares the same length and is
/// answered with data, gets back the bytes that the host sent.
pub proof fn law_round_trip_through_session(
    block_size: nat,
    reliable: Set<int>,
    lba: u32,
    count: u16,
    s0: Session,
    b0: Seq<Seq<u8>>,
    write: Vec<u8>,
    s1: Session,
    b1: Seq<Seq<u8>>,
    a1: ActionView,
    data: Vec<u8>,
    s2: Session,
    b2: Seq<Seq<u8>>,
    a2: ActionView,
    s3: Session,
    b3: Seq<Seq<u8>>,
    a3: ActionView,
    read: Vec<u8>,
    s4: Session,
    b4: Seq<Seq<u8>>,
    a4: ActionView,
)
    requires
        well_formed(block_size, b0),
        s0.state == SessionState::Idle,
        cbw_valid(write@),
        decode(cbw_command(write@)) == (Command::Write10 { lba, blocks: count }),
        cbw_data_len(write@) == count * block_size,
        data@.len() == count * block_size,
        stepped(s0, block_size, b0, reliable, Event::BulkOut(write), s1, b1, a1),
        a1 is ReceiveData,
        stepped(s1, block_size, b1, reliable, Event::BulkOut(data), s2, b2, a2),
        a2 matches ActionView::SendStatus(csw) && csw.status == CswStatus::Passed,
        stepped(s2, block_size, b2, reliable, Event::BulkInDone, s3, b3, a3),
        cbw_valid(read@),
        decode(cbw_command(read@)) == (Command::Read10 { lba, blocks: count }),
        cbw_data_len(read@) == count * block_size,
        stepped(s3, block_size, b3, reliable, Event::BulkOut(read), s4, b4, a4),
        a4 is SendData,
    ensures
        a4 == ActionView::SendData(data@),
        s4.stage == (DataStage::Sending { status: CswStatus::Passed, residue: 0 }),
{
    lemma_read_after_write(b0, block_size, lba as int, count as int, data@);
    assert(data@.subrange(0, count * block_size) =~= data@);
}

/// A READ(10) or WRITE(10) on logical unit 0 whose address is that of no
/// block, or whose range reaches past the last block, is answered at once
/// with a failed status that carries the command's tag and the whole
/// declared length as residue; the store is left alone. When the status is
/// sent the session is idle again, and a REQUEST SENSE that declares room
/// for the sense data gets "logical block address out of range" and
/// clears it.
pub proof fn law_out_of_range_fails(
    block_size: nat,
    reliable: Set<int>,
    lba: u32,
    count: u16,
    s0: Session,
    b0: Seq<Seq<u8>>,
    packet: Vec<u8>,
    s1: Session,
    b1: Seq<Seq<u8>>,
    a1: ActionView,
    s2: Session,
    b2: Seq<Seq<u8>>,
    a2: ActionView,
    request: Vec<u8>,
    s3: Session,
    b3: Seq<Seq<u8>>,
    a3: ActionView,
)
    requires
        s0.state == SessionState::Idle,
        cbw_valid(packet@),
        cbw_lun(packet@) == 0,
        decode(cbw_command(packet@)) == (Command::Read10 { lba, blocks: count }) || decode(
            cbw_command(packet@),
        ) == (Command::Write10 { lba, blocks: count }),
        lba >= b0.len() || lba + count > b0.len(),
        stepped(s0, block_size, b0, reliable, Event::BulkOut(packet), s1, b1, a1),
        stepped(s1, block_size, b1, reliable, Event::BulkInDone, s2, b2, a2),
        cbw_valid(request@),
        cbw_lun(request@) == 0,
        decode(cbw_command(request@)) == Command::RequestSense,
        cbw_device_to_host(request@),
        cbw_data_len(request@) >= 18,
        stepped(s2, block_size, b2, reliable, Event::BulkOut(request), s3, b3, a3),
    ensures
        a1 == ActionView::SendStatus(
            Csw {
                tag: cbw_tag(packet@) as u32,
                residue: cbw_data_len(packet@) as u32,
                status: CswStatus::Failed,
            },
        ),
        s1.sense == Sense::LbaOutOfRange,
        b1 == b0,
        s2.state == SessionState::Idle,
        a2 == ActionView::AwaitCommand,
        a3 == ActionView::SendData(Sense::LbaOutOfRange.data()),
        s3.sense == Sense::NoSense,
{
    assert(Sense::LbaOutOfRange.data().len() == 18);
    assert(Sense::LbaOutOfRange.data().subrange(0, 18) =~= Sense::LbaOutOfRange.data());
}

/// The round trip over a store whose blocks in the range are reliable: a
/// WRITE(10) of at least one block on logical unit 0, within the store,
/// whose wrapper declares exactly its bytes and whose data stage brings
/// them, passes with residue 0 and its own tag; a READ(10) of the same
/// range that declares the same length then returns those bytes, in order,
/// and passes with residue 0 and its own tag.
pub proof fn law_round_trip_succeeds(
    block_size: nat,
    reliable: Set<int>,
    lba: u32,
    count: u16,
    s0: Session,
    b0: Seq<Seq<u8>>,
    write: Vec<u8>,
    s1: Session,
    b1: Seq<Seq<u8>>,
    a1: ActionView,
    data: Vec<u8>,
    s2: Session,
    b2: Seq<Seq<u8>>,
    a2: ActionView,
    s3: Session,
    b3: Seq<Seq<u8>>,
    a3: ActionView,
    read: Vec<u8>,
    s4: Session,
    b4: Seq<Seq<u8>>,
    a4: ActionView,
    s5: Session,
    b5: Seq<Seq<u8>>,
    a5: ActionView,
)
    requires
        well_formed(block_size, b0),
        block_size >= 1,
        count >= 1,
        lba + count <= b0.len(),
        all_reliable(reliable, lba as int, lba + count),
        s0.state == SessionState::Idle,
        cbw_valid(write@),
        cbw_lun(write@) == 0,
        !cbw_device_to_host(write@),
        decode(cbw_command(write@)) == (Command::Write10 { lba, blocks: count }),
        cbw_data_len(write@) == count * block_size,
        data@.len() == count * block_size,
        stepped(s0, block_size, b0, reliable, Event::BulkOut(write), s1, b1, a1),
        stepped(s1, block_size, b1, reliable, Event::BulkOut(data), s2, b2, a2),
        stepped(s2, block_size, b2, reliable, Event::BulkInDone, s3, b3, a3),
        cbw_valid(read@),
        cbw_lun(read@) == 0,
        cbw_device_to_host(read@),
        decode(cbw_command(read@)) == (Command::Read10 { lba, blocks: count }),
        cbw_data_len(read@) == count * block_size,
        stepped(s3, block_size, b3, reliable, Event::BulkOut(read), s4, b4, a4),
        stepped(s4, block_size, b4, reliable, Event::BulkInDone, s5, b5, a5),
    ensures
        a1 == ActionView::ReceiveData(cbw_data_len(write@) as u32),
        a2 == ActionView::SendStatus(
            Csw { tag: cbw_tag(write@) as u32, residue: 0, status: CswStatus::Passed },
        ),
        a3 == ActionView::AwaitCommand,
        a4 == ActionView::SendData(data@),
        a5 == ActionView::SendStatus(
            Csw { tag: cbw_tag(read@) as u32, residue: 0, status: CswStatus::Passed },
        ),
        b4 == overwritten(b0, block_size, lba as int, count as int, data@),
{
    assert(count * block_size >= 1) by (nonlinear_arith)
        requires
            count >= 1,
            block_size >= 1,
    ;
    lemma_read_after_write(b0, block_size, lba as int, count as int, data@);
    assert(data@.subrange(0, count * block_size) =~= data@);
}

} // verus!
