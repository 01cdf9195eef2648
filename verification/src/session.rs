//! The state of one Bulk-Only Transport session and the rules by which an
//! event moves it on.

use vstd::prelude::*;
use crate::framing::cbw_command;
use crate::framing::cbw_data_len;
use crate::framing::cbw_device_to_host;
use crate::framing::cbw_lun;
use crate::framing::cbw_tag;
use crate::framing::cbw_valid;
use crate::framing::Csw;
use crate::framing::CswStatus;
use crate::scsi::decode;
use crate::scsi::executed;
use crate::scsi::refusal;
use crate::scsi::Command;
use crate::scsi::DataDirection;
use crate::scsi::Given;
use crate::scsi::Outcome;
use crate::scsi::Sense;

verus! {

/// Where a session stands in the command, data, status cycle.
#[derive(Clone, Copy, Debug, PartialEq, Eq, Structural)]
pub enum SessionState {
    /// Waiting for a command wrapper.
    Idle,
    /// A command is accepted and its data stage is under way.
    ExpectingData,
    /// The status wrapper is on its way to the host.
    SendingStatus,
    /// Both bulk endpoints are stalled until a reset.
    Stalled,
}

/// What the data stage under way will end in.
#[derive(Clone, Copy, Debug, PartialEq, Eq, Structural)]
pub enum DataStage {
    /// No data stage is under way.
    NoStage,
    /// The response is on its way to the host; this status follows it.
    Sending { status: CswStatus, residue: u32 },
    /// The host sends more than the command can take: its data is dropped
    /// and a phase error follows.
    Discarding,
    /// The host sends the blocks of a WRITE(10).
    Writing { lba: u32, blocks: u16 },
}

/// What happened on the bus.
#[derive(Debug, PartialEq, Eq)]
pub enum Event {
    /// A transfer arrived on the bulk OUT endpoint.
    BulkOut(Vec<u8>),
    /// The transfer handed to the bulk IN endpoint is complete.
    BulkInDone,
    /// A Mass Storage Reset or a bus reset.
    Reset,
    /// An endpoint transfer failed.
    TransferError,
}

/// What to do on the bus next.
#[derive(Debug, PartialEq, Eq)]
pub enum Action {
    /// Wait for the next command wrapper on bulk OUT.
    AwaitCommand,
    /// Receive this many bytes of data on bulk OUT.
    ReceiveData(u32),
    /// Send these bytes of data on bulk IN.
    SendData(Vec<u8>),
    /// Send this status wrapper on bulk IN.
    SendStatus(Csw),
    /// Stall both bulk endpoints.
    Stall,
    /// Clear the stall on both bulk endpoints and wait for a command wrapper.
    ClearStall,
}

/// An action with its bytes as a sequence.
pub enum ActionView {
    AwaitCommand,
    ReceiveData(u32),
    SendData(Seq<u8>),
    SendStatus(Csw),
    Stall,
    ClearStall,
}

impl View for Action {
    type V = ActionView;

    open spec fn view(&self) -> ActionView {
        match self {
            Action::AwaitCommand => ActionView::AwaitCommand,
            Action::ReceiveData(n) => ActionView::ReceiveData(*n),
            Action::SendData(bytes) => ActionView::SendData(bytes@),
            Action::SendStatus(csw) => ActionView::SendStatus(*csw),
            Action::Stall => ActionView::Stall,
            Action::ClearStall => ActionView::ClearStall,
        }
    }
}

/// The state of one session: where it stands, the sense retained from the
/// last failure, and the context of the command under way.
#[derive(Clone, Copy, Debug, PartialEq, Eq, Structural)]
pub struct Session {
    pub state: SessionState,
    pub sense: Sense,
    /// Tag of the command under way.
    pub tag: u32,
    /// Data transfer length that its wrapper declared.
    pub declared: u32,
    pub stage: DataStage,
}

/// What is decided on a command before anything is run or moved.
#[derive(Clone, Copy, Debug, PartialEq, Eq)]
pub enum Plan {
    /// The command fails with this sense; no data stage.
    Refuse(Sense),
    /// Host and command disagree on the data stage; no data stage.
    PhaseError,
    /// Take the host's data and drop it.
    Discard,
    /// Take the host's data and write it.
    Write,
    /// Run the command now.
    Run,
}

/// The session after a reset: idle, no sense, no command context.
pub open spec fn fresh() -> Session {
    Session {
        state: SessionState::Idle,
        sense: Sense::NoSense,
        tag: 0,
        declared: 0,
        stage: DataStage::NoStage,
    }
}

/// Whether `post` and `act` are `pre` stalled.
pub open spec fn halted(pre: Session, post: Session, act: ActionView) -> bool {
    post == (Session { state: SessionState::Stalled, stage: DataStage::NoStage, ..pre }) && act
        == ActionView::Stall
}

/// Whether `post` and `act` are `pre` ending its command with a status
/// wrapper that carries the retained tag.
pub open spec fn finished(
    pre: Session,
    status: CswStatus,
    residue: int,
    post: Session,
    act: ActionView,
) -> bool {
    post == (Session { state: SessionState::SendingStatus, stage: DataStage::NoStage, ..pre })
        && act == ActionView::SendStatus(Csw { tag: pre.tag, residue: residue as u32, status })
}

/// Whether `post` and `act` are `pre` after its command ran with `status`
/// and `resp`. A command that did not pass ends with its status and the
/// whole declared length as residue. Of a response, at most the declared
/// length is sent and the rest of the declared length is residue; a response
/// longer than declared is a phase error. With nothing to send the status
/// follows at once.
pub open spec fn delivered(
    pre: Session,
    status: CswStatus,
    resp: Seq<u8>,
    post: Session,
    act: ActionView,
) -> bool {
    let sent = if resp.len() > pre.declared {
        pre.declared as int
    } else {
        resp.len() as int
    };
    let verdict = if resp.len() > pre.declared {
        CswStatus::PhaseError
    } else {
        CswStatus::Passed
    };
    if status != CswStatus::Passed {
        finished(pre, status, pre.declared as int, post, act)
    } else if sent == 0 {
        finished(pre, verdict, pre.declared as int, post, act)
    } else {
        post == (Session {
            state: SessionState::ExpectingData,
            stage: DataStage::Sending { status: verdict, residue: (pre.declared - sent) as u32 },
            ..pre
        }) && act == ActionView::SendData(resp.subrange(0, sent))
    }
}

/// What is decided on a command from its wrapper and the store's capacity.
/// A refused command fails. A write of no blocks, and every other command
/// that takes no host data, runs at once, unless it returns data and the
/// wrapper declares data for the other direction. A write of blocks needs a
/// wrapper that declares host data: its data is written when the wrapper
/// declares enough, and dropped otherwise.
pub open spec fn plan(
    cmd: Command,
    lun: u8,
    declared: u32,
    to_host: bool,
    block_size: nat,
    block_count: nat,
) -> Plan {
    match refusal(cmd, lun, block_size, block_count) {
        Some(sense) => Plan::Refuse(sense),
        None => match cmd.direction() {
            DataDirection::FromHost => if cmd.write_len(block_size) == 0 {
                Plan::Run
            } else if declared == 0 || to_host {
                Plan::PhaseError
            } else if cmd.write_len(block_size) > declared {
                Plan::Discard
            } else {
                Plan::Write
            },
            DataDirection::ToHost => if declared > 0 && !to_host {
                Plan::PhaseError
            } else {
                Plan::Run
            },
            DataDirection::NoData => Plan::Run,
        },
    }
}

/// Whether `post`, `after` and `act` are a correct answer of an idle
/// session to `packet` on bulk OUT. A packet that is no command wrapper
/// stalls the session. A wrapper's tag and declared length are retained,
/// and the command goes the way that `plan` decides.
pub open spec fn accepted(
    pre: Session,
    block_size: nat,
    blocks: Seq<Seq<u8>>,
    reliable: Set<int>,
    packet: Seq<u8>,
    post: Session,
    after: Seq<Seq<u8>>,
    act: ActionView,
) -> bool {
    if !cbw_valid(packet) {
        halted(pre, post, act) && after == blocks
    } else {
        let s = Session { tag: cbw_tag(packet) as u32, declared: cbw_data_len(packet) as u32, ..pre };
        let cmd = decode(cbw_command(packet));
        let lun = cbw_lun(packet) as u8;
        match plan(cmd, lun, s.declared, cbw_device_to_host(packet), block_size, blocks.len()) {
            Plan::Refuse(sense) => after == blocks && finished(
                Session { sense, ..s },
                CswStatus::Failed,
                s.declared as int,
                post,
                act,
            ),
            Plan::PhaseError => after == blocks && finished(
                s,
                CswStatus::PhaseError,
                s.declared as int,
                post,
                act,
            ),
            Plan::Discard => after == blocks && post == (Session {
                state: SessionState::ExpectingData,
                stage: DataStage::Discarding,
                ..s
            }) && act == ActionView::ReceiveData(s.declared),
            Plan::Write => after == blocks && act == ActionView::ReceiveData(s.declared)
                && match cmd {
                Command::Write10 { lba, blocks: count } => post == (Session {
                    state: SessionState::ExpectingData,
                    stage: DataStage::Writing { lba, blocks: count },
                    ..s
                }),
                _ => false,
            },
            Plan::Run => exists|status: CswStatus, resp: Seq<u8>|
                {
                    &&& #[trigger] executed(
                        Given {
                            cmd,
                            lun,
                            sense: pre.sense,
                            block_size,
                            blocks,
                            reliable,
                            data: Seq::empty(),
                        },
                        status,
                        resp,
                        post.sense,
                        after,
                    )
                    &&& delivered(Session { sense: post.sense, ..s }, status, resp, post, act)
                },
        }
    }
}

/// The residue after the data of a write was taken: what the wrapper
/// declared beyond the blocks when the write passed, all of it otherwise.
pub open spec fn write_residue(
    status: CswStatus,
    declared: u32,
    count: u16,
    block_size: nat,
) -> int {
    if status == CswStatus::Passed {
        declared - count * block_size
    } else {
        declared as int
    }
}

/// Whether `post`, `after` and `act` are a correct answer of a session in
/// its data stage to `data` on bulk OUT. Data to be dropped ends in a phase
/// error. Data of a write is written and the status says how that went;
/// fewer bytes than the blocks take are a phase error. A session that is
/// sending its response expects no transfer from the host and stalls.
pub open spec fn received(
    pre: Session,
    block_size: nat,
    blocks: Seq<Seq<u8>>,
    reliable: Set<int>,
    data: Seq<u8>,
    post: Session,
    after: Seq<Seq<u8>>,
    act: ActionView,
) -> bool {
    match pre.stage {
        DataStage::Discarding => after == blocks && finished(
            pre,
            CswStatus::PhaseError,
            pre.declared as int,
            post,
            act,
        ),
        DataStage::Writing { lba, blocks: count } => exists|status: CswStatus, resp: Seq<u8>|
            {
                &&& #[trigger] executed(
                    Given {
                        cmd: Command::Write10 { lba, blocks: count },
                        lun: 0,
                        sense: pre.sense,
                        block_size,
                        blocks,
                        reliable,
                        data,
                    },
                    status,
                    resp,
                    post.sense,
                    after,
                )
                &&& finished(
                    Session { sense: post.sense, ..pre },
                    status,
                    write_residue(status, pre.declared, count, block_size),
                    post,
                    act,
                )
            },
        _ => halted(pre, post, act) && after == blocks,
    }
}

/// Whether `post`, `after` and `act` are a correct answer of the session
/// `pre`, over a store that holds `blocks`, of which those in `reliable`
/// cannot fail, to the event `ev`.
///
/// A reset gives a fresh session from any state. A transfer error stalls.
/// A stalled session answers everything else with a stall. A completed
/// bulk IN transfer ends the data stage with the status that was kept for
/// it, or ends the status stage and makes the session idle. A transfer on
/// bulk OUT is a command wrapper for an idle session and data for one that
/// expects it; at any other time it stalls the session.
pub open spec fn stepped(
    pre: Session,
    block_size: nat,
    blocks: Seq<Seq<u8>>,
    reliable: Set<int>,
    ev: Event,
    post: Session,
    after: Seq<Seq<u8>>,
    act: ActionView,
) -> bool {
    match ev {
        Event::Reset => post == fresh() && act == ActionView::ClearStall && after == blocks,
        Event::TransferError => halted(pre, post, act) && after == blocks,
        Event::BulkInDone => after == blocks && match (pre.state, pre.stage) {
            (SessionState::ExpectingData, DataStage::Sending { status, residue }) => finished(
                pre,
                status,
                residue as int,
                post,
                act,
            ),
            (SessionState::SendingStatus, _) => post == (Session {
                state: SessionState::Idle,
                ..pre
            }) && act == ActionView::AwaitCommand,
            _ => halted(pre, post, act),
        },
        Event::BulkOut(data) => match pre.state {
            SessionState::Idle => accepted(
                pre,
                block_size,
                blocks,
                reliable,
                data@,
                post,
                after,
                act,
            ),
            SessionState::ExpectingData => received(
                pre,
                block_size,
                blocks,
                reliable,
                data@,
                post,
                after,
                act,
            ),
            _ => halted(pre, post, act) && after == blocks,
        },
    }
}

/// The invariant of a session over a store of `block_count` blocks of
/// `block_size` bytes: a data stage is recorded exactly while data is
/// expected, a kept residue is within the declared length, and a write
/// under way fits the store and the declared length.
pub open spec fn session_wf(s: Session, block_size: nat, block_count: nat) -> bool {
    &&& (s.state == SessionState::ExpectingData) == (s.stage != DataStage::NoStage)
    &&& match s.stage {
        DataStage::Sending { residue, .. } => residue <= s.declared,
        DataStage::Writing { lba, blocks } => lba + blocks <= block_count && blocks * block_size
            <= s.declared,
        _ => true,
    }
}

impl Session {
    /// A fresh session.
    pub fn new() -> (s: Session)
        ensures
            s == fresh(),
    {
        Session {
            state: SessionState::Idle,
            sense: Sense::NoSense,
            tag: 0,
            declared: 0,
            stage: DataStage::NoStage,
        }
    }

    /// Stalls the session.
    pub fn halt(&mut self) -> (act: Action)
        ensures
            halted(*old(self), *final(self), act@),
    {
        self.state = SessionState::Stalled;
        self.stage = DataStage::NoStage;
        Action::Stall
    }

    /// Ends the command under way with a status wrapper.
    pub fn finish(&mut self, status: CswStatus, residue: u32) -> (act: Action)
        ensures
            finished(*old(self), status, residue as int, *final(self), act@),
    {
        self.state = SessionState::SendingStatus;
        self.stage = DataStage::NoStage;
        Action::SendStatus(Csw { tag: self.tag, residue, status })
    }

    /// Moves on after the command under way has run.
    pub fn deliver(&mut self, outcome: Outcome) -> (act: Action)
        ensures
            delivered(*old(self), outcome.status, outcome.response@, *final(self), act@),
    {
        let declared: u32 = self.declared;
        match outcome.status {
            CswStatus::Passed => {},
            _ => {
                return self.finish(outcome.status, declared);
            },
        }
        let mut response = outcome.response;
        let over = response.len() > declared as usize;
        if over {
            response.truncate(declared as usize);
        }
        let verdict = if over {
            CswStatus::PhaseError
        } else {
            CswStatus::Passed
        };
        let sent: u32 = response.len() as u32;
        if sent == 0 {
            self.finish(verdict, declared)
        } else {
            assert(response@ =~= outcome.response@.subrange(0, sent as int));
            self.state = SessionState::ExpectingData;
            self.stage = DataStage::Sending { status: verdict, residue: declared - sent };
            Action::SendData(response)
        }
    }
}

} // verus!
