//! The mass storage class: a transport session over a block store, moved
//! on one bus event at a time.

use vstd::prelude::*;
use crate::control::Control;
use crate::control::ControlShared;
use crate::control::State;
use crate::executor::execute;
use crate::framing::Cbw;
use crate::framing::CswStatus;
use crate::scsi::screen;
use crate::scsi::Command;
use crate::scsi::DataDirection;
use crate::session::accepted;
use crate::session::fresh;
use crate::session::plan;
use crate::session::received;
use crate::session::session_wf;
use crate::session::stepped;
use crate::session::Action;
use crate::session::ActionView;
use crate::session::DataStage;
use crate::session::Event;
use crate::session::Plan;
use crate::session::Session;
use crate::session::SessionState;
use crate::store::well_formed;
use crate::store::BlockStore;

verus! {

/// Decides what to do with a command before anything is run or moved.
pub fn decide(
    cmd: &Command,
    lun: u8,
    declared: u32,
    to_host: bool,
    block_size: u32,
    block_count: u32,
) -> (p: Plan)
    ensures
        p == plan(*cmd, lun, declared, to_host, block_size as nat, block_count as nat),
{
    match screen(cmd, lun, block_size, block_count) {
        Some(sense) => {
            return Plan::Refuse(sense);
        },
        None => {},
    }
    match cmd.data_direction() {
        DataDirection::FromHost => {
            let needed: u64 = cmd.host_data_len(block_size);
            if needed == 0 {
                Plan::Run
            } else if declared == 0 || to_host {
                Plan::PhaseError
            } else if needed > declared as u64 {
                Plan::Discard
            } else {
                Plan::Write
            }
        },
        DataDirection::ToHost => if declared > 0 && !to_host {
            Plan::PhaseError
        } else {
            Plan::Run
        },
        DataDirection::NoData => Plan::Run,
    }
}

/// Bulk-Only Transport mass storage class over the block store `S`.
pub struct MassStorageSCSIClass<S: BlockStore> {
    pub session: Session,
    pub store: S,
}

impl<S: BlockStore> MassStorageSCSIClass<S> {
    /// The invariant: the store is well formed and the session fits it.
    pub open spec fn wf(&self) -> bool {
        &&& well_formed(self.store.block_size(), self.store.blocks())
        &&& session_wf(self.session, self.store.block_size(), self.store.blocks().len())
    }

    /// A class with a fresh session over `store`, for the interface numbered
    /// `ctrl_if_number`, whose control handler it installs in `state`.
    pub fn new(state: &mut State, ctrl_if_number: u8, store: S) -> (class: Self)
        requires
            well_formed(store.block_size(), store.blocks()),
        ensures
            class.wf(),
            class.session == fresh(),
            class.store == store,
            final(state).control == Some(Control { ctrl_if_number }),
            final(state).shared == old(state).shared,
    {
        state.bind(ctrl_if_number);
        MassStorageSCSIClass { session: Session::new(), store }
    }

    /// Answers a packet that arrived while the session was idle.
    fn accept(&mut self, packet: &[u8]) -> (act: Action)
        requires
            old(self).wf(),
            old(self).session.state == SessionState::Idle,
        ensures
            final(self).wf(),
            final(self).store.block_size() == old(self).store.block_size(),
            final(self).store.reliable() == old(self).store.reliable(),
            accepted(
                old(self).session,
                old(self).store.block_size(),
                old(self).store.blocks(),
                old(self).store.reliable(),
                packet@,
                final(self).session,
                final(self).store.blocks(),
                act@,
            ),
    {
        let cbw = match Cbw::parse(packet) {
            Ok(cbw) => cbw,
            Err(_) => {
                return self.session.halt();
            },
        };
        let cmd = Command::parse(cbw.command.as_slice());
        let (block_size, block_count) = self.store.capacity();
        self.session.tag = cbw.tag;
        self.session.declared = cbw.data_len;
        match decide(&cmd, cbw.lun, cbw.data_len, cbw.device_to_host, block_size, block_count) {
            Plan::Refuse(sense) => {
                self.session.sense = sense;
                self.session.finish(CswStatus::Failed, cbw.data_len)
            },
            Plan::PhaseError => self.session.finish(CswStatus::PhaseError, cbw.data_len),
            Plan::Discard => {
                self.session.state = SessionState::ExpectingData;
                self.session.stage = DataStage::Discarding;
                Action::ReceiveData(cbw.data_len)
            },
            Plan::Write => {
                match cmd {
                    Command::Write10 { lba, blocks } => {
                        self.session.stage = DataStage::Writing { lba, blocks };
                    },
                    _ => {},
                }
                self.session.state = SessionState::ExpectingData;
                Action::ReceiveData(cbw.data_len)
            },
            Plan::Run => {
                let none: Vec<u8> = Vec::new();
                let mut sense = self.session.sense;
                let outcome = execute(&mut self.store, &mut sense, cbw.lun, &cmd, none.as_slice());
                self.session.sense = sense;
                self.session.deliver(outcome)
            },
        }
    }

    /// Answers the data that arrived while the session expected data.
    fn receive(&mut self, data: &[u8]) -> (act: Action)
        requires
            old(self).wf(),
            old(self).session.state == SessionState::ExpectingData,
        ensures
            final(self).wf(),
            final(self).store.block_size() == old(self).store.block_size(),
            final(self).store.reliable() == old(self).store.reliable(),
            received(
                old(self).session,
                old(self).store.block_size(),
                old(self).store.blocks(),
                old(self).store.reliable(),
                data@,
                final(self).session,
                final(self).store.blocks(),
                act@,
            ),
    {
        let declared: u32 = self.session.declared;
        match self.session.stage {
            DataStage::Discarding => self.session.finish(CswStatus::PhaseError, declared),
            DataStage::Writing { lba, blocks } => {
                let cmd = Command::Write10 { lba, blocks };
                let (block_size, _) = self.store.capacity();
                let needed: u64 = cmd.host_data_len(block_size);
                let mut sense = self.session.sense;
                let outcome = execute(&mut self.store, &mut sense, 0, &cmd, data);
                self.session.sense = sense;
                let residue: u32 = match outcome.status {
                    CswStatus::Passed => (declared as u64 - needed) as u32,
                    _ => declared,
                };
                self.session.finish(outcome.status, residue)
            },
            _ => self.session.halt(),
        }
    }

    /// Moves the session on by one bus event and says what to do next.
    pub fn step(&mut self, event: Event) -> (act: Action)
        requires
            old(self).wf(),
        ensures
            final(self).wf(),
            final(self).store.block_size() == old(self).store.block_size(),
            final(self).store.reliable() == old(self).store.reliable(),
            stepped(
                old(self).session,
                old(self).store.block_size(),
                old(self).store.blocks(),
                old(self).store.reliable(),
                event,
                final(self).session,
                final(self).store.blocks(),
                act@,
            ),
    {
        match event {
            Event::Reset => {
                self.session = Session::new();
                Action::ClearStall
            },
            Event::TransferError => self.session.halt(),
            Event::BulkInDone => match self.session.state {
                SessionState::ExpectingData => match self.session.stage {
                    DataStage::Sending { status, residue } => self.session.finish(status, residue),
                    _ => self.session.halt(),
                },
                SessionState::SendingStatus => {
                    self.session.state = SessionState::Idle;
                    Action::AwaitCommand
                },
                _ => self.session.halt(),
            },
            Event::BulkOut(data) => match self.session.state {
                SessionState::Idle => self.accept(data.as_slice()),
                SessionState::ExpectingData => self.receive(data.as_slice()),
                _ => self.session.halt(),
            },
        }
    }

    /// Acts on a reset that the control path requested: takes the request
    /// from the shared state and, if there was one, resets the session.
    pub fn service_reset(&mut self, shared: &mut ControlShared) -> (act: Option<Action>)
        requires
            old(self).wf(),
        ensures
            final(self).wf(),
            !final(shared).reset_pending,
            final(self).store == old(self).store,
            match act {
                Some(a) => old(shared).reset_pending && final(self).session == fresh() && a@
                    == ActionView::ClearStall,
                None => !old(shared).reset_pending && final(self).session == old(self).session,
            },
    {
        if shared.take_reset() {
            self.session = Session::new();
            Some(Action::ClearStall)
        } else {
            None
        }
    }
}

} // verus!
