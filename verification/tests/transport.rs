use usb_mass_storage::class::{decide, MassStorageSCSIClass};
use usb_mass_storage::control::{Control, ControlShared, State};
use usb_mass_storage::framing::{Csw, CswStatus};
use usb_mass_storage::scsi::{inquiry_bytes, Command, Outcome, Sense};
use usb_mass_storage::session::{Action, DataStage, Event, Plan, Session, SessionState};
use usb_mass_storage::store::{BlockStore, RamDisk};

const TO_HOST: u8 = 0x80;
const FROM_HOST: u8 = 0x00;

fn wrapper(tag: u32, len: u32, flags: u8, lun: u8, cdb: &[u8]) -> Vec<u8> {
    let mut p = vec![0x55, 0x53, 0x42, 0x43];
    p.extend_from_slice(&tag.to_le_bytes());
    p.extend_from_slice(&len.to_le_bytes());
    p.push(flags);
    p.push(lun);
    p.push(cdb.len() as u8);
    let mut block = [0u8; 16];
    block[..cdb.len()].copy_from_slice(cdb);
    p.extend_from_slice(&block);
    p
}

fn read10(lba: u32, blocks: u16) -> Vec<u8> {
    let l = lba.to_be_bytes();
    let n = blocks.to_be_bytes();
    vec![0x28, 0, l[0], l[1], l[2], l[3], 0, n[0], n[1], 0]
}

fn write10(lba: u32, blocks: u16) -> Vec<u8> {
    let l = lba.to_be_bytes();
    let n = blocks.to_be_bytes();
    vec![0x2A, 0, l[0], l[1], l[2], l[3], 0, n[0], n[1], 0]
}

fn class(block_size: u32, block_count: u32) -> MassStorageSCSIClass<RamDisk> {
    let mut state = State::new();
    MassStorageSCSIClass::new(&mut state, 0, RamDisk::new(block_size, block_count))
}

fn command(c: &mut MassStorageSCSIClass<RamDisk>, tag: u32, len: u32, flags: u8, cdb: &[u8]) -> Action {
    c.step(Event::BulkOut(wrapper(tag, len, flags, 0, cdb)))
}

fn status(tag: u32, residue: u32, status: CswStatus) -> Action {
    Action::SendStatus(Csw { tag, residue, status })
}

/// Sends a command that returns data, checks the status, and gives the data.
fn fetch(c: &mut MassStorageSCSIClass<RamDisk>, tag: u32, len: u32, cdb: &[u8]) -> Vec<u8> {
    let data = match command(c, tag, len, TO_HOST, cdb) {
        Action::SendData(data) => data,
        other => panic!("no data stage: {:?}", other),
    };
    assert_eq!(c.session.state, SessionState::ExpectingData);
    let residue = len - data.len() as u32;
    assert_eq!(c.step(Event::BulkInDone), status(tag, residue, CswStatus::Passed));
    assert_eq!(c.session.state, SessionState::SendingStatus);
    assert_eq!(c.step(Event::BulkInDone), Action::AwaitCommand);
    assert_eq!(c.session.state, SessionState::Idle);
    data
}

#[test]
fn new_class_installs_the_control_handler() {
    let mut state = State::new();
    let c = MassStorageSCSIClass::new(&mut state, 3, RamDisk::new(4, 2));
    assert_eq!(state.control.map(|c: Control| c.ctrl_if_number), Some(3));
    assert!(!state.shared.reset_pending);
    assert_eq!(c.store.capacity(), (4, 2));
}

#[test]
fn new_class_is_idle() {
    let c = class(512, 4);
    assert_eq!(
        c.session,
        Session {
            state: SessionState::Idle,
            sense: Sense::NoSense,
            tag: 0,
            declared: 0,
            stage: DataStage::NoStage
        }
    );
    assert_eq!(Session::new(), c.session);
}

#[test]
fn status_carries_the_command_tag() {
    let mut c = class(512, 4);
    for tag in [0u32, 1, 0x1234_5678, u32::MAX] {
        assert_eq!(command(&mut c, tag, 0, FROM_HOST, &[0x00]), status(tag, 0, CswStatus::Passed));
        assert_eq!(c.step(Event::BulkInDone), Action::AwaitCommand);
        let sent = command(&mut c, tag, 36, TO_HOST, &[0x12, 0, 0, 0, 36, 0]);
        assert_eq!(sent, Action::SendData(inquiry_bytes()));
        assert_eq!(c.step(Event::BulkInDone), status(tag, 0, CswStatus::Passed));
        assert_eq!(c.step(Event::BulkInDone), Action::AwaitCommand);
    }
}

#[test]
fn zero_length_wrapper_has_no_data_stage() {
    let mut c = class(512, 4);
    assert_eq!(command(&mut c, 7, 0, TO_HOST, &[0x00]), status(7, 0, CswStatus::Passed));
    assert_eq!(c.session.state, SessionState::SendingStatus);
    assert_eq!(c.step(Event::BulkInDone), Action::AwaitCommand);
    assert_eq!(command(&mut c, 8, 0, TO_HOST, &[0x12]), status(8, 0, CswStatus::PhaseError));
    assert_eq!(c.step(Event::BulkInDone), Action::AwaitCommand);
    assert_eq!(command(&mut c, 9, 0, FROM_HOST, &write10(0, 1)), status(9, 0, CswStatus::PhaseError));
    assert_eq!(c.step(Event::BulkInDone), Action::AwaitCommand);
    assert_eq!(command(&mut c, 10, 0, FROM_HOST, &write10(0, 0)), status(10, 0, CswStatus::Passed));
    assert_eq!(c.step(Event::BulkInDone), Action::AwaitCommand);
    assert_eq!(command(&mut c, 11, 0, TO_HOST, &[0xEE]), status(11, 0, CswStatus::Failed));
}

#[test]
fn shortfall_is_reported_as_residue() {
    let mut c = class(512, 4);
    assert_eq!(fetch(&mut c, 1, 100, &[0x12]).len(), 36);
    assert_eq!(
        command(&mut c, 2, 100, TO_HOST, &[0x12]),
        Action::SendData(inquiry_bytes())
    );
    assert_eq!(c.session.stage, DataStage::Sending { status: CswStatus::Passed, residue: 64 });
    assert_eq!(c.step(Event::BulkInDone), status(2, 64, CswStatus::Passed));
    assert_eq!(c.step(Event::BulkInDone), Action::AwaitCommand);
    assert_eq!(command(&mut c, 3, 9, FROM_HOST, &[0x00]), status(3, 9, CswStatus::Passed));
}

#[test]
fn response_is_capped_at_the_declared_length() {
    let mut c = class(512, 4);
    let sent = command(&mut c, 5, 10, TO_HOST, &[0x12]);
    assert_eq!(sent, Action::SendData(inquiry_bytes()[..10].to_vec()));
    assert_eq!(c.step(Event::BulkInDone), status(5, 0, CswStatus::PhaseError));
    assert_eq!(c.step(Event::BulkInDone), Action::AwaitCommand);
    let sent = command(&mut c, 6, 700, TO_HOST, &read10(0, 2));
    assert_eq!(sent, Action::SendData(vec![0u8; 700]));
    assert_eq!(c.step(Event::BulkInDone), status(6, 0, CswStatus::PhaseError));
}

#[test]
fn deliver_caps_and_keeps_the_residue() {
    let mut s = Session::new();
    s.tag = 3;
    s.declared = 4;
    let act = s.deliver(Outcome { status: CswStatus::Passed, response: vec![1, 2, 3, 4, 5, 6] });
    assert_eq!(act, Action::SendData(vec![1, 2, 3, 4]));
    assert_eq!(s.stage, DataStage::Sending { status: CswStatus::PhaseError, residue: 0 });
    let mut s = Session::new();
    s.declared = 4;
    let act = s.deliver(Outcome { status: CswStatus::Passed, response: vec![1] });
    assert_eq!(act, Action::SendData(vec![1]));
    assert_eq!(s.stage, DataStage::Sending { status: CswStatus::Passed, residue: 3 });
    let mut s = Session::new();
    s.declared = 4;
    let act = s.deliver(Outcome { status: CswStatus::Failed, response: vec![] });
    assert_eq!(act, status(0, 4, CswStatus::Failed));
    assert_eq!(s.state, SessionState::SendingStatus);
    assert_eq!(s.finish(CswStatus::Passed, 1), status(0, 1, CswStatus::Passed));
    assert_eq!(s.halt(), Action::Stall);
    assert_eq!(s.state, SessionState::Stalled);
}

#[test]
fn reset_makes_every_state_idle() {
    // Idle
    let mut c = class(512, 4);
    assert_eq!(c.step(Event::Reset), Action::ClearStall);
    assert_eq!(c.session, Session::new());
    // ExpectingData, response on its way
    command(&mut c, 1, 36, TO_HOST, &[0x12]);
    assert_eq!(c.session.state, SessionState::ExpectingData);
    assert_eq!(c.step(Event::Reset), Action::ClearStall);
    assert_eq!(c.session, Session::new());
    // ExpectingData, host data awaited
    assert_eq!(command(&mut c, 2, 512, FROM_HOST, &write10(0, 1)), Action::ReceiveData(512));
    assert_eq!(c.session.state, SessionState::ExpectingData);
    assert_eq!(c.step(Event::Reset), Action::ClearStall);
    assert_eq!(c.session, Session::new());
    // SendingStatus, with sense retained
    command(&mut c, 3, 0, FROM_HOST, &[0xEE]);
    assert_eq!(c.session.state, SessionState::SendingStatus);
    assert_eq!(c.session.sense, Sense::InvalidCommand);
    assert_eq!(c.step(Event::Reset), Action::ClearStall);
    assert_eq!(c.session, Session::new());
    // Stalled
    assert_eq!(c.step(Event::BulkOut(vec![0; 31])), Action::Stall);
    assert_eq!(c.session.state, SessionState::Stalled);
    assert_eq!(c.step(Event::Reset), Action::ClearStall);
    assert_eq!(c.session, Session::new());
    assert_eq!(command(&mut c, 4, 0, FROM_HOST, &[0x00]), status(4, 0, CswStatus::Passed));
}

#[test]
fn bad_signature_stalls_until_reset() {
    let mut c = class(512, 4);
    let mut p = wrapper(1, 0, 0, 0, &[0x00]);
    p[0] = 0x00;
    assert_eq!(c.step(Event::BulkOut(p)), Action::Stall);
    assert_eq!(c.session.state, SessionState::Stalled);
    assert_eq!(command(&mut c, 2, 0, 0, &[0x00]), Action::Stall);
    assert_eq!(c.step(Event::BulkInDone), Action::Stall);
    assert_eq!(c.step(Event::TransferError), Action::Stall);
    assert_eq!(c.session.state, SessionState::Stalled);
    assert_eq!(c.step(Event::Reset), Action::ClearStall);
    assert_eq!(c.session.state, SessionState::Idle);
    assert_eq!(command(&mut c, 3, 0, 0, &[0x00]), status(3, 0, CswStatus::Passed));
}

#[test]
fn malformed_wrappers_stall() {
    let mut c = class(512, 4);
    assert_eq!(c.step(Event::BulkOut(vec![0x55, 0x53, 0x42, 0x43])), Action::Stall);
    c.step(Event::Reset);
    let mut p = wrapper(1, 0, 0, 0, &[0x00]);
    p[14] = 0;
    assert_eq!(c.step(Event::BulkOut(p)), Action::Stall);
    c.step(Event::Reset);
    let mut p = wrapper(1, 0, 0, 0, &[0x00]);
    p[14] = 17;
    assert_eq!(c.step(Event::BulkOut(p)), Action::Stall);
    assert_eq!(c.session.state, SessionState::Stalled);
}

#[test]
fn command_before_status_is_sent_stalls() {
    let mut c = class(512, 4);
    command(&mut c, 1, 36, TO_HOST, &[0x12]);
    assert_eq!(command(&mut c, 2, 36, TO_HOST, &[0x12]), Action::Stall);
    c.step(Event::Reset);
    command(&mut c, 3, 0, TO_HOST, &[0x00]);
    assert_eq!(c.session.state, SessionState::SendingStatus);
    assert_eq!(command(&mut c, 4, 0, TO_HOST, &[0x00]), Action::Stall);
    c.step(Event::Reset);
    assert_eq!(c.step(Event::BulkInDone), Action::Stall);
}

#[test]
fn transfer_error_stalls() {
    let mut c = class(512, 4);
    command(&mut c, 1, 512, FROM_HOST, &write10(0, 1));
    assert_eq!(c.step(Event::TransferError), Action::Stall);
    assert_eq!(c.session.state, SessionState::Stalled);
    assert_eq!(c.session.stage, DataStage::NoStage);
}

#[test]
fn inquiry_sense_bad_read_sense_sequence() {
    let mut c = class(512, 8);
    assert_eq!(fetch(&mut c, 1, 36, &[0x12, 0, 0, 0, 36, 0]), inquiry_bytes());
    assert_eq!(
        fetch(&mut c, 2, 18, &[0x03, 0, 0, 0, 18, 0]),
        vec![0x70, 0, 0, 0, 0, 0, 0, 10, 0, 0, 0, 0, 0, 0, 0, 0, 0, 0]
    );
    assert_eq!(
        command(&mut c, 3, 512, TO_HOST, &read10(8, 1)),
        status(3, 512, CswStatus::Failed)
    );
    assert_eq!(c.step(Event::BulkInDone), Action::AwaitCommand);
    assert_eq!(
        fetch(&mut c, 4, 18, &[0x03, 0, 0, 0, 18, 0]),
        vec![0x70, 0, 0x05, 0, 0, 0, 0, 10, 0, 0, 0, 0, 0x21, 0, 0, 0, 0, 0]
    );
    assert_eq!(fetch(&mut c, 5, 18, &[0x03, 0, 0, 0, 18, 0]), Sense::NoSense.to_bytes());
}

#[test]
fn unknown_command_and_unknown_lun_fail_with_sense() {
    let mut c = class(512, 8);
    assert_eq!(command(&mut c, 1, 0, 0, &[0xAB]), status(1, 0, CswStatus::Failed));
    c.step(Event::BulkInDone);
    assert_eq!(fetch(&mut c, 2, 18, &[0x03])[12], 0x20);
    let act = c.step(Event::BulkOut(wrapper(3, 36, TO_HOST, 1, &[0x12])));
    assert_eq!(act, status(3, 36, CswStatus::Failed));
    assert_eq!(c.session.sense, Sense::LbaOutOfRange);
}

#[test]
fn write_then_read_round_trip() {
    let mut c = class(4, 8);
    let data: Vec<u8> = (10..22).collect();
    assert_eq!(command(&mut c, 1, 12, FROM_HOST, &write10(3, 3)), Action::ReceiveData(12));
    assert_eq!(c.session.stage, DataStage::Writing { lba: 3, blocks: 3 });
    assert_eq!(c.step(Event::BulkOut(data.clone())), status(1, 0, CswStatus::Passed));
    assert_eq!(c.step(Event::BulkInDone), Action::AwaitCommand);
    assert_eq!(fetch(&mut c, 2, 12, &read10(3, 3)), data);
    assert_eq!(fetch(&mut c, 3, 8, &read10(2, 2)), vec![0, 0, 0, 0, 10, 11, 12, 13]);
    assert_eq!(c.store.read_block(5), Some(vec![18, 19, 20, 21]));
    assert_eq!(fetch(&mut c, 4, 8, &[0x25]), vec![0, 0, 0, 7, 0, 0, 0, 4]);
}

#[test]
fn write_with_more_declared_than_needed_leaves_residue() {
    let mut c = class(4, 8);
    assert_eq!(command(&mut c, 1, 10, FROM_HOST, &write10(0, 2)), Action::ReceiveData(10));
    let act = c.step(Event::BulkOut(vec![1, 2, 3, 4, 5, 6, 7, 8, 9, 10]));
    assert_eq!(act, status(1, 2, CswStatus::Passed));
    assert_eq!(c.store.read_block(1), Some(vec![5, 6, 7, 8]));
    assert_eq!(c.store.read_block(2), Some(vec![0, 0, 0, 0]));
}

#[test]
fn under_allocated_write_is_dropped_with_a_phase_error() {
    let mut c = class(4, 8);
    assert_eq!(command(&mut c, 1, 4, FROM_HOST, &write10(0, 2)), Action::ReceiveData(4));
    assert_eq!(c.session.stage, DataStage::Discarding);
    assert_eq!(c.step(Event::BulkOut(vec![1, 2, 3, 4])), status(1, 4, CswStatus::PhaseError));
    assert_eq!(c.store.read_block(0), Some(vec![0, 0, 0, 0]));
    assert_eq!(c.step(Event::BulkInDone), Action::AwaitCommand);
}

#[test]
fn short_write_data_is_a_phase_error() {
    let mut c = class(4, 8);
    assert_eq!(command(&mut c, 1, 8, FROM_HOST, &write10(0, 2)), Action::ReceiveData(8));
    assert_eq!(c.step(Event::BulkOut(vec![1, 2, 3])), status(1, 8, CswStatus::PhaseError));
    assert_eq!(c.store.read_block(0), Some(vec![0, 0, 0, 0]));
}

#[test]
fn direction_mismatch_is_a_phase_error() {
    let mut c = class(4, 8);
    assert_eq!(command(&mut c, 1, 36, FROM_HOST, &[0x12]), status(1, 36, CswStatus::PhaseError));
    c.step(Event::BulkInDone);
    assert_eq!(command(&mut c, 2, 4, TO_HOST, &write10(0, 1)), status(2, 4, CswStatus::PhaseError));
}

#[test]
fn medium_failure_fails_the_command() {
    let mut disk = RamDisk::new(4, 8);
    disk.set_bad_block(Some(1));
    let mut state = State::new();
    let mut c = MassStorageSCSIClass::new(&mut state, 0, disk);
    assert_eq!(command(&mut c, 1, 8, TO_HOST, &read10(0, 2)), status(1, 8, CswStatus::Failed));
    assert_eq!(c.session.sense, Sense::MediumError);
    c.step(Event::BulkInDone);
    assert_eq!(fetch(&mut c, 2, 18, &[0x03])[2], 0x03);
    assert_eq!(command(&mut c, 3, 8, FROM_HOST, &write10(0, 2)), Action::ReceiveData(8));
    assert_eq!(c.step(Event::BulkOut(vec![9; 8])), status(3, 8, CswStatus::Failed));
    assert_eq!(c.session.sense, Sense::MediumError);
}

#[test]
fn read_at_the_block_count_fails_even_for_no_blocks() {
    let mut c = class(4, 8);
    for (tag, blocks, len) in [(1u32, 0u16, 0u32), (2, 0, 4), (3, 1, 4), (4, 2, 8)] {
        assert_eq!(
            command(&mut c, tag, len, TO_HOST, &read10(8, blocks)),
            status(tag, len, CswStatus::Failed)
        );
        assert_eq!(c.session.sense, Sense::LbaOutOfRange);
        assert_eq!(c.step(Event::BulkInDone), Action::AwaitCommand);
        assert_eq!(c.session.state, SessionState::Idle);
        assert_eq!(fetch(&mut c, tag + 100, 18, &[0x03])[12], 0x21);
    }
    assert_eq!(command(&mut c, 9, 0, TO_HOST, &read10(7, 0)), status(9, 0, CswStatus::Passed));
    assert_eq!(c.step(Event::BulkInDone), Action::AwaitCommand);
    assert_eq!(command(&mut c, 10, 0, FROM_HOST, &write10(8, 0)), status(10, 0, CswStatus::Failed));
    assert_eq!(c.step(Event::BulkInDone), Action::AwaitCommand);
    assert_eq!(command(&mut c, 11, 0, TO_HOST, &read10(u32::MAX, 0)), status(11, 0, CswStatus::Failed));
}

#[test]
fn bad_block_outside_the_range_does_not_fail_the_round_trip() {
    let mut disk = RamDisk::new(4, 8);
    disk.set_bad_block(Some(5));
    let mut state = State::new();
    let mut c = MassStorageSCSIClass::new(&mut state, 0, disk);
    let data: Vec<u8> = (1..=12).collect();
    assert_eq!(command(&mut c, 21, 12, FROM_HOST, &write10(2, 3)), Action::ReceiveData(12));
    assert_eq!(c.step(Event::BulkOut(data.clone())), status(21, 0, CswStatus::Passed));
    assert_eq!(c.step(Event::BulkInDone), Action::AwaitCommand);
    assert_eq!(command(&mut c, 22, 12, TO_HOST, &read10(2, 3)), Action::SendData(data));
    assert_eq!(c.step(Event::BulkInDone), status(22, 0, CswStatus::Passed));
    assert_eq!(c.step(Event::BulkInDone), Action::AwaitCommand);
    assert_eq!(command(&mut c, 23, 8, TO_HOST, &read10(4, 2)), status(23, 8, CswStatus::Failed));
    assert_eq!(c.session.sense, Sense::MediumError);
}

#[test]
fn out_of_range_write_fails_without_a_data_stage() {
    let mut c = class(4, 8);
    assert_eq!(command(&mut c, 1, 8, FROM_HOST, &write10(7, 2)), status(1, 8, CswStatus::Failed));
    assert_eq!(c.session.sense, Sense::LbaOutOfRange);
}

#[test]
fn plans() {
    let w = Command::Write10 { lba: 0, blocks: 2 };
    assert_eq!(decide(&w, 0, 1024, false, 512, 8), Plan::Write);
    assert_eq!(decide(&w, 0, 1023, false, 512, 8), Plan::Discard);
    assert_eq!(decide(&w, 0, 1024, true, 512, 8), Plan::PhaseError);
    assert_eq!(decide(&w, 0, 0, false, 512, 8), Plan::PhaseError);
    assert_eq!(decide(&w, 0, 1024, false, 512, 1), Plan::Refuse(Sense::LbaOutOfRange));
    assert_eq!(decide(&Command::Write10 { lba: 0, blocks: 0 }, 0, 5, false, 512, 8), Plan::Run);
    assert_eq!(decide(&Command::Inquiry, 0, 36, true, 512, 8), Plan::Run);
    assert_eq!(decide(&Command::Inquiry, 0, 36, false, 512, 8), Plan::PhaseError);
    assert_eq!(decide(&Command::Inquiry, 0, 0, false, 512, 8), Plan::Run);
    assert_eq!(decide(&Command::TestUnitReady, 0, 5, false, 512, 8), Plan::Run);
}

#[test]
fn pending_reset_is_served_once() {
    let mut c = class(4, 8);
    let mut shared = ControlShared::new();
    assert_eq!(c.service_reset(&mut shared), None);
    c.step(Event::BulkOut(vec![1, 2, 3]));
    assert_eq!(c.session.state, SessionState::Stalled);
    shared.request_reset();
    assert_eq!(c.service_reset(&mut shared), Some(Action::ClearStall));
    assert_eq!(c.session, Session::new());
    assert!(!shared.reset_pending);
    assert_eq!(c.service_reset(&mut shared), None);
}
