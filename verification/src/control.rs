//! The class-specific control requests, Bulk-Only Mass Storage Reset and
//! Get Max LUN, and the state they share with the bulk data path.

use vstd::prelude::*;
use embassy_sync::waitqueue::WakerRegistration;
use crate::scsi::LUN_COUNT;

verus! {

/// Request code of Bulk-Only Mass Storage Reset.
pub const REQ_MASS_STORAGE_RESET: u8 = 0xFF;

/// Request code of Get Max LUN.
pub const REQ_GET_MAX_LUN: u8 = 0xFE;

/// Interface class code: mass storage.
pub const USB_INTERFACE_CLASS: u8 = 0x08;

/// Interface subclass code: SCSI transparent command set.
pub const USB_SUBCLASS_SCSI: u8 = 0x06;

/// Interface subclass code used by this class.
pub const USB_INTERFACE_SUBCLASS: u8 = 0x06;

/// Interface protocol code: Bulk-Only Transport.
pub const USB_PROTOCOL_BULK_ONLY_TRANSPORT: u8 = 0x50;

/// `embassy_sync::waitqueue::WakerRegistration`, carried as an opaque value:
/// a slot for the waker of at most one waiting task.
#[verifier::external_type_specification]
#[verifier::external_body]
pub struct ExWakerRegistration(WakerRegistration);

/// Whether a task's waker is held by the registration: what
/// `WakerRegistration::occupied` reports.
pub uninterp spec fn waker_registered(w: WakerRegistration) -> bool;

/// `WakerRegistration::new`: a registration that holds no waker.
#[verifier::external_body]
fn new_registration() -> (w: WakerRegistration)
    ensures
        !waker_registered(w),
{
    WakerRegistration::new()
}

/// `WakerRegistration::wake`: takes the held waker out, if there is one, and
/// wakes its task; afterwards none is held.
#[verifier::external_body]
fn wake_registered(w: &mut WakerRegistration)
    ensures
        !waker_registered(*final(w)),
{
    w.wake()
}

/// Type of a control request.
#[derive(Clone, Copy, Debug, PartialEq, Eq, Structural)]
pub enum RequestType {
    Standard,
    Class,
    Vendor,
    Reserved,
}

/// Recipient of a control request.
#[derive(Clone, Copy, Debug, PartialEq, Eq, Structural)]
pub enum Recipient {
    Device,
    Interface,
    Endpoint,
    Other,
    Reserved,
}

/// The setup data of a control transfer.
#[derive(Clone, Copy, Debug, PartialEq, Eq, Structural)]
pub struct Request {
    pub request_type: RequestType,
    pub recipient: Recipient,
    pub request: u8,
    pub value: u16,
    pub index: u16,
    pub length: u16,
}

/// Answer to a host-to-device control request.
#[derive(Clone, Copy, Debug, PartialEq, Eq, Structural)]
pub enum OutResponse {
    Accepted,
    Rejected,
}

/// Answer to a device-to-host control request.
#[derive(Debug, PartialEq, Eq)]
pub enum InResponse {
    /// Accepted, with the bytes to return.
    Accepted(Vec<u8>),
    Rejected,
}

/// State shared by the control path and the bulk data path: the request
/// for a reset, and the waker of the task that waits for a change.
pub struct ControlShared {
    pub waker: WakerRegistration,
    pub reset_pending: bool,
}

impl ControlShared {
    /// Shared state with no reset requested and nobody waiting.
    pub fn new() -> (s: ControlShared)
        ensures
            !s.reset_pending,
            !waker_registered(s.waker),
    {
        ControlShared { waker: new_registration(), reset_pending: false }
    }

    /// Requests a reset of the bulk session and wakes the waiting task.
    pub fn request_reset(&mut self)
        ensures
            final(self).reset_pending,
            !waker_registered(final(self).waker),
    {
        self.reset_pending = true;
        wake_registered(&mut self.waker);
    }

    /// Consumes a pending reset request: says whether one was pending,
    /// clears it, and in that case wakes the waiting task.
    pub fn take_reset(&mut self) -> (was_pending: bool)
        ensures
            was_pending == old(self).reset_pending,
            !final(self).reset_pending,
            was_pending ==> !waker_registered(final(self).waker),
            !was_pending ==> final(self).waker == old(self).waker,
    {
        let was_pending = self.reset_pending;
        if was_pending {
            self.reset_pending = false;
            wake_registered(&mut self.waker);
        }
        was_pending
    }
}

impl Default for ControlShared {
    fn default() -> (s: ControlShared)
        ensures
            !s.reset_pending,
            !waker_registered(s.waker),
    {
        ControlShared::new()
    }
}

/// Whether a request is addressed to the class on interface `interface`:
/// a class request to an interface, with that interface's number as index.
pub open spec fn addressed_to(interface: u8, req: Request) -> bool {
    &&& req.request_type == RequestType::Class
    &&& req.recipient == Recipient::Interface
    &&& req.index == interface as u16
}

/// The answer to a host-to-device request: none when it is for another
/// handler, accepted for a Mass Storage Reset, rejected otherwise.
pub open spec fn out_answer(interface: u8, req: Request) -> Option<OutResponse> {
    if !addressed_to(interface, req) {
        None
    } else if req.request == REQ_MASS_STORAGE_RESET {
        Some(OutResponse::Accepted)
    } else {
        Some(OutResponse::Rejected)
    }
}

/// The answer to a device-to-host request: none when it is for another
/// handler; the highest logical unit number, in one byte, for a Get Max LUN
/// of length 1; rejected otherwise.
pub open spec fn in_answer(interface: u8, req: Request) -> Option<Option<Seq<u8>>> {
    if !addressed_to(interface, req) {
        None
    } else if req.request == REQ_GET_MAX_LUN && req.length == 1 {
        Some(Some(seq![(LUN_COUNT - 1) as u8]))
    } else {
        Some(None)
    }
}

/// The control request handler of one mass storage interface.
#[derive(Clone, Copy, Debug)]
pub struct Control {
    pub ctrl_if_number: u8,
}

impl Control {
    fn owns(&self, req: &Request) -> (b: bool)
        ensures
            b == addressed_to(self.ctrl_if_number, *req),
    {
        req.request_type == RequestType::Class && req.recipient == Recipient::Interface
            && req.index == self.ctrl_if_number as u16
    }

    /// Bus reset: requests a reset of the bulk session, as a Mass Storage
    /// Reset does.
    pub fn reset(&mut self, shared: &mut ControlShared)
        ensures
            *final(self) == *old(self),
            final(shared).reset_pending,
            !waker_registered(final(shared).waker),
    {
        shared.request_reset();
    }

    /// Handles a host-to-device control request. A Mass Storage Reset is
    /// accepted whatever its payload, and requests a reset of the bulk
    /// session; nothing else touches the shared state.
    pub fn control_out(&mut self, shared: &mut ControlShared, req: Request, data: &[u8]) -> (r:
        Option<OutResponse>)
        ensures
            *final(self) == *old(self),
            r == out_answer(old(self).ctrl_if_number, req),
            r == Some(OutResponse::Accepted) ==> final(shared).reset_pending && !waker_registered(
                final(shared).waker,
            ),
            r != Some(OutResponse::Accepted) ==> *final(shared) == *old(shared),
    {
        if !self.owns(&req) {
            return None;
        }
        if req.request == REQ_MASS_STORAGE_RESET {
            shared.request_reset();
            Some(OutResponse::Accepted)
        } else {
            Some(OutResponse::Rejected)
        }
    }

    /// Handles a device-to-host control request.
    pub fn control_in(&mut self, req: Request) -> (r: Option<InResponse>)
        ensures
            *final(self) == *old(self),
            match r {
                None => in_answer(old(self).ctrl_if_number, req) is None,
                Some(InResponse::Rejected) => in_answer(old(self).ctrl_if_number, req) == Some(
                    None::<Seq<u8>>,
                ),
                Some(InResponse::Accepted(bytes)) => in_answer(old(self).ctrl_if_number, req) == Some(
                    Some(bytes@),
                ),
            },
    {
        if !self.owns(&req) {
            return None;
        }
        if req.request == REQ_GET_MAX_LUN && req.length == 1 {
            let bytes: Vec<u8> = vec![LUN_COUNT - 1];
            assert(bytes@ =~= seq![(LUN_COUNT - 1) as u8]);
            Some(InResponse::Accepted(bytes))
        } else {
            Some(InResponse::Rejected)
        }
    }
}

/// The state of one mass storage interface that outlives the class value:
/// the control handler, once the interface has its number, and the state it
/// shares with the data path.
pub struct State {
    pub control: Option<Control>,
    pub shared: ControlShared,
}

impl State {
    /// Create a new `State`.
    pub fn new() -> (s: State)
        ensures
            s.control is None,
            !s.shared.reset_pending,
            !waker_registered(s.shared.waker),
    {
        State { control: None, shared: ControlShared::new() }
    }

    /// Installs the control handler for interface `ctrl_if_number`.
    pub fn bind(&mut self, ctrl_if_number: u8)
        ensures
            final(self).control == Some(Control { ctrl_if_number }),
            final(self).shared == old(self).shared,
    {
        self.control = Some(Control { ctrl_if_number });
    }
}

impl Default for State {
    fn default() -> (s: State)
        ensures
            s.control is None,
            !s.shared.reset_pending,
            !waker_registered(s.shared.waker),
    {
        State::new()
    }
}

} // verus!
