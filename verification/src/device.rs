//! The output devices: the buffered USB transport and the pass-through
//! sinks.
//!
//! [`Usb`] never blocks on hardware when written to. Bytes pile up in its
//! pending buffer until a flush, which empties the buffer whatever happens
//! next and then, through a [`Flushing`], walks the device through reset,
//! configuration and one bulk transfer of everything that was pending.

use vstd::prelude::*;
use crate::descriptor::Device;
use crate::discovery::{discovers, no_printer, no_printer_discovers_nothing, Endpoint};
use crate::session::{
    configure_endpoint, stages_done, configuration_plan, Cause, Error, Reply, Request, Stage,
    TRANSFER_TIMEOUT_SECS,
};

verus! {

/// What construction does when discovery found no printer.
#[derive(Clone, Copy, Debug, PartialEq, Eq, Structural)]
pub enum Absence {
    /// Construction fails.
    Fatal,
    /// Construction yields a transport that accepts and silently discards
    /// everything written to it.
    Tolerated,
}

/// Where a flush in progress stands: the request it is waiting on.
#[derive(Clone, Copy, Debug, PartialEq, Eq, Structural)]
pub enum Phase {
    Resetting,
    Configuring(Stage),
    Transferring,
}

/// The requests of one flush, in the order in which they are issued: a
/// reset, the three configuration stages, and a single bulk transfer to the
/// located endpoint.
pub open spec fn flush_protocol(endpoint: Endpoint) -> Seq<Request> {
    seq![
        Request::Reset,
        configuration_plan(endpoint)[0].1,
        configuration_plan(endpoint)[1].1,
        configuration_plan(endpoint)[2].1,
        Request::WriteBulk { endpoint: endpoint.address, timeout_secs: TRANSFER_TIMEOUT_SECS },
    ]
}

/// Position of a phase in the protocol.
pub open spec fn position(phase: Phase) -> int {
    match phase {
        Phase::Resetting => 0,
        Phase::Configuring(stage) => stages_done(Some(stage)),
        Phase::Transferring => 4,
    }
}

/// The error a flush ends with when the request of `phase` fails.
pub open spec fn failure(phase: Phase, cause: Cause) -> Error {
    match phase {
        Phase::Resetting => Error::ResetFailed { cause },
        Phase::Configuring(stage) => Error::ConfigurationFailed { stage, cause },
        Phase::Transferring => Error::TransferFailed { cause },
    }
}

/// A position of the protocol belongs to one phase only.
pub proof fn phases_have_distinct_positions(a: Phase, b: Phase)
    requires
        position(a) == position(b),
    ensures
        a == b,
{
}

/// Every phase has a request in the protocol, and the bulk transfer is the
/// last of them and the only one: a flush that runs to its end transfers
/// once.
pub proof fn protocol_transfers_once(endpoint: Endpoint, phase: Phase)
    ensures
        flush_protocol(endpoint).len() == 5,
        0 <= position(phase) < flush_protocol(endpoint).len(),
        flush_protocol(endpoint)[position(phase)] is WriteBulk <==> phase == Phase::Transferring,
        flush_protocol(endpoint)[position(Phase::Transferring)] == (Request::WriteBulk {
            endpoint: endpoint.address,
            timeout_secs: 10,
        }),
{
}

/// Mathematical content of a [`Flushing`].
pub struct FlushingView {
    pub endpoint: Endpoint,
    pub payload: Seq<u8>,
    pub phase: Phase,
}

/// A flush in progress. It holds the bytes that were pending when the flush
/// began and waits for the reply to one request.
#[derive(Debug, PartialEq, Eq)]
pub struct Flushing {
    endpoint: Endpoint,
    payload: Vec<u8>,
    phase: Phase,
    request: Request,
}

/// Outcome of starting or advancing a flush.
#[derive(Debug, PartialEq, Eq)]
pub enum Step {
    /// The device has to perform the request of this flush next.
    Pending(Flushing),
    /// The flush is over.
    Finished(Result<(), Error>),
}

impl View for Flushing {
    type V = FlushingView;

    closed spec fn view(&self) -> FlushingView {
        FlushingView { endpoint: self.endpoint, payload: self.payload@, phase: self.phase }
    }
}

impl Flushing {
    /// The request held is the one the protocol has at the phase's position.
    #[verifier::type_invariant]
    spec fn well_formed(self) -> bool {
        self.request == flush_protocol(self.endpoint)[position(self.phase)]
    }

    /// The request the device has to perform now.
    pub fn request(&self) -> (request: Request)
        ensures
            request == flush_protocol(self@.endpoint)[position(self@.phase)],
    {
        proof {
            use_type_invariant(self);
        }
        self.request
    }

    /// The bytes this flush transfers: all that was pending when it began.
    pub fn payload(&self) -> (payload: &[u8])
        ensures
            payload@ == self@.payload,
    {
        self.payload.as_slice()
    }

    /// Takes the reply to the current request and decides how the flush
    /// goes on. A failure ends it at once with the error of the phase it
    /// failed in; nothing is tried again. A success moves on to the next
    /// request of the protocol, with the same payload for the same
    /// endpoint, or ends the flush successfully after the transfer.
    pub fn advance(self, reply: Reply) -> (step: Step)
        ensures
            match reply {
                Reply::Failed(cause) => step == Step::Finished(
                    Err(failure(self@.phase, cause)),
                ),
                Reply::Done => match self@.phase {
                    Phase::Transferring => step == Step::Finished(Ok(())),
                    _ => {
                        &&& step is Pending
                        &&& step->Pending_0@.endpoint == self@.endpoint
                        &&& step->Pending_0@.payload == self@.payload
                        &&& position(step->Pending_0@.phase) == position(self@.phase) + 1
                    },
                },
            },
    {
        match reply {
            Reply::Failed(cause) => {
                let error = match self.phase {
                    Phase::Resetting => Error::ResetFailed { cause },
                    Phase::Configuring(stage) => Error::ConfigurationFailed { stage, cause },
                    Phase::Transferring => Error::TransferFailed { cause },
                };
                Step::Finished(Err(error))
            },
            Reply::Done => {
                let completed = match self.phase {
                    Phase::Resetting => None,
                    Phase::Configuring(stage) => Some(stage),
                    Phase::Transferring => {
                        return Step::Finished(Ok(()));
                    },
                };
                let (phase, request) = match configure_endpoint(&self.endpoint, completed) {
                    Some((stage, request)) => (Phase::Configuring(stage), request),
                    None => (
                        Phase::Transferring,
                        Request::WriteBulk {
                            endpoint: self.endpoint.address,
                            timeout_secs: TRANSFER_TIMEOUT_SECS,
                        },
                    ),
                };
                Step::Pending(
                    Flushing { endpoint: self.endpoint, payload: self.payload, phase, request },
                )
            },
        }
    }
}

/// Mathematical content of a [`Usb`].
pub struct UsbView {
    /// The printer the transport is bound to: the locator of its write
    /// endpoint, its vendor identifier and its product identifier. `None`
    /// for a transport that discards.
    pub device: Option<(Endpoint, u16, u16)>,
    /// The pending buffer.
    pub pending: Seq<u8>,
}

impl UsbView {
    /// The transport after `buf` was written to it.
    pub open spec fn write(self, buf: Seq<u8>) -> UsbView {
        UsbView { device: self.device, pending: self.pending + buf }
    }

    /// The transport after each of `bufs` was written to it, in order.
    pub open spec fn write_all(self, bufs: Seq<Seq<u8>>) -> UsbView
        decreases bufs.len(),
    {
        if bufs.len() == 0 {
            self
        } else {
            self.write(bufs.first()).write_all(bufs.drop_first())
        }
    }

    /// The transport after a flush was started on it.
    pub open spec fn flush(self) -> UsbView {
        UsbView { device: self.device, pending: Seq::empty() }
    }
}

/// What construction owes for a discovery result, the outcome of opening
/// the discovered device, and the policy on absence.
pub open spec fn constructed(
    found: Option<(Endpoint, u16, u16)>,
    opened: bool,
    absence: Absence,
) -> Result<UsbView, Error> {
    match found {
        Some(device) => if opened {
            Ok(UsbView { device: Some(device), pending: Seq::empty() })
        } else {
            Err(Error::DeviceUnavailable)
        },
        None => match absence {
            Absence::Fatal => Err(Error::DeviceUnavailable),
            Absence::Tolerated => Ok(UsbView { device: None, pending: Seq::empty() }),
        },
    }
}

/// The buffered USB transport.
#[derive(Debug)]
pub struct Usb {
    device: Option<(Endpoint, u16, u16)>,
    stream: Vec<u8>,
}

impl View for Usb {
    type V = UsbView;

    closed spec fn view(&self) -> UsbView {
        UsbView { device: self.device, pending: self.stream@ }
    }
}

impl Usb {
    /// Builds the transport for a device. `found` names the device by the
    /// locator of its write endpoint, its vendor identifier and its product
    /// identifier: either what discovery found on the bus, or a device the
    /// caller knows and binds to directly. `opened` tells whether that
    /// device could be opened; it is not consulted when there is no device.
    /// A device that could not be opened is an error under either policy; a
    /// missing device is an error only when absence is fatal, and otherwise
    /// gives a transport that discards. The pending buffer starts out empty.
    pub fn new(
        found: Option<(Endpoint, u16, u16)>,
        opened: bool,
        absence: Absence,
    ) -> (usb: Result<Usb, Error>)
        ensures
            match constructed(found, opened, absence) {
                Ok(view) => usb is Ok && usb->Ok_0@ == view,
                Err(error) => usb is Err && usb->Err_0 == error,
            },
    {
        match found {
            Some(device) => {
                if opened {
                    Ok(Usb { device: Some(device), stream: Vec::new() })
                } else {
                    Err(Error::DeviceUnavailable)
                }
            },
            None => match absence {
                Absence::Fatal => Err(Error::DeviceUnavailable),
                Absence::Tolerated => Ok(Usb { device: None, stream: Vec::new() }),
            },
        }
    }

    /// Vendor identifier of the bound printer.
    pub fn vendor_id(&self) -> (id: Option<u16>)
        ensures
            id == match self@.device {
                Some((_, vendor_id, _)) => Some(vendor_id),
                None => None,
            },
    {
        match self.device {
            Some((_, vendor_id, _)) => Some(vendor_id),
            None => None,
        }
    }

    /// Product identifier of the bound printer.
    pub fn product_id(&self) -> (id: Option<u16>)
        ensures
            id == match self@.device {
                Some((_, _, product_id)) => Some(product_id),
                None => None,
            },
    {
        match self.device {
            Some((_, _, product_id)) => Some(product_id),
            None => None,
        }
    }

    /// Locator of the endpoint that flushes write to.
    pub fn write_endpoint(&self) -> (endpoint: Option<Endpoint>)
        ensures
            endpoint == match self@.device {
                Some((endpoint, _, _)) => Some(endpoint),
                None => None,
            },
    {
        match self.device {
            Some((endpoint, _, _)) => Some(endpoint),
            None => None,
        }
    }

    /// The bytes written since the last flush.
    pub fn pending(&self) -> (pending: &[u8])
        ensures
            pending@ == self@.pending,
    {
        self.stream.as_slice()
    }

    /// Appends `buf` to the pending buffer and reports all of it as
    /// accepted. No device is involved, so this cannot fail.
    pub fn write(&mut self, buf: &[u8]) -> (written: Result<usize, Error>)
        ensures
            final(self)@ == old(self)@.write(buf@),
            written == Ok::<usize, Error>(buf@.len() as usize),
    {
        let mut k: usize = 0;
        while k < buf.len()
            invariant
                k <= buf@.len(),
                self.device == old(self).device,
                self.stream@ == old(self).stream@ + buf@.take(k as int),
            decreases buf@.len() - k,
        {
            self.stream.push(buf[k]);
            k += 1;
            assert(self.stream@ =~= old(self).stream@ + buf@.take(k as int));
        }
        assert(buf@.take(buf@.len() as int) =~= buf@);
        Ok(buf.len())
    }

    /// Starts a flush. The pending buffer is emptied here and now, whatever
    /// becomes of the flush. A transport without a device is done at once,
    /// successfully, and what was pending is dropped. Otherwise the flush
    /// takes what was pending as its payload and begins by resetting the
    /// device.
    pub fn flush(&mut self) -> (step: Step)
        ensures
            final(self)@ == old(self)@.flush(),
            match old(self)@.device {
                None => step == Step::Finished(Ok(())),
                Some((endpoint, _, _)) => {
                    &&& step is Pending
                    &&& step->Pending_0@.endpoint == endpoint
                    &&& step->Pending_0@.payload == old(self)@.pending
                    &&& step->Pending_0@.phase == Phase::Resetting
                },
            },
    {
        let mut payload: Vec<u8> = Vec::new();
        core::mem::swap(&mut self.stream, &mut payload);
        match self.device {
            Some((endpoint, _, _)) => Step::Pending(
                Flushing { endpoint, payload, phase: Phase::Resetting, request: Request::Reset },
            ),
            None => Step::Finished(Ok(())),
        }
    }
}

/// After any run of writes, the pending buffer holds what it held before
/// followed by the written byte strings joined in the order in which they
/// were written; the binding to the device is untouched.
pub proof fn writes_accumulate(usb: UsbView, bufs: Seq<Seq<u8>>)
    ensures
        usb.write_all(bufs).pending == usb.pending + bufs.flatten(),
        usb.write_all(bufs).device == usb.device,
    decreases bufs.len(),
{
    if bufs.len() == 0 {
        assert(usb.pending + bufs.flatten() =~= usb.pending);
    } else {
        writes_accumulate(usb.write(bufs.first()), bufs.drop_first());
        let rest = bufs.drop_first().flatten();
        assert((usb.pending + bufs.first()) + rest =~= usb.pending + (bufs.first() + rest));
    }
}

/// A flush leaves the pending buffer empty, so the writes that follow it
/// accumulate from nothing: the buffer then holds exactly their bytes.
pub proof fn writes_after_flush_start_afresh(usb: UsbView, bufs: Seq<Seq<u8>>)
    ensures
        usb.flush().pending == Seq::<u8>::empty(),
        usb.flush().write_all(bufs).pending == bufs.flatten(),
{
    writes_accumulate(usb.flush(), bufs);
    assert(Seq::<u8>::empty() + bufs.flatten() =~= bufs.flatten());
}

/// On a bus without a printer, discovery finds nothing, and construction
/// from that result has exactly two outcomes: it fails with
/// `DeviceUnavailable` when absence is fatal, and it yields a transport
/// with no device and an empty buffer when absence is tolerated. Whether a
/// device could be opened plays no part.
pub proof fn absent_printer_fails_or_discards(
    bus: Seq<Option<Device>>,
    found: Option<(Endpoint, u16, u16)>,
    opened: bool,
)
    requires
        no_printer(bus),
        discovers(bus, found),
    ensures
        found is None,
        constructed(found, opened, Absence::Fatal) == Err::<UsbView, Error>(
            Error::DeviceUnavailable,
        ),
        constructed(found, opened, Absence::Tolerated) == Ok::<UsbView, Error>(
            UsbView { device: None, pending: Seq::empty() },
        ),
{
    no_printer_discovers_nothing(bus, found);
}

/// The serial transport. It carries no state.
#[derive(Clone, Copy, Debug, PartialEq, Eq, Structural)]
pub struct Serial {}

/// A pass-through over an already open byte sink.
#[derive(Debug)]
pub struct File<W> {
    fobj: W,
}

impl<W> File<W> {
    /// The sink that is wrapped.
    pub closed spec fn sink(self) -> W {
        self.fobj
    }

    /// Wraps an open sink.
    pub fn from(fobj: W) -> (file: File<W>)
        ensures
            file.sink() == fobj,
    {
        File { fobj }
    }

    /// Lends the sink out for writing. Whatever the borrower leaves in it
    /// is the sink from then on.
    pub fn get_mut(&mut self) -> (fobj: &mut W)
        ensures
            *fobj == old(self).sink(),
            final(self).sink() == *final(fobj),
    {
        &mut self.fobj
    }

    /// Gives the sink back.
    pub fn into_inner(self) -> (fobj: W)
        ensures
            fobj == self.sink(),
    {
        self.fobj
    }
}

} // verus!
