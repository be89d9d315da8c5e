//! The choices made around the cooler's HID device: which enumerated
//! interfaces belong to the configured cooler, and whether a write and an
//! acknowledgement came back as the protocol expects.

use vstd::prelude::*;

use crate::config::DeviceConfig;
use crate::protocol::{ACK_PACKET_LEN, ack_signature};
use crate::text::{chars_of, contains_chars, contains_seq};

verus! {

/// One HID interface as the enumeration reports it.
#[derive(Debug, Clone)]
pub struct DeviceEntry {
    /// The platform path of the interface, with its terminating nul byte.
    pub path: Vec<u8>,
    pub serial: Option<String>,
    pub vendor_id: u16,
    pub product_id: u16,
    pub interface_number: i32,
}

/// Why no device session could be set up or continued.
#[derive(Debug, Clone, Copy, PartialEq, Eq, Structural)]
pub enum DeviceError {
    /// No interface of the cooler carries the init interface number.
    NoInitInterface { vendor_id: u16, product_id: u16 },
    /// No interface of the cooler carries the bulk interface number.
    NoBulkInterface { vendor_id: u16, product_id: u16 },
    /// Several coolers match and no serial number tells them apart.
    MultipleCoolers,
    /// A HID write took fewer bytes than it was given.
    ShortWrite { written: usize, expected: usize },
    /// The acknowledgement is not 16 bytes long.
    UnexpectedAckLength { size: usize },
    /// The acknowledgement bytes differ from the signature.
    AckMismatch,
}

/// The interface belongs to the configured cooler: same vendor and product,
/// and the same serial number when one is configured.
pub open spec fn is_configured_cooler(d: DeviceEntry, config: DeviceConfig) -> bool {
    &&& d.vendor_id == config.vendor_id
    &&& d.product_id == config.product_id
    &&& match config.serial {
        Some(s) => d.serial matches Some(ds) && ds@ == s@,
        None => true,
    }
}

/// The interface is an init interface of the configured cooler.
pub open spec fn is_init_candidate(d: DeviceEntry, config: DeviceConfig) -> bool {
    is_configured_cooler(d, config) && d.interface_number == config.interface_init
}

/// The interface is a bulk interface of the configured cooler (an interface
/// number equal to the init one counts as init).
pub open spec fn is_bulk_candidate(d: DeviceEntry, config: DeviceConfig) -> bool {
    is_configured_cooler(d, config) && d.interface_number != config.interface_init
        && d.interface_number == config.interface_bulk
}

/// The positions, among the first `n` entries, of the init interfaces.
pub open spec fn init_positions(list: Seq<DeviceEntry>, config: DeviceConfig, n: int) -> Seq<usize>
    decreases n,
{
    if n <= 0 {
        Seq::empty()
    } else if is_init_candidate(list[n - 1], config) {
        init_positions(list, config, n - 1).push((n - 1) as usize)
    } else {
        init_positions(list, config, n - 1)
    }
}

/// The positions, among the first `n` entries, of the bulk interfaces.
pub open spec fn bulk_positions(list: Seq<DeviceEntry>, config: DeviceConfig, n: int) -> Seq<usize>
    decreases n,
{
    if n <= 0 {
        Seq::empty()
    } else if is_bulk_candidate(list[n - 1], config) {
        bulk_positions(list, config, n - 1).push((n - 1) as usize)
    } else {
        bulk_positions(list, config, n - 1)
    }
}

/// The interface pair chosen from an enumeration: the first init and the
/// first bulk interface of the configured cooler, unless one kind is missing,
/// or several coolers match without a configured serial number.
pub open spec fn device_pair_spec(list: Seq<DeviceEntry>, config: DeviceConfig) -> Result<
    (usize, usize),
    DeviceError,
> {
    let inits = init_positions(list, config, list.len() as int);
    let bulks = bulk_positions(list, config, list.len() as int);
    if inits.len() == 0 {
        Err(DeviceError::NoInitInterface { vendor_id: config.vendor_id, product_id: config.product_id })
    } else if bulks.len() == 0 {
        Err(DeviceError::NoBulkInterface { vendor_id: config.vendor_id, product_id: config.product_id })
    } else if config.serial is None && (inits.len() > 1 || bulks.len() > 1) {
        Err(DeviceError::MultipleCoolers)
    } else {
        Ok((inits[0], bulks[0]))
    }
}

fn configured_cooler(d: &DeviceEntry, config: &DeviceConfig) -> (r: bool)
    ensures
        r == is_configured_cooler(*d, *config),
{
    if d.vendor_id != config.vendor_id || d.product_id != config.product_id {
        return false;
    }
    match &config.serial {
        Some(s) => match &d.serial {
            Some(ds) => *ds == *s,
            None => false,
        },
        None => true,
    }
}

/// Picks the init and bulk interfaces of the configured cooler from an
/// enumeration; returns their positions in `devices`.
pub fn select_device_pair(devices: &Vec<DeviceEntry>, config: &DeviceConfig) -> (r: Result<(usize, usize), DeviceError>)
    ensures
        r == device_pair_spec(devices@, *config),
{
    let mut inits: Vec<usize> = Vec::new();
    let mut bulks: Vec<usize> = Vec::new();
    let mut i: usize = 0;
    while i < devices.len()
        invariant
            i <= devices@.len(),
            inits@ == init_positions(devices@, *config, i as int),
            bulks@ == bulk_positions(devices@, *config, i as int),
        decreases devices@.len() - i,
    {
        let d = &devices[i];
        if configured_cooler(d, config) {
            if d.interface_number == config.interface_init {
                inits.push(i);
            } else if d.interface_number == config.interface_bulk {
                bulks.push(i);
            }
        }
        i = i + 1;
    }
    if inits.len() == 0 {
        return Err(
            DeviceError::NoInitInterface { vendor_id: config.vendor_id, product_id: config.product_id },
        );
    }
    if bulks.len() == 0 {
        return Err(
            DeviceError::NoBulkInterface { vendor_id: config.vendor_id, product_id: config.product_id },
        );
    }
    if config.serial.is_none() && (inits.len() > 1 || bulks.len() > 1) {
        return Err(DeviceError::MultipleCoolers);
    }
    Ok((inits[0], bulks[0]))
}

/// A HID write must take the whole report.
pub fn check_write(written: usize, expected: usize) -> (r: Result<(), DeviceError>)
    ensures
        r is Ok <==> written == expected,
        r is Err ==> r == Err::<(), DeviceError>(DeviceError::ShortWrite { written, expected }),
{
    if written == expected {
        Ok(())
    } else {
        Err(DeviceError::ShortWrite { written, expected })
    }
}

/// The acknowledgement check after an upload: exactly 16 bytes were read and
/// they are the signature `08 81 00 .. 00`.
pub fn check_ack(buf: &[u8], size: usize) -> (r: Result<(), DeviceError>)
    requires
        buf@.len() >= ACK_PACKET_LEN,
    ensures
        size != ACK_PACKET_LEN ==> r == Err::<(), DeviceError>(DeviceError::UnexpectedAckLength { size }),
        size == ACK_PACKET_LEN && buf@.subrange(0, 16) == ack_signature() ==> r is Ok,
        size == ACK_PACKET_LEN && buf@.subrange(0, 16) != ack_signature() ==> r == Err::<(), DeviceError>(
            DeviceError::AckMismatch,
        ),
{
    if size != ACK_PACKET_LEN {
        return Err(DeviceError::UnexpectedAckLength { size });
    }
    let signature = crate::protocol::ack_signature_bytes();
    let mut i: usize = 0;
    while i < ACK_PACKET_LEN
        invariant
            buf@.len() >= 16,
            signature@ == ack_signature(),
            size == ACK_PACKET_LEN,
            i <= 16,
            forall|k: int| 0 <= k < i ==> buf@[k] == signature@[k],
        decreases 16 - i,
    {
        if buf[i] != signature[i] {
            assert(buf@.subrange(0, 16)[i as int] != ack_signature()[i as int]);
            return Err(DeviceError::AckMismatch);
        }
        i = i + 1;
    }
    assert(buf@.subrange(0, 16) =~= ack_signature());
    Ok(())
}

/// An error text of the HID layer that reports a read timeout.
pub open spec fn is_timeout_text(message: Seq<char>) -> bool {
    contains_seq(message, seq!['t', 'i', 'm', 'e', 'd', ' ', 'o', 'u', 't']) || contains_seq(
        message,
        seq!['t', 'i', 'm', 'e', 'o', 'u', 't'],
    )
}

/// Whether a HID read error only says that nothing arrived in time; while
/// draining stale acknowledgements that ends the draining.
pub fn is_timeout_message(message: &str) -> (r: bool)
    ensures
        r == is_timeout_text(message@),
{
    let chars = chars_of(message);
    contains_chars(chars.as_slice(), ['t', 'i', 'm', 'e', 'd', ' ', 'o', 'u', 't'].as_slice())
        || contains_chars(chars.as_slice(), ['t', 'i', 'm', 'e', 'o', 'u', 't'].as_slice())
}

/// Where an upload stands.
#[derive(Debug, Clone, Copy, PartialEq, Eq, Structural)]
pub enum UploadStep {
    /// Reading stale acknowledgements left from earlier uploads.
    Draining,
    /// Writing report `next`.
    Writing { next: usize },
    /// Waiting for the acknowledgement.
    AwaitingAck,
    /// The upload was acknowledged.
    Done,
    /// The upload failed; `error` is the protocol error, or nothing when the
    /// HID layer itself reported the failure.
    Failed { error: Option<DeviceError> },
}

/// What the caller observed after performing an upload action.
#[derive(Debug, Clone, Copy)]
pub enum UploadEvent {
    /// A non-blocking read while draining returned `size` bytes.
    Drained { size: usize },
    /// A read while draining failed; `timed_out` when the error only says that
    /// nothing arrived in time (see `is_timeout_message`).
    DrainFailed { timed_out: bool },
    /// A report write took `written` bytes.
    Written { written: usize },
    /// A report write failed.
    WriteFailed,
    /// The acknowledgement read returned `size` bytes into `buf`.
    AckRead { size: usize, buf: [u8; 64] },
    /// The acknowledgement read failed.
    AckFailed,
}

/// The next action of an upload.
#[derive(Debug, Clone, Copy, PartialEq, Eq, Structural)]
pub enum UploadAction {
    /// Read whatever is pending on the bulk interface, without waiting.
    ReadPending,
    /// Write report `index` of the image.
    Write { index: usize },
    /// Read the acknowledgement, waiting up to the acknowledgement timeout.
    ReadAck,
    /// The upload is complete.
    Finished,
    /// The upload failed; `error` as in `UploadStep::Failed`.
    Abort { error: Option<DeviceError> },
}

/// The step after the reports are written, or the first report write.
pub open spec fn first_write(count: usize) -> (UploadStep, UploadAction) {
    if count == 0 {
        (UploadStep::AwaitingAck, UploadAction::ReadAck)
    } else {
        (UploadStep::Writing { next: 0 }, UploadAction::Write { index: 0 })
    }
}

/// The acknowledgement check as `check_ack` makes it.
pub open spec fn ack_result(buf: Seq<u8>, size: usize) -> Result<(), DeviceError> {
    if size != ACK_PACKET_LEN {
        Err(DeviceError::UnexpectedAckLength { size })
    } else if buf.subrange(0, 16) == ack_signature() {
        Ok(())
    } else {
        Err(DeviceError::AckMismatch)
    }
}

/// The next step and action of an upload of `count` reports of `packet_len`
/// bytes after `event` in `step`: stale acknowledgements are drained until a
/// read returns nothing or times out, the reports are written in order, each
/// completely, and the upload completes once the acknowledgement matches. An
/// event that does not answer the current step fails the upload.
pub open spec fn upload_transition(
    step: UploadStep,
    event: UploadEvent,
    count: usize,
    packet_len: usize,
) -> (UploadStep, UploadAction) {
    let failed = |e: Option<DeviceError>| (UploadStep::Failed { error: e }, UploadAction::Abort { error: e });
    match step {
        UploadStep::Draining => match event {
            UploadEvent::Drained { size } => if size == 0 {
                first_write(count)
            } else {
                (UploadStep::Draining, UploadAction::ReadPending)
            },
            UploadEvent::DrainFailed { timed_out } => if timed_out {
                first_write(count)
            } else {
                failed(None)
            },
            _ => failed(None),
        },
        UploadStep::Writing { next } => match event {
            UploadEvent::Written { written } => if written != packet_len {
                failed(Some(DeviceError::ShortWrite { written, expected: packet_len }))
            } else if next + 1 >= count {
                (UploadStep::AwaitingAck, UploadAction::ReadAck)
            } else {
                (UploadStep::Writing { next: (next + 1) as usize }, UploadAction::Write { index: (next + 1) as usize })
            },
            _ => failed(None),
        },
        UploadStep::AwaitingAck => match event {
            UploadEvent::AckRead { size, buf } => match ack_result(buf@, size) {
                Ok(()) => (UploadStep::Done, UploadAction::Finished),
                Err(e) => failed(Some(e)),
            },
            _ => failed(None),
        },
        UploadStep::Done => (UploadStep::Done, UploadAction::Finished),
        UploadStep::Failed { error } => (step, UploadAction::Abort { error }),
    }
}

/// An upload of an image's reports to the bulk interface, driven by the caller.
pub struct Upload {
    count: usize,
    packet_len: usize,
    step: UploadStep,
}

impl Upload {
    #[verifier::type_invariant]
    spec fn inv(self) -> bool {
        self.step matches UploadStep::Writing { next } ==> next < self.count
    }

    pub closed spec fn spec_count(&self) -> usize {
        self.count
    }

    pub closed spec fn spec_packet_len(&self) -> usize {
        self.packet_len
    }

    pub closed spec fn spec_step(&self) -> UploadStep {
        self.step
    }

    /// An upload of `count` reports of `packet_len` bytes; it starts by
    /// draining stale acknowledgements, so the first action is `ReadPending`.
    pub fn new(count: usize, packet_len: usize) -> (u: Upload)
        ensures
            u.spec_count() == count,
            u.spec_packet_len() == packet_len,
            u.spec_step() == UploadStep::Draining,
    {
        Upload { count, packet_len, step: UploadStep::Draining }
    }

    /// Where the upload stands.
    pub fn step(&self) -> (s: UploadStep)
        ensures
            s == self.spec_step(),
    {
        self.step
    }

    /// Takes what the last action reported and gives the next action.
    pub fn advance(&mut self, event: UploadEvent) -> (action: UploadAction)
        ensures
            (final(self).spec_step(), action) == upload_transition(
                old(self).spec_step(),
                event,
                old(self).spec_count(),
                old(self).spec_packet_len(),
            ),
            final(self).spec_count() == old(self).spec_count(),
            final(self).spec_packet_len() == old(self).spec_packet_len(),
    {
        proof {
            use_type_invariant(&*self);
        }
        let count = self.count;
        let (step, action) = match self.step {
            UploadStep::Draining => match event {
                UploadEvent::Drained { size } => if size == 0 {
                    Self::first_write(count)
                } else {
                    (UploadStep::Draining, UploadAction::ReadPending)
                },
                UploadEvent::DrainFailed { timed_out } => if timed_out {
                    Self::first_write(count)
                } else {
                    (UploadStep::Failed { error: None }, UploadAction::Abort { error: None })
                },
                _ => (UploadStep::Failed { error: None }, UploadAction::Abort { error: None }),
            },
            UploadStep::Writing { next } => match event {
                UploadEvent::Written { written } => match check_write(written, self.packet_len) {
                    Err(e) => (UploadStep::Failed { error: Some(e) }, UploadAction::Abort { error: Some(e) }),
                    Ok(()) => if next + 1 >= count {
                        (UploadStep::AwaitingAck, UploadAction::ReadAck)
                    } else {
                        (UploadStep::Writing { next: next + 1 }, UploadAction::Write { index: next + 1 })
                    },
                },
                _ => (UploadStep::Failed { error: None }, UploadAction::Abort { error: None }),
            },
            UploadStep::AwaitingAck => match event {
                UploadEvent::AckRead { size, buf } => match check_ack(buf.as_slice(), size) {
                    Ok(()) => (UploadStep::Done, UploadAction::Finished),
                    Err(e) => (UploadStep::Failed { error: Some(e) }, UploadAction::Abort { error: Some(e) }),
                },
                _ => (UploadStep::Failed { error: None }, UploadAction::Abort { error: None }),
            },
            UploadStep::Done => (UploadStep::Done, UploadAction::Finished),
            UploadStep::Failed { error } => (UploadStep::Failed { error }, UploadAction::Abort { error }),
        };
        self.step = step;
        action
    }

    fn first_write(count: usize) -> (r: (UploadStep, UploadAction))
        ensures
            r == first_write(count),
    {
        if count == 0 {
            (UploadStep::AwaitingAck, UploadAction::ReadAck)
        } else {
            (UploadStep::Writing { next: 0 }, UploadAction::Write { index: 0 })
        }
    }
}

/// The step reached from `Writing { next: 0 }` after `k` complete report
/// writes.
pub open spec fn after_writes(count: usize, packet_len: usize, k: nat) -> UploadStep
    decreases k,
{
    if k == 0 {
        UploadStep::Writing { next: 0 }
    } else {
        upload_transition(
            after_writes(count, packet_len, (k - 1) as nat),
            UploadEvent::Written { written: packet_len },
            count,
            packet_len,
        ).0
    }
}

/// The reports go out in order, each once: after `k` complete writes of an
/// upload of `count > 0` reports, report `k` is the one being written, and
/// after `count` writes the upload waits for its acknowledgement.
pub proof fn lemma_reports_are_written_in_order(count: usize, packet_len: usize, k: nat)
    requires
        count > 0,
        k <= count,
    ensures
        k < count ==> after_writes(count, packet_len, k) == (UploadStep::Writing { next: k as usize }),
        k == count ==> after_writes(count, packet_len, k) == UploadStep::AwaitingAck,
    decreases k,
{
    if k > 0 {
        lemma_reports_are_written_in_order(count, packet_len, (k - 1) as nat);
    }
}

/// An upload completes only with a matching acknowledgement: `Finished` comes
/// from the acknowledgement check, or repeats a completed upload.
pub proof fn lemma_finished_only_after_a_valid_ack(step: UploadStep, event: UploadEvent, count: usize, packet_len: usize)
    ensures
        upload_transition(step, event, count, packet_len).1 == UploadAction::Finished ==> (step
            == UploadStep::Done || (step == UploadStep::AwaitingAck && (event matches UploadEvent::AckRead { size, buf } && size
            == ACK_PACKET_LEN && buf@.subrange(0, 16) == ack_signature()))),
{
}

} // verus!
