//! What can go wrong in the block device.

use vstd::prelude::*;
use vstd::string::*;

use crate::text::append_u64;

verus! {

use crate::text::{decimal, same_up_to};

/// The request was executed.
pub const VIRTIO_BLK_S_OK: u8 = 0;

/// The request failed.
pub const VIRTIO_BLK_S_IOERR: u8 = 1;

/// The request is of a type that the device does not know.
pub const VIRTIO_BLK_S_UNSUPP: u8 = 2;

/// Errors that happen while a request is executed. What the memory, the disk or a socket reports
/// is held as text.
#[derive(Debug, PartialEq, Eq)]
pub enum ExecuteError {
    /// Error creating a receiver for command messages.
    CreatingMessageReceiver(String),
    Descriptor(String),
    Read(String),
    ReceivingCommand(String),
    SendingResponse(String),
    WriteStatus(String),
    /// Error arming the flush timer.
    Flush(String),
    ReadIo { length: usize, sector: u64, desc_error: String },
    WriteIo { length: usize, sector: u64, desc_error: String },
    DiscardWriteZeroes { ioerr: Option<String>, sector: u64, num_sectors: u32, flags: u32 },
    ReadOnly { request_type: u32 },
    OutOfRange,
    MissingStatus,
    Unsupported(u32),
}

/// The status byte for an error.
pub open spec fn error_status(e: ExecuteError) -> u8 {
    if e is Unsupported {
        VIRTIO_BLK_S_UNSUPP
    } else {
        VIRTIO_BLK_S_IOERR
    }
}

impl ExecuteError {
    /// The text that describes this error.
    pub open spec fn text(&self) -> Seq<char> {
        match self {
            ExecuteError::CreatingMessageReceiver(e) => {
                "couldn't create a message receiver: "@ + e@
            },
            ExecuteError::Descriptor(e) => "virtio descriptor error: "@ + e@,
            ExecuteError::Read(e) => "failed to read message: "@ + e@,
            ExecuteError::ReceivingCommand(e) => "failed to read command message: "@ + e@,
            ExecuteError::SendingResponse(e) => "failed to send command response: "@ + e@,
            ExecuteError::WriteStatus(e) => "failed to write request status: "@ + e@,
            ExecuteError::Flush(e) => "failed to flush: "@ + e@,
            ExecuteError::ReadIo { length, sector, desc_error } => {
                "io error reading "@ + decimal(*length as nat) + " bytes from sector "@ + decimal(
                    *sector as nat,
                ) + ": "@ + desc_error@
            },
            ExecuteError::WriteIo { length, sector, desc_error } => {
                "io error writing "@ + decimal(*length as nat) + " bytes to sector "@ + decimal(
                    *sector as nat,
                ) + ": "@ + desc_error@
            },
            ExecuteError::DiscardWriteZeroes { ioerr, sector, num_sectors, flags } => {
                let what = "failed to perform discard or write zeroes; sector="@ + decimal(
                    *sector as nat,
                ) + " num_sectors="@ + decimal(*num_sectors as nat) + " flags="@ + decimal(
                    *flags as nat,
                );
                match ioerr {
                    Some(ioerr) => what + "; "@ + ioerr@,
                    None => what,
                }
            },
            ExecuteError::ReadOnly { request_type } => {
                "read only; request_type="@ + decimal(*request_type as nat)
            },
            ExecuteError::OutOfRange => "out of range"@,
            ExecuteError::MissingStatus => {
                "not enough space in descriptor chain to write status"@
            },
            ExecuteError::Unsupported(n) => "unsupported ("@ + decimal(*n as nat) + ")"@,
        }
    }

    /// Describes this error.
    pub fn message(&self) -> (r: String)
        ensures
            r@ == self.text(),
    {
        match self {
            ExecuteError::CreatingMessageReceiver(e) => {
                let mut out = "couldn't create a message receiver: ".to_owned();
                out.append(e.as_str());
                out
            },
            ExecuteError::Descriptor(e) => {
                let mut out = "virtio descriptor error: ".to_owned();
                out.append(e.as_str());
                out
            },
            ExecuteError::Read(e) => {
                let mut out = "failed to read message: ".to_owned();
                out.append(e.as_str());
                out
            },
            ExecuteError::ReceivingCommand(e) => {
                let mut out = "failed to read command message: ".to_owned();
                out.append(e.as_str());
                out
            },
            ExecuteError::SendingResponse(e) => {
                let mut out = "failed to send command response: ".to_owned();
                out.append(e.as_str());
                out
            },
            ExecuteError::WriteStatus(e) => {
                let mut out = "failed to write request status: ".to_owned();
                out.append(e.as_str());
                out
            },
            ExecuteError::Flush(e) => {
                let mut out = "failed to flush: ".to_owned();
                out.append(e.as_str());
                out
            },
            ExecuteError::ReadIo { length, sector, desc_error } => {
                let mut out = "io error reading ".to_owned();
                append_u64(&mut out, *length as u64);
                out.append(" bytes from sector ");
                append_u64(&mut out, *sector);
                out.append(": ");
                out.append(desc_error.as_str());
                out
            },
            ExecuteError::WriteIo { length, sector, desc_error } => {
                let mut out = "io error writing ".to_owned();
                append_u64(&mut out, *length as u64);
                out.append(" bytes to sector ");
                append_u64(&mut out, *sector);
                out.append(": ");
                out.append(desc_error.as_str());
                out
            },
            ExecuteError::DiscardWriteZeroes { ioerr, sector, num_sectors, flags } => {
                let mut out = "failed to perform discard or write zeroes; sector=".to_owned();
                append_u64(&mut out, *sector);
                out.append(" num_sectors=");
                append_u64(&mut out, *num_sectors as u64);
                out.append(" flags=");
                append_u64(&mut out, *flags as u64);
                match ioerr {
                    Some(ioerr) => {
                        out.append("; ");
                        out.append(ioerr.as_str());
                    },
                    None => {},
                }
                out
            },
            ExecuteError::ReadOnly { request_type } => {
                let mut out = "read only; request_type=".to_owned();
                append_u64(&mut out, *request_type as u64);
                out
            },
            ExecuteError::OutOfRange => "out of range".to_owned(),
            ExecuteError::MissingStatus => {
                "not enough space in descriptor chain to write status".to_owned()
            },
            ExecuteError::Unsupported(n) => {
                let mut out = "unsupported (".to_owned();
                append_u64(&mut out, *n as u64);
                out.append(")");
                out
            },
        }
    }

    /// The status byte that tells the driver of this error.
    pub fn status(&self) -> (r: u8)
        ensures
            r == error_status(*self),
    {
        match self {
            ExecuteError::CreatingMessageReceiver(_) => VIRTIO_BLK_S_IOERR,
            ExecuteError::Descriptor(_) => VIRTIO_BLK_S_IOERR,
            ExecuteError::Read(_) => VIRTIO_BLK_S_IOERR,
            ExecuteError::ReceivingCommand(_) => VIRTIO_BLK_S_IOERR,
            ExecuteError::SendingResponse(_) => VIRTIO_BLK_S_IOERR,
            ExecuteError::WriteStatus(_) => VIRTIO_BLK_S_IOERR,
            ExecuteError::Flush(_) => VIRTIO_BLK_S_IOERR,
            ExecuteError::ReadIo { .. } => VIRTIO_BLK_S_IOERR,
            ExecuteError::WriteIo { .. } => VIRTIO_BLK_S_IOERR,
            ExecuteError::DiscardWriteZeroes { .. } => VIRTIO_BLK_S_IOERR,
            ExecuteError::ReadOnly { .. } => VIRTIO_BLK_S_IOERR,
            ExecuteError::OutOfRange => VIRTIO_BLK_S_IOERR,
            ExecuteError::MissingStatus => VIRTIO_BLK_S_IOERR,
            ExecuteError::Unsupported(_) => VIRTIO_BLK_S_UNSUPP,
        }
    }
}

/// Errors that happen in block outside of executing a request.
#[derive(Debug, PartialEq, Eq)]
pub enum OtherError {
    AsyncKillCreate(String),
    AsyncResampleCreate(String),
    AsyncTimerCreate(String),
    CloneResampleEvent(String),
    FsyncDisk(String),
    ReadResampleEvent(String),
    TimerCreate(String),
    TimerReset(String),
}

impl OtherError {
    /// The text that describes this error.
    pub open spec fn text(&self) -> Seq<char> {
        match self {
            OtherError::AsyncKillCreate(e) => "couldn't create an async kill event fd: "@ + e@,
            OtherError::AsyncTimerCreate(e) => "couldn't create an async timer: "@ + e@,
            OtherError::AsyncResampleCreate(e) => "couldn't create an async resample event: "@ + e@,
            OtherError::CloneResampleEvent(e) => "couldn't clone the resample event: "@ + e@,
            OtherError::FsyncDisk(e) => "failed to fsync the disk: "@ + e@,
            OtherError::ReadResampleEvent(e) => "couldn't read the resample event: "@ + e@,
            OtherError::TimerCreate(e) => "couldn't create a timer: "@ + e@,
            OtherError::TimerReset(e) => "couldn't reset the timer: "@ + e@,
        }
    }

    /// Describes this error.
    pub fn message(&self) -> (r: String)
        ensures
            r@ == self.text(),
    {
        let (what, e) = match self {
            OtherError::AsyncKillCreate(e) => ("couldn't create an async kill event fd: ", e),
            OtherError::AsyncTimerCreate(e) => ("couldn't create an async timer: ", e),
            OtherError::AsyncResampleCreate(e) => ("couldn't create an async resample event: ", e),
            OtherError::CloneResampleEvent(e) => ("couldn't clone the resample event: ", e),
            OtherError::FsyncDisk(e) => ("failed to fsync the disk: ", e),
            OtherError::ReadResampleEvent(e) => ("couldn't read the resample event: ", e),
            OtherError::TimerCreate(e) => ("couldn't create a timer: ", e),
            OtherError::TimerReset(e) => ("couldn't reset the timer: ", e),
        };
        let mut out = what.to_owned();
        out.append(e.as_str());
        out
    }
}

/// The driver is told that a request is not supported by a 2, and of any other failure by a 1.
pub proof fn law_error_status(e: ExecuteError)
    ensures
        error_status(e) == 2 <==> e is Unsupported,
        error_status(e) == 1 <==> !(e is Unsupported),
        VIRTIO_BLK_S_OK == 0,
        VIRTIO_BLK_S_IOERR == 1,
        VIRTIO_BLK_S_UNSUPP == 2,
{
}

/// The description of an error ends in its cause, and what stands before is the same for every
/// error of the kind.
pub proof fn law_description_ends_in_the_cause(a: String, b: String)
    ensures
        same_up_to(
            ExecuteError::CreatingMessageReceiver(a).text(),
            a@,
            ExecuteError::CreatingMessageReceiver(b).text(),
            b@,
        ),
        same_up_to(
            ExecuteError::Descriptor(a).text(),
            a@,
            ExecuteError::Descriptor(b).text(),
            b@,
        ),
        same_up_to(ExecuteError::Read(a).text(), a@, ExecuteError::Read(b).text(), b@),
        same_up_to(
            ExecuteError::ReceivingCommand(a).text(),
            a@,
            ExecuteError::ReceivingCommand(b).text(),
            b@,
        ),
        same_up_to(
            ExecuteError::SendingResponse(a).text(),
            a@,
            ExecuteError::SendingResponse(b).text(),
            b@,
        ),
        same_up_to(
            ExecuteError::WriteStatus(a).text(),
            a@,
            ExecuteError::WriteStatus(b).text(),
            b@,
        ),
        same_up_to(ExecuteError::Flush(a).text(), a@, ExecuteError::Flush(b).text(), b@),
        same_up_to(
            OtherError::AsyncKillCreate(a).text(),
            a@,
            OtherError::AsyncKillCreate(b).text(),
            b@,
        ),
        same_up_to(
            OtherError::AsyncTimerCreate(a).text(),
            a@,
            OtherError::AsyncTimerCreate(b).text(),
            b@,
        ),
        same_up_to(
            OtherError::AsyncResampleCreate(a).text(),
            a@,
            OtherError::AsyncResampleCreate(b).text(),
            b@,
        ),
        same_up_to(
            OtherError::CloneResampleEvent(a).text(),
            a@,
            OtherError::CloneResampleEvent(b).text(),
            b@,
        ),
        same_up_to(OtherError::FsyncDisk(a).text(), a@, OtherError::FsyncDisk(b).text(), b@),
        same_up_to(
            OtherError::ReadResampleEvent(a).text(),
            a@,
            OtherError::ReadResampleEvent(b).text(),
            b@,
        ),
        same_up_to(OtherError::TimerCreate(a).text(), a@, OtherError::TimerCreate(b).text(), b@),
        same_up_to(OtherError::TimerReset(a).text(), a@, OtherError::TimerReset(b).text(), b@),
{
}

/// The description of a failed transfer names the number of bytes, the sector and the cause, in
/// this order and with the same words for every failure.
pub proof fn law_description_of_a_transfer(length: usize, sector: u64, desc_error: String)
    ensures
        (ExecuteError::ReadIo { length, sector, desc_error }).text() == "io error reading "@
            + decimal(length as nat) + " bytes from sector "@ + decimal(sector as nat) + ": "@
            + desc_error@,
        (ExecuteError::WriteIo { length, sector, desc_error }).text() == "io error writing "@
            + decimal(length as nat) + " bytes to sector "@ + decimal(sector as nat) + ": "@
            + desc_error@,
{
}

/// The description of a failed discard or write-zeroes names the segment, and the cause if there is
/// one; those of a refused type name the type.
pub proof fn law_description_of_a_refusal(
    ioerr: String,
    sector: u64,
    num_sectors: u32,
    flags: u32,
    t: u32,
)
    ensures
        ({
            let none = ExecuteError::DiscardWriteZeroes { ioerr: None, sector, num_sectors, flags };
            let some = ExecuteError::DiscardWriteZeroes {
                ioerr: Some(ioerr),
                sector,
                num_sectors,
                flags,
            };
            &&& none.text() == "failed to perform discard or write zeroes; sector="@ + decimal(
                sector as nat,
            ) + " num_sectors="@ + decimal(num_sectors as nat) + " flags="@ + decimal(flags as nat)
            &&& some.text() == none.text() + "; "@ + ioerr@
        }),
        (ExecuteError::ReadOnly { request_type: t }).text() == "read only; request_type="@
            + decimal(t as nat),
        ExecuteError::Unsupported(t).text() == "unsupported ("@ + decimal(t as nat) + ")"@,
{
}

} // verus!
