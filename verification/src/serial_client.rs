//! The decisions of the serial transport that do not touch the port: the
//! reply byte of an info query and the steps of the loop that waits for a
//! reply.

use crate::protocol::{DecodeError, NiimbotPacket, PrinterInfoType, RequestCommandId};
use vstd::prelude::*;

verus! {

/// The protocol version a fresh connection assumes until one is
/// negotiated: a safe fallback.
pub const DEFAULT_PROTOCOL_VERSION: u8 = 1;

/// The command byte of the printer's reply to a `PrinterInfo` request for
/// `info_type`.
///
/// The printer doesn't reply on a single fixed command byte: instead it
/// echoes back `0x40 + type` (e.g. a request for type `0x08` gets a reply
/// on command `0x48`), so the expected reply command is computed
/// per-request.
pub fn printer_info_reply_command(info_type: PrinterInfoType) -> (c: u8)
    ensures
        c == RequestCommandId::PrinterInfo.wire_byte() + info_type.wire_byte(),
{
    u8::from(RequestCommandId::PrinterInfo).wrapping_add(u8::from(info_type))
}

/// What the loop that waits for a reply does next.
#[derive(Debug, Clone, Copy, PartialEq, Eq, Structural)]
pub enum WaitStep {
    /// Hand the packet just decoded to the caller: it is the awaited reply.
    Deliver,
    /// Drop what was just decoded (a packet the caller does not want, or a
    /// framing error, which is skipped rather than aborting the wait) and
    /// ask the decoder again.
    Skip,
    /// The decoder holds no complete packet: read more bytes from the port.
    Read,
    /// The port was closed while waiting.
    StreamEnded,
}

/// The wait loop's decision on one decoder result; `matched` is the
/// caller's predicate on a yielded packet. A matching packet is delivered,
/// any other packet and any framing error are skipped, and an incomplete
/// buffer calls for more bytes.
pub fn wait_step(next: &Result<Option<NiimbotPacket>, DecodeError>, matched: bool) -> (s: WaitStep)
    ensures
        next matches Ok(Some(_)) ==> s == (if matched {
            WaitStep::Deliver
        } else {
            WaitStep::Skip
        }),
        next matches Ok(None) ==> s == WaitStep::Read,
        next is Err ==> s == WaitStep::Skip,
{
    match next {
        Ok(Some(_)) => {
            if matched {
                WaitStep::Deliver
            } else {
                WaitStep::Skip
            }
        },
        Ok(None) => WaitStep::Read,
        Err(_) => WaitStep::Skip,
    }
}

/// The wait loop's decision after a read returned `n` bytes: a zero-byte
/// read means the port was closed; otherwise the bytes go to the decoder
/// and decoding goes on.
pub fn after_read(n: usize) -> (s: WaitStep)
    ensures
        s == (if n == 0 {
            WaitStep::StreamEnded
        } else {
            WaitStep::Read
        }),
{
    if n == 0 {
        WaitStep::StreamEnded
    } else {
        WaitStep::Read
    }
}

} // verus!
