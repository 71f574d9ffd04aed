//! NIIMBOT printer packet protocol.
//!
//! Wire format:
//!
//! ```text
//! [0x55, 0x55, CMD, LEN, ...DATA, CHECKSUM, 0xAA, 0xAA]
//! ```
//!
//! `CHECKSUM` is `CMD ^ LEN ^ (xor of all DATA bytes)`.

pub mod commands;
pub mod text;

use vstd::prelude::*;

verus! {

/// Packet head marker.
pub const HEAD: [u8; 2] = [0x55, 0x55];

/// Packet tail marker.
pub const TAIL: [u8; 2] = [0xAA, 0xAA];

/// Number of non-data bytes in a packet: head(2) + cmd(1) + len(1) +
/// checksum(1) + tail(2).
const FRAME_OVERHEAD: usize = 7;

/// Errors that can occur while decoding a byte stream into packets.
#[derive(Debug, Clone, Copy, PartialEq, Eq, Structural)]
pub enum DecodeError {
    InvalidHead,
    InvalidTail,
    ChecksumMismatch { expected: u8, actual: u8 },
}

// ---------------------------------------------------------------------------
// Command and parameter IDs
// ---------------------------------------------------------------------------

/// Request command IDs (client -> printer).
///
/// Only the ones needed for the connect + heartbeat handshake are modeled
/// here; the full table lives in [`commands::RequestCommandId`].
#[derive(Debug, Clone, Copy, PartialEq, Eq, Structural)]
pub enum RequestCommandId {
    /// Request general printer parameters (see [`NiimbotPacket::printer_info`]).
    PrinterInfo,
    /// Initiate the connect handshake.
    Connect,
    /// Poll printer status.
    Heartbeat,
}

impl RequestCommandId {
    /// The byte a request is sent with.
    pub open spec fn wire_byte(self) -> u8 {
        match self {
            RequestCommandId::PrinterInfo => 0x40,
            RequestCommandId::Connect => 0xC1,
            RequestCommandId::Heartbeat => 0xDC,
        }
    }
}

impl From<RequestCommandId> for u8 {
    fn from(id: RequestCommandId) -> (b: u8) {
        match id {
            RequestCommandId::PrinterInfo => 0x40,
            RequestCommandId::Connect => 0xC1,
            RequestCommandId::Heartbeat => 0xDC,
        }
    }
}

impl vstd::std_specs::convert::FromSpecImpl<RequestCommandId> for u8 {
    open spec fn obeys_from_spec() -> bool {
        true
    }

    open spec fn from_spec(id: RequestCommandId) -> u8 {
        id.wire_byte()
    }
}

/// Response command IDs (printer -> client) relevant to connect + heartbeat.
///
/// Unrecognized command bytes are preserved via [`ResponseCommandId::Other`]
/// rather than being treated as an error, since the printer may reply with
/// commands this client doesn't otherwise need to understand.
#[derive(Debug, Clone, Copy, PartialEq, Eq, Structural)]
pub enum ResponseCommandId {
    /// `0xC2` - reply to [`RequestCommandId::Connect`].
    Connect,
    /// `0xDD` - "advanced 1" heartbeat reply.
    HeartbeatAdvanced1,
    /// `0xDE` - "basic" heartbeat reply.
    HeartbeatBasic,
    /// `0xDF` - heartbeat reply of unknown/unspecified format.
    HeartbeatUnknown,
    /// `0xD9` - "advanced 2" heartbeat reply.
    HeartbeatAdvanced2,
    /// `0x40` - printer info response (general parameters).
    PrinterInfo,
    /// `0x4A` - printer protocol version response.
    ProtocolVersion,
    /// Any other command byte, preserved verbatim.
    Other(u8),
}

impl ResponseCommandId {
    /// The response that byte `b` decodes to.
    pub open spec fn from_wire_byte(b: u8) -> ResponseCommandId {
        if b == 0xC2 {
            ResponseCommandId::Connect
        } else if b == 0xDD {
            ResponseCommandId::HeartbeatAdvanced1
        } else if b == 0xDE {
            ResponseCommandId::HeartbeatBasic
        } else if b == 0xDF {
            ResponseCommandId::HeartbeatUnknown
        } else if b == 0xD9 {
            ResponseCommandId::HeartbeatAdvanced2
        } else if b == 0x40 {
            ResponseCommandId::PrinterInfo
        } else if b == 0x4A {
            ResponseCommandId::ProtocolVersion
        } else {
            ResponseCommandId::Other(b)
        }
    }

    /// The byte a response arrives on.
    pub open spec fn wire_byte(self) -> u8 {
        match self {
            ResponseCommandId::Connect => 0xC2,
            ResponseCommandId::HeartbeatAdvanced1 => 0xDD,
            ResponseCommandId::HeartbeatBasic => 0xDE,
            ResponseCommandId::HeartbeatUnknown => 0xDF,
            ResponseCommandId::HeartbeatAdvanced2 => 0xD9,
            ResponseCommandId::PrinterInfo => 0x40,
            ResponseCommandId::ProtocolVersion => 0x4A,
            ResponseCommandId::Other(b) => b,
        }
    }

    /// The heartbeat replies, whatever their format.
    pub open spec fn is_heartbeat(self) -> bool {
        ||| self is HeartbeatAdvanced1
        ||| self is HeartbeatBasic
        ||| self is HeartbeatUnknown
        ||| self is HeartbeatAdvanced2
    }

    /// True for any of the heartbeat reply variants, regardless of format.
    pub fn is_heartbeat_reply(self) -> (r: bool)
        ensures
            r == self.is_heartbeat(),
    {
        match self {
            ResponseCommandId::HeartbeatAdvanced1 | ResponseCommandId::HeartbeatBasic
            | ResponseCommandId::HeartbeatUnknown | ResponseCommandId::HeartbeatAdvanced2 => true,
            _ => false,
        }
    }
}

impl From<u8> for ResponseCommandId {
    fn from(byte: u8) -> (r: Self) {
        match byte {
            0xC2 => ResponseCommandId::Connect,
            0xDD => ResponseCommandId::HeartbeatAdvanced1,
            0xDE => ResponseCommandId::HeartbeatBasic,
            0xDF => ResponseCommandId::HeartbeatUnknown,
            0xD9 => ResponseCommandId::HeartbeatAdvanced2,
            0x40 => ResponseCommandId::PrinterInfo,
            0x4A => ResponseCommandId::ProtocolVersion,
            other => ResponseCommandId::Other(other),
        }
    }
}

impl vstd::std_specs::convert::FromSpecImpl<u8> for ResponseCommandId {
    open spec fn obeys_from_spec() -> bool {
        true
    }

    open spec fn from_spec(byte: u8) -> ResponseCommandId {
        ResponseCommandId::from_wire_byte(byte)
    }
}

/// Result byte carried in a [`ResponseCommandId::Connect`] reply's data
/// payload, indicating the connection state the printer established (or
/// didn't) in response to a [`NiimbotPacket::connect`] request.
#[derive(Debug, Clone, Copy, PartialEq, Eq, Structural)]
pub enum ConnectResult {
    Disconnect,
    Connected,
    ConnectedNew,
    ConnectedV3,
}

impl ConnectResult {
    /// The byte that carries each result.
    pub open spec fn wire_byte(self) -> u8 {
        match self {
            ConnectResult::Disconnect => 0,
            ConnectResult::Connected => 1,
            ConnectResult::ConnectedNew => 2,
            ConnectResult::ConnectedV3 => 3,
        }
    }

    /// The result carried by byte `b`, if `b` is a known result byte.
    pub open spec fn from_wire_byte(b: u8) -> Option<ConnectResult> {
        if b == 0 {
            Some(ConnectResult::Disconnect)
        } else if b == 1 {
            Some(ConnectResult::Connected)
        } else if b == 2 {
            Some(ConnectResult::ConnectedNew)
        } else if b == 3 {
            Some(ConnectResult::ConnectedV3)
        } else {
            None
        }
    }

    /// Decode a raw result byte, returning `None` for unrecognized values.
    pub fn from_byte(byte: u8) -> (r: Option<Self>)
        ensures
            r == Self::from_wire_byte(byte),
            r is None <==> byte > 3,
            r matches Some(c) ==> c.wire_byte() == byte,
            byte == 0 ==> r == Some(ConnectResult::Disconnect),
            byte == 1 ==> r == Some(ConnectResult::Connected),
            byte == 2 ==> r == Some(ConnectResult::ConnectedNew),
            byte == 3 ==> r == Some(ConnectResult::ConnectedV3),
    {
        match byte {
            0 => Some(ConnectResult::Disconnect),
            1 => Some(ConnectResult::Connected),
            2 => Some(ConnectResult::ConnectedNew),
            3 => Some(ConnectResult::ConnectedV3),
            _ => None,
        }
    }

    /// True for any variant indicating an established connection (i.e.
    /// anything other than [`Self::Disconnect`]).
    pub fn is_connected(self) -> (r: bool)
        ensures
            r == !(self is Disconnect),
    {
        match self {
            ConnectResult::Disconnect => false,
            _ => true,
        }
    }
}

impl From<ConnectResult> for u8 {
    fn from(result: ConnectResult) -> (b: u8) {
        match result {
            ConnectResult::Disconnect => 0,
            ConnectResult::Connected => 1,
            ConnectResult::ConnectedNew => 2,
            ConnectResult::ConnectedV3 => 3,
        }
    }
}

impl vstd::std_specs::convert::FromSpecImpl<ConnectResult> for u8 {
    open spec fn obeys_from_spec() -> bool {
        true
    }

    open spec fn from_spec(result: ConnectResult) -> u8 {
        result.wire_byte()
    }
}

/// Sent with [`RequestCommandId::PrinterInfo`] as the single data byte to
/// select which printer parameter is being queried.
///
/// See [`NiimbotPacket::printer_info`].
#[derive(Debug, Clone, Copy, PartialEq, Eq, Structural)]
pub enum PrinterInfoType {
    Density,
    Speed,
    LabelType,
    Language,
    AutoShutdownTime,
    /// See the printer model table of the protocol.
    PrinterModelId,
    SoftWareVersion,
    BatteryChargeLevel,
    SerialNumber,
    HardWareVersion,
    BluetoothAddress,
    PrintMode,
    Area,
}

impl PrinterInfoType {
    /// The key byte each parameter is queried with.
    pub open spec fn wire_byte(self) -> u8 {
        match self {
            PrinterInfoType::Density => 1,
            PrinterInfoType::Speed => 2,
            PrinterInfoType::LabelType => 3,
            PrinterInfoType::Language => 6,
            PrinterInfoType::AutoShutdownTime => 7,
            PrinterInfoType::PrinterModelId => 8,
            PrinterInfoType::SoftWareVersion => 9,
            PrinterInfoType::BatteryChargeLevel => 10,
            PrinterInfoType::SerialNumber => 11,
            PrinterInfoType::HardWareVersion => 12,
            PrinterInfoType::BluetoothAddress => 13,
            PrinterInfoType::PrintMode => 14,
            PrinterInfoType::Area => 15,
        }
    }
}

impl From<PrinterInfoType> for u8 {
    fn from(t: PrinterInfoType) -> (b: u8)
        ensures
            t is Density ==> b == 1,
            t is Speed ==> b == 2,
            t is LabelType ==> b == 3,
            t is Language ==> b == 6,
            t is AutoShutdownTime ==> b == 7,
            t is PrinterModelId ==> b == 8,
            t is SoftWareVersion ==> b == 9,
            t is BatteryChargeLevel ==> b == 10,
            t is SerialNumber ==> b == 11,
            t is HardWareVersion ==> b == 12,
            t is BluetoothAddress ==> b == 13,
            t is PrintMode ==> b == 14,
            t is Area ==> b == 15,
    {
        match t {
            PrinterInfoType::Density => 1,
            PrinterInfoType::Speed => 2,
            PrinterInfoType::LabelType => 3,
            PrinterInfoType::Language => 6,
            PrinterInfoType::AutoShutdownTime => 7,
            PrinterInfoType::PrinterModelId => 8,
            PrinterInfoType::SoftWareVersion => 9,
            PrinterInfoType::BatteryChargeLevel => 10,
            PrinterInfoType::SerialNumber => 11,
            PrinterInfoType::HardWareVersion => 12,
            PrinterInfoType::BluetoothAddress => 13,
            PrinterInfoType::PrintMode => 14,
            PrinterInfoType::Area => 15,
        }
    }
}

impl vstd::std_specs::convert::FromSpecImpl<PrinterInfoType> for u8 {
    open spec fn obeys_from_spec() -> bool {
        true
    }

    open spec fn from_spec(t: PrinterInfoType) -> u8 {
        t.wire_byte()
    }
}

/// Sub-type sent as the single data byte of a [`RequestCommandId::Heartbeat`]
/// request; determines which reply format the printer uses.
#[derive(Debug, Clone, Copy, PartialEq, Eq, Structural)]
pub enum HeartbeatType {
    Advanced1,
    Basic,
    Unknown,
    Advanced2,
}

impl HeartbeatType {
    /// The byte each heartbeat sub-type is requested with.
    pub open spec fn wire_byte(self) -> u8 {
        match self {
            HeartbeatType::Advanced1 => 1,
            HeartbeatType::Basic => 2,
            HeartbeatType::Unknown => 3,
            HeartbeatType::Advanced2 => 4,
        }
    }
}

impl From<HeartbeatType> for u8 {
    fn from(t: HeartbeatType) -> (b: u8)
        ensures
            t is Advanced1 ==> b == 1,
            t is Basic ==> b == 2,
            t is Unknown ==> b == 3,
            t is Advanced2 ==> b == 4,
    {
        match t {
            HeartbeatType::Advanced1 => 1,
            HeartbeatType::Basic => 2,
            HeartbeatType::Unknown => 3,
            HeartbeatType::Advanced2 => 4,
        }
    }
}

impl vstd::std_specs::convert::FromSpecImpl<HeartbeatType> for u8 {
    open spec fn obeys_from_spec() -> bool {
        true
    }

    open spec fn from_spec(t: HeartbeatType) -> u8 {
        t.wire_byte()
    }
}

// ---------------------------------------------------------------------------
// The wire format, as a model over byte sequences
// ---------------------------------------------------------------------------

/// Xor of `acc` with every byte of `bytes`, taken from the first byte to the
/// last.
pub open spec fn xor_fold(acc: u8, bytes: Seq<u8>) -> u8
    decreases bytes.len(),
{
    if bytes.len() == 0 {
        acc
    } else {
        xor_fold(acc, bytes.drop_last()) ^ bytes.last()
    }
}

/// The checksum of a packet: `command ^ len ^ (xor of all data bytes)`.
pub open spec fn checksum_of(command: u8, data: Seq<u8>) -> u8 {
    xor_fold(command ^ (data.len() as u8), data)
}

/// The framed bytes of a packet with the given command and payload:
/// head, command, length, payload, checksum, tail.
pub open spec fn frame_bytes(command: u8, data: Seq<u8>) -> Seq<u8> {
    seq![0x55u8, 0x55u8, command, data.len() as u8] + data + seq![
        checksum_of(command, data),
        0xAAu8,
        0xAAu8,
    ]
}

/// What a packet is: its command byte, its payload, and the byte, if any,
/// that is sent before its head.
pub struct PacketModel {
    pub command: u8,
    pub data: Seq<u8>,
    pub wire_prefix: Option<u8>,
}

impl PacketModel {
    /// A packet as it comes off the wire: no prefix byte.
    pub open spec fn plain(command: u8, data: Seq<u8>) -> PacketModel {
        PacketModel { command, data, wire_prefix: None }
    }

    /// The payload length fits in the one length byte of the frame.
    pub open spec fn wf(self) -> bool {
        self.data.len() <= 255
    }

    /// The packet's checksum.
    pub open spec fn checksum(self) -> u8 {
        checksum_of(self.command, self.data)
    }

    /// The packet's frame, from head to tail.
    pub open spec fn frame(self) -> Seq<u8> {
        frame_bytes(self.command, self.data)
    }

    /// Everything the packet puts on the wire: the prefix byte, if any,
    /// then the frame.
    pub open spec fn wire_bytes(self) -> Seq<u8> {
        match self.wire_prefix {
            Some(b) => seq![b] + self.frame(),
            None => self.frame(),
        }
    }
}

/// What parsing the front of `buf` gives: `Ok(None)` while `buf` may still
/// grow into a complete packet, an error as soon as it cannot start a valid
/// packet (each head byte checked as soon as it is there, then tail, then
/// checksum), and otherwise the packet together with the number of bytes it
/// occupies.
pub open spec fn parse_spec(buf: Seq<u8>) -> Result<Option<(PacketModel, int)>, DecodeError> {
    if buf.len() >= 1 && buf[0] != 0x55u8 {
        Err(DecodeError::InvalidHead)
    } else if buf.len() >= 2 && buf[1] != 0x55u8 {
        Err(DecodeError::InvalidHead)
    } else if buf.len() < 7 {
        Ok(None)
    } else {
        let n = buf[3] as int;
        if buf.len() < 7 + n {
            Ok(None)
        } else if buf[5 + n] != 0xAAu8 || buf[6 + n] != 0xAAu8 {
            Err(DecodeError::InvalidTail)
        } else {
            let data = buf.subrange(4, 4 + n);
            let expected = checksum_of(buf[2], data);
            if expected != buf[4 + n] {
                Err(DecodeError::ChecksumMismatch { expected, actual: buf[4 + n] })
            } else {
                Ok(Some((PacketModel::plain(buf[2], data), 7 + n)))
            }
        }
    }
}

/// Whether a packet may start at position `i` of `buf`: a head byte there,
/// followed by a second head byte or by nothing yet.
pub open spec fn may_start_frame(buf: Seq<u8>, i: int) -> bool {
    buf[i] == 0x55u8 && (i + 1 == buf.len() || buf[i + 1] == 0x55u8)
}

/// The first position at or after `i` where a packet may start, or the
/// buffer's length if there is none.
pub open spec fn resync_from(buf: Seq<u8>, i: int) -> int
    decreases buf.len() - i,
{
    if i >= buf.len() {
        buf.len() as int
    } else if may_start_frame(buf, i) {
        i
    } else {
        resync_from(buf, i + 1)
    }
}

/// One step of the stream decoder on buffer `buf`: what it yields and the
/// buffer it leaves. A decoded packet's bytes leave the buffer. On a framing
/// error only the malformed prefix is discarded: at least the first byte,
/// and every byte up to the next position where a packet may start, so that
/// decoding resynchronizes on the data behind it. Otherwise the buffer is
/// kept until more bytes arrive.
pub open spec fn decode_step(buf: Seq<u8>) -> (Result<Option<PacketModel>, DecodeError>, Seq<u8>) {
    match parse_spec(buf) {
        Ok(Some((p, n))) => (Ok(Some(p)), buf.subrange(n, buf.len() as int)),
        Ok(None) => (Ok(None), buf),
        Err(e) => (Err(e), buf.subrange(resync_from(buf, 1), buf.len() as int)),
    }
}

/// The resynchronization point after position `i` lies within the buffer,
/// is a place where a packet may start (or the end), and no packet may
/// start between `i` and it.
pub proof fn lemma_resync_from(buf: Seq<u8>, i: int)
    requires
        0 <= i,
    ensures
        i <= resync_from(buf, i) || buf.len() < i,
        resync_from(buf, i) <= buf.len() || buf.len() < i,
        resync_from(buf, i) < buf.len() ==> may_start_frame(buf, resync_from(buf, i)),
        forall|k: int| i <= k < resync_from(buf, i) ==> !#[trigger] may_start_frame(buf, k),
    decreases buf.len() - i,
{
    if i < buf.len() && !may_start_frame(buf, i) {
        lemma_resync_from(buf, i + 1);
    }
}

// ---------------------------------------------------------------------------
// Packets
// ---------------------------------------------------------------------------

/// A NIIMBOT protocol packet.
///
/// Construct one either via [`NiimbotPacket::new`] for generic use, or one
/// of the request-specific constructors ([`NiimbotPacket::connect`],
/// [`NiimbotPacket::printer_info`], [`NiimbotPacket::heartbeat`]), which set
/// up the correct data payload (and, for `Connect`, the wire prefix quirk).
#[derive(Debug, PartialEq, Eq)]
pub struct NiimbotPacket {
    command: u8,
    data: Vec<u8>,
    /// Extra byte prepended before the packet head when serialized. Only
    /// `Connect` requests use this, so it defaults to `None`.
    wire_prefix: Option<u8>,
}

impl View for NiimbotPacket {
    type V = PacketModel;

    closed spec fn view(&self) -> PacketModel {
        PacketModel { command: self.command, data: self.data@, wire_prefix: self.wire_prefix }
    }
}

impl Clone for NiimbotPacket {
    fn clone(&self) -> (p: Self)
        ensures
            p@ == self@,
    {
        proof {
            use_type_invariant(self);
        }
        let data: Vec<u8> = vstd::slice::slice_to_vec(self.data.as_slice());
        NiimbotPacket { command: self.command, data, wire_prefix: self.wire_prefix }
    }
}

/// The model of a parse result.
pub open spec fn parsed_view(r: Result<Option<(NiimbotPacket, usize)>, DecodeError>) -> Result<
    Option<(PacketModel, int)>,
    DecodeError,
> {
    match r {
        Ok(Some((p, n))) => Ok(Some((p@, n as int))),
        Ok(None) => Ok(None),
        Err(e) => Err(e),
    }
}

/// The model of what the stream decoder yields.
pub open spec fn next_view(r: Result<Option<NiimbotPacket>, DecodeError>) -> Result<
    Option<PacketModel>,
    DecodeError,
> {
    match r {
        Ok(Some(p)) => Ok(Some(p@)),
        Ok(None) => Ok(None),
        Err(e) => Err(e),
    }
}

impl NiimbotPacket {
    #[verifier::type_invariant]
    spec fn payload_fits(self) -> bool {
        self.data@.len() <= 255
    }

    /// Build a packet from a raw command byte and payload.
    ///
    /// The payload must be at most 255 bytes long; [`Self::try_new`] reports
    /// a longer one instead.
    pub fn new(command: u8, data: Vec<u8>) -> (p: Self)
        requires
            data@.len() <= 255,
        ensures
            p@ == PacketModel::plain(command, data@),
    {
        NiimbotPacket { command, data, wire_prefix: None }
    }

    /// Fallible version of [`Self::new`].
    ///
    /// Returns `Err(len)` with the offending payload length if `data` is
    /// longer than 255 bytes.
    pub fn try_new(command: u8, data: Vec<u8>) -> (r: Result<Self, usize>)
        ensures
            r is Err <==> data@.len() > 255,
            r matches Err(len) ==> len == data@.len(),
            r matches Ok(p) ==> p@ == PacketModel::plain(command, data@),
    {
        if data.len() > 255 {
            return Err(data.len());
        }
        Ok(NiimbotPacket { command, data, wire_prefix: None })
    }

    /// Build the `Connect` handshake request.
    pub fn connect() -> (p: Self)
        ensures
            p@ == (PacketModel {
                command: RequestCommandId::Connect.wire_byte(),
                data: seq![1u8],
                wire_prefix: Some(0x03u8),
            }),
    {
        let mut data: Vec<u8> = Vec::new();
        data.push(1);
        NiimbotPacket { command: u8::from(RequestCommandId::Connect), data, wire_prefix: Some(0x03) }
    }

    /// Build a `PrinterInfo` request for the given raw parameter keys.
    ///
    /// Most callers should prefer [`Self::printer_info_typed`], which takes
    /// a [`PrinterInfoType`] and matches the wire format (a single type
    /// byte) used by real printers. This raw form remains available for
    /// querying keys not covered by [`PrinterInfoType`].
    pub fn printer_info(keys: &[u8]) -> (p: Self)
        requires
            keys@.len() <= 255,
        ensures
            p@ == PacketModel::plain(RequestCommandId::PrinterInfo.wire_byte(), keys@),
    {
        Self::new(u8::from(RequestCommandId::PrinterInfo), vstd::slice::slice_to_vec(keys))
    }

    /// Build a `PrinterInfo` request for a specific [`PrinterInfoType`]: the
    /// same packet as the raw request for the single key of `info_type`.
    pub fn printer_info_typed(info_type: PrinterInfoType) -> (p: Self)
        ensures
            p@ == PacketModel::plain(
                RequestCommandId::PrinterInfo.wire_byte(),
                seq![info_type.wire_byte()],
            ),
    {
        let mut keys: Vec<u8> = Vec::new();
        keys.push(u8::from(info_type));
        Self::printer_info(keys.as_slice())
    }

    /// Build a `Heartbeat` request of the given sub-type.
    pub fn heartbeat(kind: HeartbeatType) -> (p: Self)
        ensures
            p@ == PacketModel::plain(RequestCommandId::Heartbeat.wire_byte(), seq![kind.wire_byte()]),
    {
        let mut data: Vec<u8> = Vec::new();
        data.push(u8::from(kind));
        Self::new(u8::from(RequestCommandId::Heartbeat), data)
    }

    /// The raw command byte. Mainly useful for tests and callers that want
    /// to inspect packets directly; ordinary reply handling should prefer
    /// [`Self::response_id`].
    pub fn command(&self) -> (c: u8)
        ensures
            c == self@.command,
    {
        self.command
    }

    /// The packet's data payload.
    pub fn data(&self) -> (d: &[u8])
        ensures
            d@ == self@.data,
            d@.len() <= 255,
    {
        proof {
            use_type_invariant(self);
        }
        self.data.as_slice()
    }

    /// Interpret [`Self::command`] as a [`ResponseCommandId`].
    pub fn response_id(&self) -> (r: ResponseCommandId)
        ensures
            r == ResponseCommandId::from_wire_byte(self@.command),
    {
        ResponseCommandId::from(self.command)
    }

    /// Compute the packet's checksum: `command ^ len ^ (xor of all data bytes)`.
    fn checksum(&self) -> (c: u8)
        ensures
            c == self@.checksum(),
    {
        proof {
            use_type_invariant(self);
        }
        let len: u8 = self.data.len() as u8;
        let mut acc: u8 = self.command ^ len;
        let mut i: usize = 0;
        while i < self.data.len()
            invariant
                i <= self.data@.len(),
                self.data@.len() <= 255,
                len == self.data@.len() as u8,
                acc == xor_fold(self.command ^ len, self.data@.take(i as int)),
            decreases self.data@.len() - i,
        {
            proof {
                assert(self.data@.take(i + 1).drop_last() =~= self.data@.take(i as int));
            }
            acc = acc ^ self.data[i];
            i = i + 1;
        }
        proof {
            assert(self.data@.take(i as int) =~= self.data@);
        }
        acc
    }

    /// Serialize this packet to its wire representation.
    pub fn to_bytes(&self) -> (out: Vec<u8>)
        ensures
            out@ == self@.wire_bytes(),
    {
        proof {
            use_type_invariant(self);
        }
        let mut out: Vec<u8> = Vec::with_capacity(FRAME_OVERHEAD + self.data.len() + 1);
        if let Some(prefix) = self.wire_prefix {
            out.push(prefix);
        }
        let start: Ghost<Seq<u8>> = Ghost(out@);
        out.push(HEAD[0]);
        out.push(HEAD[1]);
        out.push(self.command);
        out.push(self.data.len() as u8);
        let mut i: usize = 0;
        while i < self.data.len()
            invariant
                i <= self.data@.len(),
                out@ == start@ + seq![0x55u8, 0x55u8, self.command, self.data@.len() as u8]
                    + self.data@.take(i as int),
            decreases self.data@.len() - i,
        {
            out.push(self.data[i]);
            i = i + 1;
            proof {
                assert(self.data@.take(i as int) =~= self.data@.take(i - 1).push(self.data@[i - 1]));
            }
        }
        out.push(self.checksum());
        out.push(TAIL[0]);
        out.push(TAIL[1]);
        proof {
            assert(self.data@.take(i as int) =~= self.data@);
            assert(out@ =~= self@.wire_bytes());
        }
        out
    }

    /// Try to parse a single packet from the front of `buf`.
    ///
    /// Returns:
    /// - `Ok(Some((packet, consumed)))` on success, where `consumed` is the
    ///   number of bytes of `buf` the packet occupied.
    /// - `Ok(None)` if `buf` starts with a valid head but doesn't yet
    ///   contain a complete packet (i.e. more bytes are needed).
    /// - `Err(_)` if `buf` cannot possibly start a valid packet (bad
    ///   head/tail/checksum).
    pub fn parse(buf: &[u8]) -> (r: Result<Option<(Self, usize)>, DecodeError>)
        ensures
            parsed_view(r) == parse_spec(buf@),
    {
        if buf.len() >= 1 && buf[0] != HEAD[0] {
            return Err(DecodeError::InvalidHead);
        }
        if buf.len() >= 2 && buf[1] != HEAD[1] {
            return Err(DecodeError::InvalidHead);
        }
        if buf.len() < FRAME_OVERHEAD {
            return Ok(None);
        }
        let command: u8 = buf[2];
        let data_len: usize = buf[3] as usize;
        let total_len: usize = FRAME_OVERHEAD + data_len;

        if buf.len() < total_len {
            return Ok(None);
        }

        let data: &[u8] = &buf[4..4 + data_len];
        let checksum: u8 = buf[4 + data_len];

        if buf[4 + data_len + 1] != TAIL[0] || buf[4 + data_len + 2] != TAIL[1] {
            return Err(DecodeError::InvalidTail);
        }

        let packet = Self::new(command, vstd::slice::slice_to_vec(data));
        let expected: u8 = packet.checksum();
        if expected != checksum {
            return Err(DecodeError::ChecksumMismatch { expected, actual: checksum });
        }

        Ok(Some((packet, total_len)))
    }
}

// ---------------------------------------------------------------------------
// Stream decoding
// ---------------------------------------------------------------------------

/// Incrementally decodes a byte stream (e.g. successive serial-port reads)
/// into [`NiimbotPacket`]s, buffering partial data between calls.
#[derive(Debug, Default)]
pub struct PacketDecoder {
    buf: Vec<u8>,
}

impl View for PacketDecoder {
    type V = Seq<u8>;

    /// The bytes received and not yet decoded.
    closed spec fn view(&self) -> Seq<u8> {
        self.buf@
    }
}

impl PacketDecoder {
    /// Create an empty decoder.
    pub fn new() -> (d: Self)
        ensures
            d@ == Seq::<u8>::empty(),
    {
        PacketDecoder { buf: Vec::new() }
    }

    /// Append newly-received bytes to the internal buffer.
    pub fn feed(&mut self, bytes: &[u8])
        ensures
            final(self)@ == old(self)@ + bytes@,
    {
        let ghost start = self.buf@;
        let mut i: usize = 0;
        while i < bytes.len()
            invariant
                i <= bytes@.len(),
                self.buf@ == start + bytes@.take(i as int),
            decreases bytes@.len() - i,
        {
            self.buf.push(bytes[i]);
            i = i + 1;
            proof {
                assert(bytes@.take(i as int) =~= bytes@.take(i - 1).push(bytes@[i - 1]));
            }
        }
        proof {
            assert(bytes@.take(i as int) =~= bytes@);
        }
    }

    /// Try to decode and remove the next complete packet from the buffer.
    ///
    /// Returns `Ok(None)` if the buffer doesn't yet hold a full packet. On a
    /// framing error the malformed prefix is discarded so the decoder can
    /// resynchronize on subsequent data.
    pub fn try_next(&mut self) -> (r: Result<Option<NiimbotPacket>, DecodeError>)
        ensures
            next_view(r) == decode_step(old(self)@).0,
            final(self)@ == decode_step(old(self)@).1,
    {
        match NiimbotPacket::parse(self.buf.as_slice()) {
            Ok(Some((packet, consumed))) => {
                proof {
                    lemma_parse_consumes_frame(self.buf@);
                }
                let rest: Vec<u8> = self.buf.split_off(consumed);
                self.buf = rest;
                Ok(Some(packet))
            },
            Ok(None) => Ok(None),
            Err(e) => {
                proof {
                    lemma_resync_from(self.buf@, 1);
                }
                let mut i: usize = 1;
                while i < self.buf.len() && !(self.buf[i] == HEAD[0] && (i + 1 == self.buf.len()
                    || self.buf[i + 1] == HEAD[1]))
                    invariant
                        1 <= i <= self.buf@.len(),
                        resync_from(self.buf@, i as int) == resync_from(self.buf@, 1),
                    decreases self.buf@.len() - i,
                {
                    i = i + 1;
                }
                let rest: Vec<u8> = self.buf.split_off(i);
                self.buf = rest;
                Err(e)
            },
        }
    }
}

// ---------------------------------------------------------------------------
// Reply payloads
// ---------------------------------------------------------------------------

/// The result a `Connect` reply packet carries, if any.
pub open spec fn connect_spec(p: PacketModel) -> Option<ConnectResult> {
    if ResponseCommandId::from_wire_byte(p.command) is Connect && p.data.len() > 0 {
        ConnectResult::from_wire_byte(p.data[0])
    } else {
        None
    }
}

/// Decode a [`ResponseCommandId::Connect`] reply's payload into a
/// [`ConnectResult`].
///
/// Returns `None` if `packet` isn't a `Connect` reply, has an empty
/// payload, or its result byte isn't a recognized [`ConnectResult`] value.
pub fn decode_connect(packet: &NiimbotPacket) -> (r: Option<ConnectResult>)
    ensures
        r == connect_spec(packet@),
{
    match packet.response_id() {
        ResponseCommandId::Connect => {},
        _ => {
            return None;
        },
    }
    let data: &[u8] = packet.data();
    if data.len() == 0 {
        return None;
    }
    ConnectResult::from_byte(data[0])
}

/// Decoded heartbeat payload. Field availability depends on the reply
/// format the printer used (see [`decode_heartbeat`]).
#[derive(Debug, Default, Clone, Copy, PartialEq, Eq)]
pub struct HeartbeatData {
    pub lid_closed: Option<bool>,
    pub charge_level: Option<u8>,
    pub paper_inserted: Option<bool>,
    pub paper_rfid_success: Option<bool>,
    pub ribbon_rfid_success: Option<bool>,
    pub ribbon_inserted: Option<bool>,
    pub temp: Option<u8>,
    pub wifi_rssi: Option<u8>,
}

/// A heartbeat payload with no field known.
pub open spec fn no_heartbeat_fields() -> HeartbeatData {
    HeartbeatData {
        lid_closed: None,
        charge_level: None,
        paper_inserted: None,
        paper_rfid_success: None,
        ribbon_rfid_success: None,
        ribbon_inserted: None,
        temp: None,
        wifi_rssi: None,
    }
}

/// The layouts of the heartbeat replies. An "advanced 1" reply is told
/// apart by its payload length alone (10, 13, 19 or 20 bytes); an
/// "advanced 2" reply has a fixed layout of at least 9 bytes, with the wifi
/// signal strength in an optional tenth byte. A flag byte of zero means
/// closed/inserted; a non-zero RFID byte means success.
pub open spec fn heartbeat_spec(command: u8, d: Seq<u8>) -> Option<HeartbeatData> {
    match ResponseCommandId::from_wire_byte(command) {
        ResponseCommandId::HeartbeatAdvanced1 => {
            if d.len() == 10 {
                Some(
                    HeartbeatData {
                        lid_closed: Some(d[8] == 0),
                        charge_level: Some(d[9]),
                        ..no_heartbeat_fields()
                    },
                )
            } else if d.len() == 13 {
                Some(
                    HeartbeatData {
                        lid_closed: Some(d[9] == 0),
                        charge_level: Some(d[10]),
                        paper_inserted: Some(d[11] == 0),
                        paper_rfid_success: Some(d[12] != 0),
                        ..no_heartbeat_fields()
                    },
                )
            } else if d.len() == 19 {
                Some(
                    HeartbeatData {
                        lid_closed: Some(d[15] == 0),
                        charge_level: Some(d[16]),
                        paper_inserted: Some(d[17] == 0),
                        paper_rfid_success: Some(d[18] != 0),
                        ..no_heartbeat_fields()
                    },
                )
            } else if d.len() == 20 {
                Some(
                    HeartbeatData {
                        paper_inserted: Some(d[18] == 0),
                        paper_rfid_success: Some(d[19] != 0),
                        ..no_heartbeat_fields()
                    },
                )
            } else {
                None
            }
        },
        ResponseCommandId::HeartbeatAdvanced2 => {
            if d.len() >= 9 {
                Some(
                    HeartbeatData {
                        charge_level: Some(d[2]),
                        temp: Some(d[3]),
                        lid_closed: Some(d[4] == 0),
                        paper_inserted: Some(d[5] == 0),
                        paper_rfid_success: Some(d[6] != 0),
                        ribbon_rfid_success: Some(d[7] != 0),
                        ribbon_inserted: Some(d[8] == 0),
                        wifi_rssi: if d.len() >= 10 {
                            Some(d[9])
                        } else {
                            None
                        },
                    },
                )
            } else {
                None
            }
        },
        _ => None,
    }
}

/// Decode a heartbeat reply packet's payload.
///
/// The `Advanced1` layout is disambiguated purely by payload length, while
/// `Advanced2` has a fixed layout with optional trailing fields.
///
/// Returns `None` if `packet` isn't a recognized heartbeat reply, or its
/// payload length doesn't match any known layout.
pub fn decode_heartbeat(packet: &NiimbotPacket) -> (r: Option<HeartbeatData>)
    ensures
        r == heartbeat_spec(packet@.command, packet@.data),
        r is Some ==> (packet@.command == 0xDD || packet@.command == 0xD9),
        packet@.command == 0xD9 ==> (r is Some <==> packet@.data.len() >= 9),
        packet@.command == 0xD9 && packet@.data.len() >= 9 ==> r == Some(
            HeartbeatData {
                charge_level: Some(packet@.data[2]),
                temp: Some(packet@.data[3]),
                lid_closed: Some(packet@.data[4] == 0),
                paper_inserted: Some(packet@.data[5] == 0),
                paper_rfid_success: Some(packet@.data[6] != 0),
                ribbon_rfid_success: Some(packet@.data[7] != 0),
                ribbon_inserted: Some(packet@.data[8] == 0),
                wifi_rssi: if packet@.data.len() >= 10 {
                    Some(packet@.data[9])
                } else {
                    None
                },
            },
        ),
        packet@.command == 0xDD ==> (r is Some <==> (packet@.data.len() == 10
            || packet@.data.len() == 13 || packet@.data.len() == 19 || packet@.data.len() == 20)),
        packet@.command == 0xDD && packet@.data.len() == 10 ==> r == Some(
            HeartbeatData {
                lid_closed: Some(packet@.data[8] == 0),
                charge_level: Some(packet@.data[9]),
                ..no_heartbeat_fields()
            },
        ),
        packet@.command == 0xDD && packet@.data.len() == 13 ==> r == Some(
            HeartbeatData {
                lid_closed: Some(packet@.data[9] == 0),
                charge_level: Some(packet@.data[10]),
                paper_inserted: Some(packet@.data[11] == 0),
                paper_rfid_success: Some(packet@.data[12] != 0),
                ..no_heartbeat_fields()
            },
        ),
        packet@.command == 0xDD && packet@.data.len() == 19 ==> r == Some(
            HeartbeatData {
                lid_closed: Some(packet@.data[15] == 0),
                charge_level: Some(packet@.data[16]),
                paper_inserted: Some(packet@.data[17] == 0),
                paper_rfid_success: Some(packet@.data[18] != 0),
                ..no_heartbeat_fields()
            },
        ),
        packet@.command == 0xDD && packet@.data.len() == 20 ==> r == Some(
            HeartbeatData {
                paper_inserted: Some(packet@.data[18] == 0),
                paper_rfid_success: Some(packet@.data[19] != 0),
                ..no_heartbeat_fields()
            },
        ),
{
    let d: &[u8] = packet.data();
    match packet.response_id() {
        ResponseCommandId::HeartbeatAdvanced1 => {
            let mut info = HeartbeatData {
                lid_closed: None,
                charge_level: None,
                paper_inserted: None,
                paper_rfid_success: None,
                ribbon_rfid_success: None,
                ribbon_inserted: None,
                temp: None,
                wifi_rssi: None,
            };
            let len: usize = d.len();
            if len == 10 {
                info.lid_closed = Some(d[8] == 0);
                info.charge_level = Some(d[9]);
            } else if len == 13 {
                info.lid_closed = Some(d[9] == 0);
                info.charge_level = Some(d[10]);
                info.paper_inserted = Some(d[11] == 0);
                info.paper_rfid_success = Some(d[12] != 0);
            } else if len == 19 {
                info.lid_closed = Some(d[15] == 0);
                info.charge_level = Some(d[16]);
                info.paper_inserted = Some(d[17] == 0);
                info.paper_rfid_success = Some(d[18] != 0);
            } else if len == 20 {
                info.paper_inserted = Some(d[18] == 0);
                info.paper_rfid_success = Some(d[19] != 0);
            } else {
                return None;
            }
            Some(info)
        },
        ResponseCommandId::HeartbeatAdvanced2 => {
            if d.len() >= 9 {
                Some(
                    HeartbeatData {
                        charge_level: Some(d[2]),
                        temp: Some(d[3]),
                        lid_closed: Some(d[4] == 0),
                        paper_inserted: Some(d[5] == 0),
                        paper_rfid_success: Some(d[6] != 0),
                        ribbon_rfid_success: Some(d[7] != 0),
                        ribbon_inserted: Some(d[8] == 0),
                        wifi_rssi: if d.len() >= 10 {
                            Some(d[9])
                        } else {
                            None
                        },
                    },
                )
            } else {
                None
            }
        },
        _ => None,
    }
}

// ---------------------------------------------------------------------------
// Laws of the wire format
// ---------------------------------------------------------------------------

/// Whatever parses off the front of a buffer is exactly a frame that lies
/// at the front of it: a plain packet whose payload fits a frame, occupying
/// the frame's length in bytes.
pub proof fn lemma_parse_consumes_frame(buf: Seq<u8>)
    ensures
        parse_spec(buf) matches Ok(Some((p, n))) ==> {
            &&& p.wf()
            &&& p.wire_prefix is None
            &&& n == p.frame().len()
            &&& n <= buf.len()
            &&& buf.take(n) == p.frame()
        },
{
    if let Ok(Some((p, n))) = parse_spec(buf) {
        let k = buf[3] as int;
        assert(p.data.len() == k);
        assert((k as u8) == buf[3]);
        assert(buf.take(n) =~= p.frame());
    }
}

/// A frame parses back to the packet it was built from, whatever bytes
/// follow it, and occupies exactly its own length.
pub proof fn lemma_frame_parses(p: PacketModel, rest: Seq<u8>)
    requires
        p.wf(),
    ensures
        parse_spec(p.frame() + rest) == Ok::<Option<(PacketModel, int)>, DecodeError>(
            Some((PacketModel::plain(p.command, p.data), p.frame().len() as int)),
        ),
{
    let buf = p.frame() + rest;
    let n = p.data.len() as int;
    let b: u8 = p.data.len() as u8;
    assert(b as int == n);
    assert(buf[3] == b);
    assert(buf.subrange(4, 4 + n) =~= p.data);
    assert(buf[4 + n] == p.checksum());
    assert(buf[5 + n] == 0xAAu8);
    assert(buf[6 + n] == 0xAAu8);
}

/// A frame that has not fully arrived asks for more bytes: every proper
/// prefix of a frame parses to `Ok(None)`, never to an error.
pub proof fn lemma_partial_frame_needs_more(p: PacketModel, k: int)
    requires
        p.wf(),
        0 <= k < p.frame().len(),
    ensures
        parse_spec(p.frame().take(k)) == Ok::<Option<(PacketModel, int)>, DecodeError>(None),
{
    let buf = p.frame().take(k);
    let b: u8 = p.data.len() as u8;
    assert(b as int == p.data.len());
    if k >= 4 {
        assert(buf[3] == b);
    }
}

/// Bytes that arrive later never change an outcome already decided: once
/// the front of a buffer parses to a packet or to an error, appending more
/// bytes gives the same packet or error.
pub proof fn lemma_decided_parse_is_stable(buf: Seq<u8>, more: Seq<u8>)
    requires
        !(parse_spec(buf) matches Ok(None)),
    ensures
        parse_spec(buf + more) == parse_spec(buf),
{
    let all = buf + more;
    if buf.len() >= 1 {
        assert(all[0] == buf[0]);
    }
    if buf.len() >= 2 {
        assert(all[1] == buf[1]);
    }
    if buf.len() >= 7 {
        let n = buf[3] as int;
        assert(all[2] == buf[2] && all[3] == buf[3]);
        if buf.len() >= 7 + n {
            assert(all.subrange(4, 4 + n) =~= buf.subrange(4, 4 + n));
            assert(all[4 + n] == buf[4 + n]);
            assert(all[5 + n] == buf[5 + n]);
            assert(all[6 + n] == buf[6 + n]);
        }
    }
}

/// A frame whose checksum byte was altered is rejected, and the error
/// names both the checksum the frame's contents call for and the byte
/// that was found.
pub proof fn lemma_altered_checksum_detected(p: PacketModel, c: u8, rest: Seq<u8>)
    requires
        p.wf(),
        c != p.checksum(),
    ensures
        parse_spec(p.frame().update(4 + p.data.len() as int, c) + rest) == Err::<
            Option<(PacketModel, int)>,
            DecodeError,
        >(DecodeError::ChecksumMismatch { expected: p.checksum(), actual: c }),
{
    let buf = p.frame().update(4 + p.data.len() as int, c) + rest;
    let n = p.data.len() as int;
    let b: u8 = p.data.len() as u8;
    assert(b as int == n);
    assert(buf[3] == b);
    assert(buf.subrange(4, 4 + n) =~= p.data);
    assert(buf[4 + n] == c);
    assert(buf[5 + n] == 0xAAu8);
    assert(buf[6 + n] == 0xAAu8);
}

/// The stream decoder hands out a frame at the front of its buffer as its
/// packet and keeps exactly the bytes after it.
pub proof fn lemma_decoder_yields_frame(p: PacketModel, rest: Seq<u8>)
    requires
        p.wf(),
    ensures
        decode_step(p.frame() + rest) == (
            Ok::<Option<PacketModel>, DecodeError>(Some(PacketModel::plain(p.command, p.data))),
            rest,
        ),
{
    lemma_frame_parses(p, rest);
    let buf = p.frame() + rest;
    assert(buf.subrange(p.frame().len() as int, buf.len() as int) =~= rest);
}

/// A partly received frame stays in the decoder untouched until the rest
/// of it arrives.
pub proof fn lemma_decoder_waits_for_partial_frame(p: PacketModel, k: int)
    requires
        p.wf(),
        0 <= k < p.frame().len(),
    ensures
        decode_step(p.frame().take(k)) == (
            Ok::<Option<PacketModel>, DecodeError>(None),
            p.frame().take(k),
        ),
{
    lemma_partial_frame_needs_more(p, k);
}

/// The bytes of a run of packets' frames, one after another.
pub open spec fn frames_bytes(ps: Seq<PacketModel>) -> Seq<u8>
    decreases ps.len(),
{
    if ps.len() == 0 {
        Seq::empty()
    } else {
        ps[0].frame() + frames_bytes(ps.drop_first())
    }
}

/// What the stream decoder yields in `k` successive steps on buffer `buf`,
/// and the buffer it is left with.
pub open spec fn decode_steps(buf: Seq<u8>, k: nat) -> (
    Seq<Result<Option<PacketModel>, DecodeError>>,
    Seq<u8>,
)
    decreases k,
{
    if k == 0 {
        (Seq::empty(), buf)
    } else {
        let (r, rest) = decode_step(buf);
        let (rs, left) = decode_steps(rest, (k - 1) as nat);
        (seq![r] + rs, left)
    }
}

/// Packets sent back to back come out of the stream decoder one by one, in
/// the order they were sent, each as the plain packet it was built from,
/// and the decoder is left with exactly the bytes after them.
#[verifier::spinoff_prover]
#[verifier::rlimit(40)]
pub proof fn lemma_decoder_yields_frames_in_order(ps: Seq<PacketModel>, rest: Seq<u8>)
    requires
        forall|i: int| 0 <= i < ps.len() ==> #[trigger] ps[i].wf(),
    ensures
        decode_steps(frames_bytes(ps) + rest, ps.len()) == (
            Seq::new(
                ps.len(),
                |i: int|
                    Ok::<Option<PacketModel>, DecodeError>(
                        Some(PacketModel::plain(ps[i].command, ps[i].data)),
                    ),
            ),
            rest,
        ),
    decreases ps.len(),
{
    let yielded = |q: Seq<PacketModel>|
        Seq::new(
            q.len(),
            |i: int|
                Ok::<Option<PacketModel>, DecodeError>(
                    Some(PacketModel::plain(q[i].command, q[i].data)),
                ),
        );
    if ps.len() > 0 {
        let tail = ps.drop_first();
        assert forall|i: int| 0 <= i < tail.len() implies #[trigger] tail[i].wf() by {
            assert(tail[i] == ps[i + 1]);
        }
        lemma_decoder_yields_frames_in_order(tail, rest);
        assert(ps[0].wf());
        let after = frames_bytes(tail) + rest;
        assert(frames_bytes(ps) + rest =~= ps[0].frame() + after);
        lemma_decoder_yields_frame(ps[0], after);
        assert(seq![Ok::<Option<PacketModel>, DecodeError>(
            Some(PacketModel::plain(ps[0].command, ps[0].data)),
        )] + yielded(tail) =~= yielded(ps));
    } else {
        assert(frames_bytes(ps) + rest =~= rest);
        assert(yielded(ps) =~= Seq::<Result<Option<PacketModel>, DecodeError>>::empty());
    }
}

/// After a framing error the decoder drops at least one byte, and never a
/// byte at or after a later position where a packet may start: whatever
/// follows such a position is still in the buffer, at its end.
pub proof fn lemma_error_keeps_later_frames(buf: Seq<u8>, j: int)
    requires
        parse_spec(buf) is Err,
        1 <= j < buf.len(),
        may_start_frame(buf, j),
    ensures
        decode_step(buf).1.len() < buf.len(),
        decode_step(buf).1.len() >= buf.len() - j,
        decode_step(buf).1 == buf.subrange(buf.len() - decode_step(buf).1.len(), buf.len() as int),
{
    lemma_resync_from(buf, 1);
    let r = resync_from(buf, 1);
    if r > j {
        assert(!may_start_frame(buf, j));
    }
}

/// Junk in front of a frame costs one error: when the junk holds no head
/// byte, the decoder reports the bad head, drops exactly the junk, and the
/// frame is next in line.
pub proof fn lemma_junk_before_frame(junk: Seq<u8>, p: PacketModel, rest: Seq<u8>)
    requires
        p.wf(),
        junk.len() >= 1,
        forall|i: int| 0 <= i < junk.len() ==> #[trigger] junk[i] != 0x55u8,
    ensures
        decode_step(junk + p.frame() + rest) == (
            Err::<Option<PacketModel>, DecodeError>(DecodeError::InvalidHead),
            p.frame() + rest,
        ),
{
    let buf = junk + p.frame() + rest;
    let j = junk.len() as int;
    assert(buf[0] == junk[0]);
    assert(buf[j] == 0x55u8 && buf[j + 1] == 0x55u8);
    assert(may_start_frame(buf, j));
    lemma_resync_from(buf, 1);
    let r = resync_from(buf, 1);
    if r < j {
        assert(buf[r] == junk[r]);
    }
    assert(r == j);
    assert(buf.subrange(j, buf.len() as int) =~= p.frame() + rest);
}

/// Folding over two runs of bytes is folding over the first, then over the
/// second from where the first ended.
pub proof fn lemma_xor_fold_concat(acc: u8, a: Seq<u8>, b: Seq<u8>)
    ensures
        xor_fold(acc, a + b) == xor_fold(xor_fold(acc, a), b),
    decreases b.len(),
{
    if b.len() == 0 {
        assert(a + b =~= a);
    } else {
        assert((a + b).drop_last() =~= a + b.drop_last());
        assert((a + b).last() == b.last());
        lemma_xor_fold_concat(acc, a, b.drop_last());
    }
}

/// Folding from any start value is that value xor the fold from zero.
pub proof fn lemma_xor_fold_start(acc: u8, bytes: Seq<u8>)
    ensures
        xor_fold(acc, bytes) == acc ^ xor_fold(0, bytes),
    decreases bytes.len(),
{
    if bytes.len() == 0 {
        assert(acc ^ 0u8 == acc) by (bit_vector);
    } else {
        lemma_xor_fold_start(acc, bytes.drop_last());
        let x = xor_fold(0, bytes.drop_last());
        let l = bytes.last();
        assert((acc ^ x) ^ l == acc ^ (x ^ l)) by (bit_vector);
    }
}

/// The checksum is the command, xor the payload length, xor every payload
/// byte.
pub proof fn lemma_checksum_is_xor_of_parts(command: u8, data: Seq<u8>)
    ensures
        checksum_of(command, data) == command ^ (data.len() as u8) ^ xor_fold(0, data),
{
    lemma_xor_fold_start(command ^ (data.len() as u8), data);
}

/// The checksum byte makes the xor of everything between head and tail
/// (command, length, payload and checksum) zero.
pub proof fn lemma_frame_xor_is_zero(p: PacketModel)
    requires
        p.wf(),
    ensures
        xor_fold(0, p.frame().subrange(2, 5 + p.data.len() as int)) == 0,
{
    let c = p.command;
    let l = p.data.len() as u8;
    let chk = p.checksum();
    let body = seq![c, l] + p.data;
    let seg = p.frame().subrange(2, 5 + p.data.len() as int);
    assert(seg =~= body.push(chk));
    assert(seg.drop_last() =~= body);
    assert(xor_fold(0, seg) == xor_fold(0, body) ^ chk);
    lemma_xor_fold_concat(0, seq![c, l], p.data);
    assert(seq![c, l].drop_last() =~= seq![c]);
    assert(seq![c].drop_last() =~= Seq::<u8>::empty());
    assert(xor_fold(0, Seq::<u8>::empty()) == 0u8);
    assert(seq![c].last() == c);
    assert(xor_fold(0, seq![c]) == 0u8 ^ c);
    assert(xor_fold(0, seq![c, l]) == (0u8 ^ c) ^ l);
    assert((0u8 ^ c) ^ l == c ^ l) by (bit_vector);
    assert(chk ^ chk == 0u8) by (bit_vector);
}

// ---------------------------------------------------------------------------
// Laws of the ID tables and reply layouts
// ---------------------------------------------------------------------------

/// The full-table response that a response of the connect/heartbeat table
/// stands for: the one with the same name.
pub open spec fn same_named_response(r: ResponseCommandId) -> commands::ResponseCommandId {
    match r {
        ResponseCommandId::Connect => commands::ResponseCommandId::Connect,
        ResponseCommandId::HeartbeatAdvanced1 => commands::ResponseCommandId::HeartbeatAdvanced1,
        ResponseCommandId::HeartbeatBasic => commands::ResponseCommandId::HeartbeatBasic,
        ResponseCommandId::HeartbeatUnknown => commands::ResponseCommandId::HeartbeatUnknown,
        ResponseCommandId::HeartbeatAdvanced2 => commands::ResponseCommandId::HeartbeatAdvanced2,
        ResponseCommandId::PrinterInfo => commands::ResponseCommandId::PrinterInfo,
        ResponseCommandId::ProtocolVersion => commands::ResponseCommandId::ProtocolVersion,
        ResponseCommandId::Other(b) => commands::ResponseCommandId::Other(b),
    }
}

/// The connect/heartbeat response table agrees with the protocol's full
/// table: a byte it recognizes decodes, in the full table, to the response
/// of the same name, arriving on the same byte; and every response it names
/// decodes from its own byte.
pub proof fn lemma_response_tables_agree(b: u8)
    ensures
        !(ResponseCommandId::from_wire_byte(b) is Other) ==> commands::ResponseCommandId::from_wire_byte(b)
            == same_named_response(ResponseCommandId::from_wire_byte(b)),
        !(ResponseCommandId::from_wire_byte(b) is Other) ==> same_named_response(
            ResponseCommandId::from_wire_byte(b),
        ).wire_byte() == b,
{
}

/// Every response of the connect/heartbeat table other than `Other`
/// decodes from the byte it arrives on.
pub proof fn lemma_named_responses_decode(r: ResponseCommandId)
    requires
        !(r is Other),
    ensures
        ResponseCommandId::from_wire_byte(r.wire_byte()) == r,
        r.wire_byte() == same_named_response(r).wire_byte(),
{
}

/// The three requests of the connect/heartbeat table are sent with the same
/// bytes as the requests of the same name in the full table.
pub proof fn lemma_request_tables_agree()
    ensures
        RequestCommandId::PrinterInfo.wire_byte() == commands::RequestCommandId::PrinterInfo.wire_byte(),
        RequestCommandId::Connect.wire_byte() == commands::RequestCommandId::Connect.wire_byte(),
        RequestCommandId::Heartbeat.wire_byte() == commands::RequestCommandId::Heartbeat.wire_byte(),
{
}

/// The key each printer parameter is queried with, as the protocol numbers
/// them.
pub proof fn lemma_printer_info_keys(t: PrinterInfoType)
    ensures
        t is Density ==> t.wire_byte() == 1,
        t is Speed ==> t.wire_byte() == 2,
        t is LabelType ==> t.wire_byte() == 3,
        t is Language ==> t.wire_byte() == 6,
        t is AutoShutdownTime ==> t.wire_byte() == 7,
        t is PrinterModelId ==> t.wire_byte() == 8,
        t is SoftWareVersion ==> t.wire_byte() == 9,
        t is BatteryChargeLevel ==> t.wire_byte() == 10,
        t is SerialNumber ==> t.wire_byte() == 11,
        t is HardWareVersion ==> t.wire_byte() == 12,
        t is BluetoothAddress ==> t.wire_byte() == 13,
        t is PrintMode ==> t.wire_byte() == 14,
        t is Area ==> t.wire_byte() == 15,
{
}

/// Distinct parameters are queried with distinct keys.
pub proof fn lemma_printer_info_keys_distinct(a: PrinterInfoType, b: PrinterInfoType)
    requires
        a.wire_byte() == b.wire_byte(),
    ensures
        a == b,
{
}

/// The full-table reply that names the parameter `t`, if the protocol names
/// one.
pub open spec fn info_reply_named(t: PrinterInfoType) -> Option<commands::ResponseCommandId> {
    match t {
        PrinterInfoType::Density => Some(commands::ResponseCommandId::PrinterInfoDensity),
        PrinterInfoType::Speed => Some(commands::ResponseCommandId::PrinterInfoSpeed),
        PrinterInfoType::LabelType => Some(commands::ResponseCommandId::PrinterInfoLabelType),
        PrinterInfoType::Language => Some(commands::ResponseCommandId::PrinterInfoLanguage),
        PrinterInfoType::AutoShutdownTime => Some(
            commands::ResponseCommandId::PrinterInfoAutoShutDownTime,
        ),
        PrinterInfoType::PrinterModelId => Some(commands::ResponseCommandId::PrinterInfoPrinterCode),
        PrinterInfoType::SoftWareVersion => Some(
            commands::ResponseCommandId::PrinterInfoSoftWareVersion,
        ),
        PrinterInfoType::BatteryChargeLevel => Some(
            commands::ResponseCommandId::PrinterInfoChargeLevel,
        ),
        PrinterInfoType::SerialNumber => Some(commands::ResponseCommandId::PrinterInfoSerialNumber),
        PrinterInfoType::HardWareVersion => Some(
            commands::ResponseCommandId::PrinterInfoHardWareVersion,
        ),
        PrinterInfoType::BluetoothAddress => Some(
            commands::ResponseCommandId::PrinterInfoBluetoothAddress,
        ),
        PrinterInfoType::PrintMode => None,
        PrinterInfoType::Area => Some(commands::ResponseCommandId::PrinterInfoArea),
    }
}

/// A parameter's reply arrives on `0x40` plus the parameter's key, and that
/// byte is the one of the reply the protocol names after the parameter;
/// apart from the charge level, whose byte decodes as the protocol-version
/// reply, that named reply is what the byte decodes to.
pub proof fn lemma_info_reply_matches_key(t: PrinterInfoType)
    ensures
        info_reply_named(t) matches Some(r) ==> r.wire_byte() == 0x40 + t.wire_byte(),
        info_reply_named(t) matches Some(r) ==> !(r is PrinterInfoChargeLevel)
            ==> commands::ResponseCommandId::from_wire_byte((0x40 + t.wire_byte()) as u8) == r,
        t is BatteryChargeLevel ==> commands::ResponseCommandId::from_wire_byte(
            (0x40 + t.wire_byte()) as u8,
        ) == commands::ResponseCommandId::ProtocolVersion,
{
}

/// The sub-type byte each heartbeat request carries, as the protocol
/// numbers them: 1 to 4.
pub proof fn lemma_heartbeat_type_bytes(k: HeartbeatType)
    ensures
        k is Advanced1 ==> k.wire_byte() == 1,
        k is Basic ==> k.wire_byte() == 2,
        k is Unknown ==> k.wire_byte() == 3,
        k is Advanced2 ==> k.wire_byte() == 4,
{
}

/// Distinct heartbeat sub-types are requested with distinct bytes.
pub proof fn lemma_heartbeat_type_bytes_distinct(a: HeartbeatType, b: HeartbeatType)
    requires
        a.wire_byte() == b.wire_byte(),
    ensures
        a == b,
{
}

/// The byte each connect result is carried by, as the protocol numbers
/// them: 0 to 3 in the order disconnected, connected, connected (new),
/// connected (v3); and exactly these bytes decode, each to its result.
pub proof fn lemma_connect_result_table(c: ConnectResult, b: u8)
    ensures
        c is Disconnect ==> c.wire_byte() == 0,
        c is Connected ==> c.wire_byte() == 1,
        c is ConnectedNew ==> c.wire_byte() == 2,
        c is ConnectedV3 ==> c.wire_byte() == 3,
        ConnectResult::from_wire_byte(b) is Some <==> b <= 3,
        b == 0 ==> ConnectResult::from_wire_byte(b) == Some(ConnectResult::Disconnect),
        b == 1 ==> ConnectResult::from_wire_byte(b) == Some(ConnectResult::Connected),
        b == 2 ==> ConnectResult::from_wire_byte(b) == Some(ConnectResult::ConnectedNew),
        b == 3 ==> ConnectResult::from_wire_byte(b) == Some(ConnectResult::ConnectedV3),
{
}

/// The fixed layout of an "advanced 2" heartbeat reply, read straight off
/// the payload: charge level, temperature, lid, paper, paper RFID, ribbon
/// RFID and ribbon at bytes 2 to 8, the wifi signal strength at byte 9 when
/// there is one; shorter payloads do not decode.
pub proof fn lemma_heartbeat_advanced2_layout(d: Seq<u8>)
    ensures
        heartbeat_spec(0xD9, d) is Some <==> d.len() >= 9,
        d.len() >= 9 ==> heartbeat_spec(0xD9, d) == Some(
            HeartbeatData {
                charge_level: Some(d[2]),
                temp: Some(d[3]),
                lid_closed: Some(d[4] == 0),
                paper_inserted: Some(d[5] == 0),
                paper_rfid_success: Some(d[6] != 0),
                ribbon_rfid_success: Some(d[7] != 0),
                ribbon_inserted: Some(d[8] == 0),
                wifi_rssi: if d.len() >= 10 {
                    Some(d[9])
                } else {
                    None
                },
            },
        ),
{
}

/// The layouts of an "advanced 1" heartbeat reply, read straight off the
/// payload: the status bytes are the last ones of the payload, in the order
/// lid, charge level, paper, paper RFID (the 10-byte reply carries only the
/// first two, the 20-byte reply only the last two); other lengths do not
/// decode, and no "advanced 1" reply reports temperature, ribbon or wifi.
pub proof fn lemma_heartbeat_advanced1_layout(d: Seq<u8>)
    ensures
        heartbeat_spec(0xDD, d) is Some <==> (d.len() == 10 || d.len() == 13 || d.len() == 19
            || d.len() == 20),
        heartbeat_spec(0xDD, d) matches Some(h) ==> {
            &&& h.temp is None
            &&& h.ribbon_rfid_success is None
            &&& h.ribbon_inserted is None
            &&& h.wifi_rssi is None
        },
        d.len() == 10 ==> heartbeat_spec(0xDD, d) == Some(
            HeartbeatData {
                lid_closed: Some(d[d.len() - 2] == 0),
                charge_level: Some(d[d.len() - 1]),
                ..no_heartbeat_fields()
            },
        ),
        (d.len() == 13 || d.len() == 19) ==> heartbeat_spec(0xDD, d) == Some(
            HeartbeatData {
                lid_closed: Some(d[d.len() - 4] == 0),
                charge_level: Some(d[d.len() - 3]),
                paper_inserted: Some(d[d.len() - 2] == 0),
                paper_rfid_success: Some(d[d.len() - 1] != 0),
                ..no_heartbeat_fields()
            },
        ),
        d.len() == 20 ==> heartbeat_spec(0xDD, d) == Some(
            HeartbeatData {
                paper_inserted: Some(d[d.len() - 2] == 0),
                paper_rfid_success: Some(d[d.len() - 1] != 0),
                ..no_heartbeat_fields()
            },
        ),
{
}

/// Only the two advanced heartbeat replies carry a decodable payload.
pub proof fn lemma_heartbeat_needs_advanced_reply(command: u8, d: Seq<u8>)
    ensures
        heartbeat_spec(command, d) is Some ==> (command == 0xDD || command == 0xD9),
{
}

/// A connect result byte decodes back to the result it carries, and only
/// known result bytes decode.
pub proof fn lemma_connect_result_bytes(c: ConnectResult, b: u8)
    ensures
        ConnectResult::from_wire_byte(c.wire_byte()) == Some(c),
        ConnectResult::from_wire_byte(b) matches Some(r) ==> r.wire_byte() == b,
{
}

/// Decoding a response byte loses nothing: the response arrives on that
/// very byte, and exactly the four heartbeat bytes decode to a heartbeat
/// reply.
pub proof fn lemma_response_keeps_byte(b: u8)
    ensures
        ResponseCommandId::from_wire_byte(b).wire_byte() == b,
        ResponseCommandId::from_wire_byte(b).is_heartbeat() <==> (b == 0xDD || b == 0xDE || b
            == 0xDF || b == 0xD9),
{
}

} // verus!
