//! 802.11 MAC frames: decoding and classification.

use vstd::prelude::*;
use vstd::slice::slice_subrange;

verus! {

/// A 48-bit hardware address.
#[derive(Clone, Copy, Debug)]
pub struct MacAddress {
    pub octets: [u8; 6],
}

/// The frame variants this library tells apart.
#[derive(Clone, Copy, Debug, PartialEq, Eq, Structural)]
pub enum FrameKind {
    Beacon,
    ProbeRequest,
    ProbeResponse,
    AssociationRequest,
    AssociationResponse,
    ReassociationRequest,
    ReassociationResponse,
    Authentication,
    Deauthentication,
    Action,
    Rts,
    Cts,
    Ack,
    BlockAckRequest,
    BlockAck,
    Data,
    NullData,
    QosData,
    QosNull,
    /// The contention-free data subtypes (`Data+CF-Ack`, `QoS CF-Poll`, ...).
    CfData,
}

/// Why a payload is not a frame.
#[derive(Clone, Copy, Debug, PartialEq, Eq, Structural)]
pub enum FrameError {
    /// Fewer bytes than the frame's type needs.
    TooShort,
    /// A type/subtype pair outside the recognised table.
    Unrecognized { frame_type: u8, frame_subtype: u8 },
    /// The frame decoder refused the body.
    Malformed,
    /// The body holds a WPS setup-state attribute of length zero, on which
    /// the decoder reads past the end of the frame; it is not handed over.
    UntrustedElement,
}

/// The addressing a frame exposes. `frame_type` and `frame_subtype` are the
/// two- and four-bit codes of the frame-control field.
#[derive(Clone, Copy, Debug)]
pub struct FrameAddressing {
    pub src: Option<MacAddress>,
    pub dest: MacAddress,
    pub frame_type: u8,
    pub frame_subtype: u8,
}

/// The fixed fields and the network name carried by a beacon.
#[derive(Clone, Debug)]
pub struct BeaconDetails {
    pub timestamp: u64,
    pub beacon_interval: u16,
    pub capability_info: u16,
    pub ssid: Option<Vec<u8>>,
}

/// A beacon: its addressing, its decoded contents, and the raw information
/// elements that follow its fixed fields.
#[derive(Clone, Debug)]
pub struct BeaconFrame {
    pub addressing: FrameAddressing,
    pub details: BeaconDetails,
    pub elements: Vec<u8>,
}

/// Where the information elements of a beacon start: after the 24-byte
/// management header, the timestamp, the interval and the capability field.
pub const BEACON_ELEMENTS_AT: usize = 36;

/// A decoded 802.11 frame.
#[derive(Clone, Debug)]
pub enum Dot11Frame {
    Beacon(BeaconFrame),
    Other(FrameKind, FrameAddressing),
}

/// What a frame is worth to the capture: a beacon, addressed client traffic,
/// or nothing.
#[derive(Clone, Debug)]
pub enum CaptureRecord {
    Beacon(BeaconFrame),
    ClientTraffic(FrameAddressing),
    Ignored,
}

pub open spec fn type_code(control: u8) -> u8 {
    (control >> 2u8) & 3u8
}

pub open spec fn subtype_code(control: u8) -> u8 {
    control >> 4u8
}

pub open spec fn to_ds(flags: u8) -> bool {
    flags & 1u8 != 0
}

pub open spec fn from_ds(flags: u8) -> bool {
    flags & 2u8 != 0
}

/// The recognised type/subtype table.
pub open spec fn kind_spec(frame_type: u8, frame_subtype: u8) -> Option<FrameKind> {
    if frame_type == 0 {
        match frame_subtype {
            0 => Some(FrameKind::AssociationRequest),
            1 => Some(FrameKind::AssociationResponse),
            2 => Some(FrameKind::ReassociationRequest),
            3 => Some(FrameKind::ReassociationResponse),
            4 => Some(FrameKind::ProbeRequest),
            5 => Some(FrameKind::ProbeResponse),
            8 => Some(FrameKind::Beacon),
            11 => Some(FrameKind::Authentication),
            12 => Some(FrameKind::Deauthentication),
            13 => Some(FrameKind::Action),
            _ => None,
        }
    } else if frame_type == 1 {
        match frame_subtype {
            8 => Some(FrameKind::BlockAckRequest),
            9 => Some(FrameKind::BlockAck),
            11 => Some(FrameKind::Rts),
            12 => Some(FrameKind::Cts),
            13 => Some(FrameKind::Ack),
            _ => None,
        }
    } else if frame_type == 2 {
        match frame_subtype {
            0 => Some(FrameKind::Data),
            4 => Some(FrameKind::NullData),
            8 => Some(FrameKind::QosData),
            12 => Some(FrameKind::QosNull),
            1 | 2 | 3 | 5 | 6 | 7 | 9 | 10 | 11 | 14 | 15 => Some(FrameKind::CfData),
            _ => None,
        }
    } else {
        None
    }
}

/// Looks a type/subtype pair up in the recognised table.
pub fn frame_kind(frame_type: u8, frame_subtype: u8) -> (r: Option<FrameKind>)
    ensures
        r == kind_spec(frame_type, frame_subtype),
{
    if frame_type == 0 {
        match frame_subtype {
            0 => Some(FrameKind::AssociationRequest),
            1 => Some(FrameKind::AssociationResponse),
            2 => Some(FrameKind::ReassociationRequest),
            3 => Some(FrameKind::ReassociationResponse),
            4 => Some(FrameKind::ProbeRequest),
            5 => Some(FrameKind::ProbeResponse),
            8 => Some(FrameKind::Beacon),
            11 => Some(FrameKind::Authentication),
            12 => Some(FrameKind::Deauthentication),
            13 => Some(FrameKind::Action),
            _ => None,
        }
    } else if frame_type == 1 {
        match frame_subtype {
            8 => Some(FrameKind::BlockAckRequest),
            9 => Some(FrameKind::BlockAck),
            11 => Some(FrameKind::Rts),
            12 => Some(FrameKind::Cts),
            13 => Some(FrameKind::Ack),
            _ => None,
        }
    } else if frame_type == 2 {
        match frame_subtype {
            0 => Some(FrameKind::Data),
            4 => Some(FrameKind::NullData),
            8 => Some(FrameKind::QosData),
            12 => Some(FrameKind::QosNull),
            1 | 2 | 3 | 5 | 6 | 7 | 9 | 10 | 11 | 14 | 15 => Some(FrameKind::CfData),
            _ => None,
        }
    } else {
        None
    }
}

/// Offset of the address that names the frame's destination.
pub open spec fn dest_offset(kind: FrameKind, flags: u8) -> int {
    if is_data_kind(kind) && to_ds(flags) {
        16
    } else {
        4
    }
}

/// Offset of the address that names the frame's source, if the frame has one.
pub open spec fn src_offset(kind: FrameKind, flags: u8) -> Option<int> {
    match kind {
        FrameKind::Cts | FrameKind::Ack => None,
        _ => if is_data_kind(kind) && to_ds(flags) && from_ds(flags) {
            Some(24)
        } else if is_data_kind(kind) && from_ds(flags) {
            Some(16)
        } else {
            Some(10)
        },
    }
}

pub open spec fn is_data_kind(kind: FrameKind) -> bool {
    match kind {
        FrameKind::Data | FrameKind::NullData | FrameKind::QosData | FrameKind::QosNull
        | FrameKind::CfData => true,
        _ => false,
    }
}

/// The bytes a frame of this kind needs before its addresses can be read.
pub open spec fn needed_len(kind: FrameKind, flags: u8) -> int {
    if kind == FrameKind::Beacon {
        BEACON_ELEMENTS_AT as int
    } else {
        address_len(kind, flags)
    }
}

/// The bytes a frame of this kind needs to hold its addresses.
pub open spec fn address_len(kind: FrameKind, flags: u8) -> int {
    match src_offset(kind, flags) {
        Some(s) => if s > dest_offset(kind, flags) { s + 6 } else { dest_offset(kind, flags) + 6 },
        None => dest_offset(kind, flags) + 6,
    }
}

pub open spec fn mac_at(payload: Seq<u8>, offset: int, m: MacAddress) -> bool {
    m.octets@ == payload.subrange(offset, offset + 6)
}

/// `a` is the addressing that the standard assigns to a frame of `kind`
/// whose bytes are `payload`.
pub open spec fn addressing_of(a: FrameAddressing, payload: Seq<u8>, kind: FrameKind) -> bool {
    &&& a.frame_type == type_code(payload[0])
    &&& a.frame_subtype == subtype_code(payload[0])
    &&& mac_at(payload, dest_offset(kind, payload[1]), a.dest)
    &&& match src_offset(kind, payload[1]) {
        Some(s) => a.src is Some && mac_at(payload, s, a.src->0),
        None => a.src is None,
    }
}

/// The variant of a decoded frame.
pub open spec fn kind_of(f: Dot11Frame) -> FrameKind {
    match f {
        Dot11Frame::Beacon(_) => FrameKind::Beacon,
        Dot11Frame::Other(k, _) => k,
    }
}

/// The addressing of a decoded frame.
pub open spec fn frame_addressing(f: Dot11Frame) -> FrameAddressing {
    match f {
        Dot11Frame::Beacon(b) => b.addressing,
        Dot11Frame::Other(_, a) => a,
    }
}

/// `f` is a frame that `payload` encodes.
pub open spec fn frame_of(f: Dot11Frame, payload: Seq<u8>) -> bool {
    &&& payload.len() >= 2
    &&& kind_spec(type_code(payload[0]), subtype_code(payload[0])) == Some(kind_of(f))
    &&& payload.len() >= needed_len(kind_of(f), payload[1])
    &&& addressing_of(frame_addressing(f), payload, kind_of(f))
    &&& f is Other ==> kind_of(f) != FrameKind::Beacon
    &&& f is Beacon ==> f->Beacon_0.elements@ == payload.subrange(
        BEACON_ELEMENTS_AT as int,
        payload.len() as int,
    )
}

/// When a payload with the given beacon contents makes a frame.
pub open spec fn assembles(payload: Seq<u8>, beacon: Option<BeaconDetails>) -> bool {
    &&& payload.len() >= 2
    &&& kind_spec(type_code(payload[0]), subtype_code(payload[0])) is Some
    &&& payload.len() >= needed_len(
        kind_spec(type_code(payload[0]), subtype_code(payload[0]))->0,
        payload[1],
    )
    &&& (kind_spec(type_code(payload[0]), subtype_code(payload[0])) == Some(FrameKind::Beacon)
        ==> beacon is Some)
}

fn mac_at_offset(payload: &[u8], offset: usize) -> (r: MacAddress)
    requires
        offset + 6 <= payload@.len(),
    ensures
        mac_at(payload@, offset as int, r),
{
    let octets: [u8; 6] = [
        payload[offset],
        payload[offset + 1],
        payload[offset + 2],
        payload[offset + 3],
        payload[offset + 4],
        payload[offset + 5],
    ];
    assert(octets@ =~= payload@.subrange(offset as int, offset as int + 6));
    MacAddress { octets }
}

fn copy_tail(payload: &[u8], from: usize) -> (r: Vec<u8>)
    requires
        from <= payload@.len(),
    ensures
        r@ == payload@.subrange(from as int, payload@.len() as int),
{
    let mut out: Vec<u8> = Vec::new();
    let mut i: usize = from;
    while i < payload.len()
        invariant
            from <= i <= payload@.len(),
            out@ == payload@.subrange(from as int, i as int),
        decreases payload@.len() - i,
    {
        out.push(payload[i]);
        i = i + 1;
        assert(out@ =~= payload@.subrange(from as int, i as int));
    }
    out
}

fn is_data(kind: FrameKind) -> (r: bool)
    ensures
        r == is_data_kind(kind),
{
    match kind {
        FrameKind::Data | FrameKind::NullData | FrameKind::QosData | FrameKind::QosNull
        | FrameKind::CfData => true,
        _ => false,
    }
}

/// Where the destination and the source address stand in a frame of `kind`.
fn address_offsets(kind: FrameKind, flags: u8) -> (r: (usize, Option<usize>))
    ensures
        r.0 == dest_offset(kind, flags),
        match src_offset(kind, flags) {
            Some(s) => r.1 == Some(s as usize),
            None => r.1 is None,
        },
{
    let data = is_data(kind);
    let to = flags & 1 != 0;
    let from = flags & 2 != 0;
    let dest: usize = if data && to { 16 } else { 4 };
    let src: Option<usize> = match kind {
        FrameKind::Cts | FrameKind::Ack => None,
        _ => if data && to && from {
            Some(24)
        } else if data && from {
            Some(16)
        } else {
            Some(10)
        },
    };
    (dest, src)
}

/// Builds the frame that `payload` encodes, given the beacon contents that
/// the decoder read from it (`None` for a frame that is not a beacon).
pub fn assemble_frame(payload: &[u8], beacon: Option<BeaconDetails>) -> (r: Result<
    Dot11Frame,
    FrameError,
>)
    ensures
        r is Ok <==> assembles(payload@, beacon),
        payload@.len() < 2 ==> r == Err::<Dot11Frame, FrameError>(FrameError::TooShort),
        payload@.len() >= 2 && kind_spec(type_code(payload@[0]), subtype_code(payload@[0]))
            is None ==> r == Err::<Dot11Frame, FrameError>(
            FrameError::Unrecognized {
                frame_type: type_code(payload@[0]),
                frame_subtype: subtype_code(payload@[0]),
            },
        ),
        payload@.len() >= 2 && kind_spec(type_code(payload@[0]), subtype_code(payload@[0]))
            is Some && payload@.len() < needed_len(
            kind_spec(type_code(payload@[0]), subtype_code(payload@[0]))->0,
            payload@[1],
        ) ==> r == Err::<Dot11Frame, FrameError>(FrameError::TooShort),
        well_sized(payload@) && !assembles(payload@, beacon) ==> r == Err::<
            Dot11Frame,
            FrameError,
        >(FrameError::Malformed),
        r is Ok ==> frame_of(r->Ok_0, payload@),
        r is Ok && r->Ok_0 is Beacon ==> beacon == Some(r->Ok_0->Beacon_0.details),
{
    if payload.len() < 2 {
        return Err(FrameError::TooShort);
    }
    let control = payload[0];
    let flags = payload[1];
    let frame_type: u8 = (control >> 2) & 3;
    let frame_subtype: u8 = control >> 4;
    let kind = match frame_kind(frame_type, frame_subtype) {
        Some(k) => k,
        None => {
            return Err(FrameError::Unrecognized { frame_type, frame_subtype });
        },
    };
    let (dest_at, src_at) = address_offsets(kind, flags);
    let needed: usize = if kind == FrameKind::Beacon {
        BEACON_ELEMENTS_AT
    } else {
        match src_at {
            Some(s) => if s > dest_at { s + 6 } else { dest_at + 6 },
            None => dest_at + 6,
        }
    };
    if payload.len() < needed {
        return Err(FrameError::TooShort);
    }
    let dest = mac_at_offset(payload, dest_at);
    let src = match src_at {
        Some(s) => Some(mac_at_offset(payload, s)),
        None => None,
    };
    let addressing = FrameAddressing { src, dest, frame_type, frame_subtype };
    match kind {
        FrameKind::Beacon => match beacon {
            Some(details) => {
                let elements = copy_tail(payload, BEACON_ELEMENTS_AT);
                Ok(Dot11Frame::Beacon(BeaconFrame { addressing, details, elements }))
            },
            None => Err(FrameError::Malformed),
        },
        _ => Ok(Dot11Frame::Other(kind, addressing)),
    }
}

/// What the 802.11 decoder reports for a payload: the beacon contents for a
/// beacon, `None` for another frame it accepts, or the refusal.
pub uninterp spec fn decoded_beacon_of(payload: Seq<u8>) -> Result<Option<BeaconDetails>, FrameError>;

/// `payload` holds a WPS setup-state attribute header (type `0x1057`) that
/// declares length zero.
pub open spec fn holds_empty_setup_state(payload: Seq<u8>) -> bool {
    exists|i: int|
        0 <= i && i + 4 <= payload.len() && #[trigger] payload[i] == 0x10u8 && payload[i + 1]
            == 0x57u8 && payload[i + 2] == 0u8 && payload[i + 3] == 0u8
}

/// Relies on `libwifi::parse_frame`, for a frame without a trailing checksum,
/// and on the public fields of `libwifi::frame::Beacon`. Its WPS parser reads
/// the byte after a setup-state attribute without checking that the
/// attribute is empty, so such a payload is never handed to it.
#[verifier::external_body]
fn libwifi_decode(payload: &[u8]) -> (r: Result<Option<BeaconDetails>, FrameError>)
    requires
        !holds_empty_setup_state(payload@),
    ensures
        r == decoded_beacon_of(payload@),
{
    libwifi::parse_frame(payload, false).map(|frame| match frame {
        libwifi::Frame::Beacon(b) => Some(BeaconDetails {
            timestamp: b.timestamp,
            beacon_interval: b.beacon_interval,
            capability_info: b.capability_info,
            ssid: b.station_info.ssid_raw,
        }),
        _ => None,
    }).map_err(|_| FrameError::Malformed)
}

fn scan_empty_setup_state(payload: &[u8]) -> (r: bool)
    ensures
        r == holds_empty_setup_state(payload@),
{
    let mut i: usize = 0;
    while i <= payload.len() && payload.len() - i >= 4
        invariant
            forall|j: int|
                0 <= j < i && j + 4 <= payload@.len() ==> !(#[trigger] payload@[j] == 0x10u8
                    && payload@[j + 1] == 0x57u8 && payload@[j + 2] == 0u8 && payload@[j + 3]
                    == 0u8),
        decreases payload@.len() - i,
    {
        if payload[i] == 0x10 && payload[i + 1] == 0x57 && payload[i + 2] == 0 && payload[i + 3] == 0 {
            return true;
        }
        i = i + 1;
    }
    false
}

/// The payload has a recognised type and enough bytes for it.
pub open spec fn well_sized(payload: Seq<u8>) -> bool {
    &&& payload.len() >= 2
    &&& kind_spec(type_code(payload[0]), subtype_code(payload[0])) is Some
    &&& payload.len() >= needed_len(
        kind_spec(type_code(payload[0]), subtype_code(payload[0]))->0,
        payload[1],
    )
}

/// The payload decodes to a frame.
pub open spec fn decodes(payload: Seq<u8>) -> bool {
    &&& well_sized(payload)
    &&& !holds_empty_setup_state(payload)
    &&& decoded_beacon_of(payload) is Ok
    &&& assembles(payload, decoded_beacon_of(payload)->Ok_0)
}

/// Why a payload that does not decode is refused.
pub open spec fn frame_error_spec(payload: Seq<u8>) -> FrameError {
    if payload.len() < 2 {
        FrameError::TooShort
    } else if kind_spec(type_code(payload[0]), subtype_code(payload[0])) is None {
        FrameError::Unrecognized {
            frame_type: type_code(payload[0]),
            frame_subtype: subtype_code(payload[0]),
        }
    } else if !well_sized(payload) {
        FrameError::TooShort
    } else if holds_empty_setup_state(payload) {
        FrameError::UntrustedElement
    } else {
        match decoded_beacon_of(payload) {
            Err(e) => e,
            Ok(_) => FrameError::Malformed,
        }
    }
}

/// Decodes the bytes that follow the metadata header as an 802.11 frame.
pub fn parse_frame(payload: &[u8]) -> (r: Result<Dot11Frame, FrameError>)
    ensures
        r is Ok <==> decodes(payload@),
        !decodes(payload@) ==> r == Err::<Dot11Frame, FrameError>(frame_error_spec(payload@)),
        r is Ok ==> frame_of(r->Ok_0, payload@),
        r is Ok && r->Ok_0 is Beacon ==> decoded_beacon_of(payload@) == Ok::<
            Option<BeaconDetails>,
            FrameError,
        >(Some(r->Ok_0->Beacon_0.details)),
{
    if payload.len() < 2 {
        return Err(FrameError::TooShort);
    }
    let control = payload[0];
    let flags = payload[1];
    let frame_type: u8 = (control >> 2) & 3;
    let frame_subtype: u8 = control >> 4;
    let kind = match frame_kind(frame_type, frame_subtype) {
        Some(k) => k,
        None => {
            return Err(FrameError::Unrecognized { frame_type, frame_subtype });
        },
    };
    let (dest_at, src_at) = address_offsets(kind, flags);
    let needed: usize = if kind == FrameKind::Beacon {
        BEACON_ELEMENTS_AT
    } else {
        match src_at {
            Some(s) => if s > dest_at { s + 6 } else { dest_at + 6 },
            None => dest_at + 6,
        }
    };
    if payload.len() < needed {
        return Err(FrameError::TooShort);
    }
    if scan_empty_setup_state(payload) {
        return Err(FrameError::UntrustedElement);
    }
    match libwifi_decode(payload) {
        Err(e) => Err(e),
        Ok(beacon) => assemble_frame(payload, beacon),
    }
}

/// Frame variants whose addressing describes a client's traffic.
pub open spec fn is_client_kind(kind: FrameKind) -> bool {
    match kind {
        FrameKind::ProbeRequest | FrameKind::AssociationRequest | FrameKind::Data
        | FrameKind::NullData | FrameKind::QosData | FrameKind::QosNull => true,
        _ => false,
    }
}

/// The classification table.
pub open spec fn classify_spec(frame: Dot11Frame) -> CaptureRecord {
    match frame {
        Dot11Frame::Beacon(b) => CaptureRecord::Beacon(b),
        Dot11Frame::Other(kind, a) => if is_client_kind(kind) {
            CaptureRecord::ClientTraffic(a)
        } else {
            CaptureRecord::Ignored
        },
    }
}

/// Maps a decoded frame to its capture record.
pub fn classify(frame: Dot11Frame) -> (r: CaptureRecord)
    ensures
        r == classify_spec(frame),
{
    match frame {
        Dot11Frame::Beacon(b) => CaptureRecord::Beacon(b),
        Dot11Frame::Other(kind, a) => match kind {
            FrameKind::ProbeRequest | FrameKind::AssociationRequest | FrameKind::Data
            | FrameKind::NullData | FrameKind::QosData | FrameKind::QosNull => {
                CaptureRecord::ClientTraffic(a)
            },
            _ => CaptureRecord::Ignored,
        },
    }
}

/// Every frame gets exactly one of the three records, and which one follows
/// from its variant alone.
pub proof fn lemma_classification_total(frame: Dot11Frame)
    ensures
        (classify_spec(frame) is Beacon) as int + (classify_spec(frame) is ClientTraffic) as int
            + (classify_spec(frame) is Ignored) as int == 1,
        classify_spec(frame) is Beacon <==> kind_of(frame) == FrameKind::Beacon && frame is Beacon,
        classify_spec(frame) is ClientTraffic <==> is_client_kind(kind_of(frame)),
{
}

} // verus!
