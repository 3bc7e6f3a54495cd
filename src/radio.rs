//! The radio metadata header (radiotap) that precedes every captured frame.

use vstd::prelude::*;
use vstd::slice::slice_subrange;

verus! {

/// The smallest encoded header: version, padding, length and one presence word.
pub const MIN_HEADER_LEN: usize = 8;

/// Flags of the channel descriptor.
#[derive(Clone, Copy, Debug, PartialEq, Eq)]
pub struct ChannelFlags {
    pub turbo: bool,
    pub cck: bool,
    pub ofdm: bool,
    pub ghz2: bool,
    pub ghz5: bool,
    pub passive: bool,
    pub dynamic: bool,
    pub gfsk: bool,
}

/// The channel a frame was received on.
#[derive(Clone, Copy, Debug, PartialEq, Eq)]
pub struct RadioChannel {
    /// Centre frequency in MHz.
    pub freq: u16,
    pub flags: ChannelFlags,
}

/// The decoded metadata header. Each radio field is present only when the
/// receiving hardware filled it in; `length` is the number of bytes the
/// header occupies at the start of the captured unit.
#[derive(Clone, Copy, Debug, PartialEq, Eq)]
pub struct MetadataHeader {
    pub length: usize,
    pub antenna_noise: Option<i8>,
    pub antenna_signal: Option<i8>,
    pub channel: Option<RadioChannel>,
}

/// The length that the header declares of itself: a little-endian `u16` at offset 2.
pub open spec fn declared_length(raw: Seq<u8>) -> int
    recommends
        raw.len() >= 4,
{
    raw[2] as int + 256 * (raw[3] as int)
}

/// Presence words are read from offset 4 for as long as bit 31 of the last
/// one is set. The chain is accepted when it holds at most eight words and
/// none of them switches to a vendor namespace (bit 30).
pub open spec fn presence_chain_ok(raw: Seq<u8>, k: nat) -> bool
    decreases 8 - k,
{
    let top = 4 + 4 * k + 3;
    if top >= raw.len() {
        true
    } else if raw[top as int] & 0x40u8 != 0 {
        false
    } else if raw[top as int] & 0x80u8 == 0 {
        true
    } else if k + 1 >= 8 {
        false
    } else {
        presence_chain_ok(raw, k + 1)
    }
}

/// Whether the radiotap decoder may be handed `raw`: it slices a vendor
/// namespace by its declared skip length without a bound check, and counts
/// radiotap presence words in a `u8` that overflows past the eighth.
pub open spec fn decoder_safe(raw: Seq<u8>) -> bool {
    presence_chain_ok(raw, 0)
}

fn check_presence_chain(raw: &[u8]) -> (r: bool)
    ensures
        r == decoder_safe(raw@),
{
    let mut k: usize = 0;
    loop
        invariant
            k < 8,
            presence_chain_ok(raw@, k as nat) == presence_chain_ok(raw@, 0),
        decreases 8 - k,
    {
        let top: usize = 4 + 4 * k + 3;
        if top >= raw.len() {
            return true;
        }
        let b = raw[top];
        if b & 0x40 != 0 {
            return false;
        }
        if b & 0x80 == 0 {
            return true;
        }
        if k + 1 >= 8 {
            return false;
        }
        k = k + 1;
    }
}

/// What the radiotap decoder reports for a captured unit.
pub uninterp spec fn radiotap_header_of(raw: Seq<u8>) -> Option<MetadataHeader>;

/// Relies on `radiotap::Radiotap::from_bytes`. It reads the version byte
/// (only 0 is accepted), a padding byte, the `u16` length and at least one
/// `u32` presence word, and refuses an input shorter than the declared length.
/// The header's `length` is the declared length.
#[verifier::external_body]
fn radiotap_decode(raw: &[u8]) -> (r: Option<MetadataHeader>)
    requires
        decoder_safe(raw@),
    ensures
        r == radiotap_header_of(raw@),
        raw@.len() < MIN_HEADER_LEN ==> r is None,
        raw@.len() >= 4 && declared_length(raw@) > raw@.len() ==> r is None,
        r is Some ==> raw@.len() >= MIN_HEADER_LEN && raw@[0] == 0 && r->0.length
            == declared_length(raw@) && r->0.length <= raw@.len(),
{
    radiotap::Radiotap::from_bytes(raw).ok().map(|h| MetadataHeader {
        length: h.header.length,
        antenna_noise: h.antenna_noise.map(|e| e.value),
        antenna_signal: h.antenna_signal.map(|e| e.value),
        channel: h.channel.map(|c| RadioChannel { freq: c.freq, flags: ChannelFlags {
            turbo: c.flags.turbo, cck: c.flags.cck, ofdm: c.flags.ofdm, ghz2: c.flags.ghz2,
            ghz5: c.flags.ghz5, passive: c.flags.passive, dynamic: c.flags.dynamic,
            gfsk: c.flags.gfsk,
        } }),
    })
}

/// The header that `strip_header` reports for `raw`.
pub open spec fn stripped_header(raw: Seq<u8>) -> Option<MetadataHeader> {
    if decoder_safe(raw) {
        radiotap_header_of(raw)
    } else {
        None
    }
}

/// Decodes the metadata header at the start of a captured unit. `None` means
/// the unit cannot be decoded and must be discarded whole; so is a unit whose
/// presence words the decoder cannot be trusted with.
pub fn strip_header(raw: &[u8]) -> (r: Option<MetadataHeader>)
    ensures
        r == stripped_header(raw@),
        raw@.len() < MIN_HEADER_LEN ==> r is None,
        raw@.len() >= 4 && declared_length(raw@) > raw@.len() ==> r is None,
        raw@.len() >= 1 && raw@[0] != 0 ==> r is None,
        r is Some ==> raw@[0] == 0 && r->0.length == declared_length(raw@) && r->0.length
            <= raw@.len(),
{
    if check_presence_chain(raw) {
        radiotap_decode(raw)
    } else {
        None
    }
}

/// The payload that follows a header of `header_len` bytes: empty, not a
/// fault, when the header covers the whole unit.
pub open spec fn payload_spec(raw: Seq<u8>, header_len: int) -> Seq<u8> {
    if header_len >= raw.len() {
        Seq::empty()
    } else {
        raw.subrange(header_len, raw.len() as int)
    }
}

/// The bytes of `raw` after the metadata header.
pub fn payload_after(raw: &[u8], header_len: usize) -> (r: &[u8])
    ensures
        r@ == payload_spec(raw@, header_len as int),
{
    if header_len >= raw.len() {
        slice_subrange(raw, raw.len(), raw.len())
    } else {
        slice_subrange(raw, header_len, raw.len())
    }
}

/// The payload that follows a decoded header has the length of the unit less
/// the header's length, and is empty when the header spans the whole unit.
pub proof fn lemma_payload_length(raw: Seq<u8>, header: MetadataHeader)
    requires
        header.length <= raw.len(),
    ensures
        payload_spec(raw, header.length as int).len() == raw.len() - header.length,
        header.length == raw.len() ==> payload_spec(raw, header.length as int) =~= Seq::<u8>::empty(),
{
}

} // verus!
