use dot11_capture::capture::{process_unit, run_capture, step, Diagnostic, LoopAction, LoopState, PullResult, UnitOutcome};
use dot11_capture::dot11::{
    assemble_frame, classify, frame_kind, parse_frame, BeaconDetails, CaptureRecord, Dot11Frame,
    FrameAddressing, FrameError, FrameKind, MacAddress,
};
use dot11_capture::radio::{payload_after, strip_header, MIN_HEADER_LEN};

const A1: [u8; 6] = [0x10, 0x11, 0x12, 0x13, 0x14, 0x15];
const A2: [u8; 6] = [0x20, 0x21, 0x22, 0x23, 0x24, 0x25];
const A3: [u8; 6] = [0x30, 0x31, 0x32, 0x33, 0x34, 0x35];

/// A 12-byte radiotap header that carries only the antenna signal.
fn signal_header(signal: i8) -> Vec<u8> {
    vec![0, 0, 12, 0, 0x20, 0, 0, 0, signal as u8, 0, 0, 0]
}

fn mac_header(control: u8, flags: u8) -> Vec<u8> {
    let mut v = vec![control, flags, 0, 0];
    v.extend_from_slice(&A1);
    v.extend_from_slice(&A2);
    v.extend_from_slice(&A3);
    v.extend_from_slice(&[0, 0]);
    v
}

fn beacon_frame() -> Vec<u8> {
    let mut v = mac_header(0x80, 0);
    v.extend_from_slice(&[1, 2, 3, 4, 5, 6, 7, 8]);
    v.extend_from_slice(&[0x64, 0x00]);
    v.extend_from_slice(&[0x11, 0x04]);
    v.extend_from_slice(&[0, 4, b't', b'e', b's', b't']);
    v
}

fn unit(header: Vec<u8>, frame: Vec<u8>) -> Vec<u8> {
    let mut v = header;
    v.extend_from_slice(&frame);
    v
}

fn addressing(src: Option<[u8; 6]>, dest: [u8; 6]) -> FrameAddressing {
    FrameAddressing {
        src: src.map(|octets| MacAddress { octets }),
        dest: MacAddress { octets: dest },
        frame_type: 0,
        frame_subtype: 0,
    }
}

#[test]
fn short_units_are_not_decodable() {
    for len in 0..MIN_HEADER_LEN {
        let raw = vec![0u8; len];
        assert!(strip_header(&raw).is_none());
    }
    assert!(strip_header(&[0, 0, 8, 0, 0, 0, 0]).is_none());
}

#[test]
fn declared_length_beyond_unit_is_not_decodable() {
    let raw = vec![0, 0, 40, 0, 0, 0, 0, 0, 0, 0];
    assert!(strip_header(&raw).is_none());
    let raw = vec![0, 0, 13, 0, 0x20, 0, 0, 0, 0xd3, 0, 0, 0];
    assert!(strip_header(&raw).is_none());
}

#[test]
fn bad_version_is_not_decodable() {
    let raw = vec![1, 0, 8, 0, 0, 0, 0, 0];
    assert!(strip_header(&raw).is_none());
}

#[test]
fn header_fields_are_decoded() {
    let h = strip_header(&signal_header(-45)).unwrap();
    assert_eq!(h.length, 12);
    assert_eq!(h.antenna_signal, Some(-45));
    assert_eq!(h.antenna_noise, None);
    assert!(h.channel.is_none());

    let raw = vec![0, 0, 12, 0, 0x08, 0, 0, 0, 0x85, 0x09, 0xa0, 0x00];
    let h = strip_header(&raw).unwrap();
    let c = h.channel.unwrap();
    assert_eq!(c.freq, 2437);
    assert!(c.flags.cck && c.flags.ghz2);
    assert!(!c.flags.ofdm && !c.flags.ghz5 && !c.flags.turbo);
    assert_eq!(h.antenna_signal, None);

    let raw = vec![0, 0, 10, 0, 0x60, 0, 0, 0, 0xc4, 0xa6];
    let h = strip_header(&raw).unwrap();
    assert_eq!(h.antenna_signal, Some(-60));
    assert_eq!(h.antenna_noise, Some(-90));
}

#[test]
fn payload_follows_header() {
    let raw: Vec<u8> = (0..20).collect();
    assert_eq!(payload_after(&raw, 12), &raw[12..]);
    assert_eq!(payload_after(&raw, 12).len(), 8);
    assert!(payload_after(&raw, 20).is_empty());
    assert!(payload_after(&raw, 25).is_empty());
    assert_eq!(payload_after(&raw, 0).len(), 20);
}

#[test]
fn header_spanning_the_unit_leaves_empty_payload() {
    let raw = signal_header(-45);
    let h = strip_header(&raw).unwrap();
    assert!(payload_after(&raw, h.length).is_empty());
    match process_unit(&raw) {
        UnitOutcome::Refused(Diagnostic::FrameUndecodable(e)) => assert_eq!(e, FrameError::TooShort),
        other => panic!("unexpected outcome {other:?}"),
    }
}

#[test]
fn beacon_round_trip() {
    let raw = unit(signal_header(-45), beacon_frame());
    match process_unit(&raw) {
        UnitOutcome::Captured(c) => {
            assert_eq!(c.header.antenna_signal, Some(-45));
            assert_eq!(c.header.length, 12);
            match c.record {
                CaptureRecord::Beacon(b) => {
                    assert_eq!(b.details.timestamp, 0x0807060504030201);
                    assert_eq!(b.details.beacon_interval, 100);
                    assert_eq!(b.details.capability_info, 0x0411);
                    assert_eq!(b.details.ssid, Some(b"test".to_vec()));
                    assert_eq!(b.elements, vec![0, 4, b't', b'e', b's', b't']);
                    assert_eq!(b.addressing.dest.octets, A1);
                    assert_eq!(b.addressing.src.unwrap().octets, A2);
                    assert_eq!(b.addressing.frame_type, 0);
                    assert_eq!(b.addressing.frame_subtype, 8);
                }
                other => panic!("not a beacon: {other:?}"),
            }
        }
        other => panic!("unexpected outcome {other:?}"),
    }
}

#[test]
fn unrecognized_subtype_is_a_frame_diagnostic() {
    let bad = unit(signal_header(-50), mac_header(0x70, 0));
    match process_unit(&bad) {
        UnitOutcome::Refused(Diagnostic::FrameUndecodable(e)) => {
            assert_eq!(e, FrameError::Unrecognized { frame_type: 0, frame_subtype: 7 })
        }
        other => panic!("unexpected outcome {other:?}"),
    }
    let good = unit(signal_header(-45), beacon_frame());
    let run = run_capture(&vec![PullResult::Unit(bad), PullResult::Unit(good), PullResult::Exhausted]);
    assert_eq!(run.outcomes.len(), 2);
    assert!(matches!(run.outcomes[0], UnitOutcome::Refused(Diagnostic::FrameUndecodable(_))));
    assert!(matches!(run.outcomes[1], UnitOutcome::Captured(_)));
    assert!(run.end.is_ok());
}

#[test]
fn extension_type_is_unrecognized() {
    assert_eq!(
        parse_frame(&[0x0c, 0, 0, 0]).unwrap_err(),
        FrameError::Unrecognized { frame_type: 3, frame_subtype: 0 }
    );
    assert_eq!(parse_frame(&[0x80]).unwrap_err(), FrameError::TooShort);
}

#[test]
fn undecodable_header_is_a_header_diagnostic() {
    let raw = unit(vec![1, 0, 12, 0, 0x20, 0, 0, 0, 0, 0, 0, 0], beacon_frame());
    assert!(matches!(process_unit(&raw), UnitOutcome::Refused(Diagnostic::HeaderUndecodable)));
}

#[test]
fn data_to_ds_addressing() {
    let frame = parse_frame(&mac_header(0x08, 0x01)).unwrap();
    match classify(frame) {
        CaptureRecord::ClientTraffic(a) => {
            assert_eq!(a.src.unwrap().octets, A2);
            assert_eq!(a.dest.octets, A3);
            assert_eq!(a.frame_type, 2);
            assert_eq!(a.frame_subtype, 0);
        }
        other => panic!("not client traffic: {other:?}"),
    }
}

#[test]
fn data_addressing_for_each_ds_combination() {
    let plain = classify(parse_frame(&mac_header(0x08, 0x00)).unwrap());
    match plain {
        CaptureRecord::ClientTraffic(a) => {
            assert_eq!(a.src.unwrap().octets, A2);
            assert_eq!(a.dest.octets, A1);
        }
        other => panic!("not client traffic: {other:?}"),
    }
    let from = classify(parse_frame(&mac_header(0x08, 0x02)).unwrap());
    match from {
        CaptureRecord::ClientTraffic(a) => {
            assert_eq!(a.src.unwrap().octets, A3);
            assert_eq!(a.dest.octets, A1);
        }
        other => panic!("not client traffic: {other:?}"),
    }
    let mut wds = mac_header(0x08, 0x03);
    wds.extend_from_slice(&[0x40, 0x41, 0x42, 0x43, 0x44, 0x45]);
    match classify(parse_frame(&wds).unwrap()) {
        CaptureRecord::ClientTraffic(a) => {
            assert_eq!(a.src.unwrap().octets, [0x40, 0x41, 0x42, 0x43, 0x44, 0x45]);
            assert_eq!(a.dest.octets, A3);
        }
        other => panic!("not client traffic: {other:?}"),
    }
}

#[test]
fn qos_null_and_probe_request_are_client_traffic() {
    let mut qos_null = mac_header(0xc8, 0x01);
    qos_null.extend_from_slice(&[0, 0]);
    assert!(matches!(classify(parse_frame(&qos_null).unwrap()), CaptureRecord::ClientTraffic(_)));
    let mut probe = mac_header(0x40, 0);
    probe.extend_from_slice(&[0, 4, b't', b'e', b's', b't']);
    assert!(matches!(classify(parse_frame(&probe).unwrap()), CaptureRecord::ClientTraffic(_)));
}

#[test]
fn control_frames_are_ignored() {
    let mut ack = vec![0xd4, 0, 0, 0];
    ack.extend_from_slice(&A1);
    let frame = parse_frame(&ack).unwrap();
    match &frame {
        Dot11Frame::Other(kind, a) => {
            assert_eq!(*kind, FrameKind::Ack);
            assert!(a.src.is_none());
            assert_eq!(a.dest.octets, A1);
        }
        other => panic!("unexpected frame {other:?}"),
    }
    assert!(matches!(classify(frame), CaptureRecord::Ignored));
}

#[test]
fn classification_table() {
    let client = [
        FrameKind::ProbeRequest,
        FrameKind::AssociationRequest,
        FrameKind::Data,
        FrameKind::NullData,
        FrameKind::QosData,
        FrameKind::QosNull,
    ];
    let ignored = [
        FrameKind::ProbeResponse,
        FrameKind::AssociationResponse,
        FrameKind::ReassociationRequest,
        FrameKind::ReassociationResponse,
        FrameKind::Authentication,
        FrameKind::Deauthentication,
        FrameKind::Action,
        FrameKind::Rts,
        FrameKind::Cts,
        FrameKind::Ack,
        FrameKind::BlockAckRequest,
        FrameKind::BlockAck,
        FrameKind::CfData,
    ];
    for kind in client {
        let r = classify(Dot11Frame::Other(kind, addressing(Some(A2), A1)));
        assert!(matches!(r, CaptureRecord::ClientTraffic(_)), "{kind:?}");
    }
    for kind in ignored {
        let r = classify(Dot11Frame::Other(kind, addressing(Some(A2), A1)));
        assert!(matches!(r, CaptureRecord::Ignored), "{kind:?}");
    }
}

#[test]
fn frame_kind_table() {
    assert_eq!(frame_kind(0, 8), Some(FrameKind::Beacon));
    assert_eq!(frame_kind(0, 4), Some(FrameKind::ProbeRequest));
    assert_eq!(frame_kind(1, 13), Some(FrameKind::Ack));
    assert_eq!(frame_kind(2, 12), Some(FrameKind::QosNull));
    assert_eq!(frame_kind(2, 9), Some(FrameKind::CfData));
    assert_eq!(frame_kind(0, 7), None);
    assert_eq!(frame_kind(1, 2), None);
    assert_eq!(frame_kind(2, 13), None);
    assert_eq!(frame_kind(3, 0), None);
}

#[test]
fn assemble_needs_beacon_contents() {
    let bytes = beacon_frame();
    assert_eq!(assemble_frame(&bytes, None).unwrap_err(), FrameError::Malformed);
    let details = BeaconDetails { timestamp: 9, beacon_interval: 100, capability_info: 1, ssid: None };
    match assemble_frame(&bytes, Some(details)).unwrap() {
        Dot11Frame::Beacon(b) => assert_eq!(b.details.timestamp, 9),
        other => panic!("unexpected frame {other:?}"),
    }
    assert_eq!(assemble_frame(&bytes[..15], None).unwrap_err(), FrameError::TooShort);
    assert_eq!(assemble_frame(&bytes[..35], None).unwrap_err(), FrameError::TooShort);
    assert_eq!(assemble_frame(&[], None).unwrap_err(), FrameError::TooShort);
}

#[test]
fn three_frames_then_exhausted() {
    let pulls = vec![
        PullResult::Unit(unit(signal_header(-45), beacon_frame())),
        PullResult::Unit(unit(signal_header(-50), mac_header(0x08, 0x01))),
        PullResult::Unit(unit(signal_header(-55), mac_header(0x70, 0))),
        PullResult::Exhausted,
        PullResult::Unit(unit(signal_header(-45), beacon_frame())),
    ];
    let run = run_capture(&pulls);
    assert_eq!(run.outcomes.len(), 3);
    assert!(run.end.is_ok());
}

#[test]
fn failure_on_second_pull() {
    let pulls = vec![
        PullResult::Unit(unit(signal_header(-45), beacon_frame())),
        PullResult::Failure("device went away".to_string()),
        PullResult::Unit(unit(signal_header(-45), beacon_frame())),
    ];
    let run = run_capture(&pulls);
    assert_eq!(run.outcomes.len(), 1);
    assert!(matches!(run.outcomes[0], UnitOutcome::Captured(_)));
    assert_eq!(run.end, Err("device went away".to_string()));
}

#[test]
fn source_without_terminal_pull_counts_as_exhausted() {
    let run = run_capture(&vec![PullResult::Unit(signal_header(-45))]);
    assert_eq!(run.outcomes.len(), 1);
    assert!(run.end.is_ok());
    assert!(run_capture(&vec![]).outcomes.is_empty());
}

#[test]
fn step_transitions() {
    let (s, a) = step(LoopState::Running, &PullResult::Exhausted);
    assert_eq!(s, LoopState::Stopped);
    assert!(matches!(a, LoopAction::Stop));
    let (s, a) = step(LoopState::Running, &PullResult::Failure("x".to_string()));
    assert_eq!(s, LoopState::Stopped);
    assert!(matches!(a, LoopAction::Fail(ref m) if m == "x"));
    let (s, a) = step(LoopState::Running, &PullResult::Unit(vec![1, 2]));
    assert_eq!(s, LoopState::Running);
    assert!(matches!(a, LoopAction::Emit(UnitOutcome::Refused(Diagnostic::HeaderUndecodable))));
    let (s, a) = step(LoopState::Stopped, &PullResult::Unit(vec![1, 2]));
    assert_eq!(s, LoopState::Stopped);
    assert!(matches!(a, LoopAction::Stop));
}

#[test]
fn second_presence_word_is_followed() {
    let raw = vec![0, 0, 16, 0, 0x20, 0, 0, 0x80, 0, 0, 0, 0, 0xd3, 0, 0, 0];
    let h = strip_header(&raw).unwrap();
    assert_eq!(h.length, 16);
    assert_eq!(h.antenna_signal, Some(-45));
}

#[test]
fn vendor_namespace_is_not_decoded() {
    let raw = vec![0, 0, 16, 0, 0, 0, 0, 0x40, 0, 0, 0, 0, 0, 0, 0, 0];
    assert!(strip_header(&raw).is_none());
    let unit_bytes = unit(raw, beacon_frame());
    assert!(matches!(process_unit(&unit_bytes), UnitOutcome::Refused(Diagnostic::HeaderUndecodable)));
}

#[test]
fn overlong_presence_chain_is_not_decoded() {
    let mut raw = vec![0, 0, 44, 0];
    for _ in 0..8 {
        raw.extend_from_slice(&[0, 0, 0, 0x80]);
    }
    raw.extend_from_slice(&[1, 0, 0, 0]);
    raw.extend_from_slice(&[0, 0, 0, 0]);
    assert_eq!(raw.len(), 44);
    assert!(strip_header(&raw).is_none());
}

#[test]
fn empty_wps_setup_state_is_not_decoded() {
    let mut frame = beacon_frame();
    frame.extend_from_slice(&[221, 8, 0x00, 0x50, 0xf2, 0x04, 0x10, 0x57, 0x00, 0x00]);
    assert_eq!(parse_frame(&frame).unwrap_err(), FrameError::UntrustedElement);
    match process_unit(&unit(signal_header(-45), frame)) {
        UnitOutcome::Refused(Diagnostic::FrameUndecodable(e)) => assert_eq!(e, FrameError::UntrustedElement),
        other => panic!("unexpected outcome {other:?}"),
    }
}

#[test]
fn wps_setup_state_with_value_is_decoded() {
    let mut frame = beacon_frame();
    frame.extend_from_slice(&[221, 9, 0x00, 0x50, 0xf2, 0x04, 0x10, 0x57, 0x00, 0x01, 0x02]);
    match classify(parse_frame(&frame).unwrap()) {
        CaptureRecord::Beacon(b) => assert_eq!(b.elements.len(), 6 + 11),
        other => panic!("not a beacon: {other:?}"),
    }
}

#[test]
fn truncated_recognised_frames_are_too_short() {
    let beacon = beacon_frame();
    assert_eq!(parse_frame(&beacon[..30]).unwrap_err(), FrameError::TooShort);
    let data = mac_header(0x08, 0x01);
    assert_eq!(parse_frame(&data[..20]).unwrap_err(), FrameError::TooShort);
    assert_eq!(parse_frame(&[0xd4, 0, 0, 0, 1, 2]).unwrap_err(), FrameError::TooShort);
}

#[test]
fn decoder_refusal_is_malformed() {
    let beacon = beacon_frame();
    assert_eq!(parse_frame(&beacon[..36]).unwrap_err(), FrameError::Malformed);
}
