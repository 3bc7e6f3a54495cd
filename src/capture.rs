//! The capture loop: pull a unit, strip its metadata header, decode and
//! classify its frame, hand the result on. A bad unit is reported and the
//! loop goes on; only the source ends it.

use vstd::prelude::*;
use crate::dot11::{
    classify, classify_spec, decoded_beacon_of, decodes, frame_error_spec, frame_of, parse_frame,
    BeaconDetails, CaptureRecord, FrameError,
};
use crate::radio::{payload_after, payload_spec, strip_header, stripped_header, MetadataHeader};

verus! {

/// A capture record with the radio fields of the unit it came from.
#[derive(Clone, Debug)]
pub struct CaptureData {
    pub record: CaptureRecord,
    pub header: MetadataHeader,
}

/// Which stage refused a unit.
#[derive(Clone, Copy, Debug, PartialEq, Eq, Structural)]
pub enum Diagnostic {
    /// The metadata header did not decode; the unit was discarded whole.
    HeaderUndecodable,
    /// The header decoded, the frame behind it did not.
    FrameUndecodable(FrameError),
}

/// What one captured unit produced.
#[derive(Clone, Debug)]
pub enum UnitOutcome {
    Captured(CaptureData),
    Refused(Diagnostic),
}

/// One pull from the capture source.
#[derive(Clone, Debug)]
pub enum PullResult {
    Unit(Vec<u8>),
    /// The source is exhausted or was closed: an orderly end.
    Exhausted,
    /// The capture device failed.
    Failure(String),
}

#[derive(Clone, Copy, Debug, PartialEq, Eq, Structural)]
pub enum LoopState {
    Running,
    Stopped,
}

/// What the driver does after a pull.
#[derive(Clone, Debug)]
pub enum LoopAction {
    /// Hand the outcome to the presentation side and pull again.
    Emit(UnitOutcome),
    /// Leave the loop without error.
    Stop,
    /// Leave the loop and end the program with this cause.
    Fail(String),
}

/// `o` is what the pipeline makes of the captured unit `raw`: a record
/// exactly when the header and the frame behind it decode, and otherwise a
/// diagnostic naming the stage that refused it and why.
pub open spec fn outcome_of(raw: Seq<u8>, o: UnitOutcome) -> bool {
    match stripped_header(raw) {
        None => o == UnitOutcome::Refused(Diagnostic::HeaderUndecodable),
        Some(h) => {
            let payload = payload_spec(raw, h.length as int);
            if decodes(payload) {
                &&& o is Captured
                &&& o->Captured_0.header == h
                &&& exists|f| #[trigger] frame_of(f, payload) && o->Captured_0.record
                    == classify_spec(f) && (f is Beacon ==> decoded_beacon_of(payload) == Ok::<
                    Option<BeaconDetails>,
                    FrameError,
                >(Some(f->Beacon_0.details)))
            } else {
                o == UnitOutcome::Refused(Diagnostic::FrameUndecodable(frame_error_spec(payload)))
            }
        },
    }
}

/// Runs one captured unit through header stripping, frame decoding and
/// classification.
pub fn process_unit(raw: &[u8]) -> (r: UnitOutcome)
    ensures
        outcome_of(raw@, r),
{
    match strip_header(raw) {
        None => UnitOutcome::Refused(Diagnostic::HeaderUndecodable),
        Some(header) => {
            let payload = payload_after(raw, header.length);
            match parse_frame(payload) {
                Err(e) => UnitOutcome::Refused(Diagnostic::FrameUndecodable(e)),
                Ok(frame) => {
                    let ghost f = frame;
                    let record = classify(frame);
                    assert(frame_of(f, payload@));
                    UnitOutcome::Captured(CaptureData { record, header })
                },
            }
        },
    }
}

/// What the loop does in `state` after `pull`.
pub open spec fn step_fits(state: LoopState, pull: PullResult, next: LoopState, action: LoopAction) -> bool {
    match state {
        LoopState::Stopped => next == LoopState::Stopped && action is Stop,
        LoopState::Running => match pull {
            PullResult::Unit(raw) => next == LoopState::Running && action is Emit
                && outcome_of(raw@, action->Emit_0),
            PullResult::Exhausted => next == LoopState::Stopped && action is Stop,
            PullResult::Failure(cause) => next == LoopState::Stopped && action == LoopAction::Fail(cause),
        },
    }
}

/// One turn of the loop: decides, from the state and the result of a pull,
/// the next state and what the driver must do.
pub fn step(state: LoopState, pull: &PullResult) -> (r: (LoopState, LoopAction))
    ensures
        step_fits(state, *pull, r.0, r.1),
{
    match state {
        LoopState::Stopped => (LoopState::Stopped, LoopAction::Stop),
        LoopState::Running => match pull {
            PullResult::Unit(raw) => (LoopState::Running, LoopAction::Emit(process_unit(raw.as_slice()))),
            PullResult::Exhausted => (LoopState::Stopped, LoopAction::Stop),
            PullResult::Failure(cause) => (LoopState::Stopped, LoopAction::Fail(cause.clone())),
        },
    }
}

/// The result of running the loop over a source: what it emitted, and how it ended.
#[derive(Debug)]
pub struct CaptureRun {
    pub outcomes: Vec<UnitOutcome>,
    /// `Ok` for an exhausted source, `Err` with the cause of a device failure.
    pub end: Result<(), String>,
}

/// The loop ends at pull `n`: every pull before it delivered a unit, and the
/// one at `n`, if the source has it, is terminal.
pub open spec fn ends_at(pulls: Seq<PullResult>, n: int) -> bool {
    &&& 0 <= n <= pulls.len()
    &&& forall|i: int| 0 <= i < n ==> #[trigger] pulls[i] is Unit
    &&& n < pulls.len() ==> !(pulls[n] is Unit)
}

/// Runs the loop over the pulls a source yields, in order, until one is
/// terminal. A source that runs out of pulls counts as exhausted.
pub fn run_capture(pulls: &Vec<PullResult>) -> (r: CaptureRun)
    ensures
        ends_at(pulls@, r.outcomes@.len() as int),
        forall|i: int| 0 <= i < r.outcomes@.len() ==> outcome_of(
            (#[trigger] pulls@[i])->Unit_0@,
            r.outcomes@[i],
        ),
        r.end is Ok <==> r.outcomes@.len() == pulls@.len() || pulls@[r.outcomes@.len() as int] is Exhausted,
        r.end is Err ==> pulls@[r.outcomes@.len() as int] == PullResult::Failure(r.end->Err_0),
{
    let mut outcomes: Vec<UnitOutcome> = Vec::new();
    let mut state = LoopState::Running;
    let mut i: usize = 0;
    while i < pulls.len()
        invariant
            i <= pulls@.len(),
            state == LoopState::Running,
            outcomes@.len() == i,
            forall|j: int| 0 <= j < i ==> #[trigger] pulls@[j] is Unit,
            forall|j: int| 0 <= j < i ==> outcome_of((#[trigger] pulls@[j])->Unit_0@, outcomes@[j]),
        decreases pulls@.len() - i,
    {
        let (next, action) = step(state, &pulls[i]);
        match action {
            LoopAction::Emit(o) => {
                outcomes.push(o);
                state = next;
            },
            LoopAction::Stop => {
                return CaptureRun { outcomes, end: Ok(()) };
            },
            LoopAction::Fail(cause) => {
                return CaptureRun { outcomes, end: Err(cause) };
            },
        }
        i = i + 1;
    }
    CaptureRun { outcomes, end: Ok(()) }
}

} // verus!
