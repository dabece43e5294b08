use vstd::prelude::*;

use crate::detect::detect_prefix;
use crate::detect::detected_kind;
use crate::detect::window_of;
use crate::detect::DETECTION_WINDOW;
use crate::kind::CompressionType;
use crate::replay::ReplayBuffer;

verus! {

/// What a transcoding call decided after sniffing the window: the kind to
/// decode from and the kind to encode into.
pub struct TranscodePlan {
    /// The kind the window classified as.
    pub detected: CompressionType,
    /// The kind the caller asked for.
    pub target: CompressionType,
}

impl TranscodePlan {
    /// A plan whose two kinds agree calls for a verbatim copy: no decode or
    /// encode adapter is built, the composite stream goes out as it is.
    pub open spec fn is_verbatim(self) -> bool {
        self.detected == self.target
    }

    /// Whether the verbatim fast path applies.
    pub fn use_fast_path(&self) -> (b: bool)
        ensures
            b == self.is_verbatim(),
    {
        self.detected == self.target
    }
}

/// Sniffs the window and fixes the route of one transcoding call: decode
/// from the detected kind, encode into `target`.
pub fn plan_transcode(window: &[u8], target: CompressionType) -> (plan: TranscodePlan)
    ensures
        plan.detected == detected_kind(window@),
        plan.target == target,
{
    TranscodePlan { detected: detect_prefix(window), target }
}

/// The decision a call comes to on an in-memory input.
pub enum Route {
    /// Detected and target kind agree: the copy is already done, and its
    /// bytes are the input, byte for byte.
    Copy { output: Vec<u8> },
    /// The kinds differ: the composite stream (the replayed window followed
    /// by the rest of the input) is to be decoded as `detected` and encoded
    /// as the target.
    Transcode { detected: CompressionType, composite: Vec<u8> },
}

impl Route {
    /// Whether the call took the verbatim fast path.
    pub open spec fn is_copy(self) -> bool {
        self matches Route::Copy { .. }
    }

    /// The bytes the route carries: the finished output of a copy, or the
    /// composite stream a transcode starts from.
    pub open spec fn bytes(self) -> Seq<u8> {
        match self {
            Route::Copy { output } => output@,
            Route::Transcode { composite, .. } => composite@,
        }
    }

    /// The kind a transcode decodes from; a copy decodes nothing.
    pub open spec fn decoded_as(self) -> Option<CompressionType> {
        match self {
            Route::Copy { .. } => Option::None,
            Route::Transcode { detected, .. } => Option::Some(detected),
        }
    }
}

/// What `route_recompress` promises of its result: a verbatim copy exactly
/// when the detected kind is the target, and in either case bytes equal to
/// the input — the consumed window is replayed, no byte duplicated or
/// dropped.
pub open spec fn route_matches(input: Seq<u8>, target: CompressionType, r: Route) -> bool {
    if detected_kind(input) == target {
        r matches Route::Copy { output } && output@ == input
    } else {
        r matches Route::Transcode { detected, composite } && detected == detected_kind(input)
            && composite@ == input
    }
}

/// The decision half of recompression, on an in-memory input: read the
/// detection window, classify it, rebuild the composite stream by replaying
/// the window ahead of the rest, and either finish the verbatim copy or
/// hand the composite bytes out to be decoded and re-encoded.
pub fn route_recompress(input: &Vec<u8>, target: CompressionType) -> (r: Route)
    ensures
        route_matches(input@, target, r),
{
    let n = input.len();
    let w = if n < DETECTION_WINDOW {
        n
    } else {
        DETECTION_WINDOW
    };
    let mut window: Vec<u8> = Vec::new();
    let mut i: usize = 0;
    while i < w
        invariant
            i <= w,
            w <= n,
            n == input@.len(),
            window@ == input@.take(i as int),
        decreases w - i,
    {
        window.push(input[i]);
        proof {
            assert(window@ =~= input@.take(i + 1));
        }
        i = i + 1;
    }
    let detected = detect_prefix(window.as_slice());
    proof {
        assert(window@ =~= window_of(input@));
        crate::detect::lemma_window_determines_detection(input@);
    }
    let mut replay = ReplayBuffer::new(window);
    let mut composite = replay.replay_up_to(DETECTION_WINDOW);
    let mut j: usize = w;
    while j < n
        invariant
            w <= j <= n,
            n == input@.len(),
            composite@ == input@.take(j as int),
        decreases n - j,
    {
        composite.push(input[j]);
        proof {
            assert(composite@ =~= input@.take(j + 1));
        }
        j = j + 1;
    }
    proof {
        assert(composite@ =~= input@);
    }
    if detected == target {
        Route::Copy { output: composite }
    } else {
        Route::Transcode { detected, composite }
    }
}

/// Identity: when the target equals the detected kind of the input, the
/// route is the finished verbatim copy and its bytes equal the input
/// exactly.
pub proof fn lemma_identity_fast_path(input: Seq<u8>, target: CompressionType, r: Route)
    requires
        target == detected_kind(input),
        route_matches(input, target, r),
    ensures
        r.is_copy(),
        r.bytes() == input,
{
}

/// Determinism of the routing decision: the contract pins the route, so any
/// two results for the same input and target agree on the path taken, the
/// bytes carried, and the kind to decode from.
pub proof fn lemma_route_deterministic(
    input: Seq<u8>,
    target: CompressionType,
    r1: Route,
    r2: Route,
)
    requires
        route_matches(input, target, r1),
        route_matches(input, target, r2),
    ensures
        r1.is_copy() == r2.is_copy(),
        r1.bytes() == r2.bytes(),
        r1.decoded_as() == r2.decoded_as(),
{
}

/// The stages one transcoding call passes through, in order; `Done` and
/// `Failed` are terminal.
#[derive(Debug, Clone, PartialEq, Eq, Copy, Structural)]
pub enum PipelineState {
    Start,
    Detecting,
    CopyingVerbatim,
    Transcoding,
    Finalizing,
    Done,
    Failed,
}

/// What the driver of a call reports back to the pipeline: the stage
/// boundaries it crossed, or a failure of a read, a write, a decode or the
/// finalization.
#[derive(Debug, Clone, PartialEq, Eq, Copy, Structural)]
pub enum PipelineEvent {
    DetectionStarted,
    Detected { verbatim: bool },
    InputExhausted,
    Finalized,
    Failure,
}

/// The transition relation of one call. A failure from any live stage, and
/// an event out of order, both abort the call; the terminal stages absorb
/// every event.
pub open spec fn spec_step(s: PipelineState, e: PipelineEvent) -> PipelineState {
    match (s, e) {
        (PipelineState::Done, _) => PipelineState::Done,
        (PipelineState::Failed, _) => PipelineState::Failed,
        (_, PipelineEvent::Failure) => PipelineState::Failed,
        (PipelineState::Start, PipelineEvent::DetectionStarted) => PipelineState::Detecting,
        (PipelineState::Detecting, PipelineEvent::Detected { verbatim }) => if verbatim {
            PipelineState::CopyingVerbatim
        } else {
            PipelineState::Transcoding
        },
        (PipelineState::CopyingVerbatim, PipelineEvent::InputExhausted) => PipelineState::Finalizing,
        (PipelineState::Transcoding, PipelineEvent::InputExhausted) => PipelineState::Finalizing,
        (PipelineState::Finalizing, PipelineEvent::Finalized) => PipelineState::Done,
        _ => PipelineState::Failed,
    }
}

/// Advances one call by one reported event.
pub fn step(s: PipelineState, e: PipelineEvent) -> (t: PipelineState)
    ensures
        t == spec_step(s, e),
{
    match (s, e) {
        (PipelineState::Done, _) => PipelineState::Done,
        (PipelineState::Failed, _) => PipelineState::Failed,
        (_, PipelineEvent::Failure) => PipelineState::Failed,
        (PipelineState::Start, PipelineEvent::DetectionStarted) => PipelineState::Detecting,
        (PipelineState::Detecting, PipelineEvent::Detected { verbatim }) => if verbatim {
            PipelineState::CopyingVerbatim
        } else {
            PipelineState::Transcoding
        },
        (PipelineState::CopyingVerbatim, PipelineEvent::InputExhausted) => PipelineState::Finalizing,
        (PipelineState::Transcoding, PipelineEvent::InputExhausted) => PipelineState::Finalizing,
        (PipelineState::Finalizing, PipelineEvent::Finalized) => PipelineState::Done,
        (_, _) => PipelineState::Failed,
    }
}

/// `Done` and `Failed` are terminal: no event leaves them.
pub proof fn lemma_terminal_states(e: PipelineEvent)
    ensures
        spec_step(PipelineState::Done, e) == PipelineState::Done,
        spec_step(PipelineState::Failed, e) == PipelineState::Failed,
{
}

/// A call that sees detection, input exhaustion and finalization in order
/// ends in `Done`, on the copying and on the transcoding path alike.
pub proof fn lemma_successful_run(verbatim: bool)
    ensures
        spec_step(
            spec_step(
                spec_step(
                    spec_step(PipelineState::Start, PipelineEvent::DetectionStarted),
                    PipelineEvent::Detected { verbatim },
                ),
                PipelineEvent::InputExhausted,
            ),
            PipelineEvent::Finalized,
        ) == PipelineState::Done,
{
}

} // verus!
