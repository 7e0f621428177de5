//! The recording pipeline controller: builds a typed description of the
//! external media graph (source, converters, encoders, queues, muxer, sink),
//! validates the recording target, serialises the graph to the media
//! subsystem's textual launch form, and tracks the pipeline lifecycle.
//!
//! The controller itself never touches the media subsystem: a shell around
//! the library performs the launch and the state transitions, and reports
//! each outcome back. Every decision — what may start, what text is handed
//! to the subsystem, which error a failed step surfaces, what state follows
//! — is made and proved here.

use vstd::prelude::*;
use vstd::string::*;

verus! {

/// Where the encoded recording is delivered.
pub enum PipelineTarget {
    /// Push to a network URL.
    Network(String),
    /// Write to a local file path.
    File(String),
}

/// The ways starting or stopping a recording can fail. A failure never
/// panics and never leaves the controller believing it owns a live graph.
#[derive(Copy, Clone, PartialEq, Eq, Structural, Debug)]
pub enum PipelineError {
    /// `start` was asked for while a recording is already playing.
    AlreadyRecording,
    /// The target's location string is malformed.
    ConfigurationError,
    /// The media subsystem failed to initialise.
    SubsystemInitError,
    /// The described graph failed to parse or assemble.
    GraphConstructionError,
    /// The graph failed to reach or leave the running state.
    StateTransitionError,
}

/// The lifecycle state of the recording pipeline.
#[derive(Copy, Clone, PartialEq, Eq, Structural, Debug)]
pub enum PipelineState {
    Stopped,
    Playing,
}

/// What the shell observed when it tried to launch a planned graph.
#[derive(Copy, Clone, PartialEq, Eq, Structural, Debug)]
pub enum StartOutcome {
    /// The graph was built and reached the running state.
    Launched,
    /// The media subsystem would not initialise.
    InitFailed,
    /// The textual graph failed to parse or assemble.
    ConstructionFailed,
    /// The graph would not reach the running state.
    TransitionFailed,
}

/// What the shell observed when it halted the running graph.
#[derive(Copy, Clone, PartialEq, Eq, Structural, Debug)]
pub enum StopOutcome {
    Halted,
    HaltFailed,
}

/// The element kinds a processing chain is assembled from.
#[derive(Copy, Clone, PartialEq, Eq, Structural, Debug)]
pub enum ElementKind {
    VideoTestSource,
    VideoConvert,
    Vp8Encoder,
    Queue,
    PulseAudioSource,
    AudioConvert,
    AudioResample,
    OpusEncoder,
}

/// The terminal sink kind of the graph.
#[derive(Copy, Clone, PartialEq, Eq, Structural, Debug)]
pub enum SinkKind {
    /// A network push sink.
    RtmpPush,
    /// A file sink with synchronisation disabled.
    FileWrite,
}

/// A typed, validated description of the media graph: a video chain and an
/// audio chain that both feed the muxer, and a sink with its location.
pub struct GraphPlan {
    pub video_chain: Vec<ElementKind>,
    pub audio_chain: Vec<ElementKind>,
    pub sink: SinkKind,
    pub location: String,
}

/// A location string the media subsystem will accept as a single sink
/// property: non-empty and free of spaces.
pub open spec fn valid_location(s: Seq<char>) -> bool {
    s.len() > 0 && (forall|i: int| 0 <= i < s.len() ==> s[i] != ' ')
}

/// The location string carried by a target.
pub open spec fn location_of(t: PipelineTarget) -> Seq<char> {
    match t {
        PipelineTarget::Network(url) => url@,
        PipelineTarget::File(path) => path@,
    }
}

/// The sink kind a target calls for.
pub open spec fn sink_of(t: PipelineTarget) -> SinkKind {
    match t {
        PipelineTarget::Network(_) => SinkKind::RtmpPush,
        PipelineTarget::File(_) => SinkKind::FileWrite,
    }
}

/// Decides `valid_location` for a target's location string.
#[verifier::loop_isolation(false)]
pub fn location_is_valid(s: &String) -> (r: bool)
    ensures
        r == valid_location(s@),
{
    let st = s.as_str();
    let n = st.unicode_len();
    if n == 0 {
        return false;
    }
    let mut i: usize = 0;
    while i < n
        invariant
            i <= n,
            forall|k: int| 0 <= k < i ==> st@[k] != ' ',
        decreases n - i,
    {
        if st.get_char(i) == ' ' {
            return false;
        }
        i = i + 1;
    }
    true
}

/// The launch-text token of one element kind.
pub open spec fn element_token(e: ElementKind) -> Seq<char> {
    match e {
        ElementKind::VideoTestSource => "videotestsrc"@,
        ElementKind::VideoConvert => "videoconvert"@,
        ElementKind::Vp8Encoder => "vp8enc"@,
        ElementKind::Queue => "queue"@,
        ElementKind::PulseAudioSource => "pulsesrc"@,
        ElementKind::AudioConvert => "audioconvert"@,
        ElementKind::AudioResample => "audioresample"@,
        ElementKind::OpusEncoder => "opusenc"@,
    }
}

/// The tokens of a chain joined by the link separator.
pub open spec fn joined(chain: Seq<ElementKind>) -> Seq<char>
    decreases chain.len(),
{
    if chain.len() == 0 {
        Seq::empty()
    } else if chain.len() == 1 {
        element_token(chain[0])
    } else {
        joined(chain.drop_last()) + " ! "@ + element_token(chain.last())
    }
}

/// The video chain: synthetic source, colour-space conversion, encoder,
/// queue.
pub open spec fn standard_video_chain() -> Seq<ElementKind> {
    seq![
        ElementKind::VideoTestSource,
        ElementKind::VideoConvert,
        ElementKind::Vp8Encoder,
        ElementKind::Queue,
    ]
}

/// The audio chain: captured source, conversion, resampling, encoder,
/// queue.
pub open spec fn standard_audio_chain() -> Seq<ElementKind> {
    seq![
        ElementKind::PulseAudioSource,
        ElementKind::AudioConvert,
        ElementKind::AudioResample,
        ElementKind::OpusEncoder,
        ElementKind::Queue,
    ]
}

/// The launch-text token of the sink kind.
pub open spec fn sink_token(k: SinkKind) -> Seq<char> {
    match k {
        SinkKind::RtmpPush => "rtmpsink"@,
        SinkKind::FileWrite => "filesink"@,
    }
}

/// Extra sink properties: the file sink runs with synchronisation disabled.
pub open spec fn sink_suffix(k: SinkKind) -> Seq<char> {
    match k {
        SinkKind::RtmpPush => Seq::empty(),
        SinkKind::FileWrite => " sync=false"@,
    }
}

/// The full textual launch form of a graph plan.
pub open spec fn graph_text(g: GraphPlan) -> Seq<char> {
    joined(g.video_chain@) + " ! mux. "@ + joined(g.audio_chain@) + " ! mux. "@
        + "webmmux streamable=true name=mux ! "@ + sink_token(g.sink) + " location="@ + g.location@
        + sink_suffix(g.sink)
}

/// The launch text the controller hands the shell for a target: the two
/// standard chains into the muxer, then the target's sink and location.
pub open spec fn launch_description(t: PipelineTarget) -> Seq<char> {
    joined(standard_video_chain()) + " ! mux. "@ + joined(standard_audio_chain()) + " ! mux. "@
        + "webmmux streamable=true name=mux ! "@ + sink_token(sink_of(t)) + " location="@
        + location_of(t) + sink_suffix(sink_of(t))
}

impl GraphPlan {
    /// A plan always carries the standard chains and a valid location.
    pub open spec fn wf(&self) -> bool {
        self.video_chain@ == standard_video_chain() && self.audio_chain@ == standard_audio_chain()
            && valid_location(self.location@)
    }
}

/// Appends one element token to the text being built.
fn append_element(out: &mut String, e: ElementKind)
    ensures
        final(out)@ == old(out)@ + element_token(e),
{
    match e {
        ElementKind::VideoTestSource => out.append("videotestsrc"),
        ElementKind::VideoConvert => out.append("videoconvert"),
        ElementKind::Vp8Encoder => out.append("vp8enc"),
        ElementKind::Queue => out.append("queue"),
        ElementKind::PulseAudioSource => out.append("pulsesrc"),
        ElementKind::AudioConvert => out.append("audioconvert"),
        ElementKind::AudioResample => out.append("audioresample"),
        ElementKind::OpusEncoder => out.append("opusenc"),
    }
}

/// Joining one more element appends a separator (except before the first)
/// and that element's token.
proof fn lemma_joined_step(chain: Seq<ElementKind>, i: int)
    requires
        0 <= i < chain.len(),
    ensures
        i == 0 ==> joined(chain.take(1)) == element_token(chain[0]),
        i > 0 ==> joined(chain.take(i + 1)) == joined(chain.take(i)) + " ! "@ + element_token(
            chain[i],
        ),
{
    assert(chain.take(i + 1).drop_last() =~= chain.take(i));
    assert(chain.take(i + 1).last() == chain[i]);
}

/// Appends a whole chain, tokens joined by the link separator.
#[verifier::loop_isolation(false)]
fn append_joined(out: &mut String, chain: &Vec<ElementKind>)
    ensures
        final(out)@ == old(out)@ + joined(chain@),
{
    let mut i: usize = 0;
    while i < chain.len()
        invariant
            i <= chain@.len(),
            out@ == old(out)@ + joined(chain@.take(i as int)),
        decreases chain@.len() - i,
    {
        if i > 0 {
            out.append(" ! ");
        }
        append_element(out, chain[i]);
        proof {
            lemma_joined_step(chain@, i as int);
            assert(out@ =~= old(out)@ + joined(chain@.take(i as int + 1)));
        }
        i = i + 1;
    }
    proof {
        assert(chain@.take(chain@.len() as int) =~= chain@);
    }
}

/// Serialises a graph plan to the media subsystem's textual launch form.
pub fn serialize_graph(g: &GraphPlan) -> (r: String)
    ensures
        r@ == graph_text(*g),
{
    let mut out = String::new();
    append_joined(&mut out, &g.video_chain);
    out.append(" ! mux. ");
    append_joined(&mut out, &g.audio_chain);
    out.append(" ! mux. ");
    out.append("webmmux streamable=true name=mux ! ");
    match g.sink {
        SinkKind::RtmpPush => out.append("rtmpsink"),
        SinkKind::FileWrite => out.append("filesink"),
    }
    out.append(" location=");
    out.append(g.location.as_str());
    match g.sink {
        SinkKind::RtmpPush => {},
        SinkKind::FileWrite => out.append(" sync=false"),
    }
    proof {
        assert(out@ =~= graph_text(*g));
    }
    out
}

/// Builds the standard video chain.
fn make_video_chain() -> (r: Vec<ElementKind>)
    ensures
        r@ == standard_video_chain(),
{
    let mut v: Vec<ElementKind> = Vec::new();
    v.push(ElementKind::VideoTestSource);
    v.push(ElementKind::VideoConvert);
    v.push(ElementKind::Vp8Encoder);
    v.push(ElementKind::Queue);
    proof {
        assert(v@ =~= standard_video_chain());
    }
    v
}

/// Builds the standard audio chain.
fn make_audio_chain() -> (r: Vec<ElementKind>)
    ensures
        r@ == standard_audio_chain(),
{
    let mut v: Vec<ElementKind> = Vec::new();
    v.push(ElementKind::PulseAudioSource);
    v.push(ElementKind::AudioConvert);
    v.push(ElementKind::AudioResample);
    v.push(ElementKind::OpusEncoder);
    v.push(ElementKind::Queue);
    proof {
        assert(v@ =~= standard_audio_chain());
    }
    v
}

/// Builds and validates the typed graph for a target. A malformed location
/// is a configuration error; nothing is constructed for it.
pub fn build_graph(target: &PipelineTarget) -> (r: Result<GraphPlan, PipelineError>)
    ensures
        r is Ok <==> valid_location(location_of(*target)),
        r is Err ==> r == Err::<GraphPlan, PipelineError>(PipelineError::ConfigurationError),
        r is Ok ==> (r->Ok_0).wf() && (r->Ok_0).sink == sink_of(*target) && (r->Ok_0).location@
            == location_of(*target),
{
    let (location, sink) = match target {
        PipelineTarget::Network(url) => (url, SinkKind::RtmpPush),
        PipelineTarget::File(path) => (path, SinkKind::FileWrite),
    };
    if !location_is_valid(location) {
        return Err(PipelineError::ConfigurationError);
    }
    Ok(
        GraphPlan {
            video_chain: make_video_chain(),
            audio_chain: make_audio_chain(),
            sink,
            location: location.clone(),
        },
    )
}

/// The lifecycle controller. It owns no live graph itself: it decides, and
/// the shell that holds the subsystem's handle obeys.
pub struct RecordingController {
    pub state: PipelineState,
}

impl RecordingController {
    /// A controller starts with no recording.
    pub fn new() -> (c: RecordingController)
        ensures
            c.state == PipelineState::Stopped,
    {
        RecordingController { state: PipelineState::Stopped }
    }

    /// Plans a start: rejected outright while a recording is playing;
    /// rejected as a configuration error for a malformed location; otherwise
    /// the exact launch text for the target, with the controller unchanged
    /// until the shell reports how the launch went.
    pub fn plan_start(&self, target: &PipelineTarget) -> (r: Result<String, PipelineError>)
        ensures
            self.state == PipelineState::Playing ==> r == Err::<String, PipelineError>(
                PipelineError::AlreadyRecording,
            ),
            self.state == PipelineState::Stopped && !valid_location(location_of(*target)) ==> r
                == Err::<String, PipelineError>(PipelineError::ConfigurationError),
            self.state == PipelineState::Stopped && valid_location(location_of(*target)) ==> r
                is Ok && (r->Ok_0)@ == launch_description(*target),
    {
        if matches!(self.state, PipelineState::Playing) {
            return Err(PipelineError::AlreadyRecording);
        }
        match build_graph(target) {
            Err(e) => Err(e),
            Ok(g) => {
                let text = serialize_graph(&g);
                proof {
                    assert(text@ =~= launch_description(*target));
                }
                Ok(text)
            },
        }
    }

    /// Takes the shell's report of a planned launch. Success means the
    /// controller now owns a playing pipeline; each failure surfaces its
    /// error and leaves the controller stopped, with nothing retained.
    pub fn confirm_start(&mut self, outcome: StartOutcome) -> (r: Result<(), PipelineError>)
        requires
            old(self).state == PipelineState::Stopped,
        ensures
            outcome == StartOutcome::Launched ==> final(self).state == PipelineState::Playing && r
                == Ok::<(), PipelineError>(()),
            outcome == StartOutcome::InitFailed ==> final(self).state == PipelineState::Stopped
                && r == Err::<(), PipelineError>(PipelineError::SubsystemInitError),
            outcome == StartOutcome::ConstructionFailed ==> final(self).state
                == PipelineState::Stopped && r == Err::<(), PipelineError>(
                PipelineError::GraphConstructionError,
            ),
            outcome == StartOutcome::TransitionFailed ==> final(self).state
                == PipelineState::Stopped && r == Err::<(), PipelineError>(
                PipelineError::StateTransitionError,
            ),
    {
        match outcome {
            StartOutcome::Launched => {
                self.state = PipelineState::Playing;
                Ok(())
            },
            StartOutcome::InitFailed => Err(PipelineError::SubsystemInitError),
            StartOutcome::ConstructionFailed => Err(PipelineError::GraphConstructionError),
            StartOutcome::TransitionFailed => Err(PipelineError::StateTransitionError),
        }
    }

    /// Stops: the controller drops to `Stopped` at once — stop when already
    /// stopped is a no-op — and says whether a live graph must be halted.
    pub fn stop(&mut self) -> (needs_halt: bool)
        ensures
            final(self).state == PipelineState::Stopped,
            needs_halt == (old(self).state == PipelineState::Playing),
    {
        let was_playing = matches!(self.state, PipelineState::Playing);
        self.state = PipelineState::Stopped;
        was_playing
    }

    /// Takes the shell's report of halting the graph. Either way the
    /// controller stays stopped — a failed halt still drops the handle — and
    /// a failure surfaces as a state-transition error.
    pub fn confirm_stop(&mut self, outcome: StopOutcome) -> (r: Result<(), PipelineError>)
        requires
            old(self).state == PipelineState::Stopped,
        ensures
            final(self).state == PipelineState::Stopped,
            outcome == StopOutcome::Halted ==> r == Ok::<(), PipelineError>(()),
            outcome == StopOutcome::HaltFailed ==> r == Err::<(), PipelineError>(
                PipelineError::StateTransitionError,
            ),
    {
        match outcome {
            StopOutcome::Halted => Ok(()),
            StopOutcome::HaltFailed => Err(PipelineError::StateTransitionError),
        }
    }
}

} // verus!
