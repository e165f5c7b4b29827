//! The streaming session as a state machine: GStreamer initialisation, the
//! pipeline's lifetime, recording, the microphone mute and the preview frame.
//! The caller holds the GStreamer objects; this module decides what happens to
//! them and keeps track of which are held.
use vstd::prelude::*;
use crate::encoding::base64_standard;
use crate::codecs::base64_encode;
use crate::encoding::{base64_decode, base64_round_trip};
use crate::graph::{assemble_plan, assemble_steps, build_plan, build_steps, start_plan, start_steps, GraphStep};
use crate::props::{PropSetting, PropSettingView, PropValueView, push_setting, set_bool, set_parsed, set_u32, setting, PropValue};

verus! {

// ---------------------------------------------------------------------------
// GStreamer initialisation
// ---------------------------------------------------------------------------

/// Whether GStreamer has been initialised in this process.
pub struct InitState {
    pub initialized: bool,
}

/// What initialisation does next.
#[derive(Clone, Copy, PartialEq, Eq, Debug, Structural)]
pub enum InitStep {
    /// Already initialised: nothing to do, report success.
    AlreadyInitialized,
    /// Call `gst::init` and hand its outcome to [`init_finish`].
    CallInit,
}

/// What initialisation does in state `s`.
pub open spec fn init_step(s: InitState) -> InitStep {
    if s.initialized { InitStep::AlreadyInitialized } else { InitStep::CallInit }
}

/// The first step of initialisation: GStreamer is initialised at most once per
/// process.
pub fn init(s: &InitState) -> (step: InitStep)
    ensures
        step == init_step(*s),
{
    if s.initialized { InitStep::AlreadyInitialized } else { InitStep::CallInit }
}

/// The state after `gst::init` succeeded (`ok`) or failed.
pub open spec fn after_init(s: InitState, ok: bool) -> InitState {
    InitState { initialized: s.initialized || ok }
}

/// Records the outcome of `gst::init` (its error as debug text): success marks
/// GStreamer initialised; failure leaves it as it was and is reported.
pub fn init_finish(s: &mut InitState, outcome: Result<(), String>) -> (r: Result<(), String>)
    ensures
        *final(s) == after_init(*old(s), outcome is Ok),
        match outcome {
            Ok(()) => r is Ok,
            Err(e) => r matches Err(m) && m@ == "Failed to initialize GStreamer: "@ + e@,
        },
{
    match outcome {
        Ok(()) => {
            s.initialized = true;
            Ok(())
        },
        Err(e) => Err(String::from_str("Failed to initialize GStreamer: ").concat(e.as_str())),
    }
}

/// Once `gst::init` has succeeded, initialising again does nothing; after a
/// failed call, the next initialisation calls it again.
pub proof fn init_happens_once(s: InitState)
    ensures
        init_step(after_init(s, true)) == InitStep::AlreadyInitialized,
        !s.initialized ==> init_step(after_init(s, false)) == InitStep::CallInit,
{
}

// ---------------------------------------------------------------------------
// The session
// ---------------------------------------------------------------------------

/// Which of the session's objects are held: the pipeline, the main loop that
/// dispatches its bus, the bus watch, the stop flag of the statistics logger,
/// and whether a recording branch is attached.
#[derive(Clone, Copy, PartialEq, Eq, Debug, Structural)]
pub struct StreamState {
    pub pipeline: bool,
    pub main_loop: bool,
    pub bus_watch: bool,
    pub stats_stop: bool,
    pub recording: bool,
}

impl StreamState {
    /// A session that holds nothing.
    pub fn new() -> (s: StreamState)
        ensures
            s == idle(),
    {
        StreamState { pipeline: false, main_loop: false, bus_watch: false, stats_stop: false, recording: false }
    }
}

/// The session holding nothing.
pub open spec fn idle() -> StreamState {
    StreamState { pipeline: false, main_loop: false, bus_watch: false, stats_stop: false, recording: false }
}

/// The latest preview frame, base64 JPEG text (empty when there is none).
pub struct PreviewFrame {
    pub frame: String,
}

impl PreviewFrame {
    /// No preview frame yet.
    pub fn new() -> (p: PreviewFrame)
        ensures
            p.frame@.len() == 0,
    {
        PreviewFrame { frame: String::new() }
    }
}

/// The latest preview frame.
pub fn get_preview_frame(p: &PreviewFrame) -> (r: Result<String, String>)
    ensures
        r matches Ok(f) && f@ == p.frame@,
{
    Ok(p.frame.clone())
}

/// Replaces the preview frame with the base64 text of a JPEG the preview
/// branch produced.
pub fn store_preview_jpeg(p: &mut PreviewFrame, jpeg: &[u8])
    requires
        4 * ((jpeg@.len() + 2) / 3) <= usize::MAX,
    ensures
        final(p).frame@ == base64_standard(jpeg@),
{
    p.frame = base64_encode(jpeg);
}

/// The preview frame, decoded from base64, is the JPEG the preview branch
/// last produced.
pub proof fn preview_frame_decodes_to_jpeg(jpeg: Seq<u8>)
    ensures
        base64_decode(base64_standard(jpeg)) == jpeg,
{
    base64_round_trip(jpeg);
}

/// The plan for a new stream, once GStreamer is initialised ([`init`]).
pub struct PipelinePlan {
    /// Whether the pipeline already held must be cleaned up first ([`cleanup`]).
    pub cleanup_first: bool,
    /// Making and configuring the elements.
    pub build: Vec<GraphStep>,
    /// Adding them to the pipeline and linking them.
    pub assemble: Vec<GraphStep>,
    /// Starting the pipeline.
    pub start: Vec<GraphStep>,
}

/// Plans a stream of the capture source (a window, or a monitor, or the whole
/// screen) and the system audio of `process_pid`, mixed with the microphone
/// `mic_device_id` when one is given, to the given video and audio hosts and
/// ports: a pipeline already held is cleaned up first, then the elements are
/// built, assembled and started as [`build_steps`], [`assemble_steps`] and
/// [`start_steps`] say.
pub fn create_gstreamer_pipeline(
    s: &StreamState,
    video_host: &str,
    video_rtp_port: u16,
    video_rtcp_port: u16,
    audio_host: &str,
    audio_rtp_port: u16,
    audio_rtcp_port: u16,
    window_handle: Option<u64>,
    process_pid: Option<u32>,
    monitor_index: Option<u32>,
    mic_enabled: bool,
    mic_device_id: &Option<String>,
    mic_initially_muted: bool,
) -> (p: PipelinePlan)
    ensures
        p.cleanup_first == s.pipeline,
        p.build.deep_view() == build_steps(video_host@, video_rtp_port, video_rtcp_port, audio_host@, audio_rtp_port,
            audio_rtcp_port, window_handle, process_pid, monitor_index, mic_enabled,
            match mic_device_id { Some(id) => Some(id@), None => None }, mic_initially_muted),
        p.assemble.deep_view() == assemble_steps(mic_device_id is Some),
        p.start.deep_view() == start_steps(),
{
    PipelinePlan {
        cleanup_first: s.pipeline,
        build: build_plan(video_host, video_rtp_port, video_rtcp_port, audio_host, audio_rtp_port, audio_rtcp_port,
            window_handle, process_pid, monitor_index, mic_enabled, mic_device_id, mic_initially_muted),
        assemble: assemble_plan(mic_device_id.is_some()),
        start: start_plan(),
    }
}

/// The outcome of starting a stream, once the pipeline was planned, built and
/// started: its error, or the confirmation.
pub fn start_streaming(created: Result<(), String>) -> (r: Result<String, String>)
    ensures
        match created {
            Ok(()) => r matches Ok(m) && m@ == "Streaming started successfully"@,
            Err(e) => r matches Err(m) && m@ == e@,
        },
{
    match created {
        Ok(()) => Ok(String::from_str("Streaming started successfully")),
        Err(e) => Err(e),
    }
}

/// The state once a pipeline was built and set playing.
pub open spec fn after_start(s: StreamState) -> StreamState {
    StreamState { pipeline: true, main_loop: true, bus_watch: true, stats_stop: true, recording: s.recording }
}

/// Records a pipeline that was built and set playing: the pipeline, its bus
/// watch, its main loop and its statistics logger are now held.
pub fn pipeline_started(s: &mut StreamState)
    ensures
        *final(s) == after_start(*old(s)),
{
    s.pipeline = true;
    s.main_loop = true;
    s.bus_watch = true;
    s.stats_stop = true;
}

/// What cleaning up does to the objects held.
#[derive(Clone, Copy, PartialEq, Eq, Debug, Structural)]
pub struct CleanupActions {
    /// Tell the statistics logger to stop.
    pub stop_stats: bool,
    /// Drop the bus watch (only together with the pipeline).
    pub remove_bus_watch: bool,
    /// Set the pipeline to NULL and wait up to two seconds for it.
    pub stop_pipeline: bool,
    /// Quit the main loop if it is running.
    pub quit_main_loop: bool,
}

/// Whether cleaning up must stop a recording first, so the MP4 is finalised.
pub fn cleanup_stops_recording_first(s: &StreamState) -> (b: bool)
    ensures
        b == s.recording,
{
    s.recording
}

/// The state after cleaning up: statistics logger, pipeline and main loop
/// released, the bus watch released along with the pipeline; a recording that
/// could not be stopped stays marked.
pub open spec fn after_cleanup(s: StreamState) -> StreamState {
    StreamState {
        pipeline: false,
        main_loop: false,
        bus_watch: if s.pipeline { false } else { s.bus_watch },
        stats_stop: false,
        recording: s.recording,
    }
}

/// What cleaning up session `s` does to the objects it holds.
pub open spec fn cleanup_actions(s: StreamState) -> CleanupActions {
    CleanupActions {
        stop_stats: s.stats_stop,
        remove_bus_watch: s.pipeline && s.bus_watch,
        stop_pipeline: s.pipeline,
        quit_main_loop: s.main_loop,
    }
}

/// Cleans up the session (after any recording was stopped): releases what is
/// held, says what to do with each released object, and clears the preview frame.
pub fn cleanup(s: &mut StreamState, preview: &mut PreviewFrame) -> (a: CleanupActions)
    ensures
        *final(s) == after_cleanup(*old(s)),
        final(preview).frame@.len() == 0,
        a == cleanup_actions(*old(s)),
{
    let a = CleanupActions {
        stop_stats: s.stats_stop,
        remove_bus_watch: s.pipeline && s.bus_watch,
        stop_pipeline: s.pipeline,
        quit_main_loop: s.main_loop,
    };
    s.stats_stop = false;
    if s.pipeline {
        s.bus_watch = false;
    }
    s.pipeline = false;
    s.main_loop = false;
    preview.frame = String::new();
    a
}

/// Stops streaming: cleans up and reports success.
pub fn stop_streaming(s: &mut StreamState, preview: &mut PreviewFrame) -> (r: (CleanupActions, Result<(), String>))
    ensures
        *final(s) == after_cleanup(*old(s)),
        final(preview).frame@.len() == 0,
        r.1 is Ok,
        r.0 == cleanup_actions(*old(s)),
{
    let a = cleanup(s, preview);
    (a, Ok(()))
}

/// Whether the pipeline, its main loop, its bus watch and the statistics
/// logger's stop flag are held together or not at all.
pub open spec fn held_together(s: StreamState) -> bool {
    s.pipeline == s.main_loop && s.pipeline == s.bus_watch && s.pipeline == s.stats_stop
}

/// The pipeline, main loop, bus watch and statistics logger are held all
/// together or not at all, through every clean-up and every new stream: a
/// clean-up releases them all; a new stream first cleans up (stopping the old
/// pipeline) when one is held ([`create_gstreamer_pipeline`]'s `cleanup_first`),
/// and then holds none of them when building fails and all of them, with the
/// logger running, once it has started.
pub proof fn session_objects_held_together(s: StreamState)
    requires
        held_together(s),
    ensures
        held_together(after_cleanup(s)) && !after_cleanup(s).pipeline,
        s.pipeline ==> cleanup_actions(s).stop_pipeline && cleanup_actions(s).stop_stats
            && cleanup_actions(s).remove_bus_watch && cleanup_actions(s).quit_main_loop,
        ({
            let before_build = if s.pipeline { after_cleanup(s) } else { s };
            &&& held_together(before_build) && !before_build.pipeline
            &&& held_together(after_start(before_build)) && after_start(before_build).pipeline
            &&& after_start(before_build).stats_stop
        }),
{
}

/// Muting the microphone: with a pipeline holding the microphone valve, the
/// valve's `drop` is set to `muted`; otherwise nothing happens. Never fails.
pub fn set_mic_muted(s: &StreamState, has_mic_valve: bool, muted: bool) -> (r: Result<Option<PropSetting>, String>)
    ensures
        r is Ok,
        r matches Ok(o) ==> (o is Some <==> (s.pipeline && has_mic_valve)),
        r matches Ok(Some(p)) ==> p.deep_view() == setting("drop"@, PropValueView::Bool(muted)),
{
    if s.pipeline && has_mic_valve {
        Ok(Some(set_bool("drop", muted)))
    } else {
        Ok(None)
    }
}

// ---------------------------------------------------------------------------
// Recording
// ---------------------------------------------------------------------------

/// One element of the recording branch: factory, name, settings, and the error
/// when it cannot be made.
pub struct RecordingStage {
    pub factory: String,
    pub name: String,
    pub settings: Vec<PropSetting>,
    pub error: String,
}

/// Mathematical form of a [`RecordingStage`].
pub struct RecordingStageView {
    pub factory: Seq<char>,
    pub name: Seq<char>,
    pub settings: Seq<PropSettingView>,
    pub error: Seq<char>,
}

impl DeepView for RecordingStage {
    type V = RecordingStageView;

    open spec fn deep_view(&self) -> RecordingStageView {
        RecordingStageView { factory: self.factory@, name: self.name@, settings: self.settings.deep_view(), error: self.error@ }
    }
}

/// A recording stage; its error names the element and its factory.
pub open spec fn rec_stage(factory: Seq<char>, name: Seq<char>, settings: Seq<PropSettingView>) -> RecordingStageView {
    RecordingStageView { factory, name, settings, error: "Failed to create "@ + name + " ("@ + factory + ")"@ }
}

/// The recording branch tapped off the encoded H.264 stream, in link order: a
/// leaky 300-buffer queue, an H.264 parser, a fragmented MP4 muxer (one-second
/// fragments) and an unsynchronised file sink writing to `path`.
pub open spec fn recording_branch(path: Seq<char>) -> Seq<RecordingStageView> {
    seq![
        rec_stage("queue"@, "rec_queue"@, seq![
            setting("max-size-buffers"@, PropValueView::U32(300)),
            setting("leaky"@, PropValueView::Parsed("downstream"@)),
        ]),
        rec_stage("h264parse"@, "rec_h264parse"@, seq![]),
        rec_stage("mp4mux"@, "rec_mux"@, seq![setting("fragment-duration"@, PropValueView::Parsed("1000"@))]),
        rec_stage("filesink"@, "rec_filesink"@, seq![
            setting("location"@, PropValueView::Text(path)),
            setting("sync"@, PropValueView::Bool(false)),
            setting("async"@, PropValueView::Bool(false)),
        ]),
    ]
}

/// Why a recording cannot start, if it cannot: no pipeline, one already
/// running, or no encoded-stream tee to tap, checked in that order.
pub open spec fn start_recording_refusal(s: StreamState, has_h264_tee: bool) -> Option<Seq<char>> {
    if !s.pipeline {
        Some("No active pipeline"@)
    } else if s.recording {
        Some("Already recording"@)
    } else if !has_h264_tee {
        Some("h264_tee not found in pipeline"@)
    } else {
        None
    }
}

fn make_stage(factory: &str, name: &str, settings: Vec<PropSetting>) -> (st: RecordingStage)
    ensures
        st.deep_view() == rec_stage(factory@, name@, settings.deep_view()),
{
    let error = String::from_str("Failed to create ").concat(name).concat(" (").concat(factory).concat(")");
    RecordingStage { factory: String::from_str(factory), name: String::from_str(name), settings, error }
}

/// Starting a recording to `path`: the branch to build, or why it cannot
/// start. The session changes only once the branch is attached
/// ([`recording_started`]).
pub fn start_recording(s: &StreamState, has_h264_tee: bool, path: &str) -> (r: Result<Vec<RecordingStage>, String>)
    ensures
        match start_recording_refusal(*s, has_h264_tee) {
            Some(e) => r matches Err(m) && m@ == e,
            None => r matches Ok(v) && v.deep_view() =~~= recording_branch(path@),
        },
{
    if !s.pipeline {
        return Err(String::from_str("No active pipeline"));
    }
    if s.recording {
        return Err(String::from_str("Already recording"));
    }
    if !has_h264_tee {
        return Err(String::from_str("h264_tee not found in pipeline"));
    }
    let mut q: Vec<PropSetting> = Vec::new();
    push_setting(&mut q, set_u32("max-size-buffers", 300));
    push_setting(&mut q, set_parsed("leaky", "downstream"));
    let parse: Vec<PropSetting> = Vec::new();
    let mut mux: Vec<PropSetting> = Vec::new();
    push_setting(&mut mux, set_parsed("fragment-duration", "1000"));
    let mut sink: Vec<PropSetting> = Vec::new();
    push_setting(&mut sink, PropSetting { name: String::from_str("location"), value: PropValue::Text(String::from_str(path)) });
    push_setting(&mut sink, set_bool("sync", false));
    push_setting(&mut sink, set_bool("async", false));
    assert(q.deep_view() =~= seq![
        setting("max-size-buffers"@, PropValueView::U32(300)),
        setting("leaky"@, PropValueView::Parsed("downstream"@)),
    ]);
    assert(parse.deep_view() =~= Seq::<PropSettingView>::empty());
    assert(mux.deep_view() =~= seq![setting("fragment-duration"@, PropValueView::Parsed("1000"@))]);
    assert(sink.deep_view() =~= seq![
        setting("location"@, PropValueView::Text(path@)),
        setting("sync"@, PropValueView::Bool(false)),
        setting("async"@, PropValueView::Bool(false)),
    ]);
    let mut v: Vec<RecordingStage> = Vec::new();
    v.push(make_stage("queue", "rec_queue", q));
    v.push(make_stage("h264parse", "rec_h264parse", parse));
    v.push(make_stage("mp4mux", "rec_mux", mux));
    v.push(make_stage("filesink", "rec_filesink", sink));
    assert(v.deep_view() =~~= recording_branch(path@));
    Ok(v)
}

/// Records that the recording branch was attached.
pub fn recording_started(s: &mut StreamState)
    requires
        start_recording_refusal(*old(s), true) is None,
    ensures
        *final(s) == (StreamState { recording: true, ..*old(s) }),
{
    s.recording = true;
}

/// Why a recording cannot be stopped, if it cannot: no pipeline, no recording,
/// or the tee or recording queue missing from the pipeline, checked in that order.
pub open spec fn stop_recording_refusal(s: StreamState, has_h264_tee: bool, has_rec_queue: bool) -> Option<Seq<char>> {
    if !s.pipeline {
        Some("No active pipeline"@)
    } else if !s.recording {
        Some("Not recording"@)
    } else if !has_h264_tee {
        Some("h264_tee not found in pipeline"@)
    } else if !has_rec_queue {
        Some("rec_queue not found in pipeline"@)
    } else {
        None
    }
}

/// The recording elements removed when a recording stops, in order.
pub open spec fn recording_element_names() -> Seq<Seq<char>> {
    seq!["rec_queue"@, "rec_h264parse"@, "rec_mux"@, "rec_filesink"@]
}

/// One step of stopping a recording.
#[derive(Debug)]
pub enum RecordingStopStep {
    /// Unlink the recording queue from the encoded-stream tee and release the
    /// tee pad it was fed from.
    DetachFromTee,
    /// Send end-of-stream into the recording queue, so the MP4 is finalised.
    SendEos,
    /// Wait this many milliseconds for the end-of-stream to reach the file.
    WaitMs(u32),
    /// Set the named element (when present) to NULL.
    StopElement(String),
    /// Remove the named element (when present) from the pipeline.
    RemoveElement(String),
}

/// Mathematical form of a [`RecordingStopStep`].
pub enum RecordingStopStepView {
    DetachFromTee,
    SendEos,
    WaitMs(u32),
    StopElement(Seq<char>),
    RemoveElement(Seq<char>),
}

impl DeepView for RecordingStopStep {
    type V = RecordingStopStepView;

    open spec fn deep_view(&self) -> RecordingStopStepView {
        match self {
            RecordingStopStep::DetachFromTee => RecordingStopStepView::DetachFromTee,
            RecordingStopStep::SendEos => RecordingStopStepView::SendEos,
            RecordingStopStep::WaitMs(ms) => RecordingStopStepView::WaitMs(*ms),
            RecordingStopStep::StopElement(n) => RecordingStopStepView::StopElement(n@),
            RecordingStopStep::RemoveElement(n) => RecordingStopStepView::RemoveElement(n@),
        }
    }
}

/// How a recording is stopped: detached from the tee, sent end-of-stream,
/// given half a second to finalise the MP4, then each recording element is set
/// to NULL and, after all of them, each is removed.
pub open spec fn recording_stop_steps() -> Seq<RecordingStopStepView> {
    seq![RecordingStopStepView::DetachFromTee, RecordingStopStepView::SendEos, RecordingStopStepView::WaitMs(500)]
        + recording_element_names().map_values(|n: Seq<char>| RecordingStopStepView::StopElement(n))
        + recording_element_names().map_values(|n: Seq<char>| RecordingStopStepView::RemoveElement(n))
}

/// Stops the recording: unless refused, the recording is marked stopped and
/// the caller carries out the returned steps in order.
pub fn stop_recording(s: &mut StreamState, has_h264_tee: bool, has_rec_queue: bool) -> (r: Result<Vec<RecordingStopStep>, String>)
    ensures
        match stop_recording_refusal(*old(s), has_h264_tee, has_rec_queue) {
            Some(e) => r matches Err(m) && m@ == e && *final(s) == *old(s),
            None => r matches Ok(v) && v.deep_view() == recording_stop_steps()
                && *final(s) == (StreamState { recording: false, ..*old(s) }),
        },
{
    if !s.pipeline {
        return Err(String::from_str("No active pipeline"));
    }
    if !s.recording {
        return Err(String::from_str("Not recording"));
    }
    if !has_h264_tee {
        return Err(String::from_str("h264_tee not found in pipeline"));
    }
    if !has_rec_queue {
        return Err(String::from_str("rec_queue not found in pipeline"));
    }
    let mut v: Vec<RecordingStopStep> = Vec::new();
    v.push(RecordingStopStep::DetachFromTee);
    v.push(RecordingStopStep::SendEos);
    v.push(RecordingStopStep::WaitMs(500));
    v.push(RecordingStopStep::StopElement(String::from_str("rec_queue")));
    v.push(RecordingStopStep::StopElement(String::from_str("rec_h264parse")));
    v.push(RecordingStopStep::StopElement(String::from_str("rec_mux")));
    v.push(RecordingStopStep::StopElement(String::from_str("rec_filesink")));
    v.push(RecordingStopStep::RemoveElement(String::from_str("rec_queue")));
    v.push(RecordingStopStep::RemoveElement(String::from_str("rec_h264parse")));
    v.push(RecordingStopStep::RemoveElement(String::from_str("rec_mux")));
    v.push(RecordingStopStep::RemoveElement(String::from_str("rec_filesink")));
    assert(v.deep_view() =~= recording_stop_steps());
    s.recording = false;
    Ok(v)
}

} // verus!

verus! {

/// Starting a recording and then stopping it leaves the session as it was,
/// and while it runs a second start is refused with "Already recording".
pub proof fn recording_round_trip(s: StreamState)
    requires
        s.pipeline,
        !s.recording,
    ensures
        start_recording_refusal(s, true) is None,
        start_recording_refusal(StreamState { recording: true, ..s }, true) == Some("Already recording"@),
        stop_recording_refusal(StreamState { recording: true, ..s }, true, true) is None,
        (StreamState { recording: false, ..StreamState { recording: true, ..s } }) == s,
{
}

/// Stopping a recording undoes its start at the level of elements: the
/// elements stopped and removed are exactly those the start added, in the same
/// order, each once; the queue is first detached from the tee (releasing the
/// tee pad the start linked it to) and sent end-of-stream, and half a second
/// passes before any element is stopped; every element is stopped before any
/// is removed.
pub proof fn recording_stop_undoes_start(path: Seq<char>)
    ensures
        recording_branch(path).map_values(|st: RecordingStageView| st.name) == recording_element_names(),
        recording_stop_steps().len() == 3 + 2 * recording_element_names().len(),
        recording_stop_steps()[0] == RecordingStopStepView::DetachFromTee,
        recording_stop_steps()[1] == RecordingStopStepView::SendEos,
        recording_stop_steps()[2] == RecordingStopStepView::WaitMs(500),
        forall|i: int| 0 <= i < recording_element_names().len() ==> {
            &&& recording_stop_steps()[3 + i] == RecordingStopStepView::StopElement(#[trigger] recording_element_names()[i])
            &&& recording_stop_steps()[3 + recording_element_names().len() + i]
                == RecordingStopStepView::RemoveElement(recording_element_names()[i])
        },
        forall|i: int, j: int| 0 <= i < j < recording_element_names().len()
            ==> recording_element_names()[i] != recording_element_names()[j],
{
    assert(recording_branch(path).map_values(|st: RecordingStageView| st.name) =~= recording_element_names());
    reveal_strlit("rec_queue");
    reveal_strlit("rec_h264parse");
    reveal_strlit("rec_mux");
    reveal_strlit("rec_filesink");
    let names = recording_element_names();
    assert(names[0] != names[1] && names[0] != names[2] && names[0] != names[3]);
    assert(names[1] != names[2] && names[1] != names[3] && names[2] != names[3]);
}

/// The recording branch writes a fragmented MP4 of the encoded stream to the
/// given path: a leaky 300-buffer queue, then `h264parse`, then `mp4mux` with
/// one-second fragments, then a file sink at `path` (the only element told
/// where to write), made under the names `rec_queue`, `rec_h264parse`,
/// `rec_mux` and `rec_filesink`; each one's error names it and its factory.
pub proof fn recording_branch_writes_fragmented_mp4(path: Seq<char>)
    ensures ({
        let b = recording_branch(path);
        &&& b.map_values(|st: RecordingStageView| st.factory) == seq!["queue"@, "h264parse"@, "mp4mux"@, "filesink"@]
        &&& b.map_values(|st: RecordingStageView| st.name) == seq!["rec_queue"@, "rec_h264parse"@, "rec_mux"@, "rec_filesink"@]
        &&& forall|i: int| 0 <= i < b.len() ==>
            (#[trigger] b[i]).error == "Failed to create "@ + b[i].name + " ("@ + b[i].factory + ")"@
        &&& b[3].settings.contains(PropSettingView { name: "location"@, value: PropValueView::Text(path) })
        &&& forall|i: int, k: int| 0 <= i < 3 && 0 <= k < b[i].settings.len() ==> (#[trigger] b[i].settings[k]).name != "location"@
        &&& b[2].settings.contains(PropSettingView { name: "fragment-duration"@, value: PropValueView::Parsed("1000"@) })
        &&& b[0].settings.contains(PropSettingView { name: "max-size-buffers"@, value: PropValueView::U32(300) })
        &&& b[0].settings.contains(PropSettingView { name: "leaky"@, value: PropValueView::Parsed("downstream"@) })
    }),
{
    let b = recording_branch(path);
    assert(b.map_values(|st: RecordingStageView| st.factory) =~= seq!["queue"@, "h264parse"@, "mp4mux"@, "filesink"@]);
    assert(b.map_values(|st: RecordingStageView| st.name) =~= seq!["rec_queue"@, "rec_h264parse"@, "rec_mux"@, "rec_filesink"@]);
    assert(b[3].settings[0] == PropSettingView { name: "location"@, value: PropValueView::Text(path) });
    assert(b[2].settings[0] == PropSettingView { name: "fragment-duration"@, value: PropValueView::Parsed("1000"@) });
    assert(b[0].settings[0] == PropSettingView { name: "max-size-buffers"@, value: PropValueView::U32(300) });
    assert(b[0].settings[1] == PropSettingView { name: "leaky"@, value: PropValueView::Parsed("downstream"@) });
    reveal_strlit("location");
    reveal_strlit("max-size-buffers");
    reveal_strlit("leaky");
    reveal_strlit("fragment-duration");
    assert("location"@[0] != "max-size-buffers"@[0] && "location"@[1] != "leaky"@[1]
        && "location"@[0] != "fragment-duration"@[0]);
    assert forall|i: int, k: int| 0 <= i < 3 && 0 <= k < b[i].settings.len()
        implies (#[trigger] b[i].settings[k]).name != "location"@ by {
        if i == 0 {
            assert(k == 0 || k == 1);
        } else if i == 2 {
            assert(k == 0);
        }
    }
}

/// Stopping without a recording is refused with "Not recording" (or "No active
/// pipeline" when there is no pipeline either), and changes nothing.
pub proof fn stop_without_recording_is_refused(s: StreamState, has_h264_tee: bool, has_rec_queue: bool)
    requires
        !s.recording,
    ensures
        stop_recording_refusal(s, has_h264_tee, has_rec_queue)
            == Some(if s.pipeline { "Not recording"@ } else { "No active pipeline"@ }),
{
}

/// Cleaning up twice is the same as cleaning up once, and the second clean-up
/// has nothing left to release.
pub proof fn cleanup_is_idempotent(s: StreamState)
    ensures
        after_cleanup(after_cleanup(s)) == after_cleanup(s),
        !after_cleanup(s).pipeline && !after_cleanup(s).main_loop && !after_cleanup(s).stats_stop,
{
}

/// A session whose bus watch and recording only ever come with its pipeline,
/// and whose recording (if any) was stopped first, is idle after clean-up; a
/// pipeline started then needs no clean-up first.
pub proof fn cleanup_returns_to_idle(s: StreamState)
    requires
        s.bus_watch ==> s.pipeline,
        !s.recording,
    ensures
        after_cleanup(s) == idle(),
        !after_cleanup(s).pipeline,
{
}

/// Starting a pipeline from an idle session, then cleaning up, returns to idle.
pub proof fn start_then_cleanup_is_idle()
    ensures
        after_cleanup(StreamState { pipeline: true, main_loop: true, bus_watch: true, stats_stop: true, recording: idle().recording })
            == idle(),
{
}

} // verus!
