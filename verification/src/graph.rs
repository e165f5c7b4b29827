//! The streaming pipeline as a build plan: every element the pipeline is made
//! of, in the order it is made, configured, added and linked, with the error
//! reported when a step fails, and the steps that start it playing. The caller
//! carries the plan out on GStreamer and stops at the first failing step.
use vstd::prelude::*;
use crate::pipeline::{
    audio_chain_names,
    h264_payloader, network_settings, opus_encoder, opus_payloader, opusenc_settings, rtp_bin, rtpbin_settings,
    rtph264pay_settings, udp_sink, udp_source, LOCAL_AUDIO_RTCP_PORT, LOCAL_VIDEO_RTCP_PORT, NetworkPlan,
};
use crate::props::{CapsPreset, PropSetting, PropSettingView, PropValueView, push_setting, set_bool, set_caps, setting};

verus! {

/// The elements of the streaming pipeline.
#[derive(Clone, Copy, PartialEq, Eq, Hash, Debug, Structural)]
pub enum GraphNode {
    Rtpbin,
    VideoSource,
    VideoConvert,
    VideoScale,
    /// The 1080p60 NV12 capsfilter.
    VideoCaps,
    VideoEncoder,
    /// The H.264 high-profile capsfilter.
    H264Caps,
    H264Pay,
    RtpSink,
    RtcpSink,
    RtcpSrc,
    SystemAudioSrc,
    AudioConvert,
    AudioResample,
    /// The 48 kHz stereo capsfilter in front of the Opus encoder.
    OpusCaps,
    OpusEnc,
    OpusPay,
    AudioRtpSink,
    AudioRtcpSink,
    AudioRtcpSrc,
    MicSrc,
    MicConvert,
    MicResample,
    MicCaps,
    MicValve,
    SysAudioCaps,
    AudioMixer,
    VideoTee,
    QueueMain,
    H264Tee,
    QueueRtp,
    MixerOutConvert,
}

/// One step of putting the pipeline together. Each fallible step carries the
/// error reported when it fails; for a link, the text that precedes the
/// failure's debug form.
pub enum GraphStep {
    /// Make an element from `factory` named `name`.
    Make { node: GraphNode, factory: String, name: String, error: String },
    /// Make the video capture source ([`crate::sources::create_video_source`]).
    MakeVideoSource { window_handle: Option<u64> },
    /// Make the video encoder ([`crate::encoder::create_video_encoder`]).
    MakeVideoEncoder,
    /// Make the system audio source ([`crate::sources::create_system_audio_source`]).
    MakeSystemAudioSource { process_pid: Option<u32> },
    /// Make the microphone source ([`crate::sources::create_mic_source`]).
    MakeMicSource { device_id: String },
    /// Set properties of an element.
    Configure { node: GraphNode, settings: Vec<PropSetting> },
    /// Set the mixer's properties that it has ([`crate::pipeline::mixer_settings`]).
    ConfigureMixer,
    /// Answer `rtpbin`'s aux-sender requests ([`crate::pipeline::aux_sender_for_session`]).
    ConnectAuxSender,
    /// Configure the capture source ([`crate::sources::configure_video_source`]).
    ConfigureVideoSource { window_handle: Option<u64>, monitor_index: Option<u32> },
    /// Configure the encoder ([`crate::encoder::configure_encoder`]).
    ConfigureEncoder,
    /// Add elements to the pipeline.
    Add { nodes: Vec<GraphNode>, error: String },
    /// Link elements one after the other.
    Link { nodes: Vec<GraphNode>, error: String },
    /// Link the encode chain from `queue_main` to the H.264 capsfilter
    /// ([`crate::pipeline::link_video_chain`]).
    LinkVideoChain,
    /// Hang the preview branch off the capture tee
    /// ([`crate::pipeline::build_preview_branch`]).
    BuildPreviewBranch,
    /// Link a pad of one element to a pad of another.
    LinkPads { from: GraphNode, from_pad: String, to: GraphNode, to_pad: String, error: String },
    /// Request the mixer's next `sink_%u` pad.
    RequestMixerPad { error: String },
    /// Link an element's `src` pad to the `pad`-th requested mixer pad.
    LinkToMixerPad { node: GraphNode, pad: usize, no_src: String, error: String },
    /// Watch the pipeline's bus ([`crate::pipeline::bus_call`]).
    AddBusWatch { error: String },
    /// Bring an RTCP source to READY and have the RTCP sink send from its socket.
    ShareRtcpSocket { src: GraphNode, sink: GraphNode, error: String },
    /// Set the pipeline playing.
    Play { error: String },
    /// Wait up to five seconds for the state change.
    AwaitState { error: String },
}

/// Mathematical form of a [`GraphStep`].
pub enum GraphStepView {
    Make { node: GraphNode, factory: Seq<char>, name: Seq<char>, error: Seq<char> },
    MakeVideoSource { window_handle: Option<u64> },
    MakeVideoEncoder,
    MakeSystemAudioSource { process_pid: Option<u32> },
    MakeMicSource { device_id: Seq<char> },
    Configure { node: GraphNode, settings: Seq<PropSettingView> },
    ConfigureMixer,
    ConnectAuxSender,
    ConfigureVideoSource { window_handle: Option<u64>, monitor_index: Option<u32> },
    ConfigureEncoder,
    Add { nodes: Seq<GraphNode>, error: Seq<char> },
    Link { nodes: Seq<GraphNode>, error: Seq<char> },
    LinkVideoChain,
    BuildPreviewBranch,
    LinkPads { from: GraphNode, from_pad: Seq<char>, to: GraphNode, to_pad: Seq<char>, error: Seq<char> },
    RequestMixerPad { error: Seq<char> },
    LinkToMixerPad { node: GraphNode, pad: usize, no_src: Seq<char>, error: Seq<char> },
    AddBusWatch { error: Seq<char> },
    ShareRtcpSocket { src: GraphNode, sink: GraphNode, error: Seq<char> },
    Play { error: Seq<char> },
    AwaitState { error: Seq<char> },
}

impl DeepView for GraphStep {
    type V = GraphStepView;

    open spec fn deep_view(&self) -> GraphStepView {
        match self {
            GraphStep::Make { node, factory, name, error } =>
                GraphStepView::Make { node: *node, factory: factory@, name: name@, error: error@ },
            GraphStep::MakeVideoSource { window_handle } => GraphStepView::MakeVideoSource { window_handle: *window_handle },
            GraphStep::MakeVideoEncoder => GraphStepView::MakeVideoEncoder,
            GraphStep::MakeSystemAudioSource { process_pid } => GraphStepView::MakeSystemAudioSource { process_pid: *process_pid },
            GraphStep::MakeMicSource { device_id } => GraphStepView::MakeMicSource { device_id: device_id@ },
            GraphStep::Configure { node, settings } => GraphStepView::Configure { node: *node, settings: settings.deep_view() },
            GraphStep::ConfigureMixer => GraphStepView::ConfigureMixer,
            GraphStep::ConnectAuxSender => GraphStepView::ConnectAuxSender,
            GraphStep::ConfigureVideoSource { window_handle, monitor_index } =>
                GraphStepView::ConfigureVideoSource { window_handle: *window_handle, monitor_index: *monitor_index },
            GraphStep::ConfigureEncoder => GraphStepView::ConfigureEncoder,
            GraphStep::Add { nodes, error } => GraphStepView::Add { nodes: nodes@, error: error@ },
            GraphStep::Link { nodes, error } => GraphStepView::Link { nodes: nodes@, error: error@ },
            GraphStep::LinkVideoChain => GraphStepView::LinkVideoChain,
            GraphStep::BuildPreviewBranch => GraphStepView::BuildPreviewBranch,
            GraphStep::LinkPads { from, from_pad, to, to_pad, error } =>
                GraphStepView::LinkPads { from: *from, from_pad: from_pad@, to: *to, to_pad: to_pad@, error: error@ },
            GraphStep::RequestMixerPad { error } => GraphStepView::RequestMixerPad { error: error@ },
            GraphStep::LinkToMixerPad { node, pad, no_src, error } =>
                GraphStepView::LinkToMixerPad { node: *node, pad: *pad, no_src: no_src@, error: error@ },
            GraphStep::AddBusWatch { error } => GraphStepView::AddBusWatch { error: error@ },
            GraphStep::ShareRtcpSocket { src, sink, error } => GraphStepView::ShareRtcpSocket { src: *src, sink: *sink, error: error@ },
            GraphStep::Play { error } => GraphStepView::Play { error: error@ },
            GraphStep::AwaitState { error } => GraphStepView::AwaitState { error: error@ },
        }
    }
}

/// The step making `node` from `factory` under `name`.
pub open spec fn make(node: GraphNode, factory: Seq<char>, name: Seq<char>, error: Seq<char>) -> GraphStepView {
    GraphStepView::Make { node, factory, name, error }
}

/// The step setting one caps-typed `caps` property.
pub open spec fn caps_of(node: GraphNode, c: CapsPreset) -> GraphStepView {
    GraphStepView::Configure { node, settings: seq![setting("caps"@, PropValueView::Caps(c))] }
}

/// The step linking `from`'s pad to `to`'s pad.
pub open spec fn pads(from: GraphNode, from_pad: Seq<char>, to: GraphNode, to_pad: Seq<char>, error: Seq<char>) -> GraphStepView {
    GraphStepView::LinkPads { from, from_pad, to, to_pad, error }
}

/// Making and configuring the elements, up to the microphone branch: `rtpbin`,
/// the capture source, the convert/scale/NV12 capsfilter chain, the encoder,
/// its high-profile capsfilter, the payloader and the video sockets, the system
/// audio source and its Opus chain and sockets, then the three capsfilters'
/// caps.
pub open spec fn make_core(window_handle: Option<u64>, process_pid: Option<u32>) -> Seq<GraphStepView> {
    seq![
        make(GraphNode::Rtpbin, "rtpbin"@, "rtpbin"@, "Failed to create rtpbin element"@),
        GraphStepView::MakeVideoSource { window_handle },
        make(GraphNode::VideoConvert, "videoconvert"@, "videoconvert"@, "Failed to create videoconvert element"@),
        make(GraphNode::VideoScale, "videoscale"@, "videoscale"@, "Failed to create videoscale element"@),
        make(GraphNode::VideoCaps, "capsfilter"@, "capsfilter"@, "Failed to create capsfilter element"@),
        GraphStepView::MakeVideoEncoder,
        make(GraphNode::H264Caps, "capsfilter"@, "h264_capsfilter"@, "Failed to create h264 capsfilter element"@),
        make(GraphNode::H264Pay, "rtph264pay"@, "rtph264pay"@, "Failed to create rtph264pay element"@),
        make(GraphNode::RtpSink, "udpsink"@, "rtp_sink"@, "Failed to create udpsink element"@),
        make(GraphNode::RtcpSink, "udpsink"@, "rtcp_sink"@, "Failed to create udpsink element"@),
        make(GraphNode::RtcpSrc, "udpsrc"@, "rtcp_src"@, "Failed to create udpsrc element"@),
        GraphStepView::MakeSystemAudioSource { process_pid },
        make(GraphNode::AudioConvert, "audioconvert"@, "audioconvert"@, "Failed to create audioconvert element"@),
        make(GraphNode::AudioResample, "audioresample"@, "audioresample"@, "Failed to create audioresample element"@),
        make(GraphNode::OpusCaps, "capsfilter"@, "opus_capsfilter"@, "Failed to create opus capsfilter element"@),
        make(GraphNode::OpusEnc, "opusenc"@, "opusenc"@, "Failed to create opusenc element"@),
        make(GraphNode::OpusPay, "rtpopuspay"@, "rtpopuspay"@, "Failed to create rtpopuspay element"@),
        make(GraphNode::AudioRtpSink, "udpsink"@, "audio_rtp_sink"@, "Failed to create audio udpsink element"@),
        make(GraphNode::AudioRtcpSink, "udpsink"@, "audio_rtcp_sink"@, "Failed to create audio rtcp udpsink element"@),
        make(GraphNode::AudioRtcpSrc, "udpsrc"@, "audio_rtcp_src"@, "Failed to create audio rtcp udpsrc element"@),
        caps_of(GraphNode::VideoCaps, CapsPreset::RawNv12Hd60),
        caps_of(GraphNode::H264Caps, CapsPreset::H264High),
        caps_of(GraphNode::OpusCaps, CapsPreset::Audio48kStereo),
    ]
}

/// The microphone branch, made only when a microphone device is given: its
/// source, convert, resample, the mixer-format capsfilter, and the valve, shut
/// when the microphone starts muted or is not enabled.
pub open spec fn make_mic(device_id: Seq<char>, mic_enabled: bool, mic_initially_muted: bool) -> Seq<GraphStepView> {
    seq![
        GraphStepView::MakeMicSource { device_id },
        make(GraphNode::MicConvert, "audioconvert"@, "mic_audioconvert"@, "Failed to create mic audioconvert"@),
        make(GraphNode::MicResample, "audioresample"@, "mic_audioresample"@, "Failed to create mic audioresample"@),
        make(GraphNode::MicCaps, "capsfilter"@, "mic_caps"@, "Failed to create mic capsfilter"@),
        caps_of(GraphNode::MicCaps, CapsPreset::MixerF32Stereo),
        make(GraphNode::MicValve, "valve"@, "mic_valve"@, "Failed to create mic valve element"@),
        GraphStepView::Configure {
            node: GraphNode::MicValve,
            settings: seq![setting("drop"@, PropValueView::Bool(mic_initially_muted || !mic_enabled))],
        },
    ]
}

/// The system audio capsfilter (the mixer format when a microphone is mixed
/// in, else just 48 kHz stereo) and, with a microphone, the mixer.
pub open spec fn make_mixing(mic: bool) -> Seq<GraphStepView> {
    seq![
        make(GraphNode::SysAudioCaps, "capsfilter"@, "sys_audio_caps"@, "Failed to create sys_audio_caps capsfilter"@),
        caps_of(GraphNode::SysAudioCaps, if mic { CapsPreset::MixerF32Stereo } else { CapsPreset::Audio48kStereo }),
    ] + if mic {
        seq![
            make(GraphNode::AudioMixer, "audiomixer"@, "audio_mixer"@, "Failed to create audiomixer element"@),
            GraphStepView::ConfigureMixer,
        ]
    } else {
        seq![]
    }
}

/// Configuring the encoders, payloaders, `rtpbin` and the sockets, then making
/// the two tees and their queues.
pub open spec fn configure_rest(
    video_host: Seq<char>,
    video_rtp_port: u16,
    video_rtcp_port: u16,
    audio_host: Seq<char>,
    audio_rtp_port: u16,
    audio_rtcp_port: u16,
    window_handle: Option<u64>,
    monitor_index: Option<u32>,
) -> Seq<GraphStepView> {
    seq![
        GraphStepView::Configure { node: GraphNode::OpusEnc, settings: opus_encoder() },
        GraphStepView::Configure { node: GraphNode::OpusPay, settings: opus_payloader() },
        GraphStepView::Configure { node: GraphNode::Rtpbin, settings: rtp_bin() },
        GraphStepView::ConnectAuxSender,
        GraphStepView::ConfigureVideoSource { window_handle, monitor_index },
        GraphStepView::ConfigureEncoder,
        GraphStepView::Configure { node: GraphNode::H264Pay, settings: h264_payloader() },
        GraphStepView::Configure { node: GraphNode::RtpSink, settings: udp_sink(video_host, video_rtp_port, 4_194_304) },
        GraphStepView::Configure { node: GraphNode::RtcpSink, settings: udp_sink(video_host, video_rtcp_port, 4_194_304) },
        GraphStepView::Configure { node: GraphNode::RtcpSrc, settings: udp_source(LOCAL_VIDEO_RTCP_PORT, 1_048_576) },
        GraphStepView::Configure { node: GraphNode::AudioRtpSink, settings: udp_sink(audio_host, audio_rtp_port, 262_144) },
        GraphStepView::Configure { node: GraphNode::AudioRtcpSink, settings: udp_sink(audio_host, audio_rtcp_port, 262_144) },
        GraphStepView::Configure { node: GraphNode::AudioRtcpSrc, settings: udp_source(LOCAL_AUDIO_RTCP_PORT, 262_144) },
        make(GraphNode::VideoTee, "tee"@, "video_tee"@, "Failed to create tee element"@),
        make(GraphNode::QueueMain, "queue"@, "queue_main"@, "Failed to create queue_main element"@),
        make(GraphNode::H264Tee, "tee"@, "h264_tee"@, "Failed to create h264_tee element"@),
        make(GraphNode::QueueRtp, "queue"@, "queue_rtp"@, "Failed to create queue_rtp element"@),
    ]
}

/// Everything made and configured before the pipeline is assembled.
pub open spec fn build_steps(
    video_host: Seq<char>,
    video_rtp_port: u16,
    video_rtcp_port: u16,
    audio_host: Seq<char>,
    audio_rtp_port: u16,
    audio_rtcp_port: u16,
    window_handle: Option<u64>,
    process_pid: Option<u32>,
    monitor_index: Option<u32>,
    mic_enabled: bool,
    mic_device_id: Option<Seq<char>>,
    mic_initially_muted: bool,
) -> Seq<GraphStepView> {
    make_core(window_handle, process_pid)
        + (match mic_device_id {
            Some(id) => make_mic(id, mic_enabled, mic_initially_muted),
            None => seq![],
        })
        + make_mixing(mic_device_id is Some)
        + configure_rest(video_host, video_rtp_port, video_rtcp_port, audio_host, audio_rtp_port, audio_rtcp_port,
            window_handle, monitor_index)
}

/// The elements added to the pipeline first, in order.
pub open spec fn base_nodes() -> Seq<GraphNode> {
    seq![
        GraphNode::Rtpbin, GraphNode::VideoSource, GraphNode::VideoTee, GraphNode::QueueMain,
        GraphNode::VideoEncoder, GraphNode::H264Caps, GraphNode::H264Tee, GraphNode::QueueRtp,
        GraphNode::H264Pay, GraphNode::RtpSink, GraphNode::RtcpSink, GraphNode::RtcpSrc,
        GraphNode::SystemAudioSrc, GraphNode::AudioConvert, GraphNode::AudioResample, GraphNode::SysAudioCaps,
        GraphNode::OpusCaps, GraphNode::OpusEnc, GraphNode::OpusPay, GraphNode::AudioRtpSink,
        GraphNode::AudioRtcpSink, GraphNode::AudioRtcpSrc,
    ]
}

/// The microphone branch's elements, in link order.
pub open spec fn mic_nodes() -> Seq<GraphNode> {
    seq![GraphNode::MicSrc, GraphNode::MicConvert, GraphNode::MicResample, GraphNode::MicCaps, GraphNode::MicValve]
}

/// Adding the elements: the base set, then the microphone branch and the mixer
/// when there is a microphone.
pub open spec fn add_steps(mic: bool) -> Seq<GraphStepView> {
    seq![GraphStepView::Add { nodes: base_nodes(), error: "Failed to add elements to pipeline"@ }]
        + if mic {
            seq![
                GraphStepView::Add { nodes: mic_nodes(), error: "Failed to add mic branch to pipeline"@ },
                GraphStepView::Add { nodes: seq![GraphNode::AudioMixer], error: "Failed to add audiomixer to pipeline"@ },
            ]
        } else {
            seq![]
        }
}

/// Linking the video path: capture source into the tee, the tee into the main
/// queue, the encode chain, the encoded-stream tee and its queue into the
/// payloader, the preview branch, and `rtpbin`'s video session (0).
pub open spec fn link_video() -> Seq<GraphStepView> {
    seq![
        GraphStepView::Link { nodes: seq![GraphNode::VideoSource, GraphNode::VideoTee], error: "Failed to link src \u{2192} tee: "@ },
        GraphStepView::Link { nodes: seq![GraphNode::VideoTee, GraphNode::QueueMain], error: "Failed to link tee \u{2192} queue_main: "@ },
        GraphStepView::LinkVideoChain,
        GraphStepView::Link { nodes: seq![GraphNode::H264Caps, GraphNode::H264Tee], error: "Failed to link h264_capsfilter \u{2192} h264_tee: "@ },
        GraphStepView::Link { nodes: seq![GraphNode::H264Tee, GraphNode::QueueRtp], error: "Failed to link h264_tee \u{2192} queue_rtp: "@ },
        GraphStepView::Link { nodes: seq![GraphNode::QueueRtp, GraphNode::H264Pay], error: "Failed to link queue_rtp \u{2192} rtph264pay: "@ },
        GraphStepView::BuildPreviewBranch,
        pads(GraphNode::H264Pay, "src"@, GraphNode::Rtpbin, "send_rtp_sink_0"@, "Failed to link rtph264pay to rtpbin: "@),
        pads(GraphNode::Rtpbin, "send_rtp_src_0"@, GraphNode::RtpSink, "sink"@, "Failed to link rtpbin to rtp_sink: "@),
        pads(GraphNode::Rtpbin, "send_rtcp_src_0"@, GraphNode::RtcpSink, "sink"@, "Failed to link rtpbin to rtcp_sink: "@),
        pads(GraphNode::RtcpSrc, "src"@, GraphNode::Rtpbin, "recv_rtcp_sink_0"@, "Failed to link rtcp_src to rtpbin: "@),
    ]
}

/// Linking the audio path. With a microphone, system audio and microphone each
/// run to their own requested mixer pad, and the mixer's output is converted
/// back to stereo before Opus; without one, system audio runs straight into
/// Opus. Either way Opus rides `rtpbin`'s audio session (1).
pub open spec fn link_audio(mic: bool) -> Seq<GraphStepView> {
    (if mic {
        seq![
            GraphStepView::Link {
                nodes: seq![GraphNode::SystemAudioSrc, GraphNode::AudioConvert, GraphNode::AudioResample, GraphNode::SysAudioCaps],
                error: "Failed to link system audio chain: "@,
            },
            GraphStepView::Link { nodes: mic_nodes(), error: "Failed to link mic audio chain: "@ },
            GraphStepView::RequestMixerPad { error: "audiomixer refused sink request for system audio"@ },
            GraphStepView::RequestMixerPad { error: "audiomixer refused sink request for mic"@ },
            GraphStepView::LinkToMixerPad {
                node: GraphNode::SysAudioCaps, pad: 0, no_src: "sys_audio_caps has no src pad"@,
                error: "Failed to link system audio into mixer: "@,
            },
            GraphStepView::LinkToMixerPad {
                node: GraphNode::MicValve, pad: 1, no_src: "mic_valve has no src pad"@,
                error: "Failed to link mic into mixer: "@,
            },
            make(GraphNode::MixerOutConvert, "audioconvert"@, "mixer_out_convert"@, "Failed to create mixer_out_convert"@),
            GraphStepView::Add { nodes: seq![GraphNode::MixerOutConvert], error: "Failed to add mixer_out_convert to pipeline"@ },
            GraphStepView::Link {
                nodes: seq![GraphNode::AudioMixer, GraphNode::MixerOutConvert, GraphNode::OpusCaps, GraphNode::OpusEnc, GraphNode::OpusPay],
                error: "Failed to link mixer to opus chain: "@,
            },
        ]
    } else {
        seq![
            GraphStepView::Link {
                nodes: seq![GraphNode::SystemAudioSrc, GraphNode::AudioConvert, GraphNode::AudioResample, GraphNode::SysAudioCaps,
                    GraphNode::OpusCaps, GraphNode::OpusEnc, GraphNode::OpusPay],
                error: "Failed to link audio elements: "@,
            },
        ]
    }) + seq![
        pads(GraphNode::OpusPay, "src"@, GraphNode::Rtpbin, "send_rtp_sink_1"@, "Failed to link rtpopuspay to rtpbin: "@),
        pads(GraphNode::Rtpbin, "send_rtp_src_1"@, GraphNode::AudioRtpSink, "sink"@, "Failed to link rtpbin to audio_rtp_sink: "@),
        pads(GraphNode::Rtpbin, "send_rtcp_src_1"@, GraphNode::AudioRtcpSink, "sink"@, "Failed to link rtpbin to audio_rtcp_sink: "@),
        pads(GraphNode::AudioRtcpSrc, "src"@, GraphNode::Rtpbin, "recv_rtcp_sink_1"@, "Failed to link audio_rtcp_src to rtpbin: "@),
    ]
}

/// Assembling the pipeline from the elements made.
pub open spec fn assemble_steps(mic: bool) -> Seq<GraphStepView> {
    add_steps(mic) + link_video() + link_audio(mic)
}

/// Starting the assembled pipeline: watch its bus, share each RTCP socket
/// between its source and sink (video, then audio), set it playing and wait
/// for the state change. A failure to play or to reach the state is reported
/// with the bus's queued errors appended ([`crate::pipeline::drain_bus_errors`]).
pub open spec fn start_steps() -> Seq<GraphStepView> {
    seq![
        GraphStepView::AddBusWatch { error: "Failed to add bus watch"@ },
        GraphStepView::ShareRtcpSocket { src: GraphNode::RtcpSrc, sink: GraphNode::RtcpSink, error: "Failed to set rtcp_src to Ready: "@ },
        GraphStepView::ShareRtcpSocket { src: GraphNode::AudioRtcpSrc, sink: GraphNode::AudioRtcpSink, error: "Failed to set audio_rtcp_src to Ready: "@ },
        GraphStepView::Play { error: "Failed to start pipeline: "@ },
        GraphStepView::AwaitState { error: "Failed to get pipeline state: "@ },
    ]
}

fn push_step(v: &mut Vec<GraphStep>, s: GraphStep)
    ensures
        final(v).deep_view() == old(v).deep_view().push(s.deep_view()),
{
    let ghost before = v.deep_view();
    v.push(s);
    assert(v.deep_view() =~~= before.push(s.deep_view()));
}

fn mk(node: GraphNode, factory: &str, name: &str, error: &str) -> (s: GraphStep)
    ensures
        s.deep_view() == make(node, factory@, name@, error@),
{
    GraphStep::Make { node, factory: String::from_str(factory), name: String::from_str(name), error: String::from_str(error) }
}

fn caps_step(node: GraphNode, c: CapsPreset) -> (s: GraphStep)
    ensures
        s.deep_view() == caps_of(node, c),
{
    let mut settings: Vec<PropSetting> = Vec::new();
    push_setting(&mut settings, set_caps("caps", c));
    assert(settings.deep_view() =~~= seq![setting("caps"@, PropValueView::Caps(c))]);
    GraphStep::Configure { node, settings }
}

fn pads_step(from: GraphNode, from_pad: &str, to: GraphNode, to_pad: &str, error: &str) -> (s: GraphStep)
    ensures
        s.deep_view() == pads(from, from_pad@, to, to_pad@, error@),
{
    GraphStep::LinkPads {
        from,
        from_pad: String::from_str(from_pad),
        to,
        to_pad: String::from_str(to_pad),
        error: String::from_str(error),
    }
}

fn link_step(nodes: Vec<GraphNode>, error: &str) -> (s: GraphStep)
    ensures
        s.deep_view() == (GraphStepView::Link { nodes: nodes@, error: error@ }),
{
    GraphStep::Link { nodes, error: String::from_str(error) }
}

fn add_step(nodes: Vec<GraphNode>, error: &str) -> (s: GraphStep)
    ensures
        s.deep_view() == (GraphStepView::Add { nodes: nodes@, error: error@ }),
{
    GraphStep::Add { nodes, error: String::from_str(error) }
}

fn make_core_steps(v: &mut Vec<GraphStep>, window_handle: Option<u64>, process_pid: Option<u32>)
    ensures
        final(v).deep_view() == old(v).deep_view() + make_core(window_handle, process_pid),
{
    let ghost before = v.deep_view();
    push_step(v, mk(GraphNode::Rtpbin, "rtpbin", "rtpbin", "Failed to create rtpbin element"));
    push_step(v, GraphStep::MakeVideoSource { window_handle });
    push_step(v, mk(GraphNode::VideoConvert, "videoconvert", "videoconvert", "Failed to create videoconvert element"));
    push_step(v, mk(GraphNode::VideoScale, "videoscale", "videoscale", "Failed to create videoscale element"));
    push_step(v, mk(GraphNode::VideoCaps, "capsfilter", "capsfilter", "Failed to create capsfilter element"));
    push_step(v, GraphStep::MakeVideoEncoder);
    push_step(v, mk(GraphNode::H264Caps, "capsfilter", "h264_capsfilter", "Failed to create h264 capsfilter element"));
    push_step(v, mk(GraphNode::H264Pay, "rtph264pay", "rtph264pay", "Failed to create rtph264pay element"));
    push_step(v, mk(GraphNode::RtpSink, "udpsink", "rtp_sink", "Failed to create udpsink element"));
    push_step(v, mk(GraphNode::RtcpSink, "udpsink", "rtcp_sink", "Failed to create udpsink element"));
    push_step(v, mk(GraphNode::RtcpSrc, "udpsrc", "rtcp_src", "Failed to create udpsrc element"));
    push_step(v, GraphStep::MakeSystemAudioSource { process_pid });
    push_step(v, mk(GraphNode::AudioConvert, "audioconvert", "audioconvert", "Failed to create audioconvert element"));
    push_step(v, mk(GraphNode::AudioResample, "audioresample", "audioresample", "Failed to create audioresample element"));
    push_step(v, mk(GraphNode::OpusCaps, "capsfilter", "opus_capsfilter", "Failed to create opus capsfilter element"));
    push_step(v, mk(GraphNode::OpusEnc, "opusenc", "opusenc", "Failed to create opusenc element"));
    push_step(v, mk(GraphNode::OpusPay, "rtpopuspay", "rtpopuspay", "Failed to create rtpopuspay element"));
    push_step(v, mk(GraphNode::AudioRtpSink, "udpsink", "audio_rtp_sink", "Failed to create audio udpsink element"));
    push_step(v, mk(GraphNode::AudioRtcpSink, "udpsink", "audio_rtcp_sink", "Failed to create audio rtcp udpsink element"));
    push_step(v, mk(GraphNode::AudioRtcpSrc, "udpsrc", "audio_rtcp_src", "Failed to create audio rtcp udpsrc element"));
    push_step(v, caps_step(GraphNode::VideoCaps, CapsPreset::RawNv12Hd60));
    push_step(v, caps_step(GraphNode::H264Caps, CapsPreset::H264High));
    push_step(v, caps_step(GraphNode::OpusCaps, CapsPreset::Audio48kStereo));
    assert(v.deep_view() =~~= before + make_core(window_handle, process_pid));
}

fn make_mic_steps(v: &mut Vec<GraphStep>, device_id: &str, mic_enabled: bool, mic_initially_muted: bool)
    ensures
        final(v).deep_view() == old(v).deep_view() + make_mic(device_id@, mic_enabled, mic_initially_muted),
{
    let ghost before = v.deep_view();
    push_step(v, GraphStep::MakeMicSource { device_id: String::from_str(device_id) });
    push_step(v, mk(GraphNode::MicConvert, "audioconvert", "mic_audioconvert", "Failed to create mic audioconvert"));
    push_step(v, mk(GraphNode::MicResample, "audioresample", "mic_audioresample", "Failed to create mic audioresample"));
    push_step(v, mk(GraphNode::MicCaps, "capsfilter", "mic_caps", "Failed to create mic capsfilter"));
    push_step(v, caps_step(GraphNode::MicCaps, CapsPreset::MixerF32Stereo));
    push_step(v, mk(GraphNode::MicValve, "valve", "mic_valve", "Failed to create mic valve element"));
    let mut drop: Vec<PropSetting> = Vec::new();
    push_setting(&mut drop, set_bool("drop", mic_initially_muted || !mic_enabled));
    assert(drop.deep_view() =~~= seq![setting("drop"@, PropValueView::Bool(mic_initially_muted || !mic_enabled))]);
    push_step(v, GraphStep::Configure { node: GraphNode::MicValve, settings: drop });
    assert(v.deep_view() =~~= before + make_mic(device_id@, mic_enabled, mic_initially_muted));
}

fn make_mixing_steps(v: &mut Vec<GraphStep>, mic: bool)
    ensures
        final(v).deep_view() == old(v).deep_view() + make_mixing(mic),
{
    let ghost before = v.deep_view();
    push_step(v, mk(GraphNode::SysAudioCaps, "capsfilter", "sys_audio_caps", "Failed to create sys_audio_caps capsfilter"));
    push_step(v, caps_step(GraphNode::SysAudioCaps, if mic { CapsPreset::MixerF32Stereo } else { CapsPreset::Audio48kStereo }));
    if mic {
        push_step(v, mk(GraphNode::AudioMixer, "audiomixer", "audio_mixer", "Failed to create audiomixer element"));
        push_step(v, GraphStep::ConfigureMixer);
    }
    assert(v.deep_view() =~~= before + make_mixing(mic));
}

fn configure_rest_steps(
    v: &mut Vec<GraphStep>,
    video_host: &str,
    video_rtp_port: u16,
    video_rtcp_port: u16,
    audio_host: &str,
    audio_rtp_port: u16,
    audio_rtcp_port: u16,
    window_handle: Option<u64>,
    monitor_index: Option<u32>,
)
    ensures
        final(v).deep_view() == old(v).deep_view() + configure_rest(video_host@, video_rtp_port, video_rtcp_port,
            audio_host@, audio_rtp_port, audio_rtcp_port, window_handle, monitor_index),
{
    let ghost before = v.deep_view();
    let net: NetworkPlan = network_settings(video_host, video_rtp_port, video_rtcp_port, audio_host, audio_rtp_port, audio_rtcp_port);
    push_step(v, GraphStep::Configure { node: GraphNode::OpusEnc, settings: opusenc_settings() });
    push_step(v, GraphStep::Configure { node: GraphNode::OpusPay, settings: crate::pipeline::rtpopuspay_settings() });
    push_step(v, GraphStep::Configure { node: GraphNode::Rtpbin, settings: rtpbin_settings() });
    push_step(v, GraphStep::ConnectAuxSender);
    push_step(v, GraphStep::ConfigureVideoSource { window_handle, monitor_index });
    push_step(v, GraphStep::ConfigureEncoder);
    push_step(v, GraphStep::Configure { node: GraphNode::H264Pay, settings: rtph264pay_settings() });
    push_step(v, GraphStep::Configure { node: GraphNode::RtpSink, settings: net.rtp_sink });
    push_step(v, GraphStep::Configure { node: GraphNode::RtcpSink, settings: net.rtcp_sink });
    push_step(v, GraphStep::Configure { node: GraphNode::RtcpSrc, settings: net.rtcp_src });
    push_step(v, GraphStep::Configure { node: GraphNode::AudioRtpSink, settings: net.audio_rtp_sink });
    push_step(v, GraphStep::Configure { node: GraphNode::AudioRtcpSink, settings: net.audio_rtcp_sink });
    push_step(v, GraphStep::Configure { node: GraphNode::AudioRtcpSrc, settings: net.audio_rtcp_src });
    push_step(v, mk(GraphNode::VideoTee, "tee", "video_tee", "Failed to create tee element"));
    push_step(v, mk(GraphNode::QueueMain, "queue", "queue_main", "Failed to create queue_main element"));
    push_step(v, mk(GraphNode::H264Tee, "tee", "h264_tee", "Failed to create h264_tee element"));
    push_step(v, mk(GraphNode::QueueRtp, "queue", "queue_rtp", "Failed to create queue_rtp element"));
    assert(v.deep_view() =~~= before + configure_rest(video_host@, video_rtp_port, video_rtcp_port,
        audio_host@, audio_rtp_port, audio_rtcp_port, window_handle, monitor_index));
}

fn base_node_list() -> (v: Vec<GraphNode>)
    ensures
        v@ == base_nodes(),
{
    let v = vec![
        GraphNode::Rtpbin, GraphNode::VideoSource, GraphNode::VideoTee, GraphNode::QueueMain,
        GraphNode::VideoEncoder, GraphNode::H264Caps, GraphNode::H264Tee, GraphNode::QueueRtp,
        GraphNode::H264Pay, GraphNode::RtpSink, GraphNode::RtcpSink, GraphNode::RtcpSrc,
        GraphNode::SystemAudioSrc, GraphNode::AudioConvert, GraphNode::AudioResample, GraphNode::SysAudioCaps,
        GraphNode::OpusCaps, GraphNode::OpusEnc, GraphNode::OpusPay, GraphNode::AudioRtpSink,
        GraphNode::AudioRtcpSink, GraphNode::AudioRtcpSrc,
    ];
    assert(v@ =~= base_nodes());
    v
}

fn mic_node_list() -> (v: Vec<GraphNode>)
    ensures
        v@ == mic_nodes(),
{
    let v = vec![GraphNode::MicSrc, GraphNode::MicConvert, GraphNode::MicResample, GraphNode::MicCaps, GraphNode::MicValve];
    assert(v@ =~= mic_nodes());
    v
}

fn add_and_link_video_steps(v: &mut Vec<GraphStep>, mic: bool)
    ensures
        final(v).deep_view() == old(v).deep_view() + add_steps(mic) + link_video(),
{
    let ghost before = v.deep_view();
    push_step(v, add_step(base_node_list(), "Failed to add elements to pipeline"));
    if mic {
        push_step(v, add_step(mic_node_list(), "Failed to add mic branch to pipeline"));
        let mixer = vec![GraphNode::AudioMixer];
        assert(mixer@ =~= seq![GraphNode::AudioMixer]);
        push_step(v, add_step(mixer, "Failed to add audiomixer to pipeline"));
        assert(v.deep_view() =~~= before + add_steps(mic));
    } else {
        assert(v.deep_view() =~~= before + add_steps(mic));
    }
    let ghost mid = v.deep_view();
    push_step(v, link_step(vec![GraphNode::VideoSource, GraphNode::VideoTee], "Failed to link src \u{2192} tee: "));
    push_step(v, link_step(vec![GraphNode::VideoTee, GraphNode::QueueMain], "Failed to link tee \u{2192} queue_main: "));
    push_step(v, GraphStep::LinkVideoChain);
    push_step(v, link_step(vec![GraphNode::H264Caps, GraphNode::H264Tee], "Failed to link h264_capsfilter \u{2192} h264_tee: "));
    push_step(v, link_step(vec![GraphNode::H264Tee, GraphNode::QueueRtp], "Failed to link h264_tee \u{2192} queue_rtp: "));
    push_step(v, link_step(vec![GraphNode::QueueRtp, GraphNode::H264Pay], "Failed to link queue_rtp \u{2192} rtph264pay: "));
    push_step(v, GraphStep::BuildPreviewBranch);
    push_step(v, pads_step(GraphNode::H264Pay, "src", GraphNode::Rtpbin, "send_rtp_sink_0", "Failed to link rtph264pay to rtpbin: "));
    push_step(v, pads_step(GraphNode::Rtpbin, "send_rtp_src_0", GraphNode::RtpSink, "sink", "Failed to link rtpbin to rtp_sink: "));
    push_step(v, pads_step(GraphNode::Rtpbin, "send_rtcp_src_0", GraphNode::RtcpSink, "sink", "Failed to link rtpbin to rtcp_sink: "));
    push_step(v, pads_step(GraphNode::RtcpSrc, "src", GraphNode::Rtpbin, "recv_rtcp_sink_0", "Failed to link rtcp_src to rtpbin: "));
    assert(v.deep_view() =~~= mid + link_video());
}

fn link_audio_steps(v: &mut Vec<GraphStep>, mic: bool)
    ensures
        final(v).deep_view() == old(v).deep_view() + link_audio(mic),
{
    let ghost before = v.deep_view();
    if mic {
        push_step(v, link_step(
            vec![GraphNode::SystemAudioSrc, GraphNode::AudioConvert, GraphNode::AudioResample, GraphNode::SysAudioCaps],
            "Failed to link system audio chain: ",
        ));
        push_step(v, link_step(mic_node_list(), "Failed to link mic audio chain: "));
        push_step(v, GraphStep::RequestMixerPad { error: String::from_str("audiomixer refused sink request for system audio") });
        push_step(v, GraphStep::RequestMixerPad { error: String::from_str("audiomixer refused sink request for mic") });
        push_step(v, GraphStep::LinkToMixerPad {
            node: GraphNode::SysAudioCaps,
            pad: 0,
            no_src: String::from_str("sys_audio_caps has no src pad"),
            error: String::from_str("Failed to link system audio into mixer: "),
        });
        push_step(v, GraphStep::LinkToMixerPad {
            node: GraphNode::MicValve,
            pad: 1,
            no_src: String::from_str("mic_valve has no src pad"),
            error: String::from_str("Failed to link mic into mixer: "),
        });
        push_step(v, mk(GraphNode::MixerOutConvert, "audioconvert", "mixer_out_convert", "Failed to create mixer_out_convert"));
        let moc = vec![GraphNode::MixerOutConvert];
        assert(moc@ =~= seq![GraphNode::MixerOutConvert]);
        push_step(v, add_step(moc, "Failed to add mixer_out_convert to pipeline"));
        push_step(v, link_step(
            vec![GraphNode::AudioMixer, GraphNode::MixerOutConvert, GraphNode::OpusCaps, GraphNode::OpusEnc, GraphNode::OpusPay],
            "Failed to link mixer to opus chain: ",
        ));
    } else {
        push_step(v, link_step(
            vec![GraphNode::SystemAudioSrc, GraphNode::AudioConvert, GraphNode::AudioResample, GraphNode::SysAudioCaps,
                GraphNode::OpusCaps, GraphNode::OpusEnc, GraphNode::OpusPay],
            "Failed to link audio elements: ",
        ));
    }
    push_step(v, pads_step(GraphNode::OpusPay, "src", GraphNode::Rtpbin, "send_rtp_sink_1", "Failed to link rtpopuspay to rtpbin: "));
    push_step(v, pads_step(GraphNode::Rtpbin, "send_rtp_src_1", GraphNode::AudioRtpSink, "sink", "Failed to link rtpbin to audio_rtp_sink: "));
    push_step(v, pads_step(GraphNode::Rtpbin, "send_rtcp_src_1", GraphNode::AudioRtcpSink, "sink", "Failed to link rtpbin to audio_rtcp_sink: "));
    push_step(v, pads_step(GraphNode::AudioRtcpSrc, "src", GraphNode::Rtpbin, "recv_rtcp_sink_1", "Failed to link audio_rtcp_src to rtpbin: "));
    assert(v.deep_view() =~~= before + link_audio(mic));
}

/// The steps that make and configure every element of a stream to the given
/// hosts and ports, from the given capture source, system audio process and
/// optional microphone.
pub fn build_plan(
    video_host: &str,
    video_rtp_port: u16,
    video_rtcp_port: u16,
    audio_host: &str,
    audio_rtp_port: u16,
    audio_rtcp_port: u16,
    window_handle: Option<u64>,
    process_pid: Option<u32>,
    monitor_index: Option<u32>,
    mic_enabled: bool,
    mic_device_id: &Option<String>,
    mic_initially_muted: bool,
) -> (v: Vec<GraphStep>)
    ensures
        v.deep_view() == build_steps(video_host@, video_rtp_port, video_rtcp_port, audio_host@, audio_rtp_port,
            audio_rtcp_port, window_handle, process_pid, monitor_index, mic_enabled,
            match mic_device_id { Some(id) => Some(id@), None => None }, mic_initially_muted),
{
    let mut v: Vec<GraphStep> = Vec::new();
    make_core_steps(&mut v, window_handle, process_pid);
    let ghost after_core = v.deep_view();
    match mic_device_id {
        Some(id) => make_mic_steps(&mut v, id.as_str(), mic_enabled, mic_initially_muted),
        None => {},
    }
    let ghost after_mic = v.deep_view();
    make_mixing_steps(&mut v, mic_device_id.is_some());
    configure_rest_steps(&mut v, video_host, video_rtp_port, video_rtcp_port, audio_host, audio_rtp_port,
        audio_rtcp_port, window_handle, monitor_index);
    assert(v.deep_view() =~~= build_steps(video_host@, video_rtp_port, video_rtcp_port, audio_host@, audio_rtp_port,
        audio_rtcp_port, window_handle, process_pid, monitor_index, mic_enabled,
        match mic_device_id { Some(id) => Some(id@), None => None }, mic_initially_muted));
    v
}

/// The steps that add the elements to the pipeline and link them, with or
/// without a microphone.
pub fn assemble_plan(mic: bool) -> (v: Vec<GraphStep>)
    ensures
        v.deep_view() == assemble_steps(mic),
{
    let mut v: Vec<GraphStep> = Vec::new();
    add_and_link_video_steps(&mut v, mic);
    link_audio_steps(&mut v, mic);
    assert(v.deep_view() =~~= assemble_steps(mic));
    v
}

/// The steps that start the assembled pipeline.
pub fn start_plan() -> (v: Vec<GraphStep>)
    ensures
        v.deep_view() == start_steps(),
{
    let mut v: Vec<GraphStep> = Vec::new();
    push_step(&mut v, GraphStep::AddBusWatch { error: String::from_str("Failed to add bus watch") });
    push_step(&mut v, GraphStep::ShareRtcpSocket {
        src: GraphNode::RtcpSrc,
        sink: GraphNode::RtcpSink,
        error: String::from_str("Failed to set rtcp_src to Ready: "),
    });
    push_step(&mut v, GraphStep::ShareRtcpSocket {
        src: GraphNode::AudioRtcpSrc,
        sink: GraphNode::AudioRtcpSink,
        error: String::from_str("Failed to set audio_rtcp_src to Ready: "),
    });
    push_step(&mut v, GraphStep::Play { error: String::from_str("Failed to start pipeline: ") });
    push_step(&mut v, GraphStep::AwaitState { error: String::from_str("Failed to get pipeline state: ") });
    assert(v.deep_view() =~~= start_steps());
    v
}

/// The name of an element of the audio path, as the plan names it when it
/// makes it; `None` for the elements of the video path and `rtpbin`.
pub open spec fn audio_element_name(n: GraphNode) -> Option<Seq<char>> {
    match n {
        GraphNode::SystemAudioSrc => Some("system_audio_src"@),
        GraphNode::AudioConvert => Some("audioconvert"@),
        GraphNode::AudioResample => Some("audioresample"@),
        GraphNode::SysAudioCaps => Some("sys_audio_caps"@),
        GraphNode::MicSrc => Some("mic_src"@),
        GraphNode::MicConvert => Some("mic_audioconvert"@),
        GraphNode::MicResample => Some("mic_audioresample"@),
        GraphNode::MicCaps => Some("mic_caps"@),
        GraphNode::MicValve => Some("mic_valve"@),
        GraphNode::AudioMixer => Some("audio_mixer"@),
        GraphNode::MixerOutConvert => Some("mixer_out_convert"@),
        GraphNode::OpusCaps => Some("opus_capsfilter"@),
        GraphNode::OpusEnc => Some("opusenc"@),
        GraphNode::OpusPay => Some("rtpopuspay"@),
        GraphNode::AudioRtpSink => Some("audio_rtp_sink"@),
        GraphNode::AudioRtcpSink => Some("audio_rtcp_sink"@),
        GraphNode::AudioRtcpSrc => Some("audio_rtcp_src"@),
        _ => None,
    }
}

/// The audio teardown after an audio source fails removes, by name, every
/// element of the audio path the plan makes, the converter behind the mixer
/// included, and nothing else: each name on the teardown list is the name of
/// an element of the audio path.
pub proof fn audio_teardown_covers_audio_path(n: GraphNode)
    ensures
        audio_element_name(n) is Some ==> audio_chain_names().contains(audio_element_name(n).unwrap()),
        forall|k: int| #![trigger audio_chain_names()[k]] 0 <= k < audio_chain_names().len() ==> exists|m: GraphNode|
            #[trigger] audio_element_name(m) == Some(audio_chain_names()[k]),
{
    let names = audio_chain_names();
    match n {
        GraphNode::SystemAudioSrc => assert(names[0] == audio_element_name(n).unwrap()),
        GraphNode::AudioConvert => assert(names[1] == audio_element_name(n).unwrap()),
        GraphNode::AudioResample => assert(names[2] == audio_element_name(n).unwrap()),
        GraphNode::SysAudioCaps => assert(names[3] == audio_element_name(n).unwrap()),
        GraphNode::MicSrc => assert(names[4] == audio_element_name(n).unwrap()),
        GraphNode::MicConvert => assert(names[5] == audio_element_name(n).unwrap()),
        GraphNode::MicResample => assert(names[6] == audio_element_name(n).unwrap()),
        GraphNode::MicCaps => assert(names[7] == audio_element_name(n).unwrap()),
        GraphNode::MicValve => assert(names[8] == audio_element_name(n).unwrap()),
        GraphNode::AudioMixer => assert(names[9] == audio_element_name(n).unwrap()),
        GraphNode::MixerOutConvert => assert(names[10] == audio_element_name(n).unwrap()),
        GraphNode::OpusCaps => assert(names[11] == audio_element_name(n).unwrap()),
        GraphNode::OpusEnc => assert(names[12] == audio_element_name(n).unwrap()),
        GraphNode::OpusPay => assert(names[13] == audio_element_name(n).unwrap()),
        GraphNode::AudioRtpSink => assert(names[14] == audio_element_name(n).unwrap()),
        GraphNode::AudioRtcpSink => assert(names[15] == audio_element_name(n).unwrap()),
        GraphNode::AudioRtcpSrc => assert(names[16] == audio_element_name(n).unwrap()),
        _ => {},
    }
    assert forall|k: int| #![trigger names[k]] 0 <= k < names.len() implies exists|m: GraphNode|
        #[trigger] audio_element_name(m) == Some(names[k]) by {
        if k == 0 { assert(audio_element_name(GraphNode::SystemAudioSrc) == Some(names[k])); }
        else if k == 1 { assert(audio_element_name(GraphNode::AudioConvert) == Some(names[k])); }
        else if k == 2 { assert(audio_element_name(GraphNode::AudioResample) == Some(names[k])); }
        else if k == 3 { assert(audio_element_name(GraphNode::SysAudioCaps) == Some(names[k])); }
        else if k == 4 { assert(audio_element_name(GraphNode::MicSrc) == Some(names[k])); }
        else if k == 5 { assert(audio_element_name(GraphNode::MicConvert) == Some(names[k])); }
        else if k == 6 { assert(audio_element_name(GraphNode::MicResample) == Some(names[k])); }
        else if k == 7 { assert(audio_element_name(GraphNode::MicCaps) == Some(names[k])); }
        else if k == 8 { assert(audio_element_name(GraphNode::MicValve) == Some(names[k])); }
        else if k == 9 { assert(audio_element_name(GraphNode::AudioMixer) == Some(names[k])); }
        else if k == 10 { assert(audio_element_name(GraphNode::MixerOutConvert) == Some(names[k])); }
        else if k == 11 { assert(audio_element_name(GraphNode::OpusCaps) == Some(names[k])); }
        else if k == 12 { assert(audio_element_name(GraphNode::OpusEnc) == Some(names[k])); }
        else if k == 13 { assert(audio_element_name(GraphNode::OpusPay) == Some(names[k])); }
        else if k == 14 { assert(audio_element_name(GraphNode::AudioRtpSink) == Some(names[k])); }
        else if k == 15 { assert(audio_element_name(GraphNode::AudioRtcpSink) == Some(names[k])); }
        else { assert(audio_element_name(GraphNode::AudioRtcpSrc) == Some(names[k])); }
    }
}

} // verus!

verus! {

/// The elements of a list, as a set.
pub open spec fn node_set(ns: Seq<GraphNode>) -> Set<GraphNode>
    decreases ns.len(),
{
    if ns.len() == 0 { set![] } else { node_set(ns.drop_last()).insert(ns.last()) }
}

/// The elements a step makes.
pub open spec fn made_by(s: GraphStepView) -> Set<GraphNode> {
    match s {
        GraphStepView::Make { node, .. } => set![node],
        GraphStepView::MakeVideoSource { .. } => set![GraphNode::VideoSource],
        GraphStepView::MakeVideoEncoder => set![GraphNode::VideoEncoder],
        GraphStepView::MakeSystemAudioSource { .. } => set![GraphNode::SystemAudioSrc],
        GraphStepView::MakeMicSource { .. } => set![GraphNode::MicSrc],
        _ => set![],
    }
}

/// The elements a step configures or adds, which must have been made.
pub open spec fn uses_made(s: GraphStepView) -> Set<GraphNode> {
    match s {
        GraphStepView::Configure { node, .. } => set![node],
        GraphStepView::ConfigureMixer => set![GraphNode::AudioMixer],
        GraphStepView::ConnectAuxSender => set![GraphNode::Rtpbin],
        GraphStepView::ConfigureVideoSource { .. } => set![GraphNode::VideoSource],
        GraphStepView::ConfigureEncoder => set![GraphNode::VideoEncoder],
        GraphStepView::Add { nodes, .. } => node_set(nodes),
        _ => set![],
    }
}

/// The elements a step adds to the pipeline.
pub open spec fn added_by(s: GraphStepView) -> Set<GraphNode> {
    match s {
        GraphStepView::Add { nodes, .. } => node_set(nodes),
        _ => set![],
    }
}

/// The elements of the pipeline a step links or otherwise works on inside
/// the pipeline, which must have been added.
pub open spec fn uses_added(s: GraphStepView) -> Set<GraphNode> {
    match s {
        GraphStepView::Link { nodes, .. } => node_set(nodes),
        GraphStepView::LinkVideoChain => set![GraphNode::QueueMain, GraphNode::VideoEncoder, GraphNode::H264Caps],
        GraphStepView::BuildPreviewBranch => set![GraphNode::VideoTee],
        GraphStepView::LinkPads { from, to, .. } => set![from, to],
        GraphStepView::RequestMixerPad { .. } => set![GraphNode::AudioMixer],
        GraphStepView::LinkToMixerPad { node, .. } => set![node, GraphNode::AudioMixer],
        GraphStepView::ShareRtcpSocket { src, sink, .. } => set![src, sink],
        _ => set![],
    }
}

/// Runs the steps from position `i` on, after the elements `made` were made
/// and `added` were added: `None` as soon as a step makes or adds an element
/// twice, configures or adds an element not made yet, or works on an element
/// not added yet; otherwise the elements made and added by the end.
pub open spec fn run_from(steps: Seq<GraphStepView>, i: nat, made: Set<GraphNode>, added: Set<GraphNode>)
    -> Option<(Set<GraphNode>, Set<GraphNode>)>
    decreases steps.len() - i,
{
    if i >= steps.len() {
        Some((made, added))
    } else {
        let s = steps[i as int];
        if made_by(s).disjoint(made) && uses_made(s).subset_of(made) && added_by(s).disjoint(added)
            && uses_added(s).subset_of(added) {
            run_from(steps, i + 1, made + made_by(s), added + added_by(s))
        } else {
            None
        }
    }
}

/// Running `a + b` from a position past `a` runs `b` from the matching position.
proof fn run_shift(a: Seq<GraphStepView>, b: Seq<GraphStepView>, j: nat, made: Set<GraphNode>, added: Set<GraphNode>)
    ensures
        run_from(a + b, a.len() + j, made, added) == run_from(b, j, made, added),
    decreases b.len() - j,
{
    if j < b.len() {
        assert((a + b)[a.len() + j as int] == b[j as int]);
        let s = b[j as int];
        run_shift(a, b, j + 1, made + made_by(s), added + added_by(s));
        assert(a.len() + j + 1 == a.len() + (j + 1));
    }
}

/// Running `a + b` runs `a`, then `b` from where `a` left off.
proof fn run_concat(a: Seq<GraphStepView>, b: Seq<GraphStepView>, i: nat, made: Set<GraphNode>, added: Set<GraphNode>)
    requires
        i <= a.len(),
    ensures
        run_from(a + b, i, made, added) == (match run_from(a, i, made, added) {
            Some((m, d)) => run_from(b, 0, m, d),
            None => None,
        }),
    decreases a.len() - i,
{
    if i == a.len() {
        run_shift(a, b, 0, made, added);
    } else {
        assert((a + b)[i as int] == a[i as int]);
        let s = a[i as int];
        run_concat(a, b, i + 1, made + made_by(s), added + added_by(s));
    }
}

/// The elements made by [`make_core`].
pub open spec fn core_nodes() -> Set<GraphNode> {
    set![
        GraphNode::Rtpbin, GraphNode::VideoSource, GraphNode::VideoConvert, GraphNode::VideoScale, GraphNode::VideoCaps,
        GraphNode::VideoEncoder, GraphNode::H264Caps, GraphNode::H264Pay, GraphNode::RtpSink, GraphNode::RtcpSink,
        GraphNode::RtcpSrc, GraphNode::SystemAudioSrc, GraphNode::AudioConvert, GraphNode::AudioResample,
        GraphNode::OpusCaps, GraphNode::OpusEnc, GraphNode::OpusPay, GraphNode::AudioRtpSink, GraphNode::AudioRtcpSink,
        GraphNode::AudioRtcpSrc,
    ]
}

/// The elements made by the build steps, with or without a microphone.
pub open spec fn built_nodes(mic: bool) -> Set<GraphNode> {
    core_nodes()
        + (if mic { node_set(mic_nodes()).insert(GraphNode::AudioMixer) } else { set![] })
        + set![GraphNode::SysAudioCaps, GraphNode::VideoTee, GraphNode::QueueMain, GraphNode::H264Tee, GraphNode::QueueRtp]
}

/// The elements added by the assembly steps, with or without a microphone.
pub open spec fn assembled_nodes(mic: bool) -> Set<GraphNode> {
    node_set(base_nodes()) + (if mic { node_set(mic_nodes()) + set![GraphNode::AudioMixer, GraphNode::MixerOutConvert] } else { set![] })
}

/// The core of the build runs cleanly and makes [`core_nodes`].
#[verifier::rlimit(100)]
proof fn core_runs(w: Option<u64>, p: Option<u32>)
    ensures
        run_from(make_core(w, p), 0, set![], set![]) == Some((core_nodes(), Set::<GraphNode>::empty())),
{
    reveal_with_fuel(run_from, 25);
    assert(run_from(make_core(w, p), 0, set![], set![]) matches Some((m, a)) && m =~= core_nodes() && a =~= set![]);
}

/// The elements made once the microphone branch (if any) is made.
pub open spec fn after_mic(mic: bool) -> Set<GraphNode> {
    core_nodes() + (if mic { node_set(mic_nodes()) } else { set![] })
}

/// The elements made once the mixing elements are made.
pub open spec fn after_mixing(mic: bool) -> Set<GraphNode> {
    after_mic(mic) + (if mic { set![GraphNode::SysAudioCaps, GraphNode::AudioMixer] } else { set![GraphNode::SysAudioCaps] })
}

/// The elements made once everything is built, and added once assembled.
pub open spec fn final_nodes(mic: bool) -> (Set<GraphNode>, Set<GraphNode>) {
    (built_nodes(mic) + (if mic { set![GraphNode::MixerOutConvert] } else { set![] }), assembled_nodes(mic))
}

/// The microphone branch runs cleanly after the core.
#[verifier::rlimit(100)]
proof fn mic_runs(id: Seq<char>, e: bool, mu: bool)
    ensures
        run_from(make_mic(id, e, mu), 0, core_nodes(), set![]) == Some((after_mic(true), Set::<GraphNode>::empty())),
{
    reveal_with_fuel(run_from, 10);
    reveal_with_fuel(node_set, 6);
    assert(run_from(make_mic(id, e, mu), 0, core_nodes(), set![]) matches Some((m, a))
        && m =~= after_mic(true) && a =~= set![]);
}

/// The mixing elements run cleanly after the microphone branch (if any).
#[verifier::rlimit(100)]
proof fn mixing_runs(mic: bool)
    ensures
        run_from(make_mixing(mic), 0, after_mic(mic), set![]) == Some((after_mixing(mic), Set::<GraphNode>::empty())),
{
    reveal_with_fuel(run_from, 6);
    reveal_with_fuel(node_set, 6);
    assert(run_from(make_mixing(mic), 0, after_mic(mic), set![]) matches Some((m, a))
        && m =~= after_mixing(mic) && a =~= set![]);
}

/// The rest of the build runs cleanly and completes [`built_nodes`].
#[verifier::rlimit(100)]
proof fn rest_runs(vh: Seq<char>, a: u16, b: u16, ah: Seq<char>, c: u16, d: u16, w: Option<u64>, m: Option<u32>, mic: bool)
    ensures
        run_from(configure_rest(vh, a, b, ah, c, d, w, m), 0, after_mixing(mic), set![])
            == Some((built_nodes(mic), Set::<GraphNode>::empty())),
{
    reveal_with_fuel(run_from, 20);
    reveal_with_fuel(node_set, 6);
    assert(run_from(configure_rest(vh, a, b, ah, c, d, w, m), 0, after_mixing(mic), set![]) matches Some((made, added))
        && made =~= built_nodes(mic) && added =~= set![]);
}

/// The assembly runs cleanly on what was built.
#[verifier::rlimit(100)]
proof fn assemble_runs(mic: bool)
    ensures
        run_from(assemble_steps(mic), 0, built_nodes(mic), set![]) == Some(final_nodes(mic)),
{
    reveal_with_fuel(run_from, 30);
    reveal_with_fuel(node_set, 25);
    assert(run_from(assemble_steps(mic), 0, built_nodes(mic), set![]) matches Some((made, added))
        && made =~= final_nodes(mic).0 && added =~= final_nodes(mic).1);
}

/// Starting runs cleanly on what was assembled and changes neither set.
#[verifier::rlimit(100)]
proof fn start_runs(mic: bool)
    ensures
        run_from(start_steps(), 0, final_nodes(mic).0, final_nodes(mic).1) == Some(final_nodes(mic)),
{
    reveal_with_fuel(run_from, 7);
    reveal_with_fuel(node_set, 25);
    assert(run_from(start_steps(), 0, final_nodes(mic).0, final_nodes(mic).1) matches Some((made, added))
        && made =~= final_nodes(mic).0 && added =~= final_nodes(mic).1);
}

/// The whole plan for a stream: build, assemble, start.
pub open spec fn pipeline_steps(
    video_host: Seq<char>,
    video_rtp_port: u16,
    video_rtcp_port: u16,
    audio_host: Seq<char>,
    audio_rtp_port: u16,
    audio_rtcp_port: u16,
    window_handle: Option<u64>,
    process_pid: Option<u32>,
    monitor_index: Option<u32>,
    mic_enabled: bool,
    mic_device_id: Option<Seq<char>>,
    mic_initially_muted: bool,
) -> Seq<GraphStepView> {
    build_steps(video_host, video_rtp_port, video_rtcp_port, audio_host, audio_rtp_port, audio_rtcp_port,
        window_handle, process_pid, monitor_index, mic_enabled, mic_device_id, mic_initially_muted)
        + assemble_steps(mic_device_id is Some) + start_steps()
}

/// Whatever the hosts, ports, sources and microphone, the plan makes each
/// element once, before configuring it or adding it to the pipeline, and adds
/// each element once, before linking it or otherwise working on it inside the
/// pipeline; by the end it has made and added exactly the elements of
/// [`final_nodes`] (the microphone branch, the mixer and the converter behind
/// it only when a microphone is given).
pub proof fn plan_makes_and_adds_before_use(
    video_host: Seq<char>,
    video_rtp_port: u16,
    video_rtcp_port: u16,
    audio_host: Seq<char>,
    audio_rtp_port: u16,
    audio_rtcp_port: u16,
    window_handle: Option<u64>,
    process_pid: Option<u32>,
    monitor_index: Option<u32>,
    mic_enabled: bool,
    mic_device_id: Option<Seq<char>>,
    mic_initially_muted: bool,
)
    ensures
        run_from(
            pipeline_steps(video_host, video_rtp_port, video_rtcp_port, audio_host, audio_rtp_port, audio_rtcp_port,
                window_handle, process_pid, monitor_index, mic_enabled, mic_device_id, mic_initially_muted),
            0,
            set![],
            set![],
        ) == Some(final_nodes(mic_device_id is Some)),
{
    let mic = mic_device_id is Some;
    let core = make_core(window_handle, process_pid);
    let mic_part = match mic_device_id {
        Some(id) => make_mic(id, mic_enabled, mic_initially_muted),
        None => seq![],
    };
    let mixing = make_mixing(mic);
    let rest = configure_rest(video_host, video_rtp_port, video_rtcp_port, audio_host, audio_rtp_port, audio_rtcp_port,
        window_handle, monitor_index);
    let t = core + mic_part;
    let u = t + mixing;
    let r = u + rest;
    let q = r + assemble_steps(mic);
    let empty = Set::<GraphNode>::empty();

    core_runs(window_handle, process_pid);
    run_concat(core, mic_part, 0, set![], set![]);
    match mic_device_id {
        Some(id) => mic_runs(id, mic_enabled, mic_initially_muted),
        None => {
            assert(after_mic(false) =~= core_nodes());
        },
    }
    assert(run_from(t, 0, set![], set![]) == Some((after_mic(mic), empty)));
    run_concat(t, mixing, 0, set![], set![]);
    mixing_runs(mic);
    run_concat(u, rest, 0, set![], set![]);
    rest_runs(video_host, video_rtp_port, video_rtcp_port, audio_host, audio_rtp_port, audio_rtcp_port,
        window_handle, monitor_index, mic);
    run_concat(r, assemble_steps(mic), 0, set![], set![]);
    assemble_runs(mic);
    run_concat(q, start_steps(), 0, set![], set![]);
    start_runs(mic);
}

} // verus!

verus! {

/// Whether `step` configures `node`.
pub open spec fn configures(step: GraphStepView, node: GraphNode) -> bool {
    step matches GraphStepView::Configure { node: n, .. } && n == node
}

/// Whether `step` configures `node`, setting property `name` to `value`.
pub open spec fn sets_property(step: GraphStepView, node: GraphNode, name: Seq<char>, value: PropValueView) -> bool {
    step matches GraphStepView::Configure { node: n, settings } && n == node
        && exists|k: int| 0 <= k < settings.len() && settings[k] == (PropSettingView { name, value })
}

/// Whether `step` configures `node`, setting property `name` to anything but `value`.
pub open spec fn sets_property_otherwise(step: GraphStepView, node: GraphNode, name: Seq<char>, value: PropValueView) -> bool {
    step matches GraphStepView::Configure { node: n, settings } && n == node
        && exists|k: int| 0 <= k < settings.len() && settings[k].name == name && settings[k].value != value
}

/// Whether plan `steps` sets property `name` of `node` to `value`, and never to
/// anything else.
pub open spec fn plan_sets(steps: Seq<GraphStepView>, node: GraphNode, name: Seq<char>, value: PropValueView) -> bool {
    &&& exists|i: int| 0 <= i < steps.len() && sets_property(steps[i], node, name, value)
    &&& forall|i: int| 0 <= i < steps.len() ==> !sets_property_otherwise(steps[i], node, name, value)
}

/// The UDP elements.
pub open spec fn is_udp_node(n: GraphNode) -> bool {
    ||| n == GraphNode::RtpSink
    ||| n == GraphNode::RtcpSink
    ||| n == GraphNode::RtcpSrc
    ||| n == GraphNode::AudioRtpSink
    ||| n == GraphNode::AudioRtcpSink
    ||| n == GraphNode::AudioRtcpSrc
}

proof fn making_leaves_sockets_alone(
    window_handle: Option<u64>,
    process_pid: Option<u32>,
    mic_enabled: bool,
    mic_device_id: Option<Seq<char>>,
    mic_initially_muted: bool,
)
    ensures ({
        let prefix = make_core(window_handle, process_pid)
            + (match mic_device_id { Some(id) => make_mic(id, mic_enabled, mic_initially_muted), None => seq![] })
            + make_mixing(mic_device_id is Some);
        forall|i: int, n: GraphNode| 0 <= i < prefix.len() && is_udp_node(n) ==> !#[trigger] configures(prefix[i], n)
    }),
{
    let core = make_core(window_handle, process_pid);
    let mic_part = match mic_device_id { Some(id) => make_mic(id, mic_enabled, mic_initially_muted), None => seq![] };
    let mixing = make_mixing(mic_device_id is Some);
    assert forall|i: int, n: GraphNode| 0 <= i < core.len() && is_udp_node(n) implies !#[trigger] configures(core[i], n) by {}
    assert forall|i: int, n: GraphNode| 0 <= i < mic_part.len() && is_udp_node(n) implies !#[trigger] configures(mic_part[i], n) by {}
    assert forall|i: int, n: GraphNode| 0 <= i < mixing.len() && is_udp_node(n) implies !#[trigger] configures(mixing[i], n) by {}
    let prefix = core + mic_part + mixing;
    assert forall|i: int, n: GraphNode| 0 <= i < prefix.len() && is_udp_node(n) implies !#[trigger] configures(prefix[i], n) by {
        if i < core.len() {
            assert(prefix[i] == core[i]);
        } else if i < core.len() + mic_part.len() {
            assert(prefix[i] == mic_part[i - core.len()]);
        } else {
            assert(prefix[i] == mixing[i - core.len() - mic_part.len()]);
        }
    }
}

/// In a UDP sink's settings, `host` and `port` hold what was asked for.
proof fn udp_sink_fields(host: Seq<char>, port: u16, buffer_size: i32)
    ensures
        udp_sink(host, port, buffer_size)[0] == (PropSettingView { name: "host"@, value: PropValueView::Text(host) }),
        udp_sink(host, port, buffer_size)[1] == (PropSettingView { name: "port"@, value: PropValueView::I32(port as i32) }),
        forall|k: int| 0 <= k < udp_sink(host, port, buffer_size).len() && #[trigger] udp_sink(host, port, buffer_size)[k].name == "host"@
            ==> k == 0,
        forall|k: int| 0 <= k < udp_sink(host, port, buffer_size).len() && #[trigger] udp_sink(host, port, buffer_size)[k].name == "port"@
            ==> k == 1,
{
    reveal_strlit("host");
    reveal_strlit("port");
    reveal_strlit("sync");
    reveal_strlit("async");
    reveal_strlit("buffer-size");
    let s = udp_sink(host, port, buffer_size);
    assert(s[0].name[0] == 'h' && s[1].name[0] == 'p' && s[2].name[0] == 's' && s[3].name[0] == 'a' && s[4].name[0] == 'b');
    assert(s[0].name != "port"@ && s[2].name != "port"@ && s[3].name != "port"@ && s[4].name != "port"@);
    assert(s[1].name != "host"@ && s[2].name != "host"@ && s[3].name != "host"@ && s[4].name != "host"@);
}

/// In a UDP source's settings, `port` holds what was asked for.
proof fn udp_source_fields(port: i32, buffer_size: i32)
    ensures
        udp_source(port, buffer_size)[0] == (PropSettingView { name: "port"@, value: PropValueView::I32(port) }),
        forall|k: int| 0 <= k < udp_source(port, buffer_size).len() && #[trigger] udp_source(port, buffer_size)[k].name == "port"@
            ==> k == 0,
{
    reveal_strlit("port");
    reveal_strlit("buffer-size");
    let s = udp_source(port, buffer_size);
    assert(s[1].name[0] == 'b');
    assert(s[1].name != "port"@);
}

/// Whatever the hosts, ports, sources and microphone, the plan sends video RTP
/// to the video host's RTP port and video RTCP to its RTCP port, audio RTP and
/// RTCP to the audio host's RTP and RTCP ports, and receives RTCP on the local
/// ports 5003 (video) and 5005 (audio); no step gives any of these sockets
/// another host or port.
pub proof fn sockets_use_the_given_hosts_and_ports(
    video_host: Seq<char>,
    video_rtp_port: u16,
    video_rtcp_port: u16,
    audio_host: Seq<char>,
    audio_rtp_port: u16,
    audio_rtcp_port: u16,
    window_handle: Option<u64>,
    process_pid: Option<u32>,
    monitor_index: Option<u32>,
    mic_enabled: bool,
    mic_device_id: Option<Seq<char>>,
    mic_initially_muted: bool,
)
    ensures ({
        let steps = build_steps(video_host, video_rtp_port, video_rtcp_port, audio_host, audio_rtp_port,
            audio_rtcp_port, window_handle, process_pid, monitor_index, mic_enabled, mic_device_id, mic_initially_muted);
        &&& plan_sets(steps, GraphNode::RtpSink, "host"@, PropValueView::Text(video_host))
        &&& plan_sets(steps, GraphNode::RtpSink, "port"@, PropValueView::I32(video_rtp_port as i32))
        &&& plan_sets(steps, GraphNode::RtcpSink, "host"@, PropValueView::Text(video_host))
        &&& plan_sets(steps, GraphNode::RtcpSink, "port"@, PropValueView::I32(video_rtcp_port as i32))
        &&& plan_sets(steps, GraphNode::AudioRtpSink, "host"@, PropValueView::Text(audio_host))
        &&& plan_sets(steps, GraphNode::AudioRtpSink, "port"@, PropValueView::I32(audio_rtp_port as i32))
        &&& plan_sets(steps, GraphNode::AudioRtcpSink, "host"@, PropValueView::Text(audio_host))
        &&& plan_sets(steps, GraphNode::AudioRtcpSink, "port"@, PropValueView::I32(audio_rtcp_port as i32))
        &&& plan_sets(steps, GraphNode::RtcpSrc, "port"@, PropValueView::I32(5003))
        &&& plan_sets(steps, GraphNode::AudioRtcpSrc, "port"@, PropValueView::I32(5005))
    }),
{
    let prefix = make_core(window_handle, process_pid)
        + (match mic_device_id { Some(id) => make_mic(id, mic_enabled, mic_initially_muted), None => seq![] })
        + make_mixing(mic_device_id is Some);
    let rest = configure_rest(video_host, video_rtp_port, video_rtcp_port, audio_host, audio_rtp_port, audio_rtcp_port,
        window_handle, monitor_index);
    let steps = build_steps(video_host, video_rtp_port, video_rtcp_port, audio_host, audio_rtp_port,
        audio_rtcp_port, window_handle, process_pid, monitor_index, mic_enabled, mic_device_id, mic_initially_muted);
    assert(steps == prefix + rest);
    making_leaves_sockets_alone(window_handle, process_pid, mic_enabled, mic_device_id, mic_initially_muted);
    udp_sink_fields(video_host, video_rtp_port, 4_194_304);
    udp_sink_fields(video_host, video_rtcp_port, 4_194_304);
    udp_sink_fields(audio_host, audio_rtp_port, 262_144);
    udp_sink_fields(audio_host, audio_rtcp_port, 262_144);
    udp_source_fields(LOCAL_VIDEO_RTCP_PORT, 1_048_576);
    udp_source_fields(LOCAL_AUDIO_RTCP_PORT, 262_144);
    let p = prefix.len() as int;
    // Each socket is configured once, in the last part of the plan.
    assert(steps[p + 7] == rest[7]);
    assert(steps[p + 8] == rest[8]);
    assert(steps[p + 9] == rest[9]);
    assert(steps[p + 10] == rest[10]);
    assert(steps[p + 11] == rest[11]);
    assert(steps[p + 12] == rest[12]);
    assert(sets_property(steps[p + 7], GraphNode::RtpSink, "host"@, PropValueView::Text(video_host)));
    assert(sets_property(steps[p + 7], GraphNode::RtpSink, "port"@, PropValueView::I32(video_rtp_port as i32)));
    assert(sets_property(steps[p + 8], GraphNode::RtcpSink, "host"@, PropValueView::Text(video_host)));
    assert(sets_property(steps[p + 8], GraphNode::RtcpSink, "port"@, PropValueView::I32(video_rtcp_port as i32)));
    assert(sets_property(steps[p + 9], GraphNode::RtcpSrc, "port"@, PropValueView::I32(5003)));
    assert(sets_property(steps[p + 10], GraphNode::AudioRtpSink, "host"@, PropValueView::Text(audio_host)));
    assert(sets_property(steps[p + 10], GraphNode::AudioRtpSink, "port"@, PropValueView::I32(audio_rtp_port as i32)));
    assert(sets_property(steps[p + 11], GraphNode::AudioRtcpSink, "host"@, PropValueView::Text(audio_host)));
    assert(sets_property(steps[p + 11], GraphNode::AudioRtcpSink, "port"@, PropValueView::I32(audio_rtcp_port as i32)));
    assert(sets_property(steps[p + 12], GraphNode::AudioRtcpSrc, "port"@, PropValueView::I32(5005)));
    assert forall|i: int, n: GraphNode, name: Seq<char>, v: PropValueView|
        0 <= i < steps.len() && is_udp_node(n) && #[trigger] sets_property_otherwise(steps[i], n, name, v)
        implies (i == p + 7 && n == GraphNode::RtpSink) || (i == p + 8 && n == GraphNode::RtcpSink)
            || (i == p + 9 && n == GraphNode::RtcpSrc) || (i == p + 10 && n == GraphNode::AudioRtpSink)
            || (i == p + 11 && n == GraphNode::AudioRtcpSink) || (i == p + 12 && n == GraphNode::AudioRtcpSrc) by {
        if i < p {
            assert(steps[i] == prefix[i]);
            assert(!configures(prefix[i], n));
        } else {
            assert(steps[i] == rest[i - p]);
        }
    }
}

} // verus!
