//! The streaming pipeline's shape: how the encode chain is linked on each
//! capture path, the preview branch, the retransmission sender, the audio
//! teardown after an audio failure, and what bus messages do.
use vstd::prelude::*;
use crate::platform::Platform;
use crate::props::{
    CapsPreset, PropSetting, PropSettingView, PropValue, PropValueView, push_setting, set_bool, set_caps, set_i32,
    set_parsed, set_u32, set_u64, setting,
};
use crate::text::{is_substring, str_contains, str_equals, with_decimal, decimal};

verus! {

/// The elements of the video encode chain.
#[derive(Clone, Copy, PartialEq, Eq, Debug, Structural)]
pub enum ChainElement {
    /// The queue after the capture tee, where the chain starts.
    Start,
    Convert,
    Scale,
    /// The 1080p60 NV12 capsfilter.
    Caps,
    Encoder,
    /// The H.264 high-profile capsfilter.
    H264Caps,
    /// `d3d11convert`, named `d3d11convert`.
    D3d11Convert,
    /// A capsfilter named `d3d11_capsfilter` pinning D3D11 memory.
    D3d11Caps,
    /// `d3d12download`.
    D3d12Download,
}

/// How the encode chain is built: the elements added to the pipeline together
/// first, then one element added on its own (if any), then the elements linked,
/// in order, each with the error reported when it fails (for the link, the
/// text before the failure's debug form).
pub struct VideoChainPlan {
    pub add: Vec<ChainElement>,
    pub add_error: String,
    pub add_after: Option<ChainElement>,
    pub add_after_error: String,
    pub link: Vec<ChainElement>,
    pub link_error: String,
}

/// Mathematical form of a [`VideoChainPlan`].
pub struct VideoChainView {
    pub add: Seq<ChainElement>,
    pub add_error: Seq<char>,
    pub add_after: Option<ChainElement>,
    pub add_after_error: Seq<char>,
    pub link: Seq<ChainElement>,
    pub link_error: Seq<char>,
}

impl DeepView for VideoChainPlan {
    type V = VideoChainView;

    open spec fn deep_view(&self) -> VideoChainView {
        VideoChainView {
            add: self.add@,
            add_error: self.add_error@,
            add_after: self.add_after,
            add_after_error: self.add_after_error@,
            link: self.link@,
            link_error: self.link_error@,
        }
    }
}

/// The encode chain for a capture source made by `src_factory`. D3D11 capture
/// on Windows keeps frames in GPU memory: `d3d11convert` and a D3D11 capsfilter
/// replace convert, scale and the NV12 capsfilter. D3D12 capture on Windows
/// downloads frames first. Every other source runs convert, scale and the NV12
/// capsfilter.
pub open spec fn video_chain(platform: Platform, src_factory: Seq<char>) -> VideoChainView {
    let plain_add = seq![ChainElement::Convert, ChainElement::Scale, ChainElement::Caps];
    let plain_add_error = "Failed to add convert/scale/capsfilter to pipeline"@;
    let tail = seq![ChainElement::Convert, ChainElement::Scale, ChainElement::Caps, ChainElement::Encoder, ChainElement::H264Caps];
    if platform == Platform::Windows && src_factory == "d3d11screencapturesrc"@ {
        VideoChainView {
            add: seq![ChainElement::D3d11Convert, ChainElement::D3d11Caps],
            add_error: "Failed to add d3d11 zero-copy elements to pipeline"@,
            add_after: None,
            add_after_error: Seq::empty(),
            link: seq![ChainElement::Start, ChainElement::D3d11Convert, ChainElement::D3d11Caps, ChainElement::Encoder,
                ChainElement::H264Caps],
            link_error: "Failed to link d3d11 zero-copy chain: "@,
        }
    } else if platform == Platform::Windows && src_factory == "d3d12screencapturesrc"@ {
        VideoChainView {
            add: plain_add,
            add_error: plain_add_error,
            add_after: Some(ChainElement::D3d12Download),
            add_after_error: "Failed to add d3d12download to pipeline"@,
            link: seq![ChainElement::Start, ChainElement::D3d12Download] + tail,
            link_error: "Failed to link video elements with d3d12download: "@,
        }
    } else {
        VideoChainView {
            add: plain_add,
            add_error: plain_add_error,
            add_after: None,
            add_after_error: Seq::empty(),
            link: seq![ChainElement::Start] + tail,
            link_error: "Failed to link video elements: "@,
        }
    }
}

/// The encode chain for a capture source made by `src_factory`.
pub fn link_video_chain(platform: Platform, src_factory: &str) -> (p: VideoChainPlan)
    ensures
        p.deep_view() == video_chain(platform, src_factory@),
{
    let d3d11 = platform == Platform::Windows && str_equals(src_factory, "d3d11screencapturesrc");
    let d3d12 = platform == Platform::Windows && str_equals(src_factory, "d3d12screencapturesrc");
    let ghost spec_plan = video_chain(platform, src_factory@);
    if d3d11 {
        let add = vec![ChainElement::D3d11Convert, ChainElement::D3d11Caps];
        let link = vec![ChainElement::Start, ChainElement::D3d11Convert, ChainElement::D3d11Caps, ChainElement::Encoder,
            ChainElement::H264Caps];
        assert(add@ =~= spec_plan.add);
        assert(link@ =~= spec_plan.link);
        VideoChainPlan {
            add,
            add_error: String::from_str("Failed to add d3d11 zero-copy elements to pipeline"),
            add_after: None,
            add_after_error: String::new(),
            link,
            link_error: String::from_str("Failed to link d3d11 zero-copy chain: "),
        }
    } else if d3d12 {
        let add = vec![ChainElement::Convert, ChainElement::Scale, ChainElement::Caps];
        let link = vec![ChainElement::Start, ChainElement::D3d12Download, ChainElement::Convert, ChainElement::Scale,
            ChainElement::Caps, ChainElement::Encoder, ChainElement::H264Caps];
        assert(add@ =~= spec_plan.add);
        assert(link@ =~= spec_plan.link);
        VideoChainPlan {
            add,
            add_error: String::from_str("Failed to add convert/scale/capsfilter to pipeline"),
            add_after: Some(ChainElement::D3d12Download),
            add_after_error: String::from_str("Failed to add d3d12download to pipeline"),
            link,
            link_error: String::from_str("Failed to link video elements with d3d12download: "),
        }
    } else {
        let add = vec![ChainElement::Convert, ChainElement::Scale, ChainElement::Caps];
        let link = vec![ChainElement::Start, ChainElement::Convert, ChainElement::Scale, ChainElement::Caps,
            ChainElement::Encoder, ChainElement::H264Caps];
        assert(add@ =~= spec_plan.add);
        assert(link@ =~= spec_plan.link);
        VideoChainPlan {
            add,
            add_error: String::from_str("Failed to add convert/scale/capsfilter to pipeline"),
            add_after: None,
            add_after_error: String::new(),
            link,
            link_error: String::from_str("Failed to link video elements: "),
        }
    }
}

/// How an element of the encode chain that only some capture paths use is
/// made: its factory, its name (if it is given one), the error when it cannot
/// be made, and the caps it is set to (for a capsfilter).
pub struct ChainElementSource {
    pub factory: String,
    pub name: Option<String>,
    pub error: String,
    pub caps: Option<CapsPreset>,
}

/// How the element `e` is made, for the elements the encode chain makes itself;
/// `None` for those made with the rest of the pipeline.
pub fn chain_element_source(e: ChainElement) -> (r: Option<ChainElementSource>)
    ensures
        match e {
            ChainElement::D3d11Convert => r matches Some(c) && c.factory@ == "d3d11convert"@
                && c.name.deep_view() == Some("d3d11convert"@)
                && c.error@ == "d3d11convert unavailable \u{2014} required for d3d11 zero-copy path"@
                && c.caps is None,
            ChainElement::D3d11Caps => r matches Some(c) && c.factory@ == "capsfilter"@
                && c.name.deep_view() == Some("d3d11_capsfilter"@)
                && c.error@ == "Failed to create d3d11 capsfilter element"@
                && c.caps == Some(CapsPreset::D3d11Nv12Hd60),
            ChainElement::D3d12Download => r matches Some(c) && c.factory@ == "d3d12download"@
                && c.name is None
                && c.error@ == "d3d12screencapturesrc requires the d3d12download element"@
                && c.caps is None,
            _ => r is None,
        },
{
    match e {
        ChainElement::D3d11Convert => Some(ChainElementSource {
            factory: String::from_str("d3d11convert"),
            name: Some(String::from_str("d3d11convert")),
            error: String::from_str("d3d11convert unavailable \u{2014} required for d3d11 zero-copy path"),
            caps: None,
        }),
        ChainElement::D3d11Caps => Some(ChainElementSource {
            factory: String::from_str("capsfilter"),
            name: Some(String::from_str("d3d11_capsfilter")),
            error: String::from_str("Failed to create d3d11 capsfilter element"),
            caps: Some(CapsPreset::D3d11Nv12Hd60),
        }),
        ChainElement::D3d12Download => Some(ChainElementSource {
            factory: String::from_str("d3d12download"),
            name: None,
            error: String::from_str("d3d12screencapturesrc requires the d3d12download element"),
            caps: None,
        }),
        _ => None,
    }
}

/// One element of the preview branch: its factory, its name, whether the
/// branch goes on without it, and its settings.
pub struct PreviewStage {
    pub factory: String,
    pub name: String,
    pub optional: bool,
    pub settings: Vec<PropSetting>,
}

/// Mathematical form of a [`PreviewStage`].
pub struct PreviewStageView {
    pub factory: Seq<char>,
    pub name: Seq<char>,
    pub optional: bool,
    pub settings: Seq<PropSettingView>,
}

impl DeepView for PreviewStage {
    type V = PreviewStageView;

    open spec fn deep_view(&self) -> PreviewStageView {
        PreviewStageView {
            factory: self.factory@,
            name: self.name@,
            optional: self.optional,
            settings: self.settings.deep_view(),
        }
    }
}

/// A preview stage.
pub open spec fn stage(factory: Seq<char>, name: Seq<char>, optional: bool, settings: Seq<PropSettingView>) -> PreviewStageView {
    PreviewStageView { factory, name, optional, settings }
}

/// The preview branch hung off the capture tee, in link order: a leaky
/// two-buffer queue, a download from GPU memory behind D3D11 or D3D12 capture
/// (left out when it cannot be made), conversion, scaling and rate change to
/// 1080p at 15 fps, JPEG at quality 90, and an unsynchronised fake sink whose
/// input the preview frames are taken from.
pub open spec fn preview_branch(src_factory: Seq<char>) -> Seq<PreviewStageView> {
    let queue = stage("queue"@, "preview_queue"@, false, seq![
        setting("leaky"@, PropValueView::Parsed("downstream"@)),
        setting("max-size-buffers"@, PropValueView::U32(2)),
        setting("max-size-time"@, PropValueView::U64(0)),
        setting("max-size-bytes"@, PropValueView::U32(0)),
    ]);
    let download = if src_factory == "d3d11screencapturesrc"@ {
        seq![stage("d3d11download"@, "preview_download"@, true, seq![])]
    } else if src_factory == "d3d12screencapturesrc"@ {
        seq![stage("d3d12download"@, "preview_download"@, true, seq![])]
    } else {
        seq![]
    };
    seq![queue] + download + seq![
        stage("videoconvert"@, "preview_videoconvert"@, false, seq![]),
        stage("videoscale"@, "preview_videoscale"@, false, seq![]),
        stage("videorate"@, "preview_videorate"@, false, seq![]),
        stage("capsfilter"@, "preview_capsfilter"@, false, seq![setting("caps"@, PropValueView::Caps(CapsPreset::PreviewHd15))]),
        stage("jpegenc"@, "preview_jpegenc"@, false, seq![setting("quality"@, PropValueView::I32(90))]),
        stage("fakesink"@, "preview_fakesink"@, false, seq![setting("sync"@, PropValueView::Bool(false))]),
    ]
}

fn push_stage(list: &mut Vec<PreviewStage>, factory: &str, name: &str, optional: bool, settings: Vec<PropSetting>)
    ensures
        final(list).deep_view() == old(list).deep_view().push(stage(factory@, name@, optional, settings.deep_view())),
{
    let ghost before = list.deep_view();
    let ghost sv = settings.deep_view();
    list.push(PreviewStage { factory: String::from_str(factory), name: String::from_str(name), optional, settings });
    assert(list.deep_view() =~= before.push(stage(factory@, name@, optional, sv)));
}

fn no_settings() -> (v: Vec<PropSetting>)
    ensures
        v.deep_view() == Seq::<PropSettingView>::empty(),
{
    let v: Vec<PropSetting> = Vec::new();
    assert(v.deep_view() =~= Seq::<PropSettingView>::empty());
    v
}

fn one_setting(s: PropSetting) -> (v: Vec<PropSetting>)
    ensures
        v.deep_view() == seq![s.deep_view()],
{
    let mut v = no_settings();
    push_setting(&mut v, s);
    assert(v.deep_view() =~= seq![s.deep_view()]);
    v
}

/// The preview branch for a capture source made by `src_factory`.
pub fn build_preview_branch(src_factory: &str) -> (out: Vec<PreviewStage>)
    ensures
        out.deep_view() == preview_branch(src_factory@),
{
    let mut out: Vec<PreviewStage> = Vec::new();
    let mut q = no_settings();
    push_setting(&mut q, set_parsed("leaky", "downstream"));
    push_setting(&mut q, set_u32("max-size-buffers", 2));
    push_setting(&mut q, set_u64("max-size-time", 0));
    push_setting(&mut q, set_u32("max-size-bytes", 0));
    assert(q.deep_view() =~= seq![
        setting("leaky"@, PropValueView::Parsed("downstream"@)),
        setting("max-size-buffers"@, PropValueView::U32(2)),
        setting("max-size-time"@, PropValueView::U64(0)),
        setting("max-size-bytes"@, PropValueView::U32(0)),
    ]);
    push_stage(&mut out, "queue", "preview_queue", false, q);
    if str_equals(src_factory, "d3d11screencapturesrc") {
        push_stage(&mut out, "d3d11download", "preview_download", true, no_settings());
    } else if str_equals(src_factory, "d3d12screencapturesrc") {
        push_stage(&mut out, "d3d12download", "preview_download", true, no_settings());
    }
    push_stage(&mut out, "videoconvert", "preview_videoconvert", false, no_settings());
    push_stage(&mut out, "videoscale", "preview_videoscale", false, no_settings());
    push_stage(&mut out, "videorate", "preview_videorate", false, no_settings());
    push_stage(&mut out, "capsfilter", "preview_capsfilter", false, one_setting(set_caps("caps", CapsPreset::PreviewHd15)));
    push_stage(&mut out, "jpegenc", "preview_jpegenc", false, one_setting(set_i32("quality", 90)));
    push_stage(&mut out, "fakesink", "preview_fakesink", false, one_setting(set_bool("sync", false)));
    assert(out.deep_view() =~~= preview_branch(src_factory@));
    out
}

/// Which elements of the preview branch are added to the pipeline and linked,
/// in order, given which stages could be made (`made`, one entry per stage
/// tried, in order; the attempt stops at the first required stage that fails):
/// the made ones, when every stage was tried and each one not made is
/// optional. `None` means the branch is not attached: nothing is added to the
/// pipeline and no tee pad is requested.
pub open spec fn preview_chain(stages: Seq<PreviewStageView>, made: Seq<bool>) -> Option<Seq<int>> {
    if made.len() == stages.len() && forall|i: int| 0 <= i < made.len() ==> made[i] || stages[i].optional {
        Some(Seq::new(made.len(), |i: int| i).filter(|i: int| made[i]))
    } else {
        None
    }
}

/// Decides from which preview stages could be made whether the branch is
/// attached, and which stages form its chain (by index, in link order).
pub fn preview_chain_indices(stages: &Vec<PreviewStage>, made: &Vec<bool>) -> (r: Option<Vec<usize>>)
    ensures
        (match r { Some(v) => Some(v@.map_values(|i: usize| i as int)), None => None })
            == preview_chain(stages.deep_view(), made@),
{
    if made.len() != stages.len() {
        return None;
    }
    let ghost ids = Seq::new(made@.len(), |i: int| i);
    let ghost keep = |i: int| made@[i];
    let mut out: Vec<usize> = Vec::new();
    let mut i: usize = 0;
    while i < made.len()
        invariant
            i <= made.len(),
            made.len() == stages.len(),
            ids == Seq::new(made@.len(), |i: int| i),
            keep == (|i: int| made@[i]),
            forall|j: int| 0 <= j < i ==> made@[j] || (#[trigger] stages.deep_view()[j]).optional,
            out@.map_values(|k: usize| k as int) == ids.take(i as int).filter(keep),
        decreases made.len() - i,
    {
        assert(stages.deep_view()[i as int] == stages@[i as int].deep_view());
        if !made[i] && !stages[i].optional {
            return None;
        }
        let ghost before = out@.map_values(|k: usize| k as int);
        proof {
            assert(ids.take(i + 1) =~= ids.take(i as int).push(i as int));
            ids.take(i as int).lemma_filter_push(i as int, keep);
        }
        if made[i] {
            out.push(i);
            assert(out@.map_values(|k: usize| k as int) =~= before.push(i as int));
        }
        assert(out@.map_values(|k: usize| k as int) =~= ids.take(i + 1).filter(keep));
        i = i + 1;
    }
    assert(ids.take(made.len() as int) =~= ids);
    Some(out)
}

/// The retransmission sender wrapped for `rtpbin`: the `rtprtxsend` settings
/// and the names of the bin's ghost pads.
pub struct AuxSenderPlan {
    pub settings: Vec<PropSetting>,
    pub sink_pad: String,
    pub src_pad: String,
}

/// The `rtprtxsend` settings: retransmissions of payload type 100 go out as 101
/// and of SSRC 2222 as 2223, matching what the frontend declares, and about a
/// second of sent packets is kept for them, with no packet-count cap.
pub open spec fn rtx_settings() -> Seq<PropSettingView> {
    seq![
        setting("payload-type-map"@, PropValueView::Structure { name: "application/x-rtp-pt-map"@, field: "100"@, value: 101 }),
        setting("ssrc-map"@, PropValueView::Structure { name: "application/x-rtp-ssrc-map"@, field: "2222"@, value: 2223 }),
        setting("max-size-time"@, PropValueView::U32(1000)),
        setting("max-size-packets"@, PropValueView::U32(0)),
    ]
}

/// Answers `rtpbin`'s request for an auxiliary sender on `session`: only the
/// video session (0) gets a retransmission sender, exposed through ghost pads
/// `sink_<session>` and `src_<session>`; the audio session gets none.
pub fn aux_sender_for_session(session: u32) -> (r: Option<AuxSenderPlan>)
    ensures
        r is Some <==> session == 0,
        r matches Some(p) ==> p.settings.deep_view() == rtx_settings()
            && p.sink_pad@ == "sink_"@ + decimal(session as nat)
            && p.src_pad@ == "src_"@ + decimal(session as nat),
{
    if session != 0 {
        return None;
    }
    let mut settings: Vec<PropSetting> = Vec::new();
    push_setting(&mut settings, PropSetting {
        name: String::from_str("payload-type-map"),
        value: PropValue::Structure {
            name: String::from_str("application/x-rtp-pt-map"),
            field: String::from_str("100"),
            value: 101,
        },
    });
    push_setting(&mut settings, PropSetting {
        name: String::from_str("ssrc-map"),
        value: PropValue::Structure {
            name: String::from_str("application/x-rtp-ssrc-map"),
            field: String::from_str("2222"),
            value: 2223,
        },
    });
    push_setting(&mut settings, set_u32("max-size-time", 1000));
    push_setting(&mut settings, set_u32("max-size-packets", 0));
    assert(settings.deep_view() =~= rtx_settings());
    Some(AuxSenderPlan {
        settings,
        sink_pad: with_decimal("sink_", session as u64),
        src_pad: with_decimal("src_", session as u64),
    })
}

/// The names of every element of the audio sub-graph: system audio capture,
/// the microphone branch, the mixer, Opus encoding and payloading, and the
/// audio RTP/RTCP sockets.
pub open spec fn audio_chain_names() -> Seq<Seq<char>> {
    seq![
        "system_audio_src"@, "audioconvert"@, "audioresample"@, "sys_audio_caps"@,
        "mic_src"@, "mic_audioconvert"@, "mic_audioresample"@, "mic_caps"@, "mic_valve"@,
        "audio_mixer"@, "mixer_out_convert"@,
        "opus_capsfilter"@, "opusenc"@, "rtpopuspay"@,
        "audio_rtp_sink"@, "audio_rtcp_sink"@, "audio_rtcp_src"@,
    ]
}

/// The names of every element of the audio sub-graph.
pub fn audio_chain_element_names() -> (v: Vec<String>)
    ensures
        v.deep_view() == audio_chain_names(),
{
    let names: [&str; 17] = [
        "system_audio_src", "audioconvert", "audioresample", "sys_audio_caps",
        "mic_src", "mic_audioconvert", "mic_audioresample", "mic_caps", "mic_valve",
        "audio_mixer", "mixer_out_convert",
        "opus_capsfilter", "opusenc", "rtpopuspay",
        "audio_rtp_sink", "audio_rtcp_sink", "audio_rtcp_src",
    ];
    assert(names@.map_values(|s: &str| s@) =~= audio_chain_names());
    let mut v: Vec<String> = Vec::new();
    let mut i: usize = 0;
    while i < 17
        invariant
            i <= 17,
            names@.map_values(|s: &str| s@) == audio_chain_names(),
            v@.len() == i,
            forall|k: int| 0 <= k < i ==> (#[trigger] v@[k])@ == audio_chain_names()[k],
        decreases 17 - i,
    {
        assert(names@[i as int]@ == audio_chain_names()[i as int]);
        v.push(String::from_str(names[i]));
        i = i + 1;
    }
    assert(v.deep_view() =~= audio_chain_names());
    v
}

/// An audio session pad of `rtpbin` to unlink and release before the audio
/// elements go: the element whose static pad is linked to it, and that pad.
pub open spec fn audio_session_pads() -> Seq<(Seq<char>, Seq<char>)> {
    seq![
        ("rtpopuspay"@, "src"@),
        ("audio_rtp_sink"@, "sink"@),
        ("audio_rtcp_sink"@, "sink"@),
        ("audio_rtcp_src"@, "src"@),
    ]
}

/// A pad of a named element.
pub struct ElementPad {
    pub element: String,
    pub pad: String,
}

/// The audio session pads of `rtpbin` to unlink and release, each as the
/// element whose static pad is linked to it, and that pad.
pub fn audio_session_pad_list() -> (v: Vec<ElementPad>)
    ensures
        v@.len() == audio_session_pads().len(),
        forall|i: int| 0 <= i < v@.len() ==> (#[trigger] v@[i]).element@ == audio_session_pads()[i].0
            && v@[i].pad@ == audio_session_pads()[i].1,
{
    let mut v: Vec<ElementPad> = Vec::new();
    v.push(ElementPad { element: String::from_str("rtpopuspay"), pad: String::from_str("src") });
    v.push(ElementPad { element: String::from_str("audio_rtp_sink"), pad: String::from_str("sink") });
    v.push(ElementPad { element: String::from_str("audio_rtcp_sink"), pad: String::from_str("sink") });
    v.push(ElementPad { element: String::from_str("audio_rtcp_src"), pad: String::from_str("src") });
    v
}

/// The teardown of the audio sub-graph after an audio source fails: given which
/// of the audio element names are present in the pipeline (one flag per name,
/// in [`audio_chain_element_names`] order), the indices of those to stop and
/// remove, in order, or `None` when none is present and nothing is torn down.
pub fn disable_audio_chain(present: &Vec<bool>) -> (r: Option<Vec<usize>>)
    ensures
        r is None <==> forall|i: int| 0 <= i < present.len() ==> !#[trigger] present@[i],
        r matches Some(v) ==> v@ == Seq::new(present@.len(), |i: int| i).filter(|i: int| present@[i]).map_values(|i: int| i as usize),
{
    let ghost all = Seq::new(present@.len(), |i: int| i);
    let ghost pred = |i: int| present@[i];
    let mut v: Vec<usize> = Vec::new();
    let mut i: usize = 0;
    while i < present.len()
        invariant
            i <= present.len(),
            all == Seq::new(present@.len(), |i: int| i),
            pred == (|i: int| present@[i]),
            v@ == all.take(i as int).filter(pred).map_values(|i: int| i as usize),
            v@.len() == 0 <==> forall|j: int| 0 <= j < i ==> !#[trigger] present@[j],
        decreases present.len() - i,
    {
        proof {
            assert(all.take(i + 1) =~= all.take(i as int).push(i as int));
            all.take(i as int).lemma_filter_push(i as int, pred);
        }
        if present[i] {
            v.push(i);
        }
        i = i + 1;
        assert(v@ =~= all.take(i as int).filter(pred).map_values(|i: int| i as usize));
    }
    assert(all.take(present.len() as int) =~= all);
    if v.len() == 0 { None } else { Some(v) }
}

/// The pipeline an object belongs to: walking from the object up through its
/// parents (`is_pipeline` says, for the object and then each ancestor in turn,
/// whether it is a pipeline), the position of the first pipeline met, or
/// `None` when the walk reaches the top without one.
pub fn find_pipeline(is_pipeline: &Vec<bool>) -> (r: Option<usize>)
    ensures
        match r {
            Some(i) => i < is_pipeline.len() && is_pipeline@[i as int]
                && forall|j: int| 0 <= j < i ==> !#[trigger] is_pipeline@[j],
            None => forall|j: int| 0 <= j < is_pipeline.len() ==> !#[trigger] is_pipeline@[j],
        },
{
    let mut i: usize = 0;
    while i < is_pipeline.len()
        invariant
            i <= is_pipeline.len(),
            forall|j: int| 0 <= j < i ==> !#[trigger] is_pipeline@[j],
        decreases is_pipeline.len() - i,
    {
        if is_pipeline[i] {
            return Some(i);
        }
        i = i + 1;
    }
    None
}

/// The kinds of pipeline bus message the watch tells apart.
#[derive(Clone, Copy, PartialEq, Eq, Debug, Structural)]
pub enum BusMessageKind {
    Eos,
    Error,
    Warning,
    StateChanged,
    Latency,
    StreamStatus,
    Qos,
    Other,
}

/// What the bus watch does with a message.
#[derive(Clone, Copy, PartialEq, Eq, Debug, Structural)]
pub enum BusAction {
    /// Stop watching (end of stream, or a fatal error).
    Stop,
    /// Keep watching.
    Continue,
    /// An audio source failed: find its pipeline and tear the audio sub-graph
    /// down, then keep watching only if that worked.
    DisableAudio,
}

/// Whether an error's source path points into an audio source.
pub open spec fn from_audio_source(path: Option<Seq<char>>) -> bool {
    path is Some && (is_substring("system_audio_src"@, path.unwrap()) || is_substring("mic_src"@, path.unwrap()))
}

/// The bus watch: end of stream stops it; an error stops it unless it comes
/// from an audio source, in which case the audio is torn down; every other
/// message is logged and watching goes on. `error_source` is the path of the
/// error's source object, when it has one.
pub fn bus_call(kind: BusMessageKind, error_source: &Option<String>) -> (a: BusAction)
    ensures
        a == (match kind {
            BusMessageKind::Eos => BusAction::Stop,
            BusMessageKind::Error => if from_audio_source(error_source.deep_view()) {
                BusAction::DisableAudio
            } else {
                BusAction::Stop
            },
            _ => BusAction::Continue,
        }),
{
    match kind {
        BusMessageKind::Eos => BusAction::Stop,
        BusMessageKind::Error => {
            let audio = match error_source {
                Some(p) => str_contains(p.as_str(), "system_audio_src") || str_contains(p.as_str(), "mic_src"),
                None => false,
            };
            if audio { BusAction::DisableAudio } else { BusAction::Stop }
        },
        _ => BusAction::Continue,
    }
}

/// After an audio error: watching goes on only when the failing source's
/// pipeline was found and its audio sub-graph torn down.
pub fn after_audio_teardown(torn_down: bool) -> (a: BusAction)
    ensures
        a == (if torn_down { BusAction::Continue } else { BusAction::Stop }),
{
    if torn_down { BusAction::Continue } else { BusAction::Stop }
}

/// A message popped off the bus while collecting the cause of a failed state
/// change: whether it is an error, and its source path, error text and debug
/// text as they are printed.
pub struct QueuedBusMessage {
    pub is_error: bool,
    pub source: String,
    pub error: String,
    pub debug: String,
}

/// Mathematical form of a [`QueuedBusMessage`].
pub struct QueuedBusMessageView {
    pub is_error: bool,
    pub source: Seq<char>,
    pub error: Seq<char>,
    pub debug: Seq<char>,
}

impl DeepView for QueuedBusMessage {
    type V = QueuedBusMessageView;

    open spec fn deep_view(&self) -> QueuedBusMessageView {
        QueuedBusMessageView { is_error: self.is_error, source: self.source@, error: self.error@, debug: self.debug@ }
    }
}

/// The text one error message adds to a failure report.
pub open spec fn error_line(m: QueuedBusMessageView) -> Seq<char> {
    " — error from "@ + m.source + ": "@ + m.error + "  debug="@ + m.debug
}

/// The text the queued messages add to a failure report: one line per error,
/// in order; warnings add nothing.
pub open spec fn bus_error_report(ms: Seq<QueuedBusMessageView>) -> Seq<char>
    decreases ms.len(),
{
    if ms.len() == 0 {
        Seq::empty()
    } else {
        bus_error_report(ms.drop_last()) + if ms.last().is_error { error_line(ms.last()) } else { Seq::empty() }
    }
}

/// Collects the errors queued on the bus into the text appended to a failure
/// report.
pub fn drain_bus_errors(messages: &Vec<QueuedBusMessage>) -> (out: String)
    ensures
        out@ == bus_error_report(messages.deep_view()),
{
    let ghost all = messages.deep_view();
    let mut out = String::new();
    let mut i: usize = 0;
    while i < messages.len()
        invariant
            i <= messages.len(),
            all == messages.deep_view(),
            out@ == bus_error_report(all.take(i as int)),
        decreases messages.len() - i,
    {
        let m = &messages[i];
        assert(all.take(i + 1).drop_last() =~= all.take(i as int));
        assert(all.take(i + 1).last() == m.deep_view());
        if m.is_error {
            out.append(" — error from ");
            out.append(m.source.as_str());
            out.append(": ");
            out.append(m.error.as_str());
            out.append("  debug=");
            out.append(m.debug.as_str());
        }
        i = i + 1;
        assert(out@ =~= bus_error_report(all.take(i as int)));
    }
    assert(all.take(messages.len() as int) =~= all);
    out
}

} // verus!

verus! {

/// Local port the video RTCP socket listens on.
pub const LOCAL_VIDEO_RTCP_PORT: i32 = 5003;
/// Local port the audio RTCP socket listens on.
pub const LOCAL_AUDIO_RTCP_PORT: i32 = 5005;
/// SSRC of the video RTP stream.
pub const VIDEO_SSRC: u32 = 2222;
/// SSRC of the audio RTP stream.
pub const AUDIO_SSRC: u32 = 1111;

/// A UDP sink sending to `host:port`, unsynchronised, with a send buffer of
/// `buffer_size` bytes.
pub open spec fn udp_sink(host: Seq<char>, port: u16, buffer_size: i32) -> Seq<PropSettingView> {
    seq![
        setting("host"@, PropValueView::Text(host)),
        setting("port"@, PropValueView::I32(port as i32)),
        setting("sync"@, PropValueView::Bool(false)),
        setting("async"@, PropValueView::Bool(false)),
        setting("buffer-size"@, PropValueView::I32(buffer_size)),
    ]
}

/// A UDP source listening on `port` with a receive buffer of `buffer_size` bytes.
pub open spec fn udp_source(port: i32, buffer_size: i32) -> Seq<PropSettingView> {
    seq![
        setting("port"@, PropValueView::I32(port)),
        setting("buffer-size"@, PropValueView::I32(buffer_size)),
    ]
}

/// The settings of a UDP sink sending to `host:port`.
pub fn udp_sink_settings(host: &str, port: u16, buffer_size: i32) -> (v: Vec<PropSetting>)
    ensures
        v.deep_view() == udp_sink(host@, port, buffer_size),
{
    let mut v = no_settings();
    push_setting(&mut v, PropSetting { name: String::from_str("host"), value: PropValue::Text(String::from_str(host)) });
    push_setting(&mut v, set_i32("port", port as i32));
    push_setting(&mut v, set_bool("sync", false));
    push_setting(&mut v, set_bool("async", false));
    push_setting(&mut v, set_i32("buffer-size", buffer_size));
    assert(v.deep_view() =~= udp_sink(host@, port, buffer_size));
    v
}

/// The settings of a UDP source listening on `port`.
pub fn udp_source_settings(port: i32, buffer_size: i32) -> (v: Vec<PropSetting>)
    ensures
        v.deep_view() == udp_source(port, buffer_size),
{
    let mut v = no_settings();
    push_setting(&mut v, set_i32("port", port));
    push_setting(&mut v, set_i32("buffer-size", buffer_size));
    assert(v.deep_view() =~= udp_source(port, buffer_size));
    v
}

/// The settings of the six UDP elements.
pub struct NetworkPlan {
    pub rtp_sink: Vec<PropSetting>,
    pub rtcp_sink: Vec<PropSetting>,
    pub rtcp_src: Vec<PropSetting>,
    pub audio_rtp_sink: Vec<PropSetting>,
    pub audio_rtcp_sink: Vec<PropSetting>,
    pub audio_rtcp_src: Vec<PropSetting>,
}

/// The UDP elements for a stream: video RTP and RTCP go to the video host with
/// 4 MiB send buffers, audio RTP and RTCP to the audio host with 256 KiB ones;
/// RTCP is received on the fixed local ports, with a 1 MiB buffer for video and
/// 256 KiB for audio.
pub fn network_settings(
    video_host: &str,
    video_rtp_port: u16,
    video_rtcp_port: u16,
    audio_host: &str,
    audio_rtp_port: u16,
    audio_rtcp_port: u16,
) -> (p: NetworkPlan)
    ensures
        p.rtp_sink.deep_view() == udp_sink(video_host@, video_rtp_port, 4_194_304),
        p.rtcp_sink.deep_view() == udp_sink(video_host@, video_rtcp_port, 4_194_304),
        p.rtcp_src.deep_view() == udp_source(LOCAL_VIDEO_RTCP_PORT, 1_048_576),
        p.audio_rtp_sink.deep_view() == udp_sink(audio_host@, audio_rtp_port, 262_144),
        p.audio_rtcp_sink.deep_view() == udp_sink(audio_host@, audio_rtcp_port, 262_144),
        p.audio_rtcp_src.deep_view() == udp_source(LOCAL_AUDIO_RTCP_PORT, 262_144),
{
    NetworkPlan {
        rtp_sink: udp_sink_settings(video_host, video_rtp_port, 4_194_304),
        rtcp_sink: udp_sink_settings(video_host, video_rtcp_port, 4_194_304),
        rtcp_src: udp_source_settings(LOCAL_VIDEO_RTCP_PORT, 1_048_576),
        audio_rtp_sink: udp_sink_settings(audio_host, audio_rtp_port, 262_144),
        audio_rtcp_sink: udp_sink_settings(audio_host, audio_rtcp_port, 262_144),
        audio_rtcp_src: udp_source_settings(LOCAL_AUDIO_RTCP_PORT, 262_144),
    }
}

/// The H.264 payloader: the video SSRC, payload type 100, SPS/PPS with every
/// IDR, a 1400-byte MTU and STAP-A/fragmented packetization.
pub open spec fn h264_payloader() -> Seq<PropSettingView> {
    seq![
        setting("ssrc"@, PropValueView::U32(VIDEO_SSRC)),
        setting("pt"@, PropValueView::U32(100)),
        setting("config-interval"@, PropValueView::I32(-1i32)),
        setting("mtu"@, PropValueView::U32(1400)),
        setting("aggregate-mode"@, PropValueView::Parsed("zero-latency"@)),
    ]
}

/// The settings of the H.264 payloader.
pub fn rtph264pay_settings() -> (v: Vec<PropSetting>)
    ensures
        v.deep_view() == h264_payloader(),
{
    let mut v = no_settings();
    push_setting(&mut v, set_u32("ssrc", VIDEO_SSRC));
    push_setting(&mut v, set_u32("pt", 100));
    push_setting(&mut v, set_i32("config-interval", -1));
    push_setting(&mut v, set_u32("mtu", 1400));
    push_setting(&mut v, set_parsed("aggregate-mode", "zero-latency"));
    assert(v.deep_view() =~= h264_payloader());
    v
}

/// The Opus payloader: the audio SSRC, payload type 96, a 1400-byte MTU.
pub open spec fn opus_payloader() -> Seq<PropSettingView> {
    seq![
        setting("ssrc"@, PropValueView::U32(AUDIO_SSRC)),
        setting("pt"@, PropValueView::U32(96)),
        setting("mtu"@, PropValueView::U32(1400)),
    ]
}

/// The settings of the Opus payloader.
pub fn rtpopuspay_settings() -> (v: Vec<PropSetting>)
    ensures
        v.deep_view() == opus_payloader(),
{
    let mut v = no_settings();
    push_setting(&mut v, set_u32("ssrc", AUDIO_SSRC));
    push_setting(&mut v, set_u32("pt", 96));
    push_setting(&mut v, set_u32("mtu", 1400));
    assert(v.deep_view() =~= opus_payloader());
    v
}

/// The Opus encoder: 128 kbps of general audio with in-band FEC tuned for 5%
/// packet loss.
pub open spec fn opus_encoder() -> Seq<PropSettingView> {
    seq![
        setting("bitrate"@, PropValueView::I32(128_000)),
        setting("audio-type"@, PropValueView::Parsed("generic"@)),
        setting("inband-fec"@, PropValueView::Bool(true)),
        setting("packet-loss-percentage"@, PropValueView::I32(5)),
    ]
}

/// The settings of the Opus encoder.
pub fn opusenc_settings() -> (v: Vec<PropSetting>)
    ensures
        v.deep_view() == opus_encoder(),
{
    let mut v = no_settings();
    push_setting(&mut v, set_i32("bitrate", 128_000));
    push_setting(&mut v, set_parsed("audio-type", "generic"));
    push_setting(&mut v, set_bool("inband-fec", true));
    push_setting(&mut v, set_i32("packet-loss-percentage", 5));
    assert(v.deep_view() =~= opus_encoder());
    v
}

/// `rtpbin`: retransmission on NACK, AVPF profile.
pub open spec fn rtp_bin() -> Seq<PropSettingView> {
    seq![
        setting("do-retransmission"@, PropValueView::Bool(true)),
        setting("rtp-profile"@, PropValueView::AvpfProfile),
    ]
}

/// The settings of `rtpbin`.
pub fn rtpbin_settings() -> (v: Vec<PropSetting>)
    ensures
        v.deep_view() == rtp_bin(),
{
    let mut v = no_settings();
    push_setting(&mut v, set_bool("do-retransmission", true));
    push_setting(&mut v, PropSetting { name: String::from_str("rtp-profile"), value: PropValue::AvpfProfile });
    assert(v.deep_view() =~= rtp_bin());
    v
}

/// The audio mixer: a 200 ms alignment threshold and 100 ms of latency, each
/// where the mixer has the property, so a late-starting microphone is mixed in
/// rather than dropped.
pub open spec fn audio_mixer(has_alignment_threshold: bool, has_latency: bool) -> Seq<PropSettingView> {
    (if has_alignment_threshold { seq![setting("alignment-threshold"@, PropValueView::U64(200_000_000))] } else { seq![] })
    + (if has_latency { seq![setting("latency"@, PropValueView::U64(100_000_000))] } else { seq![] })
}

/// The settings of the audio mixer.
pub fn mixer_settings(has_alignment_threshold: bool, has_latency: bool) -> (v: Vec<PropSetting>)
    ensures
        v.deep_view() == audio_mixer(has_alignment_threshold, has_latency),
{
    let mut v = no_settings();
    if has_alignment_threshold {
        push_setting(&mut v, set_u64("alignment-threshold", 200_000_000));
    }
    if has_latency {
        push_setting(&mut v, set_u64("latency", 100_000_000));
    }
    assert(v.deep_view() =~= audio_mixer(has_alignment_threshold, has_latency));
    v
}

/// Whether the microphone valve starts closed: when the microphone starts
/// muted or is not enabled.
pub fn mic_valve_drop(mic_enabled: bool, mic_initially_muted: bool) -> (drop: bool)
    ensures
        drop == (mic_initially_muted || !mic_enabled),
{
    mic_initially_muted || !mic_enabled
}

/// The caps on the system audio branch: the fully specified mixer format when a
/// microphone is mixed in, else just 48 kHz stereo.
pub fn system_audio_caps(mic_selected: bool) -> (c: CapsPreset)
    ensures
        c == (if mic_selected { CapsPreset::MixerF32Stereo } else { CapsPreset::Audio48kStereo }),
{
    if mic_selected { CapsPreset::MixerF32Stereo } else { CapsPreset::Audio48kStereo }
}

} // verus!
