use scapp::encoder::{configure_encoder, configure_nvenc, create_video_encoder, EncoderProps};
use scapp::pipeline::{
    after_audio_teardown, audio_chain_element_names, aux_sender_for_session, build_preview_branch, bus_call, chain_element_source,
    disable_audio_chain, drain_bus_errors, find_pipeline, link_video_chain, mic_valve_drop, mixer_settings,
    network_settings, opusenc_settings, rtpbin_settings, rtph264pay_settings, rtpopuspay_settings, system_audio_caps,
    BusAction, BusMessageKind, ChainElement, QueuedBusMessage,
};
use scapp::platform::Platform;
use scapp::props::{CapsPreset, PropSetting, PropValue};
use scapp::sources::{
    configure_system_audio_source, configure_video_source, create_system_audio_source, create_video_source, is_wayland,
    needs_monitor_list,
};
use scapp::monitors::MonitorInfo;

/// A setting as text, for comparing lists of settings.
fn show(p: &PropSetting) -> String {
    let v = match &p.value {
        PropValue::U32(x) => format!("u32 {}", x),
        PropValue::I32(x) => format!("i32 {}", x),
        PropValue::U64(x) => format!("u64 {}", x),
        PropValue::Bool(x) => format!("bool {}", x),
        PropValue::Text(x) => format!("text {}", x),
        PropValue::Parsed(x) => format!("parsed {}", x),
        PropValue::Caps(c) => format!("caps {:?}", c),
        PropValue::Structure { name, field, value } => format!("structure {} {}={}", name, field, value),
        PropValue::AvpfProfile => "avpf".to_string(),
    };
    format!("{}: {}", p.name, v)
}

fn shown(v: &[PropSetting]) -> Vec<String> {
    v.iter().map(show).collect()
}

fn props() -> EncoderProps {
    EncoderProps {
        rc_mode: false,
        rate_control: false,
        bframes: false,
        b_frames: false,
        zerolatency: false,
        zero_reorder_delay: false,
        bitrate: false,
        keyframe_period: false,
        cabac: false,
    }
}

#[test]
fn nvenc_tuning_uses_the_property_names_the_encoder_has() {
    let mut p = props();
    p.rate_control = true;
    p.b_frames = true;
    p.zerolatency = true;
    assert_eq!(
        shown(&configure_nvenc(&p)),
        vec![
            "bitrate: u32 20000", "vbv-buffer-size: u32 8000", "preset: parsed low-latency-hp", "gop-size: i32 120",
            "b-adapt: bool false", "aud: bool false", "rate-control: parsed cbr", "b-frames: u32 0", "zerolatency: bool true",
        ]
    );
    let mut q = props();
    q.rc_mode = true;
    q.rate_control = true;
    q.zero_reorder_delay = true;
    let out = shown(&configure_encoder("nvd3d11h264enc", &q));
    assert_eq!(&out[6..], &["rc-mode: parsed cbr".to_string(), "zero-reorder-delay: bool true".to_string()]);
}

#[test]
fn vaapi_x264_and_unknown_encoders() {
    let mut p = props();
    p.bitrate = true;
    p.cabac = true;
    assert_eq!(shown(&configure_encoder("vah264enc", &p)), vec!["bitrate: u32 20000", "cabac: bool true"]);
    assert_eq!(
        shown(&configure_encoder("x264enc", &props())),
        vec!["bitrate: u32 20000", "tune: parsed zerolatency", "speed-preset: parsed superfast", "key-int-max: u32 120", "bframes: u32 0"]
    );
    assert!(configure_encoder("openh264enc", &props()).is_empty());
}

#[test]
fn encoder_candidates_per_platform() {
    let (v, e) = create_video_encoder(Platform::Linux, "ximagesrc");
    assert_eq!(v, vec!["nvh264enc", "vaapih264enc", "vah264enc", "x264enc"]);
    assert_eq!(e, "No H.264 encoder available (tried nvh264enc, vaapih264enc, vah264enc, x264enc)");
    let (v, e) = create_video_encoder(Platform::Windows, "d3d11screencapturesrc");
    assert_eq!(v, vec!["nvd3d11h264enc"]);
    assert_eq!(e, "nvd3d11h264enc unavailable \u{2014} required for hardware H.264 encode");
    let (v, _) = create_video_encoder(Platform::Windows, "dx9screencapsrc");
    assert_eq!(v, vec!["nvh264enc"]);
}

fn factories(v: &[scapp::sources::SourceCandidate]) -> Vec<String> {
    v.iter().map(|c| format!("{}/{}", c.factory, c.name)).collect()
}

#[test]
fn video_source_candidates() {
    let (v, e) = create_video_source(Platform::Linux, Some(0x3a00007), false);
    assert_eq!(factories(&v), vec!["ximagesrc/screensrc"]);
    assert_eq!(e, "ximagesrc unavailable \u{2014} required for X11 window capture");
    let (v, _) = create_video_source(Platform::Linux, Some(0), true);
    assert_eq!(factories(&v), vec!["pipewiresrc/screensrc", "ximagesrc/screensrc", "videotestsrc/screensrc"]);
    let (v, e) = create_video_source(Platform::Linux, None, false);
    assert_eq!(factories(&v), vec!["ximagesrc/screensrc", "videotestsrc/screensrc"]);
    assert_eq!(e, "Failed to create any video source element");
    let (v, _) = create_video_source(Platform::Windows, None, false);
    assert_eq!(v.len(), 4);
    assert_eq!(v[3].factory, "videotestsrc");
}

#[test]
fn wayland_detection() {
    assert!(is_wayland(&Some("wayland-0".to_string()), &None));
    assert!(!is_wayland(&Some(String::new()), &Some("x11".to_string())));
    assert!(is_wayland(&None, &Some("wayland".to_string())));
    assert!(!is_wayland(&None, &None));
}

#[test]
fn ximagesrc_captures_the_chosen_monitor_region() {
    let monitors = Some(vec![
        MonitorInfo { name: "a".to_string(), x: 0, y: 0, width: 1920, height: 1080, thumbnail: String::new() },
        MonitorInfo { name: "b".to_string(), x: 1920, y: 0, width: 2560, height: 1440, thumbnail: String::new() },
    ]);
    assert!(needs_monitor_list(Platform::Linux, "ximagesrc", None, Some(1)));
    assert!(!needs_monitor_list(Platform::Linux, "ximagesrc", Some(5), Some(1)));
    let out = configure_video_source(Platform::Linux, "ximagesrc", None, Some(1), &monitors);
    assert_eq!(
        shown(&out),
        vec!["use-damage: bool false", "show-pointer: bool true", "startx: u32 1920", "starty: u32 0", "endx: u32 4479", "endy: u32 1439"]
    );
    let out = configure_video_source(Platform::Linux, "ximagesrc", None, Some(7), &monitors);
    assert_eq!(out.len(), 2);
    let out = configure_video_source(Platform::Linux, "ximagesrc", Some(99), Some(1), &monitors);
    assert_eq!(shown(&out)[2], "xid: u64 99");
    let out = configure_video_source(Platform::Windows, "d3d11screencapturesrc", None, None, &None);
    assert_eq!(shown(&out), vec!["show-cursor: bool true", "capture-api: parsed wgc", "monitor-index: i32 0"]);
    assert!(configure_video_source(Platform::Linux, "pipewiresrc", None, None, &None).is_empty());
}

#[test]
fn system_audio_source() {
    let (c, e) = create_system_audio_source(Platform::Linux);
    assert_eq!((c.factory.as_str(), c.name.as_str(), e.as_str()), ("pulsesrc", "system_audio_src", "Failed to create pulsesrc for system audio"));
    let out = configure_system_audio_source(Platform::Linux, Some(12), &Some("out.monitor".to_string()), false, false);
    assert_eq!(shown(&out), vec!["device: text out.monitor"]);
    let out = configure_system_audio_source(Platform::Windows, Some(12), &None, true, true);
    assert_eq!(
        shown(&out),
        vec!["loopback: bool true", "low-latency: bool true", "loopback-mode: parsed include-process-tree", "loopback-target-pid: u32 12"]
    );
    let out = configure_system_audio_source(Platform::Windows, Some(12), &None, true, false);
    assert_eq!(out.len(), 2);
}

#[test]
fn encode_chain_per_capture_path() {
    let p = link_video_chain(Platform::Linux, "ximagesrc");
    assert_eq!(p.add, vec![ChainElement::Convert, ChainElement::Scale, ChainElement::Caps]);
    assert_eq!(p.add_error, "Failed to add convert/scale/capsfilter to pipeline");
    assert_eq!(p.add_after, None);
    assert_eq!(p.link, vec![ChainElement::Start, ChainElement::Convert, ChainElement::Scale, ChainElement::Caps, ChainElement::Encoder, ChainElement::H264Caps]);
    assert_eq!(p.link_error, "Failed to link video elements: ");
    let p = link_video_chain(Platform::Windows, "d3d11screencapturesrc");
    assert_eq!(p.add, vec![ChainElement::D3d11Convert, ChainElement::D3d11Caps]);
    assert_eq!(p.link_error, "Failed to link d3d11 zero-copy chain: ");
    let p = link_video_chain(Platform::Windows, "d3d12screencapturesrc");
    assert_eq!(p.link[1], ChainElement::D3d12Download);
    assert_eq!(p.add_after, Some(ChainElement::D3d12Download));
    assert_eq!(p.add_after_error, "Failed to add d3d12download to pipeline");
    let p = link_video_chain(Platform::Linux, "d3d11screencapturesrc");
    assert_eq!(p.add.len(), 3);
    let c = chain_element_source(ChainElement::D3d11Caps).unwrap();
    assert_eq!((c.factory.as_str(), c.name.as_deref(), c.caps), ("capsfilter", Some("d3d11_capsfilter"), Some(CapsPreset::D3d11Nv12Hd60)));
    let d = chain_element_source(ChainElement::D3d12Download).unwrap();
    assert_eq!((d.factory.as_str(), d.name.as_deref()), ("d3d12download", None));
    assert!(chain_element_source(ChainElement::Convert).is_none());
}

#[test]
fn preview_branch_stages() {
    let v = build_preview_branch("ximagesrc");
    let names: Vec<&str> = v.iter().map(|s| s.name.as_str()).collect();
    assert_eq!(names, vec!["preview_queue", "preview_videoconvert", "preview_videoscale", "preview_videorate", "preview_capsfilter", "preview_jpegenc", "preview_fakesink"]);
    assert_eq!(shown(&v[0].settings), vec!["leaky: parsed downstream", "max-size-buffers: u32 2", "max-size-time: u64 0", "max-size-bytes: u32 0"]);
    assert_eq!(shown(&v[4].settings), vec!["caps: caps PreviewHd15"]);
    assert_eq!(shown(&v[5].settings), vec!["quality: i32 90"]);
    let v = build_preview_branch("d3d12screencapturesrc");
    assert_eq!((v[1].factory.as_str(), v[1].name.as_str(), v[1].optional), ("d3d12download", "preview_download", true));
}

#[test]
fn only_the_video_session_gets_a_retransmission_sender() {
    let p = aux_sender_for_session(0).unwrap();
    assert_eq!(
        shown(&p.settings),
        vec!["payload-type-map: structure application/x-rtp-pt-map 100=101", "ssrc-map: structure application/x-rtp-ssrc-map 2222=2223", "max-size-time: u32 1000", "max-size-packets: u32 0"]
    );
    assert_eq!((p.sink_pad.as_str(), p.src_pad.as_str()), ("sink_0", "src_0"));
    assert!(aux_sender_for_session(1).is_none());
}

#[test]
fn audio_teardown_removes_what_is_present() {
    let names = audio_chain_element_names();
    assert_eq!(names.len(), 17);
    assert_eq!(names[0], "system_audio_src");
    assert_eq!(names[10], "mixer_out_convert");
    let mut present = vec![false; 17];
    assert_eq!(disable_audio_chain(&present), None);
    present[0] = true;
    present[4] = true;
    present[9] = true;
    present[10] = true;
    present[16] = true;
    assert_eq!(disable_audio_chain(&present), Some(vec![0, 4, 9, 10, 16]));
}

#[test]
fn bus_messages() {
    let audio = Some("/GstPipeline:pipeline0/GstWasapi2Src:system_audio_src".to_string());
    let mic = Some("/GstPipeline:pipeline0/GstPulseSrc:mic_src".to_string());
    let video = Some("/GstPipeline:pipeline0/GstXImageSrc:screensrc".to_string());
    assert_eq!(bus_call(BusMessageKind::Eos, &None), BusAction::Stop);
    assert_eq!(bus_call(BusMessageKind::Error, &audio), BusAction::DisableAudio);
    assert_eq!(bus_call(BusMessageKind::Error, &mic), BusAction::DisableAudio);
    assert_eq!(bus_call(BusMessageKind::Error, &video), BusAction::Stop);
    assert_eq!(bus_call(BusMessageKind::Error, &None), BusAction::Stop);
    assert_eq!(bus_call(BusMessageKind::Warning, &audio), BusAction::Continue);
    assert_eq!(bus_call(BusMessageKind::Qos, &None), BusAction::Continue);
    assert_eq!(after_audio_teardown(true), BusAction::Continue);
    assert_eq!(after_audio_teardown(false), BusAction::Stop);
}

#[test]
fn failure_reports_list_the_queued_errors() {
    let msgs = vec![
        QueuedBusMessage { is_error: true, source: "a".to_string(), error: "e1".to_string(), debug: "d1".to_string() },
        QueuedBusMessage { is_error: false, source: "w".to_string(), error: "warn".to_string(), debug: "x".to_string() },
        QueuedBusMessage { is_error: true, source: "b".to_string(), error: "e2".to_string(), debug: "d2".to_string() },
    ];
    assert_eq!(drain_bus_errors(&msgs), " \u{2014} error from a: e1  debug=d1 \u{2014} error from b: e2  debug=d2");
    assert_eq!(drain_bus_errors(&Vec::new()), "");
}

#[test]
fn the_pipeline_is_the_first_ancestor_that_is_one() {
    assert_eq!(find_pipeline(&vec![false, false, true, true]), Some(2));
    assert_eq!(find_pipeline(&vec![true]), Some(0));
    assert_eq!(find_pipeline(&vec![false, false]), None);
    assert_eq!(find_pipeline(&Vec::new()), None);
}

#[test]
fn network_and_codec_settings() {
    let n = network_settings("10.0.0.2", 40000, 40001, "10.0.0.3", 40002, 40003);
    assert_eq!(shown(&n.rtp_sink), vec!["host: text 10.0.0.2", "port: i32 40000", "sync: bool false", "async: bool false", "buffer-size: i32 4194304"]);
    assert_eq!(shown(&n.rtcp_src), vec!["port: i32 5003", "buffer-size: i32 1048576"]);
    assert_eq!(shown(&n.audio_rtcp_sink)[1], "port: i32 40003");
    assert_eq!(shown(&n.audio_rtcp_src), vec!["port: i32 5005", "buffer-size: i32 262144"]);
    assert_eq!(shown(&rtph264pay_settings()), vec!["ssrc: u32 2222", "pt: u32 100", "config-interval: i32 -1", "mtu: u32 1400", "aggregate-mode: parsed zero-latency"]);
    assert_eq!(shown(&rtpopuspay_settings()), vec!["ssrc: u32 1111", "pt: u32 96", "mtu: u32 1400"]);
    assert_eq!(shown(&opusenc_settings()), vec!["bitrate: i32 128000", "audio-type: parsed generic", "inband-fec: bool true", "packet-loss-percentage: i32 5"]);
    assert_eq!(shown(&rtpbin_settings()), vec!["do-retransmission: bool true", "rtp-profile: avpf"]);
    assert_eq!(shown(&mixer_settings(true, false)), vec!["alignment-threshold: u64 200000000"]);
    assert_eq!(shown(&mixer_settings(false, true)), vec!["latency: u64 100000000"]);
    assert!(mic_valve_drop(true, true));
    assert!(mic_valve_drop(false, false));
    assert!(!mic_valve_drop(true, false));
    assert_eq!(system_audio_caps(true), CapsPreset::MixerF32Stereo);
    assert_eq!(system_audio_caps(false), CapsPreset::Audio48kStereo);
}
