use scapp::autopost::{autopost_request, autopost_submit};
use scapp::counters::{buffer_list_totals, FrameStage, RtpStage, StreamCounters};
use scapp::graph::{assemble_plan, build_plan, start_plan, GraphNode, GraphStep};
use scapp::presence::{
    activity_call_finished, app_id, clear, connect_finished, ensure_connected, set_streaming, ConnectStep, DiscordState,
};
use scapp::props::PropValue;
use scapp::session::{
    cleanup, cleanup_stops_recording_first, create_gstreamer_pipeline, get_preview_frame, init, init_finish,
    pipeline_started, recording_started, set_mic_muted, start_recording, start_streaming, stop_recording,
    stop_streaming, store_preview_jpeg, InitState, InitStep, PreviewFrame, RecordingStopStep, StreamState,
};

#[test]
fn gstreamer_is_initialised_once() {
    let mut s = InitState { initialized: false };
    assert_eq!(init(&s), InitStep::CallInit);
    let r = init_finish(&mut s, Err("no plugins".to_string()));
    assert_eq!(r.unwrap_err(), "Failed to initialize GStreamer: no plugins");
    assert!(!s.initialized);
    assert!(init_finish(&mut s, Ok(())).is_ok());
    assert_eq!(init(&s), InitStep::AlreadyInitialized);
}

#[test]
fn preview_frames_are_base64_jpeg_text() {
    let mut p = PreviewFrame::new();
    assert_eq!(get_preview_frame(&p).unwrap(), "");
    store_preview_jpeg(&mut p, b"abc");
    assert_eq!(get_preview_frame(&p).unwrap(), "YWJj");
    store_preview_jpeg(&mut p, &[0xff, 0xd8, 0xff, 0xe0]);
    assert_eq!(get_preview_frame(&p).unwrap(), "/9j/4A==");
}

#[test]
fn cleanup_releases_everything_and_is_idempotent() {
    let mut s = StreamState::new();
    pipeline_started(&mut s);
    let mut p = PreviewFrame::new();
    store_preview_jpeg(&mut p, b"x");
    assert!(!cleanup_stops_recording_first(&s));
    let a = cleanup(&mut s, &mut p);
    assert!(a.stop_stats && a.remove_bus_watch && a.stop_pipeline && a.quit_main_loop);
    assert_eq!(s, StreamState::new());
    assert_eq!(p.frame, "");
    let a = cleanup(&mut s, &mut p);
    assert!(!a.stop_stats && !a.remove_bus_watch && !a.stop_pipeline && !a.quit_main_loop);
    assert_eq!(s, StreamState::new());
}

#[test]
fn stopping_a_stream_always_succeeds() {
    let mut s = StreamState::new();
    let mut p = PreviewFrame::new();
    let (a, r) = stop_streaming(&mut s, &mut p);
    assert!(r.is_ok());
    assert!(!a.stop_pipeline);
    pipeline_started(&mut s);
    let (a, r) = stop_streaming(&mut s, &mut p);
    assert!(r.is_ok() && a.stop_pipeline);
}

#[test]
fn muting_touches_the_valve_only_when_there_is_one() {
    let mut s = StreamState::new();
    assert!(set_mic_muted(&s, true, true).unwrap().is_none());
    pipeline_started(&mut s);
    assert!(set_mic_muted(&s, false, true).unwrap().is_none());
    let setting = set_mic_muted(&s, true, true).unwrap().unwrap();
    assert_eq!(setting.name, "drop");
    assert!(matches!(setting.value, PropValue::Bool(true)));
}

#[test]
fn recording_start_stop_round_trip() {
    let mut s = StreamState::new();
    assert_eq!(start_recording(&s, true, "/tmp/a.mp4").err(), Some("No active pipeline".to_string()));
    pipeline_started(&mut s);
    assert_eq!(start_recording(&s, false, "/tmp/a.mp4").err(), Some("h264_tee not found in pipeline".to_string()));
    assert_eq!(stop_recording(&mut s, true, true).err(), Some("Not recording".to_string()));
    let before = s;
    let branch = start_recording(&s, true, "/tmp/a.mp4").unwrap();
    let names: Vec<&str> = branch.iter().map(|b| b.name.as_str()).collect();
    assert_eq!(names, vec!["rec_queue", "rec_h264parse", "rec_mux", "rec_filesink"]);
    assert_eq!(branch[3].error, "Failed to create rec_filesink (filesink)");
    assert!(matches!(&branch[3].settings[0].value, PropValue::Text(p) if p == "/tmp/a.mp4"));
    recording_started(&mut s);
    assert!(cleanup_stops_recording_first(&s));
    assert_eq!(start_recording(&s, true, "/tmp/b.mp4").err(), Some("Already recording".to_string()));
    assert_eq!(stop_recording(&mut s, true, false).err(), Some("rec_queue not found in pipeline".to_string()));
    let steps = stop_recording(&mut s, true, true).unwrap();
    let described: Vec<String> = steps
        .iter()
        .map(|st| match st {
            RecordingStopStep::DetachFromTee => "detach".to_string(),
            RecordingStopStep::SendEos => "eos".to_string(),
            RecordingStopStep::WaitMs(ms) => format!("wait {}", ms),
            RecordingStopStep::StopElement(n) => format!("stop {}", n),
            RecordingStopStep::RemoveElement(n) => format!("remove {}", n),
        })
        .collect();
    assert_eq!(
        described,
        vec![
            "detach", "eos", "wait 500", "stop rec_queue", "stop rec_h264parse", "stop rec_mux", "stop rec_filesink",
            "remove rec_queue", "remove rec_h264parse", "remove rec_mux", "remove rec_filesink",
        ]
    );
    assert_eq!(s, before);
}

#[test]
fn starting_a_stream_reports_success_or_the_error() {
    assert_eq!(start_streaming(Ok(())).unwrap(), "Streaming started successfully");
    assert_eq!(start_streaming(Err("Failed to add bus watch".to_string())).unwrap_err(), "Failed to add bus watch");
}

fn added(steps: &[GraphStep]) -> Vec<GraphNode> {
    let mut out = Vec::new();
    for s in steps {
        if let GraphStep::Add { nodes, .. } = s {
            out.extend(nodes.iter().copied());
        }
    }
    out
}

fn made(steps: &[GraphStep]) -> Vec<GraphNode> {
    let mut out = Vec::new();
    for s in steps {
        match s {
            GraphStep::Make { node, .. } => out.push(*node),
            GraphStep::MakeVideoSource { .. } => out.push(GraphNode::VideoSource),
            GraphStep::MakeVideoEncoder => out.push(GraphNode::VideoEncoder),
            GraphStep::MakeSystemAudioSource { .. } => out.push(GraphNode::SystemAudioSrc),
            GraphStep::MakeMicSource { .. } => out.push(GraphNode::MicSrc),
            _ => {}
        }
    }
    out
}

#[test]
fn a_stream_without_a_microphone_has_no_mixer() {
    let s = StreamState::new();
    let plan = create_gstreamer_pipeline(&s, "10.0.0.2", 40000, 40001, "10.0.0.2", 40002, 40003, None, None, Some(0), true, &None, false);
    assert!(!plan.cleanup_first);
    let m = made(&plan.build);
    assert!(!m.contains(&GraphNode::MicSrc) && !m.contains(&GraphNode::AudioMixer));
    assert_eq!(m.len(), 25);
    let a = added(&plan.assemble);
    assert_eq!(a.len(), 22);
    assert!(!a.contains(&GraphNode::MixerOutConvert));
    match &plan.build[0] {
        GraphStep::Make { factory, name, error, .. } => {
            assert_eq!((factory.as_str(), name.as_str(), error.as_str()), ("rtpbin", "rtpbin", "Failed to create rtpbin element"));
        }
        _ => panic!("rtpbin is made first"),
    }
    assert_eq!(plan.start.len(), 5);
}

#[test]
fn a_stream_with_a_microphone_mixes_it_in() {
    let mut s = StreamState::new();
    pipeline_started(&mut s);
    let id = Some("alsa_input.usb".to_string());
    let plan = create_gstreamer_pipeline(&s, "h", 1, 2, "h", 3, 4, Some(7), Some(99), None, false, &id, false);
    assert!(plan.cleanup_first);
    let m = made(&plan.build);
    assert!(m.contains(&GraphNode::MicSrc) && m.contains(&GraphNode::AudioMixer));
    let valve = plan.build.iter().find_map(|st| match st {
        GraphStep::Configure { node: GraphNode::MicValve, settings } => Some(settings),
        _ => None,
    });
    assert!(matches!(valve.unwrap()[0].value, PropValue::Bool(true)));
    let a = added(&plan.assemble);
    assert_eq!(a.len(), 22 + 5 + 1 + 1);
    assert!(a.contains(&GraphNode::MixerOutConvert));
    assert!(plan.assemble.iter().any(|st| matches!(st, GraphStep::LinkToMixerPad { node: GraphNode::MicValve, pad: 1, .. })));
    assert!(build_plan("h", 1, 2, "h", 3, 4, None, None, None, true, &id, true).len() > 40);
}

#[test]
fn every_linked_element_was_added_first() {
    for mic in [false, true] {
        let steps = assemble_plan(mic);
        let mut seen: Vec<GraphNode> = Vec::new();
        for st in &steps {
            match st {
                GraphStep::Add { nodes, .. } => seen.extend(nodes.iter().copied()),
                GraphStep::Link { nodes, .. } => assert!(nodes.iter().all(|n| seen.contains(n))),
                GraphStep::LinkPads { from, to, .. } => assert!(seen.contains(from) && seen.contains(to)),
                GraphStep::LinkToMixerPad { node, .. } => assert!(seen.contains(node) && seen.contains(&GraphNode::AudioMixer)),
                _ => {}
            }
        }
    }
    match &start_plan()[3] {
        GraphStep::Play { error } => assert_eq!(error, "Failed to start pipeline: "),
        _ => panic!("playing is the fourth start step"),
    }
}

#[test]
fn counters_take_what_was_counted_and_restart() {
    let mut c = StreamCounters::new();
    c.count_frame(FrameStage::Source);
    c.count_frame(FrameStage::Source);
    c.count_frame(FrameStage::EncoderOutput);
    let (n, b) = buffer_list_totals(&vec![1200, 1200, 300]);
    assert_eq!((n, b), (3, 2700));
    c.count_packets(RtpStage::Payloader, n, b);
    c.count_packets(RtpStage::UdpSink, 1, 1200);
    let r = c.take();
    assert_eq!((r.src_buffers, r.enc_in_buffers, r.enc_buffers), (2, 0, 1));
    assert_eq!((r.pay_buffers, r.pay_bytes, r.udp_buffers, r.udp_bytes), (3, 2700, 1, 1200));
    assert_eq!(c, StreamCounters::new());
    assert_eq!(c.take(), StreamCounters::new());
    let mut w = StreamCounters::new();
    w.udp_bytes = u64::MAX;
    w.count_packets(RtpStage::UdpSink, 1, 2);
    assert_eq!(w.udp_bytes, 1);
    assert_eq!(buffer_list_totals(&Vec::new()), (0, 0));
}

#[test]
fn discord_presence_connects_publishes_and_reconnects_after_failure() {
    assert_eq!(app_id(), "1371963968804880456");
    let mut s = DiscordState::new();
    assert!(set_streaming(&s, "p1", Some(100)).is_none());
    assert!(!clear(&s));
    assert_eq!(ensure_connected(&s), ConnectStep::Connect { make_client: true });
    assert!(!connect_finished(&mut s, false));
    assert_eq!(ensure_connected(&s), ConnectStep::Connect { make_client: false });
    assert!(connect_finished(&mut s, true));
    assert_eq!(ensure_connected(&s), ConnectStep::Connected);
    let a = set_streaming(&s, "abc-123", Some(1_700_000_000)).unwrap();
    assert_eq!(a.details, "Streaming via StreamSnipe");
    assert_eq!(a.state, "Live now");
    assert_eq!(a.large_image, "scope_monogram");
    assert_eq!(a.large_text, "StreamSnipe");
    assert_eq!(a.button_label, "Watch Stream");
    assert_eq!(a.button_url, "https://streamsnipe.live?streamId=abc-123");
    assert_eq!(a.start, 1_700_000_000);
    assert_eq!(set_streaming(&s, "x", None).unwrap().start, 0);
    activity_call_finished(&mut s, true);
    assert!(clear(&s));
    activity_call_finished(&mut s, false);
    assert!(!clear(&s));
    assert_eq!(ensure_connected(&s), ConnectStep::Connect { make_client: false });
}

#[test]
fn autopost_form_fields_in_order() {
    let r = autopost_request(
        None,
        "My clip".to_string(),
        Some("desc".to_string()),
        Some(vec!["a".to_string(), "b".to_string()]),
        None,
        Some(vec!["youtube".to_string()]),
        Some("2025-01-01T00:00:00Z".to_string()),
    );
    assert_eq!(r.url, "https://streamsnipe.live/api/autopost/posts");
    assert_eq!((r.part_name.as_str(), r.file_name.as_str(), r.mime.as_str()), ("video", "clip.mp4", "video/mp4"));
    let fields: Vec<(String, String)> = r.fields.iter().map(|f| (f.name.clone(), f.value.clone())).collect();
    let expected: Vec<(String, String)> = vec![
        ("title", "My clip"),
        ("description", "desc"),
        ("publish_at", "2025-01-01T00:00:00Z"),
        ("tags[]", "a"),
        ("tags[]", "b"),
        ("services[]", "youtube"),
    ]
    .into_iter()
    .map(|(a, b)| (a.to_string(), b.to_string()))
    .collect();
    assert_eq!(fields, expected);
    let r = autopost_request(Some("x.mp4".to_string()), "t".to_string(), None, None, Some("public".to_string()), None, None);
    assert_eq!(r.file_name, "x.mp4");
    assert_eq!(r.fields.len(), 2);
    let r = autopost_submit("/home/u/clips/match.mp4", "t".to_string(), None, None, None, None, None);
    assert_eq!(r.file_name, "match.mp4");
    assert_eq!(r.fields.len(), 1);
    let r = autopost_submit("..", "t".to_string(), None, None, None, None, None);
    assert_eq!(r.file_name, "clip.mp4");
}

#[test]
fn session_objects_are_held_together_through_start_and_cleanup() {
    let held = |s: &StreamState| s.pipeline == s.main_loop && s.pipeline == s.bus_watch && s.pipeline == s.stats_stop;
    let mut s = StreamState::new();
    let mut preview = PreviewFrame::new();
    assert!(held(&s));
    pipeline_started(&mut s);
    assert!(held(&s) && s.pipeline && s.stats_stop);
    let a = cleanup(&mut s, &mut preview);
    assert!(a.stop_pipeline && a.stop_stats && a.remove_bus_watch && a.quit_main_loop);
    assert!(held(&s) && !s.pipeline);
}
