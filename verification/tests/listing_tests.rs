use base64::Engine;
use scapp::autopost::autopost_submit;
use scapp::pipeline::{build_preview_branch, preview_chain_indices, PreviewStage};
use scapp::props::{caps_structure, CapsFieldValue, CapsPreset};
use scapp::session::{get_preview_frame, store_preview_jpeg, PreviewFrame};
use scapp::windows::{monitors_from_outputs, x11_select_windows, CrtcGeometry, X11OutputRecord, X11WindowRecord};

const HIDDEN: u32 = 77;

fn record(win: u32, state: Option<Vec<u32>>, net: Option<&[u8]>, wm: Option<&[u8]>) -> X11WindowRecord {
    X11WindowRecord { win, state_atoms: state, net_wm_name: net.map(|b| b.to_vec()), wm_name: wm.map(|b| b.to_vec()) }
}

#[test]
fn x11_windows_listed_in_client_order_without_hidden_or_untitled() {
    let records = vec![
        record(10, None, Some(b"Editor"), None),
        record(11, Some(vec![5, HIDDEN]), Some(b"Hidden"), None),
        record(12, Some(vec![5]), Some(b""), Some(b"Terminal")),
        record(13, None, None, None),
        record(14, None, Some(&[0xff, 0xfe]), Some(&[0xc3])),
        record(15, None, Some("Café".as_bytes()), Some(b"ignored")),
    ];
    let out = x11_select_windows(records, HIDDEN);
    let got: Vec<(u32, String)> = out.into_iter().map(|l| (l.win, l.title)).collect();
    assert_eq!(got, vec![(10, "Editor".to_string()), (12, "Terminal".to_string()), (15, "Café".to_string())]);
}

#[test]
fn x11_window_selection_of_nothing_is_empty() {
    assert!(x11_select_windows(Vec::new(), HIDDEN).is_empty());
}

fn output(name: &str, connected: bool, crtc: u32, geometry: Option<(i16, i16, u16, u16)>) -> X11OutputRecord {
    X11OutputRecord {
        name: name.to_string(),
        connected,
        crtc,
        geometry: geometry.map(|(x, y, width, height)| CrtcGeometry { x, y, width, height }),
    }
}

#[test]
fn x11_monitors_are_the_active_outputs_sorted_by_position() {
    let outputs = vec![
        output("HDMI-1", true, 81, Some((1920, 0, 2560, 1440))),
        output("DP-1", false, 0, None),
        output("eDP-1", true, 80, Some((0, 0, 1920, 1080))),
        output("DP-2", true, 0, None),
        output("VGA-1", false, 82, None),
        output("DP-3", true, 83, Some((-1280, 200, 1280, 1024))),
    ];
    let out = monitors_from_outputs(&outputs);
    let got: Vec<(String, i32, i32, u32, u32)> = out.iter().map(|m| (m.name.clone(), m.x, m.y, m.width, m.height)).collect();
    assert_eq!(
        got,
        vec![
            ("DP-3".to_string(), -1280, 200, 1280, 1024),
            ("eDP-1".to_string(), 0, 0, 1920, 1080),
            ("HDMI-1".to_string(), 1920, 0, 2560, 1440),
        ]
    );
    assert!(out.iter().all(|m| m.thumbnail.is_empty()));
}

#[test]
fn x11_monitors_at_one_place_keep_randr_order() {
    let outputs = vec![output("B", true, 2, Some((0, 0, 800, 600))), output("A", true, 1, Some((0, 0, 1024, 768)))];
    let names: Vec<String> = monitors_from_outputs(&outputs).into_iter().map(|m| m.name).collect();
    assert_eq!(names, vec!["B", "A"]);
}

fn described(p: CapsPreset) -> (String, Vec<String>, Vec<String>) {
    let s = caps_structure(p);
    let fields = s
        .fields
        .iter()
        .map(|f| match &f.value {
            CapsFieldValue::Str(v) => format!("{}={}", f.name, v),
            CapsFieldValue::Int(v) => format!("{}={}", f.name, v),
            CapsFieldValue::Fraction(n, d) => format!("{}={}/{}", f.name, n, d),
            CapsFieldValue::Bitmask(m) => format!("{}=0x{:x}", f.name, m),
        })
        .collect();
    (s.media_type, s.features, fields)
}

#[test]
fn caps_presets_pin_their_fields() {
    let (t, f, fields) = described(CapsPreset::RawNv12Hd60);
    assert_eq!((t.as_str(), f.len()), ("video/x-raw", 0));
    assert_eq!(fields, vec!["format=NV12", "width=1920", "height=1080", "framerate=60/1"]);
    let (t, f, fields) = described(CapsPreset::D3d11Nv12Hd60);
    assert_eq!((t.as_str(), f), ("video/x-raw", vec!["memory:D3D11Memory".to_string()]));
    assert_eq!(fields, vec!["format=NV12", "width=1920", "height=1080", "framerate=60/1"]);
    assert_eq!(described(CapsPreset::H264High).2, vec!["profile=high"]);
    assert_eq!(described(CapsPreset::H264High).0, "video/x-h264");
    assert_eq!(described(CapsPreset::Audio48kStereo).2, vec!["rate=48000", "channels=2"]);
    let (t, _, fields) = described(CapsPreset::MixerF32Stereo);
    assert_eq!(t, "audio/x-raw");
    assert_eq!(fields, vec!["format=F32LE", "layout=interleaved", "rate=48000", "channels=2", "channel-mask=0x3"]);
    assert_eq!(described(CapsPreset::PreviewHd15).2, vec!["width=1920", "height=1080", "framerate=15/1"]);
}

#[test]
fn preview_frame_decodes_back_to_the_jpeg() {
    let jpeg: Vec<u8> = vec![0xff, 0xd8, 0xff, 0xe0, 0x00, 0x10, b'J', b'F', b'I', b'F', 0x00, 0xff, 0xd9];
    let mut p = PreviewFrame::new();
    store_preview_jpeg(&mut p, &jpeg);
    let text = get_preview_frame(&p).unwrap();
    assert_eq!(base64::engine::general_purpose::STANDARD.decode(text).unwrap(), jpeg);
}

#[test]
fn autopost_file_name_is_the_last_path_component() {
    assert_eq!(autopost_submit("clip.mp4", "t".to_string(), None, None, None, None, None).file_name, "clip.mp4");
    assert_eq!(autopost_submit("/a/b/c d.mkv", "t".to_string(), None, None, None, None, None).file_name, "c d.mkv");
}

#[test]
fn autopost_path_ending_in_parent_uploads_as_clip_mp4() {
    assert_eq!(autopost_submit("clips/..", "t".to_string(), None, None, None, None, None).file_name, "clip.mp4");
}

fn preview_stages(src: &str) -> Vec<PreviewStage> {
    build_preview_branch(src)
}

#[test]
fn preview_branch_attaches_only_when_every_required_stage_was_made() {
    let plain = preview_stages("ximagesrc");
    assert_eq!(plain.len(), 7);
    assert_eq!(preview_chain_indices(&plain, &vec![true; 7]), Some(vec![0, 1, 2, 3, 4, 5, 6]));
    // The jpeg encoder is missing: the attempt stops there and nothing is attached.
    assert_eq!(preview_chain_indices(&plain, &vec![true, true, true, true, true, false]), None);
    assert_eq!(preview_chain_indices(&plain, &vec![true, true, true, true, true, false, true]), None);
    assert_eq!(preview_chain_indices(&plain, &vec![false]), None);
    let d3d = preview_stages("d3d11screencapturesrc");
    assert_eq!(d3d.len(), 8);
    assert!(d3d[1].optional);
    // The GPU download may be missing; the rest is linked without it.
    assert_eq!(
        preview_chain_indices(&d3d, &vec![true, false, true, true, true, true, true, true]),
        Some(vec![0, 2, 3, 4, 5, 6, 7])
    );
}
