//! Capture sources: which video and audio source elements are built and how
//! they are configured.
use vstd::prelude::*;
use crate::devices::{AudioDeviceRecord, AudioDeviceRecordView, MicDevice, MicDeviceView};
use crate::monitors::{MonitorInfo, MonitorInfoView};
use crate::platform::Platform;
use crate::props::{
    PropSetting, PropSettingView, PropValueView, push_setting, set_bool, set_parsed, set_text, set_u32, setting,
    PropValue,
};
use crate::text::str_equals;

verus! {

/// Whether the session is a Wayland one: `WAYLAND_DISPLAY` set and non-empty,
/// or `XDG_SESSION_TYPE` equal to `wayland` (each `None` when unset).
pub fn is_wayland(wayland_display: &Option<String>, session_type: &Option<String>) -> (b: bool)
    ensures
        b == ((wayland_display is Some && wayland_display.unwrap()@.len() > 0)
            || (session_type is Some && session_type.unwrap()@ == "wayland"@)),
{
    let display_set = match wayland_display {
        Some(v) => v.as_str().unicode_len() > 0,
        None => false,
    };
    let session_wayland = match session_type {
        Some(v) => str_equals(v.as_str(), "wayland"),
        None => false,
    };
    display_set || session_wayland
}

/// A source element to try: the factory and the name the element gets.
pub struct SourceCandidate {
    pub factory: String,
    pub name: String,
}

/// Mathematical form of a [`SourceCandidate`].
pub struct SourceCandidateView {
    pub factory: Seq<char>,
    pub name: Seq<char>,
}

impl DeepView for SourceCandidate {
    type V = SourceCandidateView;

    open spec fn deep_view(&self) -> SourceCandidateView {
        SourceCandidateView { factory: self.factory@, name: self.name@ }
    }
}

/// The candidate built from `factory`, named `name`.
pub open spec fn candidate(factory: Seq<char>, name: Seq<char>) -> SourceCandidateView {
    SourceCandidateView { factory, name }
}

/// The video capture sources tried in order, and the error reported when none
/// can be made.
///
/// Linux: capturing a window (a non-zero handle) needs `ximagesrc`; otherwise a
/// Wayland session tries `pipewiresrc`, then every session tries `ximagesrc`
/// and falls back to `videotestsrc`; each element is named `screensrc`.
/// Windows: capturing a window needs `d3d11screencapturesrc`; otherwise D3D11,
/// D3D12 and DX9 screen capture are tried before `videotestsrc`, each element
/// named after its factory.
pub open spec fn video_source_candidates(platform: Platform, window_handle: Option<u64>, wayland: bool)
    -> (Seq<SourceCandidateView>, Seq<char>)
{
    let window = window_handle is Some && window_handle.unwrap() != 0;
    match platform {
        Platform::Linux => if window {
            (seq![candidate("ximagesrc"@, "screensrc"@)], "ximagesrc unavailable — required for X11 window capture"@)
        } else if wayland {
            (seq![
                candidate("pipewiresrc"@, "screensrc"@),
                candidate("ximagesrc"@, "screensrc"@),
                candidate("videotestsrc"@, "screensrc"@),
            ], "Failed to create any video source element"@)
        } else {
            (seq![
                candidate("ximagesrc"@, "screensrc"@),
                candidate("videotestsrc"@, "screensrc"@),
            ], "Failed to create any video source element"@)
        },
        Platform::Windows => if window {
            (seq![candidate("d3d11screencapturesrc"@, "d3d11screencapturesrc"@)],
                "d3d11screencapturesrc unavailable — required for window capture"@)
        } else {
            (seq![
                candidate("d3d11screencapturesrc"@, "d3d11screencapturesrc"@),
                candidate("d3d12screencapturesrc"@, "d3d12screencapturesrc"@),
                candidate("dx9screencapsrc"@, "dx9screencapsrc"@),
                candidate("videotestsrc"@, "videotestsrc"@),
            ], "Failed to create any video source element"@)
        },
    }
}

fn push_candidate(list: &mut Vec<SourceCandidate>, factory: &str, name: &str)
    ensures
        final(list).deep_view() == old(list).deep_view().push(candidate(factory@, name@)),
{
    let ghost before = list.deep_view();
    list.push(SourceCandidate { factory: String::from_str(factory), name: String::from_str(name) });
    assert(list.deep_view() =~= before.push(candidate(factory@, name@)));
}

/// The video capture sources to try, in order, and the error when none works.
pub fn create_video_source(platform: Platform, window_handle: Option<u64>, wayland: bool)
    -> (r: (Vec<SourceCandidate>, String))
    ensures
        r.0.deep_view() == video_source_candidates(platform, window_handle, wayland).0,
        r.1@ == video_source_candidates(platform, window_handle, wayland).1,
{
    let window = match window_handle {
        Some(h) => h != 0,
        None => false,
    };
    let mut v: Vec<SourceCandidate> = Vec::new();
    match platform {
        Platform::Linux => {
            if window {
                push_candidate(&mut v, "ximagesrc", "screensrc");
                assert(v.deep_view() =~= video_source_candidates(platform, window_handle, wayland).0);
                return (v, String::from_str("ximagesrc unavailable — required for X11 window capture"));
            }
            if wayland {
                push_candidate(&mut v, "pipewiresrc", "screensrc");
            }
            push_candidate(&mut v, "ximagesrc", "screensrc");
            push_candidate(&mut v, "videotestsrc", "screensrc");
            assert(v.deep_view() =~= video_source_candidates(platform, window_handle, wayland).0);
            (v, String::from_str("Failed to create any video source element"))
        },
        Platform::Windows => {
            if window {
                push_candidate(&mut v, "d3d11screencapturesrc", "d3d11screencapturesrc");
                assert(v.deep_view() =~= video_source_candidates(platform, window_handle, wayland).0);
                return (v, String::from_str("d3d11screencapturesrc unavailable — required for window capture"));
            }
            push_candidate(&mut v, "d3d11screencapturesrc", "d3d11screencapturesrc");
            push_candidate(&mut v, "d3d12screencapturesrc", "d3d12screencapturesrc");
            push_candidate(&mut v, "dx9screencapsrc", "dx9screencapsrc");
            push_candidate(&mut v, "videotestsrc", "videotestsrc");
            assert(v.deep_view() =~= video_source_candidates(platform, window_handle, wayland).0);
            (v, String::from_str("Failed to create any video source element"))
        },
    }
}

/// Whether configuring the source needs the monitor list: only `ximagesrc` on
/// Linux capturing a monitor (no window handle) with a monitor index.
pub open spec fn monitor_list_needed(platform: Platform, factory: Seq<char>, window_handle: Option<u64>, monitor_index: Option<u32>) -> bool {
    platform == Platform::Linux && factory == "ximagesrc"@
        && !(window_handle is Some && window_handle.unwrap() != 0) && monitor_index is Some
}

/// Whether configuring the source needs the monitor list.
pub fn needs_monitor_list(platform: Platform, factory: &str, window_handle: Option<u64>, monitor_index: Option<u32>) -> (b: bool)
    ensures
        b == monitor_list_needed(platform, factory@, window_handle, monitor_index),
{
    let window = match window_handle {
        Some(h) => h != 0,
        None => false,
    };
    platform == Platform::Linux && str_equals(factory, "ximagesrc") && !window && monitor_index.is_some()
}

/// The `ximagesrc` capture region for a monitor: from its top-left corner to
/// its bottom-right pixel, as 32-bit arithmetic computes it (wrapping on
/// overflow) and reinterpreted as unsigned.
pub open spec fn monitor_region(m: MonitorInfoView) -> Seq<PropSettingView> {
    seq![
        setting("startx"@, PropValueView::U32(m.x as u32)),
        setting("starty"@, PropValueView::U32(m.y as u32)),
        setting("endx"@, PropValueView::U32(m.x.wrapping_add(m.width as i32).wrapping_sub(1) as u32)),
        setting("endy"@, PropValueView::U32(m.y.wrapping_add(m.height as i32).wrapping_sub(1) as u32)),
    ]
}

/// How a capture source made by `factory` is configured. `monitors` is the
/// monitor list when it was needed and could be read.
///
/// Linux `ximagesrc`: no damage tracking, pointer shown, then the window id
/// when capturing a window, else the region of the chosen monitor when the
/// list holds it. `videotestsrc`: the SMPTE pattern, live. Windows D3D11
/// capture: cursor shown, Windows Graphics Capture, then the window handle or
/// the monitor index (0 by default, reinterpreted as signed); D3D12 and DX9
/// capture: cursor shown and the monitor index. Other sources (`pipewiresrc`)
/// are left as they are.
pub open spec fn video_source_plan(
    platform: Platform,
    factory: Seq<char>,
    window_handle: Option<u64>,
    monitor_index: Option<u32>,
    monitors: Option<Seq<MonitorInfoView>>,
) -> Seq<PropSettingView> {
    let window = window_handle is Some && window_handle.unwrap() != 0;
    let test_pattern = seq![
        setting("pattern"@, PropValueView::Parsed("smpte"@)),
        setting("is-live"@, PropValueView::Bool(true)),
    ];
    match platform {
        Platform::Linux => if factory == "ximagesrc"@ {
            seq![
                setting("use-damage"@, PropValueView::Bool(false)),
                setting("show-pointer"@, PropValueView::Bool(true)),
            ] + if window {
                seq![setting("xid"@, PropValueView::U64(window_handle.unwrap()))]
            } else if monitor_index is Some && monitors is Some
                && (monitor_index.unwrap() as int) < monitors.unwrap().len() {
                monitor_region(monitors.unwrap()[monitor_index.unwrap() as int])
            } else {
                seq![]
            }
        } else if factory == "videotestsrc"@ {
            test_pattern
        } else {
            seq![]
        },
        Platform::Windows => {
            let idx: i32 = if monitor_index is Some { monitor_index.unwrap() as i32 } else { 0 };
            if factory == "d3d11screencapturesrc"@ {
                seq![
                    setting("show-cursor"@, PropValueView::Bool(true)),
                    setting("capture-api"@, PropValueView::Parsed("wgc"@)),
                ] + if window {
                    seq![setting("window-handle"@, PropValueView::U64(window_handle.unwrap()))]
                } else {
                    seq![setting("monitor-index"@, PropValueView::I32(idx))]
                }
            } else if factory == "d3d12screencapturesrc"@ || factory == "dx9screencapsrc"@ {
                seq![
                    setting("show-cursor"@, PropValueView::Bool(true)),
                    setting("monitor-index"@, PropValueView::I32(idx)),
                ]
            } else if factory == "videotestsrc"@ {
                test_pattern
            } else {
                seq![]
            }
        },
    }
}

/// The property settings for a capture source made by `factory`.
pub fn configure_video_source(
    platform: Platform,
    factory: &str,
    window_handle: Option<u64>,
    monitor_index: Option<u32>,
    monitors: &Option<Vec<MonitorInfo>>,
) -> (out: Vec<PropSetting>)
    ensures
        out.deep_view() == video_source_plan(platform, factory@, window_handle, monitor_index,
            match monitors { Some(v) => Some(v.deep_view()), None => None }),
{
    let ghost mv = match monitors { Some(v) => Some(v.deep_view()), None => None };
    let mut out: Vec<PropSetting> = Vec::new();
    let window = match window_handle {
        Some(h) => h != 0,
        None => false,
    };
    match platform {
        Platform::Linux => {
            if str_equals(factory, "ximagesrc") {
                push_setting(&mut out, set_bool("use-damage", false));
                push_setting(&mut out, set_bool("show-pointer", true));
                if window {
                    let xid: u64 = match window_handle { Some(h) => h, None => 0 };
                    push_setting(&mut out, PropSetting { name: String::from_str("xid"), value: PropValue::U64(xid) });
                } else {
                    match (monitor_index, monitors) {
                        (Some(idx), Some(list)) => {
                            if (idx as usize) < list.len() {
                                let m = &list[idx as usize];
                                assert(list.deep_view()[idx as int] == m@);
                                push_setting(&mut out, set_u32("startx", m.x as u32));
                                push_setting(&mut out, set_u32("starty", m.y as u32));
                                push_setting(&mut out, set_u32("endx", m.x.wrapping_add(m.width as i32).wrapping_sub(1) as u32));
                                push_setting(&mut out, set_u32("endy", m.y.wrapping_add(m.height as i32).wrapping_sub(1) as u32));
                            }
                        },
                        _ => {},
                    }
                }
            } else if str_equals(factory, "videotestsrc") {
                push_setting(&mut out, set_parsed("pattern", "smpte"));
                push_setting(&mut out, set_bool("is-live", true));
            }
        },
        Platform::Windows => {
            let idx: i32 = match monitor_index {
                Some(i) => i as i32,
                None => 0,
            };
            if str_equals(factory, "d3d11screencapturesrc") {
                push_setting(&mut out, set_bool("show-cursor", true));
                push_setting(&mut out, set_parsed("capture-api", "wgc"));
                if window {
                    let hwnd: u64 = match window_handle { Some(h) => h, None => 0 };
                    push_setting(&mut out, PropSetting { name: String::from_str("window-handle"), value: PropValue::U64(hwnd) });
                } else {
                    push_setting(&mut out, PropSetting { name: String::from_str("monitor-index"), value: PropValue::I32(idx) });
                }
            } else if str_equals(factory, "d3d12screencapturesrc") || str_equals(factory, "dx9screencapsrc") {
                push_setting(&mut out, set_bool("show-cursor", true));
                push_setting(&mut out, PropSetting { name: String::from_str("monitor-index"), value: PropValue::I32(idx) });
            } else if str_equals(factory, "videotestsrc") {
                push_setting(&mut out, set_parsed("pattern", "smpte"));
                push_setting(&mut out, set_bool("is-live", true));
            }
        },
    }
    assert(out.deep_view() =~= video_source_plan(platform, factory@, window_handle, monitor_index, mv));
    out
}

} // verus!

verus! {

/// The element that captures system audio (named `system_audio_src`) and the
/// error when it cannot be made: PulseAudio on Linux, WASAPI2 on Windows.
pub open spec fn system_audio_element(platform: Platform) -> (SourceCandidateView, Seq<char>) {
    match platform {
        Platform::Linux => (candidate("pulsesrc"@, "system_audio_src"@), "Failed to create pulsesrc for system audio"@),
        Platform::Windows => (candidate("wasapi2src"@, "system_audio_src"@), "Failed to create wasapi2src element"@),
    }
}

/// The system audio element to make and the error when it cannot be made.
pub fn create_system_audio_source(platform: Platform) -> (r: (SourceCandidate, String))
    ensures
        r.0.deep_view() == system_audio_element(platform).0,
        r.1@ == system_audio_element(platform).1,
{
    match platform {
        Platform::Linux => (
            SourceCandidate { factory: String::from_str("pulsesrc"), name: String::from_str("system_audio_src") },
            String::from_str("Failed to create pulsesrc for system audio"),
        ),
        Platform::Windows => (
            SourceCandidate { factory: String::from_str("wasapi2src"), name: String::from_str("system_audio_src") },
            String::from_str("Failed to create wasapi2src element"),
        ),
    }
}

/// How the system audio element is configured. Linux: it records the default
/// output's monitor source when one was found. Windows: loopback capture at
/// low latency, limited to the process tree of a non-zero process id when the
/// element supports both process-loopback properties.
pub open spec fn system_audio_plan(
    platform: Platform,
    process_pid: Option<u32>,
    monitor_source: Option<Seq<char>>,
    has_loopback_mode: bool,
    has_target_pid: bool,
) -> Seq<PropSettingView> {
    match platform {
        Platform::Linux => if monitor_source is Some {
            seq![setting("device"@, PropValueView::Text(monitor_source.unwrap()))]
        } else {
            seq![]
        },
        Platform::Windows => seq![
            setting("loopback"@, PropValueView::Bool(true)),
            setting("low-latency"@, PropValueView::Bool(true)),
        ] + if process_pid is Some && process_pid.unwrap() != 0 && has_loopback_mode && has_target_pid {
            seq![
                setting("loopback-mode"@, PropValueView::Parsed("include-process-tree"@)),
                setting("loopback-target-pid"@, PropValueView::U32(process_pid.unwrap())),
            ]
        } else {
            seq![]
        },
    }
}

/// The property settings for the system audio element.
pub fn configure_system_audio_source(
    platform: Platform,
    process_pid: Option<u32>,
    monitor_source: &Option<String>,
    has_loopback_mode: bool,
    has_target_pid: bool,
) -> (out: Vec<PropSetting>)
    ensures
        out.deep_view() == system_audio_plan(platform, process_pid, monitor_source.deep_view(), has_loopback_mode, has_target_pid),
{
    let mut out: Vec<PropSetting> = Vec::new();
    match platform {
        Platform::Linux => {
            match monitor_source {
                Some(name) => push_setting(&mut out, set_text("device", name.as_str())),
                None => {},
            }
        },
        Platform::Windows => {
            push_setting(&mut out, set_bool("loopback", true));
            push_setting(&mut out, set_bool("low-latency", true));
            match process_pid {
                Some(pid) => {
                    if pid != 0 && has_loopback_mode && has_target_pid {
                        push_setting(&mut out, set_parsed("loopback-mode", "include-process-tree"));
                        push_setting(&mut out, set_u32("loopback-target-pid", pid));
                    }
                },
                None => {},
            }
        },
    }
    assert(out.deep_view() =~= system_audio_plan(platform, process_pid, monitor_source.deep_view(), has_loopback_mode, has_target_pid));
    out
}

/// The name of a monitor-class record: its node name, else its device name.
pub open spec fn monitor_record_name(r: AudioDeviceRecordView) -> Option<Seq<char>> {
    if r.node_name is Some { r.node_name } else { r.device_name }
}

/// The default output's monitor source: the name of the first record of class
/// `monitor` that has a node name or device name.
pub open spec fn default_monitor_source(rs: Seq<AudioDeviceRecordView>) -> Option<Seq<char>>
    decreases rs.len(),
{
    if rs.len() == 0 {
        None
    } else if rs[0].class == Some("monitor"@) && monitor_record_name(rs[0]) is Some {
        monitor_record_name(rs[0])
    } else {
        default_monitor_source(rs.drop_first())
    }
}

/// Finds the monitor source of the default output among the audio source
/// devices the device monitor reports.
pub fn find_default_monitor_source(records: &Vec<AudioDeviceRecord>) -> (r: Option<String>)
    ensures
        r.deep_view() == default_monitor_source(records.deep_view()),
{
    let ghost all = records.deep_view();
    assert(all.skip(0) =~= all);
    let mut i: usize = 0;
    while i < records.len()
        invariant
            i <= records.len(),
            all == records.deep_view(),
            default_monitor_source(all) == default_monitor_source(all.skip(i as int)),
        decreases records.len() - i,
    {
        let r = &records[i];
        let ghost rest = all.skip(i as int);
        assert(rest[0] == r.deep_view());
        assert(rest.drop_first() =~= all.skip(i + 1));
        let is_monitor = match &r.class {
            Some(c) => str_equals(c.as_str(), "monitor"),
            None => false,
        };
        if is_monitor {
            match &r.node_name {
                Some(n) => {
                    return Some(n.clone());
                },
                None => {},
            }
            match &r.device_name {
                Some(n) => {
                    return Some(n.clone());
                },
                None => {},
            }
        }
        i = i + 1;
    }
    assert(all.skip(records.len() as int).len() == 0);
    None
}

/// Where the microphone element comes from: built from the listed device at
/// this index, or made by a fallback factory told the device id.
pub enum MicSourceChoice {
    FromDevice(usize),
    Fallback { factory: String, device: String, error: String },
}

/// Mathematical form of a [`MicSourceChoice`].
pub enum MicSourceChoiceView {
    FromDevice(usize),
    Fallback { factory: Seq<char>, device: Seq<char>, error: Seq<char> },
}

impl DeepView for MicSourceChoice {
    type V = MicSourceChoiceView;

    open spec fn deep_view(&self) -> MicSourceChoiceView {
        match self {
            MicSourceChoice::FromDevice(i) => MicSourceChoiceView::FromDevice(*i),
            MicSourceChoice::Fallback { factory, device, error } => MicSourceChoiceView::Fallback {
                factory: factory@,
                device: device@,
                error: error@,
            },
        }
    }
}

/// The microphone source (element name `mic_src`) for device id `dev_id`: the
/// first listed device with that id, else PulseAudio (Linux) or WASAPI2
/// (Windows) pointed at the id.
pub open spec fn mic_source_choice(platform: Platform, devices: Seq<MicDeviceView>, dev_id: Seq<char>) -> MicSourceChoiceView {
    if exists|i: int| 0 <= i < devices.len() && #[trigger] devices[i].id == dev_id {
        let i = choose|i: int| 0 <= i < devices.len() && devices[i].id == dev_id
            && forall|j: int| 0 <= j < i ==> #[trigger] devices[j].id != dev_id;
        MicSourceChoiceView::FromDevice(i as usize)
    } else {
        match platform {
            Platform::Linux => MicSourceChoiceView::Fallback {
                factory: "pulsesrc"@,
                device: dev_id,
                error: "Failed to create pulsesrc for mic input"@,
            },
            Platform::Windows => MicSourceChoiceView::Fallback {
                factory: "wasapi2src"@,
                device: dev_id,
                error: "Failed to create wasapi2src for mic input"@,
            },
        }
    }
}

/// Chooses where the microphone element for device id `dev_id` comes from.
pub fn create_mic_source(platform: Platform, devices: &Vec<MicDevice>, dev_id: &str) -> (r: MicSourceChoice)
    ensures
        r.deep_view() == mic_source_choice(platform, devices.deep_view(), dev_id@),
        r matches MicSourceChoice::FromDevice(i) ==> i < devices.len() && devices.deep_view()[i as int].id == dev_id@,
{
    let ghost dv = devices.deep_view();
    let mut i: usize = 0;
    while i < devices.len()
        invariant
            i <= devices.len(),
            dv == devices.deep_view(),
            forall|j: int| 0 <= j < i ==> #[trigger] dv[j].id != dev_id@,
        decreases devices.len() - i,
    {
        if str_equals(devices[i].id.as_str(), dev_id) {
            assert(dv[i as int].id == dev_id@);
            let ghost k = choose|k: int| 0 <= k < dv.len() && dv[k].id == dev_id@
                && forall|j: int| 0 <= j < k ==> #[trigger] dv[j].id != dev_id@;
            assert(k == i) by {
                if k < i {
                    assert(dv[k].id != dev_id@);
                } else if k > i {
                    assert(dv[i as int].id != dev_id@);
                }
            }
            return MicSourceChoice::FromDevice(i);
        }
        i = i + 1;
    }
    match platform {
        Platform::Linux => MicSourceChoice::Fallback {
            factory: String::from_str("pulsesrc"),
            device: String::from_str(dev_id),
            error: String::from_str("Failed to create pulsesrc for mic input"),
        },
        Platform::Windows => MicSourceChoice::Fallback {
            factory: String::from_str("wasapi2src"),
            device: String::from_str(dev_id),
            error: String::from_str("Failed to create wasapi2src for mic input"),
        },
    }
}

} // verus!

verus! {

/// Whether `settings` give property `name` the value `value`.
pub open spec fn gives(settings: Seq<PropSettingView>, name: Seq<char>, value: PropValueView) -> bool {
    exists|k: int| 0 <= k < settings.len() && settings[k] == (PropSettingView { name, value })
}

/// Whether `settings` set property `name` at all.
pub open spec fn sets(settings: Seq<PropSettingView>, name: Seq<char>) -> bool {
    exists|k: int| 0 <= k < settings.len() && settings[k].name == name
}

/// The capture source captures what the user chose. With a window (a non-zero
/// handle), Linux `ximagesrc` is given its id as `xid` and Windows D3D11
/// capture its handle as `window-handle`, and neither is pointed at a monitor.
/// Without one, D3D11 capture (and always D3D12 and DX9 capture) is given the
/// chosen monitor index (0 when none was chosen) and no window, and
/// `ximagesrc` the region of the chosen monitor when the list holds it. The
/// pointer or cursor is drawn in every X11 and Windows screen capture.
pub proof fn capture_source_follows_the_choice(
    platform: Platform,
    factory: Seq<char>,
    window_handle: Option<u64>,
    monitor_index: Option<u32>,
    monitors: Option<Seq<MonitorInfoView>>,
)
    ensures ({
        let s = video_source_plan(platform, factory, window_handle, monitor_index, monitors);
        let window = window_handle is Some && window_handle.unwrap() != 0;
        let idx = PropValueView::I32(if monitor_index is Some { monitor_index.unwrap() as i32 } else { 0 });
        &&& (platform == Platform::Windows && factory == "d3d11screencapturesrc"@ && window) ==> {
            &&& gives(s, "window-handle"@, PropValueView::U64(window_handle.unwrap()))
            &&& !sets(s, "monitor-index"@)
            &&& gives(s, "show-cursor"@, PropValueView::Bool(true))
        }
        &&& (platform == Platform::Windows && factory == "d3d11screencapturesrc"@ && !window) ==> {
            &&& gives(s, "monitor-index"@, idx)
            &&& !sets(s, "window-handle"@)
            &&& gives(s, "show-cursor"@, PropValueView::Bool(true))
        }
        &&& (platform == Platform::Windows && (factory == "d3d12screencapturesrc"@ || factory == "dx9screencapsrc"@)) ==> {
            &&& gives(s, "monitor-index"@, idx)
            &&& !sets(s, "window-handle"@)
            &&& gives(s, "show-cursor"@, PropValueView::Bool(true))
        }
        &&& (platform == Platform::Linux && factory == "ximagesrc"@ && window) ==> {
            &&& gives(s, "xid"@, PropValueView::U64(window_handle.unwrap()))
            &&& !sets(s, "startx"@)
            &&& gives(s, "show-pointer"@, PropValueView::Bool(true))
        }
        &&& (platform == Platform::Linux && factory == "ximagesrc"@ && !window && monitor_index is Some
            && monitors is Some && (monitor_index.unwrap() as int) < monitors.unwrap().len()) ==> {
            let m = monitors.unwrap()[monitor_index.unwrap() as int];
            &&& gives(s, "startx"@, PropValueView::U32(m.x as u32))
            &&& gives(s, "starty"@, PropValueView::U32(m.y as u32))
            &&& gives(s, "endx"@, PropValueView::U32(m.x.wrapping_add(m.width as i32).wrapping_sub(1) as u32))
            &&& gives(s, "endy"@, PropValueView::U32(m.y.wrapping_add(m.height as i32).wrapping_sub(1) as u32))
            &&& !sets(s, "xid"@)
        }
    }),
{
    reveal_strlit("d3d11screencapturesrc");
    reveal_strlit("d3d12screencapturesrc");
    reveal_strlit("dx9screencapsrc");
    reveal_strlit("ximagesrc");
    reveal_strlit("videotestsrc");
    reveal_strlit("window-handle");
    reveal_strlit("monitor-index");
    reveal_strlit("show-cursor");
    reveal_strlit("capture-api");
    reveal_strlit("xid");
    reveal_strlit("startx");
    reveal_strlit("starty");
    reveal_strlit("endx");
    reveal_strlit("endy");
    reveal_strlit("use-damage");
    reveal_strlit("show-pointer");
    assert("d3d11screencapturesrc"@[4] != "d3d12screencapturesrc"@[4]);
    assert("d3d11screencapturesrc"@[1] != "dx9screencapsrc"@[1]);
    assert("d3d12screencapturesrc"@[1] != "dx9screencapsrc"@[1]);
    assert("ximagesrc"@[0] != "videotestsrc"@[0]);
    // The property names differ from one another.
    assert("monitor-index"@[0] != "show-cursor"@[0] && "monitor-index"@[0] != "capture-api"@[0]
        && "monitor-index"@[0] != "window-handle"@[0]);
    assert("window-handle"@[0] != "show-cursor"@[0] && "window-handle"@[0] != "capture-api"@[0]);
    assert("startx"@[0] != "use-damage"@[0] && "startx"@[1] != "show-pointer"@[1] && "startx"@[0] != "xid"@[0]);
    assert("xid"@[0] != "use-damage"@[0] && "xid"@[0] != "show-pointer"@[0] && "xid"@[0] != "startx"@[0]
        && "xid"@[0] != "starty"@[0] && "xid"@[0] != "endx"@[0] && "xid"@[0] != "endy"@[0]);
    let s = video_source_plan(platform, factory, window_handle, monitor_index, monitors);
    let window = window_handle is Some && window_handle.unwrap() != 0;
    if platform == Platform::Windows && factory == "d3d11screencapturesrc"@ {
        assert(s[0] == (PropSettingView { name: "show-cursor"@, value: PropValueView::Bool(true) }));
        assert(s[1].name == "capture-api"@);
        assert(s[2].name == (if window { "window-handle"@ } else { "monitor-index"@ }));
        assert(s.len() == 3);
    }
    if platform == Platform::Windows && (factory == "d3d12screencapturesrc"@ || factory == "dx9screencapsrc"@) {
        assert(s[0] == (PropSettingView { name: "show-cursor"@, value: PropValueView::Bool(true) }));
        assert(s[1].name == "monitor-index"@);
        assert(s.len() == 2);
    }
    if platform == Platform::Linux && factory == "ximagesrc"@ {
        assert(s[0].name == "use-damage"@);
        assert(s[1] == (PropSettingView { name: "show-pointer"@, value: PropValueView::Bool(true) }));
        if window {
            assert(s[2].name == "xid"@);
            assert(s.len() == 3);
        } else if monitor_index is Some && monitors is Some && (monitor_index.unwrap() as int) < monitors.unwrap().len() {
            assert(s.len() == 6);
            assert(s[2].name == "startx"@ && s[3].name == "starty"@ && s[4].name == "endx"@ && s[5].name == "endy"@);
        }
    }
}

} // verus!
