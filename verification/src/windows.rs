//! Which windows are offered for capture, and what is listed about them.
use vstd::prelude::*;
use crate::monitors::{MonitorInfo, MonitorInfoView, sort_monitors, sorted_by_position};
use crate::text::{
    decimal, eq_ascii_case_insensitive, equals_ignore_ascii_case, str_equals, string_from_utf8,
    trim_white_space, trimmed, with_decimal,
};
use crate::thumbnail::{bgrx_pixels_to_rgb, bgrx_to_rgb, capture_size_ok, rgb_thumbnail, rgb_thumbnail_base64};

verus! {

/// A window offered for capture, with a base64 JPEG thumbnail (empty when the
/// capture failed).
#[derive(Debug)]
pub struct WindowInfo {
    pub id: u64,
    pub pid: u32,
    pub title: String,
    pub process_name: String,
    pub thumbnail: String,
}

/// Mathematical form of a [`WindowInfo`].
pub struct WindowInfoView {
    pub id: u64,
    pub pid: u32,
    pub title: Seq<char>,
    pub process_name: Seq<char>,
    pub thumbnail: Seq<char>,
}

impl View for WindowInfo {
    type V = WindowInfoView;

    open spec fn view(&self) -> WindowInfoView {
        WindowInfoView {
            id: self.id,
            pid: self.pid,
            title: self.title@,
            process_name: self.process_name@,
            thumbnail: self.thumbnail@,
        }
    }
}

// ---------------------------------------------------------------------------
// Windows: window filtering
// ---------------------------------------------------------------------------

/// `WS_EX_TOOLWINDOW`
pub const WS_EX_TOOLWINDOW: u32 = 0x0000_0080;
/// `WS_VISIBLE`
pub const WS_VISIBLE: u32 = 0x1000_0000;
/// `WS_CHILD`
pub const WS_CHILD: u32 = 0x4000_0000;
/// `WS_EX_NOREDIRECTIONBITMAP`
pub const WS_EX_NOREDIRECTIONBITMAP: u32 = 0x0020_0000;

/// A window rectangle in screen coordinates.
#[derive(Clone, Copy, Debug)]
pub struct Rect {
    pub left: i32,
    pub top: i32,
    pub right: i32,
    pub bottom: i32,
}

/// Width of a rectangle as 32-bit arithmetic computes it (wrapping on overflow).
pub open spec fn rect_width(r: Rect) -> i32 {
    r.right.wrapping_sub(r.left)
}

/// Height of a rectangle as 32-bit arithmetic computes it (wrapping on overflow).
pub open spec fn rect_height(r: Rect) -> i32 {
    r.bottom.wrapping_sub(r.top)
}

/// What the window manager reports about a top-level window, read as plain
/// values: visibility, the length of its title, its style words, its rectangle
/// (`None` when it could not be read), its DWM cloaked attribute (`None` when it
/// could not be read) and its class name (`None` when empty).
#[derive(Debug)]
pub struct WindowProbe {
    pub visible: bool,
    pub title_len: i32,
    pub ex_style: u32,
    pub style: u32,
    pub rect: Option<Rect>,
    pub cloaked: Option<u32>,
    pub class_name: Option<String>,
}

/// Window classes of shell surfaces that are never offered.
pub open spec fn is_shell_class(name: Seq<char>) -> bool {
    ||| name == "Shell_TrayWnd"@
    ||| name == "Progman"@
    ||| name == "WorkerW"@
    ||| name == "Windows.UI.Core.CoreWindow"@
    ||| name == "Xaml_WindowedPopupClass"@
    ||| name == "Windows.Internal.Shell.TabProxyWindow"@
}

/// A window is offered when it is visible with a title, is neither a tool
/// window nor a child, has a positive-size rectangle, is not cloaked by DWM and
/// is not one of the shell's own surfaces.
pub open spec fn capturable(p: WindowProbe) -> bool {
    &&& p.visible
    &&& p.title_len != 0
    &&& p.ex_style & WS_EX_TOOLWINDOW == 0
    &&& p.style & WS_VISIBLE != 0
    &&& p.style & WS_CHILD == 0
    &&& p.rect is Some
    &&& rect_width(p.rect.unwrap()) > 0
    &&& rect_height(p.rect.unwrap()) > 0
    &&& !(p.cloaked is Some && p.cloaked.unwrap() != 0)
    &&& !(p.class_name is Some && is_shell_class(p.class_name.unwrap()@))
}

/// Whether a window is offered for capture.
pub fn is_capturable(p: &WindowProbe) -> (b: bool)
    ensures
        b == capturable(*p),
{
    if !p.visible || p.title_len == 0 {
        return false;
    }
    if p.ex_style & WS_EX_TOOLWINDOW != 0 {
        return false;
    }
    if p.style & WS_VISIBLE == 0 || p.style & WS_CHILD != 0 {
        return false;
    }
    let rect = match p.rect {
        Some(r) => r,
        None => {
            return false;
        },
    };
    if rect.right.wrapping_sub(rect.left) <= 0 || rect.bottom.wrapping_sub(rect.top) <= 0 {
        return false;
    }
    match p.cloaked {
        Some(c) => {
            if c != 0 {
                return false;
            }
        },
        None => {},
    }
    match &p.class_name {
        Some(name) => {
            let n = name.as_str();
            if str_equals(n, "Shell_TrayWnd") || str_equals(n, "Progman") || str_equals(n, "WorkerW")
                || str_equals(n, "Windows.UI.Core.CoreWindow") || str_equals(n, "Xaml_WindowedPopupClass")
                || str_equals(n, "Windows.Internal.Shell.TabProxyWindow") {
                return false;
            }
        },
        None => {},
    }
    true
}

/// Process names whose windows are never offered (cloaked or invisible system shells).
pub open spec fn blocked_process_names() -> Seq<Seq<char>> {
    seq![
        "TextInputHost.exe"@,
        "ApplicationFrameHost.exe"@,
        "SearchHost.exe"@,
        "StartMenuExperienceHost.exe"@,
        "ShellExperienceHost.exe"@,
        "SystemSettings.exe"@,
        "LockApp.exe"@,
        "Widgets.exe"@,
        "WidgetService.exe"@,
    ]
}

/// The process name matches a blocked name, ignoring ASCII letter case.
pub open spec fn is_blocked_process(name: Seq<char>) -> bool {
    exists|i: int| 0 <= i < blocked_process_names().len()
        && eq_ascii_case_insensitive(name, #[trigger] blocked_process_names()[i])
}

/// Whether the windows of a process with this executable name are left out.
pub fn is_blocked_process_name(name: &str) -> (b: bool)
    ensures
        b == is_blocked_process(name@),
{
    let names: [&str; 9] = [
        "TextInputHost.exe",
        "ApplicationFrameHost.exe",
        "SearchHost.exe",
        "StartMenuExperienceHost.exe",
        "ShellExperienceHost.exe",
        "SystemSettings.exe",
        "LockApp.exe",
        "Widgets.exe",
        "WidgetService.exe",
    ];
    assert(names@.map_values(|s: &str| s@) =~= blocked_process_names());
    let mut i: usize = 0;
    while i < 9
        invariant
            i <= 9,
            names@.map_values(|s: &str| s@) == blocked_process_names(),
            forall|j: int| 0 <= j < i ==> !eq_ascii_case_insensitive(name@, #[trigger] blocked_process_names()[j]),
        decreases 9 - i,
    {
        assert(names@[i as int]@ == blocked_process_names()[i as int]);
        if equals_ignore_ascii_case(name, names[i]) {
            return true;
        }
        i = i + 1;
    }
    false
}

/// The windows listed out of those found capturable: every one whose process
/// is not blocked, in the order found.
pub fn enumerate(found: Vec<WindowInfo>) -> (out: Vec<WindowInfo>)
    ensures
        out@.map_values(|w: WindowInfo| w@)
            == found@.map_values(|w: WindowInfo| w@).filter(|w: WindowInfoView| !is_blocked_process(w.process_name)),
{
    let ghost all = found@.map_values(|w: WindowInfo| w@);
    let ghost keep = |w: WindowInfoView| !is_blocked_process(w.process_name);
    let found_len: usize = found.len();
    assert(all.len() == found_len);
    let mut out: Vec<WindowInfo> = Vec::new();
    let mut rest = found;
    let ghost n = all.len();
    let mut taken: usize = 0;
    while rest.len() > 0
        invariant
            taken + rest@.len() == n,
            n == all.len(),
            n <= usize::MAX,
            keep == (|w: WindowInfoView| !is_blocked_process(w.process_name)),
            forall|k: int| 0 <= k < rest@.len() ==> (#[trigger] rest@[k])@ == all[taken + k],
            out@.map_values(|w: WindowInfo| w@) == all.take(taken as int).filter(keep),
        decreases rest@.len(),
    {
        let ghost before_rest = rest@;
        let w = rest.remove(0);
        proof {
            assert(before_rest[0]@ == all[taken as int]);
            assert(w@ == all[taken as int]);
            assert forall|k: int| 0 <= k < rest@.len() implies (#[trigger] rest@[k])@ == all[taken + 1 + k] by {
                assert(rest@[k] == before_rest[k + 1]);
            }
            assert(all.take(taken + 1) =~= all.take(taken as int).push(all[taken as int]));
            all.take(taken as int).lemma_filter_push(all[taken as int], keep);
        }
        let ghost before = out@.map_values(|w: WindowInfo| w@);
        if !is_blocked_process_name(w.process_name.as_str()) {
            out.push(w);
            assert(out@.map_values(|w: WindowInfo| w@) =~= before.push(all[taken as int]));
        } else {
            assert(out@.map_values(|w: WindowInfo| w@) =~= before);
        }
        taken = taken + 1;
    }
    assert(all.take(n as int) =~= all);
    out
}

/// The size of the window thumbnail to capture: none for windows drawn through
/// composition (no redirection bitmap), whose captures come out black, for
/// windows whose rectangle cannot be read, and for sizes outside 1..=16384.
pub open spec fn thumbnail_capture_size(ex_style: u32, rect: Option<Rect>) -> Option<(i32, i32)> {
    if ex_style & WS_EX_NOREDIRECTIONBITMAP != 0 || rect is None {
        None
    } else {
        let w: i32 = rect_width(rect.unwrap());
        let h: i32 = rect_height(rect.unwrap());
        if capture_size_ok(w as int, h as int) { Some((w, h)) } else { None }
    }
}

/// The size of the window thumbnail to capture, if any.
pub fn window_thumbnail_size(ex_style: u32, rect: Option<Rect>) -> (r: Option<(i32, i32)>)
    ensures
        r == thumbnail_capture_size(ex_style, rect),
{
    if ex_style & WS_EX_NOREDIRECTIONBITMAP != 0 {
        return None;
    }
    match rect {
        Some(rc) => {
            let w: i32 = rc.right.wrapping_sub(rc.left);
            let h: i32 = rc.bottom.wrapping_sub(rc.top);
            if 0 < w && w <= 16384 && 0 < h && h <= 16384 { Some((w, h)) } else { None }
        },
        None => None,
    }
}

/// Thumbnail of a top-down 32-bit device-independent bitmap of `width` by
/// `height` blue-green-red-alpha pixels.
pub fn dib_pixels_to_base64_jpeg(pixels: &[u8], width: i32, height: i32) -> (s: String)
    requires
        capture_size_ok(width as int, height as int),
        pixels@.len() == width * height * 4,
    ensures
        s@ == rgb_thumbnail(bgrx_to_rgb(pixels@, (width * height) as nat), width as u32, height as u32),
{
    assert(0 < width * height <= 16384 * 16384) by (nonlinear_arith)
        requires 0 < width <= 16384, 0 < height <= 16384;
    let count: usize = (width as usize) * (height as usize);
    assert(count == width * height) by (nonlinear_arith)
        requires count == (width as usize) * (height as usize), 0 < width, 0 < height;
    let rgb = bgrx_pixels_to_rgb(pixels, count);
    assert(rgb@.len() == 3 * (width as u32) * (height as u32)) by (nonlinear_arith)
        requires rgb@.len() == 3 * count, count == width * height, 0 < width, 0 < height;
    rgb_thumbnail_base64(rgb, width as u32, height as u32)
}

// ---------------------------------------------------------------------------
// Windows: monitors
// ---------------------------------------------------------------------------

/// The listing of the display monitor reported `index`-th (counting from
/// zero): named `Monitor <index + 1>`, placed at its rectangle's top-left
/// corner, sized by its rectangle, with no thumbnail.
pub open spec fn display_monitor(index: int, r: Rect) -> MonitorInfoView {
    MonitorInfoView {
        name: "Monitor "@ + decimal((index + 1) as nat),
        x: r.left,
        y: r.top,
        width: rect_width(r) as u32,
        height: rect_height(r) as u32,
        thumbnail: Seq::empty(),
    }
}

/// The monitors listed for the display rectangles in the order the system
/// reported them, sorted by position.
pub fn enumerate_monitors(rects: &Vec<Rect>) -> (out: Vec<MonitorInfo>)
    requires
        rects.len() < u64::MAX,
    ensures
        out.deep_view() == sorted_by_position(Seq::new(rects@.len(), |i: int| display_monitor(i, rects@[i]))),
{
    let mut listed: Vec<MonitorInfo> = Vec::new();
    let mut i: usize = 0;
    while i < rects.len()
        invariant
            i <= rects.len(),
            rects.len() < u64::MAX,
            listed@.len() == i,
            forall|k: int| 0 <= k < i ==> (#[trigger] listed@[k])@ == display_monitor(k, rects@[k]),
        decreases rects.len() - i,
    {
        let r = rects[i];
        let name = with_decimal("Monitor ", (i as u64) + 1);
        let m = MonitorInfo {
            name,
            x: r.left,
            y: r.top,
            width: r.right.wrapping_sub(r.left) as u32,
            height: r.bottom.wrapping_sub(r.top) as u32,
            thumbnail: String::new(),
        };
        assert(m@ == display_monitor(i as int, rects@[i as int]));
        listed.push(m);
        i = i + 1;
    }
    assert(listed.deep_view() =~= Seq::new(rects@.len(), |i: int| display_monitor(i, rects@[i])));
    sort_monitors(listed)
}

// ---------------------------------------------------------------------------
// X11
// ---------------------------------------------------------------------------

/// Whether an X11 output is lit: connected and driven by a CRTC.
pub fn output_is_active(connected: bool, crtc: u32) -> (b: bool)
    ensures
        b == (connected && crtc != 0),
{
    connected && crtc != 0
}

/// The listing of an active X11 output, placed and sized by its CRTC, with no
/// thumbnail yet.
pub fn crtc_monitor(name: String, x: i16, y: i16, width: u16, height: u16) -> (m: MonitorInfo)
    ensures
        m@ == (MonitorInfoView { name: name@, x: x as i32, y: y as i32, width: width as u32, height: height as u32, thumbnail: Seq::empty() }),
{
    MonitorInfo { name, x: x as i32, y: y as i32, width: width as u32, height: height as u32, thumbnail: String::new() }
}

/// Whether a window's `_NET_WM_STATE` atoms (when they could be read as
/// 32-bit values) include `_NET_WM_STATE_HIDDEN`.
pub fn x11_window_is_hidden(state_atoms: &Option<Vec<u32>>, hidden_atom: u32) -> (b: bool)
    ensures
        b == (match state_atoms { Some(a) => a@.contains(hidden_atom), None => false }),
{
    match state_atoms {
        Some(atoms) => {
            let mut i: usize = 0;
            while i < atoms.len()
                invariant
                    i <= atoms.len(),
                    match state_atoms { Some(a) => a@ == atoms@, None => false },
                    forall|j: int| 0 <= j < i ==> atoms@[j] != hidden_atom,
                decreases atoms.len() - i,
            {
                if atoms[i] == hidden_atom {
                    assert(atoms@[i as int] == hidden_atom);
                    assert(atoms@.contains(hidden_atom));
                    return true;
                }
                i = i + 1;
            }
            assert(!atoms@.contains(hidden_atom));
            false
        },
        None => false,
    }
}

/// The title listed for an X11 window: its `_NET_WM_NAME` when that is
/// non-empty valid UTF-8, else its `WM_NAME` when that is valid UTF-8, else
/// nothing. Each is `None` when the property could not be read.
pub open spec fn x11_title(net_wm_name: Option<Seq<u8>>, wm_name: Option<Seq<u8>>) -> Seq<char> {
    if net_wm_name is Some && net_wm_name.unwrap().len() > 0 && vstd::utf8::valid_utf8(net_wm_name.unwrap()) {
        vstd::utf8::decode_utf8(net_wm_name.unwrap())
    } else if wm_name is Some && vstd::utf8::valid_utf8(wm_name.unwrap()) {
        vstd::utf8::decode_utf8(wm_name.unwrap())
    } else {
        Seq::empty()
    }
}

/// The title listed for an X11 window.
pub fn x11_window_title(net_wm_name: Option<Vec<u8>>, wm_name: Option<Vec<u8>>) -> (t: String)
    ensures
        t@ == x11_title(
            match net_wm_name { Some(v) => Some(v@), None => None },
            match wm_name { Some(v) => Some(v@), None => None },
        ),
{
    match net_wm_name {
        Some(v) => {
            if v.len() > 0 {
                let ghost bytes = v@;
                match string_from_utf8(v) {
                    Some(s) => {
                        assert(s@ == vstd::utf8::decode_utf8(bytes));
                        return s;
                    },
                    None => {},
                }
            }
        },
        None => {},
    }
    match wm_name {
        Some(v) => match string_from_utf8(v) {
            Some(s) => s,
            None => String::new(),
        },
        None => String::new(),
    }
}

/// The process id listed for an X11 window: the first value of its
/// `_NET_WM_PID` (when it could be read as 32-bit values), else 0.
pub fn x11_window_pid(pid_values: &Option<Vec<u32>>) -> (pid: u32)
    ensures
        pid == (if pid_values is Some && pid_values.unwrap()@.len() > 0 { pid_values.unwrap()@[0] } else { 0 }),
{
    match pid_values {
        Some(v) => if v.len() > 0 { v[0] } else { 0 },
        None => 0,
    }
}

/// The title an X11 window is listed under, or `None` when its title is empty
/// and the window is left out.
pub fn x11_listed_title(net_wm_name: Option<Vec<u8>>, wm_name: Option<Vec<u8>>) -> (t: Option<String>)
    ensures
        ({
            let title = x11_title(
                match net_wm_name { Some(v) => Some(v@), None => None },
                match wm_name { Some(v) => Some(v@), None => None },
            );
            &&& t is Some <==> title.len() > 0
            &&& t matches Some(s) ==> s@ == title
        }),
{
    let title = x11_window_title(net_wm_name, wm_name);
    if title.as_str().unicode_len() == 0 { None } else { Some(title) }
}

/// The file holding the command name of process `pid`, for a known process
/// (a non-zero id).
pub fn proc_comm_path(pid: u32) -> (p: Option<String>)
    ensures
        p is Some <==> pid > 0,
        p matches Some(path) ==> path@ == "/proc/"@ + decimal(pid as nat) + "/comm"@,
{
    if pid == 0 {
        return None;
    }
    let mut path = with_decimal("/proc/", pid as u64);
    path.append("/comm");
    Some(path)
}

/// The process name listed: the command name file's text without surrounding
/// white space, or nothing when it could not be read.
pub fn process_name_from_comm(contents: Option<String>) -> (name: String)
    ensures
        name@ == (match contents { Some(c) => trimmed(c@), None => Seq::empty() }),
{
    match contents {
        Some(c) => trim_white_space(c.as_str()),
        None => String::new(),
    }
}

/// The listing of X11 window `win`.
pub fn x11_window_info(win: u32, title: String, pid: u32, process_name: String, thumbnail: String) -> (w: WindowInfo)
    ensures
        w@ == (WindowInfoView { id: win as u64, pid, title: title@, process_name: process_name@, thumbnail: thumbnail@ }),
{
    WindowInfo { id: win as u64, pid, title, process_name, thumbnail }
}

/// The size of an X11 window to capture, from its geometry (`None` when it
/// could not be read): none unless both sides are within 1..=16384.
pub fn window_capture_size(geometry: Option<(u16, u16)>) -> (r: Option<(u32, u32)>)
    ensures
        r == (match geometry {
            Some((w, h)) => if capture_size_ok(w as int, h as int) { Some((w as u32, h as u32)) } else { None },
            None => None,
        }),
{
    match geometry {
        Some((w, h)) => {
            if 0 < w && w <= 16384 && 0 < h && h <= 16384 { Some((w as u32, h as u32)) } else { None }
        },
        None => None,
    }
}

/// A thumbnail taken through the compositor is used when it is not empty;
/// otherwise the window is captured directly.
pub fn composite_thumbnail(thumbnail: String) -> (r: Option<String>)
    ensures
        r is Some <==> thumbnail@.len() > 0,
        r matches Some(t) ==> t@ == thumbnail@,
{
    if thumbnail.as_str().unicode_len() == 0 { None } else { Some(thumbnail) }
}

/// What the X server reports about one client window, as the listing reads it:
/// its `_NET_WM_STATE` atoms, its `_NET_WM_NAME` and its `WM_NAME` (each `None`
/// when it could not be read).
pub struct X11WindowRecord {
    pub win: u32,
    pub state_atoms: Option<Vec<u32>>,
    pub net_wm_name: Option<Vec<u8>>,
    pub wm_name: Option<Vec<u8>>,
}

/// Mathematical form of an [`X11WindowRecord`].
pub struct X11WindowRecordView {
    pub win: u32,
    pub state_atoms: Option<Seq<u32>>,
    pub net_wm_name: Option<Seq<u8>>,
    pub wm_name: Option<Seq<u8>>,
}

impl View for X11WindowRecord {
    type V = X11WindowRecordView;

    open spec fn view(&self) -> X11WindowRecordView {
        X11WindowRecordView {
            win: self.win,
            state_atoms: match self.state_atoms { Some(v) => Some(v@), None => None },
            net_wm_name: match self.net_wm_name { Some(v) => Some(v@), None => None },
            wm_name: match self.wm_name { Some(v) => Some(v@), None => None },
        }
    }
}

/// A window chosen for the listing, with the title it is listed under.
pub struct X11ListedWindow {
    pub win: u32,
    pub title: String,
}

/// Whether the window of record `r` is listed: it is not hidden and its title
/// is not empty.
pub open spec fn x11_record_listed(r: X11WindowRecordView, hidden_atom: u32) -> bool {
    &&& !(r.state_atoms is Some && r.state_atoms.unwrap().contains(hidden_atom))
    &&& x11_title(r.net_wm_name, r.wm_name).len() > 0
}

/// The windows listed out of the client list's records, in client-list order,
/// each under its title.
pub open spec fn x11_selection(rs: Seq<X11WindowRecordView>, hidden_atom: u32) -> Seq<(u32, Seq<char>)> {
    rs.filter(|r: X11WindowRecordView| x11_record_listed(r, hidden_atom))
        .map_values(|r: X11WindowRecordView| (r.win, x11_title(r.net_wm_name, r.wm_name)))
}

/// Chooses, out of the records of the client list in its order, the windows
/// listed: those not hidden and with a non-empty title, in the same order, each
/// with that title.
pub fn x11_select_windows(records: Vec<X11WindowRecord>, hidden_atom: u32) -> (out: Vec<X11ListedWindow>)
    ensures
        out@.map_values(|l: X11ListedWindow| (l.win, l.title@))
            == x11_selection(records@.map_values(|r: X11WindowRecord| r@), hidden_atom),
{
    let ghost all = records@.map_values(|r: X11WindowRecord| r@);
    let ghost keep = |r: X11WindowRecordView| x11_record_listed(r, hidden_atom);
    let ghost shown = |r: X11WindowRecordView| (r.win, x11_title(r.net_wm_name, r.wm_name));
    let records_len: usize = records.len();
    assert(all.len() == records_len);
    let mut out: Vec<X11ListedWindow> = Vec::new();
    let mut rest = records;
    let ghost n = all.len();
    let mut taken: usize = 0;
    while rest.len() > 0
        invariant
            taken + rest@.len() == n,
            n == all.len(),
            n <= usize::MAX,
            keep == (|r: X11WindowRecordView| x11_record_listed(r, hidden_atom)),
            shown == (|r: X11WindowRecordView| (r.win, x11_title(r.net_wm_name, r.wm_name))),
            forall|k: int| 0 <= k < rest@.len() ==> (#[trigger] rest@[k])@ == all[taken + k],
            out@.map_values(|l: X11ListedWindow| (l.win, l.title@)) == all.take(taken as int).filter(keep).map_values(shown),
        decreases rest@.len(),
    {
        let ghost before_rest = rest@;
        let r = rest.remove(0);
        let ghost rv = r@;
        proof {
            assert(before_rest[0]@ == all[taken as int]);
            assert forall|k: int| 0 <= k < rest@.len() implies (#[trigger] rest@[k])@ == all[taken + 1 + k] by {
                assert(rest@[k] == before_rest[k + 1]);
            }
            assert(all.take(taken + 1) =~= all.take(taken as int).push(all[taken as int]));
            all.take(taken as int).lemma_filter_push(all[taken as int], keep);
        }
        let ghost before = out@.map_values(|l: X11ListedWindow| (l.win, l.title@));
        let X11WindowRecord { win, state_atoms, net_wm_name, wm_name } = r;
        assert(rv == all[taken as int]);
        if !x11_window_is_hidden(&state_atoms, hidden_atom) {
            match x11_listed_title(net_wm_name, wm_name) {
                Some(title) => {
                    proof {
                        assert(keep(rv));
                        assert(shown(rv) == (win, title@));
                        assert(all.take(taken + 1).filter(keep) =~= all.take(taken as int).filter(keep).push(rv));
                    }
                    out.push(X11ListedWindow { win, title });
                    assert(out@.map_values(|l: X11ListedWindow| (l.win, l.title@)) =~= before.push(shown(rv)));
                    assert(out@.map_values(|l: X11ListedWindow| (l.win, l.title@))
                        =~= all.take(taken + 1).filter(keep).map_values(shown));
                },
                None => {
                    assert(out@.map_values(|l: X11ListedWindow| (l.win, l.title@))
                        =~= all.take(taken + 1).filter(keep).map_values(shown));
                },
            }
        } else {
            assert(out@.map_values(|l: X11ListedWindow| (l.win, l.title@))
                =~= all.take(taken + 1).filter(keep).map_values(shown));
        }
        taken = taken + 1;
    }
    assert(all.take(n as int) =~= all);
    out
}

} // verus!

verus! {

/// Where a CRTC shows its part of the screen: its top-left corner and size.
#[derive(Clone, Copy, Debug)]
pub struct CrtcGeometry {
    pub x: i16,
    pub y: i16,
    pub width: u16,
    pub height: u16,
}

/// What RandR reports about one output, as the monitor listing reads it: its
/// name (decoded from its bytes), whether it is connected, its CRTC (0 for
/// none), and the geometry of that CRTC (read only for active outputs).
pub struct X11OutputRecord {
    pub name: String,
    pub connected: bool,
    pub crtc: u32,
    pub geometry: Option<CrtcGeometry>,
}

/// Mathematical form of an [`X11OutputRecord`].
pub struct X11OutputRecordView {
    pub name: Seq<char>,
    pub connected: bool,
    pub crtc: u32,
    pub geometry: Option<CrtcGeometry>,
}

impl View for X11OutputRecord {
    type V = X11OutputRecordView;

    open spec fn view(&self) -> X11OutputRecordView {
        X11OutputRecordView { name: self.name@, connected: self.connected, crtc: self.crtc, geometry: self.geometry }
    }
}

/// Whether output `o` is lit: connected and driven by a CRTC.
pub open spec fn x11_output_active(o: X11OutputRecordView) -> bool {
    o.connected && o.crtc != 0
}

/// The listing of an active output: its name, placed and sized by its CRTC,
/// with no thumbnail.
pub open spec fn x11_output_monitor(o: X11OutputRecordView) -> MonitorInfoView {
    let g = o.geometry.unwrap();
    MonitorInfoView {
        name: o.name,
        x: g.x as i32,
        y: g.y as i32,
        width: g.width as u32,
        height: g.height as u32,
        thumbnail: Seq::empty(),
    }
}

/// The monitors listed for the outputs of the screen in RandR's order: the
/// active ones, each placed by its CRTC, sorted by position.
pub open spec fn x11_monitor_listing(outputs: Seq<X11OutputRecordView>) -> Seq<MonitorInfoView> {
    sorted_by_position(
        outputs.filter(|o: X11OutputRecordView| x11_output_active(o))
            .map_values(|o: X11OutputRecordView| x11_output_monitor(o)),
    )
}

/// The monitors listed for the outputs of the screen, in RandR's order: the
/// connected outputs with a CRTC, each placed and sized by its CRTC, sorted by
/// position (left to right, then top to bottom, keeping RandR's order among
/// monitors at the same place).
pub fn monitors_from_outputs(outputs: &Vec<X11OutputRecord>) -> (out: Vec<MonitorInfo>)
    requires
        forall|i: int| 0 <= i < outputs@.len() && x11_output_active((#[trigger] outputs@[i])@)
            ==> outputs@[i].geometry is Some,
    ensures
        out.deep_view() == x11_monitor_listing(outputs@.map_values(|o: X11OutputRecord| o@)),
{
    let ghost all = outputs@.map_values(|o: X11OutputRecord| o@);
    let ghost keep = |o: X11OutputRecordView| x11_output_active(o);
    let ghost shown = |o: X11OutputRecordView| x11_output_monitor(o);
    let mut listed: Vec<MonitorInfo> = Vec::new();
    let mut i: usize = 0;
    while i < outputs.len()
        invariant
            i <= outputs.len(),
            all == outputs@.map_values(|o: X11OutputRecord| o@),
            keep == (|o: X11OutputRecordView| x11_output_active(o)),
            shown == (|o: X11OutputRecordView| x11_output_monitor(o)),
            forall|k: int| 0 <= k < outputs@.len() && x11_output_active((#[trigger] outputs@[k])@)
                ==> outputs@[k].geometry is Some,
            listed.deep_view() == all.take(i as int).filter(keep).map_values(shown),
        decreases outputs.len() - i,
    {
        let ghost before = listed.deep_view();
        let o = &outputs[i];
        proof {
            assert(all[i as int] == o@);
            assert(all.take(i + 1) =~= all.take(i as int).push(all[i as int]));
            all.take(i as int).lemma_filter_push(all[i as int], keep);
        }
        if output_is_active(o.connected, o.crtc) {
            match o.geometry {
                Some(g) => {
                    let m = crtc_monitor(o.name.clone(), g.x, g.y, g.width, g.height);
                    proof {
                        assert(keep(o@));
                        assert(m@ == shown(o@));
                    }
                    listed.push(m);
                    assert(listed.deep_view() =~= before.push(shown(o@)));
                },
                None => {
                    assert(false);
                },
            }
        }
        assert(listed.deep_view() =~= all.take(i + 1).filter(keep).map_values(shown));
        i = i + 1;
    }
    assert(all.take(outputs.len() as int) =~= all);
    sort_monitors(listed)
}

} // verus!
