use scapp::monitors::{sort_monitors, MonitorInfo};
use scapp::text::{equals_ignore_ascii_case, str_contains, str_equals, trim_white_space, with_decimal};
use scapp::thumbnail::{bgrx_pixels_to_rgb, is_black, pixels_to_base64_jpeg, rgb_thumbnail_base64, thumbnail_size_ok};
use scapp::windows::{
    composite_thumbnail, crtc_monitor, dib_pixels_to_base64_jpeg, enumerate, enumerate_monitors, is_blocked_process_name, is_capturable,
    output_is_active, proc_comm_path, process_name_from_comm, window_capture_size, window_thumbnail_size,
    x11_listed_title, x11_window_info, x11_window_is_hidden, x11_window_pid, x11_window_title, Rect, WindowInfo, WindowProbe,
    WS_CHILD, WS_EX_NOREDIRECTIONBITMAP, WS_EX_TOOLWINDOW, WS_VISIBLE,
};

fn monitor(name: &str, x: i32, y: i32) -> MonitorInfo {
    MonitorInfo { name: name.to_string(), x, y, width: 1920, height: 1080, thumbnail: String::new() }
}

fn names(v: &[MonitorInfo]) -> Vec<String> {
    v.iter().map(|m| m.name.clone()).collect()
}

#[test]
fn monitors_sort_by_position_keeping_ties_in_order() {
    let v = vec![monitor("A", 1920, 0), monitor("B", 0, 1080), monitor("C", 0, 1080), monitor("D", 0, 0), monitor("E", -1920, 500)];
    let out = sort_monitors(v);
    assert_eq!(names(&out), vec!["E", "D", "B", "C", "A"]);
}

#[test]
fn display_monitors_are_numbered_in_report_order_then_sorted() {
    let rects = vec![
        Rect { left: 1920, top: 0, right: 3840, bottom: 1080 },
        Rect { left: 0, top: 0, right: 1920, bottom: 1200 },
    ];
    let out = enumerate_monitors(&rects);
    assert_eq!(names(&out), vec!["Monitor 2", "Monitor 1"]);
    assert_eq!((out[0].x, out[0].y, out[0].width, out[0].height), (0, 0, 1920, 1200));
    assert_eq!((out[1].x, out[1].width, out[1].height), (1920, 1920, 1080));
    assert!(out[1].thumbnail.is_empty());
}

fn probe() -> WindowProbe {
    WindowProbe {
        visible: true,
        title_len: 5,
        ex_style: 0,
        style: WS_VISIBLE,
        rect: Some(Rect { left: 10, top: 10, right: 810, bottom: 610 }),
        cloaked: Some(0),
        class_name: Some("Notepad".to_string()),
    }
}

#[test]
fn ordinary_windows_are_capturable() {
    assert!(is_capturable(&probe()));
    let mut p = probe();
    p.cloaked = None;
    p.class_name = None;
    assert!(is_capturable(&p));
}

#[test]
fn hidden_untitled_tool_child_empty_cloaked_and_shell_windows_are_not() {
    let mut p = probe();
    p.visible = false;
    assert!(!is_capturable(&p));
    let mut p = probe();
    p.title_len = 0;
    assert!(!is_capturable(&p));
    let mut p = probe();
    p.ex_style = WS_EX_TOOLWINDOW;
    assert!(!is_capturable(&p));
    let mut p = probe();
    p.style = WS_VISIBLE | WS_CHILD;
    assert!(!is_capturable(&p));
    let mut p = probe();
    p.style = 0;
    assert!(!is_capturable(&p));
    let mut p = probe();
    p.rect = Some(Rect { left: 10, top: 10, right: 10, bottom: 610 });
    assert!(!is_capturable(&p));
    let mut p = probe();
    p.rect = None;
    assert!(!is_capturable(&p));
    let mut p = probe();
    p.cloaked = Some(2);
    assert!(!is_capturable(&p));
    for class in ["Shell_TrayWnd", "Progman", "WorkerW", "Windows.UI.Core.CoreWindow", "Xaml_WindowedPopupClass", "Windows.Internal.Shell.TabProxyWindow"] {
        let mut p = probe();
        p.class_name = Some(class.to_string());
        assert!(!is_capturable(&p), "{}", class);
    }
}

#[test]
fn blocked_processes_match_ignoring_ascii_case() {
    assert!(is_blocked_process_name("SearchHost.exe"));
    assert!(is_blocked_process_name("searchhost.EXE"));
    assert!(is_blocked_process_name("WIDGETSERVICE.exe"));
    assert!(!is_blocked_process_name("explorer.exe"));
    assert!(!is_blocked_process_name("SearchHost.ex"));
    assert!(!is_blocked_process_name(""));
}

#[test]
fn window_thumbnail_size_limits() {
    assert_eq!(window_thumbnail_size(0, Some(Rect { left: 0, top: 0, right: 800, bottom: 600 })), Some((800, 600)));
    assert_eq!(window_thumbnail_size(WS_EX_NOREDIRECTIONBITMAP, Some(Rect { left: 0, top: 0, right: 800, bottom: 600 })), None);
    assert_eq!(window_thumbnail_size(0, None), None);
    assert_eq!(window_thumbnail_size(0, Some(Rect { left: 0, top: 0, right: 16384, bottom: 1 })), Some((16384, 1)));
    assert_eq!(window_thumbnail_size(0, Some(Rect { left: 0, top: 0, right: 16385, bottom: 1 })), None);
    assert_eq!(window_thumbnail_size(0, Some(Rect { left: 5, top: 0, right: 1, bottom: 10 })), None);
}

#[test]
fn capture_sizes_are_bounded() {
    assert!(thumbnail_size_ok(1, 1));
    assert!(thumbnail_size_ok(16384, 16384));
    assert!(!thumbnail_size_ok(0, 10));
    assert!(!thumbnail_size_ok(10, 16385));
    assert_eq!(window_capture_size(Some((640, 480))), Some((640, 480)));
    assert_eq!(window_capture_size(Some((0, 480))), None);
    assert_eq!(window_capture_size(Some((16385, 480))), None);
    assert_eq!(window_capture_size(None), None);
}

#[test]
fn bgrx_pixels_become_rgb() {
    let data = [1u8, 2, 3, 4, 5, 6, 7, 8, 9, 9, 9, 9];
    assert_eq!(bgrx_pixels_to_rgb(&data, 2), vec![3, 2, 1, 7, 6, 5]);
    assert_eq!(bgrx_pixels_to_rgb(&data, 0), Vec::<u8>::new());
    assert!(is_black(&vec![0, 0, 0]));
    assert!(!is_black(&vec![0, 1, 0]));
}

fn gradient_bgrx(width: u32, height: u32) -> Vec<u8> {
    let mut v = Vec::new();
    for y in 0..height {
        for x in 0..width {
            v.push((x * 20) as u8);
            v.push((y * 30) as u8);
            v.push(200);
            v.push(255);
        }
    }
    v
}

fn is_jpeg_base64(s: &str) -> bool {
    !s.is_empty() && s.len() % 4 == 0 && s.starts_with("/9j/")
        && s.chars().all(|c| c.is_ascii_alphanumeric() || c == '+' || c == '/' || c == '=')
}

#[test]
fn x11_pixels_give_a_jpeg_thumbnail() {
    let data = gradient_bgrx(8, 6);
    let t = pixels_to_base64_jpeg(&data, 24, 8, 6);
    assert!(is_jpeg_base64(&t), "{}", t);
    assert_eq!(pixels_to_base64_jpeg(&data, 32, 8, 6), t);
}

#[test]
fn x11_pixels_of_other_depths_short_or_black_give_nothing() {
    let data = gradient_bgrx(8, 6);
    assert_eq!(pixels_to_base64_jpeg(&data, 16, 8, 6), "");
    assert_eq!(pixels_to_base64_jpeg(&data[..data.len() - 1], 24, 8, 6), "");
    assert_eq!(pixels_to_base64_jpeg(&vec![0u8; 8 * 6 * 4], 24, 8, 6), "");
    assert_eq!(pixels_to_base64_jpeg(&[], 24, 0, 0), "");
}

#[test]
fn windows_bitmaps_give_a_jpeg_thumbnail() {
    let data = gradient_bgrx(4, 4);
    assert!(is_jpeg_base64(&dib_pixels_to_base64_jpeg(&data, 4, 4)));
    assert_eq!(dib_pixels_to_base64_jpeg(&vec![0u8; 64], 4, 4), "");
}

#[test]
fn rgb_frames_give_a_jpeg_thumbnail() {
    let rgb: Vec<u8> = (0..(3 * 5 * 5)).map(|i| (i * 3) as u8).collect();
    assert!(is_jpeg_base64(&rgb_thumbnail_base64(rgb, 5, 5)));
}

#[test]
fn x11_titles_prefer_a_non_empty_net_wm_name() {
    let t = x11_window_title(Some("Éditeur".as_bytes().to_vec()), Some(b"fallback".to_vec()));
    assert_eq!(t, "Éditeur");
    assert_eq!(x11_window_title(Some(Vec::new()), Some(b"fallback".to_vec())), "fallback");
    assert_eq!(x11_window_title(Some(vec![0xff, 0xfe]), Some(b"fallback".to_vec())), "fallback");
    assert_eq!(x11_window_title(None, Some(vec![0xc3])), "");
    assert_eq!(x11_window_title(None, None), "");
    assert_eq!(x11_listed_title(None, Some(b"Terminal".to_vec())), Some("Terminal".to_string()));
    assert_eq!(x11_listed_title(Some(Vec::new()), None), None);
}

#[test]
fn x11_hidden_state_pid_and_process_name() {
    assert!(x11_window_is_hidden(&Some(vec![3, 7, 9]), 7));
    assert!(!x11_window_is_hidden(&Some(vec![3, 9]), 7));
    assert!(!x11_window_is_hidden(&None, 7));
    assert_eq!(x11_window_pid(&Some(vec![4242, 1])), 4242);
    assert_eq!(x11_window_pid(&Some(Vec::new())), 0);
    assert_eq!(x11_window_pid(&None), 0);
    assert_eq!(proc_comm_path(0), None);
    assert_eq!(proc_comm_path(4242), Some("/proc/4242/comm".to_string()));
    assert_eq!(process_name_from_comm(Some("firefox\n".to_string())), "firefox");
    assert_eq!(process_name_from_comm(Some(" \t code oss \u{3000}".to_string())), "code oss");
    assert_eq!(process_name_from_comm(None), "");
    let w = x11_window_info(0x1400007, "Title".to_string(), 42, "proc".to_string(), String::new());
    assert_eq!((w.id, w.pid, w.title.as_str(), w.process_name.as_str()), (0x1400007u64, 42, "Title", "proc"));
}

#[test]
fn compositor_thumbnails_are_used_unless_empty() {
    assert_eq!(composite_thumbnail("abcd".to_string()), Some("abcd".to_string()));
    assert_eq!(composite_thumbnail(String::new()), None);
}

#[test]
fn x11_outputs_and_crtcs() {
    assert!(output_is_active(true, 63));
    assert!(!output_is_active(true, 0));
    assert!(!output_is_active(false, 63));
    let m = crtc_monitor("HDMI-1".to_string(), -1280, 0, 1280, 1024);
    assert_eq!((m.name.as_str(), m.x, m.y, m.width, m.height), ("HDMI-1", -1280, 0, 1280, 1024));
}

#[test]
fn text_helpers() {
    assert!(str_equals("abc", "abc"));
    assert!(!str_equals("abc", "abd"));
    assert!(str_contains("/GstPipeline:pipeline0/GstPulseSrc:system_audio_src", "system_audio_src"));
    assert!(str_contains("abc", ""));
    assert!(!str_contains("ab", "abc"));
    assert!(equals_ignore_ascii_case("LockApp.EXE", "lockapp.exe"));
    assert!(!equals_ignore_ascii_case("Ä", "ä"));
    assert_eq!(with_decimal("Monitor ", 0), "Monitor 0");
    assert_eq!(with_decimal("", 18446744073709551615), "18446744073709551615");
    assert_eq!(trim_white_space("  \n"), "");
    assert_eq!(trim_white_space("x"), "x");
    assert_eq!(trim_white_space("\u{2003}a b\u{85}"), "a b");
}

fn window(id: u64, process_name: &str) -> WindowInfo {
    WindowInfo { id, pid: 1, title: format!("w{}", id), process_name: process_name.to_string(), thumbnail: String::new() }
}

#[test]
fn windows_of_blocked_processes_are_left_out() {
    let found = vec![window(1, "explorer.exe"), window(2, "TEXTINPUTHOST.EXE"), window(3, "game.exe"), window(4, "LockApp.exe")];
    let out = enumerate(found);
    let ids: Vec<u64> = out.iter().map(|w| w.id).collect();
    assert_eq!(ids, vec![1, 3]);
    assert!(enumerate(Vec::new()).is_empty());
}
