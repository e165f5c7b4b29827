//! The H.264 encoder: which factories are tried, and how each kind of encoder
//! is tuned for low-latency 1080p60 streaming.
use vstd::prelude::*;
use crate::platform::Platform;
use crate::props::{PropSetting, PropSettingView, PropValueView, push_setting, set_bool, set_i32, set_parsed, set_u32, setting};
use crate::text::{is_substring, str_contains, str_equals};

verus! {

/// Which of the optional encoder properties the encoder element has.
#[derive(Clone, Copy, Debug)]
pub struct EncoderProps {
    pub rc_mode: bool,
    pub rate_control: bool,
    pub bframes: bool,
    pub b_frames: bool,
    pub zerolatency: bool,
    pub zero_reorder_delay: bool,
    pub bitrate: bool,
    pub keyframe_period: bool,
    pub cabac: bool,
}

/// The NVENC tuning: 20 Mbps with a 400 ms VBV window, the low-latency preset,
/// a two-second GOP without B-frame adaptation or access-unit delimiters, then
/// constant bit rate, no B-frames and zero latency under whichever property
/// names the encoder has (CUDA and D3D11 NVENC name them differently).
pub open spec fn nvenc_plan(p: EncoderProps) -> Seq<PropSettingView> {
    seq![
        setting("bitrate"@, PropValueView::U32(20000)),
        setting("vbv-buffer-size"@, PropValueView::U32(8000)),
        setting("preset"@, PropValueView::Parsed("low-latency-hp"@)),
        setting("gop-size"@, PropValueView::I32(120)),
        setting("b-adapt"@, PropValueView::Bool(false)),
        setting("aud"@, PropValueView::Bool(false)),
    ] + (if p.rc_mode {
        seq![setting("rc-mode"@, PropValueView::Parsed("cbr"@))]
    } else if p.rate_control {
        seq![setting("rate-control"@, PropValueView::Parsed("cbr"@))]
    } else {
        seq![]
    }) + (if p.bframes {
        seq![setting("bframes"@, PropValueView::U32(0))]
    } else if p.b_frames {
        seq![setting("b-frames"@, PropValueView::U32(0))]
    } else {
        seq![]
    }) + (if p.zerolatency {
        seq![setting("zerolatency"@, PropValueView::Bool(true))]
    } else if p.zero_reorder_delay {
        seq![setting("zero-reorder-delay"@, PropValueView::Bool(true))]
    } else {
        seq![]
    })
}

/// The VA-API tuning: constant bit rate, 20 Mbps, a keyframe every 120 frames
/// and CABAC, each only where the encoder has the property.
pub open spec fn vaapi_plan(p: EncoderProps) -> Seq<PropSettingView> {
    (if p.rate_control { seq![setting("rate-control"@, PropValueView::Parsed("cbr"@))] } else { seq![] })
    + (if p.bitrate { seq![setting("bitrate"@, PropValueView::U32(20000))] } else { seq![] })
    + (if p.keyframe_period { seq![setting("keyframe-period"@, PropValueView::U32(120))] } else { seq![] })
    + (if p.cabac { seq![setting("cabac"@, PropValueView::Bool(true))] } else { seq![] })
}

/// The x264 tuning: 20 Mbps, zero-latency tune, superfast preset, a keyframe
/// at least every 120 frames, no B-frames.
pub open spec fn x264_plan() -> Seq<PropSettingView> {
    seq![
        setting("bitrate"@, PropValueView::U32(20000)),
        setting("tune"@, PropValueView::Parsed("zerolatency"@)),
        setting("speed-preset"@, PropValueView::Parsed("superfast"@)),
        setting("key-int-max"@, PropValueView::U32(120)),
        setting("bframes"@, PropValueView::U32(0)),
    ]
}

/// The tuning for an encoder made by `factory`: NVENC factories get the NVENC
/// tuning, factories whose name contains `vaapi` or `va` the VA-API tuning,
/// `x264enc` the x264 tuning, any other none.
pub open spec fn encoder_plan(factory: Seq<char>, p: EncoderProps) -> Seq<PropSettingView> {
    if is_substring("nvh264enc"@, factory) || is_substring("nvd3d11h264enc"@, factory) {
        nvenc_plan(p)
    } else if is_substring("vaapi"@, factory) || is_substring("va"@, factory) {
        vaapi_plan(p)
    } else if factory == "x264enc"@ {
        x264_plan()
    } else {
        seq![]
    }
}

/// The NVENC property settings for an encoder with the given properties.
pub fn configure_nvenc(p: &EncoderProps) -> (out: Vec<PropSetting>)
    ensures
        out.deep_view() == nvenc_plan(*p),
{
    let mut out: Vec<PropSetting> = Vec::new();
    push_setting(&mut out, set_u32("bitrate", 20000));
    push_setting(&mut out, set_u32("vbv-buffer-size", 8000));
    push_setting(&mut out, set_parsed("preset", "low-latency-hp"));
    push_setting(&mut out, set_i32("gop-size", 120));
    push_setting(&mut out, set_bool("b-adapt", false));
    push_setting(&mut out, set_bool("aud", false));
    if p.rc_mode {
        push_setting(&mut out, set_parsed("rc-mode", "cbr"));
    } else if p.rate_control {
        push_setting(&mut out, set_parsed("rate-control", "cbr"));
    }
    if p.bframes {
        push_setting(&mut out, set_u32("bframes", 0));
    } else if p.b_frames {
        push_setting(&mut out, set_u32("b-frames", 0));
    }
    if p.zerolatency {
        push_setting(&mut out, set_bool("zerolatency", true));
    } else if p.zero_reorder_delay {
        push_setting(&mut out, set_bool("zero-reorder-delay", true));
    }
    assert(out.deep_view() =~= nvenc_plan(*p));
    out
}

/// The property settings for an encoder made by `factory` (the empty name
/// when the element has no factory) with the given optional properties.
pub fn configure_encoder(factory: &str, p: &EncoderProps) -> (out: Vec<PropSetting>)
    ensures
        out.deep_view() == encoder_plan(factory@, *p),
{
    if str_contains(factory, "nvh264enc") || str_contains(factory, "nvd3d11h264enc") {
        configure_nvenc(p)
    } else if str_contains(factory, "vaapi") || str_contains(factory, "va") {
        let mut out: Vec<PropSetting> = Vec::new();
        if p.rate_control {
            push_setting(&mut out, set_parsed("rate-control", "cbr"));
        }
        if p.bitrate {
            push_setting(&mut out, set_u32("bitrate", 20000));
        }
        if p.keyframe_period {
            push_setting(&mut out, set_u32("keyframe-period", 120));
        }
        if p.cabac {
            push_setting(&mut out, set_bool("cabac", true));
        }
        assert(out.deep_view() =~= vaapi_plan(*p));
        out
    } else if str_equals(factory, "x264enc") {
        let mut out: Vec<PropSetting> = Vec::new();
        push_setting(&mut out, set_u32("bitrate", 20000));
        push_setting(&mut out, set_parsed("tune", "zerolatency"));
        push_setting(&mut out, set_parsed("speed-preset", "superfast"));
        push_setting(&mut out, set_u32("key-int-max", 120));
        push_setting(&mut out, set_u32("bframes", 0));
        assert(out.deep_view() =~= x264_plan());
        out
    } else {
        let out: Vec<PropSetting> = Vec::new();
        assert(out.deep_view() =~= Seq::<PropSettingView>::empty());
        out
    }
}

/// The encoder factories tried in order, each element named `videoenc`, and
/// the error reported when none can be made. On Linux: NVENC, VA-API (legacy
/// and new plugin), then x264. On Windows only one hardware encoder is tried:
/// the D3D11 NVENC encoder behind the D3D11 capture source, the CUDA one
/// otherwise.
pub open spec fn encoder_candidates(platform: Platform, src_factory: Seq<char>) -> (Seq<Seq<char>>, Seq<char>) {
    match platform {
        Platform::Linux => (
            seq!["nvh264enc"@, "vaapih264enc"@, "vah264enc"@, "x264enc"@],
            "No H.264 encoder available (tried nvh264enc, vaapih264enc, vah264enc, x264enc)"@,
        ),
        Platform::Windows => {
            let f = if src_factory == "d3d11screencapturesrc"@ { "nvd3d11h264enc"@ } else { "nvh264enc"@ };
            (seq![f], f + " unavailable — required for hardware H.264 encode"@)
        },
    }
}

/// The encoder factories to try, in order, and the error when none works.
pub fn create_video_encoder(platform: Platform, src_factory: &str) -> (r: (Vec<String>, String))
    ensures
        r.0.deep_view() == encoder_candidates(platform, src_factory@).0,
        r.1@ == encoder_candidates(platform, src_factory@).1,
{
    match platform {
        Platform::Linux => {
            let mut v: Vec<String> = Vec::new();
            v.push(String::from_str("nvh264enc"));
            v.push(String::from_str("vaapih264enc"));
            v.push(String::from_str("vah264enc"));
            v.push(String::from_str("x264enc"));
            assert(v.deep_view() =~= encoder_candidates(platform, src_factory@).0);
            (v, String::from_str("No H.264 encoder available (tried nvh264enc, vaapih264enc, vah264enc, x264enc)"))
        },
        Platform::Windows => {
            let f = if str_equals(src_factory, "d3d11screencapturesrc") { "nvd3d11h264enc" } else { "nvh264enc" };
            let mut v: Vec<String> = Vec::new();
            v.push(String::from_str(f));
            assert(v.deep_view() =~= encoder_candidates(platform, src_factory@).0);
            let msg = String::from_str(f).concat(" unavailable — required for hardware H.264 encode");
            (v, msg)
        },
    }
}

} // verus!
