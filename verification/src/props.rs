//! Element property settings, as plain values: the library decides which
//! properties to set to which values, and the caller applies them.
use vstd::prelude::*;

verus! {

/// The fixed capability sets the pipeline pins on its capsfilters; what each
/// one pins is given by [`caps_preset_structure`].
#[derive(Clone, Copy, PartialEq, Eq, Debug, Structural)]
pub enum CapsPreset {
    /// `video/x-raw, format=NV12, width=1920, height=1080, framerate=60/1`
    RawNv12Hd60,
    /// `video/x-raw(memory:D3D11Memory), format=NV12, width=1920, height=1080, framerate=60/1`
    D3d11Nv12Hd60,
    /// `video/x-h264, profile=high`
    H264High,
    /// `audio/x-raw, rate=48000, channels=2`
    Audio48kStereo,
    /// `audio/x-raw, format=F32LE, layout=interleaved, rate=48000, channels=2, channel-mask=0x3`
    MixerF32Stereo,
    /// `video/x-raw, width=1920, height=1080, framerate=15/1`
    PreviewHd15,
}

/// A value to give a property.
#[derive(Debug)]
pub enum PropValue {
    U32(u32),
    I32(i32),
    U64(u64),
    Bool(bool),
    /// A string-typed property set to this text.
    Text(String),
    /// A property set from its textual form (an enum nick, say).
    Parsed(String),
    /// A caps-typed property.
    Caps(CapsPreset),
    /// A structure-typed property holding one `u32` field.
    Structure { name: String, field: String, value: u32 },
    /// `rtp-profile` set to the AVPF profile.
    AvpfProfile,
}

/// Mathematical form of a [`PropValue`].
pub enum PropValueView {
    U32(u32),
    I32(i32),
    U64(u64),
    Bool(bool),
    Text(Seq<char>),
    Parsed(Seq<char>),
    Caps(CapsPreset),
    Structure { name: Seq<char>, field: Seq<char>, value: u32 },
    AvpfProfile,
}

impl DeepView for PropValue {
    type V = PropValueView;

    open spec fn deep_view(&self) -> PropValueView {
        match self {
            PropValue::U32(v) => PropValueView::U32(*v),
            PropValue::I32(v) => PropValueView::I32(*v),
            PropValue::U64(v) => PropValueView::U64(*v),
            PropValue::Bool(v) => PropValueView::Bool(*v),
            PropValue::Text(s) => PropValueView::Text(s@),
            PropValue::Parsed(s) => PropValueView::Parsed(s@),
            PropValue::Caps(c) => PropValueView::Caps(*c),
            PropValue::Structure { name, field, value } => PropValueView::Structure { name: name@, field: field@, value: *value },
            PropValue::AvpfProfile => PropValueView::AvpfProfile,
        }
    }
}

/// One property to set: its name and value.
#[derive(Debug)]
pub struct PropSetting {
    pub name: String,
    pub value: PropValue,
}

/// Mathematical form of a [`PropSetting`].
pub struct PropSettingView {
    pub name: Seq<char>,
    pub value: PropValueView,
}

impl DeepView for PropSetting {
    type V = PropSettingView;

    open spec fn deep_view(&self) -> PropSettingView {
        PropSettingView { name: self.name@, value: self.value.deep_view() }
    }
}

/// The setting of property `name` to `value`.
pub open spec fn setting(name: Seq<char>, value: PropValueView) -> PropSettingView {
    PropSettingView { name, value }
}

/// Sets `name` to an unsigned 32-bit value.
pub fn set_u32(name: &str, v: u32) -> (s: PropSetting)
    ensures
        s.deep_view() == setting(name@, PropValueView::U32(v)),
{
    PropSetting { name: String::from_str(name), value: PropValue::U32(v) }
}

/// Sets `name` to a signed 32-bit value.
pub fn set_i32(name: &str, v: i32) -> (s: PropSetting)
    ensures
        s.deep_view() == setting(name@, PropValueView::I32(v)),
{
    PropSetting { name: String::from_str(name), value: PropValue::I32(v) }
}

/// Sets `name` to an unsigned 64-bit value.
pub fn set_u64(name: &str, v: u64) -> (s: PropSetting)
    ensures
        s.deep_view() == setting(name@, PropValueView::U64(v)),
{
    PropSetting { name: String::from_str(name), value: PropValue::U64(v) }
}

/// Sets `name` to a boolean.
pub fn set_bool(name: &str, v: bool) -> (s: PropSetting)
    ensures
        s.deep_view() == setting(name@, PropValueView::Bool(v)),
{
    PropSetting { name: String::from_str(name), value: PropValue::Bool(v) }
}

/// Sets the string-typed property `name` to `v`.
pub fn set_text(name: &str, v: &str) -> (s: PropSetting)
    ensures
        s.deep_view() == setting(name@, PropValueView::Text(v@)),
{
    PropSetting { name: String::from_str(name), value: PropValue::Text(String::from_str(v)) }
}

/// Sets `name` from the textual form `v`.
pub fn set_parsed(name: &str, v: &str) -> (s: PropSetting)
    ensures
        s.deep_view() == setting(name@, PropValueView::Parsed(v@)),
{
    PropSetting { name: String::from_str(name), value: PropValue::Parsed(String::from_str(v)) }
}

/// Sets the caps-typed property `name` to a preset.
pub fn set_caps(name: &str, c: CapsPreset) -> (s: PropSetting)
    ensures
        s.deep_view() == setting(name@, PropValueView::Caps(c)),
{
    PropSetting { name: String::from_str(name), value: PropValue::Caps(c) }
}

/// Appends a setting to a list.
pub fn push_setting(list: &mut Vec<PropSetting>, s: PropSetting)
    ensures
        final(list).deep_view() == old(list).deep_view().push(s.deep_view()),
{
    let ghost before = list.deep_view();
    list.push(s);
    assert(list.deep_view() =~= before.push(s.deep_view()));
}

} // verus!

verus! {

/// The value of one caps field.
#[derive(Debug)]
pub enum CapsFieldValue {
    Str(String),
    Int(i32),
    /// A fraction, numerator then denominator.
    Fraction(i32, i32),
    Bitmask(u64),
}

/// Mathematical form of a [`CapsFieldValue`].
pub enum CapsFieldValueView {
    Str(Seq<char>),
    Int(i32),
    Fraction(i32, i32),
    Bitmask(u64),
}

/// One named field of a caps structure.
#[derive(Debug)]
pub struct CapsField {
    pub name: String,
    pub value: CapsFieldValue,
}

/// Mathematical form of a [`CapsField`].
pub struct CapsFieldView {
    pub name: Seq<char>,
    pub value: CapsFieldValueView,
}

/// A caps structure as plain values: its media type, its caps features and its
/// fields in order.
#[derive(Debug)]
pub struct CapsStructure {
    pub media_type: String,
    pub features: Vec<String>,
    pub fields: Vec<CapsField>,
}

/// Mathematical form of a [`CapsStructure`].
pub struct CapsStructureView {
    pub media_type: Seq<char>,
    pub features: Seq<Seq<char>>,
    pub fields: Seq<CapsFieldView>,
}

impl DeepView for CapsFieldValue {
    type V = CapsFieldValueView;

    open spec fn deep_view(&self) -> CapsFieldValueView {
        match self {
            CapsFieldValue::Str(s) => CapsFieldValueView::Str(s@),
            CapsFieldValue::Int(v) => CapsFieldValueView::Int(*v),
            CapsFieldValue::Fraction(n, d) => CapsFieldValueView::Fraction(*n, *d),
            CapsFieldValue::Bitmask(m) => CapsFieldValueView::Bitmask(*m),
        }
    }
}

impl DeepView for CapsField {
    type V = CapsFieldView;

    open spec fn deep_view(&self) -> CapsFieldView {
        CapsFieldView { name: self.name@, value: self.value.deep_view() }
    }
}

impl DeepView for CapsStructure {
    type V = CapsStructureView;

    open spec fn deep_view(&self) -> CapsStructureView {
        CapsStructureView {
            media_type: self.media_type@,
            features: self.features@.map_values(|f: String| f@),
            fields: self.fields.deep_view(),
        }
    }
}

/// The field `name` set to `value`.
pub open spec fn caps_field(name: Seq<char>, value: CapsFieldValueView) -> CapsFieldView {
    CapsFieldView { name, value }
}

/// The 1920x1080 size fields.
pub open spec fn hd_size_fields() -> Seq<CapsFieldView> {
    seq![
        caps_field("width"@, CapsFieldValueView::Int(1920)),
        caps_field("height"@, CapsFieldValueView::Int(1080)),
    ]
}

/// What each preset pins, field by field.
pub open spec fn caps_preset_structure(c: CapsPreset) -> CapsStructureView {
    match c {
        CapsPreset::RawNv12Hd60 => CapsStructureView {
            media_type: "video/x-raw"@,
            features: seq![],
            fields: seq![caps_field("format"@, CapsFieldValueView::Str("NV12"@))] + hd_size_fields()
                + seq![caps_field("framerate"@, CapsFieldValueView::Fraction(60, 1))],
        },
        CapsPreset::D3d11Nv12Hd60 => CapsStructureView {
            media_type: "video/x-raw"@,
            features: seq!["memory:D3D11Memory"@],
            fields: seq![caps_field("format"@, CapsFieldValueView::Str("NV12"@))] + hd_size_fields()
                + seq![caps_field("framerate"@, CapsFieldValueView::Fraction(60, 1))],
        },
        CapsPreset::H264High => CapsStructureView {
            media_type: "video/x-h264"@,
            features: seq![],
            fields: seq![caps_field("profile"@, CapsFieldValueView::Str("high"@))],
        },
        CapsPreset::Audio48kStereo => CapsStructureView {
            media_type: "audio/x-raw"@,
            features: seq![],
            fields: seq![
                caps_field("rate"@, CapsFieldValueView::Int(48000)),
                caps_field("channels"@, CapsFieldValueView::Int(2)),
            ],
        },
        CapsPreset::MixerF32Stereo => CapsStructureView {
            media_type: "audio/x-raw"@,
            features: seq![],
            fields: seq![
                caps_field("format"@, CapsFieldValueView::Str("F32LE"@)),
                caps_field("layout"@, CapsFieldValueView::Str("interleaved"@)),
                caps_field("rate"@, CapsFieldValueView::Int(48000)),
                caps_field("channels"@, CapsFieldValueView::Int(2)),
                caps_field("channel-mask"@, CapsFieldValueView::Bitmask(3)),
            ],
        },
        CapsPreset::PreviewHd15 => CapsStructureView {
            media_type: "video/x-raw"@,
            features: seq![],
            fields: hd_size_fields() + seq![caps_field("framerate"@, CapsFieldValueView::Fraction(15, 1))],
        },
    }
}

/// Appends the field `name` set to `value`.
fn push_caps_field(fields: &mut Vec<CapsField>, name: &str, value: CapsFieldValue)
    ensures
        final(fields).deep_view() == old(fields).deep_view().push(caps_field(name@, value.deep_view())),
{
    let ghost before = fields.deep_view();
    fields.push(CapsField { name: String::from_str(name), value });
    assert(fields.deep_view() =~= before.push(caps_field(name@, value.deep_view())));
}

/// Appends the 1920x1080 size fields.
fn push_hd_size(fields: &mut Vec<CapsField>)
    ensures
        final(fields).deep_view() == old(fields).deep_view() + hd_size_fields(),
{
    let ghost before = fields.deep_view();
    push_caps_field(fields, "width", CapsFieldValue::Int(1920));
    push_caps_field(fields, "height", CapsFieldValue::Int(1080));
    assert(fields.deep_view() =~= before + hd_size_fields());
}

/// The caps structure a preset pins, as plain values.
pub fn caps_structure(c: CapsPreset) -> (s: CapsStructure)
    ensures
        s.deep_view() == caps_preset_structure(c),
{
    let mut features: Vec<String> = Vec::new();
    let mut fields: Vec<CapsField> = Vec::new();
    let media_type = match c {
        CapsPreset::RawNv12Hd60 | CapsPreset::D3d11Nv12Hd60 => {
            if c == CapsPreset::D3d11Nv12Hd60 {
                features.push(String::from_str("memory:D3D11Memory"));
            }
            push_caps_field(&mut fields, "format", CapsFieldValue::Str(String::from_str("NV12")));
            push_hd_size(&mut fields);
            push_caps_field(&mut fields, "framerate", CapsFieldValue::Fraction(60, 1));
            String::from_str("video/x-raw")
        },
        CapsPreset::H264High => {
            push_caps_field(&mut fields, "profile", CapsFieldValue::Str(String::from_str("high")));
            String::from_str("video/x-h264")
        },
        CapsPreset::Audio48kStereo => {
            push_caps_field(&mut fields, "rate", CapsFieldValue::Int(48000));
            push_caps_field(&mut fields, "channels", CapsFieldValue::Int(2));
            String::from_str("audio/x-raw")
        },
        CapsPreset::MixerF32Stereo => {
            push_caps_field(&mut fields, "format", CapsFieldValue::Str(String::from_str("F32LE")));
            push_caps_field(&mut fields, "layout", CapsFieldValue::Str(String::from_str("interleaved")));
            push_caps_field(&mut fields, "rate", CapsFieldValue::Int(48000));
            push_caps_field(&mut fields, "channels", CapsFieldValue::Int(2));
            push_caps_field(&mut fields, "channel-mask", CapsFieldValue::Bitmask(3));
            String::from_str("audio/x-raw")
        },
        CapsPreset::PreviewHd15 => {
            push_hd_size(&mut fields);
            push_caps_field(&mut fields, "framerate", CapsFieldValue::Fraction(15, 1));
            String::from_str("video/x-raw")
        },
    };
    let s = CapsStructure { media_type, features, fields };
    assert(s.deep_view().features =~= caps_preset_structure(c).features);
    assert(s.deep_view().fields =~= caps_preset_structure(c).fields);
    s
}

} // verus!
