//! Selection of microphone inputs from the audio source devices that the
//! device monitor reports.
use vstd::prelude::*;
use crate::platform::Platform;
use crate::text::str_equals;

verus! {

/// A microphone input offered to the user.
#[derive(Clone, Debug)]
pub struct MicDevice {
    pub id: String,
    pub name: String,
    pub is_default: bool,
}

/// Mathematical form of a [`MicDevice`].
pub struct MicDeviceView {
    pub id: Seq<char>,
    pub name: Seq<char>,
    pub is_default: bool,
}

impl View for MicDevice {
    type V = MicDeviceView;

    open spec fn view(&self) -> MicDeviceView {
        MicDeviceView { id: self.id@, name: self.name@, is_default: self.is_default }
    }
}

impl DeepView for MicDevice {
    type V = MicDeviceView;

    open spec fn deep_view(&self) -> MicDeviceView {
        self@
    }
}

/// What the device monitor reports about one audio source device: its display
/// name and the string or boolean properties that the selection reads. A
/// property is `None` when the device has no property structure, lacks the key,
/// or holds a value of another type there.
#[derive(Clone, Debug)]
pub struct AudioDeviceRecord {
    pub display_name: String,
    /// `device.api`
    pub api: Option<String>,
    /// `device.class`
    pub class: Option<String>,
    /// `node.name`
    pub node_name: Option<String>,
    /// `device.name`
    pub device_name: Option<String>,
    /// `object.id`
    pub object_id: Option<String>,
    /// `device.strid`
    pub device_strid: Option<String>,
    /// `device.id`
    pub device_id: Option<String>,
    /// `wasapi2.device.id`
    pub wasapi2_device_id: Option<String>,
    /// `is-default`
    pub is_default: Option<bool>,
    /// Windows only: whether an element built from the device has a `loopback`
    /// property set to true.
    pub element_loopback: bool,
    /// Windows only: the `device` property of an element built from the device,
    /// when the element has one and it is set.
    pub element_device: Option<String>,
}

/// Mathematical form of an [`AudioDeviceRecord`].
pub struct AudioDeviceRecordView {
    pub display_name: Seq<char>,
    pub api: Option<Seq<char>>,
    pub class: Option<Seq<char>>,
    pub node_name: Option<Seq<char>>,
    pub device_name: Option<Seq<char>>,
    pub object_id: Option<Seq<char>>,
    pub device_strid: Option<Seq<char>>,
    pub device_id: Option<Seq<char>>,
    pub wasapi2_device_id: Option<Seq<char>>,
    pub is_default: Option<bool>,
    pub element_loopback: bool,
    pub element_device: Option<Seq<char>>,
}

impl DeepView for AudioDeviceRecord {
    type V = AudioDeviceRecordView;

    open spec fn deep_view(&self) -> AudioDeviceRecordView {
        AudioDeviceRecordView {
            display_name: self.display_name@,
            api: self.api.deep_view(),
            class: self.class.deep_view(),
            node_name: self.node_name.deep_view(),
            device_name: self.device_name.deep_view(),
            object_id: self.object_id.deep_view(),
            device_strid: self.device_strid.deep_view(),
            device_id: self.device_id.deep_view(),
            wasapi2_device_id: self.wasapi2_device_id.deep_view(),
            is_default: self.is_default,
            element_loopback: self.element_loopback,
            element_device: self.element_device.deep_view(),
        }
    }
}

/// The first of three optional values that is present.
pub open spec fn first_present(a: Option<Seq<char>>, b: Option<Seq<char>>, c: Option<Seq<char>>) -> Option<Seq<char>> {
    if a is Some { a } else if b is Some { b } else { c }
}

/// Whether a record comes from an audio API whose sources are offered as
/// microphones on `platform`: PulseAudio or PipeWire sources that are not
/// output monitors on Linux, non-loopback WASAPI2 sources on Windows.
pub open spec fn offered_api(platform: Platform, r: AudioDeviceRecordView) -> bool {
    match platform {
        Platform::Linux => {
            &&& (r.api == Some("pulseaudio"@) || r.api == Some("pipewire"@))
            &&& r.class != Some("monitor"@)
        },
        Platform::Windows => r.api == Some("wasapi2"@) && !r.element_loopback,
    }
}

/// The stable id a record is listed under, when it has one: on Linux the node
/// name, device name or object id, falling back to the display name; on
/// Windows the string id, device id or WASAPI2 id, falling back to the probe
/// element's `device` property.
pub open spec fn record_id(platform: Platform, r: AudioDeviceRecordView) -> Option<Seq<char>> {
    match platform {
        Platform::Linux => {
            let f = first_present(r.node_name, r.device_name, r.object_id);
            if f is Some { f } else { Some(r.display_name) }
        },
        Platform::Windows => {
            let f = first_present(r.device_strid, r.device_id, r.wasapi2_device_id);
            if f is Some { f } else { r.element_device }
        },
    }
}

/// The ids of a list of devices, in order.
pub open spec fn ids_of(devs: Seq<MicDeviceView>) -> Seq<Seq<char>> {
    devs.map_values(|d: MicDeviceView| d.id)
}

/// The devices that the records yield before a default is forced: each record
/// with an offered API and a non-empty id not listed yet, in record order.
pub open spec fn collected_devices(platform: Platform, rs: Seq<AudioDeviceRecordView>) -> Seq<MicDeviceView>
    decreases rs.len(),
{
    if rs.len() == 0 {
        seq![]
    } else {
        let prev = collected_devices(platform, rs.drop_last());
        let r = rs.last();
        let id = record_id(platform, r);
        if offered_api(platform, r) && id is Some && id.unwrap().len() > 0 && !ids_of(prev).contains(id.unwrap()) {
            prev.push(MicDeviceView { id: id.unwrap(), name: r.display_name, is_default: r.is_default == Some(true) })
        } else {
            prev
        }
    }
}

/// Whether some device in the list is marked default.
pub open spec fn has_default(devs: Seq<MicDeviceView>) -> bool {
    exists|i: int| 0 <= i < devs.len() && #[trigger] devs[i].is_default
}

/// A non-empty list in which no device is marked default gets its first device
/// marked default; any other list is left as it is.
pub open spec fn with_forced_default(devs: Seq<MicDeviceView>) -> Seq<MicDeviceView> {
    if devs.len() > 0 && !has_default(devs) {
        devs.update(0, MicDeviceView { is_default: true, ..devs[0] })
    } else {
        devs
    }
}

/// The microphone list that the records yield.
pub open spec fn mic_devices_of(platform: Platform, rs: Seq<AudioDeviceRecordView>) -> Seq<MicDeviceView> {
    with_forced_default(collected_devices(platform, rs))
}

fn clone_opt(o: &Option<String>) -> (r: Option<String>)
    ensures
        r.deep_view() == o.deep_view(),
{
    match o {
        Some(s) => Some(s.clone()),
        None => None,
    }
}

fn opt_equals(o: &Option<String>, lit: &str) -> (r: bool)
    ensures
        r == (o.deep_view() == Some(lit@)),
{
    match o {
        Some(s) => str_equals(s.as_str(), lit),
        None => false,
    }
}

/// Whether a record's API makes it a candidate on `platform` before any probe
/// element is built for it: on Windows only WASAPI2 devices are probed.
pub fn is_probe_candidate(platform: Platform, r: &AudioDeviceRecord) -> (b: bool)
    ensures
        b == (match platform {
            Platform::Linux => true,
            Platform::Windows => r.deep_view().api == Some("wasapi2"@),
        }),
{
    match platform {
        Platform::Linux => true,
        Platform::Windows => opt_equals(&r.api, "wasapi2"),
    }
}

fn offered(platform: Platform, r: &AudioDeviceRecord) -> (b: bool)
    ensures
        b == offered_api(platform, r.deep_view()),
{
    match platform {
        Platform::Linux => {
            (opt_equals(&r.api, "pulseaudio") || opt_equals(&r.api, "pipewire"))
                && !opt_equals(&r.class, "monitor")
        },
        Platform::Windows => opt_equals(&r.api, "wasapi2") && !r.element_loopback,
    }
}

fn pick_id(platform: Platform, r: &AudioDeviceRecord) -> (id: Option<String>)
    ensures
        id.deep_view() == record_id(platform, r.deep_view()),
{
    match platform {
        Platform::Linux => {
            if r.node_name.is_some() {
                clone_opt(&r.node_name)
            } else if r.device_name.is_some() {
                clone_opt(&r.device_name)
            } else if r.object_id.is_some() {
                clone_opt(&r.object_id)
            } else {
                Some(r.display_name.clone())
            }
        },
        Platform::Windows => {
            if r.device_strid.is_some() {
                clone_opt(&r.device_strid)
            } else if r.device_id.is_some() {
                clone_opt(&r.device_id)
            } else if r.wasapi2_device_id.is_some() {
                clone_opt(&r.wasapi2_device_id)
            } else {
                clone_opt(&r.element_device)
            }
        },
    }
}

fn listed(out: &Vec<MicDevice>, id: &String) -> (b: bool)
    ensures
        b == ids_of(out.deep_view()).contains(id@),
{
    let mut i: usize = 0;
    while i < out.len()
        invariant
            i <= out.len(),
            forall|j: int| 0 <= j < i ==> out.deep_view()[j].id != id@,
        decreases out.len() - i,
    {
        if out[i].id == *id {
            assert(ids_of(out.deep_view())[i as int] == id@);
            return true;
        }
        i = i + 1;
    }
    assert forall|j: int| 0 <= j < ids_of(out.deep_view()).len() implies ids_of(out.deep_view())[j] != id@ by {
        assert(out.deep_view()[j].id != id@);
    }
    false
}

/// Turns the device monitor's report into the list of microphones offered to
/// the user: devices from an offered API, each under its first non-empty id,
/// duplicates dropped, and the first device marked default when the report
/// marks none.
pub fn enumerate_audio_input_devices(platform: Platform, records: &Vec<AudioDeviceRecord>) -> (out: Vec<MicDevice>)
    ensures
        out.deep_view() == mic_devices_of(platform, records.deep_view()),
{
    let mut out: Vec<MicDevice> = Vec::new();
    let mut i: usize = 0;
    while i < records.len()
        invariant
            i <= records.len(),
            out.deep_view() == collected_devices(platform, records.deep_view().subrange(0, i as int)),
        decreases records.len() - i,
    {
        let ghost pre = records.deep_view().subrange(0, i as int);
        let ghost next = records.deep_view().subrange(0, i + 1);
        assert(next.drop_last() =~= pre);
        let r = &records[i];
        if offered(platform, r) {
            let id = pick_id(platform, r);
            match id {
                Some(id) => {
                    if id.unicode_len() > 0 && !listed(&out, &id) {
                        let is_default = match r.is_default {
                            Some(b) => b,
                            None => false,
                        };
                        let d = MicDevice { id, name: r.display_name.clone(), is_default };
                        out.push(d);
                        assert(out.deep_view() =~= collected_devices(platform, next));
                    }
                },
                None => {},
            }
        }
        i = i + 1;
    }
    assert(records.deep_view().subrange(0, records.len() as int) =~= records.deep_view());
    let ghost collected = out.deep_view();
    if out.len() > 0 {
        let mut any_default = false;
        let mut k: usize = 0;
        while k < out.len()
            invariant
                k <= out.len(),
                out.deep_view() == collected,
                any_default == (exists|j: int| 0 <= j < k && #[trigger] collected[j].is_default),
            decreases out.len() - k,
        {
            assert(collected[k as int].is_default == out@[k as int].is_default);
            if out[k].is_default {
                any_default = true;
            }
            k = k + 1;
            assert(any_default == (exists|j: int| 0 <= j < k && #[trigger] collected[j].is_default)) by {
                if any_default {
                    if out@[k - 1].is_default {
                        assert(collected[k - 1].is_default);
                    }
                }
            }
        }
        if !any_default {
            let first = MicDevice { id: out[0].id.clone(), name: out[0].name.clone(), is_default: true };
            out.set(0, first);
            assert(out.deep_view() =~= with_forced_default(collected));
        }
    }
    out
}

/// Whether record `r` is from an offered API and listed under `id`.
pub open spec fn record_listed_as(platform: Platform, r: AudioDeviceRecordView, id: Seq<char>) -> bool {
    offered_api(platform, r) && record_id(platform, r) == Some(id)
}

/// The position of the record that a microphone listed under `id` comes from:
/// the first record from an offered API whose id is `id`.
pub fn device_record_position(platform: Platform, records: &Vec<AudioDeviceRecord>, id: &str) -> (r: Option<usize>)
    ensures
        match r {
            Some(k) => k < records.len() && record_listed_as(platform, records.deep_view()[k as int], id@)
                && forall|j: int| 0 <= j < k ==> !#[trigger] record_listed_as(platform, records.deep_view()[j], id@),
            None => forall|j: int| 0 <= j < records.len() ==> !#[trigger] record_listed_as(platform, records.deep_view()[j], id@),
        },
{
    let mut i: usize = 0;
    while i < records.len()
        invariant
            i <= records.len(),
            forall|j: int| 0 <= j < i ==> !#[trigger] record_listed_as(platform, records.deep_view()[j], id@),
        decreases records.len() - i,
    {
        let r = &records[i];
        assert(records.deep_view()[i as int] == r.deep_view());
        if offered(platform, r) {
            match pick_id(platform, r) {
                Some(rid) => {
                    if str_equals(rid.as_str(), id) {
                        return Some(i);
                    }
                },
                None => {},
            }
        }
        i = i + 1;
    }
    None
}

/// Lists the microphones once GStreamer initialisation has had its outcome:
/// its error is passed on; otherwise the devices the monitor reported are
/// listed as [`enumerate_audio_input_devices`] selects them.
pub fn list_audio_input_devices(
    init_outcome: Result<(), String>,
    platform: Platform,
    records: &Vec<AudioDeviceRecord>,
) -> (r: Result<Vec<MicDevice>, String>)
    ensures
        match init_outcome {
            Err(e) => r matches Err(m) && m@ == e@,
            Ok(()) => r matches Ok(out) && out.deep_view() == mic_devices_of(platform, records.deep_view()),
        },
{
    match init_outcome {
        Err(e) => Err(e),
        Ok(()) => Ok(enumerate_audio_input_devices(platform, records)),
    }
}

} // verus!

verus! {

proof fn collected_facts(platform: Platform, rs: Seq<AudioDeviceRecordView>)
    ensures
        ({
            let out = collected_devices(platform, rs);
            &&& out.len() <= rs.len()
            &&& forall|i: int| 0 <= i < out.len() ==> #[trigger] out[i].id.len() > 0
            &&& forall|i: int, j: int| 0 <= i < j < out.len() ==> out[i].id != out[j].id
            &&& forall|k: int| 0 <= k < rs.len() && offered_api(platform, #[trigger] rs[k])
                && record_id(platform, rs[k]) is Some && record_id(platform, rs[k]).unwrap().len() > 0
                ==> ids_of(out).contains(record_id(platform, rs[k]).unwrap())
            &&& forall|i: int| #![trigger out[i]] 0 <= i < out.len() ==> exists|k: int| 0 <= k < rs.len()
                && offered_api(platform, #[trigger] rs[k])
                && record_id(platform, rs[k]) == Some(out[i].id)
                && rs[k].display_name == out[i].name
        }),
    decreases rs.len(),
{
    if rs.len() > 0 {
        let prev_rs = rs.drop_last();
        collected_facts(platform, prev_rs);
        let prev = collected_devices(platform, prev_rs);
        let out = collected_devices(platform, rs);
        let last = rs.last();
        assert forall|k: int| 0 <= k < rs.len() && offered_api(platform, #[trigger] rs[k])
            && record_id(platform, rs[k]) is Some && record_id(platform, rs[k]).unwrap().len() > 0
            implies ids_of(out).contains(record_id(platform, rs[k]).unwrap()) by {
            let id = record_id(platform, rs[k]).unwrap();
            if k < rs.len() - 1 {
                assert(prev_rs[k] == rs[k]);
                let w = choose|w: int| 0 <= w < ids_of(prev).len() && ids_of(prev)[w] == id;
                assert(ids_of(out)[w] == id);
            } else if !ids_of(prev).contains(id) {
                assert(ids_of(out)[out.len() - 1] == id);
            } else {
                let w = choose|w: int| 0 <= w < ids_of(prev).len() && ids_of(prev)[w] == id;
                assert(ids_of(out)[w] == id);
            }
        }
        assert forall|i: int| #![trigger out[i]] 0 <= i < out.len() implies exists|k: int| 0 <= k < rs.len()
            && offered_api(platform, #[trigger] rs[k])
            && record_id(platform, rs[k]) == Some(out[i].id)
            && rs[k].display_name == out[i].name by {
            if i < prev.len() {
                let k = choose|k: int| 0 <= k < prev_rs.len()
                    && offered_api(platform, #[trigger] prev_rs[k])
                    && record_id(platform, prev_rs[k]) == Some(prev[i].id)
                    && prev_rs[k].display_name == prev[i].name;
                assert(rs[k] == prev_rs[k]);
            } else {
                assert(rs[rs.len() - 1] == last);
            }
        }
        assert forall|i: int, j: int| 0 <= i < j < out.len() implies out[i].id != out[j].id by {
            if j == prev.len() {
                assert(ids_of(prev)[i] == prev[i].id);
            }
        }
    }
}

/// Every listed microphone has a non-empty id, no id is listed twice, and the
/// list is no longer than the device report.
pub proof fn mic_ids_are_unique_and_non_empty(platform: Platform, rs: Seq<AudioDeviceRecordView>)
    ensures
        ({
            let out = mic_devices_of(platform, rs);
            &&& out.len() <= rs.len()
            &&& forall|i: int| 0 <= i < out.len() ==> #[trigger] out[i].id.len() > 0
            &&& forall|i: int, j: int| 0 <= i < j < out.len() ==> out[i].id != out[j].id
        }),
{
    collected_facts(platform, rs);
}

/// Whenever at least one microphone is listed, at least one is marked default;
/// a report that marks no device default gets its first listed device marked.
pub proof fn mic_list_has_default(platform: Platform, rs: Seq<AudioDeviceRecordView>)
    ensures
        mic_devices_of(platform, rs).len() > 0 ==> has_default(mic_devices_of(platform, rs)),
        !has_default(collected_devices(platform, rs)) && mic_devices_of(platform, rs).len() > 0
            ==> mic_devices_of(platform, rs)[0].is_default,
{
    let c = collected_devices(platform, rs);
    let out = mic_devices_of(platform, rs);
    if out.len() > 0 && !has_default(c) {
        assert(out[0].is_default);
    }
}

/// Every device that comes from an offered API and carries a non-empty id is
/// listed under that id, and every listed device comes from such a record,
/// under that record's id and display name.
pub proof fn mic_list_matches_report(platform: Platform, rs: Seq<AudioDeviceRecordView>)
    ensures
        ({
            let out = mic_devices_of(platform, rs);
            &&& forall|k: int| 0 <= k < rs.len() && offered_api(platform, #[trigger] rs[k])
                && record_id(platform, rs[k]) is Some && record_id(platform, rs[k]).unwrap().len() > 0
                ==> ids_of(out).contains(record_id(platform, rs[k]).unwrap())
            &&& forall|i: int| #![trigger out[i]] 0 <= i < out.len() ==> exists|k: int| 0 <= k < rs.len()
                && offered_api(platform, #[trigger] rs[k])
                && record_id(platform, rs[k]) == Some(out[i].id)
                && rs[k].display_name == out[i].name
        }),
{
    collected_facts(platform, rs);
    let c = collected_devices(platform, rs);
    let out = mic_devices_of(platform, rs);
    assert(ids_of(out) =~= ids_of(c));
}

} // verus!
