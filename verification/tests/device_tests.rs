use scapp::devices::{enumerate_audio_input_devices, is_probe_candidate, list_audio_input_devices, AudioDeviceRecord, MicDevice};
use scapp::platform::Platform;
use scapp::sources::{create_mic_source, find_default_monitor_source, MicSourceChoice};

fn record(display_name: &str) -> AudioDeviceRecord {
    AudioDeviceRecord {
        display_name: display_name.to_string(),
        api: None,
        class: None,
        node_name: None,
        device_name: None,
        object_id: None,
        device_strid: None,
        device_id: None,
        wasapi2_device_id: None,
        is_default: None,
        element_loopback: false,
        element_device: None,
    }
}

fn s(x: &str) -> Option<String> {
    Some(x.to_string())
}

fn summary(v: &[MicDevice]) -> Vec<(String, String, bool)> {
    v.iter().map(|d| (d.id.clone(), d.name.clone(), d.is_default)).collect()
}

#[test]
fn linux_lists_pulse_and_pipewire_inputs_once_and_forces_a_default() {
    let mut a = record("Built-in Mic");
    a.api = s("pulseaudio");
    a.node_name = s("alsa_input.pci");
    let mut monitor = record("Monitor of Speakers");
    monitor.api = s("pulseaudio");
    monitor.class = s("monitor");
    monitor.node_name = s("alsa_output.monitor");
    let mut alsa = record("Raw ALSA");
    alsa.api = s("alsa");
    alsa.node_name = s("hw:0");
    let mut dup = record("Same Mic Again");
    dup.api = s("pipewire");
    dup.node_name = s("alsa_input.pci");
    let mut usb = record("USB Mic");
    usb.api = s("pipewire");
    usb.device_name = s("usb_dev");
    usb.object_id = s("77");
    let mut nameless = record("Nameless");
    nameless.api = s("pipewire");
    let records = vec![a, monitor, alsa, dup, usb, nameless];
    let out = enumerate_audio_input_devices(Platform::Linux, &records);
    assert_eq!(
        summary(&out),
        vec![
            ("alsa_input.pci".to_string(), "Built-in Mic".to_string(), true),
            ("usb_dev".to_string(), "USB Mic".to_string(), false),
            ("Nameless".to_string(), "Nameless".to_string(), false),
        ]
    );
}

#[test]
fn reported_default_is_kept() {
    let mut a = record("A");
    a.api = s("pulseaudio");
    a.object_id = s("1");
    a.is_default = Some(false);
    let mut b = record("B");
    b.api = s("pulseaudio");
    b.object_id = s("2");
    b.is_default = Some(true);
    let out = enumerate_audio_input_devices(Platform::Linux, &vec![a, b]);
    assert_eq!(summary(&out), vec![("1".to_string(), "A".to_string(), false), ("2".to_string(), "B".to_string(), true)]);
}

#[test]
fn linux_empty_node_name_drops_the_device() {
    let mut a = record("A");
    a.api = s("pipewire");
    a.node_name = s("");
    a.device_name = s("fallback");
    let out = enumerate_audio_input_devices(Platform::Linux, &vec![a]);
    assert!(out.is_empty());
}

#[test]
fn windows_lists_wasapi2_inputs_by_string_id() {
    let mut a = record("Headset");
    a.api = s("wasapi2");
    a.device_id = s("{id-a}");
    a.wasapi2_device_id = s("{w-a}");
    let mut loopback = record("Speakers");
    loopback.api = s("wasapi2");
    loopback.device_strid = s("{loop}");
    loopback.element_loopback = true;
    let mut elem = record("Webcam Mic");
    elem.api = s("wasapi2");
    elem.element_device = s("{elem}");
    let mut none = record("No Id");
    none.api = s("wasapi2");
    let mut pulse = record("Pulse");
    pulse.api = s("pulseaudio");
    pulse.device_strid = s("{p}");
    let records = vec![a, loopback, elem, none, pulse];
    let out = enumerate_audio_input_devices(Platform::Windows, &records);
    assert_eq!(
        summary(&out),
        vec![("{id-a}".to_string(), "Headset".to_string(), true), ("{elem}".to_string(), "Webcam Mic".to_string(), false)]
    );
}

#[test]
fn only_wasapi2_devices_are_probed_on_windows() {
    let mut a = record("A");
    a.api = s("wasapi2");
    let b = record("B");
    assert!(is_probe_candidate(Platform::Windows, &a));
    assert!(!is_probe_candidate(Platform::Windows, &b));
    assert!(is_probe_candidate(Platform::Linux, &b));
}

#[test]
fn no_devices_no_default() {
    let out = enumerate_audio_input_devices(Platform::Linux, &Vec::new());
    assert!(out.is_empty());
}

#[test]
fn listing_passes_on_the_init_error() {
    let mut a = record("A");
    a.api = s("pulseaudio");
    let r = list_audio_input_devices(Err("Failed to initialize GStreamer: boom".to_string()), Platform::Linux, &vec![a]);
    assert_eq!(r.unwrap_err(), "Failed to initialize GStreamer: boom");
    let mut b = record("B");
    b.api = s("pulseaudio");
    let r = list_audio_input_devices(Ok(()), Platform::Linux, &vec![b]);
    assert_eq!(summary(&r.unwrap()), vec![("B".to_string(), "B".to_string(), true)]);
}

#[test]
fn default_monitor_source_is_the_first_named_monitor() {
    let mut mic = record("Mic");
    mic.node_name = s("input");
    let mut unnamed = record("Unnamed monitor");
    unnamed.class = s("monitor");
    let mut m1 = record("Monitor 1");
    m1.class = s("monitor");
    m1.device_name = s("out1.monitor");
    let mut m2 = record("Monitor 2");
    m2.class = s("monitor");
    m2.node_name = s("out2.monitor");
    assert_eq!(find_default_monitor_source(&vec![mic, unnamed, m1, m2]), Some("out1.monitor".to_string()));
    assert_eq!(find_default_monitor_source(&vec![record("x")]), None);
}

#[test]
fn mic_source_prefers_the_listed_device() {
    let devices = vec![
        MicDevice { id: "a".to_string(), name: "A".to_string(), is_default: true },
        MicDevice { id: "b".to_string(), name: "B".to_string(), is_default: false },
    ];
    match create_mic_source(Platform::Linux, &devices, "b") {
        MicSourceChoice::FromDevice(i) => assert_eq!(i, 1),
        MicSourceChoice::Fallback { .. } => panic!("expected the listed device"),
    }
    match create_mic_source(Platform::Linux, &devices, "zzz") {
        MicSourceChoice::Fallback { factory, device, error } => {
            assert_eq!(factory, "pulsesrc");
            assert_eq!(device, "zzz");
            assert_eq!(error, "Failed to create pulsesrc for mic input");
        }
        MicSourceChoice::FromDevice(_) => panic!("expected the fallback"),
    }
    match create_mic_source(Platform::Windows, &Vec::new(), "{x}") {
        MicSourceChoice::Fallback { factory, error, .. } => {
            assert_eq!(factory, "wasapi2src");
            assert_eq!(error, "Failed to create wasapi2src for mic input");
        }
        MicSourceChoice::FromDevice(_) => panic!("expected the fallback"),
    }
}
