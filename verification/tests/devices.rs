use mirage::audio::{choose_capture_device, is_monitor_name, merge_device_lists, DeviceChoice};

fn names(v: &[&str]) -> Vec<String> {
    v.iter().map(|s| s.to_string()).collect()
}

fn opt(v: &[Option<&str>]) -> Vec<Option<String>> {
    v.iter().map(|s| s.map(|x| x.to_string())).collect()
}

#[test]
fn merged_list_puts_outputs_first_and_skips_duplicates() {
    let d = merge_device_lists(names(&["Speakers", "HDMI"]), names(&["Mic", "Speakers", "Mic"]));
    let view: Vec<(String, bool)> = d.iter().map(|x| (x.name.clone(), x.is_output)).collect();
    assert_eq!(
        view,
        vec![
            ("Speakers".to_string(), true),
            ("HDMI".to_string(), true),
            ("Mic".to_string(), false),
            ("Mic".to_string(), false),
        ]
    );
    assert!(merge_device_lists(Vec::new(), Vec::new()).is_empty());
}

#[test]
fn monitor_names() {
    assert!(is_monitor_name("Monitor of Built-in Audio"));
    assert!(is_monitor_name("LOOPBACK device"));
    assert!(!is_monitor_name("USB Microphone"));
}

#[test]
fn default_device_choices() {
    let outs = opt(&[Some("Speakers")]);
    let ins = opt(&[Some("Mic"), None, Some("Monitor of Speakers"), Some("loopback 2")]);
    assert_eq!(choose_capture_device("default", "loopback", true, &outs, &ins), DeviceChoice::DefaultOutput);
    assert_eq!(choose_capture_device("default", "loopback", false, &outs, &ins), DeviceChoice::Input(2));
    assert_eq!(choose_capture_device("default", "mic", false, &outs, &ins), DeviceChoice::DefaultInput);
    let plain = opt(&[Some("Mic")]);
    assert_eq!(choose_capture_device("default", "loopback", false, &outs, &plain), DeviceChoice::DefaultInput);
}

#[test]
fn named_device_choices() {
    let outs = opt(&[Some("Speakers"), Some("HDMI")]);
    let ins = opt(&[None, Some("Mic"), Some("Mic")]);
    assert_eq!(choose_capture_device("HDMI", "loopback", true, &outs, &ins), DeviceChoice::Output(1));
    assert_eq!(choose_capture_device("Mic", "mic", true, &outs, &ins), DeviceChoice::Input(1));
    assert_eq!(choose_capture_device("Mic", "loopback", true, &outs, &ins), DeviceChoice::DefaultOutput);
    assert_eq!(choose_capture_device("Gone", "mic", false, &outs, &ins), DeviceChoice::DefaultInput);
    assert_eq!(choose_capture_device("", "mic", false, &outs, &ins), DeviceChoice::Input(0));
}
