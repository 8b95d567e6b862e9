use recorder::config::StreamSpec;
use recorder::device::{find_device, DeviceSearch, DeviceSpecs};

#[test]
fn specs_keep_what_could_be_read() {
    let cfg = StreamSpec { channels: 1, sample_rate: 16000 };
    let d = DeviceSpecs::from_queries(Some("hw:0".to_string()), Some("Mic".to_string()), Some(cfg));
    assert_eq!(d.id(), "hw:0");
    assert_eq!(d.name(), "Mic");
    assert_eq!(d.config(), Some(&cfg));
}

#[test]
fn specs_fall_back_to_placeholders() {
    let d = DeviceSpecs::from_queries(None, None, None);
    assert_eq!(d.id(), "UNKNOWN");
    assert_eq!(d.name(), "Unknown device");
    assert_eq!(d.config(), None);
}

fn ids(xs: &[Option<&str>]) -> Vec<Option<String>> {
    xs.iter().map(|x| x.map(|s| s.to_string())).collect()
}

#[test]
fn find_device_returns_first_match() {
    let v = ids(&[Some("a"), Some("b"), Some("b")]);
    assert_eq!(find_device(&v, "b"), DeviceSearch::Found(1));
    assert_eq!(find_device(&v, "a"), DeviceSearch::Found(0));
}

#[test]
fn find_device_reports_missing_id() {
    let v = ids(&[Some("a"), Some("b")]);
    assert_eq!(find_device(&v, "c"), DeviceSearch::NotFound);
    assert_eq!(find_device(&[], "c"), DeviceSearch::NotFound);
}

#[test]
fn find_device_stops_at_unreadable_id_before_a_match() {
    let v = ids(&[Some("a"), None, Some("b")]);
    assert_eq!(find_device(&v, "b"), DeviceSearch::Unreadable(1));
    assert_eq!(find_device(&v, "a"), DeviceSearch::Found(0));
}

#[test]
fn default_config_follows_the_direction() {
    let a = StreamSpec { channels: 1, sample_rate: 8000 };
    let b = StreamSpec { channels: 2, sample_rate: 48000 };
    assert_eq!(recorder::device::default_config(true, Some(a), Some(b)), Some(a));
    assert_eq!(recorder::device::default_config(false, Some(a), Some(b)), Some(b));
    assert_eq!(recorder::device::default_config(true, None, Some(b)), None);
    assert_eq!(recorder::device::default_config(false, Some(a), None), None);
}
