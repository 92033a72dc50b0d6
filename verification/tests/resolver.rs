use mic_muter::errors::StartupError;
use mic_muter::resolver::{resolve, DeviceId};

fn actives(names: &[&str]) -> Vec<String> {
    names.iter().map(|n| n.to_string()).collect()
}

#[test]
fn filter_matches_first_named_device() {
    let active = actives(&["Device A", "Device B"]);
    let r = resolve(
        Some("Device A".to_string()),
        "OS Default".to_string(),
        &active,
    );
    let d = r.unwrap();
    assert_eq!(d.id, DeviceId::ActiveIndex(0));
    assert_eq!(d.friendly_name, "Device A");
}

#[test]
fn filter_matches_second_named_device() {
    let active = actives(&["Device A", "Device B"]);
    let r = resolve(
        Some("Device B".to_string()),
        "OS Default".to_string(),
        &active,
    );
    let d = r.unwrap();
    assert_eq!(d.id, DeviceId::ActiveIndex(1));
    assert_eq!(d.friendly_name, "Device B");
}

#[test]
fn filter_without_match_fails_with_not_found() {
    let active = actives(&["Device A", "Device B"]);
    let r = resolve(
        Some("Device C".to_string()),
        "OS Default".to_string(),
        &active,
    );
    assert_eq!(r.unwrap_err(), StartupError::DeviceNotFound);
}

#[test]
fn filter_is_case_sensitive() {
    let active = actives(&["Device A"]);
    let r = resolve(
        Some("device a".to_string()),
        "OS Default".to_string(),
        &active,
    );
    assert_eq!(r.unwrap_err(), StartupError::DeviceNotFound);
}

#[test]
fn no_filter_returns_default_regardless_of_active_set() {
    let sets = [
        actives(&[]),
        actives(&["Device A", "Device B"]),
        actives(&["Other"]),
    ];
    for active in sets.iter() {
        let r = resolve(None, "OS Default".to_string(), active);
        let d = r.unwrap();
        assert_eq!(d.id, DeviceId::SystemDefault);
        assert_eq!(d.friendly_name, "OS Default");
    }
}

#[test]
fn filter_over_empty_active_set_fails() {
    let active = actives(&[]);
    let r = resolve(
        Some("Device A".to_string()),
        "OS Default".to_string(),
        &active,
    );
    assert_eq!(r.unwrap_err(), StartupError::DeviceNotFound);
}

#[test]
fn duplicate_names_resolve_to_first_occurrence() {
    let active = actives(&["Device A", "Device A"]);
    let r = resolve(
        Some("Device A".to_string()),
        "OS Default".to_string(),
        &active,
    );
    let d = r.unwrap();
    assert_eq!(d.id, DeviceId::ActiveIndex(0));
}
