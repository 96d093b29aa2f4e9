use mousekeys::codes::{KEY_ENTER, KEY_SPACE, REL_WHEEL, REL_X, REL_Y};
use mousekeys::input::{is_keyboard, is_own_name, select_keyboards, DeviceCaps, DeviceInfo, DiscoverError};

fn caps(keys: Option<Vec<u16>>, rel: Option<Vec<u16>>) -> DeviceCaps {
    DeviceCaps { supports_key_events: true, keys, relative_axes: rel }
}

#[test]
fn keyboard_heuristic() {
    assert!(is_keyboard(&caps(Some(vec![1, KEY_ENTER, 30]), None)));
    assert!(is_keyboard(&caps(Some(vec![KEY_SPACE]), Some(vec![REL_WHEEL]))));
    assert!(!is_keyboard(&caps(Some(vec![KEY_ENTER]), Some(vec![REL_X]))));
    assert!(!is_keyboard(&caps(Some(vec![KEY_ENTER]), Some(vec![REL_Y]))));
    assert!(!is_keyboard(&caps(Some(vec![0x110, 0x111]), None)));
    assert!(!is_keyboard(&caps(None, None)));
    let no_key_events = DeviceCaps { supports_key_events: false, keys: Some(vec![KEY_ENTER]), relative_axes: None };
    assert!(!is_keyboard(&no_key_events));
}

#[test]
fn own_device_names() {
    assert!(is_own_name("mousekeys virtual keyboard"));
    assert!(is_own_name("mousekeys virtual mouse"));
    assert!(is_own_name("mousekeys virtual"));
    assert!(!is_own_name("mousekeys virtua"));
    assert!(!is_own_name("AT Translated Set 2 keyboard"));
    assert!(!is_own_name(""));
}

fn dev(name: &str, c: DeviceCaps) -> DeviceInfo {
    DeviceInfo { name: name.to_string(), caps: c }
}

#[test]
fn selection_filters_and_merges() {
    let devices = vec![
        dev("Lid Switch", DeviceCaps { supports_key_events: false, keys: None, relative_axes: None }),
        dev("kbd A", caps(Some(vec![KEY_ENTER, 30, 31]), None)),
        dev("Mouse", caps(Some(vec![0x110, KEY_ENTER]), Some(vec![REL_X, REL_Y]))),
        dev("mousekeys virtual keyboard", caps(Some(vec![KEY_ENTER, 99]), None)),
        dev("kbd B", caps(Some(vec![31, KEY_SPACE, 30, 32]), None)),
    ];
    let sel = select_keyboards(&devices).unwrap();
    assert_eq!(sel.indices, vec![1, 4]);
    let keys: Vec<u16> = sel.keys.codes.iter().map(|k| k.code()).collect();
    assert_eq!(keys, vec![KEY_ENTER, 30, 31, 32, KEY_SPACE]);
}

#[test]
fn no_keyboard_is_an_error() {
    let devices = vec![dev("Mouse", caps(Some(vec![0x110]), Some(vec![REL_X])))];
    assert_eq!(select_keyboards(&devices).unwrap_err(), DiscoverError::NoKeyboards);
    let empty: Vec<DeviceInfo> = Vec::new();
    assert_eq!(select_keyboards(&empty).unwrap_err(), DiscoverError::NoKeyboards);
}
