use thound::probe::{Answer, Probe, RegistryKey};
use thound::HostPath;
use thound::winapi::{
    installation_path_answer, interop_succeeded, reg_query_string_value, string_value_buffer,
    wide_name, RegKey, ERROR_SUCCESS, FILETIME, GUID, REG_SZ, S_FALSE, S_OK,
};

fn wide(text: &str) -> Vec<u16> {
    text.encode_utf16().collect()
}

#[test]
fn registry_key_starts_closed() {
    let mut key = RegKey::zeroed();
    assert_eq!(key.handle(), 0);
    key.set_handle(0x1234);
    assert_eq!(key.handle(), 0x1234);
}

#[test]
fn registry_keys_and_rights() {
    assert_eq!(RegistryKey::VisualStudio.path(), "SOFTWARE\\Microsoft\\VisualStudio\\SxS\\VS7");
    assert_eq!(
        RegistryKey::InstalledRoots.path(),
        "SOFTWARE\\Microsoft\\Windows Kits\\Installed Roots"
    );
    assert_eq!(RegistryKey::VisualStudio.access(), 0x0201);
    assert_eq!(RegistryKey::InstalledRoots.access(), 0x0209);
}

#[test]
fn identifiers_of_the_setup_service() {
    let class = GUID::setup_configuration_class();
    assert_eq!(
        class,
        GUID {
            data1: 0x177F0C4A,
            data2: 0x1CD3,
            data3: 0x4DE7,
            data4: [0xA3, 0x2C, 0x71, 0xDB, 0xBB, 0x9F, 0xA3, 0x6D],
        }
    );
    let interface = GUID::setup_configuration_interface();
    assert_eq!(
        interface,
        GUID {
            data1: 0x42843719,
            data2: 0xDB4C,
            data3: 0x46C2,
            data4: [0x8E, 0x7C, 0x64, 0xF1, 0x81, 0x6E, 0xFD, 0x5B],
        }
    );
    let time = FILETIME { dwLowDateTime: 1, dwHighDateTime: 2 };
    assert_eq!(time, FILETIME { dwLowDateTime: 1, dwHighDateTime: 2 });
}

#[test]
fn wide_name_is_utf16_with_a_zero() {
    assert_eq!(wide_name("14.0"), vec![0x31, 0x34, 0x2E, 0x30, 0]);
    assert_eq!(wide_name(""), vec![0]);
    assert_eq!(wide_name("\u{1F600}"), vec![0xD83D, 0xDE00, 0]);
    for name in ["KitsRoot10", "KitsRoot81", "é\u{ffff}\u{10000}\u{10ffff}x", "日本語"] {
        let mut expected = wide(name);
        expected.push(0);
        assert_eq!(wide_name(name), expected, "{name:?}");
    }
}

#[test]
fn buffer_for_a_string_value() {
    assert_eq!(string_value_buffer(ERROR_SUCCESS, REG_SZ, 8), Some(vec![0u16; 4]));
    assert_eq!(string_value_buffer(ERROR_SUCCESS, REG_SZ, 0), Some(vec![]));
    assert_eq!(string_value_buffer(2, REG_SZ, 8), None);
    assert_eq!(string_value_buffer(ERROR_SUCCESS, 4, 8), None);
    assert_eq!(string_value_buffer(2, 4, 7), None);
}

#[test]
fn string_value_without_its_terminator() {
    let mut value = wide("C:\\VS14\\");
    value.push(0);
    let bytes = (value.len() * 2) as u32;
    assert_eq!(
        reg_query_string_value(ERROR_SUCCESS, value, bytes),
        Some(HostPath::from_text("C:\\VS14\\"))
    );
}

#[test]
fn string_value_that_has_no_terminator() {
    let value = wide("C:\\VS14\\");
    let bytes = (value.len() * 2) as u32;
    assert_eq!(
        reg_query_string_value(ERROR_SUCCESS, value, bytes),
        Some(HostPath::from_text("C:\\VS14\\"))
    );
}

#[test]
fn string_value_shorter_than_its_buffer() {
    let mut value = wide("C:\\VS");
    value.push(0);
    value.extend([0x58u16, 0x59, 0x5A]);
    assert_eq!(
        reg_query_string_value(ERROR_SUCCESS, value, 12),
        Some(HostPath::from_text("C:\\VS"))
    );
    assert_eq!(
        reg_query_string_value(ERROR_SUCCESS, wide("abc"), 4),
        Some(HostPath::from_text("ab"))
    );
    assert_eq!(
        reg_query_string_value(ERROR_SUCCESS, wide("abc"), 0),
        Some(HostPath { units: vec![] })
    );
}

#[test]
fn string_value_loses_one_zero_at_most() {
    assert_eq!(
        reg_query_string_value(ERROR_SUCCESS, vec![0, 0], 4),
        Some(HostPath { units: vec![0] })
    );
    assert_eq!(
        reg_query_string_value(ERROR_SUCCESS, vec![0x41, 0, 0x42, 0], 8),
        Some(HostPath { units: vec![0x41, 0, 0x42] })
    );
    assert_eq!(reg_query_string_value(ERROR_SUCCESS, vec![0], 2), Some(HostPath { units: vec![] }));
}

#[test]
fn string_value_of_a_failed_call() {
    assert_eq!(reg_query_string_value(2, wide("abc"), 6), None);
    assert_eq!(reg_query_string_value(234, vec![], 7), None);
}

#[test]
fn string_value_that_is_no_unicode_text_is_kept() {
    assert_eq!(
        reg_query_string_value(ERROR_SUCCESS, vec![0x43, 0xD800, 0x44], 6),
        Some(HostPath { units: vec![0x43, 0xD800, 0x44] })
    );
    assert_eq!(
        reg_query_string_value(ERROR_SUCCESS, vec![0xDC00, 0], 4),
        Some(HostPath { units: vec![0xDC00] })
    );
    assert_eq!(
        reg_query_string_value(ERROR_SUCCESS, vec![0xD800], 2),
        Some(HostPath { units: vec![0xD800] })
    );
}

#[test]
fn interop_results() {
    assert!(interop_succeeded(&Probe::EnterInterop, S_OK));
    assert!(interop_succeeded(&Probe::EnterInterop, S_FALSE));
    assert!(!interop_succeeded(&Probe::EnterInterop, -2147417850));
    assert!(interop_succeeded(&Probe::CreateSetup, S_OK));
    assert!(!interop_succeeded(&Probe::CreateSetup, -2147221164));
    assert!(interop_succeeded(&Probe::EnumInstances, S_OK));
    assert!(!interop_succeeded(&Probe::EnumInstances, -1));
    assert!(interop_succeeded(&Probe::NextInstance, S_OK));
    assert!(!interop_succeeded(&Probe::NextInstance, S_FALSE));
    assert!(!interop_succeeded(&Probe::NextInstance, -1));
    assert!(interop_succeeded(&Probe::InstallationPath, S_OK));
    assert!(!interop_succeeded(&Probe::InstallationPath, S_FALSE));
}

#[test]
fn installation_path_from_wide_text() {
    assert_eq!(
        installation_path_answer(S_OK, wide("C:\\VS\\2022")),
        Answer::Path(HostPath::from_text("C:\\VS\\2022"))
    );
    assert_eq!(installation_path_answer(S_FALSE, wide("C:\\VS\\2022")), Answer::Failed);
    assert_eq!(installation_path_answer(-1, wide("C:\\VS\\2022")), Answer::Failed);
}

#[test]
fn installation_path_keeps_every_unit() {
    assert_eq!(
        installation_path_answer(S_OK, vec![0x43, 0xDFFF]),
        Answer::Path(HostPath { units: vec![0x43, 0xDFFF] })
    );
    assert_eq!(
        installation_path_answer(S_OK, vec![0x43, 0, 0x44]),
        Answer::Path(HostPath { units: vec![0x43, 0, 0x44] })
    );
    assert_eq!(installation_path_answer(S_OK, vec![0xD800]), Answer::Path(HostPath { units: vec![0xD800] }));
    assert_eq!(installation_path_answer(S_OK, vec![]), Answer::Path(HostPath { units: vec![] }));
}
