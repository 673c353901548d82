use thound::version::{
    parse_w10_name, parse_w10_version as parse_w10_at, parse_w8_name,
    parse_w8_version as parse_w8_at, version_less, Version,
};
use thound::HostPath;

fn parse_w10_version(path: &str) -> Option<Version> {
    parse_w10_at(&HostPath::from_text(path))
}

fn parse_w8_version(path: &str) -> Option<Version> {
    parse_w8_at(&HostPath::from_text(path))
}

#[test]
fn w10_reads_four_numbers() {
    assert_eq!(parse_w10_version("10.0.22000.0"), Some((10, 0, 22000, 0)));
    assert_eq!(parse_w10_version("10.0.17763.0"), Some((10, 0, 17763, 0)));
    assert_eq!(parse_w10_version("0.0.0.0"), Some((0, 0, 0, 0)));
}

#[test]
fn w10_rejects_a_fifth_component() {
    assert_eq!(parse_w10_version("10.0.22000.0.1"), None);
}

#[test]
fn w10_rejects_a_missing_component() {
    assert_eq!(parse_w10_version("10.0.22000"), None);
    assert_eq!(parse_w10_version("10"), None);
    assert_eq!(parse_w10_version(""), None);
}

#[test]
fn w10_rejects_what_is_no_number() {
    assert_eq!(parse_w10_version("notaversion"), None);
    assert_eq!(parse_w10_version("10.0.x.0"), None);
    assert_eq!(parse_w10_version("10.0..0"), None);
    assert_eq!(parse_w10_version("10.0.22000.0."), None);
    assert_eq!(parse_w10_version(".10.0.22000.0"), None);
    assert_eq!(parse_w10_version("10.0.-1.0"), None);
    assert_eq!(parse_w10_version("10.0.22000.0 "), None);
    assert_eq!(parse_w10_version("winv6.3"), None);
}

#[test]
fn w10_takes_a_plus_sign_and_leading_zeros() {
    assert_eq!(parse_w10_version("+10.0.022000.0"), Some((10, 0, 22000, 0)));
    assert_eq!(parse_w10_version("10.0.+.0"), None);
    assert_eq!(parse_w10_version("10.0.++1.0"), None);
}

#[test]
fn w10_components_fit_in_32_bits() {
    assert_eq!(
        parse_w10_version("4294967295.0.0.4294967295"),
        Some((4294967295, 0, 0, 4294967295))
    );
    assert_eq!(parse_w10_version("4294967296.0.0.0"), None);
    assert_eq!(parse_w10_version("10.0.99999999999999999999.0"), None);
    assert_eq!(parse_w10_version("10.0.00000000000000000001.0"), Some((10, 0, 1, 0)));
}

#[test]
fn w8_reads_two_numbers_and_fills_with_zero() {
    assert_eq!(parse_w8_version("winv6.3"), Some((6, 3, 0, 0)));
    assert_eq!(parse_w8_version("winv10.25"), Some((10, 25, 0, 0)));
}

#[test]
fn w8_rejects_other_shapes() {
    assert_eq!(parse_w8_version("winv6"), None);
    assert_eq!(parse_w8_version("winv6.3.1"), None);
    assert_eq!(parse_w8_version("notaversion"), None);
    assert_eq!(parse_w8_version("6.3"), None);
    assert_eq!(parse_w8_version("win6.3"), None);
    assert_eq!(parse_w8_version("WINV6.3"), None);
    assert_eq!(parse_w8_version("winv"), None);
    assert_eq!(parse_w8_version("winv."), None);
    assert_eq!(parse_w8_version(""), None);
    assert_eq!(parse_w8_version("10.0.22000.0"), None);
}

#[test]
fn parsers_agree_with_the_standard_library_on_samples() {
    let samples = [
        "10.0.22000.0", "10.0.22000.0.1", "10.0.22000", "winv6.3", "winv6", "notaversion", "",
        ".", "...", "....", "1.2.3.4", "+1.+2.+3.+4", "1.2.3.4 ", " 1.2.3.4", "1.2.3.٤",
        "winv1.2", "winv+1.2", "winv1.2.", "winv.1", "winvwinv1.2", "é.1.2.3", "1.2.3.4294967296",
    ];
    for name in samples {
        let mut parts = name.split('.');
        let expected = (|| {
            let v0: u32 = parts.next()?.parse().ok()?;
            let v1: u32 = parts.next()?.parse().ok()?;
            let v2: u32 = parts.next()?.parse().ok()?;
            let v3: u32 = parts.next()?.parse().ok()?;
            if parts.next().is_some() {
                return None;
            }
            Some((v0, v1, v2, v3))
        })();
        assert_eq!(parse_w10_name(name), expected, "{name:?}");
        assert_eq!(parse_w10_version(name), expected, "{name:?}");
        let expected = (|| {
            let mut parts = name.strip_prefix("winv")?.split('.');
            let v0: u32 = parts.next()?.parse().ok()?;
            let v1: u32 = parts.next()?.parse().ok()?;
            if parts.next().is_some() {
                return None;
            }
            Some((v0, v1, 0, 0))
        })();
        assert_eq!(parse_w8_name(name), expected, "{name:?}");
        assert_eq!(parse_w8_version(name), expected, "{name:?}");
    }
}

#[test]
fn versions_are_ordered_component_by_component() {
    assert!(version_less((10, 0, 17763, 0), (10, 0, 22000, 0)));
    assert!(!version_less((10, 0, 22000, 0), (10, 0, 17763, 0)));
    assert!(!version_less((10, 0, 22000, 0), (10, 0, 22000, 0)));
    assert!(version_less((9, 9, 9, 9), (10, 0, 0, 0)));
    assert!(version_less((10, 0, 0, 0), (10, 0, 0, 1)));
    assert!(version_less((10, 0, 9, 0), (10, 1, 0, 0)));
    assert!(!version_less((10, 1, 0, 0), (10, 0, 9, 9)));
}

#[test]
fn version_is_read_off_the_final_component() {
    assert_eq!(parse_w10_version("kits/Lib/10.0.19041.0"), Some((10, 0, 19041, 0)));
    assert_eq!(
        parse_w10_version("C:\\Program Files (x86)\\Windows Kits\\10\\Lib\\10.0.22000.0"),
        Some((10, 0, 22000, 0))
    );
    assert_eq!(parse_w10_version("1.2.3.4\\10.0.19041.0"), Some((10, 0, 19041, 0)));
    assert_eq!(parse_w10_version("10.0.19041.0\\foo"), None);
    assert_eq!(parse_w8_version("C:\\Kits\\8.1\\Lib\\winv6.3"), Some((6, 3, 0, 0)));
    assert_eq!(parse_w8_version("winv6.3/6.3"), None);
    assert_eq!(parse_w8_version("winv1.0/winv6.3"), Some((6, 3, 0, 0)));
}

#[test]
fn version_of_a_path_with_something_passed_over_at_its_end() {
    assert_eq!(parse_w10_version("10.0.22000.0/"), Some((10, 0, 22000, 0)));
    assert_eq!(parse_w10_version("Lib\\10.0.22000.0\\"), Some((10, 0, 22000, 0)));
    assert_eq!(parse_w10_version("Lib\\10.0.22000.0\\\\/"), Some((10, 0, 22000, 0)));
    assert_eq!(parse_w10_version("Lib/10.0.22000.0/."), Some((10, 0, 22000, 0)));
    assert_eq!(parse_w10_version("Lib/10.0.22000.0/.//"), Some((10, 0, 22000, 0)));
    assert_eq!(parse_w10_version("Lib/10.0.22000.0/.."), None);
    assert_eq!(parse_w10_version("Lib/10.0.22000.0/../"), None);
    assert_eq!(parse_w8_version("Lib\\winv6.3\\.\\"), Some((6, 3, 0, 0)));
    assert_eq!(parse_w10_version("/"), None);
    assert_eq!(parse_w10_version("."), None);
    assert_eq!(parse_w10_version(".."), None);
}

#[test]
fn version_of_a_path_that_is_no_unicode_text() {
    let mut units = vec![0x43, 0x3A, 0x5C, 0xD800, 0x5C];
    units.extend("10.0.22000.0".encode_utf16());
    assert_eq!(parse_w10_at(&HostPath { units: units.clone() }), Some((10, 0, 22000, 0)));
    units.push(0xDC00);
    assert_eq!(parse_w10_at(&HostPath { units }), None);
    let mut units: Vec<u16> = "Lib\\winv6.3".encode_utf16().collect();
    units.insert(0, 0xDFFF);
    assert_eq!(parse_w8_at(&HostPath { units }), Some((6, 3, 0, 0)));
    assert_eq!(parse_w8_at(&HostPath { units: vec![0x77, 0xD800] }), None);
}
