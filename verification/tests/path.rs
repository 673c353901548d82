use thound::path::encode_wide;
use thound::HostPath;

fn path(text: &str) -> HostPath {
    HostPath::from_text(text)
}

#[test]
fn join_puts_a_backslash_between() {
    assert_eq!(path("C:\\VS").join("VC\\bin"), path("C:\\VS\\VC\\bin"));
    assert_eq!(path("C:\\VS").join("vcruntime.lib"), path("C:\\VS\\vcruntime.lib"));
    assert_eq!(path("C:\\VS").join("bin").units, vec![0x43, 0x3A, 0x5C, 0x56, 0x53, 0x5C, 0x62, 0x69, 0x6E]);
}

#[test]
fn join_adds_no_separator_after_one() {
    assert_eq!(path("C:\\Kits\\10\\").join("Lib"), path("C:\\Kits\\10\\Lib"));
    assert_eq!(path("C:/Kits/10/").join("Lib"), path("C:/Kits/10/Lib"));
}

#[test]
fn join_of_empty_parts() {
    assert_eq!(path("").join("Lib"), path("Lib"));
    assert_eq!(path("C:\\Kits").join(""), path("C:\\Kits\\"));
    assert_eq!(path("").join(""), path(""));
}

#[test]
fn join_appends_every_part_alike() {
    assert_eq!(path("C:").join("Lib"), path("C:\\Lib"));
    assert_eq!(path("C:\\VS").join("\\other"), path("C:\\VS\\\\other"));
    assert_eq!(path("C:\\VS").join("D:\\other"), path("C:\\VS\\D:\\other"));
}

#[test]
fn join_keeps_units_that_are_not_well_formed() {
    let base = HostPath { units: vec![0x43, 0xD800, 0x44] };
    assert_eq!(base.join("é").units, vec![0x43, 0xD800, 0x44, 0x5C, 0xE9]);
    assert_eq!(base.duplicate(), base);
    let base = HostPath { units: vec![0xDFFF, 0x2F] };
    assert_eq!(base.join("\u{1F600}").units, vec![0xDFFF, 0x2F, 0xD83D, 0xDE00]);
}

#[test]
fn text_is_written_in_utf16() {
    assert_eq!(encode_wide("14.0"), vec![0x31, 0x34, 0x2E, 0x30]);
    assert_eq!(encode_wide(""), Vec::<u16>::new());
    assert_eq!(encode_wide("\u{1F600}"), vec![0xD83D, 0xDE00]);
    for text in ["KitsRoot10", "é\u{ffff}\u{10000}\u{10ffff}x", "日本語", "\u{d7ff}\u{e000}"] {
        let expected: Vec<u16> = text.encode_utf16().collect();
        assert_eq!(encode_wide(text), expected, "{text:?}");
        assert_eq!(HostPath::from_text(text).units, expected, "{text:?}");
    }
}

#[test]
fn text_of_a_path() {
    assert_eq!(path("C:\\Program Files (x86)").to_text(), Some(String::from("C:\\Program Files (x86)")));
    assert_eq!(HostPath { units: vec![0xD83D, 0xDE00] }.to_text(), Some(String::from("\u{1F600}")));
    assert_eq!(HostPath { units: vec![] }.to_text(), Some(String::new()));
    assert_eq!(HostPath { units: vec![0xD83D] }.to_text(), None);
    assert_eq!(HostPath { units: vec![0xDE00, 0xD83D] }.to_text(), None);
    for text in ["", "14.0", "é\u{ffff}\u{10000}\u{10ffff}x", "日本語"] {
        assert_eq!(path(text).to_text(), Some(String::from(text)));
    }
}

fn final_component(text: &str) -> Option<HostPath> {
    path(text).final_component()
}

#[test]
fn final_component_follows_the_last_separator() {
    assert_eq!(final_component("kits/Lib/10.0.19041.0"), Some(path("10.0.19041.0")));
    assert_eq!(final_component("C:\\Kits\\10\\Lib\\foo"), Some(path("foo")));
    assert_eq!(final_component("C:\\Kits/10\\Lib/foo"), Some(path("foo")));
    assert_eq!(final_component("foo"), Some(path("foo")));
    assert_eq!(final_component("a/.b"), Some(path(".b")));
    assert_eq!(final_component("a/b."), Some(path("b.")));
    assert_eq!(final_component("a/..."), Some(path("...")));
    assert_eq!(path("kits/Lib/10.0.19041.0").file_name(), Some(String::from("10.0.19041.0")));
}

#[test]
fn final_component_passes_over_separators_and_dots_at_the_end() {
    assert_eq!(final_component("/usr/bin/"), Some(path("bin")));
    assert_eq!(final_component("foo.txt/."), Some(path("foo.txt")));
    assert_eq!(final_component("foo.txt/.//"), Some(path("foo.txt")));
    assert_eq!(final_component("foo.txt\\.\\.\\"), Some(path("foo.txt")));
    assert_eq!(final_component("a\\b\\\\"), Some(path("b")));
}

#[test]
fn final_component_of_a_path_without_one() {
    assert_eq!(final_component(""), None);
    assert_eq!(final_component("/"), None);
    assert_eq!(final_component("\\\\"), None);
    assert_eq!(final_component("."), None);
    assert_eq!(final_component("./"), None);
    assert_eq!(final_component("./."), None);
    assert_eq!(final_component("/."), None);
    assert_eq!(final_component(".."), None);
    assert_eq!(final_component("foo.txt/.."), None);
    assert_eq!(final_component("foo.txt/../"), None);
    assert_eq!(path("foo.txt/..").file_name(), None);
}

#[test]
fn final_component_agrees_with_the_standard_library_on_slashes() {
    let samples = [
        "", "/", "//", ".", "./", "./.", "/.", "..", "../", "a", "a/", "a//", "a/.", "a/./",
        "a/.//", "a/..", "a/../", "a/b", "a//b", "a/./b", "a/../b", "/a", "/a/b/", "..a", "a..",
        "a/...", ".a/.b", "tmp/foo.txt", "foo.txt/.", "foo.txt/.//", "foo.txt/..", "/usr/bin/",
        "kits/Lib/10.0.19041.0", "10.0.22000.0/", "é/ü/",
    ];
    for sample in samples {
        let expected = std::path::Path::new(sample)
            .file_name()
            .map(|name| String::from(name.to_str().unwrap()));
        assert_eq!(path(sample).file_name(), expected, "{sample:?}");
    }
}

#[test]
fn final_component_keeps_its_units() {
    let units = vec![0xD800, 0x5C, 0x61, 0xDC00, 0x2F, 0x2E, 0x2F];
    let name = HostPath { units }.final_component();
    assert_eq!(name, Some(HostPath { units: vec![0x61, 0xDC00] }));
    assert_eq!(HostPath { units: vec![0xD800, 0x5C, 0x61, 0xDC00] }.file_name(), None);
    assert_eq!(HostPath { units: vec![0xD800, 0x5C, 0x61] }.file_name(), Some(String::from("a")));
    assert_eq!(path("C:\\VS").join("Lib").final_component(), Some(path("Lib")));
}
