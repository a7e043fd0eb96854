use phantom::clipboard::DummyClipboard;
use phantom::colors::{parse_color, ColorConfig, ColorValue};
use phantom::fileselect::{FileEntry, FileSelector, SelectorOutcome};
use phantom::text::{chars_of, chars_eq, chars_to_string, find_sub, starts_with};

fn chars(s: &str) -> Vec<char> {
    s.chars().collect()
}

#[test]
fn dummy_clipboard_reads_empty_and_accepts_writes() {
    let mut clip = DummyClipboard::new().expect("the stand-in never fails");
    assert_eq!(clip.get_contents().unwrap(), "");
    clip.set_contents("anything".to_string()).unwrap();
    assert_eq!(clip.get_contents().unwrap(), "");
}

#[test]
fn parse_color_reads_hex_channels() {
    assert_eq!(parse_color("#1E1E1E"), ColorValue::Rgb(0x1E, 0x1E, 0x1E));
    assert_eq!(parse_color("#61AFEF"), ColorValue::Rgb(0x61, 0xAF, 0xEF));
    assert_eq!(parse_color("#000000"), ColorValue::Rgb(0, 0, 0));
    assert_eq!(parse_color("#ffffff"), ColorValue::Rgb(255, 255, 255));
}

#[test]
fn parse_color_rejects_malformed_text() {
    assert_eq!(parse_color(""), ColorValue::Reset);
    assert_eq!(parse_color("#"), ColorValue::Reset);
    assert_eq!(parse_color("#GGGGGG"), ColorValue::Reset);
    assert_eq!(parse_color("#123456789"), ColorValue::Reset);
    assert_eq!(parse_color("nonsense"), ColorValue::Reset);
}

#[test]
fn default_palette_matches_documented_values() {
    let c = ColorConfig::default();
    assert_eq!(c.background, "#1E1E1E");
    assert_eq!(c.foreground, "#CCCCCC");
    assert_eq!(c.keyword, "#61AFEF");
    assert_eq!(c.file_selector_border, "#4A4A4A");
    assert_eq!(parse_color(&c.cursor), ColorValue::Rgb(255, 255, 255));
}

#[test]
fn text_helpers_behave() {
    assert_eq!(chars_of("abc"), chars("abc"));
    assert!(chars_eq(&chars("abc"), &chars("abc")));
    assert!(!chars_eq(&chars("abc"), &chars("abd")));
    assert!(starts_with(&chars("Ctrl+Shift+Tab"), &chars("Ctrl+")));
    assert!(!starts_with(&chars("ab"), &chars("abc")));
    assert_eq!(chars_to_string(&chars("round trip")), "round trip");
}

#[test]
fn find_sub_reports_first_occurrence() {
    assert_eq!(find_sub(&chars("hello world"), &chars("o")), Some(4));
    assert_eq!(find_sub(&chars("hello world"), &chars("world")), Some(6));
    assert_eq!(find_sub(&chars("hello"), &chars("z")), None);
    assert_eq!(find_sub(&chars("aaa"), &chars("aa")), Some(0));
    assert_eq!(find_sub(&chars("abc"), &chars("")), Some(0));
    assert_eq!(find_sub(&chars(""), &chars("a")), None);
}

#[test]
fn file_selector_moves_and_selects() {
    let listing = vec![
        FileEntry { path: "/home/d/sub".to_string(), is_dir: true },
        FileEntry { path: "/home/d/a.rs".to_string(), is_dir: false },
    ];
    let mut sel = FileSelector::from_entries("/home/d".to_string(), listing);
    assert_eq!(sel.entries.len(), 3);
    assert_eq!(sel.current_dir, "/home/d");
    assert_eq!(sel.entries[0].path, "/home/d/..");
    sel.up();
    assert_eq!(sel.selected_index, 0);
    sel.down();
    sel.down();
    assert_eq!(sel.selected_index, 2);
    sel.down();
    assert_eq!(sel.selected_index, 2);
    match sel.enter() {
        SelectorOutcome::OpenFile(p) => assert_eq!(p, "/home/d/a.rs"),
        _ => panic!("expected a file"),
    }
    sel.up();
    sel.up();
    match sel.enter() {
        SelectorOutcome::OpenDirectory(p) => assert_eq!(p, "/home/d/.."),
        _ => panic!("expected the parent directory"),
    }
}
