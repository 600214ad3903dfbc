use shortcut::desktop::{desktop_file_name, Desktop};
use shortcut::manage::Manage;
use shortcut::text::trim;
use shortcut::entry_file::{file_entry, has_desktop_extension, DirFile};
use shortcut::quick_mode::{PathProbe, QuickMode};

const FILE: PathProbe = PathProbe { exists: true, is_file: true };

#[test]
fn renaming_removes_the_file_saving_wrote() {
    let mut f = QuickMode::new();
    f.set_name("Old Name");
    let first = f.save_plan("dana");
    f.load_details("Old Name".to_string(), String::new(), String::new());
    f.set_name("New Name");
    let second = f.save_plan("dana");
    assert_eq!(second.remove_old, Some(first.file_path));
}

#[test]
fn saved_file_name_is_an_entry_file_name() {
    for name in ["My App", "a", "Dots.In.Name", "  spaced  "] {
        assert!(has_desktop_extension(&desktop_file_name(name)), "{name:?}");
    }
    assert!(!has_desktop_extension(&desktop_file_name("")));
}

#[test]
fn clearing_twice_is_clearing_once() {
    let mut f = QuickMode::new();
    f.init(true);
    f.load_details("A".to_string(), "/i.png".to_string(), "/bin/a".to_string());
    f.apply_icon(FILE).unwrap();
    f.clear_data();
    let once = (f.data().get_output().unwrap(), f.old_name().to_string(), f.preview_file().map(str::to_owned));
    f.clear_data();
    let twice = (f.data().get_output().unwrap(), f.old_name().to_string(), f.preview_file().map(str::to_owned));
    assert_eq!(once, twice);
}

#[test]
fn listing_all_keeps_own_shortcut_rows() {
    let file = DirFile {
        file_name: "mine.desktop".to_string(),
        path: Some("/p/mine.desktop".to_string()),
        contents: Some(b"[Desktop Entry]\nName=Mine\nExec=/bin/m\nIcon=m\nX-Shortcut-App=true\n".to_vec()),
    };
    let own = file_entry(&file, false).unwrap();
    let all = file_entry(&file, true).unwrap();
    assert_eq!(own.get_name(), all.get_name());
    assert_eq!(own.edit_target(), all.edit_target());
    assert_eq!(own.delete_target(), all.delete_target());
}

fn own(name: &str, file: &str) -> DirFile {
    DirFile {
        file_name: file.to_string(),
        path: Some(format!("/p/{file}")),
        contents: Some(format!("[Desktop Entry]\nName={name}\nExec=/bin/x\nIcon=x\nX-Shortcut-App=true\n").into_bytes()),
    }
}

fn three_shortcuts() -> Vec<DirFile> {
    vec![own("Fire Fox", "a.desktop"), own("Text Editor", "b.desktop"), own("\u{c9}cole", "c.desktop")]
}

#[test]
fn search_ignores_ascii_case() {
    for criteria in ["fire", "edit", "x", "zzz", "", "Ed 1-2"] {
        let mut lower = Manage::new();
        lower.load(Some(three_shortcuts()), false);
        lower.filter(criteria);
        let mut upper = Manage::new();
        upper.load(Some(three_shortcuts()), false);
        upper.filter(&criteria.to_uppercase());
        assert_eq!(lower.visible(), upper.visible(), "{criteria:?}");
        assert_eq!(lower.list_visible(), upper.list_visible());
        assert_eq!(lower.status_visible(), upper.status_visible());
    }
    let mut m = Manage::new();
    m.load(Some(three_shortcuts()), false);
    m.filter("FIRE");
    assert_eq!(m.visible(), &vec![true, false, false]);
}

#[test]
fn output_reads_as_five_key_lines() {
    let mut d = Desktop::new();
    d.set_name("My = App");
    d.set_exec("/usr/bin/app --flag=1");
    d.set_icon("/icons/app.png");
    let text = d.get_output().unwrap();
    let lines: Vec<&str> = text.lines().collect();
    assert_eq!(lines.len(), 5);
    assert_eq!(lines[0], "[Desktop Entry]");
    assert_eq!(lines[1].split_once('='), Some(("Type", "Application")));
    assert_eq!(lines[2].split_once('='), Some(("Name", "My = App")));
    assert_eq!(lines[3].split_once('='), Some(("Exec", "/usr/bin/app --flag=1")));
    assert_eq!(lines[4].split_once('='), Some(("Icon", "/icons/app.png")));
}

#[test]
fn trim_drops_every_unicode_whitespace() {
    let spaces = "\u{9}\u{a}\u{b}\u{c}\u{d} \u{85}\u{a0}\u{1680}\u{2000}\u{2005}\u{200a}\u{2028}\u{2029}\u{202f}\u{205f}\u{3000}";
    assert_eq!(trim(&format!("{spaces}x y{spaces}")), "x y");
    assert_eq!(trim("\u{200b}x\u{180e}"), "\u{200b}x\u{180e}");
    for c in spaces.chars() {
        assert!(c.is_whitespace());
    }
}

#[test]
fn own_listing_is_within_listing_all() {
    let files = || {
        vec![
            own("Fire Fox", "a.desktop"),
            DirFile {
                file_name: "other.desktop".to_string(),
                path: Some("/p/other.desktop".to_string()),
                contents: Some(b"[Desktop Entry]\nName=Other\nExec=o\nIcon=o\n".to_vec()),
            },
            own("Text Editor", "b.desktop"),
        ]
    };
    let mut mine = Manage::new();
    mine.load(Some(files()), false);
    let mut every = Manage::new();
    every.load(Some(files()), true);
    let all_paths: Vec<(String, String)> = every.rows().iter().map(|r| r.delete_target()).collect();
    assert_eq!(mine.rows().len(), 2);
    assert_eq!(all_paths.len(), 3);
    for row in mine.rows() {
        assert!(all_paths.contains(&row.delete_target()));
    }
}
