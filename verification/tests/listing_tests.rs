use shortcut::entry::EntryRow;
use shortcut::entry_file::{file_entry, has_desktop_extension, listed_entry, DirFile};
use shortcut::icon::{is_absolute, placeholder_icon_name, set_icon, IconError, IconProbe, IconSource};
use shortcut::manage::{confirms_delete, delete_prompt, Manage};

const PROBE_NONE: IconProbe = IconProbe { file_exists: false, theme_has_icon: false };
const PROBE_ALL: IconProbe = IconProbe { file_exists: true, theme_has_icon: true };

#[test]
fn icon_from_existing_absolute_file() {
    assert_eq!(
        set_icon(Some("/usr/share/a.png"), false, PROBE_ALL),
        Ok(IconSource::File("/usr/share/a.png".to_string()))
    );
}

#[test]
fn icon_missing_absolute_file() {
    assert_eq!(set_icon(Some("/nope.png"), true, PROBE_NONE), Ok(IconSource::Placeholder));
    assert_eq!(set_icon(Some("/nope.png"), false, PROBE_NONE), Err(IconError::NotFound));
    assert_eq!(IconError::NotFound.message(), "No icon found at given path");
}

#[test]
fn icon_from_theme() {
    assert_eq!(set_icon(Some("firefox"), false, PROBE_ALL), Ok(IconSource::Themed("firefox".to_string())));
    assert_eq!(set_icon(Some("firefox"), true, PROBE_NONE), Err(IconError::NotThemed));
    assert_eq!(IconError::NotThemed.message(), "The relative path does not point to any icon");
}

#[test]
fn icon_not_given() {
    assert_eq!(set_icon(None, true, PROBE_ALL), Ok(IconSource::Placeholder));
    assert_eq!(set_icon(None, false, PROBE_ALL), Err(IconError::Missing));
    assert_eq!(IconError::Missing.message(), "Given path is 'None'");
    assert_eq!(placeholder_icon_name(), "application-x-executable");
}

#[test]
fn absolute_paths_match_std() {
    for p in ["/a", "a", "", "./a", "//a", "~/a"] {
        assert_eq!(is_absolute(p), std::path::Path::new(p).is_absolute(), "{p}");
    }
}

#[test]
fn row_from_details() {
    let row = EntryRow::new(Some("  Firefox "), Some(" /home/u/ff.desktop\n"), Some("firefox"), Some("/usr/bin/firefox"));
    assert_eq!(row.get_name(), "  Firefox ");
    assert_eq!(row.subtitle_markup(), "<small>/home/u/ff.desktop</small>");
    assert_eq!(row.tooltip(), "/home/u/ff.desktop");
    assert_eq!(row.delete_target(), ("/home/u/ff.desktop".to_string(), "Firefox".to_string()));
    assert_eq!(
        row.edit_target(),
        ("Firefox".to_string(), "firefox".to_string(), "/usr/bin/firefox".to_string())
    );
    assert_eq!(row.icon_path(), Some("firefox"));
}

#[test]
fn row_without_details() {
    let row = EntryRow::new(None, None, None, None);
    assert_eq!(row.get_name(), "");
    assert_eq!(row.subtitle_markup(), "<small></small>");
    assert_eq!(row.edit_target(), (String::new(), String::new(), String::new()));
    assert_eq!(row.icon_path(), None);
}

#[test]
fn desktop_extension_matches_std() {
    let names = [
        "a.desktop", ".desktop", "..desktop", "a.desktop.bak", "desktop", "a.DESKTOP", "a.b.desktop", "",
        ".", "..", "a.", "x.desktopx", "my app.desktop",
    ];
    for n in names {
        let std_says = std::path::Path::new(n).extension().is_some_and(|e| e.eq("desktop"));
        assert_eq!(has_desktop_extension(n), std_says, "{n:?}");
    }
}

const SHORTCUT: &[u8] =
    b"[Desktop Entry]\nType=Application\nName=My App\nExec=/usr/bin/my-app\nIcon=/icons/my.png\nX-Shortcut-App=true\n";
const FOREIGN: &[u8] = b"[Desktop Entry]\nType=Application\nName=Other\nExec=other\nIcon=other\n";

fn dir_file(name: &str, contents: Option<&[u8]>) -> DirFile {
    DirFile {
        file_name: name.to_string(),
        path: Some(format!("/home/u/.local/share/applications/{name}")),
        contents: contents.map(|c| c.to_vec()),
    }
}

#[test]
fn shortcut_file_is_listed() {
    let row = file_entry(&dir_file("my-app.desktop", Some(SHORTCUT)), false).expect("listed");
    assert_eq!(row.get_name(), "My App");
    assert_eq!(
        row.edit_target(),
        ("My App".to_string(), "/icons/my.png".to_string(), "/usr/bin/my-app".to_string())
    );
    assert_eq!(row.tooltip(), "/home/u/.local/share/applications/my-app.desktop");
}

#[test]
fn foreign_entry_listed_only_with_all() {
    assert!(file_entry(&dir_file("other.desktop", Some(FOREIGN)), false).is_none());
    let row = file_entry(&dir_file("other.desktop", Some(FOREIGN)), true).expect("listed with all");
    assert_eq!(row.get_name(), "Other");
}

#[test]
fn files_that_are_not_entries_are_skipped() {
    assert!(file_entry(&dir_file("my-app.txt", Some(SHORTCUT)), true).is_none());
    assert!(file_entry(&dir_file("my-app.desktop", None), true).is_none());
    assert!(file_entry(&dir_file("broken.desktop", Some(b"[Desktop Entry]\nName\n")), true).is_none());
}

#[test]
fn parsed_entry_is_listed_through_its_attributes() {
    let parsed = freedesktop_entry_parser::Entry::parse(SHORTCUT.to_vec()).unwrap();
    let row = listed_entry(&parsed, Some("/p"), false).unwrap();
    assert_eq!(row.delete_target(), ("/p".to_string(), "My App".to_string()));
    let foreign = freedesktop_entry_parser::Entry::parse(FOREIGN.to_vec()).unwrap();
    assert!(listed_entry(&foreign, Some("/p"), false).is_none());
}

fn listing() -> Vec<DirFile> {
    vec![
        dir_file("my-app.desktop", Some(SHORTCUT)),
        dir_file("notes.txt", None),
        dir_file("other.desktop", Some(FOREIGN)),
        dir_file(
            "zed.desktop",
            Some(b"[Desktop Entry]\nName=Zed Editor\nExec=zed\nIcon=zed\nX-Shortcut-App=yes\n"),
        ),
    ]
}

#[test]
fn load_lists_own_shortcuts_all_visible() {
    let mut m = Manage::new();
    m.load(Some(listing()), false);
    let names: Vec<String> = m.rows().iter().map(|r| r.get_name()).collect();
    assert_eq!(names, vec!["My App".to_string(), "Zed Editor".to_string()]);
    assert_eq!(m.visible(), &vec![true, true]);
    assert_eq!(m.filter_text(), "");
    assert_eq!(m.status_description(), "Try a different search term.");
    assert!(m.list_visible());
    assert!(!m.status_visible());
}

#[test]
fn load_all_lists_every_entry() {
    let mut m = Manage::new();
    m.load(Some(listing()), true);
    assert_eq!(m.rows().len(), 3);
}

#[test]
fn load_of_empty_directory_reports_no_shortcuts() {
    let mut m = Manage::new();
    m.load(Some(vec![dir_file("notes.txt", None)]), false);
    assert_eq!(m.rows().len(), 0);
    assert_eq!(m.status_description(), "You have not created any shortcuts");
    assert!(!m.list_visible());
    assert!(m.status_visible());
}

#[test]
fn load_of_unreadable_directory_empties_the_list() {
    let mut m = Manage::new();
    m.load(Some(listing()), false);
    m.set_filter_text("zed");
    m.load(None, false);
    assert_eq!(m.rows().len(), 0);
    assert_eq!(m.filter_text(), "");
}

#[test]
fn search_is_case_insensitive() {
    let mut m = Manage::new();
    m.load(Some(listing()), false);
    m.set_filter_text("ZED");
    assert_eq!(m.visible(), &vec![false, true]);
    assert!(m.list_visible());
    m.set_filter_text("nothing");
    assert_eq!(m.visible(), &vec![false, false]);
    assert!(!m.list_visible());
    assert!(m.status_visible());
    assert_eq!(m.status_description(), "Try a different search term.");
    m.set_filter_text("");
    assert_eq!(m.visible(), &vec![true, true]);
}

#[test]
fn search_twice_is_search_once() {
    let mut m = Manage::new();
    m.load(Some(listing()), false);
    m.filter("app");
    let once = m.visible().clone();
    m.filter("app");
    assert_eq!(m.visible(), &once);
    assert_eq!(once, vec![true, false]);
}

#[test]
fn delete_dialog_texts() {
    assert_eq!(delete_prompt("My App"), "Are you sure you want to delete the 'My App' shortcut?");
    assert!(confirms_delete("delete"));
    assert!(!confirms_delete("cancel"));
}
