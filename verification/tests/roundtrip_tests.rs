use shortcut::desktop::Desktop;
use shortcut::entry_file::{file_entry, DirFile};

fn saved(name: &str, exec: &str, icon: &str) -> DirFile {
    let mut d = Desktop::new();
    d.set_name(name);
    d.set_exec(exec);
    d.set_icon(icon);
    DirFile {
        file_name: "saved.desktop".to_string(),
        path: Some("/home/u/.local/share/applications/saved.desktop".to_string()),
        contents: Some(d.get_output().unwrap().into_bytes()),
    }
}

#[test]
fn saved_entry_reads_back_when_listing_all() {
    let cases = [
        ("My App", "/usr/bin/my-app %u", "/icons/my.png"),
        ("", "", ""),
        ("x [y] = #z", " spaced\ttabs\r", "ic=on"),
        ("Été 北京", "#!not a comment", "[not a header]"),
    ];
    for (name, exec, icon) in cases {
        let row = file_entry(&saved(name, exec, icon), true).expect("listed with all");
        assert_eq!(row.get_name(), name);
        let (_, listed_icon, listed_exec) = row.edit_target();
        assert_eq!(listed_icon, icon);
        assert_eq!(listed_exec, exec);
        assert_eq!(row.tooltip(), "/home/u/.local/share/applications/saved.desktop");
    }
}

#[test]
fn saved_entry_is_not_an_own_shortcut() {
    assert!(file_entry(&saved("My App", "/bin/a", "/i.png"), false).is_none());
}

#[test]
fn parser_sees_exactly_the_written_keys() {
    let mut d = Desktop::new();
    d.set_name("x [y] = #z");
    d.set_exec(" spaced\ttabs\r");
    d.set_icon("ic=on");
    let parsed = freedesktop_entry_parser::Entry::parse(d.get_output().unwrap().into_bytes()).unwrap();
    let section = parsed.section("Desktop Entry");
    assert_eq!(section.attr("Type"), Some("Application"));
    assert_eq!(section.attr("Name"), Some("x [y] = #z"));
    assert_eq!(section.attr("Exec"), Some(" spaced\ttabs\r"));
    assert_eq!(section.attr("Icon"), Some("ic=on"));
    assert_eq!(section.attrs().count(), 4);
    assert_eq!(parsed.sections().count(), 1);
}
