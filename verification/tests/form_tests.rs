use shortcut::quick_flow::{invalid_path_message, QuickFlow};
use shortcut::quick_mode::{check_path_input, EditRequests, InputError, PathField, PathProbe, QuickMode};
use shortcut::viewport::{color_scheme_for, Action, ColorScheme, Page, Step, Target, Viewport};

const FILE: PathProbe = PathProbe { exists: true, is_file: true };
const DIR: PathProbe = PathProbe { exists: true, is_file: false };
const NOTHING: PathProbe = PathProbe { exists: false, is_file: false };

#[test]
fn path_checks_in_order() {
    assert_eq!(check_path_input("", true, FILE), Err(InputError::Empty));
    assert_eq!(check_path_input("bin/x", true, FILE), Err(InputError::NotAbsolute));
    assert_eq!(check_path_input("/bin/x", true, NOTHING), Err(InputError::Missing));
    assert_eq!(check_path_input("/bin", true, DIR), Err(InputError::NotFile));
    assert_eq!(check_path_input("/bin/x", true, FILE), Ok(()));
}

#[test]
fn without_validation_only_emptiness_counts() {
    assert_eq!(check_path_input("", false, FILE), Err(InputError::Empty));
    assert_eq!(check_path_input("relative", false, NOTHING), Ok(()));
}

#[test]
fn input_error_messages() {
    assert_eq!(InputError::Empty.message(PathField::Executable), "The executable path is empty");
    assert_eq!(InputError::Empty.message(PathField::Icon), "The icon path is empty");
    assert_eq!(InputError::NotAbsolute.message(PathField::Icon), "Only absolute file paths are allowed");
    assert_eq!(InputError::Missing.message(PathField::Executable), "The executable file does not exist");
    assert_eq!(InputError::Missing.message(PathField::Icon), "The icon file does not exist");
    assert_eq!(InputError::NotFile.message(PathField::Executable), "The selected file is a directory");
}

#[test]
fn new_form_is_empty() {
    let f = QuickMode::new();
    assert_eq!(f.data().name(), "");
    assert_eq!(f.old_name(), "");
    assert_eq!(f.preview_file(), None);
    assert!(!f.can_save());
    assert_eq!(f.name_preview(), "Preview");
}

#[test]
fn applying_fields_fills_the_entry() {
    let mut f = QuickMode::new();
    f.init(true);
    f.set_name("My App");
    f.set_exec_input("/usr/bin/my-app");
    assert_eq!(f.apply_exec(FILE), Ok(()));
    assert!(!f.exec_error());
    f.set_icon_input("icons/my.png");
    assert_eq!(f.apply_icon(FILE), Err(InputError::NotAbsolute));
    assert!(f.icon_error());
    assert_eq!(f.data().icon(), "");
    assert!(!f.can_save());
    f.set_icon_input("/icons/my.png");
    assert_eq!(f.apply_icon(FILE), Ok(()));
    assert!(!f.icon_error());
    assert_eq!(f.preview_file(), Some("/icons/my.png"));
    assert_eq!(f.data().executable(), "/usr/bin/my-app");
    assert!(f.can_save());
    assert_eq!(f.name_preview(), "My App");
}

#[test]
fn refused_exec_keeps_the_previous_one() {
    let mut f = QuickMode::new();
    f.init(true);
    f.set_exec_input("/usr/bin/a");
    f.apply_exec(FILE).unwrap();
    f.set_exec_input("/usr/bin");
    assert_eq!(f.apply_exec(DIR), Err(InputError::NotFile));
    assert!(f.exec_error());
    assert_eq!(f.data().executable(), "/usr/bin/a");
}

#[test]
fn edit_details_loads_given_values() {
    let mut f = QuickMode::new();
    let r = f.edit_details(Some("Old Name".to_string()), Some(String::new()), Some("/bin/x".to_string()));
    assert_eq!(r, EditRequests { apply_icon: false, apply_exec: true });
    assert_eq!(f.data().name(), "Old Name");
    assert_eq!(f.old_name(), "Old Name");
    assert_eq!(f.exec_input(), "/bin/x");
    assert_eq!(f.icon_input(), "");
    let r = f.edit_details(None, None, None);
    assert_eq!(r, EditRequests { apply_icon: false, apply_exec: false });
    assert_eq!(f.data().name(), "Old Name");
}

#[test]
fn clear_data_empties_everything_but_validation() {
    let mut f = QuickMode::new();
    f.init(true);
    f.edit_details(Some("A".to_string()), Some("/i.png".to_string()), Some("/bin/a".to_string()));
    f.apply_icon(FILE).unwrap();
    f.apply_exec(NOTHING).unwrap_err();
    f.clear_data();
    assert_eq!(f.data().name(), "");
    assert_eq!(f.data().icon(), "");
    assert_eq!(f.old_name(), "");
    assert_eq!(f.exec_input(), "");
    assert_eq!(f.icon_input(), "");
    assert!(!f.exec_error());
    assert!(!f.icon_error());
    assert_eq!(f.preview_file(), None);
    assert_eq!(f.data().entry_type(), "Application");
    f.set_exec_input("relative");
    assert_eq!(f.apply_exec(FILE), Err(InputError::NotAbsolute));
}

#[test]
fn saving_a_new_shortcut() {
    let mut f = QuickMode::new();
    f.set_name("My App");
    f.set_exec_input("/bin/a");
    f.apply_exec(FILE).unwrap();
    f.set_icon_input("/i.png");
    f.apply_icon(FILE).unwrap();
    let plan = f.save_plan("alice");
    assert_eq!(plan.remove_old, Some("/home/alice/.local/share/applications/.desktop".to_string()));
    assert_eq!(plan.target_dir, "/home/alice/.local/share/applications");
    assert_eq!(plan.file_path, "/home/alice/.local/share/applications/my-app.desktop");
    assert_eq!(plan.contents, "[Desktop Entry]\nType=Application\nName=My App\nExec=/bin/a\nIcon=/i.png\n");
}

#[test]
fn opened_shortcut_saved_unrenamed_removes_nothing() {
    let mut f = QuickMode::new();
    let r = f.load_details("My App".to_string(), "/i.png".to_string(), "/bin/a".to_string());
    assert_eq!(r, EditRequests { apply_icon: true, apply_exec: true });
    assert_eq!(f.save_plan("bob").remove_old, None);
}

#[test]
fn renaming_removes_the_old_file() {
    let mut f = QuickMode::new();
    f.load_details("Old App".to_string(), String::new(), String::new());
    f.set_name("New App");
    let plan = f.save_plan("bob");
    assert_eq!(plan.remove_old, Some("/home/bob/.local/share/applications/old-app.desktop".to_string()));
    assert_eq!(plan.file_path, "/home/bob/.local/share/applications/new-app.desktop");
}

#[test]
fn absolute_name_escapes_the_directory_when_saved() {
    let mut f = QuickMode::new();
    f.set_name("/tmp/x");
    let plan = f.save_plan("bob");
    assert_eq!(plan.file_path, "/tmp/x.desktop");
}

#[test]
fn first_version_form() {
    let mut f = QuickFlow::new();
    assert_eq!(f.name_preview(), "Application name");
    f.set_name("My App");
    f.set_exec_input("/bin/a");
    assert_eq!(f.apply_exec(NOTHING), Err("The executable path is not valid"));
    assert!(f.exec_error());
    assert_eq!(f.apply_exec(FILE), Ok(()));
    assert!(!f.exec_error());
    f.set_icon_input("/i.png");
    assert_eq!(f.apply_icon(DIR), Err("The icon path is not valid"));
    assert!(f.icon_error());
    assert!(!f.can_save());
    assert_eq!(f.apply_icon(FILE), Ok(()));
    assert_eq!(f.preview_file(), Some("/i.png"));
    assert!(f.can_save());
    let (path, contents) = f.save_target("/home/carol");
    assert_eq!(path, "/home/carol/.local/share/applications/my-app.desktop");
    assert_eq!(contents, "[Desktop Entry]\nType=Application\nName=My App\nExec=/bin/a\nIcon=/i.png\n");
    assert_eq!(invalid_path_message(PathField::Icon), "The icon path is not valid");
}

fn go(step: Step) -> shortcut::viewport::Move {
    match step {
        Step::Go(m) => m,
        Step::Toast => panic!("expected a move"),
    }
}

#[test]
fn viewport_moves() {
    let mut v = Viewport::new();
    let m = go(v.handle(Action::Back, 2, 0));
    assert_eq!(m.target, Target::At(1));
    assert_eq!(m.reorder_to, None);
    assert!(m.animate);
    let m = go(v.handle(Action::Landing(false), 3, 0));
    assert_eq!(m.target, Target::Page(Page::Landing));
    assert!(!m.animate);
    let m = go(v.handle(Action::QuickFlow(Some("A".to_string()), None, Some("/bin/a".to_string())), 0, 0));
    assert_eq!(m.target, Target::Page(Page::QuickMode));
    assert_eq!(m.reorder_to, Some(1));
    assert_eq!(m.form_details, Some((Some("A".to_string()), None, Some("/bin/a".to_string()))));
    let m = go(v.handle(Action::Completed, 1, 0));
    assert_eq!(m.target, Target::Page(Page::Completed));
    assert_eq!(m.reorder_to, Some(2));
    assert!(!m.reload_list);
    let m = go(v.handle(Action::Manage, 1, 0));
    assert_eq!(m.target, Target::Page(Page::Manage));
    assert!(m.reload_list);
}

#[test]
fn only_the_latest_toast_times_out() {
    let mut v = Viewport::new();
    assert!(matches!(v.handle(Action::ShowToast("first".to_string()), 0, 100), Step::Toast));
    assert!(matches!(v.handle(Action::ShowToast("second".to_string()), 0, 200), Step::Toast));
    assert_eq!(v.toast_text(), "second");
    v.toast_timeout(100);
    assert!(v.toast_visible());
    v.toast_timeout(200);
    assert!(!v.toast_visible());
}

#[test]
fn moving_hides_the_toast() {
    let mut v = Viewport::new();
    v.handle(Action::ShowToast("x".to_string()), 0, 5);
    assert!(v.toast_visible());
    v.handle(Action::Manage, 0, 6);
    assert!(!v.toast_visible());
    v.handle(Action::ShowToast("y".to_string()), 0, 7);
    v.close_toast();
    assert!(!v.toast_visible());
}

#[test]
fn colour_schemes() {
    assert_eq!(color_scheme_for(0), ColorScheme::Default);
    assert_eq!(color_scheme_for(1), ColorScheme::ForceDark);
    assert_eq!(color_scheme_for(2), ColorScheme::ForceLight);
    assert_eq!(color_scheme_for(7), ColorScheme::Default);
}
