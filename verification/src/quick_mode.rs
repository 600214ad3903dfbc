//! The form that creates or edits a shortcut: its fields, how a path typed
//! into it is checked, and what saving it writes and removes.
use vstd::prelude::*;

use crate::desktop::{
    applications_dir, applications_dir_of, desktop_file_name, file_name_of, get_file_path_from_name,
    joined_path, join_path, output_text, Desktop, DesktopView,
};
use crate::icon::{is_absolute, is_absolute_path};
use crate::text::to_owned_string;

verus! {

/// Which path field of the form.
#[derive(Debug, Clone, Copy, PartialEq, Eq, Structural)]
pub enum PathField {
    Executable,
    Icon,
}

/// What the file system reports about a path typed into the form.
#[derive(Debug, Clone, Copy)]
pub struct PathProbe {
    /// Whether something exists at the path.
    pub exists: bool,
    /// Whether that is a regular file.
    pub is_file: bool,
}

/// Why a typed path is refused.
#[derive(Debug, Clone, Copy, PartialEq, Eq, Structural)]
pub enum InputError {
    /// Nothing was typed.
    Empty,
    /// The path is relative.
    NotAbsolute,
    /// Nothing exists at the path.
    Missing,
    /// The path names a directory (or another non-file).
    NotFile,
}

impl InputError {
    /// The message shown for this error in the given field.
    pub fn message(&self, field: PathField) -> (r: &'static str)
        ensures
            (*self, field) == (InputError::Empty, PathField::Executable) ==> r@ == "The executable path is empty"@,
            (*self, field) == (InputError::Empty, PathField::Icon) ==> r@ == "The icon path is empty"@,
            *self == InputError::NotAbsolute ==> r@ == "Only absolute file paths are allowed"@,
            (*self, field) == (InputError::Missing, PathField::Executable) ==> r@ == "The executable file does not exist"@,
            (*self, field) == (InputError::Missing, PathField::Icon) ==> r@ == "The icon file does not exist"@,
            *self == InputError::NotFile ==> r@ == "The selected file is a directory"@,
    {
        match (self, field) {
            (InputError::Empty, PathField::Executable) => "The executable path is empty",
            (InputError::Empty, PathField::Icon) => "The icon path is empty",
            (InputError::NotAbsolute, _) => "Only absolute file paths are allowed",
            (InputError::Missing, PathField::Executable) => "The executable file does not exist",
            (InputError::Missing, PathField::Icon) => "The icon file does not exist",
            (InputError::NotFile, _) => "The selected file is a directory",
        }
    }
}

/// Why a typed path is refused, or `None` when it is accepted: an empty path
/// is always refused; with validation on, so are a relative path, a path to
/// nothing and a path to a non-file, checked in that order.
pub open spec fn path_input_error(text: Seq<char>, validate: bool, probe: PathProbe) -> Option<InputError> {
    if text.len() == 0 {
        Some(InputError::Empty)
    } else if validate && !is_absolute_path(text) {
        Some(InputError::NotAbsolute)
    } else if validate && !probe.exists {
        Some(InputError::Missing)
    } else if validate && !probe.is_file {
        Some(InputError::NotFile)
    } else {
        None
    }
}

/// Checks a typed path (see `path_input_error`); `probe` describes `text`.
pub fn check_path_input(text: &str, validate: bool, probe: PathProbe) -> (r: Result<(), InputError>)
    ensures
        match path_input_error(text@, validate, probe) {
            Some(e) => r == Err::<(), InputError>(e),
            None => r is Ok,
        },
{
    if text.is_empty() {
        Err(InputError::Empty)
    } else if validate && !is_absolute(text) {
        Err(InputError::NotAbsolute)
    } else if validate && !probe.exists {
        Err(InputError::Missing)
    } else if validate && !probe.is_file {
        Err(InputError::NotFile)
    } else {
        Ok(())
    }
}

/// What the form's icon preview shows.
pub enum Preview {
    /// The placeholder picture.
    Placeholder,
    /// The image file at this path.
    File(String),
}

/// What the form's icon preview shows, as text.
pub enum PreviewView {
    Placeholder,
    File(Seq<char>),
}

/// The form's state.
pub struct QuickModeView {
    /// The entry being edited; its name is the name field's text.
    pub data: DesktopView,
    /// Whether typed paths are checked against the file system.
    pub enable_validation: bool,
    /// The name the edited shortcut was stored under.
    pub old_name: Seq<char>,
    /// The executable field's text.
    pub exec_input: Seq<char>,
    /// Whether the executable field is marked as erroneous.
    pub exec_error: bool,
    /// The icon field's text.
    pub icon_input: Seq<char>,
    /// Whether the icon field is marked as erroneous.
    pub icon_error: bool,
    /// The icon preview.
    pub preview: PreviewView,
}

/// The shortcut form.
pub struct QuickMode {
    data: Desktop,
    enable_validation: bool,
    old_name: String,
    exec_input: String,
    exec_error: bool,
    icon_input: String,
    icon_error: bool,
    preview: Preview,
}

impl View for QuickMode {
    type V = QuickModeView;

    closed spec fn view(&self) -> QuickModeView {
        QuickModeView {
            data: self.data@,
            enable_validation: self.enable_validation,
            old_name: self.old_name@,
            exec_input: self.exec_input@,
            exec_error: self.exec_error,
            icon_input: self.icon_input@,
            icon_error: self.icon_error,
            preview: match self.preview {
                Preview::Placeholder => PreviewView::Placeholder,
                Preview::File(p) => PreviewView::File(p@),
            },
        }
    }
}

/// The form after applying its executable field (probed by `probe`): an
/// accepted path becomes the entry's executable and clears the error mark; a
/// refused one sets the mark and changes nothing else.
pub open spec fn exec_applied(v: QuickModeView, probe: PathProbe) -> QuickModeView {
    match path_input_error(v.exec_input, v.enable_validation, probe) {
        Some(_) => QuickModeView { exec_error: true, ..v },
        None => QuickModeView {
            exec_error: false,
            data: DesktopView { executable: v.exec_input, ..v.data },
            ..v
        },
    }
}

/// The form after applying its icon field (probed by `probe`): an accepted
/// path becomes the entry's icon and the preview's picture and clears the
/// error mark; a refused one sets the mark and changes nothing else.
pub open spec fn icon_applied(v: QuickModeView, probe: PathProbe) -> QuickModeView {
    match path_input_error(v.icon_input, v.enable_validation, probe) {
        Some(_) => QuickModeView { icon_error: true, ..v },
        None => QuickModeView {
            icon_error: false,
            data: DesktopView { icon: v.icon_input, ..v.data },
            preview: PreviewView::File(v.icon_input),
            ..v
        },
    }
}

/// Which fields `edit_details` asks to apply, icon first.
#[derive(Debug, Clone, Copy, PartialEq, Eq, Structural)]
pub struct EditRequests {
    pub apply_icon: bool,
    pub apply_exec: bool,
}

/// Whether an optional text is given and not empty.
pub open spec fn given(s: Option<Seq<char>>) -> bool {
    s matches Some(t) && t.len() > 0
}

/// The form after loading a shortcut's details: a given name becomes both the
/// entry's name and the stored name; a given non-empty icon or executable
/// fills its field.
pub open spec fn edited(
    v: QuickModeView,
    name: Option<Seq<char>>,
    icon_path: Option<Seq<char>>,
    exec_path: Option<Seq<char>>,
) -> QuickModeView {
    let v1 = match name {
        Some(n) => QuickModeView { old_name: n, data: DesktopView { name: n, ..v.data }, ..v },
        None => v,
    };
    let v2 = if given(icon_path) {
        QuickModeView { icon_input: icon_path->0, ..v1 }
    } else {
        v1
    };
    if given(exec_path) {
        QuickModeView { exec_input: exec_path->0, ..v2 }
    } else {
        v2
    }
}

/// The form emptied: no name, stored name, executable or icon, both fields
/// empty and unmarked, the placeholder preview; validation and the entry's
/// type are kept.
pub open spec fn cleared(v: QuickModeView) -> QuickModeView {
    QuickModeView {
        data: DesktopView {
            name: Seq::empty(),
            executable: Seq::empty(),
            icon: Seq::empty(),
            ..v.data
        },
        old_name: Seq::empty(),
        exec_input: Seq::empty(),
        exec_error: false,
        icon_input: Seq::empty(),
        icon_error: false,
        preview: PreviewView::Placeholder,
        ..v
    }
}

/// Whether saving the form removes the file of the stored name: it does when
/// the entry's name differs from it.
pub open spec fn saving_removes_old(v: QuickModeView) -> bool {
    v.data.name != v.old_name
}

/// What saving the form does on the file system.
pub struct SavePlan {
    /// The file of the previous name, removed first (errors ignored).
    pub remove_old: Option<String>,
    /// The directory created (with its parents) when missing.
    pub target_dir: String,
    /// The file written.
    pub file_path: String,
    /// What is written to it.
    pub contents: String,
}

fn opt_text(s: &Option<String>) -> (r: Option<&str>)
    ensures
        match r {
            Some(t) => s matches Some(u) && t@ == u@,
            None => s is None,
        },
{
    match s {
        Some(t) => Some(t.as_str()),
        None => None,
    }
}

/// The text of an optional string.
pub open spec fn opt_seq(s: Option<String>) -> Option<Seq<char>> {
    match s {
        Some(t) => Some(t@),
        None => None,
    }
}

impl QuickMode {
    /// The form before any input: a fresh `Application` entry, validation off,
    /// empty fields and stored name, the placeholder preview.
    pub fn new() -> (f: QuickMode)
        ensures
            f@.data.entry_type == "Application"@,
            f@.data.name.len() == 0,
            f@.data.executable.len() == 0,
            f@.data.icon.len() == 0,
            !f@.enable_validation,
            f@.old_name.len() == 0,
            f@.exec_input.len() == 0,
            !f@.exec_error,
            f@.icon_input.len() == 0,
            !f@.icon_error,
            f@.preview is Placeholder,
    {
        QuickMode {
            data: Desktop::new(),
            enable_validation: false,
            old_name: String::new(),
            exec_input: String::new(),
            exec_error: false,
            icon_input: String::new(),
            icon_error: false,
            preview: Preview::Placeholder,
        }
    }

    /// Takes the "validate paths" setting.
    pub fn init(&mut self, enable_validation: bool)
        ensures
            final(self)@ == (QuickModeView { enable_validation, ..old(self)@ }),
    {
        self.enable_validation = enable_validation;
    }

    /// The entry being edited.
    pub fn data(&self) -> (r: &Desktop)
        ensures
            r@ == self@.data,
    {
        &self.data
    }

    /// The name the edited shortcut was stored under.
    pub fn old_name(&self) -> (r: &str)
        ensures
            r@ == self@.old_name,
    {
        self.old_name.as_str()
    }

    /// The executable field's text.
    pub fn exec_input(&self) -> (r: &str)
        ensures
            r@ == self@.exec_input,
    {
        self.exec_input.as_str()
    }

    /// The icon field's text.
    pub fn icon_input(&self) -> (r: &str)
        ensures
            r@ == self@.icon_input,
    {
        self.icon_input.as_str()
    }

    /// Whether the executable field is marked as erroneous.
    pub fn exec_error(&self) -> (r: bool)
        ensures
            r == self@.exec_error,
    {
        self.exec_error
    }

    /// Whether the icon field is marked as erroneous.
    pub fn icon_error(&self) -> (r: bool)
        ensures
            r == self@.icon_error,
    {
        self.icon_error
    }

    /// The file the preview shows, or `None` for the placeholder.
    pub fn preview_file(&self) -> (r: Option<&str>)
        ensures
            match r {
                Some(p) => self@.preview == PreviewView::File(p@),
                None => self@.preview is Placeholder,
            },
    {
        match &self.preview {
            Preview::Placeholder => None,
            Preview::File(p) => Some(p.as_str()),
        }
    }

    /// The name field was edited.
    pub fn set_name(&mut self, name: &str)
        ensures
            final(self)@ == (QuickModeView { data: DesktopView { name: name@, ..old(self)@.data }, ..old(self)@ }),
    {
        self.data.set_name(name);
    }

    /// The executable field was edited.
    pub fn set_exec_input(&mut self, text: &str)
        ensures
            final(self)@ == (QuickModeView { exec_input: text@, ..old(self)@ }),
    {
        self.exec_input = to_owned_string(text);
    }

    /// The icon field was edited.
    pub fn set_icon_input(&mut self, text: &str)
        ensures
            final(self)@ == (QuickModeView { icon_input: text@, ..old(self)@ }),
    {
        self.icon_input = to_owned_string(text);
    }

    /// Applies the executable field, `probe` describing its path (see `exec_applied`).
    pub fn apply_exec(&mut self, probe: PathProbe) -> (r: Result<(), InputError>)
        ensures
            final(self)@ == exec_applied(old(self)@, probe),
            match path_input_error(old(self)@.exec_input, old(self)@.enable_validation, probe) {
                Some(e) => r == Err::<(), InputError>(e),
                None => r is Ok,
            },
    {
        let r = check_path_input(self.exec_input.as_str(), self.enable_validation, probe);
        match r {
            Ok(()) => {
                self.exec_error = false;
                let text = to_owned_string(self.exec_input.as_str());
                self.data.set_exec(text.as_str());
            },
            Err(_) => {
                self.exec_error = true;
            },
        }
        r
    }

    /// Applies the icon field, `probe` describing its path (see `icon_applied`).
    pub fn apply_icon(&mut self, probe: PathProbe) -> (r: Result<(), InputError>)
        ensures
            final(self)@ == icon_applied(old(self)@, probe),
            match path_input_error(old(self)@.icon_input, old(self)@.enable_validation, probe) {
                Some(e) => r == Err::<(), InputError>(e),
                None => r is Ok,
            },
    {
        let r = check_path_input(self.icon_input.as_str(), self.enable_validation, probe);
        match r {
            Ok(()) => {
                self.icon_error = false;
                self.preview = Preview::File(to_owned_string(self.icon_input.as_str()));
                let text = to_owned_string(self.icon_input.as_str());
                self.data.set_icon(text.as_str());
            },
            Err(_) => {
                self.icon_error = true;
            },
        }
        r
    }

    /// Loads a shortcut's details into the form (see `edited`); the fields
    /// filled are to be applied, icon first, as the result says.
    pub fn edit_details(
        &mut self,
        name: Option<String>,
        icon_path: Option<String>,
        exec_path: Option<String>,
    ) -> (r: EditRequests)
        ensures
            final(self)@ == edited(old(self)@, opt_seq(name), opt_seq(icon_path), opt_seq(exec_path)),
            r.apply_icon == given(opt_seq(icon_path)),
            r.apply_exec == given(opt_seq(exec_path)),
    {
        match opt_text(&name) {
            Some(n) => {
                self.old_name = to_owned_string(n);
                self.data.set_name(n);
            },
            None => {},
        }
        let mut apply_icon = false;
        match opt_text(&icon_path) {
            Some(p) => {
                if !p.is_empty() {
                    self.icon_input = to_owned_string(p);
                    apply_icon = true;
                }
            },
            None => {},
        }
        let mut apply_exec = false;
        match opt_text(&exec_path) {
            Some(p) => {
                if !p.is_empty() {
                    self.exec_input = to_owned_string(p);
                    apply_exec = true;
                }
            },
            None => {},
        }
        EditRequests { apply_icon, apply_exec }
    }

    /// Opens the form on a stored shortcut: the form is emptied, then the
    /// shortcut's name, icon and executable are loaded into it.
    pub fn load_details(&mut self, name: String, icon_path: String, exec_path: String) -> (r: EditRequests)
        ensures
            final(self)@ == edited(cleared(old(self)@), Some(name@), Some(icon_path@), Some(exec_path@)),
            r.apply_icon == (icon_path@.len() > 0),
            r.apply_exec == (exec_path@.len() > 0),
    {
        self.clear_data();
        self.edit_details(Some(name), Some(icon_path), Some(exec_path))
    }

    /// Empties the form (see `cleared`).
    pub fn clear_data(&mut self)
        ensures
            final(self)@ == cleared(old(self)@),
    {
        self.old_name = String::new();
        self.data.set_name("");
        self.exec_input = String::new();
        self.data.set_exec("");
        self.exec_error = false;
        self.icon_input = String::new();
        self.data.set_icon("");
        self.icon_error = false;
        self.preview = Preview::Placeholder;
        proof {
            reveal_strlit("");
            assert(""@ =~= Seq::<char>::empty());
            assert(self@.old_name =~= Seq::<char>::empty());
            assert(self@.exec_input =~= Seq::<char>::empty());
            assert(self@.icon_input =~= Seq::<char>::empty());
        }
    }

    /// Whether the form may be saved: name, executable and icon are all set.
    pub fn can_save(&self) -> (r: bool)
        ensures
            r == (self@.data.name.len() > 0 && self@.data.executable.len() > 0 && self@.data.icon.len() > 0),
    {
        self.data.is_complete()
    }

    /// The name preview's label: the name, or `Preview` while it is empty.
    pub fn name_preview(&self) -> (r: String)
        ensures
            self@.data.name.len() == 0 ==> r@ == "Preview"@,
            self@.data.name.len() > 0 ==> r@ == self@.data.name,
    {
        if self.data.name().is_empty() {
            to_owned_string("Preview")
        } else {
            to_owned_string(self.data.name())
        }
    }

    /// What saving the form for `user` does: the file of the stored name is
    /// removed when the name changed; the entry's text is written to
    /// `<stem>.desktop` pushed onto the user's applications directory.
    pub fn save_plan(&self, user: &str) -> (r: SavePlan)
        ensures
            match r.remove_old {
                Some(p) => saving_removes_old(self@) && p@ == applications_dir_of(user@) + "/"@
                    + file_name_of(self@.old_name),
                None => !saving_removes_old(self@),
            },
            r.target_dir@ == applications_dir_of(user@),
            r.file_path@ == joined_path(applications_dir_of(user@), file_name_of(self@.data.name)),
            r.contents@ == output_text(
                self@.data.entry_type,
                self@.data.name,
                self@.data.executable,
                self@.data.icon,
            ),
    {
        let remove_old = if crate::text::same_text(self.data.name(), self.old_name.as_str()) {
            None
        } else {
            Some(get_file_path_from_name(user, self.old_name.as_str()))
        };
        let target_dir = applications_dir(user);
        let file_name = desktop_file_name(self.data.name());
        let file_path = join_path(target_dir.as_str(), file_name.as_str());
        let contents = match self.data.get_output() {
            Ok(s) => s,
            Err(_) => String::new(),
        };
        SavePlan { remove_old, target_dir, file_path, contents }
    }
}

} // verus!
