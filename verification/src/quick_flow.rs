//! The single-page creation form: fields checked against the file system,
//! and the file that saving it writes under the home directory.
use vstd::prelude::*;

use crate::desktop::{desktop_file_name, file_name_of, joined_path, join_path, output_text, Desktop, DesktopView};
use crate::quick_mode::{PathField, PathProbe, PreviewView, Preview};
use crate::text::{push_str, to_owned_string};

verus! {

/// The form's state.
pub struct QuickFlowView {
    /// The entry being made; its name is the name field's text.
    pub data: DesktopView,
    /// The executable field's text.
    pub exec_input: Seq<char>,
    /// Whether the executable field is marked as erroneous.
    pub exec_error: bool,
    /// The icon field's text.
    pub icon_input: Seq<char>,
    /// Whether the icon field is marked as erroneous.
    pub icon_error: bool,
    /// The icon preview.
    pub preview: PreviewView,
}

/// The single-page creation form.
pub struct QuickFlow {
    data: Desktop,
    exec_input: String,
    exec_error: bool,
    icon_input: String,
    icon_error: bool,
    preview: Preview,
}

impl View for QuickFlow {
    type V = QuickFlowView;

    closed spec fn view(&self) -> QuickFlowView {
        QuickFlowView {
            data: self.data@,
            exec_input: self.exec_input@,
            exec_error: self.exec_error,
            icon_input: self.icon_input@,
            icon_error: self.icon_error,
            preview: match self.preview {
                Preview::Placeholder => PreviewView::Placeholder,
                Preview::File(p) => PreviewView::File(p@),
            },
        }
    }
}

/// The message shown when a field's path names no existing file.
pub fn invalid_path_message(field: PathField) -> (r: &'static str)
    ensures
        field == PathField::Executable ==> r@ == "The executable path is not valid"@,
        field == PathField::Icon ==> r@ == "The icon path is not valid"@,
{
    match field {
        PathField::Executable => "The executable path is not valid",
        PathField::Icon => "The icon path is not valid",
    }
}

/// Whether a probed path is accepted: it names an existing regular file.
pub open spec fn path_accepted(probe: PathProbe) -> bool {
    probe.exists && probe.is_file
}

/// The form after applying its executable field (see `QuickFlow::apply_exec`).
pub open spec fn flow_exec_applied(v: QuickFlowView, probe: PathProbe) -> QuickFlowView {
    if path_accepted(probe) {
        QuickFlowView { exec_error: false, data: DesktopView { executable: v.exec_input, ..v.data }, ..v }
    } else {
        QuickFlowView { exec_error: true, ..v }
    }
}

/// The form after applying its icon field (see `QuickFlow::apply_icon`).
pub open spec fn flow_icon_applied(v: QuickFlowView, probe: PathProbe) -> QuickFlowView {
    if path_accepted(probe) {
        QuickFlowView {
            icon_error: false,
            data: DesktopView { icon: v.icon_input, ..v.data },
            preview: PreviewView::File(v.icon_input),
            ..v
        }
    } else {
        QuickFlowView { icon_error: true, ..v }
    }
}

/// The path, relative to the home directory, of the file an entry called
/// `name` is saved to.
pub open spec fn home_relative_file(name: Seq<char>) -> Seq<char> {
    ".local/share/applications/"@ + file_name_of(name)
}

impl QuickFlow {
    /// The empty form: a fresh `Application` entry, empty unmarked fields and
    /// the placeholder preview.
    pub fn new() -> (f: QuickFlow)
        ensures
            f@.data.entry_type == "Application"@,
            f@.data.name.len() == 0,
            f@.data.executable.len() == 0,
            f@.data.icon.len() == 0,
            f@.exec_input.len() == 0,
            !f@.exec_error,
            f@.icon_input.len() == 0,
            !f@.icon_error,
            f@.preview is Placeholder,
    {
        QuickFlow {
            data: Desktop::new(),
            exec_input: String::new(),
            exec_error: false,
            icon_input: String::new(),
            icon_error: false,
            preview: Preview::Placeholder,
        }
    }

    /// The entry being made.
    pub fn data(&self) -> (r: &Desktop)
        ensures
            r@ == self@.data,
    {
        &self.data
    }

    /// Whether the executable field is marked as erroneous.
    pub fn exec_error(&self) -> (r: bool)
        ensures
            r == self@.exec_error,
    {
        self.exec_error
    }

    /// Whether the icon field is marked as erroneous.
    pub fn icon_error(&self) -> (r: bool)
        ensures
            r == self@.icon_error,
    {
        self.icon_error
    }

    /// The file the preview shows, or `None` for the placeholder.
    pub fn preview_file(&self) -> (r: Option<&str>)
        ensures
            match r {
                Some(p) => self@.preview == PreviewView::File(p@),
                None => self@.preview is Placeholder,
            },
    {
        match &self.preview {
            Preview::Placeholder => None,
            Preview::File(p) => Some(p.as_str()),
        }
    }

    /// The name field was edited.
    pub fn set_name(&mut self, name: &str)
        ensures
            final(self)@ == (QuickFlowView { data: DesktopView { name: name@, ..old(self)@.data }, ..old(self)@ }),
    {
        self.data.set_name(name);
    }

    /// The executable field was edited.
    pub fn set_exec_input(&mut self, text: &str)
        ensures
            final(self)@ == (QuickFlowView { exec_input: text@, ..old(self)@ }),
    {
        self.exec_input = to_owned_string(text);
    }

    /// The icon field was edited.
    pub fn set_icon_input(&mut self, text: &str)
        ensures
            final(self)@ == (QuickFlowView { icon_input: text@, ..old(self)@ }),
    {
        self.icon_input = to_owned_string(text);
    }

    /// Applies the executable field, `probe` describing its path: an existing
    /// regular file becomes the entry's executable; anything else marks the
    /// field and is refused with the message to show.
    pub fn apply_exec(&mut self, probe: PathProbe) -> (r: Result<(), &'static str>)
        ensures
            final(self)@ == flow_exec_applied(old(self)@, probe),
            path_accepted(probe) ==> r is Ok,
            !path_accepted(probe) ==> (r matches Err(m) && m@ == "The executable path is not valid"@),
    {
        if probe.exists && probe.is_file {
            self.exec_error = false;
            let text = to_owned_string(self.exec_input.as_str());
            self.data.set_exec(text.as_str());
            Ok(())
        } else {
            self.exec_error = true;
            Err(invalid_path_message(PathField::Executable))
        }
    }

    /// Applies the icon field, `probe` describing its path: an existing
    /// regular file becomes the entry's icon and the preview; anything else
    /// marks the field and is refused with the message to show.
    pub fn apply_icon(&mut self, probe: PathProbe) -> (r: Result<(), &'static str>)
        ensures
            final(self)@ == flow_icon_applied(old(self)@, probe),
            path_accepted(probe) ==> r is Ok,
            !path_accepted(probe) ==> (r matches Err(m) && m@ == "The icon path is not valid"@),
    {
        if probe.exists && probe.is_file {
            self.icon_error = false;
            self.preview = Preview::File(to_owned_string(self.icon_input.as_str()));
            let text = to_owned_string(self.icon_input.as_str());
            self.data.set_icon(text.as_str());
            Ok(())
        } else {
            self.icon_error = true;
            Err(invalid_path_message(PathField::Icon))
        }
    }

    /// Whether the form may be saved: name, executable and icon are all set.
    pub fn can_save(&self) -> (r: bool)
        ensures
            r == (self@.data.name.len() > 0 && self@.data.executable.len() > 0 && self@.data.icon.len() > 0),
    {
        self.data.is_complete()
    }

    /// The name preview's label: the name, or `Application name` while it is empty.
    pub fn name_preview(&self) -> (r: String)
        ensures
            self@.data.name.len() == 0 ==> r@ == "Application name"@,
            self@.data.name.len() > 0 ==> r@ == self@.data.name,
    {
        if self.data.name().is_empty() {
            to_owned_string("Application name")
        } else {
            to_owned_string(self.data.name())
        }
    }

    /// The file saving writes under the home directory `home`, and its text.
    pub fn save_target(&self, home: &str) -> (r: (String, String))
        ensures
            r.0@ == joined_path(home@, home_relative_file(self@.data.name)),
            r.1@ == output_text(self@.data.entry_type, self@.data.name, self@.data.executable, self@.data.icon),
    {
        let mut rel = to_owned_string(".local/share/applications/");
        let file_name = desktop_file_name(self.data.name());
        push_str(&mut rel, file_name.as_str());
        let path = join_path(home, rel.as_str());
        let contents = match self.data.get_output() {
            Ok(s) => s,
            Err(_) => String::new(),
        };
        (path, contents)
    }
}

} // verus!
