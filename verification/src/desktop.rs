//! The desktop entry being written, its text form, and where it is stored.
use vstd::prelude::*;

use crate::text::{
    ascii_lower_char, ascii_text,
    lowercase, push_str, replace_spaces, spaces_to_hyphens, starts_with_char, to_lowercase,
    to_owned_string,
};

verus! {

/// The fields of a desktop entry, as text.
pub struct DesktopView {
    pub entry_type: Seq<char>,
    pub name: Seq<char>,
    pub executable: Seq<char>,
    pub icon: Seq<char>,
}

/// A desktop entry of type `Application` with a name, an executable and an icon.
pub struct Desktop {
    entry_type: String,
    name: String,
    executable: String,
    icon: String,
}

impl View for Desktop {
    type V = DesktopView;

    closed spec fn view(&self) -> DesktopView {
        DesktopView {
            entry_type: self.entry_type@,
            name: self.name@,
            executable: self.executable@,
            icon: self.icon@,
        }
    }
}

/// The text of a desktop entry file with the given fields.
pub open spec fn output_text(
    entry_type: Seq<char>,
    name: Seq<char>,
    executable: Seq<char>,
    icon: Seq<char>,
) -> Seq<char> {
    "[Desktop Entry]\n"@ + "Type="@ + entry_type + "\n"@ + "Name="@ + name + "\n"@ + "Exec="@ + executable
        + "\n"@ + "Icon="@ + icon + "\n"@
}

/// The error that writing the text of an entry could report; writing into a
/// `String` never fails, so `get_output` never returns it.
#[derive(Debug, PartialEq, Eq, Structural)]
pub struct FormatError;

impl Default for Desktop {
    /// An entry with every field empty, the type too.
    fn default() -> (d: Self)
        ensures
            d@ == (DesktopView {
                entry_type: Seq::empty(),
                name: Seq::empty(),
                executable: Seq::empty(),
                icon: Seq::empty(),
            }),
    {
        let d = Desktop {
            entry_type: String::new(),
            name: String::new(),
            executable: String::new(),
            icon: String::new(),
        };
        assert(d@.name =~= Seq::<char>::empty());
        d
    }
}

impl Desktop {
    /// A fresh entry of type `Application` with empty name, executable and icon.
    pub fn new() -> (d: Self)
        ensures
            d@.entry_type == "Application"@,
            d@.name.len() == 0,
            d@.executable.len() == 0,
            d@.icon.len() == 0,
    {
        Desktop {
            entry_type: to_owned_string("Application"),
            name: String::new(),
            executable: String::new(),
            icon: String::new(),
        }
    }

    /// The entry's type (`Application` for entries made by `new`).
    pub fn entry_type(&self) -> (r: &str)
        ensures
            r@ == self@.entry_type,
    {
        self.entry_type.as_str()
    }

    /// The name.
    pub fn name(&self) -> (r: &str)
        ensures
            r@ == self@.name,
    {
        self.name.as_str()
    }

    /// The executable.
    pub fn executable(&self) -> (r: &str)
        ensures
            r@ == self@.executable,
    {
        self.executable.as_str()
    }

    /// The icon.
    pub fn icon(&self) -> (r: &str)
        ensures
            r@ == self@.icon,
    {
        self.icon.as_str()
    }

    /// Sets the name.
    pub fn set_name(&mut self, name: &str)
        ensures
            final(self)@ == (DesktopView { name: name@, ..old(self)@ }),
    {
        self.name = to_owned_string(name);
    }

    /// Sets the executable.
    pub fn set_exec(&mut self, executable: &str)
        ensures
            final(self)@ == (DesktopView { executable: executable@, ..old(self)@ }),
    {
        self.executable = to_owned_string(executable);
    }

    /// Sets the icon.
    pub fn set_icon(&mut self, icon: &str)
        ensures
            final(self)@ == (DesktopView { icon: icon@, ..old(self)@ }),
    {
        self.icon = to_owned_string(icon);
    }

    /// The text of the `.desktop` file: the `[Desktop Entry]` header, then the
    /// `Type`, `Name`, `Exec` and `Icon` lines, each ending in a newline.
    pub fn get_output(&self) -> (r: Result<String, FormatError>)
        ensures
            r is Ok,
            r matches Ok(s) ==> s@ == output_text(self@.entry_type, self@.name, self@.executable, self@.icon),
    {
        let mut out = String::new();
        push_str(&mut out, "[Desktop Entry]\n");
        push_str(&mut out, "Type=");
        push_str(&mut out, self.entry_type.as_str());
        push_str(&mut out, "\n");
        push_str(&mut out, "Name=");
        push_str(&mut out, self.name.as_str());
        push_str(&mut out, "\n");
        push_str(&mut out, "Exec=");
        push_str(&mut out, self.executable.as_str());
        push_str(&mut out, "\n");
        push_str(&mut out, "Icon=");
        push_str(&mut out, self.icon.as_str());
        push_str(&mut out, "\n");
        Ok(out)
    }

    /// Whether name, executable and icon are all set, which is when the entry may be saved.
    pub fn is_complete(&self) -> (r: bool)
        ensures
            r == (self@.name.len() > 0 && self@.executable.len() > 0 && self@.icon.len() > 0),
    {
        !(self.name.as_str().is_empty() || self.executable.as_str().is_empty() || self.icon.as_str().is_empty())
    }
}

/// The stem of the file that stores an entry called `name`: spaces become
/// hyphens, then the whole is lowercased.
pub open spec fn file_stem_of(name: Seq<char>) -> Seq<char> {
    lowercase(spaces_to_hyphens(name))
}

/// The file name that stores an entry called `name`.
pub open spec fn file_name_of(name: Seq<char>) -> Seq<char> {
    file_stem_of(name) + ".desktop"@
}

/// The directory of a user's own application entries.
pub open spec fn applications_dir_of(user: Seq<char>) -> Seq<char> {
    "/home/"@ + user + "/.local/share/applications"@
}

/// `rel` appended to `base` as a path component the way a path buffer pushes
/// on Unix: an absolute `rel` replaces `base`; otherwise a `/` separates the
/// two unless `base` is empty or already ends in one.
pub open spec fn joined_path(base: Seq<char>, rel: Seq<char>) -> Seq<char> {
    if rel.len() > 0 && rel[0] == '/' {
        rel
    } else if base.len() == 0 || base.last() == '/' {
        base + rel
    } else {
        base + "/"@ + rel
    }
}

/// The file name (`<stem>.desktop`) under which an entry called `name` is stored.
pub fn desktop_file_name(name: &str) -> (r: String)
    ensures
        r@ == file_name_of(name@),
        ascii_text(name@) ==> r@.len() == name@.len() + 8,
        ascii_text(name@) ==> r@.subrange(name@.len() as int, r@.len() as int) == ".desktop"@,
        ascii_text(name@) ==> forall|i: int|
            0 <= i < name@.len() ==> #[trigger] r@[i] == ascii_lower_char(
                if name@[i] == ' ' { '-' } else { name@[i] },
            ),
{
    let hyphenated = replace_spaces(name);
    let mut r = to_lowercase(hyphenated.as_str());
    proof {
        if ascii_text(name@) {
            assert(ascii_text(hyphenated@)) by {
                assert forall|i: int| 0 <= i < hyphenated@.len() implies (#[trigger] hyphenated@[i] as u32)
                    < 128 by {
                    assert((name@[i] as u32) < 128);
                }
            }
        }
    }
    let ghost stem = r@;
    push_str(&mut r, ".desktop");
    proof {
        reveal_strlit(".desktop");
        assert(r@.subrange(stem.len() as int, r@.len() as int) =~= ".desktop"@);
    }
    r
}

/// `/home/<user>/.local/share/applications`.
pub fn applications_dir(user: &str) -> (r: String)
    ensures
        r@ == applications_dir_of(user@),
{
    let mut r = to_owned_string("/home/");
    push_str(&mut r, user);
    push_str(&mut r, "/.local/share/applications");
    r
}

/// `/home/<user>/.local/share/applications/<stem>.desktop`: the file that
/// stores an entry called `name`, written out as text.
pub fn get_file_path_from_name(user: &str, name: &str) -> (r: String)
    ensures
        r@ == applications_dir_of(user@) + "/"@ + file_name_of(name@),
{
    let mut r = applications_dir(user);
    push_str(&mut r, "/");
    let file = desktop_file_name(name);
    push_str(&mut r, file.as_str());
    r
}

/// Whether `s` ends with the character `c`.
fn ends_with_char(s: &str, c: char) -> (r: bool)
    ensures
        r == (s@.len() > 0 && s@.last() == c),
{
    let v = crate::text::chars_of(s);
    v.len() > 0 && v[v.len() - 1] == c
}

/// `rel` pushed onto `base` as a path (see `joined_path`).
pub fn join_path(base: &str, rel: &str) -> (r: String)
    ensures
        r@ == joined_path(base@, rel@),
{
    if starts_with_char(rel, '/') {
        to_owned_string(rel)
    } else if base.is_empty() || ends_with_char(base, '/') {
        let mut r = to_owned_string(base);
        push_str(&mut r, rel);
        r
    } else {
        let mut r = to_owned_string(base);
        push_str(&mut r, "/");
        push_str(&mut r, rel);
        r
    }
}

} // verus!
