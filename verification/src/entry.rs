//! One row of the list of shortcuts: what it shows and what its buttons act on.
use vstd::prelude::*;

use crate::text::{push_str, to_owned_string, trim, trimmed};

verus! {

/// The text a row holds.
pub struct EntryRowView {
    /// The label, that is, the title as given.
    pub label: Seq<char>,
    /// The title with surrounding whitespace removed.
    pub name: Seq<char>,
    /// The subtitle (the file's path) with surrounding whitespace removed.
    pub subtitle: Seq<char>,
    /// The icon setting, as given.
    pub icon_path: Option<Seq<char>>,
    /// The executable, or empty when none is given.
    pub exec_path: Seq<char>,
}

/// A row of the shortcut list.
pub struct EntryRow {
    label: String,
    name: String,
    subtitle: String,
    icon_path: Option<String>,
    exec_path: String,
}

/// `s`, or the empty text when there is none.
pub open spec fn text_or_empty(s: Option<Seq<char>>) -> Seq<char> {
    match s {
        Some(t) => t,
        None => Seq::empty(),
    }
}

/// The row made from a title, a subtitle, an icon and an executable.
pub open spec fn entry_view_of(
    title: Option<Seq<char>>,
    subtitle: Option<Seq<char>>,
    icon_path: Option<Seq<char>>,
    exec_path: Option<Seq<char>>,
) -> EntryRowView {
    EntryRowView {
        label: text_or_empty(title),
        name: trimmed(text_or_empty(title)),
        subtitle: trimmed(text_or_empty(subtitle)),
        icon_path: icon_path,
        exec_path: text_or_empty(exec_path),
    }
}

impl View for EntryRow {
    type V = EntryRowView;

    closed spec fn view(&self) -> EntryRowView {
        EntryRowView {
            label: self.label@,
            name: self.name@,
            subtitle: self.subtitle@,
            icon_path: match self.icon_path {
                Some(p) => Some(p@),
                None => None,
            },
            exec_path: self.exec_path@,
        }
    }
}

/// The text of an optional string.
pub open spec fn opt_view(s: Option<&str>) -> Option<Seq<char>> {
    match s {
        Some(t) => Some(t@),
        None => None,
    }
}

fn owned_or_empty(s: Option<&str>) -> (r: String)
    ensures
        r@ == text_or_empty(opt_view(s)),
{
    match s {
        Some(t) => to_owned_string(t),
        None => String::new(),
    }
}

impl EntryRow {
    /// The row for a shortcut called `title`, stored at `subtitle`, with an
    /// icon and an executable.
    pub fn new(
        title: Option<&str>,
        subtitle: Option<&str>,
        icon_path: Option<&str>,
        exec_path: Option<&str>,
    ) -> (e: EntryRow)
        ensures
            e@ == entry_view_of(opt_view(title), opt_view(subtitle), opt_view(icon_path), opt_view(exec_path)),
    {
        let label = owned_or_empty(title);
        let name = trim(label.as_str());
        let sub = owned_or_empty(subtitle);
        let subtitle_text = trim(sub.as_str());
        let icon = match icon_path {
            Some(p) => Some(to_owned_string(p)),
            None => None,
        };
        let exec = owned_or_empty(exec_path);
        EntryRow { label, name, subtitle: subtitle_text, icon_path: icon, exec_path: exec }
    }

    /// The row's label (the title as given).
    pub fn get_name(&self) -> (r: String)
        ensures
            r@ == self@.label,
    {
        to_owned_string(self.label.as_str())
    }

    /// The icon setting the row's image is chosen from.
    pub fn icon_path(&self) -> (r: Option<&str>)
        ensures
            opt_view(r) == self@.icon_path,
    {
        match &self.icon_path {
            Some(p) => Some(p.as_str()),
            None => None,
        }
    }

    /// The subtitle's markup: the trimmed subtitle in a `<small>` element.
    pub fn subtitle_markup(&self) -> (r: String)
        ensures
            r@ == "<small>"@ + self@.subtitle + "</small>"@,
    {
        let mut r = to_owned_string("<small>");
        push_str(&mut r, self.subtitle.as_str());
        push_str(&mut r, "</small>");
        r
    }

    /// The subtitle's tooltip: the trimmed subtitle.
    pub fn tooltip(&self) -> (r: String)
        ensures
            r@ == self@.subtitle,
    {
        to_owned_string(self.subtitle.as_str())
    }

    /// What the delete button acts on: the stored file's path and the shortcut's name.
    pub fn delete_target(&self) -> (r: (String, String))
        ensures
            r.0@ == self@.subtitle,
            r.1@ == self@.name,
    {
        (to_owned_string(self.subtitle.as_str()), to_owned_string(self.name.as_str()))
    }

    /// What the edit button acts on: the shortcut's name, its icon (empty when
    /// none) and its executable.
    pub fn edit_target(&self) -> (r: (String, String, String))
        ensures
            r.0@ == self@.name,
            r.1@ == text_or_empty(self@.icon_path),
            r.2@ == self@.exec_path,
    {
        let icon = match &self.icon_path {
            Some(p) => to_owned_string(p.as_str()),
            None => String::new(),
        };
        (to_owned_string(self.name.as_str()), icon, to_owned_string(self.exec_path.as_str()))
    }
}

} // verus!
