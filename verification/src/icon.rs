//! Which image an icon setting shows, decided from the setting and what the
//! file system and the icon theme report about it.
use vstd::prelude::*;

use crate::text::{starts_with_char, to_owned_string};

verus! {

/// What an image shows.
#[derive(Debug, PartialEq, Eq)]
pub enum IconSource {
    /// The image file at this absolute path.
    File(String),
    /// The themed icon with this name.
    Themed(String),
    /// The generic executable icon.
    Placeholder,
}

/// Why no image could be chosen.
#[derive(Debug, PartialEq, Eq, Structural, Clone, Copy)]
pub enum IconError {
    /// The absolute path names no existing file.
    NotFound,
    /// The relative name is no icon of the current theme.
    NotThemed,
    /// No icon was given.
    Missing,
}

/// What the file system and the icon theme report about an icon setting.
#[derive(Debug, Clone, Copy)]
pub struct IconProbe {
    /// Whether a file exists at the path.
    pub file_exists: bool,
    /// Whether the current icon theme has an icon of that name.
    pub theme_has_icon: bool,
}

/// The icon shown instead of a missing one.
pub fn placeholder_icon_name() -> (r: &'static str)
    ensures
        r@ == "application-x-executable"@,
{
    "application-x-executable"
}

impl IconError {
    /// The message that reports the error.
    pub fn message(&self) -> (r: &'static str)
        ensures
            *self == IconError::NotFound ==> r@ == "No icon found at given path"@,
            *self == IconError::NotThemed ==> r@ == "The relative path does not point to any icon"@,
            *self == IconError::Missing ==> r@ == "Given path is 'None'"@,
    {
        match self {
            IconError::NotFound => "No icon found at given path",
            IconError::NotThemed => "The relative path does not point to any icon",
            IconError::Missing => "Given path is 'None'",
        }
    }
}

/// Whether a path is absolute on Unix, that is, begins with `/`.
pub open spec fn is_absolute_path(path: Seq<char>) -> bool {
    path.len() > 0 && path[0] == '/'
}

/// Whether `path` is absolute (begins with `/`).
pub fn is_absolute(path: &str) -> (r: bool)
    ensures
        r == is_absolute_path(path@),
{
    starts_with_char(path, '/')
}

/// The image chosen for an icon setting, or why none is.
///
/// An absolute path shows its file if the file exists; a relative one names a
/// themed icon, shown if the theme has it. A missing icon, or a missing file
/// at an absolute path, falls back to the placeholder when `use_placeholder`
/// is set, and is an error otherwise. `probe` describes `icon_path`.
pub fn set_icon(icon_path: Option<&str>, use_placeholder: bool, probe: IconProbe) -> (r: Result<
    IconSource,
    IconError,
>)
    ensures
        match icon_path {
            Some(p) => if is_absolute_path(p@) {
                if probe.file_exists {
                    r matches Ok(IconSource::File(f)) && f@ == p@
                } else if use_placeholder {
                    r matches Ok(IconSource::Placeholder)
                } else {
                    r == Err::<IconSource, IconError>(IconError::NotFound)
                }
            } else if probe.theme_has_icon {
                r matches Ok(IconSource::Themed(n)) && n@ == p@
            } else {
                r == Err::<IconSource, IconError>(IconError::NotThemed)
            },
            None => if use_placeholder {
                r matches Ok(IconSource::Placeholder)
            } else {
                r == Err::<IconSource, IconError>(IconError::Missing)
            },
        },
{
    match icon_path {
        Some(p) => {
            if is_absolute(p) {
                if probe.file_exists {
                    Ok(IconSource::File(to_owned_string(p)))
                } else if use_placeholder {
                    Ok(IconSource::Placeholder)
                } else {
                    Err(IconError::NotFound)
                }
            } else if probe.theme_has_icon {
                Ok(IconSource::Themed(to_owned_string(p)))
            } else {
                Err(IconError::NotThemed)
            }
        },
        None => {
            if use_placeholder {
                Ok(IconSource::Placeholder)
            } else {
                Err(IconError::Missing)
            }
        },
    }
}

} // verus!
