//! Reading a stored desktop entry file: which directory entries are entry
//! files, and which of them are listed as shortcuts.
use vstd::prelude::*;
use vstd::utf8::encode_utf8;

use freedesktop_entry_parser::{Entry as ParsedEntry, ParseError};

use crate::desktop::output_text;
use crate::entry::{entry_view_of, EntryRow, EntryRowView};
use crate::text::{chars_of, same_text, string_of_range};

verus! {

#[verifier::external_type_specification]
#[verifier::external_body]
pub struct ExParsedEntry(freedesktop_entry_parser::Entry);

#[verifier::external_type_specification]
#[verifier::external_body]
pub struct ExParseError(freedesktop_entry_parser::ParseError);

/// The attributes a parsed entry holds: the value without parameter of each
/// attribute, keyed by section name and attribute name.
pub uninterp spec fn entry_attributes(entry: ParsedEntry) -> Map<(Seq<char>, Seq<char>), Seq<char>>;

/// The attributes that parsing these bytes as an entry file yields, or `None`
/// when the bytes do not parse.
pub uninterp spec fn parsed_attributes(bytes: Seq<u8>) -> Option<Map<(Seq<char>, Seq<char>), Seq<char>>>;

/// Whether a text holds no line break.
pub open spec fn newline_free(s: Seq<char>) -> bool {
    !s.contains('\n')
}

/// The attributes of the text `output_text` writes: its four keys in the
/// `Desktop Entry` section.
pub open spec fn written_attributes(
    entry_type: Seq<char>,
    name: Seq<char>,
    executable: Seq<char>,
    icon: Seq<char>,
) -> Map<(Seq<char>, Seq<char>), Seq<char>> {
    map![
        ("Desktop Entry"@, "Type"@) => entry_type,
        ("Desktop Entry"@, "Name"@) => name,
        ("Desktop Entry"@, "Exec"@) => executable,
        ("Desktop Entry"@, "Icon"@) => icon,
    ]
}

/// Whether bytes are the UTF-8 text `output_text` writes for fields free of
/// line breaks.
pub open spec fn is_written_text(bytes: Seq<u8>) -> bool {
    exists|t: Seq<char>, n: Seq<char>, x: Seq<char>, i: Seq<char>|
        newline_free(t) && newline_free(n) && newline_free(x) && newline_free(i) && bytes
            == #[trigger] encode_utf8(output_text(t, n, x, i))
}

/// `freedesktop_entry_parser::Entry::parse` on a byte buffer. The contract says
/// that it succeeds exactly when the bytes parse, that the parsed entry holds
/// the attributes those bytes define, and, for the UTF-8 text `output_text`
/// writes with fields free of line breaks (a `[Desktop Entry]` header line,
/// then four `Key=value` lines), that parsing succeeds with exactly those four
/// attributes; it does not spell out the file grammar otherwise.
#[verifier::external_body]
fn parse_entry_bytes(bytes: &[u8]) -> (r: Result<ParsedEntry, ParseError>)
    ensures
        r is Ok <==> parsed_attributes(bytes@) is Some,
        r matches Ok(e) ==> parsed_attributes(bytes@) == Some(entry_attributes(e)),
        is_written_text(bytes@) ==> r is Ok,
        r matches Ok(e) ==> forall|t: Seq<char>, n: Seq<char>, x: Seq<char>, i: Seq<char>|
            newline_free(t) && newline_free(n) && newline_free(x) && newline_free(i) && bytes@
                == #[trigger] encode_utf8(output_text(t, n, x, i)) ==> entry_attributes(e)
                == written_attributes(t, n, x, i),
{
    ParsedEntry::parse(bytes.to_vec())
}

/// `AttrSelector::attr` of `freedesktop_entry_parser` on `entry.section(section)`:
/// the value without parameter of attribute `name` in that section, if the
/// entry holds one.
#[verifier::external_body]
fn entry_attr(entry: &ParsedEntry, section: &str, name: &str) -> (r: Option<String>)
    ensures
        r is Some <==> entry_attributes(*entry).contains_key((section@, name@)),
        r matches Some(v) ==> v@ == entry_attributes(*entry)[(section@, name@)],
{
    match entry.section(section).attr(name) {
        Some(v) => Some(v.to_string()),
        None => None,
    }
}

/// The index of the last `.` in `s`, or -1 when there is none.
pub open spec fn last_dot(s: Seq<char>) -> int
    decreases s.len(),
{
    if s.len() == 0 {
        -1
    } else if s.last() == '.' {
        s.len() - 1
    } else {
        last_dot(s.drop_last())
    }
}

/// The extension of a file name (a single path component): the text after
/// its last `.`; there is none when the name is empty or `..`, has no `.`,
/// or has its only `.` in front.
pub open spec fn extension_of(name: Seq<char>) -> Option<Seq<char>> {
    let k = last_dot(name);
    if name.len() == 0 || (name.len() == 2 && name[0] == '.' && name[1] == '.') || k <= 0 {
        None
    } else {
        Some(name.subrange(k + 1, name.len() as int))
    }
}

proof fn lemma_last_dot_unique(s: Seq<char>, k: int)
    requires
        -1 <= k < s.len(),
        k >= 0 ==> s[k] == '.',
        forall|i: int| k < i < s.len() ==> s[i] != '.',
    ensures
        last_dot(s) == k,
    decreases s.len(),
{
    if s.len() > 0 && s.last() != '.' {
        assert forall|i: int| k < i < s.drop_last().len() implies s.drop_last()[i] != '.' by {
            assert(s.drop_last()[i] == s[i]);
        }
        lemma_last_dot_unique(s.drop_last(), k);
    }
}

/// Whether a directory entry's file name has the extension `desktop`.
pub fn has_desktop_extension(file_name: &str) -> (r: bool)
    ensures
        r == (extension_of(file_name@) == Some("desktop"@)),
{
    let v = chars_of(file_name);
    let n = v.len();
    let mut k: usize = n;
    while k > 0 && v[k - 1] != '.'
        invariant
            k <= n == v.len(),
            forall|i: int| k <= i < n ==> v@[i] != '.',
        decreases k,
    {
        k = k - 1;
    }
    proof {
        lemma_last_dot_unique(v@, k - 1);
    }
    if n == 0 || (n == 2 && v[0] == '.' && v[1] == '.') || k <= 1 {
        return false;
    }
    let ext = string_of_range(&v, k, n);
    same_text(ext.as_str(), "desktop")
}

/// A file found in the applications directory, as the directory listing and
/// reading it report.
pub struct DirFile {
    /// The file's name.
    pub file_name: String,
    /// The file's full path, when it is valid UTF-8.
    pub path: Option<String>,
    /// The file's bytes, when they were read.
    pub contents: Option<Vec<u8>>,
}

/// The name of the section desktop entries keep their keys in.
pub open spec fn entry_section() -> Seq<char> {
    "Desktop Entry"@
}

/// An attribute of the `Desktop Entry` section.
pub open spec fn section_attr(attrs: Map<(Seq<char>, Seq<char>), Seq<char>>, name: Seq<char>) -> Option<
    Seq<char>,
> {
    if attrs.contains_key((entry_section(), name)) {
        Some(attrs[(entry_section(), name)])
    } else {
        None
    }
}

/// The row listing an entry with these attributes stored at `path`, if it is
/// listed: it is when its `Desktop Entry` section has the `X-Shortcut-App` key,
/// or when `all` entries are listed.
pub open spec fn listed_row(
    attrs: Map<(Seq<char>, Seq<char>), Seq<char>>,
    path: Option<Seq<char>>,
    all: bool,
) -> Option<EntryRowView> {
    if attrs.contains_key((entry_section(), "X-Shortcut-App"@)) || all {
        Some(
            entry_view_of(
                section_attr(attrs, "Name"@),
                path,
                section_attr(attrs, "Icon"@),
                section_attr(attrs, "Exec"@),
            ),
        )
    } else {
        None
    }
}

/// The text of an optional string.
pub open spec fn opt_string_view(s: Option<String>) -> Option<Seq<char>> {
    match s {
        Some(t) => Some(t@),
        None => None,
    }
}

/// The row listing a directory file, if it is listed: its name has the
/// `desktop` extension, it was read, its bytes parse, and `listed_row` lists it.
pub open spec fn file_row(file: DirFile, all: bool) -> Option<EntryRowView> {
    if extension_of(file.file_name@) == Some("desktop"@) {
        match file.contents {
            Some(bytes) => match parsed_attributes(bytes@) {
                Some(attrs) => listed_row(attrs, opt_string_view(file.path), all),
                None => None,
            },
            None => None,
        }
    } else {
        None
    }
}

fn opt_as_str(s: &Option<String>) -> (r: Option<&str>)
    ensures
        crate::entry::opt_view(r) == opt_string_view(*s),
{
    match s {
        Some(t) => Some(t.as_str()),
        None => None,
    }
}

/// The row listing a parsed entry stored at `path`, if it is listed.
pub fn listed_entry(entry: &ParsedEntry, path: Option<&str>, all: bool) -> (r: Option<EntryRow>)
    ensures
        match r {
            Some(e) => listed_row(entry_attributes(*entry), crate::entry::opt_view(path), all) == Some(e@),
            None => listed_row(entry_attributes(*entry), crate::entry::opt_view(path), all) is None,
        },
{
    let marker = entry_attr(entry, "Desktop Entry", "X-Shortcut-App");
    if marker.is_none() && !all {
        return None;
    }
    let name = entry_attr(entry, "Desktop Entry", "Name");
    let icon = entry_attr(entry, "Desktop Entry", "Icon");
    let exec = entry_attr(entry, "Desktop Entry", "Exec");
    let e = EntryRow::new(opt_as_str(&name), path, opt_as_str(&icon), opt_as_str(&exec));
    Some(e)
}

proof fn lemma_written_listed(
    t: Seq<char>,
    n: Seq<char>,
    x: Seq<char>,
    i: Seq<char>,
    path: Option<Seq<char>>,
    all: bool,
)
    ensures
        all ==> listed_row(written_attributes(t, n, x, i), path, all) == Some(
            entry_view_of(Some(n), path, Some(i), Some(x)),
        ),
        !all ==> listed_row(written_attributes(t, n, x, i), path, all) is None,
{
    reveal_strlit("Type");
    reveal_strlit("Name");
    reveal_strlit("Exec");
    reveal_strlit("Icon");
    reveal_strlit("X-Shortcut-App");
    let m = written_attributes(t, n, x, i);
    assert(("X-Shortcut-App"@).len() != ("Type"@).len());
    assert("Name"@ != "Exec"@) by {
        assert("Name"@[0] != "Exec"@[0]);
    }
    assert("Name"@ != "Icon"@) by {
        assert("Name"@[0] != "Icon"@[0]);
    }
    assert("Exec"@ != "Icon"@) by {
        assert("Exec"@[0] != "Icon"@[0]);
    }
    assert(!m.contains_key((entry_section(), "X-Shortcut-App"@)));
    assert(section_attr(m, "Name"@) == Some(n));
    assert(section_attr(m, "Icon"@) == Some(i));
    assert(section_attr(m, "Exec"@) == Some(x));
}

/// The row listing a directory file, if it is listed (see `file_row`).
///
/// An entry file holding the text `output_text` writes (fields free of line
/// breaks) is listed, with its name, icon and executable, exactly when every
/// entry file is: that text has no `X-Shortcut-App` key.
pub fn file_entry(file: &DirFile, all: bool) -> (r: Option<EntryRow>)
    ensures
        match r {
            Some(e) => file_row(*file, all) == Some(e@),
            None => file_row(*file, all) is None,
        },
        forall|t: Seq<char>, n: Seq<char>, x: Seq<char>, i: Seq<char>|
            newline_free(t) && newline_free(n) && newline_free(x) && newline_free(i)
                && extension_of(file.file_name@) == Some("desktop"@) && (file.contents matches Some(b)
                && b@ == #[trigger] encode_utf8(output_text(t, n, x, i))) ==> if all {
                r matches Some(e) && e@ == entry_view_of(Some(n), opt_string_view(file.path), Some(i), Some(x))
            } else {
                r is None
            },
{
    if !has_desktop_extension(file.file_name.as_str()) {
        return None;
    }
    match &file.contents {
        Some(bytes) => match parse_entry_bytes(bytes.as_slice()) {
            Ok(parsed) => {
                let r = listed_entry(&parsed, opt_as_str(&file.path), all);
                proof {
                    assert forall|t: Seq<char>, n: Seq<char>, x: Seq<char>, i: Seq<char>|
                        newline_free(t) && newline_free(n) && newline_free(x) && newline_free(i)
                            && bytes@ == #[trigger] encode_utf8(output_text(t, n, x, i)) implies if all {
                        r matches Some(e) && e@ == entry_view_of(Some(n), opt_string_view(file.path), Some(i), Some(x))
                    } else {
                        r is None
                    } by {
                        lemma_written_listed(t, n, x, i, opt_string_view(file.path), all);
                    }
                }
                r
            },
            Err(_) => None,
        },
        None => None,
    }
}

} // verus!
