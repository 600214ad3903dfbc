//! Properties that relate several operations of the library.
use vstd::prelude::*;

use crate::desktop::{applications_dir_of, file_name_of, file_stem_of, joined_path, output_text};
use crate::entry_file::{extension_of, file_row, last_dot, DirFile};
use crate::icon::is_absolute_path;
use crate::manage::{filtered, listed_rows, searched, ManageView};
use crate::quick_flow::{flow_exec_applied, flow_icon_applied, QuickFlowView};
use crate::quick_mode::{
    cleared, edited, exec_applied, icon_applied, path_input_error, saving_removes_old, PathProbe, PreviewView,
    QuickModeView,
};
use crate::text::{
    lowercase, ascii_lower_char, ascii_lowered, ascii_text, ascii_upper_char, ascii_uppered, lemma_first_index_after,
    lemma_line_then, line_free, split_once, text_lines,
};
use crate::viewport::{toast_shown, toast_timed_out, ViewportView};

verus! {

/// Only the timer of the toast shown last hides the toast: after two toasts,
/// the first one's timer leaves the toast shown unless both were shown at the
/// same time, and the second one's timer hides it.
pub proof fn law_latest_toast_wins(v: ViewportView, first: Seq<char>, second: Seq<char>, t1: i64, t2: i64)
    ensures
        toast_timed_out(toast_shown(toast_shown(v, first, t1), second, t2), t1).toast_visible == (t1 != t2),
        !toast_timed_out(toast_shown(toast_shown(v, first, t1), second, t2), t2).toast_visible,
{
}

/// A typed path is accepted exactly when it is not empty and, with
/// validation on, is absolute and names an existing regular file.
pub proof fn law_accepted_paths(text: Seq<char>, validate: bool, probe: PathProbe)
    ensures
        path_input_error(text, validate, probe) is None <==> (text.len() > 0 && (validate ==> (
        is_absolute_path(text) && probe.exists && probe.is_file))),
{
}

/// With validation off, only an empty path is refused, whatever the file
/// system reports.
pub proof fn law_unvalidated_paths(text: Seq<char>, probe: PathProbe)
    ensures
        path_input_error(text, false, probe) is None <==> text.len() > 0,
{
}

/// Emptying the form twice is emptying it once.
pub proof fn law_clear_idempotent(v: QuickModeView)
    ensures
        cleared(cleared(v)) == cleared(v),
{
}

/// Opening the form on a stored shortcut sets the name and the stored name
/// to the shortcut's name, so saving it without renaming removes no file.
pub proof fn law_opened_shortcut_is_not_removed(
    v: QuickModeView,
    name: Seq<char>,
    icon_path: Seq<char>,
    exec_path: Seq<char>,
)
    ensures
        edited(cleared(v), Some(name), Some(icon_path), Some(exec_path)).data.name == name,
        edited(cleared(v), Some(name), Some(icon_path), Some(exec_path)).old_name == name,
        !saving_removes_old(edited(cleared(v), Some(name), Some(icon_path), Some(exec_path))),
{
}

/// The file a shortcut is saved to is the file that renaming it later
/// removes: the saved path (the file name pushed onto the applications
/// directory) is the path written out from the name, unless the file name
/// itself is an absolute path.
pub proof fn law_rename_removes_saved_file(user: Seq<char>, name: Seq<char>)
    requires
        !is_absolute_path(file_name_of(name)),
    ensures
        joined_path(applications_dir_of(user), file_name_of(name)) == applications_dir_of(user) + "/"@
            + file_name_of(name),
{
    reveal_strlit("/.local/share/applications");
    reveal_strlit("/home/");
    let dir = applications_dir_of(user);
    assert(dir.last() == 's');
}

/// The file saving writes has the `desktop` extension, so the list reads it
/// back, unless its stem is empty.
pub proof fn law_saved_file_is_an_entry_file(name: Seq<char>)
    requires
        file_stem_of(name).len() > 0,
    ensures
        extension_of(file_name_of(name)) == Some("desktop"@),
{
    reveal_strlit(".desktop");
    reveal_strlit("desktop");
    let stem = file_stem_of(name);
    let f = file_name_of(name);
    let k = stem.len() as int;
    assert(f[k] == '.');
    assert(last_dot(f) == k) by {
        lemma_last_dot_is(f, k);
    }
    assert(f.subrange(k + 1, f.len() as int) =~= "desktop"@);
}

proof fn lemma_last_dot_is(s: Seq<char>, k: int)
    requires
        0 <= k < s.len(),
        s[k] == '.',
        forall|i: int| k < i < s.len() ==> s[i] != '.',
    ensures
        last_dot(s) == k,
    decreases s.len(),
{
    if s.last() != '.' {
        assert forall|i: int| k < i < s.drop_last().len() implies s.drop_last()[i] != '.' by {
            assert(s.drop_last()[i] == s[i]);
        }
        lemma_last_dot_is(s.drop_last(), k);
    }
}

/// A file without the `desktop` extension is never listed.
pub proof fn law_only_entry_files_listed(file: DirFile, all: bool)
    requires
        extension_of(file.file_name@) != Some("desktop"@),
    ensures
        file_row(file, all) is None,
{
}

/// Listing every entry file lists at least the shortcuts made here, each as
/// the same row.
pub proof fn law_listing_all_extends(file: DirFile)
    requires
        file_row(file, false) is Some,
    ensures
        file_row(file, true) == file_row(file, false),
{
}

/// Running the same search twice gives what running it once gives.
pub proof fn law_search_idempotent(v: ManageView, criteria: Seq<char>)
    ensures
        filtered(filtered(v, criteria), criteria) == filtered(v, criteria),
{
    let once = filtered(v, criteria);
    let twice = filtered(once, criteria);
    if v.rows.len() > 0 {
        assert(twice.visible =~= once.visible);
    }
}

/// A search ignores the case of ASCII letters: an ASCII search text and the
/// same text with its letters uppercased show the same rows and the same page.
pub proof fn law_search_ignores_ascii_case(v: ManageView, criteria: Seq<char>)
    requires
        ascii_text(criteria),
    ensures
        ascii_text(ascii_uppered(criteria)),
        searched(v, ascii_lowered(ascii_uppered(criteria))) == searched(v, ascii_lowered(criteria)),
{
    let up = ascii_uppered(criteria);
    assert forall|i: int| 0 <= i < up.len() implies (#[trigger] up[i] as u32) < 128 by {
        assert((criteria[i] as u32) < 128);
    }
    assert forall|i: int| 0 <= i < criteria.len() implies ascii_lower_char(ascii_upper_char(criteria[i]))
        == ascii_lower_char(criteria[i]) by {
        let c = criteria[i];
        let u = c as u32;
        if 97 <= u <= 122 {
            assert((((u - 32) as char) as u32) == u - 32);
            assert(((u as char) as u32) == u);
        }
    }
    assert(ascii_lowered(up) =~= ascii_lowered(criteria));
}

/// The text of an entry whose fields hold no line break reads as five lines:
/// the `[Desktop Entry]` header, then `Type`, `Name`, `Exec` and `Icon`, each
/// cut at its first `=` into the key and the field.
pub proof fn law_output_lines(
    entry_type: Seq<char>,
    name: Seq<char>,
    executable: Seq<char>,
    icon: Seq<char>,
)
    requires
        line_free(entry_type),
        line_free(name),
        line_free(executable),
        line_free(icon),
    ensures
        text_lines(output_text(entry_type, name, executable, icon)) == seq![
            "[Desktop Entry]"@,
            "Type="@ + entry_type,
            "Name="@ + name,
            "Exec="@ + executable,
            "Icon="@ + icon,
        ],
        split_once(text_lines(output_text(entry_type, name, executable, icon))[1], '=') == Some(
            ("Type"@, entry_type),
        ),
        split_once(text_lines(output_text(entry_type, name, executable, icon))[2], '=') == Some(
            ("Name"@, name),
        ),
        split_once(text_lines(output_text(entry_type, name, executable, icon))[3], '=') == Some(
            ("Exec"@, executable),
        ),
        split_once(text_lines(output_text(entry_type, name, executable, icon))[4], '=') == Some(
            ("Icon"@, icon),
        ),
{
    reveal_strlit("[Desktop Entry]\n");
    reveal_strlit("[Desktop Entry]");
    reveal_strlit("\n");
    reveal_strlit("Type=");
    reveal_strlit("Name=");
    reveal_strlit("Exec=");
    reveal_strlit("Icon=");
    let h = "[Desktop Entry]"@;
    let l1 = "Type="@ + entry_type;
    let l2 = "Name="@ + name;
    let l3 = "Exec="@ + executable;
    let l4 = "Icon="@ + icon;
    let nl = "\n"@;
    let empty = Seq::<char>::empty();
    assert(output_text(entry_type, name, executable, icon) =~= h + nl + (l1 + nl + (l2 + nl + (l3 + nl + (l4
        + nl + empty)))));
    reveal_strlit("Type");
    reveal_strlit("Name");
    reveal_strlit("Exec");
    reveal_strlit("Icon");
    reveal_strlit("=");
    assert("Type="@ =~= "Type"@ + "="@);
    assert("Name="@ =~= "Name"@ + "="@);
    assert("Exec="@ =~= "Exec"@ + "="@);
    assert("Icon="@ =~= "Icon"@ + "="@);
    lemma_key_line("Type"@, entry_type);
    lemma_key_line("Name"@, name);
    lemma_key_line("Exec"@, executable);
    lemma_key_line("Icon"@, icon);
    assert(line_free(h));
    lemma_line_then(l4, empty);
    lemma_line_then(l3, l4 + nl + empty);
    lemma_line_then(l2, l3 + nl + (l4 + nl + empty));
    lemma_line_then(l1, l2 + nl + (l3 + nl + (l4 + nl + empty)));
    lemma_line_then(h, l1 + nl + (l2 + nl + (l3 + nl + (l4 + nl + empty))));
    assert(text_lines(empty) =~= Seq::<Seq<char>>::empty());
    assert(text_lines(output_text(entry_type, name, executable, icon)) =~= seq![h, l1, l2, l3, l4]);
}

/// A line made of a four-letter key free of `=` and line breaks, `=`, and a
/// field free of line breaks is free of line breaks and cuts at that `=`.
proof fn lemma_key_line(key: Seq<char>, field: Seq<char>)
    requires
        key.len() == 4,
        forall|i: int| 0 <= i < 4 ==> key[i] != '=' && key[i] != '\n' && key[i] != '\r',
        line_free(field),
    ensures
        line_free(key + "="@ + field),
        split_once(key + "="@ + field, '=') == Some((key, field)),
{
    reveal_strlit("=");
    let line = key + "="@ + field;
    assert(line =~= key + seq!['='] + field);
    assert forall|i: int| 0 <= i < line.len() implies #[trigger] line[i] != '\n' && line[i] != '\r' by {
        if i >= 5 {
            assert(line[i] == field[i - 5]);
        }
    }
    lemma_first_index_after(key, '=', field);
    assert(line.take(4) =~= key);
    assert(line.skip(5) =~= field);
}

/// On the same directory, every row that listing the shortcuts made here
/// gives is also a row of listing every entry file.
pub proof fn law_own_listing_within_all(files: Seq<DirFile>)
    ensures
        forall|k: int| 0 <= k < listed_rows(files, false).len() ==> listed_rows(files, true).contains(
            #[trigger] listed_rows(files, false)[k],
        ),
    decreases files.len(),
{
    if files.len() > 0 {
        let before = files.drop_last();
        law_own_listing_within_all(before);
        let own = listed_rows(files, false);
        let all = listed_rows(files, true);
        let own_before = listed_rows(before, false);
        let all_before = listed_rows(before, true);
        assert forall|k: int| 0 <= k < own.len() implies all.contains(#[trigger] own[k]) by {
            if k < own_before.len() {
                assert(own[k] == own_before[k]);
                assert(all_before.contains(own_before[k]));
                let j = choose|j: int| 0 <= j < all_before.len() && all_before[j] == own_before[k];
                assert(all[j] == all_before[j]);
            } else {
                law_listing_all_extends(files.last());
                assert(all[all.len() - 1] == own[k]);
            }
        }
    }
}

/// A search shows row `i` exactly when the lowercased label of that row
/// contains the whole lowercased search text as a contiguous run; for an
/// ASCII search text, the text with its letters lowercased. The list is shown
/// exactly when some row is, the status page otherwise.
pub proof fn law_search_shows_containing_rows(v: ManageView, criteria: Seq<char>)
    requires
        v.rows.len() > 0,
    ensures
        filtered(v, criteria).visible.len() == v.rows.len(),
        forall|i: int|
            0 <= i < v.rows.len() ==> (#[trigger] filtered(v, criteria).visible[i] <==> exists|j: int|
                0 <= j && j + lowercase(criteria).len() <= lowercase(v.rows[i].label).len()
                    && #[trigger] lowercase(v.rows[i].label).subrange(j, j + lowercase(criteria).len())
                    == lowercase(criteria)),
        filtered(v, criteria).list_visible <==> exists|i: int|
            0 <= i < v.rows.len() && #[trigger] filtered(v, criteria).visible[i],
        filtered(v, criteria).status_visible == !filtered(v, criteria).list_visible,
        ascii_text(criteria) ==> searched(v, ascii_lowered(criteria)).visible.len() == v.rows.len(),
        ascii_text(criteria) ==> forall|i: int|
            0 <= i < v.rows.len() ==> (#[trigger] searched(v, ascii_lowered(criteria)).visible[i] <==> exists|
                j: int,
            |
                0 <= j && j + criteria.len() <= lowercase(v.rows[i].label).len()
                    && #[trigger] lowercase(v.rows[i].label).subrange(j, j + criteria.len())
                    == ascii_lowered(criteria)),
{
}

/// The file an entry called `name` is stored in is named by the lowercase of
/// the whole name with every space made a hyphen, followed by `.desktop`.
pub proof fn law_file_name_keeps_whole_name(name: Seq<char>)
    ensures
        file_name_of(name) == lowercase(
            Seq::new(name.len(), |i: int| if name[i] == ' ' { '-' } else { name[i] }),
        ) + ".desktop"@,
{
    assert(Seq::new(name.len(), |i: int| if name[i] == ' ' { '-' } else { name[i] }) =~= name.map_values(
        |c: char| if c == ' ' { '-' } else { c },
    ));
}

/// Applying the executable field of the form stores exactly the field's text
/// as the entry's executable whenever it is accepted, and clears the field's
/// mark; a refused text marks the field and leaves the entry as it was. The
/// icon field likewise stores its text as the entry's icon and the preview.
pub proof fn law_applied_field_is_stored(v: QuickModeView, probe: PathProbe)
    ensures
        path_input_error(v.exec_input, v.enable_validation, probe) is None ==> {
            &&& exec_applied(v, probe).data.executable == v.exec_input
            &&& exec_applied(v, probe).data.name == v.data.name
            &&& exec_applied(v, probe).data.icon == v.data.icon
            &&& !exec_applied(v, probe).exec_error
        },
        path_input_error(v.exec_input, v.enable_validation, probe) is Some ==> {
            &&& exec_applied(v, probe).data == v.data
            &&& exec_applied(v, probe).exec_error
        },
        path_input_error(v.icon_input, v.enable_validation, probe) is None ==> {
            &&& icon_applied(v, probe).data.icon == v.icon_input
            &&& icon_applied(v, probe).data.name == v.data.name
            &&& icon_applied(v, probe).data.executable == v.data.executable
            &&& icon_applied(v, probe).preview == PreviewView::File(v.icon_input)
            &&& !icon_applied(v, probe).icon_error
        },
        path_input_error(v.icon_input, v.enable_validation, probe) is Some ==> {
            &&& icon_applied(v, probe).data == v.data
            &&& icon_applied(v, probe).preview == v.preview
            &&& icon_applied(v, probe).icon_error
        },
        !v.enable_validation && v.exec_input.len() > 0 ==> exec_applied(v, probe).data.executable
            == v.exec_input,
        !v.enable_validation && v.icon_input.len() > 0 ==> icon_applied(v, probe).data.icon == v.icon_input,
{
}

/// In the single-page form, an accepted path is stored as the entry's
/// executable or icon; a refused one marks its field and changes no entry field.
pub proof fn law_flow_applied_field_is_stored(v: QuickFlowView, probe: PathProbe)
    ensures
        probe.exists && probe.is_file ==> {
            &&& flow_exec_applied(v, probe).data.executable == v.exec_input
            &&& !flow_exec_applied(v, probe).exec_error
            &&& flow_icon_applied(v, probe).data.icon == v.icon_input
            &&& flow_icon_applied(v, probe).preview == PreviewView::File(v.icon_input)
            &&& !flow_icon_applied(v, probe).icon_error
        },
        !(probe.exists && probe.is_file) ==> {
            &&& flow_exec_applied(v, probe).data == v.data
            &&& flow_exec_applied(v, probe).exec_error
            &&& flow_icon_applied(v, probe).data == v.data
            &&& flow_icon_applied(v, probe).icon_error
        },
{
}

/// Loading a shortcut's details puts a given name into the entry and the
/// stored name, and each given non-empty icon or executable path, whatever
/// its form, into its field unchanged; what is not given stays as it was, and
/// the entry's executable and icon change only when the fields are applied.
pub proof fn law_edit_fills_given_fields(
    v: QuickModeView,
    name: Option<Seq<char>>,
    icon_path: Option<Seq<char>>,
    exec_path: Option<Seq<char>>,
)
    ensures
        edited(v, name, icon_path, exec_path).data.name == (match name {
            Some(n) => n,
            None => v.data.name,
        }),
        edited(v, name, icon_path, exec_path).old_name == (match name {
            Some(n) => n,
            None => v.old_name,
        }),
        edited(v, name, icon_path, exec_path).icon_input == (match icon_path {
            Some(p) => if p.len() > 0 { p } else { v.icon_input },
            None => v.icon_input,
        }),
        edited(v, name, icon_path, exec_path).exec_input == (match exec_path {
            Some(p) => if p.len() > 0 { p } else { v.exec_input },
            None => v.exec_input,
        }),
        edited(v, name, icon_path, exec_path).data.executable == v.data.executable,
        edited(v, name, icon_path, exec_path).data.icon == v.data.icon,
        edited(v, name, icon_path, exec_path).preview == v.preview,
{
}

/// Clearing the form leaves the entry's name, executable and icon, the stored
/// name and both fields empty, both marks off and the placeholder preview,
/// whatever the form held; the entry's type and the validation setting stay.
pub proof fn law_clear_empties_the_form(v: QuickModeView)
    ensures
        cleared(v).data.name.len() == 0,
        cleared(v).data.executable.len() == 0,
        cleared(v).data.icon.len() == 0,
        cleared(v).old_name.len() == 0,
        cleared(v).exec_input.len() == 0,
        cleared(v).icon_input.len() == 0,
        !cleared(v).exec_error,
        !cleared(v).icon_error,
        cleared(v).preview == PreviewView::Placeholder,
        cleared(v).data.entry_type == v.data.entry_type,
        cleared(v).enable_validation == v.enable_validation,
{
}

} // verus!
