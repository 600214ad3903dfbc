//! The list of stored shortcuts: which rows it holds, which of them a search
//! shows, and what the page says when none is shown.
use vstd::prelude::*;

use crate::entry::{EntryRow, EntryRowView};
use crate::entry_file::{file_entry, file_row, DirFile};
use crate::text::{ascii_lowered, ascii_text, contains, contains_seq, lowercase, push_str, same_text, to_lowercase, to_owned_string};

verus! {

/// What the list page holds and shows.
pub struct ManageView {
    /// The rows, in listing order.
    pub rows: Seq<EntryRowView>,
    /// Whether each row is shown.
    pub visible: Seq<bool>,
    /// The text of the search field.
    pub filter_text: Seq<char>,
    /// The status page's description.
    pub status_description: Seq<char>,
    /// Whether the list is shown.
    pub list_visible: bool,
    /// Whether the status page is shown.
    pub status_visible: bool,
}

/// The list page of stored shortcuts.
pub struct Manage {
    rows: Vec<EntryRow>,
    visible: Vec<bool>,
    filter_text: String,
    status_description: String,
    list_visible: bool,
    status_visible: bool,
}

impl View for Manage {
    type V = ManageView;

    closed spec fn view(&self) -> ManageView {
        ManageView {
            rows: self.rows@.map_values(|r: EntryRow| r@),
            visible: self.visible@,
            filter_text: self.filter_text@,
            status_description: self.status_description@,
            list_visible: self.list_visible,
            status_visible: self.status_visible,
        }
    }
}

/// Whether a search for the lowercased text `needle` shows a row: the row's
/// lowercased label contains it.
pub open spec fn row_shows(row: EntryRowView, needle: Seq<char>) -> bool {
    contains_seq(lowercase(row.label), needle)
}

/// Whether a search for `criteria` shows a row: the row's label contains
/// the criteria, both lowercased.
pub open spec fn row_matches(row: EntryRowView, criteria: Seq<char>) -> bool {
    row_shows(row, lowercase(criteria))
}

/// The status description when no shortcut is stored.
pub open spec fn no_shortcuts_text() -> Seq<char> {
    "You have not created any shortcuts"@
}

/// The status description when a search shows no stored shortcut.
pub open spec fn no_match_text() -> Seq<char> {
    "Try a different search term."@
}

/// The page after a search for `criteria`: with no rows, the status page
/// says that no shortcut is stored; otherwise exactly the matching rows are
/// shown, and the status page (asking for another search term) is shown
/// instead of the list when none matches.
pub open spec fn filtered(v: ManageView, criteria: Seq<char>) -> ManageView {
    searched(v, lowercase(criteria))
}

/// The page after a search for the lowercased text `needle` (see `filtered`).
pub open spec fn searched(v: ManageView, needle: Seq<char>) -> ManageView {
    if v.rows.len() == 0 {
        ManageView {
            status_description: no_shortcuts_text(),
            list_visible: false,
            status_visible: true,
            ..v
        }
    } else {
        let shown = Seq::new(v.rows.len(), |i: int| row_shows(v.rows[i], needle));
        let any = exists|i: int| 0 <= i < shown.len() && shown[i];
        ManageView {
            visible: shown,
            status_description: no_match_text(),
            list_visible: any,
            status_visible: !any,
            ..v
        }
    }
}

/// The rows listing the directory's files, in order.
pub open spec fn listed_rows(files: Seq<DirFile>, all: bool) -> Seq<EntryRowView>
    decreases files.len(),
{
    if files.len() == 0 {
        Seq::empty()
    } else {
        let earlier = listed_rows(files.drop_last(), all);
        match file_row(files.last(), all) {
            Some(r) => earlier.push(r),
            None => earlier,
        }
    }
}

/// The page after its search field is set to `text`: the field changes, and
/// a search runs when the text differs from the field's.
pub open spec fn with_filter_text(v: ManageView, text: Seq<char>) -> ManageView {
    if v.filter_text == text {
        v
    } else {
        filtered(ManageView { filter_text: text, ..v }, text)
    }
}

/// The page after loading: the search field is cleared; the rows are those
/// listing the directory's files when the directory could be read (and a
/// search for the empty text then runs), and none otherwise.
pub open spec fn loaded(v: ManageView, listing: Option<Seq<DirFile>>, all: bool) -> ManageView {
    let cleared = with_filter_text(v, Seq::empty());
    match listing {
        None => ManageView { rows: Seq::empty(), visible: Seq::empty(), ..cleared },
        Some(files) => filtered(
            ManageView { rows: listed_rows(files, all), visible: Seq::empty(), ..cleared },
            Seq::empty(),
        ),
    }
}

impl Manage {
    /// An empty page: no rows, an empty search field and status description,
    /// the list shown and the status page hidden.
    pub fn new() -> (m: Manage)
        ensures
            m@.rows.len() == 0,
            m@.visible.len() == 0,
            m@.filter_text.len() == 0,
            m@.status_description.len() == 0,
            m@.list_visible,
            !m@.status_visible,
    {
        let m = Manage {
            rows: Vec::new(),
            visible: Vec::new(),
            filter_text: String::new(),
            status_description: String::new(),
            list_visible: true,
            status_visible: false,
        };
        assert(m@.rows.len() == 0);
        m
    }

    /// The rows.
    pub fn rows(&self) -> (r: &Vec<EntryRow>)
        ensures
            r@.map_values(|e: EntryRow| e@) == self@.rows,
    {
        &self.rows
    }

    /// Whether each row is shown.
    pub fn visible(&self) -> (r: &Vec<bool>)
        ensures
            r@ == self@.visible,
    {
        &self.visible
    }

    /// The search field's text.
    pub fn filter_text(&self) -> (r: &str)
        ensures
            r@ == self@.filter_text,
    {
        self.filter_text.as_str()
    }

    /// The status page's description.
    pub fn status_description(&self) -> (r: &str)
        ensures
            r@ == self@.status_description,
    {
        self.status_description.as_str()
    }

    /// Whether the list is shown.
    pub fn list_visible(&self) -> (r: bool)
        ensures
            r == self@.list_visible,
    {
        self.list_visible
    }

    /// Whether the status page is shown.
    pub fn status_visible(&self) -> (r: bool)
        ensures
            r == self@.status_visible,
    {
        self.status_visible
    }

    /// Runs a search for `criteria` (see `filtered`); an empty search shows
    /// every row, and an ASCII search is lowercased letter by letter.
    pub fn filter(&mut self, criteria: &str)
        ensures
            final(self)@ == filtered(old(self)@, criteria@),
            ascii_text(criteria@) ==> final(self)@ == searched(old(self)@, ascii_lowered(criteria@)),
            criteria@.len() == 0 && old(self)@.rows.len() > 0 ==> {
                &&& forall|i: int| 0 <= i < final(self)@.rows.len() ==> #[trigger] final(self)@.visible[i]
                &&& final(self)@.list_visible
                &&& !final(self)@.status_visible
            },
    {
        let ghost before = self@;
        if self.rows.len() == 0 {
            self.status_description = to_owned_string("You have not created any shortcuts");
            self.list_visible = false;
            self.status_visible = true;
            return;
        }
        let wanted = to_lowercase(criteria);
        let mut shown: Vec<bool> = Vec::new();
        let mut any = false;
        let mut i: usize = 0;
        while i < self.rows.len()
            invariant
                i <= self.rows.len(),
                self@ == before,
                wanted@ == lowercase(criteria@),
                shown@.len() == i,
                forall|k: int| 0 <= k < i ==> shown@[k] == row_matches(before.rows[k], criteria@),
                any == (exists|k: int| 0 <= k < i && shown@[k]),
            decreases self.rows.len() - i,
        {
            let label = self.rows[i].get_name();
            let lowered = to_lowercase(label.as_str());
            let m = contains(lowered.as_str(), wanted.as_str());
            assert(before.rows[i as int] == self.rows@[i as int]@);
            let ghost any_before = any;
            let ghost shown_before = shown@;
            shown.push(m);
            if m {
                any = true;
            }
            proof {
                if m {
                    assert(shown@[i as int]);
                } else {
                    assert((exists|k: int| 0 <= k < i + 1 && shown@[k]) ==> any_before) by {
                        if exists|k: int| 0 <= k < i + 1 && shown@[k] {
                            let k = choose|k: int| 0 <= k < i + 1 && shown@[k];
                            assert(k < i);
                        }
                    }
                    assert(any_before ==> (exists|k: int| 0 <= k < i + 1 && shown@[k])) by {
                        if any_before {
                            let k = choose|k: int| 0 <= k < i && shown_before[k];
                            assert(shown@[k] == shown_before[k]);
                            assert(0 <= k < i + 1 && shown@[k]);
                        }
                    }
                }
            }
            i = i + 1;
        }
        self.visible = shown;
        self.status_description = to_owned_string("Try a different search term.");
        self.list_visible = any;
        self.status_visible = !any;
        let ghost target = filtered(before, criteria@);
        assert(self@.visible =~= target.visible);
        proof {
            if criteria@.len() == 0 {
                assert(lowercase(criteria@).len() == 0);
                assert forall|k: int| 0 <= k < before.rows.len() implies #[trigger] target.visible[k] by {
                    let hay = lowercase(before.rows[k].label);
                    assert(hay.subrange(0, 0 + lowercase(criteria@).len() as int) =~= lowercase(criteria@));
                    assert(row_matches(before.rows[k], criteria@));
                }
                assert(target.visible[0]);
            }
        }
    }

    /// Sets the search field's text, searching when it changes (see `with_filter_text`).
    pub fn set_filter_text(&mut self, text: &str)
        ensures
            final(self)@ == with_filter_text(old(self)@, text@),
    {
        if same_text(self.filter_text.as_str(), text) {
            return;
        }
        self.filter_text = to_owned_string(text);
        self.filter(text);
    }

    /// Reloads the list from the applications directory's files (`None` when
    /// the directory could not be read), listing every entry file when `all`
    /// is set and only the shortcuts made here otherwise (see `loaded`).
    pub fn load(&mut self, listing: Option<Vec<DirFile>>, all: bool)
        ensures
            final(self)@ == loaded(old(self)@, match listing {
                Some(files) => Some(files@),
                None => None,
            }, all),
            final(self)@.filter_text.len() == 0,
            final(self)@.visible.len() == final(self)@.rows.len(),
            forall|i: int| 0 <= i < final(self)@.rows.len() ==> #[trigger] final(self)@.visible[i],
            listing is Some ==> final(self)@.list_visible == (final(self)@.rows.len() > 0),
    {
        proof {
            reveal_strlit("");
            assert(""@ =~= Seq::<char>::empty());
        }
        self.set_filter_text("");
        let ghost cleared = self@;
        match listing {
            None => {
                self.rows = Vec::new();
                self.visible = Vec::new();
                assert(self@.rows =~= Seq::<EntryRowView>::empty());
                assert(self@ == ManageView { rows: Seq::empty(), visible: Seq::empty(), ..cleared });
            },
            Some(files) => {
                let mut rows: Vec<EntryRow> = Vec::new();
                let mut hidden: Vec<bool> = Vec::new();
                let mut i: usize = 0;
                while i < files.len()
                    invariant
                        i <= files.len(),
                        rows.len() == hidden.len(),
                        forall|k: int| 0 <= k < hidden.len() ==> !hidden@[k],
                        rows@.map_values(|e: EntryRow| e@) == listed_rows(files@.take(i as int), all),
                    decreases files.len() - i,
                {
                    let row = file_entry(&files[i], all);
                    proof {
                        assert(files@.take(i + 1).drop_last() =~= files@.take(i as int));
                    }
                    match row {
                        Some(r) => {
                            rows.push(r);
                            hidden.push(false);
                        },
                        None => {},
                    }
                    proof {
                        assert(rows@.map_values(|e: EntryRow| e@) =~= listed_rows(files@.take(i + 1), all));
                    }
                    i = i + 1;
                }
                assert(files@.take(files.len() as int) =~= files@);
                let ghost listed = listed_rows(files@, all);
                if rows.len() == 0 {
                    self.rows = rows;
                    self.visible = hidden;
                    assert(self@.visible =~= Seq::<bool>::empty());
                    assert(self@.rows =~= listed);
                } else {
                    self.rows = rows;
                    self.visible = hidden;
                }
                let ghost mid = self@;
                self.filter("");
                proof {
                    let spec_mid = ManageView { rows: listed, visible: Seq::empty(), ..cleared };
                    assert(mid.rows =~= listed);
                    assert(filtered(mid, Seq::empty()) =~~= filtered(spec_mid, Seq::empty()));
                }
            },
        }
    }
}

/// The body of the dialog that confirms deleting the shortcut called `name`.
pub fn delete_prompt(name: &str) -> (r: String)
    ensures
        r@ == "Are you sure you want to delete the '"@ + name@ + "' shortcut?"@,
{
    let mut r = to_owned_string("Are you sure you want to delete the '");
    push_str(&mut r, name);
    push_str(&mut r, "' shortcut?");
    r
}

/// The toast shown when a shortcut's file could not be deleted.
pub fn delete_failed_message() -> (r: &'static str)
    ensures
        r@ == "Could not delete the shortcut"@,
{
    "Could not delete the shortcut"
}

/// Whether the confirmation dialog's response asks for the deletion.
pub fn confirms_delete(response: &str) -> (r: bool)
    ensures
        r == (response@ == "delete"@),
{
    same_text(response, "delete")
}

} // verus!
