//! Moving between the app's pages, and the toast that reports problems.
use vstd::prelude::*;

use crate::text::to_owned_string;

verus! {

/// The pages the viewport shows.
#[derive(Debug, Clone, Copy, PartialEq, Eq, Structural)]
pub enum Page {
    Landing,
    QuickMode,
    Completed,
    Manage,
}

/// What a page asks the viewport to do.
pub enum Action {
    /// Go to the landing page, animated when set.
    Landing(bool),
    /// Go to the page before the current one.
    Back,
    /// Open the form, loading these details (name, icon, executable).
    QuickFlow(Option<String>, Option<String>, Option<String>),
    /// Go to the page that confirms a saved shortcut.
    Completed,
    /// Go to the shortcut list.
    Manage,
    /// Show this message in the toast.
    ShowToast(String),
}

/// Which page the viewport moves to.
#[derive(Debug, Clone, Copy, PartialEq, Eq, Structural)]
pub enum Target {
    /// The page at this position.
    At(u32),
    /// This page.
    Page(Page),
}

/// How the viewport moves to a page: every page is made insensitive, then
/// the target is made sensitive, optionally moved right after the current
/// position, and scrolled to.
pub struct Move {
    pub target: Target,
    /// The position the target page is first moved to.
    pub reorder_to: Option<u32>,
    /// Whether scrolling is animated.
    pub animate: bool,
    /// The details loaded into the form before scrolling to it.
    pub form_details: Option<(Option<String>, Option<String>, Option<String>)>,
    /// Whether the list is reloaded (of the app's own shortcuts) after scrolling to it.
    pub reload_list: bool,
}

/// What the viewport does for an action, after hiding the toast.
pub enum Step {
    Go(Move),
    /// The toast shows its new message.
    Toast,
}

/// The toast's state.
pub struct ViewportView {
    /// When the toast last shown was shown (its token).
    pub current_toast: i64,
    /// Whether the toast is revealed.
    pub toast_visible: bool,
    /// The toast's message.
    pub toast_text: Seq<char>,
}

/// The viewport's toast.
pub struct Viewport {
    current_toast: i64,
    toast_visible: bool,
    toast_text: String,
}

impl View for Viewport {
    type V = ViewportView;

    closed spec fn view(&self) -> ViewportView {
        ViewportView {
            current_toast: self.current_toast,
            toast_visible: self.toast_visible,
            toast_text: self.toast_text@,
        }
    }
}

/// The toast after showing `text` at time `now`: `now` becomes its token.
pub open spec fn toast_shown(v: ViewportView, text: Seq<char>, now: i64) -> ViewportView {
    ViewportView { current_toast: now, toast_visible: true, toast_text: text }
}

/// The toast after the timer of the toast shown at `token` runs out: it is
/// hidden only if no other toast was shown since.
pub open spec fn toast_timed_out(v: ViewportView, token: i64) -> ViewportView {
    if token == v.current_toast {
        ViewportView { toast_visible: false, ..v }
    } else {
        v
    }
}

impl Viewport {
    /// No toast shown yet.
    pub fn new() -> (v: Viewport)
        ensures
            v@.current_toast == 0,
            !v@.toast_visible,
            v@.toast_text.len() == 0,
    {
        Viewport { current_toast: 0, toast_visible: false, toast_text: String::new() }
    }

    /// Whether the toast is revealed.
    pub fn toast_visible(&self) -> (r: bool)
        ensures
            r == self@.toast_visible,
    {
        self.toast_visible
    }

    /// The toast's message.
    pub fn toast_text(&self) -> (r: &str)
        ensures
            r@ == self@.toast_text,
    {
        self.toast_text.as_str()
    }

    /// The toast's close button was pressed.
    pub fn close_toast(&mut self)
        ensures
            final(self)@ == (ViewportView { toast_visible: false, ..old(self)@ }),
    {
        self.toast_visible = false;
    }

    /// Handles an action at carousel position `position` and time `now`. The
    /// toast is hidden first; a toast action then shows its message with `now`
    /// as token; any other action is a move: `Back` to the page before the
    /// current one, `Landing` to the landing page, the others to their page
    /// moved right after the current position, the form receiving the given
    /// details and the list being reloaded.
    pub fn handle(&mut self, action: Action, position: u32, now: i64) -> (r: Step)
        requires
            action is Back ==> position >= 1,
            action is QuickFlow || action is Completed || action is Manage ==> position < u32::MAX,
        ensures
            match action {
                Action::ShowToast(text) => {
                    &&& r is Toast
                    &&& final(self)@ == toast_shown(old(self)@, text@, now)
                },
                _ => {
                    &&& final(self)@ == (ViewportView { toast_visible: false, ..old(self)@ })
                    &&& r matches Step::Go(m)
                    &&& match action {
                        Action::Back => m.target == Target::At((position - 1) as u32) && m.reorder_to is None
                            && m.animate && m.form_details is None && !m.reload_list,
                        Action::Landing(scroll) => m.target == Target::Page(Page::Landing) && m.reorder_to is None
                            && m.animate == scroll && m.form_details is None && !m.reload_list,
                        Action::QuickFlow(n, i, e) => m.target == Target::Page(Page::QuickMode)
                            && m.reorder_to == Some((position + 1) as u32) && m.animate
                            && m.form_details == Some((n, i, e)) && !m.reload_list,
                        Action::Completed => m.target == Target::Page(Page::Completed)
                            && m.reorder_to == Some((position + 1) as u32) && m.animate
                            && m.form_details is None && !m.reload_list,
                        Action::Manage => m.target == Target::Page(Page::Manage)
                            && m.reorder_to == Some((position + 1) as u32) && m.animate
                            && m.form_details is None && m.reload_list,
                        Action::ShowToast(_) => false,
                    }
                },
            },
    {
        self.toast_visible = false;
        match action {
            Action::Back => Step::Go(
                Move {
                    target: Target::At(position - 1),
                    reorder_to: None,
                    animate: true,
                    form_details: None,
                    reload_list: false,
                },
            ),
            Action::Landing(scroll) => Step::Go(
                Move {
                    target: Target::Page(Page::Landing),
                    reorder_to: None,
                    animate: scroll,
                    form_details: None,
                    reload_list: false,
                },
            ),
            Action::QuickFlow(name, icon_path, exec_path) => Step::Go(
                Move {
                    target: Target::Page(Page::QuickMode),
                    reorder_to: Some(position + 1),
                    animate: true,
                    form_details: Some((name, icon_path, exec_path)),
                    reload_list: false,
                },
            ),
            Action::Completed => Step::Go(
                Move {
                    target: Target::Page(Page::Completed),
                    reorder_to: Some(position + 1),
                    animate: true,
                    form_details: None,
                    reload_list: false,
                },
            ),
            Action::Manage => Step::Go(
                Move {
                    target: Target::Page(Page::Manage),
                    reorder_to: Some(position + 1),
                    animate: true,
                    form_details: None,
                    reload_list: true,
                },
            ),
            Action::ShowToast(text) => {
                self.current_toast = now;
                self.toast_text = to_owned_string(text.as_str());
                self.toast_visible = true;
                Step::Toast
            },
        }
    }

    /// The timer of the toast shown at `token` ran out (see `toast_timed_out`).
    pub fn toast_timeout(&mut self, token: i64)
        ensures
            final(self)@ == toast_timed_out(old(self)@, token),
    {
        if token == self.current_toast {
            self.toast_visible = false;
        }
    }
}

/// The app's colour scheme.
#[derive(Debug, Clone, Copy, PartialEq, Eq, Structural)]
pub enum ColorScheme {
    /// Follow the system.
    Default,
    ForceDark,
    ForceLight,
}

/// The colour scheme a stored setting selects: 1 is dark, 2 is light, any
/// other value follows the system.
pub fn color_scheme_for(setting: u32) -> (r: ColorScheme)
    ensures
        setting == 1 ==> r == ColorScheme::ForceDark,
        setting == 2 ==> r == ColorScheme::ForceLight,
        setting != 1 && setting != 2 ==> r == ColorScheme::Default,
{
    match setting {
        1 => ColorScheme::ForceDark,
        2 => ColorScheme::ForceLight,
        _ => ColorScheme::Default,
    }
}

} // verus!
