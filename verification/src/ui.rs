//! Widget identities, deferred UI actions and modal results.
use vstd::prelude::*;
use crate::input::Actions;
use crate::plugin::NavigationAction;

verus! {

/// Identifies one of the launcher's widgets.
#[derive(Copy, Clone, Debug, PartialEq, Eq, Structural, Hash)]
pub enum WidgetId {
    Background,
    PlatformList,
    AppList,
    SearchBar,
    Toolbar,
    InfoPane,
}

/// A widget that can receive focus.
pub trait FocusableWidget {
    fn get_id(&self) -> WidgetId;
}

/// A requested change of focus.
#[derive(Copy, Clone, Debug, PartialEq, Eq, Structural)]
pub enum FocusType {
    /// Give focus back to the previously focused widget.
    Revert,
    /// Focus the given widget.
    Focus(WidgetId),
}

/// Work that a widget asks the application to do once the widget has
/// finished handling an action.
#[derive(Copy, Clone, Debug, PartialEq, Eq, Structural)]
pub enum AppRequest {
    /// Start the selected game (subject to restricted mode).
    StartGame,
    /// Show the details of the selected emulator platform.
    PlatformInfo,
}

/// Changes requested while handling an action, applied afterwards by the
/// widget tree.
pub struct DeferredAction {
    pub focus: Option<FocusType>,
    pub load_plugin: Option<NavigationAction>,
    pub message: Option<String>,
    pub request: Option<AppRequest>,
}

impl DeferredAction {
    /// A deferred action that requests nothing.
    pub fn new() -> (d: DeferredAction)
        ensures
            d.focus is None,
            d.load_plugin is None,
            d.message is None,
            d.request is None,
    {
        DeferredAction { focus: None, load_plugin: None, message: None, request: None }
    }

    /// Requests focus for `widget`.
    pub fn focus_widget(&mut self, widget: WidgetId)
        ensures
            final(self).focus == Some(FocusType::Focus(widget)),
            final(self).load_plugin == old(self).load_plugin,
            final(self).message == old(self).message,
            final(self).request == old(self).request,
    {
        self.focus = Some(FocusType::Focus(widget));
    }

    /// Requests that focus return to the previously focused widget.
    pub fn revert_focus(&mut self)
        ensures
            final(self).focus == Some(FocusType::Revert),
            final(self).load_plugin == old(self).load_plugin,
            final(self).message == old(self).message,
            final(self).request == old(self).request,
    {
        self.focus = Some(FocusType::Revert);
    }

    /// Requests that the selected plugin loads items.
    pub fn load_plugin(&mut self, kind: NavigationAction)
        ensures
            final(self).load_plugin == Some(kind),
            final(self).focus == old(self).focus,
            final(self).message == old(self).message,
            final(self).request == old(self).request,
    {
        self.load_plugin = Some(kind);
    }

    /// Requests that `message` is shown to the user.
    pub fn display_message(&mut self, message: String)
        ensures
            final(self).message == Some(message),
            final(self).focus == old(self).focus,
            final(self).load_plugin == old(self).load_plugin,
            final(self).request == old(self).request,
    {
        self.message = Some(message);
    }

    /// Requests work from the application.
    pub fn request(&mut self, request: AppRequest)
        ensures
            final(self).request == Some(request),
            final(self).focus == old(self).focus,
            final(self).load_plugin == old(self).load_plugin,
            final(self).message == old(self).message,
    {
        self.request = Some(request);
    }
}

/// Which edge of its parent a child widget is placed against.
#[derive(Copy, Clone, Debug, PartialEq, Eq, Structural)]
pub enum ContainerAlignment {
    Left,
    Right,
    Top,
    Bottom,
}

/// The outcome of an action sent to a modal window.
#[derive(Copy, Clone, Debug, PartialEq, Eq, Structural)]
pub enum ModalResult {
    /// The modal stays open.
    Continue,
    /// The modal was confirmed and closes.
    Confirm,
    /// The modal was cancelled and closes.
    Cancel,
}

/// Whether a dialog that answered `result` is closed: a confirmation or a
/// cancellation closes it, and its close handler then runs with the answer.
pub fn dialog_closes(result: ModalResult) -> (closes: bool)
    ensures
        closes == (result == ModalResult::Confirm || result == ModalResult::Cancel),
{
    match result {
        ModalResult::Confirm | ModalResult::Cancel => true,
        ModalResult::Continue => false,
    }
}

/// The width of a modal relative to the window.
#[derive(Copy, Clone, Debug, PartialEq, Eq, Structural)]
pub enum ModalSize {
    Third,
    Half,
    Full,
}

/// The result of an action in a modal that handles no action itself.
pub open spec fn spec_default_modal_action(action: Actions) -> ModalResult {
    match action {
        Actions::Accept => ModalResult::Confirm,
        Actions::Back => ModalResult::Cancel,
        _ => ModalResult::Continue,
    }
}

/// Accept confirms a modal, back cancels it, anything else leaves it open.
pub fn default_modal_action(action: &Actions) -> (r: ModalResult)
    ensures
        r == spec_default_modal_action(*action),
{
    match action {
        Actions::Accept => ModalResult::Confirm,
        Actions::Back => ModalResult::Cancel,
        _ => ModalResult::Continue,
    }
}

} // verus!

verus! {

/// The history of focus once `widget` is given focus: it is added when
/// the tree holds it.
pub open spec fn spec_focus_stack(widgets: Seq<WidgetId>, focus: Seq<WidgetId>, widget: WidgetId) -> Seq<WidgetId> {
    if widgets.contains(widget) {
        focus.push(widget)
    } else {
        focus
    }
}

/// The history of focus once focus is reverted: the last entry goes.
pub open spec fn spec_revert_stack(focus: Seq<WidgetId>) -> Seq<WidgetId> {
    if focus.len() > 0 {
        focus.drop_last()
    } else {
        focus
    }
}

/// The widget that has focus in a history of focus.
pub open spec fn spec_focused(focus: Seq<WidgetId>) -> Option<WidgetId> {
    if focus.len() > 0 {
        Some(focus.last())
    } else {
        None
    }
}

/// Which widgets must be told that they lost or got focus.
#[derive(Copy, Clone, Debug, PartialEq, Eq, Structural)]
pub struct FocusChange {
    pub lost: Option<WidgetId>,
    pub got: Option<WidgetId>,
}

/// The widgets of the window and the history of focus among them; the
/// last entry has focus.
pub struct WidgetTree {
    pub widgets: Vec<WidgetId>,
    pub focus: Vec<WidgetId>,
}

impl WidgetTree {
    /// A tree of `widgets` in which nothing has focus yet.
    pub fn new(widgets: Vec<WidgetId>) -> (t: WidgetTree)
        ensures
            t.widgets == widgets,
            t.focus@.len() == 0,
    {
        WidgetTree { widgets, focus: Vec::new() }
    }

    /// The widget that has focus, if any.
    pub fn focused(&self) -> (w: Option<WidgetId>)
        ensures
            w == spec_focused(self.focus@),
    {
        if self.focus.len() > 0 {
            Some(self.focus[self.focus.len() - 1])
        } else {
            None
        }
    }

    /// Gives focus to `widget` if the tree holds it. The widget that had
    /// focus is told it lost it, whether or not the new one is found.
    pub fn focus(&mut self, widget: WidgetId) -> (c: FocusChange)
        ensures
            final(self).widgets == old(self).widgets,
            final(self).focus@ == spec_focus_stack(old(self).widgets@, old(self).focus@, widget),
            c.lost == spec_focused(old(self).focus@),
            c.got == (if old(self).widgets@.contains(widget) {
                Some(widget)
            } else {
                None
            }),
    {
        let lost = self.focused();
        let mut found = false;
        let mut i: usize = 0;
        while i < self.widgets.len()
            invariant
                i <= self.widgets@.len(),
                found == (exists|j: int| 0 <= j < i && self.widgets@[j] == widget),
            decreases self.widgets@.len() - i,
        {
            if self.widgets[i] == widget {
                found = true;
            }
            i = i + 1;
        }
        if found {
            self.focus.push(widget);
            FocusChange { lost, got: Some(widget) }
        } else {
            FocusChange { lost, got: None }
        }
    }

    /// Gives focus back to the widget that had it before the focused one.
    pub fn revert_focus(&mut self) -> (c: FocusChange)
        ensures
            final(self).widgets == old(self).widgets,
            final(self).focus@ == spec_revert_stack(old(self).focus@),
            c.lost == spec_focused(old(self).focus@),
            c.got == spec_focused(final(self).focus@),
    {
        let lost = self.focus.pop();
        let got = self.focused();
        FocusChange { lost, got }
    }
}

/// What remains to be done once a deferred action's focus change is
/// applied: the widgets to notify, and the plugin load, message and
/// request it asked for.
pub struct Resolved {
    pub change: FocusChange,
    pub load_plugin: Option<NavigationAction>,
    pub message: Option<String>,
    pub request: Option<AppRequest>,
}

impl DeferredAction {
    /// Applies the requested change of focus to `ui` and hands back the
    /// rest of the requests.
    pub fn resolve(self, ui: &mut WidgetTree) -> (r: Resolved)
        ensures
            final(ui).widgets == old(ui).widgets,
            match self.focus {
                None => *final(ui) == *old(ui) && r.change == (FocusChange { lost: None, got: None }),
                Some(FocusType::Revert) => {
                    &&& final(ui).focus@ == spec_revert_stack(old(ui).focus@)
                    &&& r.change.lost == spec_focused(old(ui).focus@)
                    &&& r.change.got == spec_focused(final(ui).focus@)
                },
                Some(FocusType::Focus(w)) => {
                    &&& final(ui).focus@ == spec_focus_stack(old(ui).widgets@, old(ui).focus@, w)
                    &&& r.change.lost == spec_focused(old(ui).focus@)
                    &&& r.change.got == (if old(ui).widgets@.contains(w) {
                        Some(w)
                    } else {
                        None
                    })
                },
            },
            r.load_plugin == self.load_plugin,
            r.message == self.message,
            r.request == self.request,
    {
        let change = match self.focus {
            None => FocusChange { lost: None, got: None },
            Some(FocusType::Revert) => ui.revert_focus(),
            Some(FocusType::Focus(w)) => ui.focus(w),
        };
        Resolved {
            change,
            load_plugin: self.load_plugin,
            message: self.message,
            request: self.request,
        }
    }
}

/// Focusing a widget of the tree and then reverting focus restores the
/// history of focus, and with it the widget that had focus.
pub proof fn lemma_focus_then_revert(widgets: Seq<WidgetId>, focus: Seq<WidgetId>, widget: WidgetId)
    requires
        widgets.contains(widget),
    ensures
        spec_revert_stack(spec_focus_stack(widgets, focus, widget)) == focus,
        spec_focused(spec_revert_stack(spec_focus_stack(widgets, focus, widget))) == spec_focused(
            focus,
        ),
{
    assert(focus.push(widget).drop_last() =~= focus);
}

} // verus!
