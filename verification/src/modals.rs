//! The contents of modal dialogs and how they answer actions.
use vstd::prelude::*;
use crate::controls::{
    CheckBox,
    Container,
    Control,
    InputControl,
    List,
    ListItem,
    TextBox,
    spec_list_index,
    spec_move_focus,
    spec_tag_index,
};
use crate::data::PlatformInfo;
use crate::library::{lemma_sort_len, sort_by_name, spec_sort_by_name};
use crate::input::{Actions, InputType};
use crate::restrictions::{
    MAX_ATTEMPTS,
    PASSCODE_CAPACITY,
    PasscodeEquality,
    RestrictedPasscode,
    passcodes_equal,
    spec_add_digit,
    spec_digits,
    spec_passcode_equality,
};
use crate::ui::{AppRequest, ModalResult, default_modal_action, spec_default_modal_action};

verus! {

/// The content of a modal dialog.
pub trait ModalContent {
    /// Whether the content can handle `action` in its current state.
    spec fn action_ok(&self, action: Actions) -> bool;

    /// Handles `action`; the result tells whether the dialog stays open.
    fn action(&mut self, action: &Actions) -> ModalResult
        requires
            old(self).action_ok(*action),
    ;
}

/// A dialog that shows a message.
pub struct MessageModalContent {
    pub message: String,
}

impl MessageModalContent {
    pub fn new(message: &str) -> (m: MessageModalContent)
        ensures
            m.message@ == message@,
    {
        MessageModalContent { message: String::from_str(message) }
    }
}

impl ModalContent for MessageModalContent {
    open spec fn action_ok(&self, action: Actions) -> bool {
        true
    }

    /// Accept confirms, back cancels, anything else keeps the message.
    fn action(&mut self, action: &Actions) -> (r: ModalResult)
        ensures
            r == spec_default_modal_action(*action),
            *final(self) == *old(self),
    {
        default_modal_action(action)
    }
}

/// A dialog that lists items, one of them selected, under an optional
/// title.
pub struct ListModal<T: ListItem> {
    pub items: Vec<T>,
    pub title: Option<String>,
    pub index: usize,
}

impl<T: ListItem> ListModal<T> {
    /// An empty list with the first position selected.
    pub fn new(title: Option<String>) -> (m: ListModal<T>)
        ensures
            m.items@.len() == 0,
            m.title == title,
            m.index == 0,
    {
        ListModal { items: Vec::new(), title, index: 0 }
    }

    /// Adds `item` at the end of the list.
    pub fn add_item(&mut self, item: T)
        ensures
            final(self).items@ == old(self).items@.push(item),
            final(self).title == old(self).title,
            final(self).index == old(self).index,
    {
        self.items.push(item);
    }

    /// The selected item.
    pub fn get_selected(&self) -> (item: &T)
        requires
            self.index < self.items@.len(),
        ensures
            *item == self.items@[self.index as int],
    {
        &self.items[self.index]
    }
}

impl<T: ListItem> ModalContent for ListModal<T> {
    open spec fn action_ok(&self, action: Actions) -> bool {
        action is Down ==> self.items@.len() > 0
    }

    /// Down and up move the selection, stopping at either end; accept
    /// confirms and back cancels.
    fn action(&mut self, action: &Actions) -> (r: ModalResult)
        ensures
            r == (match *action {
                Actions::Down | Actions::Up => ModalResult::Continue,
                _ => spec_default_modal_action(*action),
            }),
            final(self).index == (match *action {
                Actions::Down => if old(self).index + 1 < old(self).items@.len() {
                    (old(self).index + 1) as usize
                } else {
                    old(self).index
                },
                Actions::Up => if old(self).index > 0 {
                    (old(self).index - 1) as usize
                } else {
                    old(self).index
                },
                _ => old(self).index,
            }),
            final(self).items == old(self).items,
            final(self).title == old(self).title,
    {
        match action {
            Actions::Down => {
                if self.index < self.items.len() - 1 {
                    self.index = self.index + 1;
                }
                ModalResult::Continue
            },
            Actions::Up => {
                if self.index > 0 {
                    self.index = self.index - 1;
                }
                ModalResult::Continue
            },
            _ => default_modal_action(action),
        }
    }
}

impl ListItem for PlatformInfo {
    /// The platform's name.
    fn to_display(&self) -> (s: String)
        ensures
            s@ == self.platform@,
    {
        self.platform.clone()
    }
}

/// A dialog to choose one of the platforms that a search found.
pub struct PlatformScraperModal {
    pub list: List<PlatformInfo>,
}

impl PlatformScraperModal {
    pub fn new(items: Vec<PlatformInfo>) -> (m: PlatformScraperModal)
        ensures
            m.list.items@ == items@,
            m.list.index == 0,
    {
        PlatformScraperModal { list: List::new(items) }
    }
}

impl ModalContent for PlatformScraperModal {
    open spec fn action_ok(&self, action: Actions) -> bool {
        (action is Down || action is Up) ==> self.list.items@.len() > 0
    }

    /// Up and down move the selection, wrapping around; accept confirms
    /// and back cancels.
    fn action(&mut self, action: &Actions) -> (r: ModalResult)
        ensures
            r == spec_default_modal_action(*action),
            final(self).list.index == spec_list_index(
                old(self).list.index as int,
                old(self).list.items@.len() as int,
                *action,
            ),
            final(self).list.items == old(self).list.items,
    {
        self.list.update(action);
        default_modal_action(action)
    }
}

/// The digit that an action enters into a passcode: a typed character's
/// code, or the number of a navigation action; other key presses enter
/// none.
pub open spec fn spec_action_digit(action: Actions) -> Option<u32> {
    match action {
        Actions::KeyPress(InputType::Char(c)) => Some(c as u32),
        Actions::Info => Some(1),
        Actions::Select => Some(3),
        Actions::Up => Some(5),
        Actions::Down => Some(6),
        Actions::Left => Some(7),
        Actions::Right => Some(8),
        Actions::Filter => Some(9),
        _ => None,
    }
}

/// The number of an action that can be part of a passcode.
pub open spec fn spec_action_number(action: Actions) -> Option<u32> {
    match action {
        Actions::Info => Some(1),
        Actions::Accept => Some(2),
        Actions::Select => Some(3),
        Actions::Back => Some(4),
        Actions::Up => Some(5),
        Actions::Down => Some(6),
        Actions::Left => Some(7),
        Actions::Right => Some(8),
        Actions::Filter => Some(9),
        _ => None,
    }
}

/// Numbers the actions that can be part of a passcode.
pub fn action_to_u32(action: &Actions) -> (n: u32)
    requires
        spec_action_number(*action) is Some,
    ensures
        spec_action_number(*action) == Some(n),
{
    match action {
        Actions::Info => 1,
        Actions::Accept => 2,
        Actions::Select => 3,
        Actions::Back => 4,
        Actions::Up => 5,
        Actions::Down => 6,
        Actions::Left => 7,
        Actions::Right => 8,
        Actions::Filter => 9,
        _ => 0,
    }
}

/// Whether an action can be sent to a passcode dialog: every action but
/// the overlay and menu toggles.
pub open spec fn spec_passcode_action_ok(action: Actions) -> bool {
    !(action is ToggleOverlay) && !(action is ShowMenu)
}

/// The digit `action` enters, if any. Accept and back enter none.
fn action_digit(action: &Actions) -> (d: Option<u32>)
    requires
        spec_passcode_action_ok(*action),
    ensures
        d == spec_action_digit(*action),
{
    match action {
        Actions::Accept | Actions::Back => None,
        Actions::KeyPress(InputType::Char(c)) => Some(*c as u32),
        Actions::KeyPress(_) => None,
        _ => Some(action_to_u32(action)),
    }
}

/// A dialog in which a new passcode is entered.
pub struct SetRestrictedModal {
    pub pass: RestrictedPasscode,
}

impl SetRestrictedModal {
    pub fn new() -> (m: SetRestrictedModal)
        ensures
            m.pass.wf(),
            spec_digits(m.pass) == Seq::<u32>::empty(),
    {
        SetRestrictedModal { pass: RestrictedPasscode::default() }
    }

    /// The passcode entered so far.
    pub fn get_passcode(&self) -> (p: RestrictedPasscode)
        ensures
            p == self.pass,
    {
        self.pass
    }
}

impl ModalContent for SetRestrictedModal {
    open spec fn action_ok(&self, action: Actions) -> bool {
        self.pass.wf() && spec_passcode_action_ok(action)
    }

    /// Accept confirms the passcode, back cancels; any other action enters
    /// its digit, if it has one.
    fn action(&mut self, action: &Actions) -> (r: ModalResult)
        ensures
            final(self).pass.wf(),
            r == (match *action {
                Actions::Accept => ModalResult::Confirm,
                Actions::Back => ModalResult::Cancel,
                _ => ModalResult::Continue,
            }),
            spec_digits(final(self).pass) == (match spec_action_digit(*action) {
                Some(d) => spec_add_digit(spec_digits(old(self).pass), d),
                None => spec_digits(old(self).pass),
            }),
    {
        match action {
            Actions::Accept => return ModalResult::Confirm,
            Actions::Back => return ModalResult::Cancel,
            _ => {},
        }
        if let Some(d) = action_digit(action) {
            self.pass.add_digit(d);
        }
        ModalResult::Continue
    }
}

/// A dialog in which the passcode must be entered before a restricted
/// action goes ahead.
pub struct VerifyRestrictedModal {
    pub pass: RestrictedPasscode,
    pub target: RestrictedPasscode,
    pub attempts: u8,
    /// The request the passcode guards.
    pub request: AppRequest,
}

/// The digits entered, the attempts used and the dialog's answer after
/// `digit` is entered into a dialog that expects `target`. A complete
/// wrong passcode uses an attempt and starts over, or cancels the dialog
/// once more than the allowed attempts are used.
pub open spec fn spec_verify_digit(pass: Seq<u32>, target: Seq<u32>, attempts: int, digit: u32) -> (
    Seq<u32>,
    int,
    ModalResult,
) {
    let entered = spec_add_digit(pass, digit);
    match spec_passcode_equality(entered, target) {
        PasscodeEquality::Incomplete => (entered, attempts, ModalResult::Continue),
        PasscodeEquality::Total => (entered, attempts, ModalResult::Confirm),
        PasscodeEquality::Lengths => if attempts + 1 > MAX_ATTEMPTS {
            (entered, attempts + 1, ModalResult::Cancel)
        } else {
            (Seq::<u32>::empty(), attempts + 1, ModalResult::Continue)
        },
    }
}

impl VerifyRestrictedModal {
    /// A dialog expecting `target` before `request` is carried out, with
    /// nothing entered yet.
    pub fn new(target: RestrictedPasscode, request: AppRequest) -> (m: VerifyRestrictedModal)
        ensures
            m.pass.wf(),
            spec_digits(m.pass) == Seq::<u32>::empty(),
            m.target == target,
            m.attempts == 0,
            m.request == request,
    {
        VerifyRestrictedModal { pass: RestrictedPasscode::default(), target, attempts: 0, request }
    }

    /// The request the dialog guards.
    pub fn run_action(&self) -> (r: AppRequest)
        ensures
            r == self.request,
    {
        self.request
    }

    /// Closes the dialog with its answer `result`. The guarded request
    /// comes back, to be carried out, exactly when the passcode was
    /// confirmed; the dialog is used up, so the request comes back at most
    /// once.
    pub fn close(self, result: ModalResult) -> (r: Option<AppRequest>)
        ensures
            r == (if result == ModalResult::Confirm {
                Some(self.request)
            } else {
                None
            }),
    {
        if result == ModalResult::Confirm {
            Some(self.run_action())
        } else {
            None
        }
    }
}

impl ModalContent for VerifyRestrictedModal {
    open spec fn action_ok(&self, action: Actions) -> bool {
        &&& self.pass.wf()
        &&& self.target.wf()
        &&& spec_passcode_action_ok(action)
        &&& spec_action_digit(action) matches Some(d) ==> spec_passcode_equality(
            spec_add_digit(spec_digits(self.pass), d),
            spec_digits(self.target),
        ) == PasscodeEquality::Lengths ==> self.attempts < u8::MAX
    }

    /// Accept confirms and back cancels; any other action enters its
    /// digit, if it has one, and the passcode is checked once it is as
    /// long as the expected one.
    fn action(&mut self, action: &Actions) -> (r: ModalResult)
        ensures
            final(self).pass.wf(),
            final(self).target == old(self).target,
            final(self).request == old(self).request,
            match *action {
                Actions::Accept => r == ModalResult::Confirm && *final(self) == *old(self),
                Actions::Back => r == ModalResult::Cancel && *final(self) == *old(self),
                _ => match spec_action_digit(*action) {
                    None => r == ModalResult::Continue && *final(self) == *old(self),
                    Some(d) => {
                        let step = spec_verify_digit(
                            spec_digits(old(self).pass),
                            spec_digits(old(self).target),
                            old(self).attempts as int,
                            d,
                        );
                        &&& spec_digits(final(self).pass) == step.0
                        &&& final(self).attempts == step.1
                        &&& r == step.2
                    },
                },
            },
    {
        match action {
            Actions::Accept => return ModalResult::Confirm,
            Actions::Back => return ModalResult::Cancel,
            _ => {},
        }
        let digit = action_digit(action);
        if digit.is_none() {
            return ModalResult::Continue;
        }
        let d = digit.unwrap();
        self.pass.add_digit(d);
        match passcodes_equal(&self.pass, &self.target) {
            PasscodeEquality::Incomplete => {},
            PasscodeEquality::Lengths => {
                self.attempts = self.attempts + 1;
                if self.attempts > MAX_ATTEMPTS {
                    return ModalResult::Cancel;
                } else {
                    self.pass = RestrictedPasscode::default();
                }
            },
            PasscodeEquality::Total => return ModalResult::Confirm,
        }
        ModalResult::Continue
    }
}

/// Entering the expected passcode digit by digit keeps the dialog open
/// with the digits entered so far, and the last digit confirms it.
pub proof fn lemma_correct_passcode_confirms(target: Seq<u32>, k: int, attempts: int)
    requires
        0 <= k < target.len() <= PASSCODE_CAPACITY,
    ensures
        spec_verify_digit(target.take(k), target, attempts, target[k]) == (
            target.take(k + 1),
            attempts,
            if k + 1 == target.len() {
                ModalResult::Confirm
            } else {
                ModalResult::Continue
            },
        ),
{
    assert(target.take(k).push(target[k]) =~= target.take(k + 1));
    if k + 1 == target.len() {
        assert(target.take(k + 1) =~= target);
    }
}

/// A complete passcode that differs from the expected one uses up an
/// attempt; the dialog cancels once more than the allowed attempts are
/// used, and otherwise starts over with nothing entered.
pub proof fn lemma_wrong_passcode_uses_attempt(pass: Seq<u32>, target: Seq<u32>, attempts: int, digit: u32)
    requires
        pass.len() + 1 == target.len() <= PASSCODE_CAPACITY,
        pass.push(digit) != target,
    ensures
        spec_verify_digit(pass, target, attempts, digit).1 == attempts + 1,
        spec_verify_digit(pass, target, attempts, digit).2 == (if attempts + 1 > MAX_ATTEMPTS {
            ModalResult::Cancel
        } else {
            ModalResult::Continue
        }),
        attempts + 1 <= MAX_ATTEMPTS ==> spec_verify_digit(pass, target, attempts, digit).0
            == Seq::<u32>::empty(),
{
}

/// Whether the field at position `j` has focus once focus moves from
/// `before` to `after`: the field that gains focus is focused, the field
/// that loses it is not, and every other field keeps `flag`.
pub open spec fn spec_focus_flag(flag: bool, j: int, before: Option<usize>, after: Option<usize>) -> bool {
    if after matches Some(a) && a as int == j {
        true
    } else if before matches Some(b) && b as int == j {
        false
    } else {
        flag
    }
}

/// The text boxes `fields` once focus moves from `before` to `after`.
pub open spec fn spec_refocus_boxes(fields: Seq<TextBox>, before: Option<usize>, after: Option<usize>) -> Seq<
    TextBox,
> {
    fields.map(
        |j: int, t: TextBox| TextBox { focused: spec_focus_flag(t.focused, j, before, after), ..t },
    )
}

/// Sets whether the text box at `i` has focus.
fn set_box_focus(fields: &mut Vec<TextBox>, i: usize, value: bool)
    requires
        i < old(fields)@.len(),
    ensures
        final(fields)@ == old(fields)@.update(i as int, TextBox { focused: value, ..old(fields)@[i as int] }),
{
    let mut f = fields.remove(i);
    f.set_focused(value);
    fields.insert(i, f);
    assert(final(fields)@ =~= old(fields)@.update(i as int, TextBox { focused: value, ..old(fields)@[i as int] }));
}

/// The details of a platform: its name, the emulator's executable and the
/// arguments it is started with, each in a text field.
pub struct PlatformDetailModal {
    pub controls: Container,
    pub fields: Vec<TextBox>,
    pub id: i64,
}

/// The tags of the fields of a platform dialog, in order.
pub open spec fn spec_platform_tags(children: Seq<Option<String>>) -> bool {
    &&& children.len() == 3
    &&& children[0] matches Some(t) && t@ == "Name"@
    &&& children[1] matches Some(t) && t@ == "Executable"@
    &&& children[2] matches Some(t) && t@ == "Args"@
}

impl PlatformDetailModal {
    /// The fields hold one text box per child of the container, and focus
    /// is on one of them, if any.
    pub open spec fn wf(&self) -> bool {
        &&& self.controls.wf()
        &&& self.fields@.len() == self.controls.children@.len()
        &&& forall|i: int| 0 <= i < self.controls.children@.len() ==> self.controls.children@[i] is Some
    }

    fn build(name: TextBox, exe: TextBox, args: TextBox, id: i64) -> (m: PlatformDetailModal)
        ensures
            m.wf(),
            spec_platform_tags(m.controls.children@),
            m.fields@ == seq![name, exe, args],
            m.controls.focus_index is None,
            m.id == id,
    {
        let mut controls = Container::new();
        controls.add_field("Name");
        controls.add_field("Executable");
        controls.add_field("Args");
        let mut fields: Vec<TextBox> = Vec::new();
        fields.push(name);
        fields.push(exe);
        fields.push(args);
        proof {
            reveal_strlit("Name");
            reveal_strlit("Executable");
            reveal_strlit("Args");
            assert(fields@ =~= seq![name, exe, args]);
        }
        PlatformDetailModal { controls, fields, id }
    }

    /// An empty dialog to add an emulator platform.
    pub fn emulator() -> (m: PlatformDetailModal)
        ensures
            m.wf(),
            spec_platform_tags(m.controls.children@),
            m.fields@.len() == 3,
            m.fields@[0].text@.len() == 0,
            m.fields@[1].text@.len() == 0,
            m.fields@[2].text@.len() == 0,
            m.id == 0,
    {
        let name = TextBox::from_str(String::from_str("Name"), "");
        let exe = TextBox::from_str(String::from_str("Executable"), "");
        let args = TextBox::from_str(String::from_str("Args"), "");
        proof {
            reveal_strlit("");
        }
        Self::build(name, exe, args, 0)
    }

    /// The dialog to edit the platform stored with `id`, named `name`,
    /// whose emulator is `path` started with `args`.
    pub fn from_existing(id: i64, name: String, path: String, args: String) -> (m: PlatformDetailModal)
        ensures
            m.wf(),
            spec_platform_tags(m.controls.children@),
            m.fields@.len() == 3,
            m.fields@[0].text == name,
            m.fields@[1].text == path,
            m.fields@[2].text == args,
            m.id == id,
    {
        let name = TextBox::new(String::from_str("Name"), name);
        let exe = TextBox::new(String::from_str("Executable"), path);
        let args = TextBox::new(String::from_str("Args"), args);
        Self::build(name, exe, args, id)
    }

    /// The text of the field tagged `tag`, if there is one.
    pub fn value_of(&self, tag: &str) -> (v: Option<&str>)
        requires
            self.wf(),
        ensures
            v matches Some(s) ==> spec_tag_index(self.controls.children@, tag@) matches Some(i)
                && s@ == self.fields@[i].text@,
            v is None ==> spec_tag_index(self.controls.children@, tag@) is None,
    {
        match self.controls.by_tag(tag) {
            Some(i) => Some(self.fields[i].text.as_str()),
            None => None,
        }
    }
}

impl ModalContent for PlatformDetailModal {
    open spec fn action_ok(&self, action: Actions) -> bool {
        &&& self.wf()
        &&& action is Up ==> self.controls.move_focus_ok(false)
        &&& !(action is Up || action is Down) ==> (self.controls.focus_index matches Some(i)
            ==> self.fields@[i as int].action_ok(action))
    }

    /// Up and down move focus between the fields; other actions edit the
    /// focused field. Accept then confirms and back cancels.
    fn action(&mut self, action: &Actions) -> (r: ModalResult)
        ensures
            final(self).wf(),
            r == spec_default_modal_action(*action),
            final(self).id == old(self).id,
            final(self).controls.children == old(self).controls.children,
            final(self).fields@.len() == old(self).fields@.len(),
            (*action is Up || *action is Down) ==> final(self).fields@ == spec_refocus_boxes(
                old(self).fields@,
                old(self).controls.focus_index,
                final(self).controls.focus_index,
            ),
            *action is Down ==> (final(self).controls.focus_index matches Some(i)
                ==> spec_move_focus(old(self).controls.children@, old(self).controls.focus_index, true)
                == Some(i as int)) && (final(self).controls.focus_index is None ==> spec_move_focus(
                old(self).controls.children@,
                old(self).controls.focus_index,
                true,
            ) is None),
            *action is Up ==> (final(self).controls.focus_index matches Some(i) ==> spec_move_focus(
                old(self).controls.children@,
                old(self).controls.focus_index,
                false,
            ) == Some(i as int)),
            !(*action is Up || *action is Down) ==> {
                &&& final(self).controls.focus_index == old(self).controls.focus_index
                &&& forall|j: int|
                    0 <= j < old(self).fields@.len() && old(self).controls.focus_index != Some(
                        j as usize,
                    ) ==> final(self).fields@[j] == old(self).fields@[j]
            },
    {
        let before = self.controls.focus_index;
        let target = self.controls.action(action);
        if let Some(i) = target {
            let mut field = self.fields.remove(i);
            field.action(action);
            self.fields.insert(i, field);
            assert(self.fields@.len() == old(self).fields@.len());
        }
        match action {
            Actions::Up | Actions::Down => {
                let after = self.controls.focus_index;
                assert(self.fields@ == old(self).fields@);
                let ghost start = self.fields@;
                if let Some(o) = before {
                    set_box_focus(&mut self.fields, o, false);
                }
                let ghost mid = self.fields@;
                if let Some(n) = after {
                    set_box_focus(&mut self.fields, n, true);
                }
                assert forall|j: int| 0 <= j < start.len() implies #[trigger] self.fields@[j]
                    == spec_refocus_boxes(start, before, after)[j] by {
                    assert(mid.len() == start.len());
                    let t = start[j];
                    let m = mid[j];
                    assert(m.text == t.text && m.caret == t.caret && m.label == t.label);
                    assert(m.focused == (if before matches Some(b) && b as int == j {
                        false
                    } else {
                        t.focused
                    }));
                    let f = self.fields@[j];
                    assert(f.text == m.text && f.caret == m.caret && f.label == m.label);
                    assert(f.focused == (if after matches Some(a) && a as int == j {
                        true
                    } else {
                        m.focused
                    }));
                }
                assert(self.fields@ =~= spec_refocus_boxes(old(self).fields@, before, after));
            },
            _ => {},
        }
        default_modal_action(action)
    }
}

/// A field of the settings dialog: the start-up check box or the text of
/// a setting.
pub enum SettingsField {
    Check(CheckBox),
    Text(TextBox),
}

/// The value a settings field holds, as text: a check box reads `true` or
/// `false`.
pub open spec fn spec_field_value(f: SettingsField) -> Seq<char> {
    match f {
        SettingsField::Check(c) => if c.checked {
            "true"@
        } else {
            "false"@
        },
        SettingsField::Text(t) => t.text@,
    }
}

impl Control for SettingsField {
    open spec fn action_ok(&self, action: Actions) -> bool {
        match self {
            SettingsField::Check(c) => c.action_ok(action),
            SettingsField::Text(t) => t.action_ok(action),
        }
    }

    /// The field's control handles `action`.
    fn action(&mut self, action: &Actions)
        ensures
            match (*old(self), *final(self)) {
                (SettingsField::Check(a), SettingsField::Check(b)) => b.checked
                    == crate::controls::spec_check_after(a.checked, *action) && b.label == a.label,
                (SettingsField::Text(a), SettingsField::Text(b)) => b.text@
                    == crate::controls::spec_text_box_action(a.text@, a.caret as int, *action).0
                    && b.caret == crate::controls::spec_text_box_action(
                    a.text@,
                    a.caret as int,
                    *action,
                ).1 && b.label == a.label,
                _ => false,
            },
            spec_field_focused(*final(self)) == spec_field_focused(*old(self)),
    {
        match self {
            SettingsField::Check(c) => c.action(action),
            SettingsField::Text(t) => t.action(action),
        }
    }
}

/// The settings field `f` with its focus flag set to `flag`.
pub open spec fn spec_field_with_focus(f: SettingsField, flag: bool) -> SettingsField {
    match f {
        SettingsField::Check(c) => SettingsField::Check(CheckBox { focused: flag, ..c }),
        SettingsField::Text(t) => SettingsField::Text(TextBox { focused: flag, ..t }),
    }
}

/// Whether the settings field `f` has focus.
pub open spec fn spec_field_focused(f: SettingsField) -> bool {
    match f {
        SettingsField::Check(c) => c.focused,
        SettingsField::Text(t) => t.focused,
    }
}

/// The settings fields `fields` once focus moves from `before` to `after`.
pub open spec fn spec_refocus_fields(fields: Seq<SettingsField>, before: Option<usize>, after: Option<usize>) -> Seq<
    SettingsField,
> {
    fields.map(
        |j: int, f: SettingsField|
            spec_field_with_focus(f, spec_focus_flag(spec_field_focused(f), j, before, after)),
    )
}

/// Sets whether the settings field at `i` has focus.
fn set_field_focus(fields: &mut Vec<SettingsField>, i: usize, value: bool)
    requires
        i < old(fields)@.len(),
    ensures
        final(fields)@ == old(fields)@.update(i as int, spec_field_with_focus(old(fields)@[i as int], value)),
{
    let mut f = fields.remove(i);
    f.set_focused(value);
    fields.insert(i, f);
    assert(final(fields)@ =~= old(fields)@.update(i as int, spec_field_with_focus(old(fields)@[i as int], value)));
}

impl SettingsField {
    /// Gives the field focus, or takes it away.
    pub fn set_focused(&mut self, value: bool)
        ensures
            *final(self) == spec_field_with_focus(*old(self), value),
    {
        match self {
            SettingsField::Check(c) => c.set_focused(value),
            SettingsField::Text(t) => t.set_focused(value),
        }
    }

    /// The field's value: `true` or `false` for the check box, the text
    /// otherwise.
    pub fn value(&self) -> (v: &str)
        ensures
            match self {
                SettingsField::Check(c) => v@ == (if c.checked {
                    "true"@
                } else {
                    "false"@
                }),
                SettingsField::Text(t) => v@ == t.text@,
            },
    {
        match self {
            SettingsField::Check(c) => c.value(),
            SettingsField::Text(t) => t.value(),
        }
    }
}

/// Whether position `k` of the settings dialog `m` edits the setting
/// `entry`, a name with its value: the field is tagged with the name and
/// holds the value.
pub open spec fn spec_settings_entry(m: SettingsModal, k: int, entry: (String, String)) -> bool {
    &&& m.names@[k] == entry.0
    &&& m.settings.children@[k] matches Some(t) && t@ == entry.0@
    &&& m.fields@[k] matches SettingsField::Text(b) && b.text == entry.1
}

/// The dialog in which the settings are edited: whether the launcher runs
/// at start-up, then each setting in order of name.
pub struct SettingsModal {
    pub names: Vec<String>,
    pub settings: Container,
    pub fields: Vec<SettingsField>,
}

impl SettingsModal {
    /// The fields hold one control per child of the container, every child
    /// is a field, and focus is on one of them, if any.
    pub open spec fn wf(&self) -> bool {
        &&& self.settings.wf()
        &&& self.fields@.len() == self.settings.children@.len()
        &&& forall|i: int| 0 <= i < self.settings.children@.len() ==> self.settings.children@[i] is Some
    }

    /// The dialog for the settings `settings`, each a name with its value
    /// written as text, and the start-up choice `run_at_startup`.
    pub fn new(run_at_startup: bool, settings: Vec<(String, String)>) -> (m: SettingsModal)
        ensures
            m.wf(),
            m.settings.focus_index is None,
            m.names@.len() == 1 + settings@.len(),
            m.names@[0]@ == "run_at_startup"@,
            m.fields@[0] matches SettingsField::Check(c) && c.checked == run_at_startup,
            forall|i: int|
                0 <= i < settings@.len() ==> spec_settings_entry(
                    m,
                    1 + i,
                    #[trigger] spec_sort_by_name(settings@)[i],
                ),
    {
        let mut controls = Container::new();
        controls.add_field("run_at_startup");
        let mut fields: Vec<SettingsField> = Vec::new();
        fields.push(SettingsField::Check(CheckBox::new(String::from_str("run_at_startup"), run_at_startup)));
        let mut names: Vec<String> = Vec::new();
        names.push(String::from_str("run_at_startup"));
        let ghost input = settings@;
        let sorted = sort_by_name(settings);
        let ghost all = sorted@;
        proof {
            lemma_sort_len(input);
        }
        let mut rest = sorted;
        let total = rest.len();
        let mut i: usize = 0;
        while rest.len() > 0
            invariant
                all.len() == total,
                i + rest@.len() == total,
                rest@ == all.skip(i as int),
                controls.wf(),
                controls.focus_index is None,
                controls.children@.len() == 1 + i,
                fields@.len() == 1 + i,
                names@.len() == 1 + i,
                names@[0]@ == "run_at_startup"@,
                fields@[0] matches SettingsField::Check(c) && c.checked == run_at_startup,
                forall|j: int| 0 <= j < controls.children@.len() ==> controls.children@[j] is Some,
                forall|j: int|
                    0 <= j < i ==> {
                        &&& (#[trigger] names@[1 + j]) == all[j].0
                        &&& controls.children@[1 + j] matches Some(t) && t@ == all[j].0@
                        &&& fields@[1 + j] matches SettingsField::Text(b) && b.text == all[j].1
                    },
            decreases rest@.len(),
        {
            let (name, value) = rest.remove(0);
            assert(all[i as int] == (name, value));
            controls.add_field(name.as_str());
            fields.push(SettingsField::Text(TextBox::new(name.clone(), value)));
            names.push(name);
            assert(rest@ =~= all.skip(i + 1));
            proof {
                assert forall|j: int| 0 <= j < controls.children@.len() implies controls.children@[j] is Some by {
                    if j < controls.children@.len() - 1 {
                        assert(controls.children@[j] == controls.children@.drop_last()[j]);
                    }
                }
            }
            i = i + 1;
        }
        let m = SettingsModal { names, settings: controls, fields };
        assert forall|j: int| 0 <= j < input.len() implies spec_settings_entry(
            m,
            1 + j,
            #[trigger] spec_sort_by_name(input)[j],
        ) by {
            assert(all[j] == spec_sort_by_name(input)[j]);
            assert(m.names@[1 + j] == all[j].0);
        }
        m
    }

    /// The value of the field tagged `tag`, if there is one.
    pub fn value_of(&self, tag: &str) -> (v: Option<&str>)
        requires
            self.wf(),
        ensures
            match spec_tag_index(self.settings.children@, tag@) {
                Some(i) => v matches Some(s) && s@ == spec_field_value(self.fields@[i]),
                None => v is None,
            },
    {
        match self.settings.by_tag(tag) {
            Some(i) => Some(self.fields[i].value()),
            None => None,
        }
    }
}

impl ModalContent for SettingsModal {
    open spec fn action_ok(&self, action: Actions) -> bool {
        &&& self.wf()
        &&& action is Up ==> self.settings.move_focus_ok(false)
        &&& !(action is Up || action is Down) ==> (self.settings.focus_index matches Some(i)
            ==> self.fields@[i as int].action_ok(action))
    }

    /// Up and down move focus between the fields; other actions go to the
    /// focused field. Accept then confirms and back cancels.
    fn action(&mut self, action: &Actions) -> (r: ModalResult)
        ensures
            final(self).wf(),
            r == spec_default_modal_action(*action),
            final(self).names == old(self).names,
            final(self).settings.children == old(self).settings.children,
            (*action is Up || *action is Down) ==> final(self).fields@ == spec_refocus_fields(
                old(self).fields@,
                old(self).settings.focus_index,
                final(self).settings.focus_index,
            ),
            !(*action is Up || *action is Down) ==> {
                &&& final(self).settings.focus_index == old(self).settings.focus_index
                &&& forall|j: int|
                    0 <= j < old(self).fields@.len() && old(self).settings.focus_index != Some(
                        j as usize,
                    ) ==> final(self).fields@[j] == old(self).fields@[j]
            },
    {
        let before = self.settings.focus_index;
        let target = self.settings.action(action);
        if let Some(i) = target {
            let mut field = self.fields.remove(i);
            field.action(action);
            self.fields.insert(i, field);
        }
        match action {
            Actions::Up | Actions::Down => {
                let after = self.settings.focus_index;
                assert(self.fields@ == old(self).fields@);
                let ghost start = self.fields@;
                if let Some(o) = before {
                    set_field_focus(&mut self.fields, o, false);
                }
                let ghost mid = self.fields@;
                if let Some(n) = after {
                    set_field_focus(&mut self.fields, n, true);
                }
                assert forall|j: int| 0 <= j < start.len() implies #[trigger] self.fields@[j]
                    == spec_refocus_fields(start, before, after)[j] by {
                    assert(mid.len() == start.len());
                    assert(mid[j] == (if before matches Some(b) && b as int == j {
                        spec_field_with_focus(start[j], false)
                    } else {
                        start[j]
                    }));
                }
                assert(self.fields@ =~= spec_refocus_fields(old(self).fields@, before, after));
            },
            _ => {},
        }
        default_modal_action(action)
    }
}

} // verus!
