//! Input controls of dialogs: text boxes, check boxes, images and
//! selectable lists.
use vstd::prelude::*;
use crate::input::{Actions, InputType, KeyCode};
use crate::plugin::PathType;
use crate::text::{
    byte_len,
    spec_byte_len,
    spec_char_at_byte,
    spec_is_boundary,
    string_insert,
    string_insert_str,
    string_remove,
    spec_byte_offset,
    lemma_char_at_byte_unique,
    lemma_byte_len_offset,
    lemma_offset_strictly_increasing,
};

verus! {

/// A control of a dialog that reacts to actions.
pub trait Control {
    /// Whether the control can handle `action` in its current state.
    spec fn action_ok(&self, action: Actions) -> bool;

    fn action(&mut self, action: &Actions)
        requires
            old(self).action_ok(*action),
    ;
}

/// A control that holds a value the user edits.
pub trait InputControl: Control {
    fn value(&self) -> &str;

    fn set_focused(&mut self, value: bool);
}

/// A labelled single line text field with a caret, kept as a byte
/// position in the text.
pub struct TextBox {
    pub text: String,
    pub caret: usize,
    pub label: String,
    pub focused: bool,
}

/// The text and caret of a text box after `action`.
pub open spec fn spec_text_box_action(text: Seq<char>, caret: int, action: Actions) -> (Seq<char>, int) {
    match action {
        Actions::KeyPress(InputType::Key(k)) => match k {
            KeyCode::Back => if caret > 0 {
                (text.remove(spec_char_at_byte(text, caret - 1)), caret - 1)
            } else {
                (text, caret)
            },
            KeyCode::Delete => if caret < spec_byte_len(text) {
                (text.remove(spec_char_at_byte(text, caret)), caret)
            } else {
                (text, caret)
            },
            KeyCode::Home => (text, 0),
            KeyCode::End => (text, spec_byte_len(text)),
            _ => (text, caret),
        },
        Actions::KeyPress(InputType::Char(c)) => (
            text.insert(spec_char_at_byte(text, caret), c),
            caret + 1,
        ),
        Actions::KeyPress(InputType::Paste(t)) => (
            text.take(spec_char_at_byte(text, caret)) + t@ + text.skip(
                spec_char_at_byte(text, caret),
            ),
            caret + spec_byte_len(t@),
        ),
        Actions::Right => if caret < spec_byte_len(text) {
            (text, caret + 1)
        } else {
            (text, caret)
        },
        Actions::Left => if caret > 0 {
            (text, caret - 1)
        } else {
            (text, caret)
        },
        _ => (text, caret),
    }
}

/// Whether a text box with `text` and `caret` can handle `action`: the
/// text is only edited at character boundaries, and the caret stays
/// within `usize`.
pub open spec fn spec_text_box_action_ok(text: Seq<char>, caret: int, action: Actions) -> bool {
    match action {
        Actions::KeyPress(InputType::Key(KeyCode::Back)) => caret > 0 ==> spec_is_boundary(
            text,
            caret - 1,
        ) && caret - 1 < spec_byte_len(text),
        Actions::KeyPress(InputType::Key(KeyCode::Delete)) => caret < spec_byte_len(text)
            ==> spec_is_boundary(text, caret),
        Actions::KeyPress(InputType::Char(_)) => spec_is_boundary(text, caret) && caret
            < usize::MAX,
        Actions::KeyPress(InputType::Paste(t)) => spec_is_boundary(text, caret) && caret
            + spec_byte_len(t@) <= usize::MAX,
        _ => true,
    }
}

impl TextBox {
    pub fn new(label: String, text: String) -> (t: TextBox)
        ensures
            t.label == label,
            t.text == text,
            t.caret == 0,
            !t.focused,
    {
        TextBox { label, text, caret: 0, focused: false }
    }

    pub fn from_str(label: String, text: &str) -> (t: TextBox)
        ensures
            t.label == label,
            t.text@ == text@,
            t.caret == 0,
            !t.focused,
    {
        TextBox { label, text: String::from_str(text), caret: 0, focused: false }
    }
}

impl Control for TextBox {
    open spec fn action_ok(&self, action: Actions) -> bool {
        spec_text_box_action_ok(self.text@, self.caret as int, action)
    }

    /// Edits the text: backspace and delete remove the character before
    /// or at the caret, home and end move the caret to either end, typed
    /// characters and pasted text are inserted at the caret, which moves
    /// past them; left and right move the caret by one byte.
    fn action(&mut self, action: &Actions)
        ensures
            final(self).text@ == spec_text_box_action(
                old(self).text@,
                old(self).caret as int,
                *action,
            ).0,
            final(self).caret == spec_text_box_action(
                old(self).text@,
                old(self).caret as int,
                *action,
            ).1,
            final(self).label == old(self).label,
            final(self).focused == old(self).focused,
    {
        let len = byte_len(self.text.as_str());
        match action {
            Actions::KeyPress(InputType::Key(k)) => {
                match k {
                    KeyCode::Back => {
                        if self.caret > 0 {
                            string_remove(&mut self.text, self.caret - 1);
                            self.caret = self.caret - 1;
                        }
                    },
                    KeyCode::Delete => {
                        if self.caret < len {
                            string_remove(&mut self.text, self.caret);
                        }
                    },
                    KeyCode::Home => self.caret = 0,
                    KeyCode::End => self.caret = len,
                    _ => {},
                }
            },
            Actions::KeyPress(InputType::Char(c)) => {
                string_insert(&mut self.text, self.caret, *c);
                self.caret = self.caret + 1;
            },
            Actions::KeyPress(InputType::Paste(t)) => {
                let n = byte_len(t.as_str());
                string_insert_str(&mut self.text, self.caret, t.as_str());
                self.caret = self.caret + n;
            },
            Actions::Right => if self.caret < len {
                self.caret = self.caret + 1
            },
            Actions::Left => if self.caret > 0 {
                self.caret = self.caret - 1
            },
            _ => {},
        }
    }
}

impl InputControl for TextBox {
    fn value(&self) -> (v: &str)
        ensures
            v@ == self.text@,
    {
        self.text.as_str()
    }

    fn set_focused(&mut self, value: bool)
        ensures
            final(self).focused == value,
            final(self).text == old(self).text,
            final(self).caret == old(self).caret,
            final(self).label == old(self).label,
    {
        self.focused = value;
    }
}

/// Typing a character at a character boundary and then pressing
/// backspace gives back the text and the caret the box had before.
pub proof fn lemma_type_then_backspace(text: Seq<char>, caret: int, c: char)
    requires
        spec_text_box_action_ok(text, caret, Actions::KeyPress(InputType::Char(c))),
    ensures
        ({
            let typed = spec_text_box_action(text, caret, Actions::KeyPress(InputType::Char(c)));
            let back = Actions::KeyPress(InputType::Key(KeyCode::Back));
            &&& spec_text_box_action_ok(typed.0, typed.1, back)
            &&& spec_text_box_action(typed.0, typed.1, back) == (text, caret)
        }),
{
    let k = spec_char_at_byte(text, caret);
    assert(0 <= k <= text.len() && spec_byte_offset(text, k) == caret);
    let typed = text.insert(k, c);
    assert(typed.take(k) =~= text.take(k));
    assert(spec_byte_offset(typed, k) == caret);
    lemma_char_at_byte_unique(typed, k);
    lemma_offset_strictly_increasing(typed, k, typed.len() as int);
    lemma_byte_len_offset(typed);
    assert(typed.remove(k) =~= text);
}

/// Delete removes the character that starts at the caret and leaves the
/// caret where it is; with the caret at the end of the text it changes
/// nothing.
pub proof fn lemma_delete_at_caret(text: Seq<char>, k: int)
    requires
        0 <= k <= text.len(),
    ensures
        k < text.len() ==> spec_text_box_action(
            text,
            spec_byte_offset(text, k),
            Actions::KeyPress(InputType::Key(KeyCode::Delete)),
        ) == (text.take(k) + text.skip(k + 1), spec_byte_offset(text, k)),
        k == text.len() ==> spec_text_box_action(
            text,
            spec_byte_offset(text, k),
            Actions::KeyPress(InputType::Key(KeyCode::Delete)),
        ) == (text, spec_byte_offset(text, k)),
{
    lemma_char_at_byte_unique(text, k);
    lemma_byte_len_offset(text);
    if k < text.len() {
        lemma_offset_strictly_increasing(text, k, text.len() as int);
        assert(text.remove(k) =~= text.take(k) + text.skip(k + 1));
    }
}

/// A labelled check box.
pub struct CheckBox {
    pub checked: bool,
    pub label: String,
    pub focused: bool,
}

impl CheckBox {
    pub fn new(label: String, checked: bool) -> (b: CheckBox)
        ensures
            b.label == label,
            b.checked == checked,
            !b.focused,
    {
        CheckBox { label, checked, focused: false }
    }
}

/// Whether `action` toggles a check box: the space key.
pub open spec fn spec_toggles(action: Actions) -> bool {
    action matches Actions::KeyPress(InputType::Key(KeyCode::Space))
}

/// Whether a check box is checked after `action`.
pub open spec fn spec_check_after(checked: bool, action: Actions) -> bool {
    if spec_toggles(action) {
        !checked
    } else {
        checked
    }
}

impl Control for CheckBox {
    open spec fn action_ok(&self, action: Actions) -> bool {
        true
    }

    /// The space key toggles the box; other actions leave it.
    fn action(&mut self, action: &Actions)
        ensures
            final(self).checked == spec_check_after(old(self).checked, *action),
            final(self).label == old(self).label,
            final(self).focused == old(self).focused,
    {
        if let Actions::KeyPress(InputType::Key(KeyCode::Space)) = action {
            self.checked = !self.checked;
        }
    }
}

impl InputControl for CheckBox {
    /// `"true"` when checked, `"false"` otherwise.
    fn value(&self) -> (v: &str)
        ensures
            v@ == (if self.checked {
                "true"@
            } else {
                "false"@
            }),
    {
        if self.checked {
            "true"
        } else {
            "false"
        }
    }

    fn set_focused(&mut self, value: bool)
        ensures
            final(self).focused == value,
            final(self).checked == old(self).checked,
            final(self).label == old(self).label,
    {
        self.focused = value;
    }
}

/// An image shown in a dialog.
pub struct Image {
    pub image: PathType,
}

impl Image {
    pub fn new(image: PathType) -> (i: Image)
        ensures
            i.image == image,
    {
        Image { image }
    }
}

impl Control for Image {
    open spec fn action_ok(&self, action: Actions) -> bool {
        true
    }

    /// An image ignores every action.
    fn action(&mut self, action: &Actions)
        ensures
            *final(self) == *old(self),
    {
    }
}

/// An item that a list can show.
pub trait ListItem {
    fn to_display(&self) -> String;
}

impl ListItem for String {
    /// The string itself.
    fn to_display(&self) -> (s: String)
        ensures
            s@ == self@,
    {
        self.clone()
    }
}

/// A list of items of which one is selected.
pub struct List<T: ListItem> {
    pub items: Vec<T>,
    pub index: usize,
}

/// The selected position after `action` in a list of `len` items, which
/// wraps around at both ends.
pub open spec fn spec_list_index(index: int, len: int, action: Actions) -> int {
    match action {
        Actions::Down => if index < len - 1 {
            index + 1
        } else {
            0
        },
        Actions::Up => if index > 0 {
            index - 1
        } else {
            len - 1
        },
        _ => index,
    }
}

impl<T: ListItem> List<T> {
    /// A list of `items` with the first selected.
    pub fn new(items: Vec<T>) -> (l: List<T>)
        ensures
            l.items@ == items@,
            l.index == 0,
    {
        List { items, index: 0 }
    }

    /// The selected item.
    pub fn get_selected(&self) -> (item: &T)
        requires
            self.index < self.items@.len(),
        ensures
            *item == self.items@[self.index as int],
    {
        &self.items[self.index]
    }

    /// Down selects the next item and up the previous one, wrapping
    /// around at the ends. Returns whether the action was one of them.
    pub fn update(&mut self, action: &Actions) -> (handled: bool)
        requires
            (*action is Down || *action is Up) ==> old(self).items@.len() > 0,
        ensures
            handled == (*action is Down || *action is Up),
            final(self).index == spec_list_index(
                old(self).index as int,
                old(self).items@.len() as int,
                *action,
            ),
            final(self).items == old(self).items,
    {
        match action {
            Actions::Down => if self.index < self.items.len() - 1 {
                self.index = self.index + 1;
            } else {
                self.index = 0;
            },
            Actions::Up => if self.index > 0 {
                self.index = self.index - 1;
            } else {
                self.index = self.items.len() - 1;
            },
            _ => return false,
        }
        true
    }
}

/// In a list of at least one item, moving down and then up, or up and
/// then down, selects the item that was selected before.
pub proof fn lemma_list_down_up(index: int, len: int)
    requires
        0 <= index < len,
    ensures
        spec_list_index(spec_list_index(index, len, Actions::Down), len, Actions::Up) == index,
        spec_list_index(spec_list_index(index, len, Actions::Up), len, Actions::Down) == index,
        0 <= spec_list_index(index, len, Actions::Down) < len,
        0 <= spec_list_index(index, len, Actions::Up) < len,
{
}

/// Any action applied twice leaves a check box as it was: space toggles
/// it and back, everything else leaves it alone.
pub proof fn lemma_check_twice(checked: bool, action: Actions)
    ensures
        spec_check_after(spec_check_after(checked, action), action) == checked,
{
}

/// The first input field at or after position `start`, if any.
pub open spec fn spec_first_input_from(children: Seq<Option<String>>, start: int) -> Option<int>
    decreases children.len() - start,
{
    if start < 0 || start >= children.len() {
        None
    } else if children[start] is Some {
        Some(start)
    } else {
        spec_first_input_from(children, start + 1)
    }
}

/// The last input field at or before position `start`, if any.
pub open spec fn spec_last_input_to(children: Seq<Option<String>>, start: int) -> Option<int>
    decreases start + 1,
{
    if start < 0 || start >= children.len() {
        None
    } else if children[start] is Some {
        Some(start)
    } else {
        spec_last_input_to(children, start - 1)
    }
}

/// The last position of an input field tagged `tag`, if any.
pub open spec fn spec_tag_index(children: Seq<Option<String>>, tag: Seq<char>) -> Option<int>
    decreases children.len(),
{
    if children.len() == 0 {
        None
    } else if children.last() matches Some(t) && t@ == tag {
        Some(children.len() - 1)
    } else {
        spec_tag_index(children.drop_last(), tag)
    }
}

/// Where the search for the next focused field starts.
pub open spec fn spec_focus_start(len: int, focus: Option<usize>, next: bool) -> int {
    match focus {
        None => if next {
            0
        } else {
            len - 1
        },
        Some(i) => if next {
            i + 1
        } else if i == 0 {
            len - 1
        } else {
            i - 1
        },
    }
}

/// The focused field after moving focus forward or backward.
pub open spec fn spec_move_focus(children: Seq<Option<String>>, focus: Option<usize>, next: bool) -> Option<int> {
    let start = spec_focus_start(children.len() as int, focus, next);
    if next {
        spec_first_input_from(children, start)
    } else {
        spec_last_input_to(children, start)
    }
}

/// The layout of a group of controls and which of its input fields has
/// focus. Each child is an input field with its tag, or a plain control.
pub struct Container {
    pub children: Vec<Option<String>>,
    pub focus_index: Option<usize>,
}

impl Container {
    /// Focus is on an input field of the container, if anywhere.
    pub open spec fn wf(&self) -> bool {
        self.focus_index matches Some(i) ==> i < self.children@.len()
            && self.children@[i as int] is Some
    }

    /// A container with no children and no focus.
    pub fn new() -> (c: Container)
        ensures
            c.children@.len() == 0,
            c.focus_index is None,
            c.wf(),
    {
        Container { children: Vec::new(), focus_index: None }
    }

    pub fn child_count(&self) -> (n: usize)
        ensures
            n == self.children@.len(),
    {
        self.children.len()
    }

    /// Adds an input field that can be found by `tag`.
    pub fn add_field(&mut self, tag: &str)
        requires
            old(self).wf(),
        ensures
            final(self).wf(),
            final(self).children@.len() == old(self).children@.len() + 1,
            final(self).children@.drop_last() == old(self).children@,
            final(self).children@.last() matches Some(t) && t@ == tag@,
            final(self).focus_index == old(self).focus_index,
    {
        self.children.push(Some(String::from_str(tag)));
        assert(self.children@.drop_last() =~= old(self).children@);
    }

    /// Adds a control that never takes focus.
    pub fn add(&mut self)
        requires
            old(self).wf(),
        ensures
            final(self).wf(),
            final(self).children@ == old(self).children@.push(None),
            final(self).focus_index == old(self).focus_index,
    {
        self.children.push(None);
    }

    /// The position of the field last added with `tag`.
    pub fn by_tag(&self, tag: &str) -> (r: Option<usize>)
        ensures
            r matches Some(i) ==> spec_tag_index(self.children@, tag@) == Some(i as int)
                && i < self.children@.len() && (self.children@[i as int] matches Some(t) && t@
                == tag@),
            r is None ==> spec_tag_index(self.children@, tag@) is None,
    {
        let mut i = self.children.len();
        assert(self.children@.take(i as int) =~= self.children@);
        while i > 0
            invariant
                i <= self.children@.len(),
                spec_tag_index(self.children@, tag@) == spec_tag_index(
                    self.children@.take(i as int),
                    tag@,
                ),
            decreases i,
        {
            let ghost prefix = self.children@.take(i as int);
            assert(prefix.drop_last() =~= self.children@.take(i - 1));
            if let Some(t) = &self.children[i - 1] {
                if crate::text::str_eq(t.as_str(), tag) {
                    return Some(i - 1);
                }
            }
            i = i - 1;
        }
        None
    }

    /// Whether focus can move backward: some field lies at or before the
    /// position where the search starts.
    pub open spec fn move_focus_ok(&self, next: bool) -> bool {
        !next ==> spec_last_input_to(
            self.children@,
            spec_focus_start(self.children@.len() as int, self.focus_index, false),
        ) is Some
    }

    /// Moves focus to the next input field after the focused one, or to
    /// the previous one before it (wrapping to the last field from the
    /// first); moving forward past the last field leaves no field focused.
    pub fn move_focus(&mut self, next: bool)
        requires
            old(self).wf(),
            old(self).move_focus_ok(next),
        ensures
            final(self).wf(),
            final(self).children == old(self).children,
            final(self).focus_index matches Some(i) ==> spec_move_focus(
                old(self).children@,
                old(self).focus_index,
                next,
            ) == Some(i as int),
            final(self).focus_index is None ==> spec_move_focus(
                old(self).children@,
                old(self).focus_index,
                next,
            ) is None,
    {
        let len = self.children.len();
        let mut index: usize = match self.focus_index {
            None => if next {
                0
            } else {
                len - 1
            },
            Some(i) => if next {
                i + 1
            } else if i == 0 {
                len - 1
            } else {
                i - 1
            },
        };
        let ghost start = index as int;
        if next {
            while index < len && self.children[index].is_none()
                invariant
                    index <= len,
                    len == self.children@.len(),
                    spec_first_input_from(self.children@, index as int)
                        == spec_first_input_from(self.children@, start),
                decreases len - index,
            {
                index = index + 1;
            }
        } else {
            while self.children[index].is_none()
                invariant
                    index < len,
                    len == self.children@.len(),
                    spec_last_input_to(self.children@, index as int) == spec_last_input_to(
                        self.children@,
                        start,
                    ),
                    spec_last_input_to(self.children@, index as int) is Some,
                decreases index,
            {
                assert(spec_last_input_to(self.children@, index - 1) is Some);
                assert(index > 0) by {
                    if index == 0 {
                        assert(spec_last_input_to(self.children@, -1) is None);
                    }
                }
                index = index - 1;
            }
        }
        if index == len {
            self.focus_index = None;
        } else {
            self.focus_index = Some(index);
        }
    }

    /// Up moves focus backward and down forward; any other action goes to
    /// the focused field, whose position is returned.
    pub fn action(&mut self, action: &Actions) -> (target: Option<usize>)
        requires
            old(self).wf(),
            *action is Up ==> old(self).move_focus_ok(false),
        ensures
            final(self).wf(),
            final(self).children == old(self).children,
            (*action is Up || *action is Down) ==> target is None,
            !(*action is Up || *action is Down) ==> target == old(self).focus_index
                && final(self).focus_index == old(self).focus_index,
            *action is Up ==> (final(self).focus_index matches Some(i) ==> spec_move_focus(
                old(self).children@,
                old(self).focus_index,
                false,
            ) == Some(i as int)),
            *action is Down ==> (final(self).focus_index matches Some(i) ==> spec_move_focus(
                old(self).children@,
                old(self).focus_index,
                true,
            ) == Some(i as int)),
            *action is Down ==> (final(self).focus_index is None ==> spec_move_focus(
                old(self).children@,
                old(self).focus_index,
                true,
            ) is None),
    {
        match action {
            Actions::Up => {
                self.move_focus(false);
                None
            },
            Actions::Down => {
                self.move_focus(true);
                None
            },
            _ => self.focus_index,
        }
    }
}

} // verus!
