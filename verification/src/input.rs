//! Keyboard and controller input and the actions they map to.
use vstd::prelude::*;

verus! {

/// The keyboard keys the launcher distinguishes. Any other key is
/// carried by its numeric code.
#[derive(Copy, Clone, Debug, PartialEq, Eq, Structural, Hash)]
pub enum KeyCode {
    Key1,
    Key2,
    Return,
    Escape,
    Up,
    Down,
    Left,
    Right,
    Tab,
    F1,
    F2,
    Back,
    Delete,
    Home,
    End,
    Space,
    Other(u32),
}

/// Buttons and directions of a game controller.
#[derive(Copy, Clone, Debug, PartialEq, Eq, Structural, Hash)]
pub enum ControllerInput {
    ButtonNorth,
    ButtonSouth,
    ButtonEast,
    ButtonWest,
    ButtonStart,
    ButtonBack,
    ButtonGuide,
    DirectionLeft,
    DirectionRight,
    DirectionUp,
    DirectionDown,
}

/// Raw text input that is not mapped to a navigation action.
#[derive(Clone, Debug, PartialEq, Eq, Hash)]
pub enum InputType {
    /// A key with no character, such as backspace or home.
    Key(KeyCode),
    /// A typed character.
    Char(char),
    /// Text pasted from the clipboard.
    Paste(String),
}

/// Actions that user input is translated into.
#[derive(Clone, Debug, PartialEq, Eq, Hash)]
pub enum Actions {
    Info,
    Accept,
    Select,
    Back,
    Up,
    Down,
    Left,
    Right,
    Filter,
    ToggleOverlay,
    ShowMenu,
    KeyPress(InputType),
}

/// A copy of `action` (`Clone` spelled out, so that the copy is known to
/// be equal).
pub fn copy_action(action: &Actions) -> (c: Actions)
    ensures
        c == *action,
{
    match action {
        Actions::Info => Actions::Info,
        Actions::Accept => Actions::Accept,
        Actions::Select => Actions::Select,
        Actions::Back => Actions::Back,
        Actions::Up => Actions::Up,
        Actions::Down => Actions::Down,
        Actions::Left => Actions::Left,
        Actions::Right => Actions::Right,
        Actions::Filter => Actions::Filter,
        Actions::ToggleOverlay => Actions::ToggleOverlay,
        Actions::ShowMenu => Actions::ShowMenu,
        Actions::KeyPress(InputType::Key(k)) => Actions::KeyPress(InputType::Key(*k)),
        Actions::KeyPress(InputType::Char(c)) => Actions::KeyPress(InputType::Char(*c)),
        Actions::KeyPress(InputType::Paste(t)) => Actions::KeyPress(InputType::Paste(t.clone())),
    }
}

/// The map that a list of bindings describes, where a later binding of a
/// key replaces an earlier one.
pub open spec fn spec_bindings<K>(entries: Seq<(K, Actions)>) -> Map<K, Actions>
    decreases entries.len(),
{
    if entries.len() == 0 {
        Map::empty()
    } else {
        spec_bindings(entries.drop_last()).insert(entries.last().0, entries.last().1)
    }
}

/// Which action each keyboard key and each controller input stands for.
pub struct InputMap {
    pub keys: Vec<(KeyCode, Actions)>,
    pub cont: Vec<(ControllerInput, Actions)>,
}

impl InputMap {
    /// The actions bound to keyboard keys.
    pub open spec fn key_map(&self) -> Map<KeyCode, Actions> {
        spec_bindings(self.keys@)
    }

    /// The actions bound to controller inputs.
    pub open spec fn controller_map(&self) -> Map<ControllerInput, Actions> {
        spec_bindings(self.cont@)
    }

    /// A map that binds nothing.
    pub fn new() -> (m: InputMap)
        ensures
            m.key_map() == Map::<KeyCode, Actions>::empty(),
            m.controller_map() == Map::<ControllerInput, Actions>::empty(),
    {
        InputMap { keys: Vec::new(), cont: Vec::new() }
    }

    /// Binds both `code` and `button` to `action`.
    pub fn insert(&mut self, code: KeyCode, button: ControllerInput, action: Actions)
        ensures
            final(self).key_map() == old(self).key_map().insert(code, action),
            final(self).controller_map() == old(self).controller_map().insert(button, action),
    {
        let copy = copy_action(&action);
        self.keys.push((code, copy));
        self.cont.push((button, action));
        assert(self.keys@.drop_last() =~= old(self).keys@);
        assert(self.cont@.drop_last() =~= old(self).cont@);
    }

    /// The action bound to the key `code` if one is given, otherwise the
    /// action bound to the controller input `button`, if any.
    pub fn get(&self, code: Option<KeyCode>, button: Option<ControllerInput>) -> (r: Option<&Actions>)
        ensures
            match code {
                Some(c) => if self.key_map().dom().contains(c) {
                    r == Some(&self.key_map()[c])
                } else {
                    r is None
                },
                None => match button {
                    Some(b) => if self.controller_map().dom().contains(b) {
                        r == Some(&self.controller_map()[b])
                    } else {
                        r is None
                    },
                    None => r is None,
                },
            },
    {
        if let Some(c) = code {
            let mut i = self.keys.len();
            assert(self.keys@.take(i as int) =~= self.keys@);
            while i > 0
                invariant
                    code == Some(c),
                    i <= self.keys@.len(),
                    spec_bindings(self.keys@.take(i as int)).dom().contains(c)
                        == self.key_map().dom().contains(c),
                    spec_bindings(self.keys@.take(i as int)).dom().contains(c)
                        ==> spec_bindings(self.keys@.take(i as int))[c] == self.key_map()[c],
                decreases i,
            {
                assert(self.keys@.take(i as int).drop_last() =~= self.keys@.take(i - 1));
                if self.keys[i - 1].0 == c {
                    assert(self.keys@.take(i as int).last() == self.keys@[i - 1]);
                    return Some(&self.keys[i - 1].1);
                }
                i = i - 1;
            }
            return None;
        } else if let Some(b) = button {
            let mut i = self.cont.len();
            assert(self.cont@.take(i as int) =~= self.cont@);
            while i > 0
                invariant
                    code is None,
                    button == Some(b),
                    i <= self.cont@.len(),
                    spec_bindings(self.cont@.take(i as int)).dom().contains(b)
                        == self.controller_map().dom().contains(b),
                    spec_bindings(self.cont@.take(i as int)).dom().contains(b)
                        ==> spec_bindings(self.cont@.take(i as int))[b] == self.controller_map()[b],
                decreases i,
            {
                assert(self.cont@.take(i as int).drop_last() =~= self.cont@.take(i - 1));
                if self.cont[i - 1].0 == b {
                    assert(self.cont@.take(i as int).last() == self.cont@[i - 1]);
                    return Some(&self.cont[i - 1].1);
                }
                i = i - 1;
            }
            return None;
        }
        None
    }
}

/// A key or controller input bound last is looked up to the action it was
/// bound to, and every other key and input keeps its binding.
pub proof fn lemma_bind_then_lookup(
    m: InputMap,
    code: KeyCode,
    button: ControllerInput,
    action: Actions,
    other_code: KeyCode,
    other_button: ControllerInput,
)
    ensures
        m.key_map().insert(code, action).dom().contains(code),
        m.key_map().insert(code, action)[code] == action,
        m.controller_map().insert(button, action).dom().contains(button),
        m.controller_map().insert(button, action)[button] == action,
        other_code != code ==> m.key_map().insert(code, action).dom().contains(other_code)
            == m.key_map().dom().contains(other_code) && m.key_map().insert(code, action)[other_code]
            == m.key_map()[other_code],
        other_button != button ==> m.controller_map().insert(button, action).dom().contains(
            other_button,
        ) == m.controller_map().dom().contains(other_button) && m.controller_map().insert(
            button,
            action,
        )[other_button] == m.controller_map()[other_button],
{
}

/// The launcher's default key bindings.
pub open spec fn spec_default_keys() -> Map<KeyCode, Actions> {
    map![
        KeyCode::Key1 => Actions::Info,
        KeyCode::Key2 => Actions::Filter,
        KeyCode::Return => Actions::Accept,
        KeyCode::Escape => Actions::Back,
        KeyCode::Up => Actions::Up,
        KeyCode::Down => Actions::Down,
        KeyCode::Right => Actions::Right,
        KeyCode::Left => Actions::Left,
        KeyCode::Tab => Actions::Select,
        KeyCode::F1 => Actions::ShowMenu,
        KeyCode::F2 => Actions::ToggleOverlay
    ]
}

/// The launcher's default controller bindings.
pub open spec fn spec_default_controller() -> Map<ControllerInput, Actions> {
    map![
        ControllerInput::ButtonWest => Actions::Info,
        ControllerInput::ButtonNorth => Actions::Filter,
        ControllerInput::ButtonSouth => Actions::Accept,
        ControllerInput::ButtonEast => Actions::Back,
        ControllerInput::DirectionUp => Actions::Up,
        ControllerInput::DirectionDown => Actions::Down,
        ControllerInput::DirectionRight => Actions::Right,
        ControllerInput::DirectionLeft => Actions::Left,
        ControllerInput::ButtonBack => Actions::Select,
        ControllerInput::ButtonStart => Actions::ShowMenu,
        ControllerInput::ButtonGuide => Actions::ToggleOverlay
    ]
}

/// The action that moves in the direction an arrow key or a direction of
/// the d-pad points to.
pub open spec fn spec_arrow_action(key: Option<KeyCode>, pad: Option<ControllerInput>) -> Option<Actions> {
    if key == Some(KeyCode::Up) || pad == Some(ControllerInput::DirectionUp) {
        Some(Actions::Up)
    } else if key == Some(KeyCode::Down) || pad == Some(ControllerInput::DirectionDown) {
        Some(Actions::Down)
    } else if key == Some(KeyCode::Left) || pad == Some(ControllerInput::DirectionLeft) {
        Some(Actions::Left)
    } else if key == Some(KeyCode::Right) || pad == Some(ControllerInput::DirectionRight) {
        Some(Actions::Right)
    } else {
        None
    }
}

/// With the default bindings, every arrow key and every direction of the
/// d-pad moves in the direction it points to, whatever character a key
/// press carries; the keyboard and the d-pad agree.
pub proof fn lemma_default_directions(key: KeyCode, c: Option<char>, pad: ControllerInput)
    ensures
        spec_arrow_action(Some(key), None) matches Some(a) ==> spec_key_action(
            spec_default_keys(),
            (key, c),
        ) == a,
        spec_arrow_action(None, Some(pad)) matches Some(a) ==> spec_controller_action(
            spec_default_controller(),
            pad,
        ) == a,
{
}

/// The default bindings of keys and controller inputs to actions.
pub fn get_input_map() -> (m: InputMap)
    ensures
        m.key_map() == spec_default_keys(),
        m.controller_map() == spec_default_controller(),
{
    let mut m = InputMap::new();
    m.insert(KeyCode::Key1, ControllerInput::ButtonWest, Actions::Info);
    m.insert(KeyCode::Key2, ControllerInput::ButtonNorth, Actions::Filter);
    m.insert(KeyCode::Return, ControllerInput::ButtonSouth, Actions::Accept);
    m.insert(KeyCode::Escape, ControllerInput::ButtonEast, Actions::Back);
    m.insert(KeyCode::Up, ControllerInput::DirectionUp, Actions::Up);
    m.insert(KeyCode::Down, ControllerInput::DirectionDown, Actions::Down);
    m.insert(KeyCode::Right, ControllerInput::DirectionRight, Actions::Right);
    m.insert(KeyCode::Left, ControllerInput::DirectionLeft, Actions::Left);
    m.insert(KeyCode::Tab, ControllerInput::ButtonBack, Actions::Select);
    m.insert(KeyCode::F1, ControllerInput::ButtonStart, Actions::ShowMenu);
    m.insert(KeyCode::F2, ControllerInput::ButtonGuide, Actions::ToggleOverlay);
    assert(m.key_map() =~= spec_default_keys());
    assert(m.controller_map() =~= spec_default_controller());
    m
}

/// The number of a controller input, in the order the inputs are
/// declared.
pub open spec fn spec_controller_code(g: ControllerInput) -> u8 {
    match g {
        ControllerInput::ButtonNorth => 0,
        ControllerInput::ButtonSouth => 1,
        ControllerInput::ButtonEast => 2,
        ControllerInput::ButtonWest => 3,
        ControllerInput::ButtonStart => 4,
        ControllerInput::ButtonBack => 5,
        ControllerInput::ButtonGuide => 6,
        ControllerInput::DirectionLeft => 7,
        ControllerInput::DirectionRight => 8,
        ControllerInput::DirectionUp => 9,
        ControllerInput::DirectionDown => 10,
    }
}

fn controller_code(g: ControllerInput) -> (c: u8)
    ensures
        c == spec_controller_code(g),
{
    match g {
        ControllerInput::ButtonNorth => 0,
        ControllerInput::ButtonSouth => 1,
        ControllerInput::ButtonEast => 2,
        ControllerInput::ButtonWest => 3,
        ControllerInput::ButtonStart => 4,
        ControllerInput::ButtonBack => 5,
        ControllerInput::ButtonGuide => 6,
        ControllerInput::DirectionLeft => 7,
        ControllerInput::DirectionRight => 8,
        ControllerInput::DirectionUp => 9,
        ControllerInput::DirectionDown => 10,
    }
}

/// The action of a key press: the bound action if the key has one,
/// otherwise the typed character, otherwise the key itself.
pub open spec fn spec_key_action(map: Map<KeyCode, Actions>, key: (KeyCode, Option<char>)) -> Actions {
    if map.dom().contains(key.0) {
        map[key.0]
    } else {
        match key.1 {
            Some(c) => Actions::KeyPress(InputType::Char(c)),
            None => Actions::KeyPress(InputType::Key(key.0)),
        }
    }
}

/// The action of a controller input: the bound action, or else a key
/// press carrying the input's number as a character.
pub open spec fn spec_controller_action(map: Map<ControllerInput, Actions>, g: ControllerInput) -> Actions {
    if map.dom().contains(g) {
        map[g]
    } else {
        Actions::KeyPress(InputType::Char(spec_controller_code(g) as char))
    }
}

/// Translates the keys pressed and the controller inputs of a frame into
/// actions: first one per key, in order, then one per controller input.
pub fn input_to_action(input_map: &InputMap, keyboard: &Vec<(KeyCode, Option<char>)>, gamepad: &Vec<ControllerInput>) -> (result: Vec<Actions>)
    ensures
        result@.len() == keyboard@.len() + gamepad@.len(),
        forall|i: int|
            0 <= i < keyboard@.len() ==> result@[i] == spec_key_action(
                input_map.key_map(),
                #[trigger] keyboard@[i],
            ),
        forall|i: int|
            0 <= i < gamepad@.len() ==> result@[keyboard@.len() + i] == spec_controller_action(
                input_map.controller_map(),
                #[trigger] gamepad@[i],
            ),
{
    let mut result: Vec<Actions> = Vec::new();
    let mut i: usize = 0;
    while i < keyboard.len()
        invariant
            i <= keyboard@.len(),
            result@.len() == i,
            forall|j: int|
                0 <= j < i ==> result@[j] == spec_key_action(
                    input_map.key_map(),
                    #[trigger] keyboard@[j],
                ),
        decreases keyboard@.len() - i,
    {
        let (code, ch) = keyboard[i];
        match input_map.get(Some(code), None) {
            Some(action) => result.push(copy_action(action)),
            None => match ch {
                Some(c) => result.push(Actions::KeyPress(InputType::Char(c))),
                None => result.push(Actions::KeyPress(InputType::Key(code))),
            },
        }
        i = i + 1;
    }
    let mut j: usize = 0;
    while j < gamepad.len()
        invariant
            j <= gamepad@.len(),
            result@.len() == keyboard@.len() + j,
            forall|k: int|
                0 <= k < keyboard@.len() ==> result@[k] == spec_key_action(
                    input_map.key_map(),
                    #[trigger] keyboard@[k],
                ),
            forall|k: int|
                0 <= k < j ==> result@[keyboard@.len() + k] == spec_controller_action(
                    input_map.controller_map(),
                    #[trigger] gamepad@[k],
                ),
        decreases gamepad@.len() - j,
    {
        let g = gamepad[j];
        match input_map.get(None, Some(g)) {
            Some(action) => result.push(copy_action(action)),
            None => {
                let code = controller_code(g);
                result.push(Actions::KeyPress(InputType::Char(code as char)));
            },
        }
        j = j + 1;
    }
    result
}

} // verus!
