//! Commands, key sequences and the keymap that binds one to the other.
use vstd::prelude::*;

verus! {

/// A key on the keyboard.
#[derive(Clone, Copy, Debug, PartialEq, Eq, Structural)]
pub enum KeyCode {
    Char(char),
    Backspace,
    Enter,
    Tab,
    Esc,
    Up,
    Down,
    Left,
    Right,
}

/// A key press, with the modifier held down with it.
#[derive(Clone, Copy, Debug, PartialEq, Eq, Structural)]
pub enum Key {
    Plain(KeyCode),
    Ctrl(KeyCode),
    Alt(KeyCode),
}

/// Key presses in the order in which they came.
pub struct KeySequence {
    pub keys: Vec<Key>,
}

/// What the user asks the application to do.
#[derive(Clone, Copy, Debug, PartialEq, Eq, Structural)]
pub enum Command {
    NextTrack,
    PreviousTrack,
    ResumePause,
    Quit,
    FocusNextWindow,
    FocusPreviousWindow,
    SelectNextOrScrollDown,
    SelectPreviousOrScrollUp,
    ChooseSelected,
    ShowActionsOnSelectedItem,
    SearchContext,
    PlayRandom,
    SortTrackByTitle,
    SortTrackByAlbum,
    SortTrackByArtists,
    SortTrackByAddedDate,
    SortTrackByDuration,
    ReverseTrackOrder,
}

/// A key sequence bound to a command.
pub struct Keymap {
    pub key_sequence: KeySequence,
    pub command: Command,
}

/// The table of key bindings, searched in order.
pub struct KeymapConfig {
    pub keymaps: Vec<Keymap>,
}

/// The command of the first binding in `maps` whose key sequence is `keys`.
pub open spec fn command_for(maps: Seq<Keymap>, keys: Seq<Key>) -> Option<Command>
    decreases maps.len(),
{
    if maps.len() == 0 {
        None
    } else if maps[0].key_sequence.keys@ == keys {
        Some(maps[0].command)
    } else {
        command_for(maps.drop_first(), keys)
    }
}

impl KeySequence {
    /// Whether both sequences hold the same keys in the same order.
    pub fn same_keys(&self, other: &KeySequence) -> (r: bool)
        ensures
            r == (self.keys@ == other.keys@),
    {
        let n = self.keys.len();
        if n != other.keys.len() {
            return false;
        }
        let mut i: usize = 0;
        while i < n
            invariant
                n == self.keys@.len(),
                n == other.keys@.len(),
                0 <= i <= n,
                forall|j: int| 0 <= j < i ==> self.keys@[j] == other.keys@[j],
            decreases n - i,
        {
            if self.keys[i] != other.keys[i] {
                return false;
            }
            i = i + 1;
        }
        assert(self.keys@ =~= other.keys@);
        true
    }
}

impl KeymapConfig {
    pub open spec fn command_spec(&self, key_sequence: &KeySequence) -> Option<Command> {
        command_for(self.keymaps@, key_sequence.keys@)
    }

    /// Finds the command bound to exactly this key sequence, if any.
    pub fn find_command_from_key_sequence(&self, key_sequence: &KeySequence) -> (r: Option<
        Command,
    >)
        ensures
            r == self.command_spec(key_sequence),
    {
        let n = self.keymaps.len();
        let mut i: usize = 0;
        assert(self.keymaps@.skip(0) =~= self.keymaps@);
        while i < n
            invariant
                n == self.keymaps@.len(),
                0 <= i <= n,
                command_for(self.keymaps@, key_sequence.keys@) == command_for(
                    self.keymaps@.skip(i as int),
                    key_sequence.keys@,
                ),
            decreases n - i,
        {
            assert(self.keymaps@.skip(i as int).drop_first() =~= self.keymaps@.skip(i as int + 1));
            if self.keymaps[i].key_sequence.same_keys(key_sequence) {
                return Some(self.keymaps[i].command);
            }
            i = i + 1;
        }
        None
    }
}

} // verus!
