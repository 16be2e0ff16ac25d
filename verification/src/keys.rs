//! Translating key presses of the terminal into front-end commands.

use vstd::prelude::*;

verus! {

/// What the front end does for a key press.
#[derive(Debug, Clone, Copy, PartialEq, Eq, Structural)]
pub enum Command {
    Quit,
    Submit,
    Newline,
    ToggleHelp,
    NewSession,
    NextSession,
    PrevSession,
    ScrollUp,
    ScrollDown,
    PageUp,
    PageDown,
    FollowBottom,
    CycleFocus,
    InputChar(char),
    Backspace,
    Noop,
}

/// The key of a key press, among those the front end tells apart.
#[derive(Debug, Clone, Copy, PartialEq, Eq, Structural)]
pub enum KeyCode {
    Char(char),
    Tab,
    Left,
    Right,
    Up,
    Down,
    PageUp,
    PageDown,
    End,
    Enter,
    Backspace,
    /// Any other key.
    Other,
}

/// The modifier keys held during a key press.
#[derive(Debug, Clone, Copy, PartialEq, Eq, Structural)]
pub struct KeyModifiers {
    pub control: bool,
    pub shift: bool,
}

impl KeyModifiers {
    /// No modifier.
    pub fn none() -> (m: KeyModifiers)
        ensures
            !m.control && !m.shift,
    {
        KeyModifiers { control: false, shift: false }
    }

    /// Shift alone.
    pub fn shift() -> (m: KeyModifiers)
        ensures
            !m.control && m.shift,
    {
        KeyModifiers { control: false, shift: true }
    }

    /// Control alone.
    pub fn control() -> (m: KeyModifiers)
        ensures
            m.control && !m.shift,
    {
        KeyModifiers { control: true, shift: false }
    }
}

/// A key press.
#[derive(Debug, Clone, Copy, PartialEq, Eq, Structural)]
pub struct KeyEvent {
    pub code: KeyCode,
    pub modifiers: KeyModifiers,
}

impl KeyEvent {
    /// The press of `code` with `modifiers` held.
    pub fn new(code: KeyCode, modifiers: KeyModifiers) -> (k: KeyEvent)
        ensures
            k == (KeyEvent { code, modifiers }),
    {
        KeyEvent { code, modifiers }
    }
}

/// The command bound to a key press: Ctrl+C and `q` quit; Tab cycles the
/// focus; `?` toggles help; `n` opens a session; `h`/Left and `l`/Right switch
/// sessions; `j`/Down and `k`/Up scroll; PageUp, PageDown and End page and
/// follow; Enter submits (Shift+Enter inserts a newline); Backspace deletes;
/// any other character is typed; anything else does nothing.
pub open spec fn command_for(key: KeyEvent) -> Command {
    if key.modifiers.control && key.code == KeyCode::Char('c') {
        Command::Quit
    } else {
        match key.code {
            KeyCode::Char('q') => Command::Quit,
            KeyCode::Tab => Command::CycleFocus,
            KeyCode::Char('?') => Command::ToggleHelp,
            KeyCode::Char('n') => Command::NewSession,
            KeyCode::Char('h') | KeyCode::Left => Command::PrevSession,
            KeyCode::Char('l') | KeyCode::Right => Command::NextSession,
            KeyCode::Char('j') | KeyCode::Down => Command::ScrollDown,
            KeyCode::Char('k') | KeyCode::Up => Command::ScrollUp,
            KeyCode::PageUp => Command::PageUp,
            KeyCode::PageDown => Command::PageDown,
            KeyCode::End => Command::FollowBottom,
            KeyCode::Enter => if key.modifiers.shift {
                Command::Newline
            } else {
                Command::Submit
            },
            KeyCode::Backspace => Command::Backspace,
            KeyCode::Char(c) => Command::InputChar(c),
            _ => Command::Noop,
        }
    }
}

/// Translates a key press into a front-end command.
pub fn map_key(key: KeyEvent) -> (c: Command)
    ensures
        c == command_for(key),
{
    if key.modifiers.control {
        if let KeyCode::Char('c') = key.code {
            return Command::Quit;
        }
    }
    match key.code {
        KeyCode::Char('q') => Command::Quit,
        KeyCode::Tab => Command::CycleFocus,
        KeyCode::Char('?') => Command::ToggleHelp,
        KeyCode::Char('n') => Command::NewSession,
        KeyCode::Char('h') | KeyCode::Left => Command::PrevSession,
        KeyCode::Char('l') | KeyCode::Right => Command::NextSession,
        KeyCode::Char('j') | KeyCode::Down => Command::ScrollDown,
        KeyCode::Char('k') | KeyCode::Up => Command::ScrollUp,
        KeyCode::PageUp => Command::PageUp,
        KeyCode::PageDown => Command::PageDown,
        KeyCode::End => Command::FollowBottom,
        KeyCode::Enter => {
            if key.modifiers.shift {
                Command::Newline
            } else {
                Command::Submit
            }
        },
        KeyCode::Backspace => Command::Backspace,
        KeyCode::Char(c) => Command::InputChar(c),
        _ => Command::Noop,
    }
}

/// The press of `code` with `modifiers` held.
pub open spec fn key_press(code: KeyCode, modifiers: KeyModifiers) -> KeyEvent {
    KeyEvent { code, modifiers }
}

/// Law: the letter keys `h`, `j`, `k` and `l` do what the arrow keys Left,
/// Down, Up and Right do, whatever modifiers are held; Down and `j` scroll
/// down, Up and `k` scroll up, Left and `h` go to the previous session, Right
/// and `l` to the next.
pub proof fn letter_keys_match_arrows(m: KeyModifiers)
    ensures
        command_for(key_press(KeyCode::Char('j'), m)) == command_for(key_press(KeyCode::Down, m)),
        command_for(key_press(KeyCode::Char('k'), m)) == command_for(key_press(KeyCode::Up, m)),
        command_for(key_press(KeyCode::Char('h'), m)) == command_for(key_press(KeyCode::Left, m)),
        command_for(key_press(KeyCode::Char('l'), m)) == command_for(key_press(KeyCode::Right, m)),
        command_for(key_press(KeyCode::Down, m)) == Command::ScrollDown,
        command_for(key_press(KeyCode::Up, m)) == Command::ScrollUp,
        command_for(key_press(KeyCode::Left, m)) == Command::PrevSession,
        command_for(key_press(KeyCode::Right, m)) == Command::NextSession,
{
}

/// Law: held modifiers change the command of a key press only for Ctrl+C
/// (quit) and Shift+Enter (newline); every other key does the same with any
/// modifiers.
pub proof fn modifiers_matter_only_for_ctrl_c_and_enter(code: KeyCode, m1: KeyModifiers, m2: KeyModifiers)
    requires
        code != KeyCode::Char('c'),
        code != KeyCode::Enter,
    ensures
        command_for(key_press(code, m1)) == command_for(key_press(code, m2)),
{
}

/// Law: the bindings of the front end. Ctrl+C and `q` quit, Tab cycles the
/// focus, `?` toggles help, `n` opens a session, PageUp and PageDown page, End
/// follows the bottom, Enter submits and Shift+Enter inserts a newline,
/// Backspace deletes, a key the front end does not tell apart does nothing,
/// and any other character is typed as itself.
pub proof fn key_bindings(m: KeyModifiers, c: char)
    ensures
        command_for(key_press(KeyCode::Char('c'), (KeyModifiers { control: true, shift: m.shift }))) == Command::Quit,
        command_for(key_press(KeyCode::Char('q'), m)) == Command::Quit,
        command_for(key_press(KeyCode::Tab, m)) == Command::CycleFocus,
        command_for(key_press(KeyCode::Char('?'), m)) == Command::ToggleHelp,
        command_for(key_press(KeyCode::Char('n'), m)) == Command::NewSession,
        command_for(key_press(KeyCode::PageUp, m)) == Command::PageUp,
        command_for(key_press(KeyCode::PageDown, m)) == Command::PageDown,
        command_for(key_press(KeyCode::End, m)) == Command::FollowBottom,
        command_for(key_press(KeyCode::Enter, m)) == (if m.shift { Command::Newline } else { Command::Submit }),
        command_for(key_press(KeyCode::Backspace, m)) == Command::Backspace,
        command_for(key_press(KeyCode::Other, m)) == Command::Noop,
        !(c == 'q' || c == '?' || c == 'n' || c == 'h' || c == 'l' || c == 'j' || c == 'k' || (c == 'c'
            && m.control)) ==> command_for(key_press(KeyCode::Char(c), m)) == Command::InputChar(c),
{
}

} // verus!
