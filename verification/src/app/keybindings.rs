//! Key bindings: which key press is which action.
use vstd::prelude::*;
use crate::app::actions::Action;

verus! {

/// A key as the bindings see it.
#[derive(Debug, Clone, Copy, PartialEq, Eq, Structural)]
pub enum Key {
    Char(char),
    Up,
    Down,
    Left,
    Right,
    Enter,
    Esc,
    Backspace,
    Tab,
    BackTab,
    PageUp,
    PageDown,
    Other,
}

/// The action of a printable key outside the search screen; with
/// `vim_keys`, h/j/k/l move like the arrows.
pub open spec fn char_action(c: char, vim_keys: bool) -> Option<Action> {
    if c == 'q' {
        Some(Action::Quit)
    } else if vim_keys && c == 'k' {
        Some(Action::Up)
    } else if vim_keys && c == 'j' {
        Some(Action::Down)
    } else if vim_keys && c == 'h' {
        Some(Action::Left)
    } else if vim_keys && c == 'l' {
        Some(Action::Right)
    } else if c == ' ' {
        Some(Action::PlayPause)
    } else if c == 'n' {
        Some(Action::Next)
    } else if c == 'p' {
        Some(Action::Prev)
    } else if c == '+' || c == '=' {
        Some(Action::VolumeUp)
    } else if c == '-' {
        Some(Action::VolumeDown)
    } else if c == '.' {
        Some(Action::SeekForward)
    } else if c == ',' {
        Some(Action::SeekBackward)
    } else if c == 's' {
        Some(Action::ToggleShuffle)
    } else if c == 'r' {
        Some(Action::ToggleRepeat)
    } else if c == 'a' {
        Some(Action::PlayAll)
    } else if c == '/' {
        Some(Action::Search)
    } else if c == 'z' || c == 'L' {
        Some(Action::NowPlaying)
    } else if c == '?' {
        Some(Action::Help)
    } else {
        None
    }
}

/// The action bound to a key outside the search screen. With Ctrl held,
/// c quits and d and u move the cursor ten rows; any other key acts as
/// without Ctrl.
pub open spec fn key_action(key: Key, ctrl: bool, vim_keys: bool) -> Option<Action> {
    match key {
        Key::Char(c) => if ctrl && c == 'c' {
            Some(Action::Quit)
        } else if ctrl && c == 'd' {
            Some(Action::ScrollDown)
        } else if ctrl && c == 'u' {
            Some(Action::ScrollUp)
        } else {
            char_action(c, vim_keys)
        },
        Key::Up => Some(Action::Up),
        Key::Down => Some(Action::Down),
        Key::Left => Some(Action::Left),
        Key::Right => Some(Action::Right),
        Key::Enter => Some(Action::Enter),
        Key::Esc => Some(Action::Escape),
        Key::Backspace => Some(Action::GoBack),
        Key::Tab => Some(Action::Tab),
        Key::BackTab => Some(Action::BackTab),
        Key::PageUp => Some(Action::PageUp),
        Key::PageDown => Some(Action::PageDown),
        Key::Other => None,
    }
}

/// The action bound to a key on the search screen: printable keys without
/// Ctrl are typed into the query; Ctrl+c quits and Ctrl+d/u page.
pub open spec fn text_key_action(key: Key, ctrl: bool) -> Option<Action> {
    match key {
        Key::Char(c) => if ctrl {
            if c == 'c' {
                Some(Action::Quit)
            } else if c == 'd' {
                Some(Action::PageDown)
            } else if c == 'u' {
                Some(Action::PageUp)
            } else {
                None
            }
        } else {
            Some(Action::Char(c))
        },
        Key::Esc => Some(Action::Escape),
        Key::Backspace => Some(Action::GoBack),
        Key::Enter => Some(Action::Enter),
        Key::Up => Some(Action::Up),
        Key::Down => Some(Action::Down),
        Key::PageUp => Some(Action::PageUp),
        Key::PageDown => Some(Action::PageDown),
        _ => None,
    }
}

fn char_action_of(c: char, vim_keys: bool) -> (r: Option<Action>)
    ensures
        r == char_action(c, vim_keys),
{
    if c == 'q' {
        Some(Action::Quit)
    } else if vim_keys && c == 'k' {
        Some(Action::Up)
    } else if vim_keys && c == 'j' {
        Some(Action::Down)
    } else if vim_keys && c == 'h' {
        Some(Action::Left)
    } else if vim_keys && c == 'l' {
        Some(Action::Right)
    } else if c == ' ' {
        Some(Action::PlayPause)
    } else if c == 'n' {
        Some(Action::Next)
    } else if c == 'p' {
        Some(Action::Prev)
    } else if c == '+' || c == '=' {
        Some(Action::VolumeUp)
    } else if c == '-' {
        Some(Action::VolumeDown)
    } else if c == '.' {
        Some(Action::SeekForward)
    } else if c == ',' {
        Some(Action::SeekBackward)
    } else if c == 's' {
        Some(Action::ToggleShuffle)
    } else if c == 'r' {
        Some(Action::ToggleRepeat)
    } else if c == 'a' {
        Some(Action::PlayAll)
    } else if c == '/' {
        Some(Action::Search)
    } else if c == 'z' || c == 'L' {
        Some(Action::NowPlaying)
    } else if c == '?' {
        Some(Action::Help)
    } else {
        None
    }
}

/// The action bound to a key outside the search screen.
pub fn action_for_key(key: Key, ctrl: bool, vim_keys: bool) -> (r: Option<Action>)
    ensures
        r == key_action(key, ctrl, vim_keys),
{
    match key {
        Key::Char(c) => if ctrl && c == 'c' {
            Some(Action::Quit)
        } else if ctrl && c == 'd' {
            Some(Action::ScrollDown)
        } else if ctrl && c == 'u' {
            Some(Action::ScrollUp)
        } else {
            char_action_of(c, vim_keys)
        },
        Key::Up => Some(Action::Up),
        Key::Down => Some(Action::Down),
        Key::Left => Some(Action::Left),
        Key::Right => Some(Action::Right),
        Key::Enter => Some(Action::Enter),
        Key::Esc => Some(Action::Escape),
        Key::Backspace => Some(Action::GoBack),
        Key::Tab => Some(Action::Tab),
        Key::BackTab => Some(Action::BackTab),
        Key::PageUp => Some(Action::PageUp),
        Key::PageDown => Some(Action::PageDown),
        Key::Other => None,
    }
}

/// The action bound to a key on the search screen.
pub fn action_for_text_key(key: Key, ctrl: bool) -> (r: Option<Action>)
    ensures
        r == text_key_action(key, ctrl),
{
    match key {
        Key::Char(c) => if ctrl {
            if c == 'c' {
                Some(Action::Quit)
            } else if c == 'd' {
                Some(Action::PageDown)
            } else if c == 'u' {
                Some(Action::PageUp)
            } else {
                None
            }
        } else {
            Some(Action::Char(c))
        },
        Key::Esc => Some(Action::Escape),
        Key::Backspace => Some(Action::GoBack),
        Key::Enter => Some(Action::Enter),
        Key::Up => Some(Action::Up),
        Key::Down => Some(Action::Down),
        Key::PageUp => Some(Action::PageUp),
        Key::PageDown => Some(Action::PageDown),
        _ => None,
    }
}

/// Quitting is always at hand: Ctrl+c quits on every screen, and `q` quits
/// outside the search screen.
pub proof fn law_quit_is_always_bound(vim_keys: bool)
    ensures
        key_action(Key::Char('c'), true, vim_keys) == Some(Action::Quit),
        text_key_action(Key::Char('c'), true) == Some(Action::Quit),
        key_action(Key::Char('q'), false, vim_keys) == Some(Action::Quit),
{
}

/// On the search screen every printable key without Ctrl is typed into the
/// query, so no letter triggers a player command there.
pub proof fn law_search_typing_is_text(c: char)
    ensures
        text_key_action(Key::Char(c), false) == Some(Action::Char(c)),
{
}

} // verus!
