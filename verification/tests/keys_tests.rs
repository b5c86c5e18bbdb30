use yplayer::app::actions::Action;
use yplayer::app::keybindings::{action_for_key, action_for_text_key, Key};

#[test]
fn navigation_keys() {
    assert_eq!(action_for_key(Key::Char('j'), false, true), Some(Action::Down));
    assert_eq!(action_for_key(Key::Char('k'), false, true), Some(Action::Up));
    assert_eq!(action_for_key(Key::Char('h'), false, true), Some(Action::Left));
    assert_eq!(action_for_key(Key::Char('l'), false, true), Some(Action::Right));
    assert_eq!(action_for_key(Key::Char('j'), false, false), None);
    assert_eq!(action_for_key(Key::Down, false, false), Some(Action::Down));
    assert_eq!(action_for_key(Key::Tab, false, true), Some(Action::Tab));
    assert_eq!(action_for_key(Key::BackTab, false, true), Some(Action::BackTab));
    assert_eq!(action_for_key(Key::Backspace, false, true), Some(Action::GoBack));
    assert_eq!(action_for_key(Key::Esc, false, true), Some(Action::Escape));
    assert_eq!(action_for_key(Key::Char('d'), true, true), Some(Action::ScrollDown));
    assert_eq!(action_for_key(Key::Char('u'), true, true), Some(Action::ScrollUp));
    assert_eq!(action_for_key(Key::PageDown, false, true), Some(Action::PageDown));
    assert_eq!(action_for_key(Key::Other, false, true), None);
}

#[test]
fn player_keys() {
    assert_eq!(action_for_key(Key::Char(' '), false, true), Some(Action::PlayPause));
    assert_eq!(action_for_key(Key::Char('n'), false, true), Some(Action::Next));
    assert_eq!(action_for_key(Key::Char('p'), false, true), Some(Action::Prev));
    assert_eq!(action_for_key(Key::Char('+'), false, true), Some(Action::VolumeUp));
    assert_eq!(action_for_key(Key::Char('='), false, true), Some(Action::VolumeUp));
    assert_eq!(action_for_key(Key::Char('-'), false, true), Some(Action::VolumeDown));
    assert_eq!(action_for_key(Key::Char('.'), false, true), Some(Action::SeekForward));
    assert_eq!(action_for_key(Key::Char(','), false, true), Some(Action::SeekBackward));
    assert_eq!(action_for_key(Key::Char('s'), false, true), Some(Action::ToggleShuffle));
    assert_eq!(action_for_key(Key::Char('r'), false, true), Some(Action::ToggleRepeat));
    assert_eq!(action_for_key(Key::Char('a'), false, true), Some(Action::PlayAll));
    assert_eq!(action_for_key(Key::Char('/'), false, true), Some(Action::Search));
    assert_eq!(action_for_key(Key::Char('z'), false, true), Some(Action::NowPlaying));
    assert_eq!(action_for_key(Key::Char('L'), false, true), Some(Action::NowPlaying));
    assert_eq!(action_for_key(Key::Char('?'), false, true), Some(Action::Help));
    assert_eq!(action_for_key(Key::Char('q'), false, true), Some(Action::Quit));
    assert_eq!(action_for_key(Key::Char('c'), true, true), Some(Action::Quit));
    assert_eq!(action_for_key(Key::Char('c'), false, true), None);
}

#[test]
fn search_keys_type_text() {
    assert_eq!(action_for_text_key(Key::Char('q'), false), Some(Action::Char('q')));
    assert_eq!(action_for_text_key(Key::Char('я'), false), Some(Action::Char('я')));
    assert_eq!(action_for_text_key(Key::Char('c'), true), Some(Action::Quit));
    assert_eq!(action_for_text_key(Key::Char('d'), true), Some(Action::PageDown));
    assert_eq!(action_for_text_key(Key::Char('x'), true), None);
    assert_eq!(action_for_text_key(Key::Backspace, false), Some(Action::GoBack));
    assert_eq!(action_for_text_key(Key::Enter, false), Some(Action::Enter));
    assert_eq!(action_for_text_key(Key::Tab, false), None);
}
