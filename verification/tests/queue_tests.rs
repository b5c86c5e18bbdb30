use yplayer::api::models::YTrack;
use yplayer::player::queue::{PlaybackQueue, RepeatMode};

fn track(id: &str) -> YTrack {
    YTrack {
        id: id.to_string(),
        title: format!("Title {id}"),
        artists: vec![],
        albums: vec![],
        duration_ms: 1000,
        cover_uri: None,
        lyrics_available: false,
        explicit: false,
        track_position: None,
        liked: false,
    }
}

fn queue_of(ids: &[&str]) -> PlaybackQueue {
    let mut q = PlaybackQueue::new();
    q.append_multiple(ids.iter().map(|i| track(i)).collect());
    q
}

fn id_of(t: Option<&YTrack>) -> Option<String> {
    t.map(|t| t.id.clone())
}

#[test]
fn new_queue_is_empty() {
    let mut q = PlaybackQueue::new();
    assert!(q.is_empty());
    assert_eq!(q.len(), 0);
    assert!(q.current().is_none());
    assert!(q.next_track().is_none());
    assert!(q.prev_track().is_none());
    assert_eq!(*q.repeat(), RepeatMode::Off);
    assert!(!*q.shuffle());
}

#[test]
fn next_and_prev_in_order_without_repeat() {
    let mut q = queue_of(&["a", "b", "c"]);
    assert_eq!(id_of(q.current()), Some("a".to_string()));
    assert_eq!(id_of(q.next_track()), Some("b".to_string()));
    assert_eq!(id_of(q.next_track()), Some("c".to_string()));
    assert_eq!(id_of(q.next_track()), None);
    assert_eq!(id_of(q.current()), Some("c".to_string()));
    assert_eq!(id_of(q.prev_track()), Some("b".to_string()));
    assert_eq!(id_of(q.prev_track()), Some("a".to_string()));
    assert_eq!(id_of(q.prev_track()), None);
}

#[test]
fn repeat_all_wraps_both_ways() {
    let mut q = queue_of(&["a", "b"]);
    q.set_repeat(RepeatMode::All);
    assert_eq!(id_of(q.next_track()), Some("b".to_string()));
    assert_eq!(id_of(q.next_track()), Some("a".to_string()));
    assert_eq!(id_of(q.prev_track()), Some("b".to_string()));
}

#[test]
fn repeat_one_stays_at_the_end() {
    let mut q = queue_of(&["a", "b"]);
    q.set_repeat(RepeatMode::One);
    assert_eq!(id_of(q.next_track()), Some("b".to_string()));
    assert_eq!(id_of(q.next_track()), Some("b".to_string()));
    assert_eq!(id_of(q.prev_track()), Some("a".to_string()));
    assert_eq!(id_of(q.prev_track()), Some("a".to_string()));
}

#[test]
fn cycle_repeat_goes_off_all_one_off() {
    let mut q = PlaybackQueue::new();
    assert_eq!(q.cycle_repeat(), RepeatMode::All);
    assert_eq!(q.cycle_repeat(), RepeatMode::One);
    assert_eq!(q.cycle_repeat(), RepeatMode::Off);
    assert_eq!(*q.repeat(), RepeatMode::Off);
}

#[test]
fn set_current_by_id_finds_the_first_match() {
    let mut q = queue_of(&["a", "b", "b", "c"]);
    assert!(q.set_current_by_id("b"));
    assert_eq!(id_of(q.current()), Some("b".to_string()));
    assert_eq!(id_of(q.next_track()), Some("b".to_string()));
    assert_eq!(id_of(q.next_track()), Some("c".to_string()));
    assert!(!q.set_current_by_id("zzz"));
    assert_eq!(id_of(q.current()), Some("c".to_string()));
}

#[test]
fn shuffle_pass_plays_every_track_once() {
    let ids = ["a", "b", "c", "d", "e", "f"];
    let mut q = queue_of(&ids);
    assert!(q.toggle_shuffle());
    // the shuffled order starts at the current track; go back to its start
    while q.prev_track().is_some() {}
    let mut seen = vec![id_of(q.current()).unwrap()];
    for _ in 1..ids.len() {
        let next = id_of(q.next_track()).unwrap();
        q.set_current_by_id(&next);
        seen.push(next);
    }
    assert_eq!(id_of(q.next_track()), None);
    let mut sorted = seen.clone();
    sorted.sort();
    assert_eq!(sorted, vec!["a", "b", "c", "d", "e", "f"]);
}

#[test]
fn shuffle_starts_on_the_current_track() {
    let mut q = queue_of(&["a", "b", "c", "d"]);
    q.set_current_by_id("c");
    q.set_shuffle(true);
    assert_eq!(id_of(q.current()), Some("c".to_string()));
}

#[test]
fn shuffle_wrap_does_not_replay_the_finished_track() {
    for _ in 0..50 {
        let ids = ["a", "b", "c"];
        let mut q = queue_of(&ids);
        q.set_repeat(RepeatMode::All);
        q.set_shuffle(true);
        let mut last = id_of(q.current()).unwrap();
        for _ in 1..ids.len() {
            last = id_of(q.next_track()).unwrap();
            q.set_current_by_id(&last);
        }
        let wrapped = id_of(q.next_track()).unwrap();
        assert_ne!(wrapped, last);
    }
}

#[test]
fn turning_shuffle_off_keeps_the_current_track() {
    let mut q = queue_of(&["a", "b", "c", "d", "e"]);
    q.set_shuffle(true);
    q.next_track();
    q.next_track();
    let playing = id_of(q.current());
    assert!(!q.toggle_shuffle());
    assert_eq!(id_of(q.current()), playing);
}

#[test]
fn shuffle_next_then_prev_returns() {
    let mut q = queue_of(&["a", "b", "c"]);
    q.set_shuffle(true);
    while q.prev_track().is_some() {}
    let first = id_of(q.current());
    let second = id_of(q.next_track());
    assert_ne!(second, first);
    assert_eq!(id_of(q.prev_track()), first);
    assert_eq!(id_of(q.current()), first);
}

#[test]
fn append_keeps_the_current_track() {
    let mut q = queue_of(&["a"]);
    q.append(track("b"));
    assert_eq!(q.len(), 2);
    assert_eq!(id_of(q.current()), Some("a".to_string()));
    assert_eq!(q.tracks()[1].id, "b");
}

#[test]
fn appended_tracks_join_the_shuffle_order() {
    let mut q = queue_of(&["a", "b"]);
    q.set_repeat(RepeatMode::All);
    q.set_shuffle(true);
    q.append(track("c"));
    let mut seen = vec![id_of(q.current()).unwrap()];
    q.set_current_by_id(&seen[0].clone());
    for _ in 0..10 {
        if let Some(n) = id_of(q.next_track()) {
            q.set_current_by_id(&n);
            seen.push(n);
        }
    }
    assert!(seen.contains(&"c".to_string()));
}

#[test]
fn clear_empties_but_keeps_modes() {
    let mut q = queue_of(&["a", "b"]);
    q.set_repeat(RepeatMode::All);
    q.set_shuffle(true);
    q.clear();
    assert!(q.is_empty());
    assert!(q.current().is_none());
    assert_eq!(*q.repeat(), RepeatMode::All);
    assert!(*q.shuffle());
    q.append(track("x"));
    // the shuffle order was emptied, so it covers nothing until the next step
    assert!(q.current().is_none());
    assert_eq!(id_of(q.next_track()), Some("x".to_string()));
    assert_eq!(id_of(q.current()), Some("x".to_string()));
}

#[test]
fn chosen_track_is_current_in_shuffle_mode() {
    let mut q = queue_of(&["a", "b", "c", "d", "e"]);
    assert!(q.toggle_shuffle());
    for id in ["d", "a", "e", "b", "c"] {
        assert!(q.set_current_by_id(id));
        assert_eq!(id_of(q.current()), Some(id.to_string()));
    }
}

#[test]
fn fisher_yates_order_follows_the_draws() {
    assert_eq!(yplayer::player::queue::shuffled_order(4, &[1, 2, 3]), vec![0, 1, 2, 3]);
    assert_eq!(yplayer::player::queue::shuffled_order(4, &[0, 0, 0]), vec![1, 2, 3, 0]);
    assert_eq!(yplayer::player::queue::shuffled_order(4, &[1, 0, 2]), vec![3, 1, 0, 2]);
    assert_eq!(yplayer::player::queue::shuffled_order(1, &[]), vec![0]);
    assert!(yplayer::player::queue::shuffled_order(0, &[]).is_empty());
}
