use std::collections::VecDeque;

use jukebox::error::PlayError;
use jukebox::registry::InternalHandler;
use jukebox::resolve::{search_query, songs_from, Resolved};
use jukebox::room::{Advance, Guild, Song};

const ROOM: u64 = 7;
const CHANNEL: u64 = 70;

fn songs(urls: &[&str]) -> VecDeque<Song> {
    urls.iter().map(|u| Song::new(u.to_string())).collect()
}

/// Runs an advance of `ROOM` and, where it says to start a song, records it
/// as playing under `handle`, as the transport would. Returns the locator of
/// the started song, or `None` where the room was torn down or busy.
fn drive(rooms: &mut InternalHandler<u32>, adv: Advance, handle: u32) -> Option<String> {
    match adv {
        Advance::Start(song, ch) => {
            assert_eq!(ch, CHANNEL);
            let url = song.url().clone();
            assert!(rooms.start_playing(ROOM, song, handle));
            Some(url)
        }
        Advance::Busy | Advance::Teardown(_) | Advance::Gone => None,
    }
}

#[test]
fn single_song_plays_then_room_is_removed() {
    let mut rooms: InternalHandler<u32> = InternalHandler::new();
    let pos = rooms.enqueue(ROOM, CHANNEL, songs(&["a.mp3"]));
    assert_eq!(pos, 1);
    let adv = rooms.check_guild_queue(ROOM);
    assert_eq!(drive(&mut rooms, adv, 1), Some("a.mp3".to_string()));
    let adv = rooms.song_ended(ROOM);
    assert!(matches!(adv, Advance::Teardown(CHANNEL)));
    assert!(!rooms.contains(ROOM));
}

#[test]
fn later_songs_wait_for_the_one_playing() {
    let mut rooms: InternalHandler<u32> = InternalHandler::new();
    rooms.enqueue(ROOM, CHANNEL, songs(&["a.mp3"]));
    let adv = rooms.check_guild_queue(ROOM);
    assert_eq!(drive(&mut rooms, adv, 1), Some("a.mp3".to_string()));
    let pos = rooms.enqueue(ROOM, CHANNEL, songs(&["b.mp3", "c.mp3"]));
    assert_eq!(pos, 1);
    let adv = rooms.check_guild_queue(ROOM);
    assert!(matches!(adv, Advance::Busy));
    let adv = rooms.song_ended(ROOM);
    assert_eq!(drive(&mut rooms, adv, 2), Some("b.mp3".to_string()));
    let adv = rooms.song_ended(ROOM);
    assert_eq!(drive(&mut rooms, adv, 3), Some("c.mp3".to_string()));
    let adv = rooms.song_ended(ROOM);
    assert!(matches!(adv, Advance::Teardown(CHANNEL)));
    assert!(!rooms.contains(ROOM));
}

#[test]
fn skip_hands_out_the_active_handle_and_completion_advances() {
    let mut rooms: InternalHandler<u32> = InternalHandler::new();
    rooms.enqueue(ROOM, CHANNEL, songs(&["a.mp3", "b.mp3"]));
    let adv = rooms.check_guild_queue(ROOM);
    assert_eq!(drive(&mut rooms, adv, 41), Some("a.mp3".to_string()));
    let handle = rooms.skip(ROOM).ok().copied();
    assert_eq!(handle, Some(41));
    let adv = rooms.song_ended(ROOM);
    assert_eq!(drive(&mut rooms, adv, 42), Some("b.mp3".to_string()));
    assert_eq!(rooms.skip(ROOM).ok().copied(), Some(42));
}

#[test]
fn skip_on_untracked_room_fails() {
    let rooms: InternalHandler<u32> = InternalHandler::new();
    assert!(matches!(rooms.skip(ROOM), Err(PlayError::BotNotPlaying)));
}

#[test]
fn skip_with_nothing_playing_fails() {
    let mut rooms: InternalHandler<u32> = InternalHandler::new();
    rooms.enqueue(ROOM, CHANNEL, songs(&["a.mp3"]));
    assert!(matches!(rooms.skip(ROOM), Err(PlayError::BotNotPlaying)));
}

#[test]
fn playlist_of_three_starts_only_the_first() {
    let mut rooms: InternalHandler<u32> = InternalHandler::new();
    let resolved = Resolved::Many(Some(vec![
        Some("x.mp3".to_string()),
        Some("y.mp3".to_string()),
        Some("z.mp3".to_string()),
    ]));
    let list = songs_from(resolved, "list").ok().unwrap();
    let urls: Vec<String> = list.iter().map(|s| s.url().clone()).collect();
    assert_eq!(urls, vec!["x.mp3", "y.mp3", "z.mp3"]);
    assert_eq!(rooms.enqueue(ROOM, CHANNEL, list), 1);
    let adv = rooms.check_guild_queue(ROOM);
    assert_eq!(drive(&mut rooms, adv, 1), Some("x.mp3".to_string()));
    assert!(matches!(rooms.check_guild_queue(ROOM), Advance::Busy));
    assert_eq!(rooms.get(ROOM).unwrap().queue_len(), 2);
}

#[test]
fn second_start_while_playing_is_refused() {
    let mut rooms: InternalHandler<u32> = InternalHandler::new();
    rooms.enqueue(ROOM, CHANNEL, songs(&["a.mp3", "b.mp3"]));
    let adv = rooms.check_guild_queue(ROOM);
    drive(&mut rooms, adv, 1);
    assert!(!rooms.start_playing(ROOM, Song::new("b.mp3".to_string()), 2));
    assert_eq!(rooms.skip(ROOM).ok().copied(), Some(1));
}

#[test]
fn queue_keeps_enqueue_order_across_calls() {
    let mut rooms: InternalHandler<u32> = InternalHandler::new();
    assert_eq!(rooms.enqueue(ROOM, CHANNEL, songs(&["a", "b"])), 1);
    assert_eq!(rooms.enqueue(ROOM, CHANNEL, songs(&["c"])), 3);
    let mut played = Vec::new();
    let mut adv = rooms.check_guild_queue(ROOM);
    let mut handle: u32 = 0;
    while let Some(url) = drive(&mut rooms, adv, handle) {
        played.push(url);
        handle += 1;
        adv = rooms.song_ended(ROOM);
    }
    assert_eq!(played, vec!["a", "b", "c"]);
    assert!(!rooms.contains(ROOM));
}

#[test]
fn removing_twice_is_a_no_op() {
    let mut rooms: InternalHandler<u32> = InternalHandler::new();
    rooms.enqueue(ROOM, CHANNEL, songs(&["a"]));
    rooms.enqueue(ROOM + 1, CHANNEL, songs(&["b"]));
    rooms.remove(ROOM);
    rooms.remove(ROOM);
    assert!(!rooms.contains(ROOM));
    assert!(rooms.contains(ROOM + 1));
}

#[test]
fn completion_after_teardown_does_nothing() {
    let mut rooms: InternalHandler<u32> = InternalHandler::new();
    rooms.enqueue(ROOM, CHANNEL, songs(&["a"]));
    let adv = rooms.check_guild_queue(ROOM);
    drive(&mut rooms, adv, 1);
    rooms.remove(ROOM);
    assert!(matches!(rooms.song_ended(ROOM), Advance::Gone));
    assert!(!rooms.contains(ROOM));
    assert!(!rooms.start_playing(ROOM, Song::new("a".to_string()), 2));
    assert!(!rooms.contains(ROOM));
}

#[test]
fn advance_of_untracked_room_is_a_no_op() {
    let mut rooms: InternalHandler<u32> = InternalHandler::new();
    assert!(matches!(rooms.check_guild_queue(ROOM), Advance::Gone));
    assert!(!rooms.contains(ROOM));
    rooms.enqueue(ROOM, CHANNEL, VecDeque::new());
    assert!(matches!(rooms.check_guild_queue(ROOM), Advance::Teardown(CHANNEL)));
    assert!(matches!(rooms.check_guild_queue(ROOM), Advance::Gone));
    assert!(!rooms.contains(ROOM));
}

#[test]
fn second_advance_before_start_is_recorded_is_busy() {
    let mut rooms: InternalHandler<u32> = InternalHandler::new();
    rooms.enqueue(ROOM, CHANNEL, songs(&["a.mp3", "b.mp3"]));
    let first = rooms.check_guild_queue(ROOM);
    assert!(matches!(first, Advance::Start(_, CHANNEL)));
    assert!(matches!(rooms.check_guild_queue(ROOM), Advance::Busy));
    assert!(rooms.get(ROOM).unwrap().is_starting());
    assert_eq!(drive(&mut rooms, first, 1), Some("a.mp3".to_string()));
    assert!(!rooms.get(ROOM).unwrap().is_starting());
    assert!(matches!(rooms.check_guild_queue(ROOM), Advance::Busy));
    assert_eq!(rooms.get(ROOM).unwrap().queue_len(), 1);
}

#[test]
fn failed_start_drops_the_song_and_frees_the_room() {
    let mut rooms: InternalHandler<u32> = InternalHandler::new();
    rooms.enqueue(ROOM, CHANNEL, songs(&["a.mp3", "b.mp3"]));
    assert!(matches!(rooms.check_guild_queue(ROOM), Advance::Start(_, _)));
    rooms.start_failed(ROOM);
    assert!(rooms.get(ROOM).unwrap().is_idle());
    let adv = rooms.check_guild_queue(ROOM);
    assert_eq!(drive(&mut rooms, adv, 1), Some("b.mp3".to_string()));
    rooms.start_failed(ROOM + 1);
    assert!(!rooms.contains(ROOM + 1));
}

#[test]
fn start_without_pending_start_is_refused() {
    let mut rooms: InternalHandler<u32> = InternalHandler::new();
    rooms.enqueue(ROOM, CHANNEL, songs(&["a.mp3"]));
    assert!(!rooms.start_playing(ROOM, Song::new("a.mp3".to_string()), 1));
    assert!(rooms.get(ROOM).unwrap().is_idle());
    assert_eq!(rooms.get(ROOM).unwrap().handle(), None);
}

#[test]
fn new_request_moves_the_room() {
    let mut rooms: InternalHandler<u32> = InternalHandler::new();
    rooms.enqueue(ROOM, CHANNEL, songs(&["a"]));
    rooms.enqueue(ROOM, CHANNEL + 5, songs(&["b"]));
    assert_eq!(rooms.get(ROOM).unwrap().channel_id(), CHANNEL + 5);
    assert_eq!(rooms.get(ROOM).unwrap().queue_len(), 2);
}

#[test]
fn empty_room_tears_down_on_advance() {
    let mut rooms: InternalHandler<u32> = InternalHandler::new();
    rooms.enqueue(ROOM, CHANNEL, VecDeque::new());
    assert!(rooms.contains(ROOM));
    assert!(matches!(rooms.check_guild_queue(ROOM), Advance::Teardown(CHANNEL)));
    assert!(!rooms.contains(ROOM));
}

#[test]
fn guild_pop_and_state() {
    let mut g: Guild<u32> = Guild::new(3);
    assert!(g.is_idle() && g.is_empty());
    g.enqueue(Song::new("a".to_string()));
    assert_eq!(g.enqueue_all(songs(&["b", "c"])), 2);
    assert!(!g.is_empty());
    let s = match g.advance() {
        Advance::Start(s, _) => s,
        _ => panic!("expected a start"),
    };
    assert_eq!(s.url(), "a");
    assert!(g.is_starting() && !g.is_idle());
    g.start_playing(s, 9);
    assert_eq!(g.skip().ok().copied(), Some(9));
    assert!(!g.is_idle());
    assert_eq!(g.handle().copied(), Some(9));
    assert!(matches!(g.advance(), Advance::Busy));
    g.clear_playing();
    assert_eq!(g.handle(), None);
    assert!(matches!(g.skip(), Err(PlayError::BotNotPlaying)));
    match g.advance() {
        Advance::Start(s, ch) => {
            assert_eq!(s.url(), "b");
            assert_eq!(ch, 3);
        }
        _ => panic!("expected a start"),
    }
    g.relocate(4);
    assert_eq!(g.channel_id(), 4);
    assert_eq!(g.queue_len(), 1);
    g.start_failed();
    let c = g.pop_next().unwrap();
    assert_eq!(c.url(), "c");
    assert!(g.pop_next().is_none());
    assert!(g.is_empty());
}

#[test]
fn single_video_resolves_to_one_song() {
    let list = songs_from(Resolved::Single(Some("s.mp3".to_string())), "q").ok().unwrap();
    assert_eq!(list.len(), 1);
    assert_eq!(list[0].url(), "s.mp3");
}

#[test]
fn missing_locators_fail_the_request() {
    let err = |r: Result<VecDeque<Song>, PlayError>| match r {
        Err(PlayError::Ytdl(u)) => u,
        _ => panic!("expected a resolver error"),
    };
    assert_eq!(err(songs_from(Resolved::Single(None), "u1")), "u1");
    assert_eq!(err(songs_from(Resolved::Many(None), "u2")), "u2");
    let partial = Resolved::Many(Some(vec![Some("a".to_string()), None, Some("c".to_string())]));
    assert_eq!(err(songs_from(partial, "u3")), "u3");
}

#[test]
fn empty_playlist_resolves_to_nothing() {
    let list = songs_from(Resolved::Many(Some(Vec::new())), "q").ok().unwrap();
    assert!(list.is_empty());
}

#[test]
fn search_query_prefixes_url() {
    assert_eq!(search_query("https://x/y"), "ytsearch1:https://x/y");
}

#[test]
fn error_messages() {
    assert_eq!(PlayError::NoUrl.message(), "You must provide a URL to play.");
    assert_eq!(
        PlayError::Ytdl("http://v".to_string()).message(),
        "Failed to retrieve information about `http://v`."
    );
    assert_eq!(PlayError::Join.message(), "Unable to join your voice channel.");
    assert_eq!(PlayError::Ffmpeg.message(), "Failed to start playing the given URL.");
    assert_eq!(
        PlayError::NoChannel.message(),
        "Join a voice channel before trying to queue a song."
    );
    assert_eq!(
        PlayError::NoGuildId.message(),
        "You can only use this command in a guild text channel."
    );
    assert_eq!(PlayError::BotNotPlaying.message(), "Nothing is playing right now.");
    let unknown = PlayError::Unknown("boom".to_string());
    assert_eq!(unknown.message(), "Something went wrong. Give it another go?");
    assert!(!unknown.is_user_facing());
    assert!(PlayError::Join.is_user_facing());
}
