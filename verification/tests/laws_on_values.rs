use termplay::app::{App, SearchMode};
use termplay::library::{scroll_down_selection, scroll_up_selection};
use termplay::music::MusicFile;
use termplay::player::PlayerStatus;

fn scanned(names: &[&str]) -> App {
    let mut app = App::new();
    app.poll_scan_results(
        names
            .iter()
            .map(|n| MusicFile { name: n.to_string(), path: format!("/m/{n}").into_bytes() })
            .collect(),
        true,
    );
    app
}

#[test]
fn search_mode_toggles_back() {
    let mut app = App::new();
    app.toggle_search_mode();
    assert_eq!(app.search_mode, SearchMode::Youtube);
    app.toggle_search_mode();
    assert_eq!(app.search_mode, SearchMode::Local);
}

#[test]
fn volume_steps_undo_each_other() {
    let mut app = App::new();
    for _ in 0..10 {
        app.volume_down();
    }
    assert_eq!(app.playback.volume, 50);
    app.volume_up();
    assert_eq!(app.playback.volume, 55);
    app.volume_down();
    assert_eq!(app.playback.volume, 50);
    app.volume_down();
    app.volume_up();
    assert_eq!(app.playback.volume, 50);
}

#[test]
fn adding_then_removing_restores_the_playlist() {
    let mut app = scanned(&["a.mp3", "b.mp3"]);
    app.add_to_playlist();
    app.scroll_down();
    let before: Vec<String> = app.playlist.entries.iter().map(|e| e.path_or_url.clone()).collect();
    app.add_to_playlist();
    assert_eq!(app.playlist.entries.len(), 2);
    app.remove_from_playlist();
    let after: Vec<String> = app.playlist.entries.iter().map(|e| e.path_or_url.clone()).collect();
    assert_eq!(before, after);
}

#[test]
fn pause_and_resume_keep_the_track_name() {
    let mut app = App::new();
    app.poll_player_status(PlayerStatus::NowPlaying(Some("Blue in Green".to_string())));
    app.toggle_pause();
    app.toggle_pause();
    match &app.playback.player_status {
        PlayerStatus::NowPlaying(Some(n)) => assert_eq!(n, "Blue in Green"),
        _ => panic!(),
    }
    app.poll_player_status(PlayerStatus::Paused);
    app.poll_player_status(PlayerStatus::NowPlaying(None));
    match &app.playback.player_status {
        PlayerStatus::NowPlaying(Some(n)) => assert_eq!(n, "Blue in Green"),
        _ => panic!(),
    }
    assert!(!app.playback.is_paused);
}

#[test]
fn scrolling_down_then_up_returns() {
    for len in 1usize..6 {
        for i in 0..len {
            let down = scroll_down_selection(Some(i), len);
            if i + 1 < len {
                assert_eq!(scroll_up_selection(down), Some(i));
            } else {
                assert_eq!(down, Some(len - 1));
            }
            if i > 0 {
                assert_eq!(scroll_down_selection(scroll_up_selection(Some(i)), len), Some(i));
            }
        }
    }
    assert_eq!(scroll_down_selection(None, 3), Some(0));
    assert_eq!(scroll_down_selection(Some(7), 0), Some(7));
}

#[test]
fn typing_then_deleting_restores_the_search() {
    let mut app = scanned(&["ab.mp3", "cd.mp3"]);
    app.update_search("a");
    let before = app.local.filtered_indices.clone();
    app.type_char('x');
    assert!(app.local.filtered_indices.is_empty());
    app.delete_char();
    assert_eq!(app.local.search_query, "a");
    assert_eq!(app.local.filtered_indices, before);
    app.toggle_search_mode();
    app.type_char('z');
    assert_eq!(app.youtube.query, "z");
    app.delete_char();
    assert_eq!(app.youtube.query, "");
    app.delete_char();
    assert_eq!(app.youtube.query, "");
}
