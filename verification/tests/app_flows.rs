use termplay::app::{
    key_command, Action, App, DisplayStatus, InputMode, Key, SearchMode, UserCommand,
    YoutubeStatus,
};
use termplay::cover::{ImageCommand, ImageResult};
use termplay::music::MusicFile;
use termplay::player::{PlayerCommand, PlayerStatus};
use termplay::youtube::{YoutubeCommand, YoutubeResult, YoutubeVideo};

fn file(name: &str) -> MusicFile {
    MusicFile { name: name.to_string(), path: format!("/music/{name}").into_bytes() }
}

fn video(id: &str, title: &str, secs: u64) -> YoutubeVideo {
    YoutubeVideo {
        video_id: id.to_string(),
        title: title.to_string(),
        channel: "Chan".to_string(),
        duration_secs: secs,
    }
}

fn describe(actions: &[Action]) -> Vec<String> {
    actions
        .iter()
        .map(|a| match a {
            Action::Player(PlayerCommand::PlayFile(p)) => {
                format!("play file {}", String::from_utf8_lossy(p))
            }
            Action::Player(PlayerCommand::PlayUrl(u)) => format!("play url {u}"),
            Action::Player(PlayerCommand::Pause) => "pause".to_string(),
            Action::Player(PlayerCommand::Resume) => "resume".to_string(),
            Action::Player(PlayerCommand::Stop) => "stop".to_string(),
            Action::Player(PlayerCommand::SetVolume(v)) => format!("volume {v}"),
            Action::Image(ImageCommand::FetchLocal(p)) => {
                format!("cover {}", String::from_utf8_lossy(p))
            }
            Action::Image(ImageCommand::FetchYoutube(id)) => format!("thumbnail {id}"),
            Action::Image(ImageCommand::Clear) => "clear cover".to_string(),
            Action::Youtube(YoutubeCommand::Search(q)) => format!("search {q}"),
            Action::Youtube(YoutubeCommand::ResolveStream(id)) => format!("resolve {id}"),
            Action::ProbeDuration(p) => format!("probe {}", String::from_utf8_lossy(p)),
        })
        .collect()
}

fn scanned(names: &[&str]) -> App {
    let mut app = App::new();
    app.poll_scan_results(names.iter().map(|n| file(n)).collect(), true);
    app
}

#[test]
fn scan_fills_the_library_and_selects_the_first_file() {
    let mut app = App::new();
    assert!(app.local.is_scanning);
    app.poll_scan_results(vec![file("b.mp3")], false);
    assert_eq!(app.local.filtered_indices, vec![0]);
    assert_eq!(app.local.selected, Some(0));
    app.poll_scan_results(vec![file("a.flac"), file("c.ogg")], true);
    assert!(!app.local.is_scanning);
    assert_eq!(app.local.filtered_indices, vec![0, 1, 2]);
    assert_eq!(app.local.selected, Some(0));
    // Once the scan has ended nothing more is taken in.
    app.poll_scan_results(vec![file("late.mp3")], true);
    assert_eq!(app.local.music_files.len(), 3);
}

#[test]
fn scan_keeps_the_current_search() {
    let mut app = App::new();
    app.update_search("rock");
    assert_eq!(app.local.selected, None);
    app.poll_scan_results(vec![file("jazz.mp3"), file("Rock Anthem.mp3")], false);
    assert_eq!(app.local.filtered_indices, vec![1]);
    assert_eq!(app.local.selected, Some(0));
}

#[test]
fn search_is_case_insensitive_and_resets_selection() {
    let mut app = scanned(&["Alpha.mp3", "beta.MP3", "ALPHABET.flac"]);
    app.scroll_down();
    assert_eq!(app.local.selected, Some(1));
    app.update_search("ALPHA");
    assert_eq!(app.local.filtered_indices, vec![0, 2]);
    assert_eq!(app.local.selected, Some(0));
    app.update_search("mp3");
    assert_eq!(app.local.filtered_indices, vec![0, 1]);
    app.update_search("zzz");
    assert!(app.local.filtered_indices.is_empty());
    assert_eq!(app.local.selected, None);
    app.update_search("");
    assert_eq!(app.local.filtered_indices, vec![0, 1, 2]);
}

#[test]
fn scrolling_stays_in_the_list() {
    let mut app = scanned(&["a", "b", "c"]);
    app.scroll_down();
    app.scroll_down();
    app.scroll_down();
    assert_eq!(app.local.selected, Some(2));
    app.scroll_up();
    assert_eq!(app.local.selected, Some(1));
    app.scroll_up();
    app.scroll_up();
    assert_eq!(app.local.selected, Some(0));
}

#[test]
fn scrolling_an_empty_list() {
    let mut app = App::new();
    app.scroll_down();
    assert_eq!(app.local.selected, None);
    app.scroll_up();
    assert_eq!(app.local.selected, Some(0));
    assert!(app.selected_file().is_none());
}

#[test]
fn playing_the_selected_file() {
    let mut app = scanned(&["a.mp3", "b.mp3"]);
    app.scroll_down();
    app.playback.is_paused = true;
    let actions = app.play_selected();
    assert_eq!(
        describe(&actions),
        vec!["probe /music/b.mp3", "cover /music/b.mp3", "play file /music/b.mp3"]
    );
    assert!(!app.playback.is_paused);
    assert!(!app.playback.is_youtube_playing);
    assert_eq!(app.playback.current_duration_ms, None);
    app.set_current_duration(Some(180_000));
    assert_eq!(app.playback.current_duration_ms, Some(180_000));
}

#[test]
fn nothing_to_play_without_a_selection() {
    let mut app = App::new();
    assert!(app.play_selected().is_empty());
    assert!(app.play_selected_youtube().is_empty());
    assert!(app.play_selected_playlist().is_empty());
}

#[test]
fn player_reports_update_the_panel() {
    let mut app = App::new();
    let a = app.poll_player_status(PlayerStatus::NowPlaying(Some("song.mp3".to_string())));
    assert!(a.is_empty());
    assert_eq!(app.playback.current_track_name, "song.mp3");
    assert!(matches!(app.playback.display_status, DisplayStatus::Playing));
    app.poll_player_status(PlayerStatus::Position(42_000));
    assert_eq!(app.elapsed_secs(), 42);
    app.poll_player_status(PlayerStatus::Paused);
    assert!(app.playback.is_paused);
    assert!(matches!(app.playback.display_status, DisplayStatus::Paused));
    app.poll_player_status(PlayerStatus::NowPlaying(None));
    assert!(!app.playback.is_paused);
    match &app.playback.player_status {
        PlayerStatus::NowPlaying(Some(n)) => assert_eq!(n, "song.mp3"),
        _ => panic!("the resumed status shows the cached name"),
    }
    app.poll_player_status(PlayerStatus::Error("x".to_string()));
    assert!(matches!(app.playback.display_status, DisplayStatus::Stopped));
    assert_eq!(app.playback.current_position_ms, 0);
}

#[test]
fn natural_end_plays_the_next_local_file() {
    let mut app = scanned(&["one.mp3", "two.mp3"]);
    let actions = app.poll_player_status(PlayerStatus::FinishedNaturally);
    assert_eq!(app.local.selected, Some(1));
    assert_eq!(
        describe(&actions),
        vec!["probe /music/two.mp3", "cover /music/two.mp3", "play file /music/two.mp3"]
    );
    assert!(matches!(app.playback.player_status, PlayerStatus::FinishedNaturally));
    assert!(matches!(app.playback.display_status, DisplayStatus::Finished));
}

#[test]
fn natural_end_plays_the_next_youtube_result() {
    let mut app = App::new();
    app.toggle_search_mode();
    app.poll_youtube_results(YoutubeResult::SearchResults(vec![
        video("id1", "First", 60),
        video("id2", "Second", 0),
    ]));
    assert_eq!(app.youtube.selected, Some(0));
    let actions = app.poll_player_status(PlayerStatus::FinishedNaturally);
    assert_eq!(app.youtube.selected, Some(1));
    assert_eq!(
        describe(&actions),
        vec!["thumbnail id2", "resolve id2"]
    );
    assert_eq!(app.playback.current_track_name, "Second");
    assert_eq!(app.playback.current_duration_ms, None);
    assert!(app.playback.is_youtube_playing);
}

#[test]
fn youtube_search_flow() {
    let mut app = App::new();
    app.toggle_search_mode();
    assert_eq!(app.search_mode, SearchMode::Youtube);
    assert!(app.submit_youtube_search().is_empty());
    app.youtube.query = "lofi".to_string();
    let a = app.submit_youtube_search();
    assert_eq!(describe(&a), vec!["search lofi"]);
    assert!(matches!(app.youtube.status, YoutubeStatus::Searching));
    app.poll_youtube_results(YoutubeResult::SearchResults(vec![video("v1", "Lofi", 125)]));
    assert!(matches!(app.youtube.status, YoutubeStatus::Done));
    let a = app.play_selected_youtube();
    assert_eq!(describe(&a), vec!["thumbnail v1", "resolve v1"]);
    assert_eq!(app.playback.current_duration_ms, Some(125_000));
    let a = app.poll_youtube_results(YoutubeResult::StreamUrl("https://stream".to_string()));
    assert_eq!(describe(&a), vec!["play url https://stream"]);
    app.poll_youtube_results(YoutubeResult::Error("offline".to_string()));
    match &app.youtube.status {
        YoutubeStatus::Error(e) => assert_eq!(e, "offline"),
        _ => panic!(),
    }
    match &app.playback.player_status {
        PlayerStatus::Error(e) => assert_eq!(e, "offline"),
        _ => panic!(),
    }
}

#[test]
fn toggling_pause_and_stop() {
    let mut app = App::new();
    app.playback.current_track_name = "t".to_string();
    assert_eq!(describe(&app.toggle_pause()), vec!["pause"]);
    assert!(app.playback.is_paused);
    assert_eq!(describe(&app.toggle_pause()), vec!["resume"]);
    assert!(!app.playback.is_paused);
    app.playback.is_paused = true;
    assert_eq!(describe(&app.stop()), vec!["stop"]);
    assert!(!app.playback.is_paused);
}

#[test]
fn volume_moves_in_steps_of_five_within_bounds() {
    let mut app = App::new();
    assert_eq!(describe(&app.volume_up()), vec!["volume 100"]);
    assert_eq!(describe(&app.volume_down()), vec!["volume 95"]);
    for _ in 0..30 {
        app.volume_down();
    }
    assert_eq!(app.playback.volume, 0);
    app.volume_up();
    app.volume_down();
    assert_eq!(app.playback.volume, 0);
}

#[test]
fn tick_wraps_around() {
    let mut app = App::new();
    for _ in 0..256 {
        app.tick();
    }
    assert_eq!(app.animation_tick, 0);
    app.tick();
    assert_eq!(app.animation_tick, 1);
}

#[test]
fn playlist_add_keeps_one_copy_and_selects_the_last() {
    let mut app = scanned(&["a.mp3", "b.mp3"]);
    app.add_to_playlist();
    app.add_to_playlist();
    assert_eq!(app.playlist.entries.len(), 1);
    assert_eq!(app.playlist.entries[0].path_or_url, "/music/a.mp3");
    assert_eq!(app.playlist.selected, Some(0));
    app.scroll_down();
    app.add_to_playlist();
    assert_eq!(app.playlist.entries.len(), 2);
    assert_eq!(app.playlist.selected, Some(1));
    app.toggle_search_mode();
    app.poll_youtube_results(YoutubeResult::SearchResults(vec![video("xyz", "Vid", 200)]));
    app.add_to_playlist();
    assert_eq!(app.playlist.entries.len(), 3);
    let e = &app.playlist.entries[2];
    assert_eq!(e.path_or_url, "https://www.youtube.com/watch?v=xyz");
    assert!(e.is_youtube);
    assert_eq!(e.duration_secs, 200);
    assert_eq!(e.name, "Vid");
}

#[test]
fn playlist_remove_selects_the_previous_entry() {
    let mut app = scanned(&["a.mp3", "b.mp3"]);
    app.add_to_playlist();
    app.scroll_down();
    app.add_to_playlist();
    app.remove_from_playlist();
    assert_eq!(app.playlist.entries.len(), 1);
    assert_eq!(app.playlist.selected, Some(0));
    app.remove_from_playlist();
    assert!(app.playlist.entries.is_empty());
    assert_eq!(app.playlist.selected, None);
    // Nothing selected: nothing removed.
    app.remove_from_playlist();
    assert!(app.playlist.entries.is_empty());
}

#[test]
fn playlist_playback() {
    let mut app = scanned(&["a.mp3"]);
    app.add_to_playlist();
    let a = app.play_selected_playlist();
    assert_eq!(describe(&a), vec!["cover /music/a.mp3", "play file /music/a.mp3"]);
    assert_eq!(app.playback.current_track_name, "a.mp3");
    assert!(matches!(app.playback.display_status, DisplayStatus::Playing));
    app.toggle_search_mode();
    app.poll_youtube_results(YoutubeResult::SearchResults(vec![video("q1w2", "Clip", 61)]));
    app.add_to_playlist();
    let a = app.play_selected_playlist();
    assert_eq!(
        describe(&a),
        vec!["thumbnail q1w2", "play url https://www.youtube.com/watch?v=q1w2"]
    );
    assert!(app.playback.is_youtube_playing);
    assert_eq!(app.playback.current_duration_ms, Some(61_000));
    app.playlist_scroll_up();
    assert_eq!(app.playlist.selected, Some(0));
    app.playlist_scroll_down();
    app.playlist_scroll_down();
    assert_eq!(app.playlist.selected, Some(1));
}

#[test]
fn cover_answers() {
    let mut app = App::new();
    app.poll_image(ImageResult::NotFound);
    assert_eq!(app.current_image_id, 1);
    assert!(app.current_image.is_none());
    let img = image::DynamicImage::new_rgb8(2, 2);
    app.poll_image(ImageResult::Loaded(img));
    assert_eq!(app.current_image_id, 2);
    assert!(app.current_image.is_some());
    app.poll_image(ImageResult::Error("x".to_string()));
    assert!(app.current_image.is_none());
}

#[test]
fn keys_in_normal_mode() {
    assert!(matches!(key_command(InputMode::Normal, Key::Char('q')), UserCommand::Quit));
    assert!(matches!(key_command(InputMode::Normal, Key::Char('i')), UserCommand::StartTyping));
    assert!(matches!(key_command(InputMode::Normal, Key::Tab), UserCommand::ToggleSearchMode));
    assert!(matches!(key_command(InputMode::Normal, Key::Char(' ')), UserCommand::TogglePause));
    assert!(matches!(key_command(InputMode::Normal, Key::Char('+')), UserCommand::VolumeUp));
    assert!(matches!(key_command(InputMode::Normal, Key::Char('x')), UserCommand::Nothing));
    assert!(matches!(key_command(InputMode::Normal, Key::Backspace), UserCommand::Nothing));
}

#[test]
fn keys_in_typing_mode() {
    assert!(matches!(key_command(InputMode::Typing, Key::Char('q')), UserCommand::TypeChar('q')));
    assert!(matches!(key_command(InputMode::Typing, Key::Esc), UserCommand::StopTyping));
    assert!(matches!(key_command(InputMode::Typing, Key::Backspace), UserCommand::DeleteChar));
    assert!(matches!(key_command(InputMode::Typing, Key::Tab), UserCommand::Nothing));
}

#[test]
fn typing_a_local_search() {
    let mut app = scanned(&["blue.mp3", "red.mp3"]);
    app.handle_key(Key::Char('i'));
    assert_eq!(app.input_mode, InputMode::Typing);
    app.handle_key(Key::Char('r'));
    app.handle_key(Key::Char('E'));
    assert_eq!(app.local.search_query, "rE");
    assert_eq!(app.local.filtered_indices, vec![1]);
    app.handle_key(Key::Backspace);
    assert_eq!(app.local.search_query, "r");
    assert_eq!(app.local.filtered_indices, vec![1]);
    app.handle_key(Key::Backspace);
    app.handle_key(Key::Backspace);
    assert_eq!(app.local.search_query, "");
    assert_eq!(app.local.filtered_indices, vec![0, 1]);
    let a = app.handle_key(Key::Enter);
    assert_eq!(app.input_mode, InputMode::Normal);
    assert_eq!(describe(&a)[2], "play file /music/blue.mp3");
    app.handle_key(Key::Char('q'));
    assert!(!app.running);
}

#[test]
fn typing_a_youtube_search() {
    let mut app = App::new();
    app.handle_key(Key::Tab);
    app.handle_key(Key::Char('i'));
    for c in "ab".chars() {
        app.handle_key(Key::Char(c));
    }
    assert_eq!(app.youtube.query, "ab");
    let a = app.handle_key(Key::Enter);
    assert_eq!(describe(&a), vec!["search ab"]);
    assert_eq!(app.input_mode, InputMode::Normal);
    // Enter in normal mode plays the selected result, of which there is none.
    assert!(app.handle_key(Key::Enter).is_empty());
    app.handle_key(Key::Down);
    assert_eq!(app.youtube.selected, None);
}
