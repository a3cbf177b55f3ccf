use termplay::app::{InputMode, SearchMode};
use termplay::music::is_audio_extension;
use termplay::text::{chars_of, contains_chars, string_from_chars, trim};
use termplay::view::{
    build_volume_bar, format_duration_secs, key_hints, local_results_title, mode_label, progress,
    split_extension, volume_text, youtube_results_title,
};
use termplay::app::YoutubeStatus;
use termplay::library::LocalLibrary;
use termplay::music::MusicFile;
use termplay::youtube::YoutubeVideo;

fn video(secs: u64) -> YoutubeVideo {
    YoutubeVideo {
        video_id: "abc".to_string(),
        title: "Title".to_string(),
        channel: "Chan".to_string(),
        duration_secs: secs,
    }
}

#[test]
fn duration_str_minutes_and_padded_seconds() {
    assert_eq!(video(225).duration_str(), "3:45");
    assert_eq!(video(5).duration_str(), "0:05");
    assert_eq!(video(0).duration_str(), "0:00");
    assert_eq!(video(3600).duration_str(), "60:00");
    assert_eq!(video(59).duration_str(), "0:59");
}

#[test]
fn split_extension_at_last_dot() {
    assert_eq!(split_extension("song.mp3"), ("song", "mp3"));
    assert_eq!(split_extension("a.b.flac"), ("a.b", "flac"));
    assert_eq!(split_extension("noext"), ("noext", ""));
    assert_eq!(split_extension(".hidden"), ("", "hidden"));
    assert_eq!(split_extension("trailing."), ("trailing", ""));
    assert_eq!(split_extension("été.ogg"), ("été", "ogg"));
}

#[test]
fn split_extension_rejoins_to_the_name() {
    for name in ["x.y.z", "plain", "a.", ".b", "ü.ö.ä"] {
        let (stem, ext) = split_extension(name);
        if name.contains('.') {
            assert_eq!(format!("{stem}.{ext}"), name);
            assert!(!ext.contains('.'));
        } else {
            assert_eq!(stem, name);
            assert_eq!(ext, "");
        }
    }
}

#[test]
fn volume_bar_fills_one_cell_per_ten_percent() {
    assert_eq!(build_volume_bar(100), "[██████████]");
    assert_eq!(build_volume_bar(0), "[░░░░░░░░░░]");
    assert_eq!(build_volume_bar(55), "[█████░░░░░]");
    assert_eq!(build_volume_bar(9), "[░░░░░░░░░░]");
    assert_eq!(build_volume_bar(109), "[██████████]");
    assert_eq!(volume_text(75), "Vol: [███████░░░] 75%");
}

#[test]
fn clock_format_pads_minutes_and_seconds() {
    assert_eq!(format_duration_secs(0), "00:00");
    assert_eq!(format_duration_secs(65), "01:05");
    assert_eq!(format_duration_secs(600), "10:00");
    assert_eq!(format_duration_secs(6000), "100:00");
}

#[test]
fn audio_extensions_ignore_case() {
    assert!(is_audio_extension("mp3"));
    assert!(is_audio_extension("MP3"));
    assert!(is_audio_extension("Flac"));
    assert!(is_audio_extension("m4a"));
    assert!(is_audio_extension("wav"));
    assert!(is_audio_extension("OGG"));
    assert!(!is_audio_extension("txt"));
    assert!(!is_audio_extension("mp"));
    assert!(!is_audio_extension(""));
}

#[test]
fn substring_search() {
    let s = chars_of("hello world");
    assert!(contains_chars(&s, &chars_of("lo w")));
    assert!(contains_chars(&s, &chars_of("")));
    assert!(contains_chars(&s, &chars_of("hello world")));
    assert!(!contains_chars(&s, &chars_of("worlds")));
    assert!(!contains_chars(&chars_of(""), &chars_of("a")));
    assert_eq!(string_from_chars(&s), "hello world");
}

#[test]
fn titles_and_labels() {
    assert_eq!(mode_label(SearchMode::Local), "[ Local ]  YouTube   Tab to switch");
    assert_eq!(mode_label(SearchMode::Youtube), "  Local  [ YouTube ]   Tab to switch");
    assert_eq!(youtube_results_title(&YoutubeStatus::Done, 12), " Youtube - 12 results ");
    assert_eq!(
        youtube_results_title(&YoutubeStatus::Error("boom".to_string()), 0),
        " YouTube - error: boom"
    );
    let mut lib = LocalLibrary::new();
    assert_eq!(local_results_title(&lib), " Results (0 / scanning...) ");
    lib.music_files.push(MusicFile { name: "a.mp3".to_string(), path: b"/m/a.mp3".to_vec() });
    lib.refilter();
    lib.is_scanning = false;
    assert_eq!(local_results_title(&lib), " Results (1 / 1) ");
}

#[test]
fn progress_with_known_length() {
    // 24 cells wide: 10 for the bar.
    let p = progress(30_000, Some(60_000), 24, true);
    assert_eq!(p.bar, "█████-----");
    assert_eq!(p.elapsed, "00:30");
    assert_eq!(p.total, "01:00");
    // Past the end: full bar.
    let p = progress(90_000, Some(60_000), 24, true);
    assert_eq!(p.bar, "██████████");
}

#[test]
fn progress_with_unknown_length() {
    let p = progress(12_500, None, 19, true);
    // 5 cells, the dot at 12 % 5 = 2.
    assert_eq!(p.bar, "--●--");
    assert_eq!(p.total, "--:--");
    assert_eq!(p.elapsed, "00:12");
    let p = progress(12_500, None, 19, false);
    assert_eq!(p.bar, "-----");
    // A length under a second counts as unknown.
    let p = progress(0, Some(500), 10, true);
    assert_eq!(p.bar, "");
    assert_eq!(p.total, "--:--");
}

#[test]
fn trimming_unicode_white_space() {
    assert_eq!(trim("  a b \t\n"), "a b");
    assert_eq!(trim("\u{3000}x\u{85}"), "x");
    assert_eq!(trim("\u{200b}x"), "\u{200b}x");
    assert_eq!(trim("   "), "");
    assert_eq!(trim(""), "");
    assert_eq!(trim("no-space"), "no-space");
}

#[test]
fn key_hints_per_input_mode() {
    assert_eq!(
        key_hints(InputMode::Typing),
        vec!["[Esc] stop typing ", "[Enter] Confirm ", "[Backspace] delete "]
    );
    let normal = key_hints(InputMode::Normal);
    assert_eq!(normal.len(), 8);
    assert_eq!(normal[0], "[i] type  ");
    assert_eq!(normal[5], "[↑↓] navigate  ");
    assert_eq!(normal[7], "[q] quit  ");
}
