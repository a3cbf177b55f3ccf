use termplay::path::{extension_of, file_name_of};
use termplay::player::{
    binary_path_from_output, ytdlp_path_or_default,
    decode_failed, launch_failed, mpv_args, mpv_exit_message, BackendControl,
    Control, MpvExit, PlaybackBackend, PlayerCommand, PlayerLoop, PlayerStatus, Teardown,
    MPV_STARTUP_GRACE_TICKS,
};

fn status_text(s: &PlayerStatus) -> String {
    match s {
        PlayerStatus::NowPlaying(Some(n)) => format!("playing {n}"),
        PlayerStatus::NowPlaying(None) => "resumed".to_string(),
        PlayerStatus::Position(ms) => format!("at {ms}"),
        PlayerStatus::Paused => "paused".to_string(),
        PlayerStatus::Stopped => "stopped".to_string(),
        PlayerStatus::FinishedNaturally => "finished".to_string(),
        PlayerStatus::Error(e) => format!("error {e}"),
    }
}

#[test]
fn mpv_arguments() {
    let args = mpv_args("https://x/watch?v=1", "/usr/bin/yt-dlp", "/home/u/cookies.txt");
    assert_eq!(
        args,
        vec![
            "--no-video".to_string(),
            "--really-quiet".to_string(),
            "--script-opts=ytdl_hook-ytdl_path=/usr/bin/yt-dlp".to_string(),
            "--ytdl-raw-options=cookies=/home/u/cookies.txt,js-runtimes=node,remote-components=ejs:github"
                .to_string(),
            "--input-ipc-server=/tmp/termusic_mpv.sock".to_string(),
            "https://x/watch?v=1".to_string(),
        ]
    );
}

#[test]
fn mpv_exit_messages() {
    assert_eq!(mpv_exit_message(Some(2)), "mpv exited with code 2");
    assert_eq!(mpv_exit_message(None), "mpv exited with code -1");
    assert_eq!(mpv_exit_message(Some(-130)), "mpv exited with code -130");
    assert_eq!(mpv_exit_message(Some(i32::MIN)), "mpv exited with code -2147483648");
}

#[test]
fn error_statuses() {
    assert_eq!(status_text(&decode_failed("bad")), "error Decode error: bad");
    assert_eq!(
        status_text(&launch_failed("no such file")),
        "error Failed to launch mpv: no such file. Is mpv installed?"
    );
}

#[test]
fn file_names_of_paths() {
    assert_eq!(file_name_of("/music/a/song.mp3"), "song.mp3");
    assert_eq!(file_name_of("song.mp3"), "song.mp3");
    assert_eq!(file_name_of("/"), "");
    assert_eq!(file_name_of(""), "");
    assert_eq!(file_name_of("a/."), "a");
    assert_eq!(file_name_of("a/b/"), "b");
    assert_eq!(file_name_of(".."), "");
    assert_eq!(file_name_of("a/b/.."), "");
    assert_eq!(file_name_of("./"), "");
    assert_eq!(file_name_of("//x//"), "x");
}

#[test]
fn extensions_of_paths() {
    assert_eq!(extension_of("/a/b.mp3"), Some("mp3".to_string()));
    assert_eq!(extension_of("/a/b.tar.gz"), Some("gz".to_string()));
    assert_eq!(extension_of("/a/.bashrc"), None);
    assert_eq!(extension_of("a."), Some(String::new()));
    assert_eq!(extension_of("/a.d/b"), None);
    assert_eq!(extension_of("/"), None);
    assert_eq!(extension_of("x.flac/"), Some("flac".to_string()));
}

#[test]
fn play_file_name_of_a_non_utf8_path() {
    let mut w = PlayerLoop::new("yt".to_string(), "c".to_string());
    let path = b"/m/caf\xe9.mp3".to_vec();
    let plan = w.handle_command(PlayerCommand::PlayFile(path.clone()));
    match plan.control {
        Control::OpenFile { path: p, name } => {
            assert_eq!(p, path);
            assert_eq!(name, "caf\u{fffd}.mp3");
        }
        _ => panic!("expected OpenFile"),
    }
}

#[test]
fn mpv_gets_a_grace_period() {
    let mut b = PlaybackBackend::Mpv { startup_ticks: 0 };
    for _ in 0..MPV_STARTUP_GRACE_TICKS {
        assert!(!b.needs_exit_probe());
        let r = b.check_finished(true, MpvExit::Exited { success: true, code: Some(0) });
        assert_eq!(r.outcome, Ok(false));
        assert!(!r.release_mpv);
    }
    assert!(b.needs_exit_probe());
    let r = b.check_finished(true, MpvExit::Running);
    assert_eq!(r.outcome, Ok(false));
    let r = b.check_finished(false, MpvExit::Exited { success: false, code: Some(1) });
    assert_eq!(r.outcome, Err("mpv exited with code 1".to_string()));
    assert!(r.release_mpv);
    assert!(b.is_idle());
}

#[test]
fn mpv_natural_end_and_wait_failure() {
    let mut b = PlaybackBackend::Mpv { startup_ticks: 30 };
    let r = b.check_finished(false, MpvExit::Exited { success: true, code: Some(0) });
    assert_eq!(r.outcome, Ok(true));
    assert!(b.is_idle());
    let mut b = PlaybackBackend::Mpv { startup_ticks: 30 };
    let r = b.check_finished(false, MpvExit::WaitFailed("EINTR".to_string()));
    assert_eq!(r.outcome, Err("mpv wait error: EINTR".to_string()));
    assert!(r.release_mpv);
}

#[test]
fn rodio_finishes_when_empty() {
    let mut b = PlaybackBackend::Rodio;
    assert_eq!(b.check_finished(false, MpvExit::Running).outcome, Ok(false));
    assert!(!b.is_idle());
    assert_eq!(b.check_finished(true, MpvExit::Running).outcome, Ok(true));
    assert!(b.is_idle());
    assert_eq!(b.check_finished(true, MpvExit::Running).outcome, Ok(false));
}

#[test]
fn play_pause_resume_stop() {
    let mut w = PlayerLoop::new("/usr/bin/yt-dlp".to_string(), "c.txt".to_string());
    assert!(!w.should_check_finished());
    let plan = w.handle_command(PlayerCommand::PlayFile(b"/m/x.flac".to_vec()));
    assert!(matches!(plan.teardown, Teardown::Nothing));
    match plan.control {
        Control::OpenFile { path, name } => {
            assert_eq!(path, b"/m/x.flac".to_vec());
            assert_eq!(name, "x.flac");
        }
        _ => panic!("expected OpenFile"),
    }
    assert!(plan.status.is_none());
    let s = w.file_started("x.flac".to_string());
    assert_eq!(status_text(&s), "playing x.flac");
    assert!(w.should_check_finished());

    let plan = w.handle_command(PlayerCommand::Pause);
    assert!(matches!(plan.control, Control::Backend(BackendControl::RodioPause)));
    assert_eq!(status_text(plan.status.as_ref().unwrap()), "paused");
    assert!(!w.should_check_finished());
    // A second pause does nothing.
    let plan = w.handle_command(PlayerCommand::Pause);
    assert!(matches!(plan.control, Control::Nothing));
    assert!(plan.status.is_none());

    let plan = w.handle_command(PlayerCommand::Resume);
    assert!(matches!(plan.control, Control::Backend(BackendControl::RodioPlay)));
    assert_eq!(status_text(plan.status.as_ref().unwrap()), "resumed");

    let plan = w.handle_command(PlayerCommand::Stop);
    assert!(matches!(plan.teardown, Teardown::StopRodio));
    assert_eq!(status_text(plan.status.as_ref().unwrap()), "stopped");
    assert!(w.stop_requested);
    assert!(!w.should_check_finished());
    // Nothing to pause once stopped.
    let plan = w.handle_command(PlayerCommand::Pause);
    assert!(plan.status.is_none());
}

#[test]
fn urls_go_to_mpv() {
    let mut w = PlayerLoop::new("yt".to_string(), "c".to_string());
    let plan = w.handle_command(PlayerCommand::PlayUrl("https://u".to_string()));
    match plan.control {
        Control::LaunchMpv { args } => {
            assert_eq!(args.last().unwrap(), "https://u");
            assert_eq!(args[2], "--script-opts=ytdl_hook-ytdl_path=yt");
        }
        _ => panic!("expected LaunchMpv"),
    }
    w.mpv_started();
    let plan = w.handle_command(PlayerCommand::Pause);
    match plan.control {
        Control::Backend(BackendControl::MpvIpc(j)) => {
            assert_eq!(j, r#"{"command":["set_property","pause",true]}"#)
        }
        _ => panic!("expected IPC"),
    }
    let plan = w.handle_command(PlayerCommand::Resume);
    match plan.control {
        Control::Backend(BackendControl::MpvIpc(j)) => {
            assert_eq!(j, r#"{"command":["set_property","pause",false]}"#)
        }
        _ => panic!("expected IPC"),
    }
    let plan = w.handle_command(PlayerCommand::PlayFile(b"/a.mp3".to_vec()));
    assert!(matches!(plan.teardown, Teardown::KillMpv));
    assert!(w.backend.is_idle());
    let t = w.shut_down();
    assert!(matches!(t, Teardown::Nothing));
}

#[test]
fn finish_reports() {
    assert!(matches!(PlayerLoop::finish_status(Ok(true)), Some(PlayerStatus::FinishedNaturally)));
    assert!(PlayerLoop::finish_status(Ok(false)).is_none());
    match PlayerLoop::finish_status(Err("e".to_string())) {
        Some(PlayerStatus::Error(e)) => assert_eq!(e, "e"),
        _ => panic!(),
    }
}

#[test]
fn which_output_and_default_ytdlp() {
    assert_eq!(binary_path_from_output("/usr/local/bin/yt-dlp\n"), Some("/usr/local/bin/yt-dlp".to_string()));
    assert_eq!(binary_path_from_output("  \n"), None);
    assert_eq!(binary_path_from_output(""), None);
    assert_eq!(ytdlp_path_or_default(None), "/usr/bin/yt-dlp");
    assert_eq!(ytdlp_path_or_default(Some("/x/yt".to_string())), "/x/yt");
}
