//! The playback side: the commands the interface sends to the audio worker,
//! the statuses the worker reports back, and the worker's decisions (which
//! backend plays, when playback counts as finished, what each command does).
//! The worker itself, which owns the audio device and the `mpv` process,
//! performs what these decisions ask for.

use vstd::prelude::*;
use crate::path::{file_name_of, path_file_name};
use crate::text::{
    concat, lossy_text, text_of_bytes, push_signed_decimal, push_str, signed_decimal, string_from_chars, trim, trimmed,
};

verus! {

/// A command for the audio worker.
pub enum PlayerCommand {
    /// Play a local file (by its path's bytes).
    PlayFile(Vec<u8>),
    /// Play a URL through `mpv`.
    PlayUrl(String),
    Pause,
    Resume,
    Stop,
    /// Set the output volume, in percent.
    SetVolume(u8),
}

/// A status report of the audio worker.
pub enum PlayerStatus {
    /// Playback started (with the track's name) or resumed (without one).
    NowPlaying(Option<String>),
    /// The playback position, in milliseconds.
    Position(u64),
    Paused,
    Stopped,
    FinishedNaturally,
    Error(String),
}

/// The number of 100 ms polls that `mpv` (with `yt-dlp`) gets to start up
/// before its exit is checked.
pub const MPV_STARTUP_GRACE_TICKS: u8 = 30;

/// The IPC socket path given to `mpv`.
pub open spec fn mpv_socket_text() -> Seq<char> {
    "/tmp/termusic_mpv.sock"@
}

/// The IPC socket path given to `mpv`.
pub fn mpv_socket() -> (r: &'static str)
    ensures
        r@ == mpv_socket_text(),
{
    "/tmp/termusic_mpv.sock"
}

/// Which backend is playing.
pub enum PlaybackBackend {
    /// The in-process decoder plays a local file.
    Rodio,
    /// An `mpv` process plays a URL; `startup_ticks` counts the polls since
    /// it was launched, up to the grace period.
    Mpv { startup_ticks: u8 },
    Idle,
}

/// What stopping the current backend takes.
pub enum Teardown {
    Nothing,
    /// Stop the in-process player.
    StopRodio,
    /// Kill and reap the `mpv` process and remove its socket.
    KillMpv,
}

/// A control request for the running backend.
pub enum BackendControl {
    Nothing,
    RodioPause,
    RodioPlay,
    /// Send this JSON line to `mpv` over its IPC socket.
    MpvIpc(String),
}

/// How the `mpv` process stands, as far as the worker could observe it.
pub enum MpvExit {
    Running,
    Exited { success: bool, code: Option<i32> },
    /// Waiting on the process failed, with this message.
    WaitFailed(String),
}

/// The outcome of a completion check.
pub struct FinishCheck {
    /// `Ok(true)` when playback ended naturally, `Ok(false)` while it goes
    /// on, `Err` when the backend failed.
    pub outcome: Result<bool, String>,
    /// The `mpv` process has ended: its socket is to be removed.
    pub release_mpv: bool,
}

pub open spec fn teardown_of(b: PlaybackBackend) -> Teardown {
    match b {
        PlaybackBackend::Rodio => Teardown::StopRodio,
        PlaybackBackend::Mpv { .. } => Teardown::KillMpv,
        PlaybackBackend::Idle => Teardown::Nothing,
    }
}

/// The JSON line that sets mpv's `pause` property.
pub open spec fn mpv_pause_json(paused: bool) -> Seq<char> {
    if paused {
        "{\"command\":[\"set_property\",\"pause\",true]}"@
    } else {
        "{\"command\":[\"set_property\",\"pause\",false]}"@
    }
}

/// The text of the error reported when `mpv` exits unsuccessfully.
pub open spec fn mpv_exit_text(code: Option<i32>) -> Seq<char> {
    "mpv exited with code "@ + signed_decimal(
        match code {
            Some(c) => c as int,
            None => -1,
        },
    )
}

impl PlaybackBackend {
    pub fn is_idle(&self) -> (r: bool)
        ensures
            r == (*self is Idle),
    {
        match self {
            PlaybackBackend::Idle => true,
            _ => false,
        }
    }

    /// Stops whatever plays: the backend becomes idle, and the result says
    /// what the worker must release.
    pub fn stop_current(&mut self) -> (t: Teardown)
        ensures
            *final(self) is Idle,
            t == teardown_of(*old(self)),
    {
        let t = match self {
            PlaybackBackend::Rodio => Teardown::StopRodio,
            PlaybackBackend::Mpv { .. } => Teardown::KillMpv,
            PlaybackBackend::Idle => Teardown::Nothing,
        };
        *self = PlaybackBackend::Idle;
        t
    }

    /// The request that pauses the backend.
    pub fn pause(&self) -> (r: BackendControl)
        ensures
            *self is Rodio ==> r is RodioPause,
            *self is Mpv ==> (r matches BackendControl::MpvIpc(j) && j@ == mpv_pause_json(true)),
            *self is Idle ==> r is Nothing,
    {
        match self {
            PlaybackBackend::Rodio => BackendControl::RodioPause,
            PlaybackBackend::Mpv { .. } => BackendControl::MpvIpc(
                String::from_str("{\"command\":[\"set_property\",\"pause\",true]}"),
            ),
            PlaybackBackend::Idle => BackendControl::Nothing,
        }
    }

    /// The request that resumes the backend.
    pub fn resume(&self) -> (r: BackendControl)
        ensures
            *self is Rodio ==> r is RodioPlay,
            *self is Mpv ==> (r matches BackendControl::MpvIpc(j) && j@ == mpv_pause_json(false)),
            *self is Idle ==> r is Nothing,
    {
        match self {
            PlaybackBackend::Rodio => BackendControl::RodioPlay,
            PlaybackBackend::Mpv { .. } => BackendControl::MpvIpc(
                String::from_str("{\"command\":[\"set_property\",\"pause\",false]}"),
            ),
            PlaybackBackend::Idle => BackendControl::Nothing,
        }
    }

    /// Whether the completion check needs to know how the `mpv` process
    /// stands: only once its start-up grace period is over.
    pub fn needs_exit_probe(&self) -> (r: bool)
        ensures
            r == (*self matches PlaybackBackend::Mpv { startup_ticks } && startup_ticks
                >= MPV_STARTUP_GRACE_TICKS),
    {
        match self {
            PlaybackBackend::Mpv { startup_ticks } => *startup_ticks >= MPV_STARTUP_GRACE_TICKS,
            _ => false,
        }
    }

    /// One completion check. `rodio_empty` says whether the in-process player
    /// has run out of sound; `mpv` says how the `mpv` process stands (it is
    /// only looked at once the grace period is over).
    pub fn check_finished(&mut self, rodio_empty: bool, mpv: MpvExit) -> (r: FinishCheck)
        ensures
            match *old(self) {
                PlaybackBackend::Rodio => if rodio_empty {
                    &&& *final(self) is Idle
                    &&& r.outcome == Ok::<bool, String>(true)
                    &&& !r.release_mpv
                } else {
                    &&& *final(self) == *old(self)
                    &&& r.outcome == Ok::<bool, String>(false)
                    &&& !r.release_mpv
                },
                PlaybackBackend::Mpv { startup_ticks } => if startup_ticks
                    < MPV_STARTUP_GRACE_TICKS {
                    &&& *final(self) == PlaybackBackend::Mpv { startup_ticks: (startup_ticks + 1) as u8 }
                    &&& r.outcome == Ok::<bool, String>(false)
                    &&& !r.release_mpv
                } else {
                    match mpv {
                        MpvExit::Running => {
                            &&& *final(self) == *old(self)
                            &&& r.outcome == Ok::<bool, String>(false)
                            &&& !r.release_mpv
                        },
                        MpvExit::Exited { success, code } => {
                            &&& *final(self) is Idle
                            &&& r.release_mpv
                            &&& success ==> r.outcome == Ok::<bool, String>(true)
                            &&& !success ==> (r.outcome matches Err(e) && e@ == mpv_exit_text(code))
                        },
                        MpvExit::WaitFailed(msg) => {
                            &&& *final(self) is Idle
                            &&& r.release_mpv
                            &&& r.outcome matches Err(e) && e@ == "mpv wait error: "@ + msg@
                        },
                    }
                },
                PlaybackBackend::Idle => {
                    &&& *final(self) is Idle
                    &&& r.outcome == Ok::<bool, String>(false)
                    &&& !r.release_mpv
                },
            },
    {
        match self {
            PlaybackBackend::Rodio => {
                if rodio_empty {
                    *self = PlaybackBackend::Idle;
                    FinishCheck { outcome: Ok(true), release_mpv: false }
                } else {
                    FinishCheck { outcome: Ok(false), release_mpv: false }
                }
            },
            PlaybackBackend::Mpv { startup_ticks } => {
                if *startup_ticks < MPV_STARTUP_GRACE_TICKS {
                    *startup_ticks = *startup_ticks + 1;
                    return FinishCheck { outcome: Ok(false), release_mpv: false };
                }
                match mpv {
                    MpvExit::Running => FinishCheck { outcome: Ok(false), release_mpv: false },
                    MpvExit::Exited { success, code } => {
                        *self = PlaybackBackend::Idle;
                        if success {
                            FinishCheck { outcome: Ok(true), release_mpv: true }
                        } else {
                            FinishCheck { outcome: Err(mpv_exit_message(code)), release_mpv: true }
                        }
                    },
                    MpvExit::WaitFailed(msg) => {
                        *self = PlaybackBackend::Idle;
                        FinishCheck {
                            outcome: Err(concat("mpv wait error: ", msg.as_str())),
                            release_mpv: true,
                        }
                    },
                }
            },
            PlaybackBackend::Idle => FinishCheck { outcome: Ok(false), release_mpv: false },
        }
    }
}

/// The error text for an `mpv` exit with the given code (-1 when the process
/// was ended by a signal and has none).
pub fn mpv_exit_message(code: Option<i32>) -> (r: String)
    ensures
        r@ == mpv_exit_text(code),
{
    let c: i32 = match code {
        Some(c) => c,
        None => -1,
    };
    let mut out: Vec<char> = Vec::new();
    push_str(&mut out, "mpv exited with code ");
    push_signed_decimal(&mut out, c);
    string_from_chars(out.as_slice())
}

/// The track name reported for the file at this path: its final component
/// as text (empty when it has none).
pub open spec fn track_name_of_path(path: Seq<u8>) -> Seq<char> {
    match path_file_name(lossy_text(path)) {
        Some(n) => n,
        None => Seq::<char>::empty(),
    }
}

/// The views of a list of strings.
pub open spec fn views(v: Seq<String>) -> Seq<Seq<char>> {
    v.map_values(|s: String| s@)
}

/// The command line arguments that make `mpv` play `target` without video,
/// resolving it through `yt-dlp` with the given cookies, and listening on the
/// IPC socket.
pub open spec fn mpv_args_text(target: Seq<char>, ytdlp: Seq<char>, cookies: Seq<char>) -> Seq<
    Seq<char>,
> {
    seq![
        "--no-video"@,
        "--really-quiet"@,
        "--script-opts=ytdl_hook-ytdl_path="@ + ytdlp,
        "--ytdl-raw-options=cookies="@ + cookies + ",js-runtimes=node,remote-components=ejs:github"@,
        "--input-ipc-server="@ + mpv_socket_text(),
        target,
    ]
}

/// The arguments `mpv` is launched with to play `target`.
pub fn mpv_args(target: &str, ytdlp_path: &str, cookies_path: &str) -> (r: Vec<String>)
    ensures
        views(r@) == mpv_args_text(target@, ytdlp_path@, cookies_path@),
{
    let mut r: Vec<String> = Vec::new();
    r.push(String::from_str("--no-video"));
    r.push(String::from_str("--really-quiet"));
    r.push(concat("--script-opts=ytdl_hook-ytdl_path=", ytdlp_path));
    let mut raw = concat("--ytdl-raw-options=cookies=", cookies_path);
    raw.append(",js-runtimes=node,remote-components=ejs:github");
    r.push(raw);
    r.push(concat("--input-ipc-server=", mpv_socket()));
    r.push(String::from_str(target));
    assert(views(r@) =~= mpv_args_text(target@, ytdlp_path@, cookies_path@));
    r
}

/// What the worker does, besides releasing the old backend, for a command.
pub enum Control {
    Nothing,
    /// Pass this request on to the running backend.
    Backend(BackendControl),
    /// Open and decode the file at `path` and start playing it; `name` is
    /// the track name to report once it plays.
    OpenFile { path: Vec<u8>, name: String },
    /// Launch `mpv` with these arguments.
    LaunchMpv { args: Vec<String> },
    /// Set the in-process player's volume, in percent.
    SetVolume(u8),
}

/// The worker's plan for one command: first `teardown`, then `control`, then
/// report `status` if there is one.
pub struct CommandPlan {
    pub teardown: Teardown,
    pub control: Control,
    pub status: Option<PlayerStatus>,
}

/// The audio worker's state between commands.
pub struct PlayerLoop {
    pub backend: PlaybackBackend,
    pub is_paused: bool,
    /// Set by an explicit stop, so that the next poll does not mistake the
    /// stop for the end of the track.
    pub stop_requested: bool,
    pub ytdlp_path: String,
    pub cookies_path: String,
}

/// The status that reports a completion check, if any.
pub open spec fn finish_status_spec(outcome: Result<bool, String>) -> Option<PlayerStatus> {
    match outcome {
        Ok(true) => Some(PlayerStatus::FinishedNaturally),
        Ok(false) => None,
        Err(e) => Some(PlayerStatus::Error(e)),
    }
}

impl PlayerLoop {
    /// The worker at start-up: nothing plays.
    pub fn new(ytdlp_path: String, cookies_path: String) -> (r: PlayerLoop)
        ensures
            r.backend is Idle,
            !r.is_paused,
            !r.stop_requested,
            r.ytdlp_path == ytdlp_path,
            r.cookies_path == cookies_path,
    {
        PlayerLoop {
            backend: PlaybackBackend::Idle,
            is_paused: false,
            stop_requested: false,
            ytdlp_path,
            cookies_path,
        }
    }

    /// This poll checks for natural completion: not while idle, paused, or
    /// after an explicit stop.
    pub open spec fn checks_finish(&self) -> bool {
        !(self.backend is Idle) && !self.is_paused && !self.stop_requested
    }

    /// Whether this poll checks for natural completion.
    pub fn should_check_finished(&self) -> (r: bool)
        ensures
            r == self.checks_finish(),
    {
        !self.backend.is_idle() && !self.is_paused && !self.stop_requested
    }

    /// The status to report after a completion check.
    pub fn finish_status(outcome: Result<bool, String>) -> (r: Option<PlayerStatus>)
        ensures
            r == finish_status_spec(outcome),
    {
        match outcome {
            Ok(true) => Some(PlayerStatus::FinishedNaturally),
            Ok(false) => None,
            Err(e) => Some(PlayerStatus::Error(e)),
        }
    }

    /// What `handle_command` does.
    pub open spec fn handled(
        pre: PlayerLoop,
        post: PlayerLoop,
        cmd: PlayerCommand,
        plan: CommandPlan,
    ) -> bool {
        &&& (post.ytdlp_path == pre.ytdlp_path)
        &&& (post.cookies_path == pre.cookies_path)
        &&& (match cmd {
            PlayerCommand::PlayFile(path) => {
                &&& plan.teardown == teardown_of(pre.backend)
                &&& post.backend is Idle
                &&& !post.is_paused
                &&& !post.stop_requested
                &&& plan.control matches Control::OpenFile { path: p, name }
                &&& p@ == path@
                &&& name@ == track_name_of_path(path@)
                &&& plan.status is None
            },
            PlayerCommand::PlayUrl(url) => {
                &&& plan.teardown == teardown_of(pre.backend)
                &&& post.backend is Idle
                &&& !post.is_paused
                &&& !post.stop_requested
                &&& plan.control matches Control::LaunchMpv { args }
                &&& views(args@) == mpv_args_text(
                    url@,
                    pre.ytdlp_path@,
                    pre.cookies_path@,
                )
                &&& plan.status is None
            },
            PlayerCommand::Pause => if !pre.is_paused && !(pre.backend is Idle) {
                &&& plan.teardown is Nothing
                &&& post.backend == pre.backend
                &&& post.is_paused
                &&& post.stop_requested == pre.stop_requested
                &&& plan.control matches Control::Backend(c)
                &&& (pre.backend is Rodio ==> c is RodioPause)
                &&& (pre.backend is Mpv ==> (c matches BackendControl::MpvIpc(j) && j@
                    == mpv_pause_json(true)))
                &&& plan.status == Some(PlayerStatus::Paused)
            } else {
                &&& plan.teardown is Nothing
                &&& post.backend == pre.backend
                &&& post.is_paused == pre.is_paused
                &&& post.stop_requested == pre.stop_requested
                &&& plan.control is Nothing
                &&& plan.status is None
            },
            PlayerCommand::Resume => if pre.is_paused && !(pre.backend is Idle) {
                &&& plan.teardown is Nothing
                &&& post.backend == pre.backend
                &&& !post.is_paused
                &&& post.stop_requested == pre.stop_requested
                &&& plan.control matches Control::Backend(c)
                &&& (pre.backend is Rodio ==> c is RodioPlay)
                &&& (pre.backend is Mpv ==> (c matches BackendControl::MpvIpc(j) && j@
                    == mpv_pause_json(false)))
                &&& plan.status == Some(PlayerStatus::NowPlaying(None))
            } else {
                &&& plan.teardown is Nothing
                &&& post.backend == pre.backend
                &&& post.is_paused == pre.is_paused
                &&& post.stop_requested == pre.stop_requested
                &&& plan.control is Nothing
                &&& plan.status is None
            },
            PlayerCommand::Stop => {
                &&& plan.teardown == teardown_of(pre.backend)
                &&& post.backend is Idle
                &&& !post.is_paused
                &&& post.stop_requested
                &&& plan.control is Nothing
                &&& plan.status == Some(PlayerStatus::Stopped)
            },
            PlayerCommand::SetVolume(v) => {
                &&& plan.teardown is Nothing
                &&& post.backend == pre.backend
                &&& post.is_paused == pre.is_paused
                &&& post.stop_requested == pre.stop_requested
                &&& plan.control == Control::SetVolume(v)
                &&& plan.status is None
            },
        })
    }

    /// The decision for one command.
    pub fn handle_command(&mut self, cmd: PlayerCommand) -> (r: CommandPlan)
        ensures
            PlayerLoop::handled(*old(self), *final(self), cmd, r),
    {
        match cmd {
            PlayerCommand::PlayFile(path) => {
                let teardown = self.backend.stop_current();
                self.is_paused = false;
                self.stop_requested = false;
                let name = file_name_of(text_of_bytes(path.as_slice()).as_str());
                CommandPlan { teardown, control: Control::OpenFile { path, name }, status: None }
            },
            PlayerCommand::PlayUrl(url) => {
                let teardown = self.backend.stop_current();
                self.is_paused = false;
                self.stop_requested = false;
                let args = mpv_args(url.as_str(), self.ytdlp_path.as_str(), self.cookies_path.as_str());
                CommandPlan { teardown, control: Control::LaunchMpv { args }, status: None }
            },
            PlayerCommand::Pause => {
                if !self.is_paused && !self.backend.is_idle() {
                    let c = self.backend.pause();
                    self.is_paused = true;
                    CommandPlan {
                        teardown: Teardown::Nothing,
                        control: Control::Backend(c),
                        status: Some(PlayerStatus::Paused),
                    }
                } else {
                    CommandPlan { teardown: Teardown::Nothing, control: Control::Nothing, status: None }
                }
            },
            PlayerCommand::Resume => {
                if self.is_paused && !self.backend.is_idle() {
                    let c = self.backend.resume();
                    self.is_paused = false;
                    CommandPlan {
                        teardown: Teardown::Nothing,
                        control: Control::Backend(c),
                        status: Some(PlayerStatus::NowPlaying(None)),
                    }
                } else {
                    CommandPlan { teardown: Teardown::Nothing, control: Control::Nothing, status: None }
                }
            },
            PlayerCommand::Stop => {
                self.stop_requested = true;
                let teardown = self.backend.stop_current();
                self.is_paused = false;
                CommandPlan { teardown, control: Control::Nothing, status: Some(PlayerStatus::Stopped) }
            },
            PlayerCommand::SetVolume(v) => {
                CommandPlan { teardown: Teardown::Nothing, control: Control::SetVolume(v), status: None }
            },
        }
    }

    /// The file opened and decoded: the in-process player now plays it.
    pub fn file_started(&mut self, name: String) -> (r: PlayerStatus)
        ensures
            final(self).backend is Rodio,
            final(self).is_paused == old(self).is_paused,
            final(self).stop_requested == old(self).stop_requested,
            final(self).ytdlp_path == old(self).ytdlp_path,
            final(self).cookies_path == old(self).cookies_path,
            r == PlayerStatus::NowPlaying(Some(name)),
    {
        self.backend = PlaybackBackend::Rodio;
        PlayerStatus::NowPlaying(Some(name))
    }

    /// `mpv` launched: it plays, in its start-up grace period.
    pub fn mpv_started(&mut self)
        ensures
            final(self).backend == (PlaybackBackend::Mpv { startup_ticks: 0 }),
            final(self).is_paused == old(self).is_paused,
            final(self).stop_requested == old(self).stop_requested,
            final(self).ytdlp_path == old(self).ytdlp_path,
            final(self).cookies_path == old(self).cookies_path,
    {
        self.backend = PlaybackBackend::Mpv { startup_ticks: 0 };
    }

    /// The interface went away: stop whatever plays.
    pub fn shut_down(&mut self) -> (t: Teardown)
        ensures
            final(self).backend is Idle,
            t == teardown_of(old(self).backend),
    {
        self.backend.stop_current()
    }
}

/// The path printed by `which`: its output without surrounding white space,
/// or nothing when that leaves it empty.
pub fn binary_path_from_output(stdout: &str) -> (r: Option<String>)
    ensures
        trimmed(stdout@).len() == 0 ==> r is None,
        trimmed(stdout@).len() > 0 ==> (r matches Some(p) && p@ == trimmed(stdout@)),
{
    let t = trim(stdout);
    if t.as_str().is_empty() {
        None
    } else {
        Some(t)
    }
}

/// The `yt-dlp` to hand to `mpv`: the one found, or the usual location.
pub fn ytdlp_path_or_default(found: Option<String>) -> (r: String)
    ensures
        found matches Some(p) ==> r == p,
        found is None ==> r@ == "/usr/bin/yt-dlp"@,
{
    match found {
        Some(p) => p,
        None => String::from_str("/usr/bin/yt-dlp"),
    }
}

/// The status reported when a file cannot be opened.
pub fn open_failed(detail: &str) -> (r: PlayerStatus)
    ensures
        r matches PlayerStatus::Error(e) && e@ == "Can't open file: "@ + detail@,
{
    PlayerStatus::Error(concat("Can't open file: ", detail))
}

/// The status reported when a file cannot be decoded.
pub fn decode_failed(detail: &str) -> (r: PlayerStatus)
    ensures
        r matches PlayerStatus::Error(e) && e@ == "Decode error: "@ + detail@,
{
    PlayerStatus::Error(concat("Decode error: ", detail))
}

/// The status reported when `mpv` cannot be launched.
pub fn launch_failed(detail: &str) -> (r: PlayerStatus)
    ensures
        r matches PlayerStatus::Error(e) && e@ == "Failed to launch mpv: "@ + detail@
            + ". Is mpv installed?"@,
{
    let mut s = concat("Failed to launch mpv: ", detail);
    s.append(". Is mpv installed?");
    PlayerStatus::Error(s)
}

/// The status reported when the audio device cannot be opened.
pub fn device_failed(detail: &str) -> (r: PlayerStatus)
    ensures
        r matches PlayerStatus::Error(e) && e@ == "Audio device: "@ + detail@,
{
    PlayerStatus::Error(concat("Audio device: ", detail))
}

} // verus!
