//! The interface's state and its reaction to the user and to the workers.
//!
//! Every operation changes the state and returns the commands to send to the
//! workers (`Action`s), in the order in which they are to be sent; the
//! program around the library owns the channels, sends them, and feeds the
//! workers' answers back in.

use vstd::prelude::*;
use crate::cover::{ImageCommand, ImageResult};
use crate::library::{
    LocalLibrary, scroll_down_selection, scroll_up_selection, scrolled_down, scrolled_up,
};
use crate::music::MusicFile;
use crate::player::{PlayerCommand, PlayerStatus};
use crate::text::{lossy_text, string_pop, string_push, text_of_bytes};
use crate::youtube::{
    YoutubeCommand, YoutubeResult, YoutubeVideo, video_id_of_url, video_id_text, watch_url,
    watch_url_text,
};

verus! {

/// Whether keys edit the search bar or trigger commands.
#[derive(PartialEq, Eq, Structural, Clone, Copy, Debug)]
pub enum InputMode {
    /// Keys trigger commands (navigate, pause, stop).
    Normal,
    /// Characters go to the active search bar.
    Typing,
}

/// Which search the interface shows: the local library or YouTube.
#[derive(PartialEq, Eq, Structural, Clone, Copy, Debug)]
pub enum SearchMode {
    Local,
    Youtube,
}

/// What the player panel shows.
pub enum DisplayStatus {
    Idle,
    Playing,
    Paused,
    Stopped,
    Finished,
    Error(String),
}

/// What the YouTube panel shows.
pub enum YoutubeStatus {
    Idle,
    Searching,
    Done,
    Error(String),
}

/// A playlist entry: a local file or a YouTube video.
pub struct PlaylistEntry {
    pub name: String,
    /// The file's path, or the video's watch URL.
    pub path_or_url: String,
    pub is_youtube: bool,
    /// The length in seconds, 0 when unknown.
    pub duration_secs: u64,
}

/// A command for one of the workers, or a question for the program.
pub enum Action {
    Player(PlayerCommand),
    Image(ImageCommand),
    Youtube(YoutubeCommand),
    /// Read the length of the audio file at this path and hand it back with
    /// `App::set_current_duration`.
    ProbeDuration(Vec<u8>),
}

/// The YouTube half of the interface.
pub struct YoutubePanel {
    pub query: String,
    pub results: Vec<YoutubeVideo>,
    pub selected: Option<usize>,
    pub status: YoutubeStatus,
}

/// What is known of the playback.
pub struct Playback {
    /// The last status the player reported (drives the status bar).
    pub player_status: PlayerStatus,
    /// Kept so that a resume can show the name again.
    pub current_track_name: String,
    pub is_paused: bool,
    /// The current track is a YouTube stream.
    pub is_youtube_playing: bool,
    /// In percent, from 0 to 100.
    pub volume: u8,
    pub current_duration_ms: Option<u64>,
    pub current_position_ms: u64,
    pub display_status: DisplayStatus,
}

/// The playlist and its selection.
pub struct Playlist {
    pub entries: Vec<PlaylistEntry>,
    pub selected: Option<usize>,
}

/// The whole interface state.
pub struct App {
    pub running: bool,
    pub input_mode: InputMode,
    pub search_mode: SearchMode,
    pub local: LocalLibrary,
    pub youtube: YoutubePanel,
    pub playback: Playback,
    pub playlist: Playlist,
    /// Advances every frame; drives the visualiser.
    pub animation_tick: u8,
    pub current_image: Option<image::DynamicImage>,
    /// Changes whenever `current_image` does, so that the screen rebuilds it.
    pub current_image_id: usize,
}

/// A key the user pressed.
#[derive(Clone, Copy, Debug)]
pub enum Key {
    Char(char),
    Enter,
    Esc,
    Tab,
    Backspace,
    Up,
    Down,
    Other,
}

/// What a key asks for, in the current input mode.
#[derive(Clone, Copy, Debug)]
pub enum UserCommand {
    Quit,
    StartTyping,
    StopTyping,
    ToggleSearchMode,
    Enter,
    TogglePause,
    Stop,
    NavigateDown,
    NavigateUp,
    AddToPlaylist,
    RemoveFromPlaylist,
    PlayPlaylist,
    VolumeUp,
    VolumeDown,
    PlaylistDown,
    PlaylistUp,
    TypeChar(char),
    DeleteChar,
    Nothing,
}

/// No two playlist entries share a path or URL.
pub open spec fn paths_distinct(entries: Seq<PlaylistEntry>) -> bool {
    forall|i: int, j: int|
        0 <= i < j < entries.len() ==> #[trigger] entries[i].path_or_url@
            != #[trigger] entries[j].path_or_url@
}

/// Some playlist entry has this path or URL.
pub open spec fn has_path(entries: Seq<PlaylistEntry>, path: Seq<char>) -> bool {
    exists|i: int| 0 <= i < entries.len() && #[trigger] entries[i].path_or_url@ == path
}

/// An entry with these contents.
pub open spec fn entry_is(
    e: PlaylistEntry,
    name: Seq<char>,
    path: Seq<char>,
    is_youtube: bool,
    duration_secs: u64,
) -> bool {
    &&& e.name@ == name
    &&& e.path_or_url@ == path
    &&& e.is_youtube == is_youtube
    &&& e.duration_secs == duration_secs
}

/// A length in seconds, in milliseconds (the largest value when it does not
/// fit).
pub open spec fn secs_to_ms(secs: u64) -> u64 {
    if secs * 1000 <= u64::MAX {
        (secs * 1000) as u64
    } else {
        u64::MAX
    }
}

/// The known length of a track of `secs` seconds (none for 0).
pub open spec fn duration_of_secs(secs: u64) -> Option<u64> {
    if secs > 0 {
        Some(secs_to_ms(secs))
    } else {
        None
    }
}

fn duration_from_secs(secs: u64) -> (r: Option<u64>)
    ensures
        r == duration_of_secs(secs),
{
    if secs > 0 {
        match secs.checked_mul(1000) {
            Some(ms) => Some(ms),
            None => Some(u64::MAX),
        }
    } else {
        None
    }
}

/// The commands that play the local file at `path`: find its length, fetch
/// its cover, play it.
pub open spec fn local_play_actions(actions: Seq<Action>, path: Seq<u8>) -> bool {
    &&& actions.len() == 3
    &&& actions[0] matches Action::ProbeDuration(p) && p@ == path
    &&& actions[1] matches Action::Image(ImageCommand::FetchLocal(p)) && p@ == path
    &&& actions[2] matches Action::Player(PlayerCommand::PlayFile(p)) && p@ == path
}

/// The commands that play a YouTube video: fetch its thumbnail, and ask the
/// YouTube worker for its stream URL (played once it arrives, see
/// `App::poll_youtube_results`).
pub open spec fn youtube_play_actions(actions: Seq<Action>, v: YoutubeVideo) -> bool {
    actions == seq![
        Action::Image(ImageCommand::FetchYoutube(v.video_id)),
        Action::Youtube(YoutubeCommand::ResolveStream(v.video_id)),
    ]
}

impl App {
    /// The state is consistent: the search result matches the files and the
    /// query, the volume is a percentage, and the playlist has no duplicates.
    pub open spec fn wf(&self) -> bool {
        &&& self.local.wf()
        &&& self.playback.volume <= 100
        &&& paths_distinct(self.playlist.entries@)
    }

    /// The YouTube result on the selected row, if the selection is on a row.
    pub open spec fn selected_video_index(&self) -> Option<int> {
        match self.youtube.selected {
            Some(i) => if i < self.youtube.results@.len() {
                Some(i as int)
            } else {
                None
            },
            None => None,
        }
    }

    /// The state after `play_selected`.
    pub open spec fn after_play_local(pre: App) -> App {
        match pre.local.selected_file_index() {
            None => pre,
            Some(_) => App {
                playback: Playback {
                    current_duration_ms: None,
                    current_position_ms: 0,
                    is_paused: false,
                    is_youtube_playing: false,
                    ..pre.playback
                },
                ..pre
            },
        }
    }

    /// The commands `play_selected` sends.
    pub open spec fn play_local_actions(pre: App, actions: Seq<Action>) -> bool {
        match pre.local.selected_file_index() {
            None => actions.len() == 0,
            Some(k) => local_play_actions(actions, pre.local.music_files@[k].path@),
        }
    }

    /// The state after `play_selected_youtube`.
    pub open spec fn after_play_youtube(pre: App) -> App {
        match pre.selected_video_index() {
            None => pre,
            Some(k) => {
                let v = pre.youtube.results@[k];
                App {
                    playback: Playback {
                        current_track_name: v.title,
                        current_position_ms: 0,
                        current_duration_ms: duration_of_secs(v.duration_secs),
                        is_paused: false,
                        display_status: DisplayStatus::Playing,
                        is_youtube_playing: true,
                        player_status: PlayerStatus::NowPlaying(Some(v.title)),
                        ..pre.playback
                    },
                    ..pre
                }
            },
        }
    }

    /// The commands `play_selected_youtube` sends.
    pub open spec fn play_youtube_actions(pre: App, actions: Seq<Action>) -> bool {
        match pre.selected_video_index() {
            None => actions.len() == 0,
            Some(k) => youtube_play_actions(actions, pre.youtube.results@[k]),
        }
    }

    /// What `submit_youtube_search` does.
    pub open spec fn submitted_search(pre: App, post: App, actions: Seq<Action>) -> bool {
        if pre.youtube.query@.len() == 0 {
            post == pre && actions.len() == 0
        } else {
            &&& post == (App {
                youtube: YoutubePanel {
                    results: post.youtube.results,
                    status: YoutubeStatus::Searching,
                    ..pre.youtube
                },
                ..pre
            })
            &&& post.youtube.results@.len() == 0
            &&& actions == seq![Action::Youtube(YoutubeCommand::Search(pre.youtube.query))]
        }
    }

    /// What `handle_enter` does.
    pub open spec fn entered(pre: App, post: App, actions: Seq<Action>) -> bool {
        let normal = App { input_mode: InputMode::Normal, ..pre };
        match pre.search_mode {
            SearchMode::Local => post == App::after_play_local(normal)
                && App::play_local_actions(normal, actions),
            SearchMode::Youtube => if pre.input_mode == InputMode::Typing {
                App::submitted_search(normal, post, actions)
            } else {
                post == App::after_play_youtube(pre) && App::play_youtube_actions(pre, actions)
            },
        }
    }

    /// What `toggle_search_mode` does.
    pub open spec fn toggled_search_mode(pre: App, post: App) -> bool {
        &&& (post == (App {
            search_mode: match pre.search_mode {
                SearchMode::Local => SearchMode::Youtube,
                SearchMode::Youtube => SearchMode::Local,
            },
            ..pre
        }))
    }

    /// What `toggle_pause` does.
    pub open spec fn toggled_pause(pre: App, post: App, r: Seq<Action>) -> bool {
        &&& (pre.playback.is_paused ==> {
            &&& post == (App {
                playback: Playback {
                    player_status: PlayerStatus::NowPlaying(
                        Some(pre.playback.current_track_name),
                    ),
                    is_paused: false,
                    ..pre.playback
                },
                ..pre
            })
            &&& r == seq![Action::Player(PlayerCommand::Resume)]
        })
        &&& (!pre.playback.is_paused ==> {
            &&& post == (App {
                playback: Playback { is_paused: true, ..pre.playback },
                ..pre
            })
            &&& r == seq![Action::Player(PlayerCommand::Pause)]
        })
    }

    /// What `stop` does.
    pub open spec fn stopped(pre: App, post: App, r: Seq<Action>) -> bool {
        &&& (post == (App {
            playback: Playback { is_paused: false, ..pre.playback },
            ..pre
        }))
        &&& (r == seq![Action::Player(PlayerCommand::Stop)])
    }

    /// What `navigate_down` does.
    pub open spec fn navigated_down(pre: App, post: App) -> bool {
        &&& (pre.search_mode == SearchMode::Local ==> post == (App {
            local: LocalLibrary {
                selected: scrolled_down(
                    pre.local.selected,
                    pre.local.filtered_indices@.len(),
                ),
                ..pre.local
            },
            ..pre
        }))
        &&& (pre.search_mode == SearchMode::Youtube ==> post == (App {
            youtube: YoutubePanel {
                selected: scrolled_down(
                    pre.youtube.selected,
                    pre.youtube.results@.len(),
                ),
                ..pre.youtube
            },
            ..pre
        }))
    }

    /// What `navigate_up` does.
    pub open spec fn navigated_up(pre: App, post: App) -> bool {
        &&& (pre.search_mode == SearchMode::Local ==> post == (App {
            local: LocalLibrary { selected: scrolled_up(pre.local.selected), ..pre.local },
            ..pre
        }))
        &&& (pre.search_mode == SearchMode::Youtube ==> post == (App {
            youtube: YoutubePanel {
                selected: scrolled_up(pre.youtube.selected),
                ..pre.youtube
            },
            ..pre
        }))
    }

    /// What `add_to_playlist` does.
    pub open spec fn added_to_playlist(pre: App, post: App) -> bool {
        &&& (post == (App {
            playlist: Playlist {
                entries: post.playlist.entries,
                selected: post.playlist.selected,
            },
            ..pre
        }))
        &&& (match App::playlist_candidate(pre) {
            Some((name, path, is_youtube, secs)) => if has_path(
                pre.playlist.entries@,
                path,
            ) {
                post.playlist.entries@ == pre.playlist.entries@
            } else {
                &&& post.playlist.entries@.len() == pre.playlist.entries@.len() + 1
                &&& post.playlist.entries@.drop_last() == pre.playlist.entries@
                &&& entry_is(post.playlist.entries@.last(), name, path, is_youtube, secs)
            },
            None => post.playlist.entries@ == pre.playlist.entries@,
        })
        &&& (post.playlist.selected == if post.playlist.entries@.len() > 0 {
            Some((post.playlist.entries@.len() - 1) as usize)
                } else {
            pre.playlist.selected
        })
    }

    /// What `remove_from_playlist` does.
    pub open spec fn removed_from_playlist(pre: App, post: App) -> bool {
        &&& (pre.playlist.selected is None ==> post == pre)
        &&& (pre.playlist.selected matches Some(i) ==> {
            &&& post.playlist.entries@ == pre.playlist.entries@.remove(i as int)
            &&& post == (App {
                playlist: Playlist {
                    entries: post.playlist.entries,
                    selected: if post.playlist.entries@.len() == 0 {
                        None
                    } else {
                        Some(if i > 0 { (i - 1) as usize } else { 0usize })
                    },
                },
                ..pre
            })
        })
    }

    /// What `play_selected_playlist` does.
    pub open spec fn played_playlist(pre: App, post: App, r: Seq<Action>) -> bool {
        &&& (match pre.playlist.selected {
            Some(i) => if i < pre.playlist.entries@.len() {
                let e = pre.playlist.entries@[i as int];
                &&& post == (App {
                    playback: Playback {
                        current_track_name: e.name,
                        current_position_ms: 0,
                        current_duration_ms: duration_of_secs(e.duration_secs),
                        is_youtube_playing: e.is_youtube,
                        display_status: DisplayStatus::Playing,
                        ..pre.playback
                    },
                    ..pre
        })
                &&& e.is_youtube ==> {
                    &&& r.len() == 2
                    &&& r[0] matches Action::Image(ImageCommand::FetchYoutube(id)) && id@
                        == video_id_text(e.path_or_url@)
                    &&& r[1] == Action::Player(PlayerCommand::PlayUrl(e.path_or_url))
        }
                &&& !e.is_youtube ==> {
                    &&& r.len() == 2
                    &&& r[0] matches Action::Image(ImageCommand::FetchLocal(p)) && p@
                        == vstd::utf8::encode_utf8(e.path_or_url@)
                    &&& r[1] matches Action::Player(PlayerCommand::PlayFile(p)) && p@
                        == vstd::utf8::encode_utf8(e.path_or_url@)
                }
            } else {
                post == pre && r.len() == 0
            },
            None => post == pre && r.len() == 0,
        })
    }

    /// What `volume_up` does.
    pub open spec fn raised_volume(pre: App, post: App, r: Seq<Action>) -> bool {
        &&& (post == (App {
            playback: Playback {
                volume: if pre.playback.volume + 5 <= 100 {
                    (pre.playback.volume + 5) as u8
                } else {
                    100u8
                },
                ..pre.playback
            },
            ..pre
        }))
        &&& (r == seq![Action::Player(PlayerCommand::SetVolume(post.playback.volume))])
    }

    /// What `volume_down` does.
    pub open spec fn lowered_volume(pre: App, post: App, r: Seq<Action>) -> bool {
        &&& (post == (App {
            playback: Playback {
                volume: if pre.playback.volume >= 5 {
                    (pre.playback.volume - 5) as u8
                } else {
                    0u8
                },
                ..pre.playback
            },
            ..pre
        }))
        &&& (r == seq![Action::Player(PlayerCommand::SetVolume(post.playback.volume))])
    }

    /// What `playlist_scroll_down` does.
    pub open spec fn playlist_moved_down(pre: App, post: App) -> bool {
        &&& (post == (App {
            playlist: Playlist {
                selected: scrolled_down(
                    pre.playlist.selected,
                    pre.playlist.entries@.len(),
                ),
                ..pre.playlist
            },
            ..pre
        }))
    }

    /// What `playlist_scroll_up` does.
    pub open spec fn playlist_moved_up(pre: App, post: App) -> bool {
        &&& (post == (App {
            playlist: Playlist { selected: scrolled_up(pre.playlist.selected), ..pre.playlist },
            ..pre
        }))
    }

    /// What `type_char` does.
    pub open spec fn typed(pre: App, post: App, c: char) -> bool {
        &&& (pre.search_mode == SearchMode::Local ==> App::searched(
            pre,
            post,
            pre.local.search_query@.push(c),
        ))
        &&& (pre.search_mode == SearchMode::Youtube ==> {
            &&& post.youtube.query@ == pre.youtube.query@.push(c)
            &&& post == (App {
                youtube: YoutubePanel { query: post.youtube.query, ..pre.youtube },
                ..pre
            })
        })
    }

    /// What `delete_char` does.
    pub open spec fn deleted_char(pre: App, post: App) -> bool {
        &&& (pre.search_mode == SearchMode::Local ==> App::searched(
            pre,
            post,
            drop_last_char(pre.local.search_query@),
        ))
        &&& (pre.search_mode == SearchMode::Youtube ==> {
            &&& post.youtube.query@ == drop_last_char(pre.youtube.query@)
            &&& post == (App {
                youtube: YoutubePanel { query: post.youtube.query, ..pre.youtube },
                ..pre
            })
        })
    }

    /// What `quit` does.
    pub open spec fn quitted(pre: App, post: App) -> bool {
        &&& (post == (App { running: false, ..pre }))
    }

    /// The interface at start-up: local mode, nothing found yet, the scan
    /// running, nothing playing, full volume.
    pub fn new() -> (r: App)
        ensures
            r.wf(),
            r.running,
            r.input_mode == InputMode::Normal,
            r.search_mode == SearchMode::Local,
            r.local.search_query@.len() == 0,
            r.local.music_files@.len() == 0,
            r.local.is_scanning,
            r.local.selected is None,
            r.youtube.query@.len() == 0,
            r.youtube.results@.len() == 0,
            r.youtube.selected is None,
            r.youtube.status is Idle,
            r.playback.player_status is Stopped,
            r.playback.current_track_name@.len() == 0,
            !r.playback.is_paused,
            !r.playback.is_youtube_playing,
            r.playback.volume == 100,
            r.playback.current_duration_ms is None,
            r.playback.current_position_ms == 0,
            r.playback.display_status is Idle,
            r.playlist.entries@.len() == 0,
            r.playlist.selected is None,
            r.animation_tick == 0,
            r.current_image is None,
            r.current_image_id == 0,
    {
        App {
            running: true,
            input_mode: InputMode::Normal,
            search_mode: SearchMode::Local,
            local: LocalLibrary::new(),
            youtube: YoutubePanel {
                query: String::new(),
                results: Vec::new(),
                selected: None,
                status: YoutubeStatus::Idle,
            },
            playback: Playback {
                player_status: PlayerStatus::Stopped,
                current_track_name: String::new(),
                is_paused: false,
                is_youtube_playing: false,
                volume: 100,
                current_duration_ms: None,
                current_position_ms: 0,
                display_status: DisplayStatus::Idle,
            },
            playlist: Playlist { entries: Vec::new(), selected: None },
            animation_tick: 0,
            current_image: None,
            current_image_id: 0,
        }
    }

    /// Switches between the local and the YouTube search (Tab).
    pub fn toggle_search_mode(&mut self)
        ensures
            App::toggled_search_mode(*old(self), *final(self)),
    {
        self.search_mode = match self.search_mode {
            SearchMode::Local => SearchMode::Youtube,
            SearchMode::Youtube => SearchMode::Local,
        };
    }
    /// The YouTube result on the selected row.
    pub fn selected_youtube_video(&self) -> (r: Option<&YoutubeVideo>)
        ensures
            match self.selected_video_index() {
                Some(k) => r == Some(&self.youtube.results@[k]),
                None => r is None,
            },
    {
        let i = match self.youtube.selected {
            Some(i) => i,
            None => return None,
        };
        if i < self.youtube.results.len() {
            Some(&self.youtube.results[i])
        } else {
            None
        }
    }

    /// Moves the YouTube selection down.
    pub fn youtube_scroll_down(&mut self)
        ensures
            *final(self) == (App {
                youtube: YoutubePanel {
                    selected: scrolled_down(
                        old(self).youtube.selected,
                        old(self).youtube.results@.len(),
                    ),
                    ..old(self).youtube
                },
                ..*old(self)
            }),
    {
        self.youtube.selected = scroll_down_selection(self.youtube.selected, self.youtube.results.len());
    }

    /// Moves the YouTube selection up.
    pub fn youtube_scroll_up(&mut self)
        ensures
            *final(self) == (App {
                youtube: YoutubePanel {
                    selected: scrolled_up(old(self).youtube.selected),
                    ..old(self).youtube
                },
                ..*old(self)
            }),
    {
        self.youtube.selected = scroll_up_selection(self.youtube.selected);
    }

    /// Moves the local selection down.
    pub fn scroll_down(&mut self)
        ensures
            *final(self) == (App {
                local: LocalLibrary {
                    selected: scrolled_down(
                        old(self).local.selected,
                        old(self).local.filtered_indices@.len(),
                    ),
                    ..old(self).local
                },
                ..*old(self)
            }),
    {
        self.local.selected = scroll_down_selection(self.local.selected, self.local.filtered_indices.len());
    }

    /// Moves the local selection up.
    pub fn scroll_up(&mut self)
        ensures
            *final(self) == (App {
                local: LocalLibrary { selected: scrolled_up(old(self).local.selected), ..old(self).local },
                ..*old(self)
            }),
    {
        self.local.selected = scroll_up_selection(self.local.selected);
    }

    /// The local file on the selected row.
    pub fn selected_file(&self) -> (r: Option<&MusicFile>)
        requires
            self.wf(),
        ensures
            match self.local.selected_file_index() {
                Some(k) => 0 <= k < self.local.music_files@.len() && r == Some(
                    &self.local.music_files@[k],
                ),
                None => r is None,
            },
    {
        self.local.selected_file()
    }

    /// Plays the selected local file (Enter in local mode).
    pub fn play_selected(&mut self) -> (r: Vec<Action>)
        requires
            old(self).wf(),
        ensures
            *final(self) == App::after_play_local(*old(self)),
            App::play_local_actions(*old(self), r@),
    {
        let path = match self.local.selected_file() {
            Some(file) => vstd::slice::slice_to_vec(file.path.as_slice()),
            None => return Vec::new(),
        };
        self.playback.current_duration_ms = None;
        self.playback.current_position_ms = 0;
        self.playback.is_paused = false;
        self.playback.is_youtube_playing = false;
        let mut r: Vec<Action> = Vec::new();
        r.push(Action::ProbeDuration(vstd::slice::slice_to_vec(path.as_slice())));
        r.push(Action::Image(ImageCommand::FetchLocal(vstd::slice::slice_to_vec(path.as_slice()))));
        r.push(Action::Player(PlayerCommand::PlayFile(path)));
        r
    }

    /// Records the length of the playing track, as read from its file.
    pub fn set_current_duration(&mut self, duration_ms: Option<u64>)
        ensures
            *final(self) == (App {
                playback: Playback { current_duration_ms: duration_ms, ..old(self).playback },
                ..*old(self)
            }),
    {
        self.playback.current_duration_ms = duration_ms;
    }

    /// Plays the selected YouTube result in two steps: the YouTube worker is
    /// asked for its stream URL (and the image worker for its thumbnail);
    /// the URL is handed to the player when it arrives, in
    /// `poll_youtube_results`.
    pub fn play_selected_youtube(&mut self) -> (r: Vec<Action>)
        ensures
            *final(self) == App::after_play_youtube(*old(self)),
            App::play_youtube_actions(*old(self), r@),
    {
        let (video_id, title, duration_secs) = match self.selected_youtube_video() {
            Some(v) => (v.video_id.clone(), v.title.clone(), v.duration_secs),
            None => return Vec::new(),
        };
        self.playback.current_track_name = title;
        self.playback.current_position_ms = 0;
        self.playback.current_duration_ms = duration_from_secs(duration_secs);
        self.playback.is_paused = false;
        self.playback.display_status = DisplayStatus::Playing;
        self.playback.is_youtube_playing = true;
        let ghost id = video_id;
        let mut r: Vec<Action> = Vec::new();
        r.push(Action::Image(ImageCommand::FetchYoutube(video_id.clone())));
        r.push(Action::Youtube(YoutubeCommand::ResolveStream(video_id)));
        assert(r@ =~= seq![
            Action::Image(ImageCommand::FetchYoutube(id)),
            Action::Youtube(YoutubeCommand::ResolveStream(id)),
        ]);
        self.playback.player_status = PlayerStatus::NowPlaying(
            Some(self.playback.current_track_name.clone()),
        );
        r
    }

    /// Starts a YouTube search for the query, unless it is empty.
    pub fn submit_youtube_search(&mut self) -> (r: Vec<Action>)
        ensures
            App::submitted_search(*old(self), *final(self), r@),
    {
        if self.youtube.query.as_str().is_empty() {
            return Vec::new();
        }
        self.youtube.status = YoutubeStatus::Searching;
        self.youtube.results.clear();
        let mut r: Vec<Action> = Vec::new();
        r.push(Action::Youtube(YoutubeCommand::Search(self.youtube.query.clone())));
        r
    }

    /// Enter: in local mode, leave typing and play the selected file; in
    /// YouTube mode, submit the search when typing, else play the selected
    /// result.
    pub fn handle_enter(&mut self) -> (r: Vec<Action>)
        requires
            old(self).wf(),
        ensures
            App::entered(*old(self), *final(self), r@),
    {
        match self.search_mode {
            SearchMode::Local => {
                self.input_mode = InputMode::Normal;
                self.play_selected()
            },
            SearchMode::Youtube => {
                if self.input_mode == InputMode::Typing {
                    self.input_mode = InputMode::Normal;
                    self.submit_youtube_search()
                } else {
                    self.play_selected_youtube()
                }
            },
        }
    }
    /// What `poll_youtube_results` does with one answer.
    pub open spec fn took_youtube_result(
        pre: App,
        post: App,
        result: YoutubeResult,
        r: Seq<Action>,
    ) -> bool {
        match result {
            YoutubeResult::SearchResults(videos) => {
                &&& post == (App {
                    youtube: YoutubePanel {
                        results: videos,
                        status: YoutubeStatus::Done,
                        selected: if videos@.len() > 0 {
                            Some(0usize)
                        } else {
                            pre.youtube.selected
                        },
                        ..pre.youtube
                    },
                    ..pre
                })
                &&& r.len() == 0
            },
            YoutubeResult::StreamUrl(url) => {
                &&& post == (App {
                    playback: Playback {
                        player_status: PlayerStatus::NowPlaying(
                            Some(pre.playback.current_track_name),
                        ),
                        ..pre.playback
                    },
                    ..pre
                })
                &&& r == seq![Action::Player(PlayerCommand::PlayUrl(url))]
            },
            YoutubeResult::Error(e) => {
                &&& post == (App {
                    playback: Playback { player_status: PlayerStatus::Error(e), ..pre.playback },
                    youtube: YoutubePanel { status: YoutubeStatus::Error(e), ..pre.youtube },
                    ..pre
                })
                &&& r.len() == 0
            },
        }
    }

    /// Takes in one answer of the YouTube worker.
    pub fn poll_youtube_results(&mut self, result: YoutubeResult) -> (r: Vec<Action>)
        ensures
            App::took_youtube_result(*old(self), *final(self), result, r@),
    {
        match result {
            YoutubeResult::SearchResults(videos) => {
                self.youtube.results = videos;
                self.youtube.status = YoutubeStatus::Done;
                if self.youtube.results.len() > 0 {
                    self.youtube.selected = Some(0);
                }
                Vec::new()
            },
            YoutubeResult::StreamUrl(url) => {
                let mut r: Vec<Action> = Vec::new();
                r.push(Action::Player(PlayerCommand::PlayUrl(url)));
                self.playback.player_status = PlayerStatus::NowPlaying(
                    Some(self.playback.current_track_name.clone()),
                );
                r
            },
            YoutubeResult::Error(e) => {
                self.playback.player_status = PlayerStatus::Error(e.clone());
                self.youtube.status = YoutubeStatus::Error(e);
                Vec::new()
            },
        }
    }

    /// Takes in the files the scan found since the last call, in the order
    /// found, and whether the scan has ended. Nothing changes once the scan
    /// has ended.
    pub fn poll_scan_results(&mut self, files: Vec<MusicFile>, finished: bool)
        requires
            old(self).wf(),
        ensures
            final(self).wf(),
            !old(self).local.is_scanning ==> *final(self) == *old(self),
            old(self).local.is_scanning ==> {
                &&& *final(self) == (App {
                    local: LocalLibrary {
                        music_files: final(self).local.music_files,
                        filtered_indices: final(self).local.filtered_indices,
                        is_scanning: !finished,
                        selected: if old(self).local.selected is None && files@.len() > 0
                            && final(self).local.filtered_indices@.len() > 0 {
                            Some(0usize)
                        } else {
                            old(self).local.selected
                        },
                        ..old(self).local
                    },
                    ..*old(self)
                })
                &&& final(self).local.music_files@ == old(self).local.music_files@ + files@
            },
    {
        if !self.local.is_scanning {
            return;
        }
        let ghost pre = *self;
        let ghost added = files@;
        let n = files.len();
        let mut files = files;
        self.local.music_files.append(&mut files);
        if n > 0 {
            self.local.refilter();
        } else {
            assert(self.local.music_files@ =~= pre.local.music_files@);
        }
        if finished {
            self.local.is_scanning = false;
        }
    }

    /// Replaces the local search query and moves the selection to the first
    /// result (to nothing when there is none).
    pub fn update_search(&mut self, query: &str)
        requires
            old(self).wf(),
        ensures
            final(self).wf(),
            final(self).local.search_query@ == query@,
            *final(self) == (App {
                local: LocalLibrary {
                    search_query: final(self).local.search_query,
                    filtered_indices: final(self).local.filtered_indices,
                    selected: if final(self).local.filtered_indices@.len() > 0 {
                        Some(0usize)
                    } else {
                        None
                    },
                    ..old(self).local
                },
                ..*old(self)
            }),
    {
        self.local.search_query = String::from_str(query);
        self.local.refilter();
        self.local.selected = if self.local.filtered_indices.len() == 0 {
            None
        } else {
            Some(0)
        };
    }

    /// Pauses, or resumes and shows the track name again (Space).
    pub fn toggle_pause(&mut self) -> (r: Vec<Action>)
        ensures
            App::toggled_pause(*old(self), *final(self), r@),
    {
        let mut r: Vec<Action> = Vec::new();
        if self.playback.is_paused {
            r.push(Action::Player(PlayerCommand::Resume));
            self.playback.player_status = PlayerStatus::NowPlaying(
                Some(self.playback.current_track_name.clone()),
            );
            self.playback.is_paused = false;
        } else {
            r.push(Action::Player(PlayerCommand::Pause));
            self.playback.is_paused = true;
        }
        r
    }

    /// Stops playback ('s').
    pub fn stop(&mut self) -> (r: Vec<Action>)
        ensures
            App::stopped(*old(self), *final(self), r@),
    {
        let mut r: Vec<Action> = Vec::new();
        r.push(Action::Player(PlayerCommand::Stop));
        self.playback.is_paused = false;
        r
    }

    /// The state after the end of a track, before the next one is played.
    pub open spec fn finished_reset(pre: App) -> App {
        App {
            playback: Playback {
                is_paused: false,
                current_position_ms: 0,
                current_duration_ms: None,
                is_youtube_playing: false,
                display_status: DisplayStatus::Finished,
                ..pre.playback
            },
            ..pre
        }
    }

    /// `a` with the player status replaced.
    pub open spec fn with_status(a: App, status: PlayerStatus) -> App {
        App { playback: Playback { player_status: status, ..a.playback }, ..a }
    }

    /// What `poll_player_status` does with one status report.
    pub open spec fn status_applied(pre: App, post: App, status: PlayerStatus, r: Seq<Action>) -> bool {
        match status {
            PlayerStatus::NowPlaying(Some(name)) => {
                &&& post == (App {
                    playback: Playback {
                        current_track_name: name,
                        current_position_ms: 0,
                        is_paused: false,
                        display_status: DisplayStatus::Playing,
                        player_status: status,
                        ..pre.playback
                    },
                    ..pre
                })
                &&& r.len() == 0
            },
            PlayerStatus::NowPlaying(None) => {
                &&& post == (App {
                    playback: Playback {
                        player_status: PlayerStatus::NowPlaying(
                            Some(pre.playback.current_track_name),
                        ),
                        display_status: DisplayStatus::Playing,
                        is_paused: false,
                        ..pre.playback
                    },
                    ..pre
                })
                &&& r.len() == 0
            },
            PlayerStatus::Position(ms) => {
                &&& post == (App {
                    playback: Playback {
                        current_position_ms: ms,
                        player_status: status,
                        ..pre.playback
                    },
                    ..pre
                })
                &&& r.len() == 0
            },
            PlayerStatus::Paused => {
                &&& post == (App {
                    playback: Playback {
                        is_paused: true,
                        display_status: DisplayStatus::Paused,
                        player_status: status,
                        ..pre.playback
                    },
                    ..pre
                })
                &&& r.len() == 0
            },
            PlayerStatus::FinishedNaturally => {
                let reset = App::finished_reset(pre);
                match pre.search_mode {
                    SearchMode::Local => {
                        let moved = App {
                            local: LocalLibrary {
                                selected: scrolled_down(
                                    reset.local.selected,
                                    reset.local.filtered_indices@.len(),
                                ),
                                ..reset.local
                            },
                            ..reset
                        };
                        &&& post == App::with_status(
                            App::after_play_local(moved),
                            PlayerStatus::FinishedNaturally,
                        )
                        &&& App::play_local_actions(moved, r)
                    },
                    SearchMode::Youtube => {
                        let moved = App {
                            youtube: YoutubePanel {
                                selected: scrolled_down(
                                    reset.youtube.selected,
                                    reset.youtube.results@.len(),
                                ),
                                ..reset.youtube
                            },
                            ..reset
                        };
                        &&& post == App::with_status(
                            App::after_play_youtube(moved),
                            PlayerStatus::FinishedNaturally,
                        )
                        &&& App::play_youtube_actions(moved, r)
                    },
                }
            },
            PlayerStatus::Error(_) | PlayerStatus::Stopped => {
                &&& post == (App {
                    playback: Playback {
                        is_paused: false,
                        current_duration_ms: None,
                        current_position_ms: 0,
                        display_status: DisplayStatus::Stopped,
                        is_youtube_playing: false,
                        player_status: status,
                        ..pre.playback
                    },
                    ..pre
                })
                &&& r.len() == 0
            },
        }
    }

    /// Takes in one status report of the player. At the natural end of a
    /// track the next row of the current list is played.
    pub fn poll_player_status(&mut self, status: PlayerStatus) -> (r: Vec<Action>)
        requires
            old(self).wf(),
        ensures
            final(self).wf(),
            App::status_applied(*old(self), *final(self), status, r@),
    {
        let mut r: Vec<Action> = Vec::new();
        match &status {
            PlayerStatus::NowPlaying(Some(name)) => {
                self.playback.current_track_name = name.clone();
                self.playback.current_position_ms = 0;
                self.playback.is_paused = false;
                self.playback.display_status = DisplayStatus::Playing;
            },
            PlayerStatus::NowPlaying(None) => {
                self.playback.player_status = PlayerStatus::NowPlaying(
                    Some(self.playback.current_track_name.clone()),
                );
                self.playback.display_status = DisplayStatus::Playing;
                self.playback.is_paused = false;
                return r;
            },
            PlayerStatus::Position(ms) => {
                self.playback.current_position_ms = *ms;
            },
            PlayerStatus::Paused => {
                self.playback.is_paused = true;
                self.playback.display_status = DisplayStatus::Paused;
            },
            PlayerStatus::FinishedNaturally => {
                self.playback.is_paused = false;
                self.playback.current_position_ms = 0;
                self.playback.current_duration_ms = None;
                self.playback.is_youtube_playing = false;
                self.playback.display_status = DisplayStatus::Finished;
                match self.search_mode {
                    SearchMode::Local => {
                        self.scroll_down();
                        r = self.play_selected();
                    },
                    SearchMode::Youtube => {
                        self.youtube_scroll_down();
                        r = self.play_selected_youtube();
                    },
                }
            },
            PlayerStatus::Error(_) | PlayerStatus::Stopped => {
                self.playback.is_paused = false;
                self.playback.current_duration_ms = None;
                self.playback.current_position_ms = 0;
                self.playback.display_status = DisplayStatus::Stopped;
                self.playback.is_youtube_playing = false;
            },
        }
        self.playback.player_status = status;
        r
    }

    /// Advances the animation by one frame (wrapping around).
    pub fn tick(&mut self)
        ensures
            *final(self) == (App {
                animation_tick: (if old(self).animation_tick == 255 {
                    0
                } else {
                    old(self).animation_tick + 1
                }) as u8,
                ..*old(self)
            }),
    {
        self.animation_tick = self.animation_tick.wrapping_add(1);
    }

    /// Raises the volume by 5 percent, up to 100, and tells the player.
    pub fn volume_up(&mut self) -> (r: Vec<Action>)
        requires
            old(self).wf(),
        ensures
            final(self).wf(),
            App::raised_volume(*old(self), *final(self), r@),
    {
        self.playback.volume = if self.playback.volume <= 95 {
            self.playback.volume + 5
        } else {
            100
        };
        let mut r: Vec<Action> = Vec::new();
        r.push(Action::Player(PlayerCommand::SetVolume(self.playback.volume)));
        r
    }

    /// Lowers the volume by 5 percent, down to 0, and tells the player.
    pub fn volume_down(&mut self) -> (r: Vec<Action>)
        requires
            old(self).wf(),
        ensures
            final(self).wf(),
            App::lowered_volume(*old(self), *final(self), r@),
    {
        self.playback.volume = if self.playback.volume >= 5 {
            self.playback.volume - 5
        } else {
            0
        };
        let mut r: Vec<Action> = Vec::new();
        r.push(Action::Player(PlayerCommand::SetVolume(self.playback.volume)));
        r
    }

    /// The playback position in whole seconds.
    pub fn elapsed_secs(&self) -> (r: u64)
        ensures
            r == self.playback.current_position_ms / 1000,
    {
        self.playback.current_position_ms / 1000
    }

    /// Takes in one answer of the image worker: the new cover, or none.
    pub fn poll_image(&mut self, result: ImageResult)
        requires
            old(self).current_image_id < usize::MAX,
        ensures
            final(self).current_image_id == old(self).current_image_id + 1,
            match result {
                ImageResult::Loaded(img) => final(self).current_image == Some(img),
                _ => final(self).current_image is None,
            },
            *final(self) == (App {
                current_image: final(self).current_image,
                current_image_id: final(self).current_image_id,
                ..*old(self)
            }),
    {
        match result {
            ImageResult::Loaded(img) => {
                self.current_image = Some(img);
            },
            ImageResult::NotFound | ImageResult::Error(_) => {
                self.current_image = None;
            },
        }
        self.current_image_id = self.current_image_id + 1;
    }
    /// The entry that `add_to_playlist` would add: the selected file in
    /// local mode, the selected result in YouTube mode (name, path or URL,
    /// whether from YouTube, length in seconds).
    pub open spec fn playlist_candidate(pre: App) -> Option<(Seq<char>, Seq<char>, bool, u64)> {
        match pre.search_mode {
            SearchMode::Local => match pre.local.selected_file_index() {
                Some(k) => {
                    let f = pre.local.music_files@[k];
                    Some((f.name@, lossy_text(f.path@), false, 0u64))
                },
                None => None,
            },
            SearchMode::Youtube => match pre.selected_video_index() {
                Some(k) => {
                    let v = pre.youtube.results@[k];
                    Some((v.title@, watch_url_text(v.video_id@), true, v.duration_secs))
                },
                None => None,
            },
        }
    }

    fn contains_path(entries: &Vec<PlaylistEntry>, path: &String) -> (r: bool)
        ensures
            r == has_path(entries@, path@),
    {
        let n = entries.len();
        let mut i: usize = 0;
        while i < n
            invariant
                n == entries@.len(),
                i <= n,
                forall|k: int| 0 <= k < i ==> #[trigger] entries@[k].path_or_url@ != path@,
            decreases n - i,
        {
            if entries[i].path_or_url == *path {
                return true;
            }
            i = i + 1;
        }
        false
    }

    /// Adds the selected file or result to the playlist unless an entry has
    /// its path or URL already, then selects the last entry ('a').
    pub fn add_to_playlist(&mut self)
        requires
            old(self).wf(),
        ensures
            final(self).wf(),
            App::added_to_playlist(*old(self), *final(self)),
    {
        let candidate: Option<PlaylistEntry> = match self.search_mode {
            SearchMode::Local => match self.local.selected_file() {
                Some(file) => Some(
                    PlaylistEntry {
                        name: file.name.clone(),
                        path_or_url: text_of_bytes(file.path.as_slice()),
                        is_youtube: false,
                        duration_secs: 0,
                    },
                ),
                None => None,
            },
            SearchMode::Youtube => match self.selected_youtube_video() {
                Some(video) => Some(
                    PlaylistEntry {
                        name: video.title.clone(),
                        path_or_url: watch_url(video.video_id.as_str()),
                        is_youtube: true,
                        duration_secs: video.duration_secs,
                    },
                ),
                None => None,
            },
        };
        match candidate {
            Some(entry) => {
                if !Self::contains_path(&self.playlist.entries, &entry.path_or_url) {
                    let ghost before = self.playlist.entries@;
                    self.playlist.entries.push(entry);
                    assert(self.playlist.entries@.drop_last() =~= before);
                    assert forall|i: int, j: int|
                        0 <= i < j < self.playlist.entries@.len() implies #[trigger] self.playlist.entries@[i].path_or_url@
                        != #[trigger] self.playlist.entries@[j].path_or_url@ by {
                        if j == before.len() {
                            assert(self.playlist.entries@[i] == before[i]);
                        }
                    }
                }
            },
            None => {},
        }
        if self.playlist.entries.len() > 0 {
            self.playlist.selected = Some(self.playlist.entries.len() - 1);
        }
    }

    /// Removes the selected playlist entry and selects the one before it
    /// ('d').
    pub fn remove_from_playlist(&mut self)
        requires
            old(self).wf(),
            old(self).playlist.selected matches Some(i) ==> i < old(self).playlist.entries@.len(),
        ensures
            final(self).wf(),
            App::removed_from_playlist(*old(self), *final(self)),
    {
        match self.playlist.selected {
            Some(i) => {
                let ghost before = self.playlist.entries@;
                self.playlist.entries.remove(i);
                assert forall|a: int, b: int|
                    0 <= a < b < self.playlist.entries@.len() implies #[trigger] self.playlist.entries@[a].path_or_url@
                    != #[trigger] self.playlist.entries@[b].path_or_url@ by {
                    let a0 = if a < i { a } else { a + 1 };
                    let b0 = if b < i { b } else { b + 1 };
                    assert(self.playlist.entries@[a] == before[a0]);
                    assert(self.playlist.entries@[b] == before[b0]);
                }
                let new_sel = i.saturating_sub(1);
                self.playlist.selected = if self.playlist.entries.len() == 0 {
                    None
                } else {
                    Some(new_sel)
                };
            },
            None => {},
        }
    }

    /// Plays the selected playlist entry ('p').
    pub fn play_selected_playlist(&mut self) -> (r: Vec<Action>)
        ensures
            App::played_playlist(*old(self), *final(self), r@),
    {
        let i = match self.playlist.selected {
            Some(i) => i,
            None => return Vec::new(),
        };
        if i >= self.playlist.entries.len() {
            return Vec::new();
        }
        let name = self.playlist.entries[i].name.clone();
        let path_or_url = self.playlist.entries[i].path_or_url.clone();
        let is_youtube = self.playlist.entries[i].is_youtube;
        let duration_secs = self.playlist.entries[i].duration_secs;
        self.playback.current_track_name = name;
        self.playback.current_position_ms = 0;
        self.playback.current_duration_ms = duration_from_secs(duration_secs);
        let mut r: Vec<Action> = Vec::new();
        if is_youtube {
            self.playback.is_youtube_playing = true;
            let video_id = video_id_of_url(path_or_url.as_str());
            r.push(Action::Image(ImageCommand::FetchYoutube(video_id)));
            r.push(Action::Player(PlayerCommand::PlayUrl(path_or_url)));
        } else {
            self.playback.is_youtube_playing = false;
            r.push(Action::Image(ImageCommand::FetchLocal(path_or_url.as_str().as_bytes_vec())));
            r.push(Action::Player(PlayerCommand::PlayFile(path_or_url.as_str().as_bytes_vec())));
        }
        self.playback.display_status = DisplayStatus::Playing;
        r
    }

    /// Moves the playlist selection down ('j').
    pub fn playlist_scroll_down(&mut self)
        ensures
            App::playlist_moved_down(*old(self), *final(self)),
    {
        self.playlist.selected = scroll_down_selection(self.playlist.selected, self.playlist.entries.len());
    }

    /// Moves the playlist selection up ('k').
    pub fn playlist_scroll_up(&mut self)
        ensures
            App::playlist_moved_up(*old(self), *final(self)),
    {
        self.playlist.selected = scroll_up_selection(self.playlist.selected);
    }
    /// Moves the selection of the current list down (Down).
    pub fn navigate_down(&mut self)
        ensures
            App::navigated_down(*old(self), *final(self)),
    {
        match self.search_mode {
            SearchMode::Local => self.scroll_down(),
            SearchMode::Youtube => self.youtube_scroll_down(),
        }
    }

    /// Moves the selection of the current list up (Up).
    pub fn navigate_up(&mut self)
        ensures
            App::navigated_up(*old(self), *final(self)),
    {
        match self.search_mode {
            SearchMode::Local => self.scroll_up(),
            SearchMode::Youtube => self.youtube_scroll_up(),
        }
    }

    /// What `update_search` leaves: the query replaced, the result
    /// recomputed, the first result selected.
    pub open spec fn searched(pre: App, post: App, query: Seq<char>) -> bool {
        &&& post.wf()
        &&& post.local.search_query@ == query
        &&& post == (App {
            local: LocalLibrary {
                search_query: post.local.search_query,
                filtered_indices: post.local.filtered_indices,
                selected: if post.local.filtered_indices@.len() > 0 {
                    Some(0usize)
                } else {
                    None
                },
                ..pre.local
            },
            ..pre
        })
    }

    /// A typed character goes to the search bar of the current mode; the
    /// local search runs again at once.
    pub fn type_char(&mut self, c: char)
        requires
            old(self).wf(),
        ensures
            final(self).wf(),
            App::typed(*old(self), *final(self), c),
    {
        match self.search_mode {
            SearchMode::Local => {
                let mut q = self.local.search_query.clone();
                string_push(&mut q, c);
                self.update_search(q.as_str());
            },
            SearchMode::Youtube => {
                string_push(&mut self.youtube.query, c);
            },
        }
    }

    /// Backspace deletes the last character of the current search bar (if
    /// any); the local search runs again in any case.
    pub fn delete_char(&mut self)
        requires
            old(self).wf(),
        ensures
            final(self).wf(),
            App::deleted_char(*old(self), *final(self)),
    {
        match self.search_mode {
            SearchMode::Local => {
                let mut q = self.local.search_query.clone();
                let _ = string_pop(&mut q);
                self.update_search(q.as_str());
            },
            SearchMode::Youtube => {
                let _ = string_pop(&mut self.youtube.query);
            },
        }
    }

    /// Enters or leaves typing mode.
    pub fn set_input_mode(&mut self, mode: InputMode)
        ensures
            *final(self) == (App { input_mode: mode, ..*old(self) }),
    {
        self.input_mode = mode;
    }

    /// Ends the program's main loop ('q').
    pub fn quit(&mut self)
        ensures
            App::quitted(*old(self), *final(self)),
    {
        self.running = false;
    }
    /// The selected playlist entry, if any, exists (removing it is possible).
    pub open spec fn removal_possible(&self) -> bool {
        self.playlist.selected matches Some(i) ==> i < self.playlist.entries@.len()
    }

    /// Whether removing the selected playlist entry is possible.
    pub fn can_remove_from_playlist(&self) -> (r: bool)
        ensures
            r == self.removal_possible(),
    {
        match self.playlist.selected {
            Some(i) => i < self.playlist.entries.len(),
            None => true,
        }
    }

    /// What carrying out a user command does.
    pub open spec fn performed(pre: App, post: App, cmd: UserCommand, r: Seq<Action>) -> bool {
        match cmd {
            UserCommand::Quit => App::quitted(pre, post) && r.len() == 0,
            UserCommand::StartTyping => post == (App { input_mode: InputMode::Typing, ..pre })
                && r.len() == 0,
            UserCommand::StopTyping => post == (App { input_mode: InputMode::Normal, ..pre })
                && r.len() == 0,
            UserCommand::ToggleSearchMode => App::toggled_search_mode(pre, post) && r.len() == 0,
            UserCommand::Enter => App::entered(pre, post, r),
            UserCommand::TogglePause => App::toggled_pause(pre, post, r),
            UserCommand::Stop => App::stopped(pre, post, r),
            UserCommand::NavigateDown => App::navigated_down(pre, post) && r.len() == 0,
            UserCommand::NavigateUp => App::navigated_up(pre, post) && r.len() == 0,
            UserCommand::AddToPlaylist => App::added_to_playlist(pre, post) && r.len() == 0,
            UserCommand::RemoveFromPlaylist => App::removed_from_playlist(pre, post) && r.len()
                == 0,
            UserCommand::PlayPlaylist => App::played_playlist(pre, post, r),
            UserCommand::VolumeUp => App::raised_volume(pre, post, r),
            UserCommand::VolumeDown => App::lowered_volume(pre, post, r),
            UserCommand::PlaylistDown => App::playlist_moved_down(pre, post) && r.len() == 0,
            UserCommand::PlaylistUp => App::playlist_moved_up(pre, post) && r.len() == 0,
            UserCommand::TypeChar(c) => App::typed(pre, post, c) && r.len() == 0,
            UserCommand::DeleteChar => App::deleted_char(pre, post) && r.len() == 0,
            UserCommand::Nothing => post == pre && r.len() == 0,
        }
    }

    /// Carries out a user command. Removing a playlist entry needs the
    /// selection to be on an entry.
    pub fn perform(&mut self, cmd: UserCommand) -> (r: Vec<Action>)
        requires
            old(self).wf(),
            cmd is RemoveFromPlaylist ==> old(self).removal_possible(),
        ensures
            final(self).wf(),
            App::performed(*old(self), *final(self), cmd, r@),
    {
        match cmd {
            UserCommand::Quit => {
                self.quit();
                Vec::new()
            },
            UserCommand::StartTyping => {
                self.set_input_mode(InputMode::Typing);
                Vec::new()
            },
            UserCommand::StopTyping => {
                self.set_input_mode(InputMode::Normal);
                Vec::new()
            },
            UserCommand::ToggleSearchMode => {
                self.toggle_search_mode();
                Vec::new()
            },
            UserCommand::Enter => self.handle_enter(),
            UserCommand::TogglePause => self.toggle_pause(),
            UserCommand::Stop => self.stop(),
            UserCommand::NavigateDown => {
                self.navigate_down();
                Vec::new()
            },
            UserCommand::NavigateUp => {
                self.navigate_up();
                Vec::new()
            },
            UserCommand::AddToPlaylist => {
                self.add_to_playlist();
                Vec::new()
            },
            UserCommand::RemoveFromPlaylist => {
                self.remove_from_playlist();
                Vec::new()
            },
            UserCommand::PlayPlaylist => self.play_selected_playlist(),
            UserCommand::VolumeUp => self.volume_up(),
            UserCommand::VolumeDown => self.volume_down(),
            UserCommand::PlaylistDown => {
                self.playlist_scroll_down();
                Vec::new()
            },
            UserCommand::PlaylistUp => {
                self.playlist_scroll_up();
                Vec::new()
            },
            UserCommand::TypeChar(c) => {
                self.type_char(c);
                Vec::new()
            },
            UserCommand::DeleteChar => {
                self.delete_char();
                Vec::new()
            },
            UserCommand::Nothing => Vec::new(),
        }
    }

    /// Reacts to a key: finds the command it stands for in the current
    /// input mode and carries it out.
    pub fn handle_key(&mut self, key: Key) -> (r: Vec<Action>)
        requires
            old(self).wf(),
            key_command_spec(old(self).input_mode, key) is RemoveFromPlaylist ==> old(
                self,
            ).removal_possible(),
        ensures
            final(self).wf(),
            App::performed(*old(self), *final(self), key_command_spec(old(self).input_mode, key), r@),
    {
        let cmd = key_command(self.input_mode, key);
        self.perform(cmd)
    }
}

/// The text without its last character (unchanged when empty).
pub open spec fn drop_last_char(s: Seq<char>) -> Seq<char> {
    if s.len() == 0 {
        s
    } else {
        s.drop_last()
    }
}

/// The command a key stands for: in typing mode keys edit the search bar,
/// in normal mode they trigger commands.
pub open spec fn key_command_spec(mode: InputMode, key: Key) -> UserCommand {
    match mode {
        InputMode::Typing => match key {
            Key::Esc => UserCommand::StopTyping,
            Key::Enter => UserCommand::Enter,
            Key::Char(c) => UserCommand::TypeChar(c),
            Key::Backspace => UserCommand::DeleteChar,
            _ => UserCommand::Nothing,
        },
        InputMode::Normal => match key {
            Key::Char(c) => if c == 'q' {
                UserCommand::Quit
            } else if c == 'i' {
                UserCommand::StartTyping
            } else if c == ' ' {
                UserCommand::TogglePause
            } else if c == 's' {
                UserCommand::Stop
            } else if c == 'a' {
                UserCommand::AddToPlaylist
            } else if c == 'd' {
                UserCommand::RemoveFromPlaylist
            } else if c == 'p' {
                UserCommand::PlayPlaylist
            } else if c == '+' {
                UserCommand::VolumeUp
            } else if c == '-' {
                UserCommand::VolumeDown
            } else if c == 'j' {
                UserCommand::PlaylistDown
            } else if c == 'k' {
                UserCommand::PlaylistUp
            } else {
                UserCommand::Nothing
            },
            Key::Tab => UserCommand::ToggleSearchMode,
            Key::Enter => UserCommand::Enter,
            Key::Down => UserCommand::NavigateDown,
            Key::Up => UserCommand::NavigateUp,
            Key::Esc => UserCommand::StopTyping,
            _ => UserCommand::Nothing,
        },
    }
}

/// The command a key stands for in the given input mode.
pub fn key_command(mode: InputMode, key: Key) -> (r: UserCommand)
    ensures
        r == key_command_spec(mode, key),
{
    match mode {
        InputMode::Typing => match key {
            Key::Esc => UserCommand::StopTyping,
            Key::Enter => UserCommand::Enter,
            Key::Char(c) => UserCommand::TypeChar(c),
            Key::Backspace => UserCommand::DeleteChar,
            _ => UserCommand::Nothing,
        },
        InputMode::Normal => match key {
            Key::Char(c) => if c == 'q' {
                UserCommand::Quit
            } else if c == 'i' {
                UserCommand::StartTyping
            } else if c == ' ' {
                UserCommand::TogglePause
            } else if c == 's' {
                UserCommand::Stop
            } else if c == 'a' {
                UserCommand::AddToPlaylist
            } else if c == 'd' {
                UserCommand::RemoveFromPlaylist
            } else if c == 'p' {
                UserCommand::PlayPlaylist
            } else if c == '+' {
                UserCommand::VolumeUp
            } else if c == '-' {
                UserCommand::VolumeDown
            } else if c == 'j' {
                UserCommand::PlaylistDown
            } else if c == 'k' {
                UserCommand::PlaylistUp
            } else {
                UserCommand::Nothing
            },
            Key::Tab => UserCommand::ToggleSearchMode,
            Key::Enter => UserCommand::Enter,
            Key::Down => UserCommand::NavigateDown,
            Key::Up => UserCommand::NavigateUp,
            Key::Esc => UserCommand::StopTyping,
            _ => UserCommand::Nothing,
        },
    }
}

} // verus!
