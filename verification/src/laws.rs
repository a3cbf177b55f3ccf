//! Properties that relate several operations of the library, or several
//! calls of one.

use vstd::prelude::*;
use crate::cover::{decoded_in_order, decodes, Attempts, CoverSearch, ImageResult};
use crate::app::{
    Action, App, DisplayStatus, InputMode, Key, SearchMode, UserCommand, has_path, key_command_spec,
};
use crate::view::search_text_spec;
use crate::library::{matching_indices, name_matches};
use crate::player::{CommandPlan, PlayerCommand, PlayerLoop, PlayerStatus};
use crate::text::{contains, find_from, last_index_of, lemma_last_index_of, lowercased, occurs_at};
use crate::youtube::{video_id_text, watch_url_text, YoutubeCommand, YoutubeResult};

verus! {

/// Switching the search mode twice gives back the state one started from.
pub proof fn law_toggle_search_mode_twice(a: App, b: App, c: App)
    requires
        App::toggled_search_mode(a, b),
        App::toggled_search_mode(b, c),
    ensures
        c == a,
{
}

/// Toggling pause twice restores the paused flag; the two commands sent
/// are a pause and a resume, in the order the first state calls for.
pub proof fn law_toggle_pause_twice(a: App, b: App, c: App, r1: Seq<Action>, r2: Seq<Action>)
    requires
        App::toggled_pause(a, b, r1),
        App::toggled_pause(b, c, r2),
    ensures
        c.playback.is_paused == a.playback.is_paused,
        a.playback.is_paused ==> r1 == seq![Action::Player(PlayerCommand::Resume)] && r2 == seq![
            Action::Player(PlayerCommand::Pause),
        ],
        !a.playback.is_paused ==> r1 == seq![Action::Player(PlayerCommand::Pause)] && r2 == seq![
            Action::Player(PlayerCommand::Resume),
        ],
{
}

/// Raising the volume and lowering it again restores it, unless raising
/// it was clipped at 100 percent.
pub proof fn law_volume_up_then_down(a: App, b: App, c: App, r1: Seq<Action>, r2: Seq<Action>)
    requires
        App::raised_volume(a, b, r1),
        App::lowered_volume(b, c, r2),
        a.playback.volume <= 95,
    ensures
        c.playback.volume == a.playback.volume,
{
}

/// Lowering the volume and raising it again restores it, unless lowering
/// it was clipped at 0.
pub proof fn law_volume_down_then_up(a: App, b: App, c: App, r1: Seq<Action>, r2: Seq<Action>)
    requires
        a.wf(),
        App::lowered_volume(a, b, r1),
        App::raised_volume(b, c, r2),
        a.playback.volume >= 5,
    ensures
        c.playback.volume == a.playback.volume,
{
}

/// The track name is kept across a pause: when the player reports a resume
/// without a name, the status shows the name it reported when the track
/// started.
pub proof fn law_resume_report_restores_name(
    a: App,
    b: App,
    c: App,
    d: App,
    name: String,
    r1: Seq<Action>,
    r2: Seq<Action>,
    r3: Seq<Action>,
)
    requires
        App::status_applied(a, b, PlayerStatus::NowPlaying(Some(name)), r1),
        App::status_applied(b, c, PlayerStatus::Paused, r2),
        App::status_applied(c, d, PlayerStatus::NowPlaying(None), r3),
    ensures
        d.playback.player_status == PlayerStatus::NowPlaying(Some(name)),
        !d.playback.is_paused,
{
}

/// Pausing and resuming from the keyboard shows the name of the playing
/// track again.
pub proof fn law_toggle_pause_restores_name(
    a: App,
    b: App,
    c: App,
    d: App,
    name: String,
    r1: Seq<Action>,
    r2: Seq<Action>,
    r3: Seq<Action>,
)
    requires
        App::status_applied(a, b, PlayerStatus::NowPlaying(Some(name)), r1),
        App::toggled_pause(b, c, r2),
        App::toggled_pause(c, d, r3),
    ensures
        d.playback.player_status == PlayerStatus::NowPlaying(Some(name)),
        !d.playback.is_paused,
        r2 == seq![Action::Player(PlayerCommand::Pause)],
        r3 == seq![Action::Player(PlayerCommand::Resume)],
{
}

/// In typing mode every character goes to the search bar.
pub proof fn law_typing_captures_characters(c: char)
    ensures
        key_command_spec(InputMode::Typing, Key::Char(c)) == UserCommand::TypeChar(c),
{
}

/// Typing a character and deleting it gives back the query, and in local
/// mode the search result too.
pub proof fn law_type_then_delete(a: App, b: App, d: App, c: char)
    requires
        a.wf(),
        App::typed(a, b, c),
        App::deleted_char(b, d),
    ensures
        d.local.search_query@ == a.local.search_query@,
        d.local.filtered_indices@ == a.local.filtered_indices@,
        d.youtube.query@ == a.youtube.query@,
{
    assert(a.local.search_query@.push(c).drop_last() =~= a.local.search_query@);
    assert(a.youtube.query@.push(c).drop_last() =~= a.youtube.query@);
}

/// Adding the same selection to the playlist twice leaves a single copy:
/// the second addition changes nothing.
pub proof fn law_add_to_playlist_twice(a: App, b: App, c: App)
    requires
        App::added_to_playlist(a, b),
        App::added_to_playlist(b, c),
    ensures
        c.playlist.entries@ == b.playlist.entries@,
        c.playlist.selected == b.playlist.selected,
        c == (App { playlist: crate::app::Playlist { entries: c.playlist.entries, ..b.playlist }, ..b }),
{
    assert(App::playlist_candidate(b) == App::playlist_candidate(a));
    match App::playlist_candidate(a) {
        Some((name, path, y, secs)) => {
            if !has_path(a.playlist.entries@, path) {
                let last = b.playlist.entries@.len() - 1;
                assert(b.playlist.entries@[last].path_or_url@ == path);
            }
            assert(has_path(b.playlist.entries@, path));
        },
        None => {},
    }
    assert(c.playlist.entries@ =~= b.playlist.entries@);
}

/// Removing the entry just added gives the playlist back as it was.
pub proof fn law_add_then_remove(a: App, b: App, c: App)
    requires
        App::added_to_playlist(a, b),
        App::playlist_candidate(a) matches Some(cand) && !has_path(a.playlist.entries@, cand.1),
        App::removed_from_playlist(b, c),
        a.playlist.entries@.len() < usize::MAX,
    ensures
        c.playlist.entries@ == a.playlist.entries@,
{
    let n = a.playlist.entries@.len();
    assert(b.playlist.selected == Some(n as usize));
    assert(b.playlist.entries@.remove(n as int) =~= b.playlist.entries@.drop_last());
}

/// A query that is empty once lower-cased keeps every file, in order.
pub proof fn law_empty_query_keeps_all(names: Seq<Seq<char>>, query: Seq<char>)
    requires
        lowercased(query).len() == 0,
        names.len() <= usize::MAX,
    ensures
        matching_indices(names, query) == Seq::new(names.len(), |i: int| i as usize),
    decreases names.len(),
{
    if names.len() > 0 {
        law_empty_query_keeps_all(names.drop_last(), query);
        assert(name_matches(query, names.last()));
        assert(matching_indices(names, query) =~= Seq::new(names.len(), |i: int| i as usize));
    } else {
        assert(matching_indices(names, query) =~= Seq::new(names.len(), |i: int| i as usize));
    }
}

/// After an explicit stop the worker does not look for a natural end, so
/// the stop is never reported as the end of the track.
pub proof fn law_stop_suppresses_finish(pre: PlayerLoop, post: PlayerLoop, plan: CommandPlan)
    requires
        PlayerLoop::handled(pre, post, PlayerCommand::Stop, plan),
    ensures
        !post.checks_finish(),
        plan.status == Some(PlayerStatus::Stopped),
{
}

/// Pausing and then resuming a playing backend gives the worker back its
/// state; the resume is reported without a name.
pub proof fn law_pause_then_resume(
    a: PlayerLoop,
    b: PlayerLoop,
    c: PlayerLoop,
    p1: CommandPlan,
    p2: CommandPlan,
)
    requires
        !a.is_paused,
        !(a.backend is Idle),
        PlayerLoop::handled(a, b, PlayerCommand::Pause, p1),
        PlayerLoop::handled(b, c, PlayerCommand::Resume, p2),
    ensures
        c.backend == a.backend,
        c.is_paused == a.is_paused,
        c.stop_requested == a.stop_requested,
        p1.status == Some(PlayerStatus::Paused),
        p2.status == Some(PlayerStatus::NowPlaying(None)),
{
}

/// A position found by `find_from` is an occurrence, at or after the start.
pub proof fn lemma_find_from_sound(s: Seq<char>, p: Seq<char>, i: int)
    ensures
        find_from(s, p, i) matches Some(j) ==> i <= j && occurs_at(s, p, j),
    decreases s.len() + 1 - i,
{
    if !(i < 0 || i + p.len() > s.len()) && !occurs_at(s, p, i) {
        lemma_find_from_sound(s, p, i + 1);
    }
}

/// Positions without an occurrence can be skipped.
proof fn lemma_find_from_skip(s: Seq<char>, p: Seq<char>, i: int, j: int)
    requires
        0 <= i <= j,
        j + p.len() <= s.len(),
        forall|k: int| i <= k < j ==> !occurs_at(s, p, k),
    ensures
        find_from(s, p, i) == find_from(s, p, j),
    decreases j - i,
{
    if i < j {
        lemma_find_from_skip(s, p, i + 1, j);
    }
}

/// The video id is read back from a watch URL, when the id itself holds no
/// `v=`.
pub proof fn law_watch_url_round_trip(id: Seq<char>)
    requires
        !contains(id, seq!['v', '=']),
    ensures
        video_id_text(watch_url_text(id)) == id,
{
    reveal_strlit("https://www.youtube.com/watch?v=");
    let pre = "https://www.youtube.com/watch?v="@;
    let url = watch_url_text(id);
    let vp = seq!['v', '='];
    assert(pre.len() == 32);
    assert(url.subrange(30, 32) =~= vp);
    assert(occurs_at(url, vp, 30));
    assert forall|k: int| 0 <= k < 30 implies !occurs_at(url, vp, k) by {
        assert(url[k + 1] == pre[k + 1]);
        if occurs_at(url, vp, k) {
            assert(url.subrange(k, k + 2)[1] == '=');
        }
    }
    lemma_find_from_skip(url, vp, 0, 30);
    assert(url.skip(32) =~= id);
    lemma_find_from_sound(id, vp, 0);
}

/// A name split at its last dot joins back into the name, and the
/// extension holds no dot.
pub proof fn law_split_extension_rejoins(name: Seq<char>, i: int)
    requires
        last_index_of(name, '.') == Some(i),
    ensures
        name == name.subrange(0, i) + seq!['.'] + name.subrange(i + 1, name.len() as int),
        forall|k: int|
            0 <= k < name.len() - i - 1 ==> #[trigger] name.subrange(i + 1, name.len() as int)[k]
                != '.',
{
    lemma_last_index_of(name, '.');
    assert(name =~= name.subrange(0, i) + seq!['.'] + name.subrange(i + 1, name.len() as int));
}

/// Playing a YouTube result takes two steps: the first sends the player
/// nothing and asks the YouTube worker for the selected video's stream; the
/// stream URL that comes back is what the player is told to play, and the
/// status then names the selected video.
pub proof fn law_youtube_plays_the_resolved_stream(
    a: App,
    b: App,
    c: App,
    r1: Seq<Action>,
    r2: Seq<Action>,
    url: String,
)
    requires
        a.selected_video_index() is Some,
        b == App::after_play_youtube(a),
        App::play_youtube_actions(a, r1),
        App::took_youtube_result(b, c, YoutubeResult::StreamUrl(url), r2),
    ensures
        forall|k: int| 0 <= k < r1.len() ==> !(#[trigger] r1[k] is Player),
        r1.contains(
            Action::Youtube(
                YoutubeCommand::ResolveStream(
                    a.youtube.results@[a.selected_video_index()->0].video_id,
                ),
            ),
        ),
        r2 == seq![Action::Player(PlayerCommand::PlayUrl(url))],
        c.playback.player_status == PlayerStatus::NowPlaying(
            Some(a.youtube.results@[a.selected_video_index()->0].title),
        ),
        c.playback.current_track_name == a.youtube.results@[a.selected_video_index()->0].title,
        b.playback.display_status == DisplayStatus::Playing,
        !b.playback.is_paused,
        b.playback.is_youtube_playing,
        c.playback.display_status == DisplayStatus::Playing,
        !c.playback.is_paused,
{
    assert(r1[1] == Action::Youtube(
        YoutubeCommand::ResolveStream(a.youtube.results@[a.selected_video_index()->0].video_id),
    ));
}

/// Of pictures tried in order, the one found is the first that decodes;
/// none is found only when none decodes.
pub proof fn law_first_decodable_wins(a: Attempts, pictures: Seq<Seq<u8>>)
    requires
        decoded_in_order(a, pictures),
    ensures
        a.found matches Some(f) ==> {
            &&& f.0 < pictures.len()
            &&& decodes(pictures[f.0 as int])
            &&& forall|k: int| 0 <= k < f.0 ==> !decodes(#[trigger] pictures[k])
        },
        a.found is None ==> forall|k: int| 0 <= k < pictures.len() ==> !decodes(#[trigger] pictures[k]),
{
    if a.found is Some {
        let f = a.found->Some_0;
        assert(a.outcomes@[f.0 as int]);
        assert forall|k: int| 0 <= k < f.0 implies !decodes(#[trigger] pictures[k]) by {
            assert(!a.outcomes@[k]);
        }
    } else {
        assert forall|k: int| 0 <= k < pictures.len() implies !decodes(#[trigger] pictures[k]) by {
            assert(!a.outcomes@[k]);
        }
    }
}

/// While a search has not answered, its `k`-th step looked at the `k`-th
/// place and found nothing there.
proof fn lemma_search_prefix(
    states: Seq<CoverSearch>,
    hits: Seq<bool>,
    answers: Seq<Option<ImageResult>>,
    m: int,
)
    requires
        states.len() == hits.len() + 1,
        answers.len() == hits.len(),
        0 <= m < states.len(),
        states[0].next == 0,
        forall|k: int|
            0 <= k < hits.len() ==> #[trigger] CoverSearch::stepped(
                states[k],
                states[k + 1],
                hits[k],
                answers[k],
            ),
        forall|k: int| 0 <= k < m ==> #[trigger] answers[k] is None,
    ensures
        states[m].next == m,
        states[m].sources == states[0].sources,
        forall|k: int| 0 <= k < m ==> !#[trigger] hits[k],
    decreases m,
{
    if m > 0 {
        lemma_search_prefix(states, hits, answers, m - 1);
        let j = m - 1;
        assert(CoverSearch::stepped(states[j], states[j + 1], hits[j], answers[j]));
        assert(j + 1 == m);
    }
}

/// A cover search answers with an image from the first place, in order,
/// that yields one, and answers that there is no cover only after no place
/// yielded one; it never answers with an error.
pub proof fn law_search_takes_first_yield(
    states: Seq<CoverSearch>,
    hits: Seq<bool>,
    answers: Seq<Option<ImageResult>>,
)
    requires
        hits.len() > 0,
        states.len() == hits.len() + 1,
        answers.len() == hits.len(),
        states[0].next == 0,
        forall|k: int|
            0 <= k < hits.len() ==> #[trigger] CoverSearch::stepped(
                states[k],
                states[k + 1],
                hits[k],
                answers[k],
            ),
        forall|k: int| 0 <= k < hits.len() - 1 ==> #[trigger] answers[k] is None,
        answers.last() is Some,
    ensures
        answers.last() matches Some(ImageResult::Loaded(_)) ==> {
            &&& hits.last()
            &&& states.last().next == hits.len() - 1
            &&& forall|k: int| 0 <= k < hits.len() - 1 ==> !#[trigger] hits[k]
        },
        answers.last() matches Some(ImageResult::NotFound) ==> {
            &&& hits.len() == states[0].sources@.len()
            &&& forall|k: int| 0 <= k < hits.len() ==> !#[trigger] hits[k]
        },
        !(answers.last() matches Some(ImageResult::Error(_))),
{
    let m = hits.len() - 1;
    lemma_search_prefix(states, hits, answers, m);
    assert(CoverSearch::stepped(states[m], states[m + 1], hits[m], answers[m]));
    assert(answers.last() == answers[m]);
    assert(states.last() == states[m + 1]);
    assert(hits.last() == hits[m]);
}

/// A stop or an error reported by the player stops the panel, whatever it
/// showed before: nothing plays, nothing is paused, the position and the
/// length are cleared, and the report is what the status line shows.
pub proof fn law_stop_or_error_report_stops_panel(
    a: App,
    b: App,
    status: PlayerStatus,
    r: Seq<Action>,
)
    requires
        status is Stopped || status is Error,
        App::status_applied(a, b, status, r),
    ensures
        b.playback.display_status == DisplayStatus::Stopped,
        !b.playback.is_paused,
        !b.playback.is_youtube_playing,
        b.playback.current_position_ms == 0,
        b.playback.current_duration_ms is None,
        b.playback.player_status == status,
        r.len() == 0,
{
}

/// A report that a track plays puts the panel in the playing state, and a
/// report of a pause in the paused state, whatever it showed before.
pub proof fn law_play_and_pause_reports_set_panel(
    a: App,
    b: App,
    status: PlayerStatus,
    r: Seq<Action>,
)
    requires
        App::status_applied(a, b, status, r),
    ensures
        status is NowPlaying ==> b.playback.display_status == DisplayStatus::Playing
            && !b.playback.is_paused,
        status matches PlayerStatus::NowPlaying(Some(n)) ==> b.playback.current_track_name == n,
        status is Paused ==> b.playback.display_status == DisplayStatus::Paused
            && b.playback.is_paused,
{
}

/// New search results replace the list, and a list that is not empty has
/// its first row selected, whatever was selected before.
pub proof fn law_search_results_select_first_row(
    a: App,
    b: App,
    videos: Vec<crate::youtube::YoutubeVideo>,
    r: Seq<Action>,
)
    requires
        App::took_youtube_result(a, b, YoutubeResult::SearchResults(videos), r),
    ensures
        b.youtube.results == videos,
        videos@.len() > 0 ==> b.youtube.selected == Some(0usize),
        videos@.len() > 0 ==> b.selected_video_index() == Some(0int),
        r.len() == 0,
{
}

/// The keys of normal mode and what they ask for.
pub proof fn law_normal_mode_keys()
    ensures
        key_command_spec(InputMode::Normal, Key::Char('q')) == UserCommand::Quit,
        key_command_spec(InputMode::Normal, Key::Char('i')) == UserCommand::StartTyping,
        key_command_spec(InputMode::Normal, Key::Char(' ')) == UserCommand::TogglePause,
        key_command_spec(InputMode::Normal, Key::Char('s')) == UserCommand::Stop,
        key_command_spec(InputMode::Normal, Key::Char('a')) == UserCommand::AddToPlaylist,
        key_command_spec(InputMode::Normal, Key::Char('d')) == UserCommand::RemoveFromPlaylist,
        key_command_spec(InputMode::Normal, Key::Char('p')) == UserCommand::PlayPlaylist,
        key_command_spec(InputMode::Normal, Key::Char('+')) == UserCommand::VolumeUp,
        key_command_spec(InputMode::Normal, Key::Char('-')) == UserCommand::VolumeDown,
        key_command_spec(InputMode::Normal, Key::Char('j')) == UserCommand::PlaylistDown,
        key_command_spec(InputMode::Normal, Key::Char('k')) == UserCommand::PlaylistUp,
        key_command_spec(InputMode::Normal, Key::Tab) == UserCommand::ToggleSearchMode,
        key_command_spec(InputMode::Normal, Key::Enter) == UserCommand::Enter,
        key_command_spec(InputMode::Normal, Key::Down) == UserCommand::NavigateDown,
        key_command_spec(InputMode::Normal, Key::Up) == UserCommand::NavigateUp,
        key_command_spec(InputMode::Normal, Key::Esc) == UserCommand::StopTyping,
        key_command_spec(InputMode::Normal, Key::Backspace) == UserCommand::Nothing,
        key_command_spec(InputMode::Normal, Key::Other) == UserCommand::Nothing,
{
}

/// In normal mode, '+' then '-' gives the volume back, and so does '-'
/// then '+', unless the first key was clipped at a limit.
pub proof fn law_volume_keys_undo_each_other(
    a: App,
    b: App,
    c: App,
    r1: Seq<Action>,
    r2: Seq<Action>,
    up_first: bool,
)
    requires
        a.wf(),
        App::performed(
            a,
            b,
            key_command_spec(InputMode::Normal, Key::Char(if up_first { '+' } else { '-' })),
            r1,
        ),
        App::performed(
            b,
            c,
            key_command_spec(InputMode::Normal, Key::Char(if up_first { '-' } else { '+' })),
            r2,
        ),
        up_first ==> a.playback.volume <= 95,
        !up_first ==> a.playback.volume >= 5,
    ensures
        c.playback.volume == a.playback.volume,
        up_first ==> b.playback.volume == a.playback.volume + 5,
        !up_first ==> b.playback.volume + 5 == a.playback.volume,
{
}

/// Typing a character shows it at the end of the search bar's text (before
/// the cursor while typing), in either search mode.
pub proof fn law_typing_shows_in_search_bar(a: App, b: App, c: char)
    requires
        App::typed(a, b, c),
    ensures
        a.input_mode == InputMode::Normal ==> search_text_spec(b) == search_text_spec(a).push(c),
        a.input_mode == InputMode::Typing ==> search_text_spec(b) == search_text_spec(
            a,
        ).drop_last().push(c).push(search_text_spec(a).last()),
{
    if a.search_mode == SearchMode::Local {
        assert(b.local.search_query@ == a.local.search_query@.push(c));
    }
    if a.input_mode == InputMode::Normal {
        assert(search_text_spec(b) =~= search_text_spec(a).push(c));
    } else {
        assert(search_text_spec(b) =~= search_text_spec(a).drop_last().push(c).push(
            search_text_spec(a).last(),
        ));
    }
}

/// In YouTube mode the search bar shows the YouTube query: two states that
/// differ only in the local query show the same text, and the text changes
/// with the YouTube query.
pub proof fn law_youtube_search_bar_shows_youtube_query(a: App, b: App)
    requires
        a.search_mode == SearchMode::Youtube,
        b == (App {
            local: crate::library::LocalLibrary { search_query: b.local.search_query, ..a.local },
            ..a
        }),
    ensures
        search_text_spec(b) == search_text_spec(a),
        search_text_spec(a).len() >= 2 + a.youtube.query@.len(),
        search_text_spec(a).subrange(2, 2 + a.youtube.query@.len() as int) == a.youtube.query@,
{
    reveal_strlit("  ");
    assert(b.youtube == a.youtube && b.search_mode == a.search_mode && b.input_mode
        == a.input_mode);
    assert(search_text_spec(a).subrange(2, 2 + a.youtube.query@.len() as int) =~= a.youtube.query@);
}

} // verus!
