//! The text the screen shows, computed from the interface state. Drawing it
//! (layout, colours, the terminal) is the program's own.

use vstd::prelude::*;
use crate::app::{App, DisplayStatus, InputMode, SearchMode, YoutubeStatus};
use crate::library::LocalLibrary;
use crate::text::{
    concat, decimal, decimal2, last_index_of, push_decimal, push_decimal2, push_str,
    string_from_chars,
};
use crate::youtube::{duration_text, YoutubeVideo};

verus! {

/// The colour in which the player panel shows the track.
#[derive(PartialEq, Eq, Structural, Clone, Copy, Debug)]
pub enum Tone {
    Green,
    Yellow,
    DarkGray,
    Red,
}

/// `n` copies of `c`.
pub open spec fn repeat(c: char, n: nat) -> Seq<char> {
    Seq::new(n, |_i: int| c)
}

/// Appends `n` copies of `c`.
pub fn push_repeat(out: &mut Vec<char>, c: char, n: usize)
    ensures
        final(out)@ == old(out)@ + repeat(c, n as nat),
{
    let ghost start = out@;
    let mut i: usize = 0;
    while i < n
        invariant
            i <= n,
            out@ == start + repeat(c, i as nat),
        decreases n - i,
    {
        out.push(c);
        i = i + 1;
        assert(out@ =~= start + repeat(c, i as nat));
    }
}

/// The title bar's mode indicator.
pub fn mode_label(mode: SearchMode) -> (r: &'static str)
    ensures
        mode == SearchMode::Local ==> r@ == "[ Local ]  YouTube   Tab to switch"@,
        mode == SearchMode::Youtube ==> r@ == "  Local  [ YouTube ]   Tab to switch"@,
{
    match mode {
        SearchMode::Local => "[ Local ]  YouTube   Tab to switch",
        SearchMode::Youtube => "  Local  [ YouTube ]   Tab to switch",
    }
}

/// The search bar's title in the given mode.
pub fn search_label(mode: SearchMode) -> (r: &'static str)
    ensures
        mode == SearchMode::Local ==> r@ == " Search local  [i] to type, [Esc] to stop typing "@,
        mode == SearchMode::Youtube ==> r@
            == " Search YouTube  [i] to type, [Enter] to search, [Esc] to stop "@,
{
    match mode {
        SearchMode::Local => " Search local  [i] to type, [Esc] to stop typing ",
        SearchMode::Youtube => " Search YouTube  [i] to type, [Enter] to search, [Esc] to stop ",
    }
}

/// The search bar's content: the query of the current mode, indented, with
/// a cursor block while typing.
pub open spec fn search_text_spec(app: App) -> Seq<char> {
    let query = match app.search_mode {
        SearchMode::Local => app.local.search_query@,
        SearchMode::Youtube => app.youtube.query@,
    };
    "  "@ + query + if app.input_mode == InputMode::Typing {
        seq!['\u{258b}']
    } else {
        Seq::<char>::empty()
    }
}

/// The search bar's content.
pub fn search_text(app: &App) -> (r: String)
    ensures
        r@ == search_text_spec(*app),
{
    let mut out: Vec<char> = Vec::new();
    push_str(&mut out, "  ");
    match app.search_mode {
        SearchMode::Local => push_str(&mut out, app.local.search_query.as_str()),
        SearchMode::Youtube => push_str(&mut out, app.youtube.query.as_str()),
    }
    if app.input_mode == InputMode::Typing {
        out.push('\u{258b}');
    }
    assert(out@ =~= search_text_spec(*app));
    string_from_chars(out.as_slice())
}

/// The title of the local result list: how many files match, and how many
/// were found (or that the scan goes on).
pub open spec fn local_title_spec(filtered: nat, total: nat, scanning: bool) -> Seq<char> {
    if scanning {
        " Results ("@ + decimal(filtered) + " / scanning...) "@
    } else {
        " Results ("@ + decimal(filtered) + " / "@ + decimal(total) + ") "@
    }
}

/// The title of the local result list.
pub fn local_results_title(local: &LocalLibrary) -> (r: String)
    ensures
        r@ == local_title_spec(
            local.filtered_indices@.len(),
            local.music_files@.len(),
            local.is_scanning,
        ),
{
    let mut out: Vec<char> = Vec::new();
    push_str(&mut out, " Results (");
    push_decimal(&mut out, local.filtered_indices.len() as u64);
    if local.is_scanning {
        push_str(&mut out, " / scanning...) ");
    } else {
        push_str(&mut out, " / ");
        push_decimal(&mut out, local.music_files.len() as u64);
        push_str(&mut out, ") ");
    }
    assert(out@ =~= local_title_spec(
        local.filtered_indices@.len(),
        local.music_files@.len(),
        local.is_scanning,
    ));
    string_from_chars(out.as_slice())
}

/// The hint shown instead of an empty local result list.
pub fn local_empty_message(local: &LocalLibrary) -> (r: &'static str)
    ensures
        local.music_files@.len() == 0 ==> r@ == "  No music files found. Check your music directory."@,
        local.music_files@.len() > 0 ==> r@ == "  No results match your search."@,
{
    if local.music_files.len() == 0 {
        "  No music files found. Check your music directory."
    } else {
        "  No results match your search."
    }
}

/// The title of the YouTube result list.
pub open spec fn youtube_title_spec(status: YoutubeStatus, results: nat) -> Seq<char> {
    match status {
        YoutubeStatus::Idle => " YouTube - press [i] to type, [Enter] to search "@,
        YoutubeStatus::Searching => " YouTube - searching..."@,
        YoutubeStatus::Done => " Youtube - "@ + decimal(results) + " results "@,
        YoutubeStatus::Error(e) => " YouTube - error: "@ + e@,
    }
}

/// The title of the YouTube result list.
pub fn youtube_results_title(status: &YoutubeStatus, results: usize) -> (r: String)
    ensures
        r@ == youtube_title_spec(*status, results as nat),
{
    match status {
        YoutubeStatus::Idle => String::from_str(" YouTube - press [i] to type, [Enter] to search "),
        YoutubeStatus::Searching => String::from_str(" YouTube - searching..."),
        YoutubeStatus::Done => {
            let mut out: Vec<char> = Vec::new();
            push_str(&mut out, " Youtube - ");
            push_decimal(&mut out, results as u64);
            push_str(&mut out, " results ");
            assert(out@ =~= youtube_title_spec(*status, results as nat));
            string_from_chars(out.as_slice())
        },
        YoutubeStatus::Error(e) => concat(" YouTube - error: ", e.as_str()),
    }
}

/// The hint shown instead of an empty YouTube result list.
pub fn youtube_empty_message(status: &YoutubeStatus) -> (r: &'static str)
    ensures
        *status is Idle ==> r@ == "  Press [i] to type your search, then [Enter]"@,
        *status is Searching ==> r@ == "  Searching..."@,
        *status is Done ==> r@ == "  No results found"@,
        *status is Error ==> r@ == "  Search failed - check your connection"@,
{
    match status {
        YoutubeStatus::Idle => "  Press [i] to type your search, then [Enter]",
        YoutubeStatus::Searching => "  Searching...",
        YoutubeStatus::Done => "  No results found",
        YoutubeStatus::Error(_) => "  Search failed - check your connection",
    }
}

/// The right-hand part of a YouTube result row: the channel and the length.
pub fn youtube_row_detail(v: &YoutubeVideo) -> (r: String)
    ensures
        r@ == v.channel@ + "  "@ + duration_text(v.duration_secs as nat),
{
    let mut r = concat(v.channel.as_str(), "  ");
    let d = v.duration_str();
    r.append(d.as_str());
    r
}

/// The player panel's title.
pub fn player_title(status: &DisplayStatus) -> (r: &'static str)
    ensures
        *status is Playing ==> r@ == " Now playing "@,
        *status is Paused ==> r@ == " Paused "@,
        *status is Stopped ==> r@ == " Player "@,
        *status is Finished ==> r@ == " Finished "@,
        *status is Error ==> r@ == " Error "@,
        *status is Idle ==> r@ == " Player "@,
{
    match status {
        DisplayStatus::Playing => " Now playing ",
        DisplayStatus::Paused => " Paused ",
        DisplayStatus::Stopped => " Player ",
        DisplayStatus::Finished => " Finished ",
        DisplayStatus::Error(_) => " Error ",
        DisplayStatus::Idle => " Player ",
    }
}

/// The colour of the player panel, and whether the visualiser and the
/// progress marker move: green and moving while playing, still otherwise.
pub fn player_tone(status: &DisplayStatus) -> (r: (Tone, bool))
    ensures
        r.1 == (*status is Playing),
        *status is Playing ==> r.0 == Tone::Green,
        *status is Paused ==> r.0 == Tone::Yellow,
        (*status is Stopped || *status is Finished || *status is Idle) ==> r.0 == Tone::DarkGray,
        *status is Error ==> r.0 == Tone::Red,
{
    match status {
        DisplayStatus::Playing => (Tone::Green, true),
        DisplayStatus::Paused => (Tone::Yellow, false),
        DisplayStatus::Stopped | DisplayStatus::Finished => (Tone::DarkGray, false),
        DisplayStatus::Error(_) => (Tone::Red, false),
        DisplayStatus::Idle => (Tone::DarkGray, false),
    }
}

/// The track name as the player panel shows it.
pub fn track_text(name: &str) -> (r: String)
    ensures
        r@ == " "@ + name@,
{
    concat(" ", name)
}

/// The volume bar: ten cells, one filled per full ten percent.
pub open spec fn volume_bar_spec(pct: nat) -> Seq<char> {
    let filled = pct * 10 / 100;
    seq!['['] + repeat('\u{2588}', filled) + repeat('\u{2591}', (10 - filled) as nat) + seq![']']
}

/// The volume bar for a volume in percent. Defined up to 109 percent (ten
/// filled cells).
pub fn build_volume_bar(pct: u8) -> (r: String)
    requires
        pct < 110,
    ensures
        r@ == volume_bar_spec(pct as nat),
{
    let filled: usize = (pct as usize * 10) / 100;
    let empty: usize = 10 - filled;
    let mut out: Vec<char> = Vec::new();
    out.push('[');
    push_repeat(&mut out, '\u{2588}', filled);
    push_repeat(&mut out, '\u{2591}', empty);
    out.push(']');
    assert(out@ =~= volume_bar_spec(pct as nat));
    string_from_chars(out.as_slice())
}

/// The volume as the player panel shows it: the bar and the percentage.
pub fn volume_text(pct: u8) -> (r: String)
    requires
        pct < 110,
    ensures
        r@ == "Vol: "@ + volume_bar_spec(pct as nat) + seq![' '] + decimal(pct as nat) + seq!['%'],
{
    let bar = build_volume_bar(pct);
    let mut out: Vec<char> = Vec::new();
    push_str(&mut out, "Vol: ");
    push_str(&mut out, bar.as_str());
    out.push(' ');
    push_decimal(&mut out, pct as u64);
    out.push('%');
    string_from_chars(out.as_slice())
}

/// `mm:ss`: minutes and seconds, each on at least two digits.
pub open spec fn clock_text(secs: nat) -> Seq<char> {
    decimal2(secs / 60) + seq![':'] + decimal2(secs % 60)
}

/// A number of whole seconds as `mm:ss` (minutes past 99 take more digits).
pub fn format_duration_secs(secs: u64) -> (r: String)
    ensures
        r@ == clock_text(secs as nat),
{
    let mut out: Vec<char> = Vec::new();
    push_decimal2(&mut out, secs / 60);
    out.push(':');
    push_decimal2(&mut out, secs % 60);
    assert(out@ =~= clock_text(secs as nat));
    string_from_chars(out.as_slice())
}

/// The progress line: the bar, and the elapsed and total times.
pub struct Progress {
    pub bar: String,
    pub elapsed: String,
    pub total: String,
}

/// The progress bar's width in a line of `width` cells (the times take
/// fourteen).
pub open spec fn bar_width(width: usize) -> nat {
    if width >= 14 {
        (width - 14) as nat
    } else {
        0
    }
}

/// The filled part of a bar of `w` cells after `e` of `t` milliseconds.
pub open spec fn filled_cells(e: nat, t: nat, w: nat) -> nat
    recommends
        t > 0,
{
    (if e <= t {
        e
    } else {
        t
    }) * w / t
}

/// The progress bar: filled in proportion to the elapsed time when the
/// length is known (at least a second); otherwise a dashed line with a dot
/// that moves one cell per second while playing.
pub open spec fn progress_bar_spec(elapsed_ms: nat, duration_ms: Option<u64>, w: nat, active: bool) -> Seq<
    char,
> {
    match duration_ms {
        Some(t) if t >= 1000 => {
            let filled = filled_cells(elapsed_ms, t as nat, w);
            repeat('\u{2588}', filled) + repeat('-', (w - filled) as nat)
        },
        _ => if w > 0 && active {
            repeat('-', w).update(((elapsed_ms / 1000) % w) as int, '\u{25cf}')
        } else {
            repeat('-', w)
        },
    }
}

/// The progress line for a position and an optional length (both in
/// milliseconds) in a line of `width` cells.
pub fn progress(elapsed_ms: u64, duration_ms: Option<u64>, width: usize, active: bool) -> (r:
    Progress)
    ensures
        r.bar@ == progress_bar_spec(elapsed_ms as nat, duration_ms, bar_width(width), active),
        r.elapsed@ == clock_text((elapsed_ms / 1000) as nat),
        r.total@ == match duration_ms {
            Some(t) => if t >= 1000 {
                clock_text((t / 1000) as nat)
            } else {
                "--:--"@
            },
            None => "--:--"@,
        },
{
    let w: usize = width.saturating_sub(14);
    let elapsed = format_duration_secs(elapsed_ms / 1000);
    match duration_ms {
        Some(t) if t >= 1000 => {
            let e: u64 = if elapsed_ms <= t {
                elapsed_ms
            } else {
                t
            };
            assert((e as u128) * (w as u128) <= u128::MAX) by (nonlinear_arith)
                requires
                    e <= u64::MAX,
                    w <= u64::MAX,
            ;
            let prod: u128 = (e as u128) * (w as u128);
            assert(prod <= (t as u128) * (w as u128)) by (nonlinear_arith)
                requires
                    prod == (e as u128) * (w as u128),
                    e <= t,
            ;
            assert((t as int) * (w as int) / (t as int) == w as int) by (nonlinear_arith)
                requires
                    t >= 1000,
            ;
            assert(prod as int / (t as int) <= (t as int) * (w as int) / (t as int))
                by (nonlinear_arith)
                requires
                    prod <= (t as int) * (w as int),
                    t >= 1000,
            ;
            let filled: usize = (prod / (t as u128)) as usize;
            let mut out: Vec<char> = Vec::new();
            push_repeat(&mut out, '\u{2588}', filled);
            push_repeat(&mut out, '-', w - filled);
            let total = format_duration_secs(t / 1000);
            Progress { bar: string_from_chars(out.as_slice()), elapsed, total }
        },
        _ => {
            let mut out: Vec<char> = Vec::new();
            push_repeat(&mut out, '-', w);
            if w > 0 && active {
                let pos: usize = ((elapsed_ms / 1000) % (w as u64)) as usize;
                out.set(pos, '\u{25cf}');
            }
            Progress { bar: string_from_chars(out.as_slice()), elapsed, total: String::from_str("--:--") }
        },
    }
}

/// Splits a file name at its last dot into the stem and the extension (the
/// extension is empty when there is no dot).
pub fn split_extension(name: &str) -> (r: (&str, &str))
    ensures
        match last_index_of(name@, '.') {
            Some(i) => r.0@ == name@.subrange(0, i) && r.1@ == name@.subrange(i + 1, name@.len() as int),
            None => r.0@ == name@ && r.1@ == Seq::<char>::empty(),
        },
{
    let cs = crate::text::chars_of(name);
    let n = cs.len();
    let mut k: usize = n;
    assert(name@.subrange(0, n as int) =~= name@);
    while k > 0
        invariant
            k <= n,
            n == name@.len(),
            cs@ == name@,
            last_index_of(name@, '.') == last_index_of(name@.subrange(0, k as int), '.'),
        decreases k,
    {
        if cs[k - 1] == '.' {
            let i = k - 1;
            assert(name@.subrange(0, k as int).last() == '.');
            return (name.substring_char(0, i), name.substring_char(i + 1, n));
        }
        assert(name@.subrange(0, k as int).drop_last() =~= name@.subrange(0, k - 1));
        k = k - 1;
    }
    assert(name@.subrange(0, n as int) =~= name@);
    (name, name.substring_char(n, n))
}

/// The key hints of the bottom line, each a key and what it does.
pub open spec fn key_hints_text(mode: InputMode) -> Seq<Seq<char>> {
    match mode {
        InputMode::Typing => seq![
            "[Esc]"@ + " stop typing "@,
            "[Enter]"@ + " Confirm "@,
            "[Backspace]"@ + " delete "@,
        ],
        InputMode::Normal => seq![
            "[i]"@ + " type  "@,
            "[Tab]"@ + " switch mode  "@,
            "[Enter]"@ + " play  "@,
            "[Space]"@ + " pause  "@,
            "[s]"@ + " stop  "@,
            "[↑↓]"@ + " navigate  "@,
            "[+/-]"@ + " volume  "@,
            "[q]"@ + " quit  "@,
        ],
    }
}

/// The key hints shown for the input mode, in order.
pub fn key_hints(mode: InputMode) -> (r: Vec<String>)
    ensures
        r@.map_values(|s: String| s@) == key_hints_text(mode),
{
    let mut r: Vec<String> = Vec::new();
    match mode {
        InputMode::Typing => {
            r.push(concat("[Esc]", " stop typing "));
            r.push(concat("[Enter]", " Confirm "));
            r.push(concat("[Backspace]", " delete "));
        },
        InputMode::Normal => {
            r.push(concat("[i]", " type  "));
            r.push(concat("[Tab]", " switch mode  "));
            r.push(concat("[Enter]", " play  "));
            r.push(concat("[Space]", " pause  "));
            r.push(concat("[s]", " stop  "));
            r.push(concat("[↑↓]", " navigate  "));
            r.push(concat("[+/-]", " volume  "));
            r.push(concat("[q]", " quit  "));
        },
    }
    assert(r@.map_values(|s: String| s@) =~= key_hints_text(mode));
    r
}

} // verus!
