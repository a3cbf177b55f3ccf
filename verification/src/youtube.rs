//! YouTube search results and the URLs built from them.

use vstd::prelude::*;
use crate::text::{
    chars_of, concat, decimal, decimal2, find_chars_from, find_from, push_decimal, push_decimal2,
    string_from_chars,
};

verus! {

/// One video of a YouTube search result.
#[derive(Debug)]
pub struct YoutubeVideo {
    pub video_id: String,
    pub title: String,
    pub channel: String,
    pub duration_secs: u64,
}

/// `m:ss`: whole minutes, a colon, and the remaining seconds on two digits.
pub open spec fn duration_text(secs: nat) -> Seq<char> {
    decimal(secs / 60) + seq![':'] + decimal2(secs % 60)
}

impl YoutubeVideo {
    /// The video's length as `m:ss` (for example `3:05`).
    pub fn duration_str(&self) -> (r: String)
        ensures
            r@ == duration_text(self.duration_secs as nat),
    {
        let mins = self.duration_secs / 60;
        let secs = self.duration_secs % 60;
        let mut out: Vec<char> = Vec::new();
        push_decimal(&mut out, mins);
        out.push(':');
        push_decimal2(&mut out, secs);
        assert(out@ =~= duration_text(self.duration_secs as nat));
        string_from_chars(out.as_slice())
    }

    /// The video built from the fields of a search item: a missing channel
    /// becomes the empty name and a missing duration (a livestream) becomes 0.
    pub fn from_search_item(
        id: String,
        name: String,
        channel: Option<String>,
        duration: Option<u32>,
    ) -> (r: YoutubeVideo)
        ensures
            r.video_id == id,
            r.title == name,
            r.channel@ == (match channel {
                Some(c) => c@,
                None => Seq::<char>::empty(),
            }),
            r.duration_secs == (match duration {
                Some(d) => d as u64,
                None => 0u64,
            }),
    {
        let channel = match channel {
            Some(c) => c,
            None => String::new(),
        };
        let duration_secs: u64 = match duration {
            Some(d) => d as u64,
            None => 0,
        };
        YoutubeVideo { video_id: id, title: name, channel, duration_secs }
    }
}

/// A request to the YouTube worker.
pub enum YoutubeCommand {
    Search(String),
    /// Find a playable audio stream URL for the video with this id; the
    /// answer is a `YoutubeResult::StreamUrl`.
    ResolveStream(String),
}

/// An answer of the YouTube worker.
pub enum YoutubeResult {
    SearchResults(Vec<YoutubeVideo>),
    /// A ready-to-play URL, handed straight to the player.
    StreamUrl(String),
    Error(String),
}

/// The error reported when the YouTube client cannot be set up.
pub fn init_failed(detail: &str) -> (r: YoutubeResult)
    ensures
        r matches YoutubeResult::Error(e) && e@ == "RustyPipe init: "@ + detail@,
{
    YoutubeResult::Error(concat("RustyPipe init: ", detail))
}

/// The error reported when no stream URL can be had for a video.
pub fn stream_failed(detail: &str) -> (r: YoutubeResult)
    ensures
        r matches YoutubeResult::Error(e) && e@ == "Stream Error: "@ + detail@,
{
    YoutubeResult::Error(concat("Stream Error: ", detail))
}

/// The error reported when a search fails.
pub fn search_failed(detail: &str) -> (r: YoutubeResult)
    ensures
        r matches YoutubeResult::Error(e) && e@ == "Search Error: "@ + detail@,
{
    YoutubeResult::Error(concat("Search Error: ", detail))
}

/// The watch page of a video.
pub open spec fn watch_url_text(video_id: Seq<char>) -> Seq<char> {
    "https://www.youtube.com/watch?v="@ + video_id
}

/// The watch page URL of the video with the given id.
pub fn watch_url(video_id: &str) -> (r: String)
    ensures
        r@ == watch_url_text(video_id@),
{
    concat("https://www.youtube.com/watch?v=", video_id)
}

/// The text between the first and the second `v=` of `url` (to its end when
/// there is no second one), or the empty text when `url` holds no `v=`: what
/// `url.split("v=").nth(1).unwrap_or("")` gives.
pub open spec fn video_id_text(url: Seq<char>) -> Seq<char> {
    let pat = seq!['v', '='];
    match find_from(url, pat, 0) {
        None => Seq::<char>::empty(),
        Some(i) => {
            let rest = url.skip(i + 2);
            match find_from(rest, pat, 0) {
                None => rest,
                Some(j) => rest.take(j),
            }
        },
    }
}

/// The video id carried by a watch URL (the query value after `v=`).
pub fn video_id_of_url(url: &str) -> (r: String)
    ensures
        r@ == video_id_text(url@),
{
    let s = chars_of(url);
    let pat: Vec<char> = vec!['v', '='];
    assert(pat@ =~= seq!['v', '=']);
    match find_chars_from(s.as_slice(), pat.as_slice(), 0) {
        None => String::new(),
        Some(i) => {
            let mut rest: Vec<char> = Vec::new();
            let n = s.len();
            let mut k: usize = i + 2;
            while k < n
                invariant
                    n == s@.len(),
                    i + 2 <= n,
                    i + 2 <= k <= n,
                    rest@ == s@.subrange(i + 2, k as int),
                decreases n - k,
            {
                rest.push(s[k]);
                k = k + 1;
                assert(rest@ =~= s@.subrange(i + 2, k as int));
            }
            assert(rest@ =~= s@.skip(i + 2));
            match find_chars_from(rest.as_slice(), pat.as_slice(), 0) {
                None => string_from_chars(rest.as_slice()),
                Some(j) => {
                    let mut head: Vec<char> = Vec::new();
                    let mut t: usize = 0;
                    while t < j
                        invariant
                            j <= rest@.len(),
                            t <= j,
                            head@ == rest@.subrange(0, t as int),
                        decreases j - t,
                    {
                        head.push(rest[t]);
                        t = t + 1;
                        assert(head@ =~= rest@.subrange(0, t as int));
                    }
                    assert(head@ =~= rest@.take(j as int));
                    string_from_chars(head.as_slice())
                },
            }
        },
    }
}

} // verus!
