//! Cover art: what the image worker is asked for, what it answers, where it
//! looks and in which order, and everything it does with the bytes it reads.
//! Fetching over the network, reading files and probing the container of an
//! audio file are the worker's own.

use vstd::prelude::*;
use crate::path::{extension_of, path_extension};
use crate::text::concat;

verus! {

/// Makes `image::DynamicImage`, a decoded image, usable in signatures; it
/// is carried through without being looked into.
#[verifier::external_type_specification]
#[verifier::external_body]
pub struct ExDynamicImage(image::DynamicImage);

/// A request to the image worker.
pub enum ImageCommand {
    /// Fetch the thumbnail of the YouTube video with this id.
    FetchYoutube(String),
    /// Find the cover art of the local audio file at this path (its bytes).
    FetchLocal(Vec<u8>),
    Clear,
}

/// An answer of the image worker.
pub enum ImageResult {
    Loaded(image::DynamicImage),
    NotFound,
    Error(String),
}

/// Whether the bytes decode as an image in the format that the image
/// crate's built-in signature table finds at their start.
pub uninterp spec fn decodes(bytes: Seq<u8>) -> bool;

/// Decodes an image from bytes, in the format their leading bytes show.
///
/// Trusted: calls `image::guess_format` (a fixed table of leading
/// signatures) and decodes with `image::load_from_memory_with_format` in the
/// format found; this is what `image::load_from_memory` does when no
/// format-detection hook is registered. Neither consults a hook, so whether
/// an image comes out depends on the bytes alone and is named `decodes`.
#[verifier::external_body]
pub fn decode_image(bytes: &[u8]) -> (r: Option<image::DynamicImage>)
    ensures
        r is Some == decodes(bytes@),
{
    let format = image::guess_format(bytes).ok()?;
    image::load_from_memory_with_format(bytes, format).ok()
}

/// The extensions (in lower case) that name an image format.
pub open spec fn image_extensions() -> Seq<Seq<char>> {
    seq![
        "avif"@, "jpg"@, "jpeg"@, "jfif"@, "png"@, "apng"@, "gif"@, "webp"@, "tif"@, "tiff"@,
        "tga"@, "dds"@, "bmp"@, "ico"@, "hdr"@, "exr"@, "pbm"@, "pam"@, "ppm"@, "pgm"@,
        "pnm"@, "ff"@, "qoi"@,
    ]
}

/// `e` is `word` (a lower-case word) up to the case of ASCII letters.
pub open spec fn ascii_case_eq(e: Seq<char>, word: Seq<char>) -> bool {
    &&& e.len() == word.len()
    &&& forall|i: int|
        0 <= i < e.len() ==> (#[trigger] e[i] == word[i] || ('a' <= word[i] <= 'z' && (e[i] as u32)
            + 32 == (word[i] as u32)))
}

/// The extension names an image format.
pub open spec fn is_image_extension(e: Seq<char>) -> bool {
    exists|k: int| 0 <= k < image_extensions().len() && ascii_case_eq(e, #[trigger] image_extensions()[k])
}

/// Whether the bytes decode as an image in the format that the extension
/// `ext` names.
pub uninterp spec fn decodes_as(bytes: Seq<u8>, ext: Seq<char>) -> bool;

/// Decodes an image from bytes in the format an extension names.
///
/// Trusted: looks the extension up with `image::ImageFormat::from_extension`
/// (a fixed table, ignoring the case of ASCII letters) and decodes with
/// `image::load_from_memory_with_format`, which consults no hook for a
/// format given this way; whether an image comes out depends on the bytes
/// and the extension alone and is named `decodes_as`.
#[verifier::external_body]
fn decode_image_as(bytes: &[u8], ext: &str) -> (r: Option<image::DynamicImage>)
    ensures
        r is Some == (is_image_extension(ext@) && decodes_as(bytes@, ext@)),
{
    let format = image::ImageFormat::from_extension(ext)?;
    image::load_from_memory_with_format(bytes, format).ok()
}

/// An image file's bytes decode in the format its name's extension names.
pub open spec fn named_decodes(bytes: Seq<u8>, name: Seq<char>) -> bool {
    match path_extension(name) {
        Some(e) => is_image_extension(e) && decodes_as(bytes, e),
        None => false,
    }
}

/// Decodes an image file's bytes in the format its name's extension names
/// (nothing when the extension names no image format).
pub fn decode_named_image(bytes: &[u8], name: &str) -> (r: Option<image::DynamicImage>)
    ensures
        r is Some == named_decodes(bytes@, name@),
{
    match extension_of(name) {
        Some(e) => decode_image_as(bytes, e.as_str()),
        None => None,
    }
}

/// The pictures of the ID3 tag found in a file's bytes, in tag order.
pub uninterp spec fn id3_pictures(bytes: Seq<u8>) -> Seq<Seq<u8>>;

/// The byte contents of a list of pictures.
pub open spec fn byte_views(pictures: Seq<Vec<u8>>) -> Seq<Seq<u8>> {
    pictures.map_values(|p: Vec<u8>| p@)
}

/// The data of the pictures in a file's ID3 tag (none without a tag).
///
/// Trusted: reads the tag with `id3::Tag::read_from2` over the bytes (which
/// also finds the tag chunk of AIFF and WAV files) and copies the data of
/// its picture frames; the result depends on the bytes alone and is named
/// `id3_pictures`.
#[verifier::external_body]
pub fn tag_pictures(bytes: &[u8]) -> (r: Vec<Vec<u8>>)
    ensures
        byte_views(r@) == id3_pictures(bytes@),
{
    match id3::Tag::read_from2(std::io::Cursor::new(bytes)) {
        Ok(tag) => tag.pictures().map(|p| p.data.clone()).collect(),
        Err(_) => Vec::new(),
    }
}

/// The outcome of trying pictures in order: whether each one tried decoded,
/// and the first image found with its position.
pub struct Attempts {
    pub outcomes: Vec<bool>,
    pub found: Option<(usize, image::DynamicImage)>,
}

/// The pictures are tried in order until one decodes: every attempt but a
/// successful last one failed, nothing is tried after a success, and all
/// `count` are tried when none succeeds.
pub open spec fn tried_in_order(a: Attempts, count: nat) -> bool {
    &&& a.outcomes@.len() <= count
    &&& match a.found {
        Some(f) => a.outcomes@.len() == f.0 + 1 && a.outcomes@.last(),
        None => a.outcomes@.len() == count,
    }
    &&& forall|k: int| 0 <= k < a.outcomes@.len() - 1 ==> !#[trigger] a.outcomes@[k]
    &&& (a.found is None ==> forall|k: int| 0 <= k < a.outcomes@.len() ==> !#[trigger] a.outcomes@[k])
}

/// The pictures were tried in order, each outcome being whether that
/// picture decodes.
pub open spec fn decoded_in_order(a: Attempts, pictures: Seq<Seq<u8>>) -> bool {
    &&& tried_in_order(a, pictures.len())
    &&& forall|k: int| 0 <= k < a.outcomes@.len() ==> #[trigger] a.outcomes@[k] == decodes(pictures[k])
}

/// The attempts that a list of decoding results gives, taken in order: each
/// outcome is whether that result is an image, and the first image is the
/// one found.
pub fn first_decoded(results: Vec<Option<image::DynamicImage>>) -> (r: Attempts)
    ensures
        tried_in_order(r, results@.len()),
        forall|k: int| 0 <= k < r.outcomes@.len() ==> #[trigger] r.outcomes@[k] == results@[k] is Some,
        r.found matches Some(f) ==> results@[f.0 as int] == Some(f.1),
{
    let n = results.len();
    let mut outcomes: Vec<bool> = Vec::new();
    let mut i: usize = 0;
    while i < n
        invariant
            n == results@.len(),
            i <= n,
            outcomes@.len() == i,
            forall|k: int| 0 <= k < i ==> !#[trigger] outcomes@[k] && results@[k] is None,
        decreases n - i,
    {
        if results[i].is_some() {
            outcomes.push(true);
            let mut results = results;
            let found = results.remove(i);
            return match found {
                Some(img) => Attempts { outcomes, found: Some((i, img)) },
                None => Attempts { outcomes, found: None },
            };
        }
        outcomes.push(false);
        i = i + 1;
    }
    Attempts { outcomes, found: None }
}

/// Tries the pictures in order and keeps the first that decodes.
pub fn first_decodable(pictures: &Vec<Vec<u8>>) -> (r: Attempts)
    ensures
        decoded_in_order(r, byte_views(pictures@)),
{
    let n = pictures.len();
    let ghost views = byte_views(pictures@);
    let mut results: Vec<Option<image::DynamicImage>> = Vec::new();
    let mut i: usize = 0;
    while i < n
        invariant
            n == pictures@.len(),
            views == byte_views(pictures@),
            i <= n,
            results@.len() == i,
            forall|k: int| 0 <= k < i ==> #[trigger] results@[k] is None && !decodes(views[k]),
        decreases n - i,
    {
        let d = decode_image(pictures[i].as_slice());
        let hit = d.is_some();
        results.push(d);
        if hit {
            let ghost rs = results@;
            let r = first_decoded(results);
            proof {
                if r.outcomes@.len() == i + 1 {
                    assert(r.outcomes@[i as int] == rs[i as int] is Some);
                }
                if r.found is Some {
                    let f = r.found->Some_0;
                    assert(rs[f.0 as int] is Some);
                }
            }
            return r;
        }
        i = i + 1;
    }
    first_decoded(results)
}

/// The pictures embedded in an audio file, in the order they are tried: the
/// ID3 tag's pictures, then the pictures of the container's metadata.
pub open spec fn embedded_pictures(bytes: Seq<u8>, container: Seq<Seq<u8>>) -> Seq<Seq<u8>> {
    id3_pictures(bytes) + container
}

/// The embedded cover of an audio file, given its bytes and the pictures
/// of its container's metadata (FLAC and Vorbis pictures): the first
/// picture, in the order of `embedded_pictures`, that decodes.
pub fn embedded_cover(bytes: &[u8], container: Vec<Vec<u8>>) -> (r: Attempts)
    ensures
        decoded_in_order(r, embedded_pictures(bytes@, byte_views(container@))),
{
    let mut pictures = tag_pictures(bytes);
    let mut container = container;
    let ghost rest = byte_views(container@);
    pictures.append(&mut container);
    assert(byte_views(pictures@) =~= embedded_pictures(bytes@, rest));
    first_decodable(&pictures)
}

/// The thumbnail URLs of a video, best quality first.
pub open spec fn thumbnail_urls_text(video_id: Seq<char>) -> Seq<Seq<char>> {
    seq![
        "https://img.youtube.com/vi/"@ + video_id + "/maxresdefault.jpg"@,
        "https://img.youtube.com/vi/"@ + video_id + "/hqdefault.jpg"@,
        "https://img.youtube.com/vi/"@ + video_id + "/mqdefault.jpg"@,
    ]
}

fn thumbnail_url(video_id: &str, file: &str) -> (r: String)
    ensures
        r@ == "https://img.youtube.com/vi/"@ + video_id@ + file@,
{
    let mut r = concat("https://img.youtube.com/vi/", video_id);
    r.append(file);
    r
}

/// The thumbnail URLs of a YouTube video, best quality first.
pub fn youtube_thumbnail_urls(video_id: &str) -> (r: Vec<String>)
    ensures
        r@.map_values(|s: String| s@) == thumbnail_urls_text(video_id@),
{
    let mut r: Vec<String> = Vec::new();
    r.push(thumbnail_url(video_id, "/maxresdefault.jpg"));
    r.push(thumbnail_url(video_id, "/hqdefault.jpg"));
    r.push(thumbnail_url(video_id, "/mqdefault.jpg"));
    assert(r@.map_values(|s: String| s@) =~= thumbnail_urls_text(video_id@));
    r
}

/// The file names looked for, in order, next to an audio file.
pub open spec fn folder_cover_names_text() -> Seq<Seq<char>> {
    seq![
        "cover.jpg"@,
        "cover.png"@,
        "folder.jpg"@,
        "folder.png"@,
        "album.jpg"@,
        "album.png"@,
        "front.png"@,
    ]
}

/// The file names looked for, in order, next to an audio file.
pub fn folder_cover_names() -> (r: Vec<&'static str>)
    ensures
        r@.map_values(|s: &str| s@) == folder_cover_names_text(),
{
    let r: Vec<&'static str> = vec![
        "cover.jpg",
        "cover.png",
        "folder.jpg",
        "folder.png",
        "album.jpg",
        "album.png",
        "front.png",
    ];
    assert(r@.map_values(|s: &str| s@) =~= folder_cover_names_text());
    r
}

/// A place a cover may come from.
pub enum CoverSource {
    /// The image at this URL.
    Url(String),
    /// The pictures embedded in the tags of the audio file at this path.
    EmbeddedIn(Vec<u8>),
    /// The image file of this name in the directory of the audio file at
    /// this path.
    BesideFile { audio_path: Vec<u8>, name: String },
}

/// The search for a cover: the places to look, in order, and the next one.
pub struct CoverSearch {
    pub sources: Vec<CoverSource>,
    pub next: usize,
}

/// The places looked in for a local file's cover: its own tags, then the
/// cover files beside it, in the order of `folder_cover_names`.
pub open spec fn local_sources_ok(sources: Seq<CoverSource>, path: Seq<u8>) -> bool {
    &&& sources.len() == folder_cover_names_text().len() + 1
    &&& sources[0] matches CoverSource::EmbeddedIn(p) && p@ == path
    &&& forall|k: int|
        1 <= k < sources.len() ==> (#[trigger] sources[k] matches CoverSource::BesideFile {
            audio_path,
            name,
        } && audio_path@ == path && name@ == folder_cover_names_text()[k - 1])
}

/// The places looked in for a video's thumbnail: its thumbnail URLs.
pub open spec fn youtube_sources_ok(sources: Seq<CoverSource>, video_id: Seq<char>) -> bool {
    &&& sources.len() == 3
    &&& forall|k: int|
        0 <= k < 3 ==> (#[trigger] sources[k] matches CoverSource::Url(u) && u@
            == thumbnail_urls_text(video_id)[k])
}

/// The work an image command asks for.
pub enum ImageJob {
    /// Answer at once.
    Reply(ImageResult),
    /// Look for a cover.
    Search(CoverSearch),
}

impl CoverSearch {
    /// The search for a video's thumbnail.
    pub fn for_youtube(video_id: &str) -> (r: CoverSearch)
        ensures
            r.next == 0,
            youtube_sources_ok(r.sources@, video_id@),
    {
        let urls = youtube_thumbnail_urls(video_id);
        assert(urls@.len() == urls@.map_values(|s: String| s@).len());
        let mut sources: Vec<CoverSource> = Vec::new();
        let mut i: usize = 0;
        while i < urls.len()
            invariant
                urls@.map_values(|s: String| s@) == thumbnail_urls_text(video_id@),
                i <= urls@.len(),
                sources@.len() == i,
                forall|k: int|
                    0 <= k < i ==> (#[trigger] sources@[k] matches CoverSource::Url(u) && u@
                        == thumbnail_urls_text(video_id@)[k]),
            decreases urls@.len() - i,
        {
            assert(urls@.map_values(|s: String| s@)[i as int] == urls@[i as int]@);
            sources.push(CoverSource::Url(urls[i].clone()));
            i = i + 1;
        }
        CoverSearch { sources, next: 0 }
    }

    /// The search for a local file's cover.
    pub fn for_local(path: Vec<u8>) -> (r: CoverSearch)
        ensures
            r.next == 0,
            local_sources_ok(r.sources@, path@),
    {
        let names = folder_cover_names();
        let mut sources: Vec<CoverSource> = Vec::new();
        sources.push(CoverSource::EmbeddedIn(path.clone()));
        let mut i: usize = 0;
        while i < names.len()
            invariant
                names@.map_values(|s: &str| s@) == folder_cover_names_text(),
                i <= names@.len(),
                sources@.len() == i + 1,
                sources@[0] matches CoverSource::EmbeddedIn(p) && p@ == path@,
                forall|k: int|
                    1 <= k < i + 1 ==> (#[trigger] sources@[k] matches CoverSource::BesideFile {
                        audio_path,
                        name,
                    } && audio_path@ == path@ && name@ == folder_cover_names_text()[k - 1]),
            decreases names@.len() - i,
        {
            assert(names@.map_values(|s: &str| s@)[i as int] == names@[i as int]@);
            sources.push(
                CoverSource::BesideFile {
                    audio_path: path.clone(),
                    name: String::from_str(names[i]),
                },
            );
            i = i + 1;
        }
        CoverSearch { sources, next: 0 }
    }

    /// The place to read next, if any is left.
    pub fn current(&self) -> (r: Option<&CoverSource>)
        ensures
            self.next < self.sources@.len() ==> r == Some(&self.sources@[self.next as int]),
            self.next >= self.sources@.len() ==> r is None,
    {
        if self.next < self.sources.len() {
            Some(&self.sources[self.next])
        } else {
            None
        }
    }

    /// The current place yields an image from what was read from it: its
    /// bytes decode (at a URL), one of the pictures embedded in them does
    /// (in an audio file, with `container` the pictures of its container's
    /// metadata), or they decode in the format of the file's name (beside
    /// the audio file).
    pub open spec fn yields(self, bytes: Seq<u8>, container: Seq<Seq<u8>>) -> bool {
        match self.sources@[self.next as int] {
            CoverSource::Url(_) => decodes(bytes),
            CoverSource::EmbeddedIn(_) => exists|k: int|
                0 <= k < embedded_pictures(bytes, container).len() && decodes(
                    #[trigger] embedded_pictures(bytes, container)[k],
                ),
            CoverSource::BesideFile { name, .. } => named_decodes(bytes, name@),
        }
    }

    /// The image that the current place yields from what was read from it,
    /// if any.
    pub fn decode_current(&self, bytes: &[u8], container: Vec<Vec<u8>>) -> (r: Option<
        image::DynamicImage,
    >)
        requires
            self.next < self.sources@.len(),
        ensures
            r is Some == self.yields(bytes@, byte_views(container@)),
    {
        match &self.sources[self.next] {
            CoverSource::Url(_) => decode_image(bytes),
            CoverSource::EmbeddedIn(_) => {
                let ghost pics = embedded_pictures(bytes@, byte_views(container@));
                let a = embedded_cover(bytes, container);
                match a.found {
                    Some((i, img)) => {
                        assert(a.outcomes@[i as int]);
                        assert(decodes(pics[i as int]));
                        Some(img)
                    },
                    None => {
                        assert forall|k: int| 0 <= k < pics.len() implies !decodes(
                            #[trigger] pics[k],
                        ) by {
                            assert(!a.outcomes@[k]);
                        }
                        None
                    },
                }
            },
            CoverSource::BesideFile { name, .. } => decode_named_image(bytes, name.as_str()),
        }
    }

    /// One step of the search: when the current place yields an image
    /// (`hit`) the answer is that image and the search stays there;
    /// otherwise it moves to the next place and answers only once no place
    /// is left, that there is no cover.
    pub open spec fn stepped(
        pre: CoverSearch,
        post: CoverSearch,
        hit: bool,
        r: Option<ImageResult>,
    ) -> bool {
        &&& post.sources == pre.sources
        &&& hit ==> (r matches Some(ImageResult::Loaded(_)) && post.next == pre.next)
        &&& !hit ==> post.next == pre.next + 1 && (if post.next == post.sources@.len() {
            r == Some(ImageResult::NotFound)
        } else {
            r is None
        })
    }

    /// Takes in the outcome at the current place: the image found there
    /// ends the search; without one the search moves to the next place,
    /// and answers that there is no cover once no place is left.
    pub fn take_decoded(&mut self, found: Option<image::DynamicImage>) -> (r: Option<ImageResult>)
        requires
            old(self).next < old(self).sources@.len(),
        ensures
            final(self).sources == old(self).sources,
            found matches Some(img) ==> (r == Some(ImageResult::Loaded(img)) && final(self).next
                == old(self).next),
            found is None ==> final(self).next == old(self).next + 1 && (if final(self).next
                == final(self).sources@.len() {
                r == Some(ImageResult::NotFound)
            } else {
                r is None
            }),
    {
        match found {
            Some(img) => Some(ImageResult::Loaded(img)),
            None => {
                let len = self.sources.len();
                self.next = self.next + 1;
                if self.next == len {
                    Some(ImageResult::NotFound)
                } else {
                    None
                }
            },
        }
    }

    /// Takes in what was read from the current place (`None` when it could
    /// not be read; `container` is what the container of an audio file
    /// holds, for an embedded cover, and is empty otherwise): answers with
    /// the cover if the place yields one, else moves to the next place, and
    /// answers that there is no cover once no place is left.
    pub fn take_bytes(&mut self, bytes: Option<Vec<u8>>, container: Vec<Vec<u8>>) -> (r: Option<
        ImageResult,
    >)
        requires
            old(self).next < old(self).sources@.len(),
        ensures
            CoverSearch::stepped(
                *old(self),
                *final(self),
                match bytes {
                    Some(b) => old(self).yields(b@, byte_views(container@)),
                    None => false,
                },
                r,
            ),
    {
        let found = match bytes {
            None => None,
            Some(b) => self.decode_current(b.as_slice(), container),
        };
        self.take_decoded(found)
    }
}

/// The work for an image command.
pub fn plan_image_command(cmd: ImageCommand) -> (r: ImageJob)
    ensures
        match cmd {
            ImageCommand::Clear => r matches ImageJob::Reply(ImageResult::NotFound),
            ImageCommand::FetchYoutube(id) => r matches ImageJob::Search(s) && s.next == 0
                && youtube_sources_ok(s.sources@, id@),
            ImageCommand::FetchLocal(path) => r matches ImageJob::Search(s) && s.next == 0
                && local_sources_ok(s.sources@, path@),
        },
{
    match cmd {
        ImageCommand::Clear => ImageJob::Reply(ImageResult::NotFound),
        ImageCommand::FetchYoutube(id) => ImageJob::Search(CoverSearch::for_youtube(id.as_str())),
        ImageCommand::FetchLocal(path) => ImageJob::Search(CoverSearch::for_local(path)),
    }
}

} // verus!
