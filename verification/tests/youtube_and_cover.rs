use id3::TagLike;
use termplay::audio::track_length_ms;
use termplay::cover::{
    decode_image, decode_named_image, embedded_cover, first_decodable, first_decoded,
    folder_cover_names,
    plan_image_command, tag_pictures, youtube_thumbnail_urls, CoverSearch, CoverSource,
    ImageCommand, ImageJob, ImageResult,
};
use termplay::text::text_of_bytes;
use termplay::youtube::{
    init_failed, search_failed, stream_failed, video_id_of_url, watch_url, YoutubeResult,
    YoutubeVideo,
};

fn png_bytes() -> Vec<u8> {
    let img = image::DynamicImage::new_rgb8(3, 2);
    let mut out = std::io::Cursor::new(Vec::new());
    img.write_to(&mut out, image::ImageFormat::Png).unwrap();
    out.into_inner()
}

#[test]
fn watch_urls_and_their_ids() {
    assert_eq!(watch_url("dQw4w9WgXcQ"), "https://www.youtube.com/watch?v=dQw4w9WgXcQ");
    assert_eq!(video_id_of_url(&watch_url("dQw4w9WgXcQ")), "dQw4w9WgXcQ");
    assert_eq!(video_id_of_url("https://x?v=abc&t=1"), "abc&t=1");
    assert_eq!(video_id_of_url("https://x?v=abc&v=def"), "abc&");
    assert_eq!(video_id_of_url("no id here"), "");
    assert_eq!(video_id_of_url("v="), "");
}

#[test]
fn search_items_become_videos() {
    let v = YoutubeVideo::from_search_item("id".to_string(), "T".to_string(), None, None);
    assert_eq!(v.channel, "");
    assert_eq!(v.duration_secs, 0);
    let v = YoutubeVideo::from_search_item(
        "id".to_string(),
        "T".to_string(),
        Some("C".to_string()),
        Some(4_000_000_000),
    );
    assert_eq!(v.channel, "C");
    assert_eq!(v.duration_secs, 4_000_000_000);
    assert_eq!(v.video_id, "id");
    assert_eq!(v.title, "T");
}

#[test]
fn thumbnail_urls_best_first() {
    assert_eq!(
        youtube_thumbnail_urls("ID"),
        vec![
            "https://img.youtube.com/vi/ID/maxresdefault.jpg".to_string(),
            "https://img.youtube.com/vi/ID/hqdefault.jpg".to_string(),
            "https://img.youtube.com/vi/ID/mqdefault.jpg".to_string(),
        ]
    );
    assert_eq!(
        folder_cover_names(),
        vec![
            "cover.jpg",
            "cover.png",
            "folder.jpg",
            "folder.png",
            "album.jpg",
            "album.png",
            "front.png"
        ]
    );
}

fn id3_tag_with(pictures: &[Vec<u8>]) -> Vec<u8> {
    let mut tag = id3::Tag::new();
    let kinds = [id3::frame::PictureType::CoverFront, id3::frame::PictureType::CoverBack];
    for (k, data) in pictures.iter().enumerate() {
        tag.add_frame(id3::frame::Picture {
            mime_type: "image/png".to_string(),
            picture_type: kinds[k],
            description: format!("p{k}"),
            data: data.clone(),
        });
    }
    let mut out = Vec::new();
    tag.write_to(&mut out, id3::Version::Id3v24).unwrap();
    out
}

fn source_text(s: &CoverSource) -> String {
    match s {
        CoverSource::Url(u) => format!("url {u}"),
        CoverSource::EmbeddedIn(p) => format!("tags of {}", String::from_utf8_lossy(p)),
        CoverSource::BesideFile { audio_path, name } => {
            format!("{name} beside {}", String::from_utf8_lossy(audio_path))
        }
    }
}

#[test]
fn image_commands_become_jobs() {
    assert!(matches!(plan_image_command(ImageCommand::Clear), ImageJob::Reply(ImageResult::NotFound)));
    match plan_image_command(ImageCommand::FetchYoutube("k".to_string())) {
        ImageJob::Search(s) => {
            assert_eq!(s.next, 0);
            let texts: Vec<String> = s.sources.iter().map(source_text).collect();
            assert_eq!(
                texts,
                vec![
                    "url https://img.youtube.com/vi/k/maxresdefault.jpg",
                    "url https://img.youtube.com/vi/k/hqdefault.jpg",
                    "url https://img.youtube.com/vi/k/mqdefault.jpg",
                ]
            );
        }
        _ => panic!(),
    }
    match plan_image_command(ImageCommand::FetchLocal(b"/m/a.mp3".to_vec())) {
        ImageJob::Search(s) => {
            let texts: Vec<String> = s.sources.iter().map(source_text).collect();
            assert_eq!(texts.len(), 8);
            assert_eq!(texts[0], "tags of /m/a.mp3");
            assert_eq!(texts[1], "cover.jpg beside /m/a.mp3");
            assert_eq!(texts[3], "folder.jpg beside /m/a.mp3");
            assert_eq!(texts[5], "album.jpg beside /m/a.mp3");
            assert_eq!(texts[7], "front.png beside /m/a.mp3");
        }
        _ => panic!(),
    }
}

#[test]
fn cover_search_moves_on_until_a_place_yields_an_image() {
    let mut s = CoverSearch::for_local(b"/m/a.mp3".to_vec());
    // No tags could be read, then cover.jpg is missing.
    assert!(s.take_bytes(None, Vec::new()).is_none());
    assert_eq!(s.next, 1);
    assert!(s.take_bytes(None, Vec::new()).is_none());
    // cover.png holds no image.
    assert!(s.take_bytes(Some(vec![1, 2, 3]), Vec::new()).is_none());
    assert_eq!(s.next, 3);
    // folder.jpg holds PNG bytes under a JPEG name: the JPEG decoder refuses them.
    assert!(s.take_bytes(Some(png_bytes()), Vec::new()).is_none());
    assert_eq!(s.next, 4);
    // folder.png decodes.
    match s.take_bytes(Some(png_bytes()), Vec::new()) {
        Some(ImageResult::Loaded(img)) => assert_eq!(img.width(), 3),
        _ => panic!("expected an image"),
    }
    assert_eq!(s.next, 4);
    assert!(matches!(s.current(), Some(CoverSource::BesideFile { .. })));
}

#[test]
fn cover_search_ends_with_not_found() {
    let mut s = CoverSearch::for_youtube("k");
    assert!(s.take_bytes(Some(vec![0u8; 4]), Vec::new()).is_none());
    assert!(s.take_bytes(None, Vec::new()).is_none());
    assert!(matches!(s.take_bytes(None, Vec::new()), Some(ImageResult::NotFound)));
    assert_eq!(s.next, 3);
    assert!(s.current().is_none());
}

#[test]
fn named_images_decode_in_the_format_of_their_name() {
    assert_eq!(decode_named_image(&png_bytes(), "cover.png").unwrap().height(), 2);
    assert_eq!(decode_named_image(&png_bytes(), "/d/COVER.PnG").unwrap().width(), 3);
    assert!(decode_named_image(&png_bytes(), "cover.txt").is_none());
    assert!(decode_named_image(&png_bytes(), "cover.jpg").is_none());
    assert!(decode_named_image(&png_bytes(), "cover").is_none());
    assert!(decode_named_image(&[1, 2], "cover.png").is_none());
}

#[test]
fn tag_pictures_reads_the_id3_pictures_in_order() {
    assert!(tag_pictures(&[1, 2, 3]).is_empty());
    assert!(tag_pictures(&[]).is_empty());
    let tagged = id3_tag_with(&[vec![7u8, 8], png_bytes()]);
    let pics = tag_pictures(&tagged);
    assert_eq!(pics.len(), 2);
    assert!(pics.contains(&vec![7u8, 8]));
    assert!(pics.contains(&png_bytes()));
}

#[test]
fn embedded_cover_takes_the_first_tag_picture_that_decodes() {
    let tagged = id3_tag_with(&[vec![7u8, 8], png_bytes()]);
    let found = embedded_cover(&tagged, Vec::new());
    let (i, img) = found.found.unwrap();
    assert_eq!(found.outcomes.len(), i + 1);
    assert_eq!(img.width(), 3);
    let none = embedded_cover(&[0u8; 16], vec![vec![1u8], vec![2u8]]);
    assert_eq!(none.outcomes, vec![false, false]);
    assert!(none.found.is_none());
    assert!(none.outcomes.iter().all(|o| !o));
}

#[test]
fn decoding_images() {
    assert!(decode_image(&[1, 2, 3]).is_none());
    assert!(decode_image(&[]).is_none());
    let img = decode_image(&png_bytes()).unwrap();
    assert_eq!((img.width(), img.height()), (3, 2));
}

#[test]
fn embedded_cover_is_the_first_picture_that_decodes() {
    let pics = vec![vec![0u8, 1, 2], png_bytes(), png_bytes()];
    let a = first_decodable(&pics);
    assert_eq!(a.outcomes, vec![false, true]);
    let (i, img) = a.found.unwrap();
    assert_eq!(i, 1);
    assert_eq!(img.width(), 3);
    let a = first_decodable(&vec![vec![9u8; 10]]);
    assert_eq!(a.outcomes, vec![false]);
    assert!(a.found.is_none());
    let a = first_decodable(&Vec::new());
    assert!(a.outcomes.is_empty());
    assert!(a.found.is_none());
}

#[test]
fn track_lengths_in_milliseconds() {
    assert_eq!(track_length_ms(None), None);
    assert_eq!(track_length_ms(Some((1, 44_100, 441_000))), Some(10_000));
    assert_eq!(track_length_ms(Some((1, 48_000, 47_999))), Some(999));
    assert_eq!(track_length_ms(Some((1152, 44_100, 100))), Some(2612));
    assert_eq!(track_length_ms(Some((u32::MAX, 1, u64::MAX))), Some(u64::MAX));
    assert_eq!(track_length_ms(Some((0, 44_100, 10))), None);
    assert_eq!(track_length_ms(Some((1, 0, 10))), None);
}

#[test]
fn lossy_text_of_bytes() {
    assert_eq!(text_of_bytes(b"/m/a.mp3"), "/m/a.mp3");
    assert_eq!(text_of_bytes(b"caf\xe9"), "caf\u{fffd}");
    assert_eq!(text_of_bytes(&[]), "");
}

#[test]
fn youtube_error_texts() {
    match init_failed("no network") {
        YoutubeResult::Error(e) => assert_eq!(e, "RustyPipe init: no network"),
        _ => panic!(),
    }
    match search_failed("429") {
        YoutubeResult::Error(e) => assert_eq!(e, "Search Error: 429"),
        _ => panic!(),
    }
    match stream_failed("no audio stream") {
        YoutubeResult::Error(e) => assert_eq!(e, "Stream Error: no audio stream"),
        _ => panic!(),
    }
}

#[test]
fn first_decoded_takes_the_first_image() {
    let img = decode_image(&png_bytes()).unwrap();
    let a = first_decoded(vec![None, None, Some(img.clone()), Some(img)]);
    assert_eq!(a.outcomes, vec![false, false, true]);
    assert_eq!(a.found.map(|f| f.0), Some(2));
    let a = first_decoded(vec![None, None]);
    assert_eq!(a.outcomes, vec![false, false]);
    assert!(a.found.is_none());
}

#[test]
fn embedded_cover_falls_back_to_container_pictures() {
    let found = embedded_cover(&[0u8; 16], vec![vec![5u8, 5], png_bytes()]);
    assert_eq!(found.outcomes, vec![false, true]);
    assert_eq!(found.found.map(|f| f.0), Some(1));
    // The ID3 pictures come first.
    let tagged = id3_tag_with(&[png_bytes()]);
    let found = embedded_cover(&tagged, vec![png_bytes()]);
    assert_eq!(found.outcomes, vec![true]);
}

#[test]
fn cover_search_decodes_the_embedded_pictures() {
    let mut s = CoverSearch::for_local(b"/m/a.flac".to_vec());
    match s.take_bytes(Some(vec![0u8; 16]), vec![png_bytes()]) {
        Some(ImageResult::Loaded(img)) => assert_eq!(img.height(), 2),
        _ => panic!("expected the container picture"),
    }
    assert_eq!(s.next, 0);
    let mut s = CoverSearch::for_youtube("k");
    let img = decode_image(&png_bytes()).unwrap();
    assert!(matches!(s.take_decoded(Some(img)), Some(ImageResult::Loaded(_))));
    assert_eq!(s.next, 0);
    assert!(s.take_decoded(None).is_none());
    assert_eq!(s.next, 1);
}
