use arch_bot_commons::files::FileMeta;
use arch_bot_commons::media::Media;
use arch_bot_commons::media::Message;
use arch_bot_commons::media::MessageStuff;
use arch_bot_commons::media::PhotoSize;
use arch_bot_commons::media::Sticker;
use arch_bot_commons::media::Video;
use arch_bot_commons::media::VideoNote;
use arch_bot_commons::media::Voice;
use arch_bot_commons::media::Animation;

fn meta(id: &str) -> FileMeta {
    FileMeta {
        id: id.to_owned(),
        size: 0,
    }
}

fn photo(width: u32, height: u32, id: &str) -> PhotoSize {
    PhotoSize {
        width,
        height,
        file: meta(id),
    }
}

fn bare_message() -> Message {
    Message {
        text: None,
        caption: None,
        media: None,
        reply_to: None,
    }
}

#[test]
fn text_or_caption_prefers_text() {
    let mut m = bare_message();
    m.text = Some("hello".to_owned());
    assert_eq!(m.text_full().map(String::as_str), Some("hello"));
}

#[test]
fn text_or_caption_falls_back_to_caption() {
    let mut m = bare_message();
    m.caption = Some("world".to_owned());
    assert_eq!(m.text_full().map(String::as_str), Some("world"));
}

#[test]
fn text_or_caption_neither() {
    let m = bare_message();
    assert!(m.text_full().is_none());
}

#[test]
fn text_present_beside_caption_wins() {
    let mut m = bare_message();
    m.text = Some("hello".to_owned());
    m.caption = Some("world".to_owned());
    assert_eq!(m.text_full().map(String::as_str), Some("hello"));
}

#[test]
fn biggest_photo_maximizes_width_plus_height() {
    let mut m = bare_message();
    m.media = Some(Media::PhotoSet(vec![
        photo(10, 10, "small"),
        photo(100, 50, "big"),
        photo(60, 60, "mid"),
    ]));
    let p = m.find_biggest_photo().expect("photo expected");
    assert_eq!(p.width, 100);
    assert_eq!(p.height, 50);
    assert_eq!(p.file.id, "big");
}

#[test]
fn biggest_photo_tie_keeps_first() {
    let mut m = bare_message();
    m.media = Some(Media::PhotoSet(vec![
        photo(50, 50, "first"),
        photo(40, 60, "second"),
    ]));
    let p = m.find_biggest_photo().expect("photo expected");
    assert_eq!(p.file.id, "first");
}

#[test]
fn biggest_photo_none_without_photo_set() {
    let mut m = bare_message();
    assert!(m.find_biggest_photo().is_none());
    m.media = Some(Media::Video(Video {
        width: 1,
        height: 1,
        file: meta("v"),
    }));
    assert!(m.find_biggest_photo().is_none());
}

#[test]
fn photo_set_classifies_as_image() {
    let mut m = bare_message();
    m.media = Some(Media::PhotoSet(vec![
        photo(10, 10, "small"),
        photo(100, 50, "big"),
    ]));
    let info = m.get_media_info().expect("descriptor expected");
    assert_eq!(info.width, 100);
    assert_eq!(info.height, 50);
    assert!(info.is_image);
    assert!(!info.is_sticker);
    assert!(!info.is_video);
    assert!(!info.is_gif);
    assert!(!info.is_sound);
    assert!(!info.is_voice_or_video_note);
    assert!(!info.is_vector_sticker);
    assert_eq!(info.file.id, "big");
}

#[test]
fn sticker_beside_caption_takes_sticker_branch() {
    let mut m = bare_message();
    m.caption = Some("a caption".to_owned());
    m.media = Some(Media::Sticker(Sticker {
        width: 512,
        height: 512,
        is_video: false,
        is_animated: false,
        file: meta("stick"),
    }));
    let info = m.get_media_info().expect("descriptor expected");
    assert!(info.is_sticker);
    assert_eq!(info.width, 512);
    assert_eq!(info.height, 512);
    assert_eq!(info.file.id, "stick");
}

#[test]
fn static_raster_sticker_is_image() {
    let mut m = bare_message();
    m.media = Some(Media::Sticker(Sticker {
        width: 512,
        height: 512,
        is_video: false,
        is_animated: false,
        file: meta("stick"),
    }));
    let info = m.get_media_info().expect("descriptor expected");
    assert!(info.is_sticker);
    assert!(info.is_image);
    assert!(!info.is_video);
    assert!(!info.is_vector_sticker);
    assert!(info.is_image());
    assert!(info.is_raster());
}

#[test]
fn animated_sticker_is_vector_not_image() {
    let mut m = bare_message();
    m.media = Some(Media::Sticker(Sticker {
        width: 512,
        height: 512,
        is_video: false,
        is_animated: true,
        file: meta("anim"),
    }));
    let info = m.get_media_info().expect("descriptor expected");
    assert!(info.is_sticker);
    assert!(info.is_vector_sticker);
    assert!(!info.is_image);
    assert!(!info.is_image());
    assert!(!info.is_raster());
}

#[test]
fn video_sticker_is_not_image() {
    let mut m = bare_message();
    m.media = Some(Media::Sticker(Sticker {
        width: 512,
        height: 512,
        is_video: true,
        is_animated: false,
        file: meta("vstick"),
    }));
    let info = m.get_media_info().expect("descriptor expected");
    assert!(info.is_sticker);
    assert!(info.is_video);
    assert!(!info.is_image);
    assert!(!info.is_image());
    assert!(info.is_raster());
}

#[test]
fn video_classifies_as_video() {
    let mut m = bare_message();
    m.media = Some(Media::Video(Video {
        width: 1920,
        height: 1080,
        file: meta("vid"),
    }));
    let info = m.get_media_info().expect("descriptor expected");
    assert!(info.is_video);
    assert!(!info.is_gif);
    assert!(!info.is_image);
    assert!(!info.is_image());
    assert_eq!(info.width, 1920);
    assert_eq!(info.height, 1080);
    assert_eq!(info.file.id, "vid");
}

#[test]
fn animation_classifies_as_gif_video() {
    let mut m = bare_message();
    m.media = Some(Media::Animation(Animation {
        width: 320,
        height: 240,
        file: meta("gif"),
    }));
    let info = m.get_media_info().expect("descriptor expected");
    assert!(info.is_video);
    assert!(info.is_gif);
    assert!(!info.is_image);
    assert_eq!(info.width, 320);
    assert_eq!(info.height, 240);
}

#[test]
fn video_note_with_thumb_uses_thumb_dimensions() {
    let mut m = bare_message();
    m.media = Some(Media::VideoNote(VideoNote {
        thumb: Some(photo(240, 240, "thumbfile")),
        file: meta("notefile"),
    }));
    let info = m.get_media_info().expect("descriptor expected");
    assert!(info.is_video);
    assert!(info.is_voice_or_video_note);
    assert!(!info.is_sound);
    assert_eq!(info.width, 240);
    assert_eq!(info.height, 240);
    assert_eq!(info.file.id, "notefile");
}

#[test]
fn video_note_without_thumb_is_treated_as_absent() {
    let mut m = bare_message();
    m.media = Some(Media::VideoNote(VideoNote {
        thumb: None,
        file: meta("notefile"),
    }));
    assert!(m.get_media_info().is_none());
}

#[test]
fn video_note_without_thumb_falls_through_to_reply() {
    let mut ancestor = bare_message();
    ancestor.media = Some(Media::PhotoSet(vec![photo(32, 32, "old")]));
    let mut m = bare_message();
    m.media = Some(Media::VideoNote(VideoNote {
        thumb: None,
        file: meta("notefile"),
    }));
    m.reply_to = Some(Box::new(ancestor));
    let info = m.get_media_info().expect("descriptor expected");
    assert!(info.is_image);
    assert_eq!(info.file.id, "old");
}

#[test]
fn voice_classifies_as_sound_without_dimensions() {
    let mut m = bare_message();
    m.media = Some(Media::Voice(Voice { file: meta("voc") }));
    let info = m.get_media_info().expect("descriptor expected");
    assert!(info.is_sound);
    assert!(info.is_voice_or_video_note);
    assert!(!info.is_video);
    assert!(!info.is_image);
    assert_eq!(info.width, 0);
    assert_eq!(info.height, 0);
    assert!(!info.is_image());
    assert!(!info.is_raster());
}

#[test]
fn reply_chain_returns_ancestor_descriptor_unchanged() {
    let mut ancestor = bare_message();
    ancestor.media = Some(Media::PhotoSet(vec![
        photo(10, 10, "small"),
        photo(64, 64, "big"),
    ]));
    let mut middle = bare_message();
    middle.reply_to = Some(Box::new(ancestor));
    let mut m = bare_message();
    m.text = Some("look above".to_owned());
    m.reply_to = Some(Box::new(middle));
    let info = m.get_media_info().expect("descriptor expected");
    assert!(info.is_image);
    assert_eq!(info.width, 64);
    assert_eq!(info.height, 64);
    assert_eq!(info.file.id, "big");
}

#[test]
fn no_media_and_no_reply_is_none() {
    let mut m = bare_message();
    m.text = Some("just words".to_owned());
    assert!(m.get_media_info().is_none());
}

#[test]
fn empty_photo_set_is_treated_as_absent() {
    let mut m = bare_message();
    m.media = Some(Media::PhotoSet(Vec::new()));
    assert!(m.find_biggest_photo().is_none());
    assert!(m.get_media_info().is_none());
}
