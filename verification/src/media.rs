//! The message model and the media classifier.
//!
//! A `Message` optionally carries one attachment out of a closed set of kinds
//! (photo-set, sticker, video, animation, video-note, voice), optionally a
//! plain text and a caption, and optionally the message it replies to. The
//! classifier walks a fixed priority order over these kinds and produces a
//! `MessageMediaInfo` descriptor, recursing into the reply chain when the
//! message carries nothing recognizable of its own.

use vstd::prelude::*;

use crate::files::FileMeta;
use crate::files::FileMetaV;

verus! {

/// One entry of a photo-set: a variant of the same picture at one resolution.
pub struct PhotoSize {
    pub width: u32,
    pub height: u32,
    pub file: FileMeta,
}

/// Mathematical model of a `PhotoSize`.
pub struct PhotoSizeV {
    pub width: nat,
    pub height: nat,
    pub file: FileMetaV,
}

impl View for PhotoSize {
    type V = PhotoSizeV;

    open spec fn view(&self) -> PhotoSizeV {
        PhotoSizeV { width: self.width as nat, height: self.height as nat, file: self.file@ }
    }
}

/// A sticker attachment; `is_video` and `is_animated` are the sticker's own
/// format flags (an animated sticker is a vector format, not a raster one).
pub struct Sticker {
    pub width: u16,
    pub height: u16,
    pub is_video: bool,
    pub is_animated: bool,
    pub file: FileMeta,
}

/// Mathematical model of a `Sticker`.
pub struct StickerV {
    pub width: nat,
    pub height: nat,
    pub is_video: bool,
    pub is_animated: bool,
    pub file: FileMetaV,
}

impl View for Sticker {
    type V = StickerV;

    open spec fn view(&self) -> StickerV {
        StickerV {
            width: self.width as nat,
            height: self.height as nat,
            is_video: self.is_video,
            is_animated: self.is_animated,
            file: self.file@,
        }
    }
}

/// A video attachment.
pub struct Video {
    pub width: u32,
    pub height: u32,
    pub file: FileMeta,
}

/// Mathematical model of a `Video`.
pub struct VideoV {
    pub width: nat,
    pub height: nat,
    pub file: FileMetaV,
}

impl View for Video {
    type V = VideoV;

    open spec fn view(&self) -> VideoV {
        VideoV { width: self.width as nat, height: self.height as nat, file: self.file@ }
    }
}

/// An animation attachment (a GIF-like clip).
pub struct Animation {
    pub width: u32,
    pub height: u32,
    pub file: FileMeta,
}

/// Mathematical model of an `Animation`.
pub struct AnimationV {
    pub width: nat,
    pub height: nat,
    pub file: FileMetaV,
}

impl View for Animation {
    type V = AnimationV;

    open spec fn view(&self) -> AnimationV {
        AnimationV { width: self.width as nat, height: self.height as nat, file: self.file@ }
    }
}

/// A video-note attachment; the thumbnail may be missing, in which case the
/// classifier treats the video-note as if it were absent.
pub struct VideoNote {
    pub thumb: Option<PhotoSize>,
    pub file: FileMeta,
}

/// Mathematical model of a `VideoNote`.
pub struct VideoNoteV {
    pub thumb: Option<PhotoSizeV>,
    pub file: FileMetaV,
}

impl View for VideoNote {
    type V = VideoNoteV;

    open spec fn view(&self) -> VideoNoteV {
        VideoNoteV {
            thumb: match self.thumb {
                Some(t) => Some(t@),
                None => None,
            },
            file: self.file@,
        }
    }
}

/// A voice clip attachment; it has no pixel dimensions.
pub struct Voice {
    pub file: FileMeta,
}

/// Mathematical model of a `Voice`.
pub struct VoiceV {
    pub file: FileMetaV,
}

impl View for Voice {
    type V = VoiceV;

    open spec fn view(&self) -> VoiceV {
        VoiceV { file: self.file@ }
    }
}

/// The closed set of attachment kinds a message can carry.
pub enum Media {
    PhotoSet(Vec<PhotoSize>),
    Sticker(Sticker),
    Video(Video),
    Animation(Animation),
    VideoNote(VideoNote),
    Voice(Voice),
}

/// Mathematical model of an attachment.
pub enum MediaV {
    PhotoSet(Seq<PhotoSizeV>),
    Sticker(StickerV),
    Video(VideoV),
    Animation(AnimationV),
    VideoNote(VideoNoteV),
    Voice(VoiceV),
}

/// The model of a photo-set: each variant in its original order.
pub open spec fn photos_view(ps: Seq<PhotoSize>) -> Seq<PhotoSizeV> {
    ps.map_values(|p: PhotoSize| p@)
}

impl View for Media {
    type V = MediaV;

    open spec fn view(&self) -> MediaV {
        match self {
            Media::PhotoSet(ps) => MediaV::PhotoSet(photos_view(ps@)),
            Media::Sticker(s) => MediaV::Sticker(s@),
            Media::Video(v) => MediaV::Video(v@),
            Media::Animation(a) => MediaV::Animation(a@),
            Media::VideoNote(n) => MediaV::VideoNote(n@),
            Media::Voice(v) => MediaV::Voice(v@),
        }
    }
}

/// A message: at most one attachment, optional text and caption, and
/// optionally the message it replies to. Reply chains are finite because each
/// message owns its reply target here; the host framework guarantees they are
/// acyclic.
pub struct Message {
    pub text: Option<String>,
    pub caption: Option<String>,
    pub media: Option<Media>,
    pub reply_to: Option<Box<Message>>,
}

/// Mathematical model of a `Message`.
pub struct MessageV {
    pub text: Option<Seq<char>>,
    pub caption: Option<Seq<char>>,
    pub media: Option<MediaV>,
    pub reply_to: Option<Box<MessageV>>,
}

/// The model of a message, reply chain included.
pub open spec fn message_view(m: Message) -> MessageV
    decreases m,
{
    MessageV {
        text: match m.text {
            Some(t) => Some(t@),
            None => None,
        },
        caption: match m.caption {
            Some(c) => Some(c@),
            None => None,
        },
        media: match m.media {
            Some(md) => Some(md@),
            None => None,
        },
        reply_to: match m.reply_to {
            Some(r) => Some(Box::new(message_view(*r))),
            None => None,
        },
    }
}

impl View for Message {
    type V = MessageV;

    open spec fn view(&self) -> MessageV {
        message_view(*self)
    }
}

/// The classifier's output: pixel dimensions (0,0 when not applicable), the
/// boolean facets of the chosen attachment, and the reference of its file.
pub struct MessageMediaInfo {
    pub width: u32,
    pub height: u32,
    pub is_sticker: bool,
    pub is_gif: bool,
    pub is_video: bool,
    pub is_image: bool,
    pub is_sound: bool,
    pub is_voice_or_video_note: bool,
    pub is_vector_sticker: bool,
    pub file: FileMeta,
}

/// Mathematical model of a `MessageMediaInfo`.
pub struct MediaInfoV {
    pub width: nat,
    pub height: nat,
    pub is_sticker: bool,
    pub is_gif: bool,
    pub is_video: bool,
    pub is_image: bool,
    pub is_sound: bool,
    pub is_voice_or_video_note: bool,
    pub is_vector_sticker: bool,
    pub file: FileMetaV,
}

impl View for MessageMediaInfo {
    type V = MediaInfoV;

    open spec fn view(&self) -> MediaInfoV {
        MediaInfoV {
            width: self.width as nat,
            height: self.height as nat,
            is_sticker: self.is_sticker,
            is_gif: self.is_gif,
            is_video: self.is_video,
            is_image: self.is_image,
            is_sound: self.is_sound,
            is_voice_or_video_note: self.is_voice_or_video_note,
            is_vector_sticker: self.is_vector_sticker,
            file: self.file@,
        }
    }
}

/// The measure by which photo variants are compared.
pub open spec fn photo_size_sum(p: PhotoSizeV) -> nat {
    p.width + p.height
}

/// The variant a non-empty photo-set is judged by: the first variant that
/// maximizes width + height (a later variant replaces an earlier one only
/// when it is strictly larger).
pub open spec fn best_photo(ps: Seq<PhotoSizeV>) -> PhotoSizeV
    recommends
        ps.len() > 0,
    decreases ps.len(),
{
    if ps.len() <= 1 {
        ps[0]
    } else {
        let prev = best_photo(ps.drop_last());
        if photo_size_sum(ps.last()) > photo_size_sum(prev) {
            ps.last()
        } else {
            prev
        }
    }
}

/// The index in the photo-set at which `best_photo` stands.
pub open spec fn best_photo_index(ps: Seq<PhotoSizeV>) -> int
    recommends
        ps.len() > 0,
    decreases ps.len(),
{
    if ps.len() <= 1 {
        0
    } else {
        let prev = best_photo_index(ps.drop_last());
        if photo_size_sum(ps.last()) > photo_size_sum(ps.drop_last()[prev]) {
            ps.len() - 1
        } else {
            prev
        }
    }
}

/// Descriptor of the chosen variant of a photo-set.
pub open spec fn photo_info(p: PhotoSizeV) -> MediaInfoV {
    MediaInfoV {
        width: p.width,
        height: p.height,
        is_sticker: false,
        is_gif: false,
        is_video: false,
        is_image: true,
        is_sound: false,
        is_voice_or_video_note: false,
        is_vector_sticker: false,
        file: p.file,
    }
}

/// Descriptor of a sticker: only a static raster sticker (neither video nor
/// animated) counts as an image, and an animated sticker is a vector sticker.
pub open spec fn sticker_info(s: StickerV) -> MediaInfoV {
    MediaInfoV {
        width: s.width,
        height: s.height,
        is_sticker: true,
        is_gif: false,
        is_video: s.is_video,
        is_image: !s.is_video && !s.is_animated,
        is_sound: false,
        is_voice_or_video_note: false,
        is_vector_sticker: s.is_animated,
        file: s.file,
    }
}

/// Descriptor of a video.
pub open spec fn video_info(v: VideoV) -> MediaInfoV {
    MediaInfoV {
        width: v.width,
        height: v.height,
        is_sticker: false,
        is_gif: false,
        is_video: true,
        is_image: false,
        is_sound: false,
        is_voice_or_video_note: false,
        is_vector_sticker: false,
        file: v.file,
    }
}

/// Descriptor of an animation: a video that is also a GIF.
pub open spec fn animation_info(a: AnimationV) -> MediaInfoV {
    MediaInfoV {
        width: a.width,
        height: a.height,
        is_sticker: false,
        is_gif: true,
        is_video: true,
        is_image: false,
        is_sound: false,
        is_voice_or_video_note: false,
        is_vector_sticker: false,
        file: a.file,
    }
}

/// Descriptor of a video-note that carries a thumbnail `t`: the dimensions
/// come from the thumbnail, the file from the video-note itself.
pub open spec fn video_note_info(n: VideoNoteV, t: PhotoSizeV) -> MediaInfoV {
    MediaInfoV {
        width: t.width,
        height: t.height,
        is_sticker: false,
        is_gif: false,
        is_video: true,
        is_image: false,
        is_sound: false,
        is_voice_or_video_note: true,
        is_vector_sticker: false,
        file: n.file,
    }
}

/// Descriptor of a voice clip: sound only, no pixel dimensions.
pub open spec fn voice_info(v: VoiceV) -> MediaInfoV {
    MediaInfoV {
        width: 0,
        height: 0,
        is_sticker: false,
        is_gif: false,
        is_video: false,
        is_image: false,
        is_sound: true,
        is_voice_or_video_note: true,
        is_vector_sticker: false,
        file: v.file,
    }
}

/// What the classifier returns: the first kind in the priority order
/// photo-set, sticker, video, animation, video-note (only with a thumbnail),
/// voice; failing all of these, the classification of the replied-to message;
/// failing that, nothing. An empty photo-set and a video-note without a
/// thumbnail are treated as absent attachments.
pub open spec fn media_info_of(m: MessageV) -> Option<MediaInfoV>
    decreases m, 1int,
{
    match m.media {
        Some(MediaV::PhotoSet(ps)) => if ps.len() > 0 {
            Some(photo_info(best_photo(ps)))
        } else {
            reply_media_info(m)
        },
        Some(MediaV::Sticker(s)) => Some(sticker_info(s)),
        Some(MediaV::Video(v)) => Some(video_info(v)),
        Some(MediaV::Animation(a)) => Some(animation_info(a)),
        Some(MediaV::VideoNote(n)) => match n.thumb {
            Some(t) => Some(video_note_info(n, t)),
            None => reply_media_info(m),
        },
        Some(MediaV::Voice(v)) => Some(voice_info(v)),
        None => reply_media_info(m),
    }
}

/// The classification a message falls back to: that of the message it
/// replies to, if any.
pub open spec fn reply_media_info(m: MessageV) -> Option<MediaInfoV>
    decreases m, 0int,
{
    match m.reply_to {
        Some(r) => media_info_of(*r),
        None => None,
    }
}

/// The message's plain text if present, else its caption if present.
pub open spec fn text_full_of(m: MessageV) -> Option<Seq<char>> {
    if m.text is Some {
        m.text
    } else {
        m.caption
    }
}

/// The photo variant the classifier would judge the message by: the best
/// variant of its photo-set, when that set is present and non-empty.
pub open spec fn biggest_photo_of(m: MessageV) -> Option<PhotoSizeV> {
    match m.media {
        Some(MediaV::PhotoSet(ps)) => if ps.len() > 0 {
            Some(best_photo(ps))
        } else {
            None
        },
        _ => None,
    }
}

/// A descriptor is raster-derived when it is neither a vector sticker nor
/// pure sound.
pub open spec fn raster_derived_of(i: MediaInfoV) -> bool {
    !i.is_vector_sticker && !i.is_sound
}

/// A descriptor is image-derived when it is not a video and is
/// raster-derived: effectively a still image usable for image processing.
pub open spec fn image_derived_of(i: MediaInfoV) -> bool {
    !i.is_video && raster_derived_of(i)
}

/// The model of an optional descriptor.
pub open spec fn opt_info_view(r: Option<MessageMediaInfo>) -> Option<MediaInfoV> {
    match r {
        Some(i) => Some(i@),
        None => None,
    }
}

/// The model of an optional borrowed text.
pub open spec fn opt_text_view(r: Option<&String>) -> Option<Seq<char>> {
    match r {
        Some(t) => Some(t@),
        None => None,
    }
}

/// The model of an optional borrowed photo variant.
pub open spec fn opt_photo_view(r: Option<&PhotoSize>) -> Option<PhotoSizeV> {
    match r {
        Some(p) => Some(p@),
        None => None,
    }
}

impl MessageMediaInfo {
    /// Whether the descriptor stands for an effectively still image: not a
    /// video, and raster. Recomputed from the facets, never cached.
    pub fn is_image(&self) -> (r: bool)
        ensures
            r == image_derived_of(self@),
    {
        !self.is_video && self.is_raster()
    }

    /// Whether the descriptor stands for raster data: neither a vector
    /// sticker nor pure sound. Recomputed from the facets, never cached.
    pub fn is_raster(&self) -> (r: bool)
        ensures
            r == raster_derived_of(self@),
    {
        !self.is_vector_sticker && !self.is_sound
    }
}

/// The first photo variant of `ps` that maximizes width + height, if any.
fn biggest_of(ps: &Vec<PhotoSize>) -> (r: Option<&PhotoSize>)
    ensures
        match r {
            Some(p) => ps@.len() > 0 && p@ == best_photo(photos_view(ps@)),
            None => ps@.len() == 0,
        },
{
    if ps.len() == 0 {
        return None;
    }
    let mut best: usize = 0;
    let mut i: usize = 1;
    while i < ps.len()
        invariant
            0 < i <= ps@.len(),
            best < i,
            ps@[best as int]@ == best_photo(photos_view(ps@).take(i as int)),
        decreases ps@.len() - i,
    {
        proof {
            let sv = photos_view(ps@);
            assert(sv.take(i + 1).drop_last() =~= sv.take(i as int));
            assert(sv.take(i + 1).last() == sv[i as int]);
        }
        if (ps[i].width as u64) + (ps[i].height as u64) > (ps[best].width as u64) + (
        ps[best].height as u64) {
            best = i;
        }
        i = i + 1;
    }
    proof {
        assert(photos_view(ps@).take(ps@.len() as int) =~= photos_view(ps@));
    }
    Some(&ps[best])
}

/// The classifier itself: walks the priority order on `m` and its reply
/// chain.
fn media_info_rec(m: &Message) -> (r: Option<MessageMediaInfo>)
    ensures
        opt_info_view(r) == media_info_of(m@),
    decreases *m,
{
    if let Some(p) = m.find_biggest_photo() {
        return Some(
            MessageMediaInfo {
                width: p.width,
                height: p.height,
                is_sticker: false,
                is_gif: false,
                is_video: false,
                is_image: true,
                is_sound: false,
                is_voice_or_video_note: false,
                is_vector_sticker: false,
                file: p.file.clone(),
            },
        );
    }
    match &m.media {
        Some(Media::Sticker(s)) => {
            return Some(
                MessageMediaInfo {
                    width: s.width as u32,
                    height: s.height as u32,
                    is_sticker: true,
                    is_gif: false,
                    is_video: s.is_video,
                    is_image: !s.is_video && !s.is_animated,
                    is_sound: false,
                    is_voice_or_video_note: false,
                    is_vector_sticker: s.is_animated,
                    file: s.file.clone(),
                },
            );
        },
        Some(Media::Video(v)) => {
            return Some(
                MessageMediaInfo {
                    width: v.width,
                    height: v.height,
                    is_sticker: false,
                    is_gif: false,
                    is_video: true,
                    is_image: false,
                    is_sound: false,
                    is_voice_or_video_note: false,
                    is_vector_sticker: false,
                    file: v.file.clone(),
                },
            );
        },
        Some(Media::Animation(a)) => {
            return Some(
                MessageMediaInfo {
                    width: a.width,
                    height: a.height,
                    is_sticker: false,
                    is_gif: true,
                    is_video: true,
                    is_image: false,
                    is_sound: false,
                    is_voice_or_video_note: false,
                    is_vector_sticker: false,
                    file: a.file.clone(),
                },
            );
        },
        Some(Media::VideoNote(n)) => {
            if let Some(t) = &n.thumb {
                return Some(
                    MessageMediaInfo {
                        width: t.width,
                        height: t.height,
                        is_sticker: false,
                        is_gif: false,
                        is_video: true,
                        is_image: false,
                        is_sound: false,
                        is_voice_or_video_note: true,
                        is_vector_sticker: false,
                        file: n.file.clone(),
                    },
                );
            }
        },
        Some(Media::Voice(v)) => {
            return Some(
                MessageMediaInfo {
                    width: 0,
                    height: 0,
                    is_sticker: false,
                    is_gif: false,
                    is_video: false,
                    is_image: false,
                    is_sound: true,
                    is_voice_or_video_note: true,
                    is_vector_sticker: false,
                    file: v.file.clone(),
                },
            );
        },
        _ => {},
    }
    if let Some(r) = &m.reply_to {
        return media_info_rec(r);
    }
    None
}

/// Law: for a non-empty photo-set, `best_photo` is a variant of the set that
/// maximizes width + height, and it stands before every other variant with
/// that maximal sum (on ties, the first one in the set's original order
/// wins).
pub proof fn lemma_best_photo_first_max(ps: Seq<PhotoSizeV>)
    requires
        ps.len() > 0,
    ensures
        0 <= best_photo_index(ps) < ps.len(),
        best_photo(ps) == ps[best_photo_index(ps)],
        forall|j: int| 0 <= j < ps.len() ==> photo_size_sum(ps[j]) <= photo_size_sum(best_photo(ps)),
        forall|j: int|
            0 <= j < best_photo_index(ps) ==> photo_size_sum(ps[j]) < photo_size_sum(best_photo(ps)),
    decreases ps.len(),
{
    if ps.len() > 1 {
        lemma_best_photo_first_max(ps.drop_last());
        assert(forall|j: int| 0 <= j < ps.len() - 1 ==> ps.drop_last()[j] == ps[j]);
        assert(ps.last() == ps[ps.len() - 1]);
    }
}

/// Law: classification priority is total and deterministic; in particular a
/// message that carries a sticker is classified by the sticker branch alone,
/// whatever text or caption stands beside it.
pub proof fn lemma_sticker_wins_over_caption(m: MessageV, s: StickerV)
    requires
        m.media == Some(MediaV::Sticker(s)),
    ensures
        media_info_of(m) == Some(sticker_info(s)),
{
}

/// Law: a video-note without a thumbnail is classified exactly as if the
/// message carried no attachment at all, so classification falls through to
/// the reply chain and, failing that, to nothing.
pub proof fn lemma_video_note_without_thumb(m: MessageV, n: VideoNoteV)
    requires
        m.media == Some(MediaV::VideoNote(n)),
        n.thumb is None,
    ensures
        media_info_of(m) == media_info_of(MessageV { media: None, ..m }),
{
}

/// Law: a message with no attachment of its own but with a reply target is
/// classified exactly as that replied-to message, unchanged.
pub proof fn lemma_reply_chain(m: MessageV)
    requires
        m.media is None,
        m.reply_to is Some,
    ensures
        media_info_of(m) == media_info_of(*m.reply_to->Some_0),
{
}

/// Law: the derived image predicate holds of a static raster sticker (neither
/// video nor animated), and fails of an animated (vector) sticker and of any
/// video.
pub proof fn lemma_image_derived_facets(s: StickerV, v: VideoV)
    ensures
        image_derived_of(sticker_info(s)) == (!s.is_video && !s.is_animated),
        !image_derived_of(video_info(v)),
{
}

pub trait MessageStuff {
    spec fn text_full_spec(&self) -> Option<Seq<char>>;

    spec fn media_info_spec(&self) -> Option<MediaInfoV>;

    spec fn biggest_photo_spec(&self) -> Option<PhotoSizeV>;

    /// The message's plain text if present, else its caption if present,
    /// else nothing.
    fn text_full(&self) -> (r: Option<&String>)
        ensures
            opt_text_view(r) == self.text_full_spec(),
    ;

    /// Classify the media attached to the message (or, failing that, to its
    /// reply chain); nothing recognizable is a plain `None`, not a failure.
    fn get_media_info(&self) -> (r: Option<MessageMediaInfo>)
        ensures
            opt_info_view(r) == self.media_info_spec(),
    ;

    /// The variant of the message's photo-set with the largest
    /// width + height sum; on ties, the first such variant.
    fn find_biggest_photo(&self) -> (r: Option<&PhotoSize>)
        ensures
            opt_photo_view(r) == self.biggest_photo_spec(),
    ;
}

impl MessageStuff for Message {
    open spec fn text_full_spec(&self) -> Option<Seq<char>> {
        text_full_of(self@)
    }

    open spec fn media_info_spec(&self) -> Option<MediaInfoV> {
        media_info_of(self@)
    }

    open spec fn biggest_photo_spec(&self) -> Option<PhotoSizeV> {
        biggest_photo_of(self@)
    }

    fn text_full(&self) -> (r: Option<&String>) {
        match &self.text {
            Some(t) => Some(t),
            None => match &self.caption {
                Some(c) => Some(c),
                None => None,
            },
        }
    }

    fn get_media_info(&self) -> (r: Option<MessageMediaInfo>) {
        media_info_rec(self)
    }

    fn find_biggest_photo(&self) -> (r: Option<&PhotoSize>) {
        match &self.media {
            Some(Media::PhotoSet(ps)) => biggest_of(ps),
            _ => None,
        }
    }
}

} // verus!

