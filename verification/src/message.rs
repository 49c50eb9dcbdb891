//! The draft of an outgoing message: text, formatting, media, scheduling and
//! delivery options, set one by one until the draft is handed over.

use vstd::prelude::*;
use grammers_tl_types::enums::DocumentAttribute;
use grammers_tl_types::enums::InputDocument;
use grammers_tl_types::enums::InputFile;
use grammers_tl_types::enums::InputPhoto;
use grammers_tl_types::enums::MessageEntity;
use grammers_tl_types::enums::ReplyMarkup;
use web_time::SystemTime;
use crate::mime::{guessed_mime, opt_str_view, resolve_mime, resolved_mime};
use crate::schedule::{schedule_stamp, seconds_since_epoch, stamp_of_time, SCHEDULE_ONCE_ONLINE};

verus! {

/// A file that was uploaded: the name it was uploaded under, and the handle
/// that the service gave for it.
#[derive(Clone, Debug, PartialEq)]
pub struct Uploaded {
    pub name: String,
    pub raw: InputFile,
}

impl Uploaded {
    /// The name under which the file was uploaded.
    pub fn name(&self) -> (r: &str)
        ensures
            r@ == self.name@,
    {
        self.name.as_str()
    }
}

/// An attribute of a document: its file name, or another attribute of the
/// protocol, kept as it is.
#[derive(Clone, Debug, PartialEq)]
pub enum Attribute {
    FileName(String),
    Raw(DocumentAttribute),
}

/// What an `Attribute` is.
pub enum AttributeView {
    FileName(Seq<char>),
    Raw(DocumentAttribute),
}

impl View for Attribute {
    type V = AttributeView;

    open spec fn view(&self) -> AttributeView {
        match *self {
            Attribute::FileName(name) => AttributeView::FileName(name@),
            Attribute::Raw(raw) => AttributeView::Raw(raw),
        }
    }
}

/// The attributes of a document, each as what it is.
pub open spec fn attribute_views(attributes: Seq<Attribute>) -> Seq<AttributeView> {
    attributes.map_values(|a: Attribute| a@)
}

/// The media of a draft. `Raw` holds a descriptor that the caller built and
/// that is no uploaded document.
#[derive(Clone, Debug, PartialEq)]
pub enum DraftMedia {
    UploadedPhoto { spoiler: bool, file: InputFile, ttl_seconds: Option<i32> },
    PhotoExternal { spoiler: bool, url: String, ttl_seconds: Option<i32> },
    UploadedDocument {
        nosound_video: bool,
        force_file: bool,
        spoiler: bool,
        file: InputFile,
        thumb: Option<InputFile>,
        mime_type: String,
        attributes: Vec<Attribute>,
        stickers: Option<Vec<InputDocument>>,
        ttl_seconds: Option<i32>,
        video_cover: Option<InputPhoto>,
        video_timestamp: Option<i32>,
    },
    DocumentExternal { spoiler: bool, url: String, ttl_seconds: Option<i32> },
    Raw(grammers_tl_types::enums::InputMedia),
}

/// What a `DraftMedia` is.
pub enum MediaView {
    UploadedPhoto { spoiler: bool, file: InputFile, ttl_seconds: Option<i32> },
    PhotoExternal { spoiler: bool, url: Seq<char>, ttl_seconds: Option<i32> },
    UploadedDocument {
        nosound_video: bool,
        force_file: bool,
        spoiler: bool,
        file: InputFile,
        thumb: Option<InputFile>,
        mime_type: Seq<char>,
        attributes: Seq<AttributeView>,
        stickers: Option<Seq<InputDocument>>,
        ttl_seconds: Option<i32>,
        video_cover: Option<InputPhoto>,
        video_timestamp: Option<i32>,
    },
    DocumentExternal { spoiler: bool, url: Seq<char>, ttl_seconds: Option<i32> },
    Raw(grammers_tl_types::enums::InputMedia),
}

impl View for DraftMedia {
    type V = MediaView;

    open spec fn view(&self) -> MediaView {
        match *self {
            DraftMedia::UploadedPhoto { spoiler, file, ttl_seconds } => MediaView::UploadedPhoto {
                spoiler,
                file,
                ttl_seconds,
            },
            DraftMedia::PhotoExternal { spoiler, url, ttl_seconds } => MediaView::PhotoExternal {
                spoiler,
                url: url@,
                ttl_seconds,
            },
            DraftMedia::UploadedDocument {
                nosound_video,
                force_file,
                spoiler,
                file,
                thumb,
                mime_type,
                attributes,
                stickers,
                ttl_seconds,
                video_cover,
                video_timestamp,
            } => MediaView::UploadedDocument {
                nosound_video,
                force_file,
                spoiler,
                file,
                thumb,
                mime_type: mime_type@,
                attributes: attribute_views(attributes@),
                stickers: match stickers {
                    Some(s) => Some(s@),
                    None => None,
                },
                ttl_seconds,
                video_cover,
                video_timestamp,
            },
            DraftMedia::DocumentExternal {
                spoiler,
                url,
                ttl_seconds,
            } => MediaView::DocumentExternal { spoiler, url: url@, ttl_seconds },
            DraftMedia::Raw(raw) => MediaView::Raw(raw),
        }
    }
}

/// The view of the media of a draft.
pub open spec fn opt_media_view(m: Option<DraftMedia>) -> Option<MediaView> {
    match m {
        Some(m) => Some(m@),
        None => None,
    }
}

/// The media TTL that a draft keeps for a number of seconds: none for a
/// negative number.
pub open spec fn ttl_of(seconds: i32) -> Option<i32> {
    if seconds < 0 {
        None
    } else {
        Some(seconds)
    }
}

/// What a draft is.
pub struct InputMessageView {
    pub background: bool,
    pub clear_draft: bool,
    pub entities: Seq<MessageEntity>,
    pub invert_media: bool,
    pub link_preview: bool,
    pub reply_markup: Option<ReplyMarkup>,
    pub reply_to: Option<i32>,
    pub schedule_date: Option<i32>,
    pub silent: bool,
    pub text: Seq<char>,
    pub media: Option<MediaView>,
    pub media_ttl: Option<i32>,
    pub mime_type: Option<Seq<char>>,
}

impl InputMessageView {
    /// The draft with nothing set: no text, link preview on.
    pub open spec fn empty() -> InputMessageView {
        InputMessageView {
            background: false,
            clear_draft: false,
            entities: Seq::empty(),
            invert_media: false,
            link_preview: true,
            reply_markup: None,
            reply_to: None,
            schedule_date: None,
            silent: false,
            text: Seq::empty(),
            media: None,
            media_ttl: None,
            mime_type: None,
        }
    }

    /// The draft with nothing set but text, formatting and media.
    pub open spec fn of_contents(
        text: Seq<char>,
        entities: Seq<MessageEntity>,
        media: Option<MediaView>,
    ) -> InputMessageView {
        InputMessageView { text, entities, media, ..Self::empty() }
    }

    /// The draft with its media replaced.
    pub open spec fn with_media(self, media: Option<MediaView>) -> InputMessageView {
        InputMessageView { media, ..self }
    }

    /// The draft with its schedule stamp replaced.
    pub open spec fn with_schedule(self, stamp: Option<i32>) -> InputMessageView {
        InputMessageView { schedule_date: stamp, ..self }
    }

    /// The draft with the TTL that media attached later will get.
    pub open spec fn with_media_ttl(self, seconds: i32) -> InputMessageView {
        InputMessageView { media_ttl: ttl_of(seconds), ..self }
    }

    /// The draft with the MIME type that documents attached later will get.
    pub open spec fn with_mime_type(self, mime_type: Seq<char>) -> InputMessageView {
        InputMessageView { mime_type: Some(mime_type), ..self }
    }

    /// The draft with an uploaded photo as its media.
    pub open spec fn with_photo(self, file: InputFile) -> InputMessageView {
        self.with_media(
            Some(MediaView::UploadedPhoto { spoiler: false, file, ttl_seconds: self.media_ttl }),
        )
    }

    /// The draft with a photo that the service fetches as its media.
    pub open spec fn with_photo_url(self, url: Seq<char>) -> InputMessageView {
        self.with_media(
            Some(MediaView::PhotoExternal { spoiler: false, url, ttl_seconds: self.media_ttl }),
        )
    }

    /// The draft with a document that the service fetches as its media.
    pub open spec fn with_document_url(self, url: Seq<char>) -> InputMessageView {
        self.with_media(
            Some(MediaView::DocumentExternal { spoiler: false, url, ttl_seconds: self.media_ttl }),
        )
    }

    /// The draft with an uploaded file as its media: a document, or with
    /// `force_file` a plain file. `guessed` is the MIME type that the file's
    /// name suggests. The file's name is the first attribute.
    pub open spec fn with_uploaded(
        self,
        name: Seq<char>,
        file: InputFile,
        guessed: Option<Seq<char>>,
        force_file: bool,
    ) -> InputMessageView {
        self.with_media(
            Some(
                MediaView::UploadedDocument {
                    nosound_video: false,
                    force_file,
                    spoiler: false,
                    file,
                    thumb: None,
                    mime_type: resolved_mime(self.mime_type, guessed),
                    attributes: seq![AttributeView::FileName(name)],
                    stickers: None,
                    ttl_seconds: self.media_ttl,
                    video_cover: None,
                    video_timestamp: None,
                },
            ),
        )
    }

    /// The draft with the thumbnail of its uploaded document set; the draft
    /// itself where its media is anything else, or nothing.
    pub open spec fn with_thumbnail(self, thumb: InputFile) -> InputMessageView {
        match self.media {
            Some(
                MediaView::UploadedDocument {
                    nosound_video,
                    force_file,
                    spoiler,
                    file,
                    thumb: _,
                    mime_type,
                    attributes,
                    stickers,
                    ttl_seconds,
                    video_cover,
                    video_timestamp,
                },
            ) => self.with_media(
                Some(
                    MediaView::UploadedDocument {
                        nosound_video,
                        force_file,
                        spoiler,
                        file,
                        thumb: Some(thumb),
                        mime_type,
                        attributes,
                        stickers,
                        ttl_seconds,
                        video_cover,
                        video_timestamp,
                    },
                ),
            ),
            _ => self,
        }
    }

    /// The draft with one more attribute at the end of those of its uploaded
    /// document; the draft itself where its media is anything else, or nothing.
    pub open spec fn with_attribute(self, attr: AttributeView) -> InputMessageView {
        match self.media {
            Some(
                MediaView::UploadedDocument {
                    nosound_video,
                    force_file,
                    spoiler,
                    file,
                    thumb,
                    mime_type,
                    attributes,
                    stickers,
                    ttl_seconds,
                    video_cover,
                    video_timestamp,
                },
            ) => self.with_media(
                Some(
                    MediaView::UploadedDocument {
                        nosound_video,
                        force_file,
                        spoiler,
                        file,
                        thumb,
                        mime_type,
                        attributes: attributes.push(attr),
                        stickers,
                        ttl_seconds,
                        video_cover,
                        video_timestamp,
                    },
                ),
            ),
            _ => self,
        }
    }
}

/// Construct rich text messages with various options.
#[derive(Clone, Debug, PartialEq)]
pub struct InputMessage {
    pub background: bool,
    pub clear_draft: bool,
    pub entities: Vec<MessageEntity>,
    pub invert_media: bool,
    pub link_preview: bool,
    pub reply_markup: Option<ReplyMarkup>,
    pub reply_to: Option<i32>,
    pub schedule_date: Option<i32>,
    pub silent: bool,
    pub text: String,
    pub media: Option<DraftMedia>,
    pub media_ttl: Option<i32>,
    pub mime_type: Option<String>,
}

impl View for InputMessage {
    type V = InputMessageView;

    open spec fn view(&self) -> InputMessageView {
        InputMessageView {
            background: self.background,
            clear_draft: self.clear_draft,
            entities: self.entities@,
            invert_media: self.invert_media,
            link_preview: self.link_preview,
            reply_markup: self.reply_markup,
            reply_to: self.reply_to,
            schedule_date: self.schedule_date,
            silent: self.silent,
            text: self.text@,
            media: opt_media_view(self.media),
            media_ttl: self.media_ttl,
            mime_type: opt_str_view(self.mime_type),
        }
    }
}

impl Default for InputMessage {
    fn default() -> (r: InputMessage)
        ensures
            r@ == InputMessageView::empty(),
    {
        InputMessage {
            background: false,
            clear_draft: false,
            entities: Vec::new(),
            invert_media: false,
            link_preview: true,
            reply_markup: None,
            reply_to: None,
            schedule_date: None,
            silent: false,
            text: String::new(),
            media: None,
            media_ttl: None,
            mime_type: None,
        }
    }
}

impl InputMessage {
    /// Whether to send the message as a background message.
    pub fn background(self, background: bool) -> (r: Self)
        ensures
            r@ == (InputMessageView { background, ..self@ }),
    {
        let mut m = self;
        m.background = background;
        m
    }

    /// Whether the draft in this chat, if any, should be cleared.
    pub fn clear_draft(self, clear_draft: bool) -> (r: Self)
        ensures
            r@ == (InputMessageView { clear_draft, ..self@ }),
    {
        let mut m = self;
        m.clear_draft = clear_draft;
        m
    }

    /// The formatting entities within the message (such as bold, italics).
    pub fn fmt_entities(self, entities: Vec<MessageEntity>) -> (r: Self)
        ensures
            r@ == (InputMessageView { entities: entities@, ..self@ }),
    {
        let mut m = self;
        m.entities = entities;
        m
    }

    /// Whether media appears below the text and link previews above it.
    pub fn invert_media(self, invert_media: bool) -> (r: Self)
        ensures
            r@ == (InputMessageView { invert_media, ..self@ }),
    {
        let mut m = self;
        m.invert_media = invert_media;
        m
    }

    /// Whether the link preview is shown for the message.
    pub fn link_preview(self, link_preview: bool) -> (r: Self)
        ensures
            r@ == (InputMessageView { link_preview, ..self@ }),
    {
        let mut m = self;
        m.link_preview = link_preview;
        m
    }

    /// The reply markup shown below the message, such as inline buttons.
    pub fn reply_markup(self, markup: ReplyMarkup) -> (r: Self)
        ensures
            r@ == (InputMessageView { reply_markup: Some(markup), ..self@ }),
    {
        let mut m = self;
        m.reply_markup = Some(markup);
        m
    }

    /// The message that this one replies to, if any.
    pub fn reply_to(self, reply_to: Option<i32>) -> (r: Self)
        ensures
            r@ == (InputMessageView { reply_to, ..self@ }),
    {
        let mut m = self;
        m.reply_to = reply_to;
        m
    }

    /// Schedules the message for a point in time, or, with nothing, takes
    /// the schedule away. The stamp is the seconds since the epoch cut to 32
    /// bits, and 0 for a time before the epoch.
    pub fn schedule_date(self, schedule_date: Option<SystemTime>) -> (r: Self)
        ensures
            r@ == self@.with_schedule(
                match schedule_date {
                    Some(t) => Some(schedule_stamp(seconds_since_epoch(t))),
                    None => None,
                },
            ),
    {
        let mut m = self;
        m.schedule_date = match schedule_date {
            Some(t) => Some(stamp_of_time(&t)),
            None => None,
        };
        m
    }

    /// Schedules the message for when the recipient is next online. The
    /// service honours this in private chats only; the draft does not look.
    pub fn schedule_once_online(self) -> (r: Self)
        ensures
            r@ == self@.with_schedule(Some(SCHEDULE_ONCE_ONLINE)),
    {
        let mut m = self;
        m.schedule_date = Some(SCHEDULE_ONCE_ONLINE);
        m
    }

    /// Whether the message is sent without a notification.
    pub fn silent(self, silent: bool) -> (r: Self)
        ensures
            r@ == (InputMessageView { silent, ..self@ }),
    {
        let mut m = self;
        m.silent = silent;
        m
    }

    /// Attaches the uploaded file as a photo, in place of any media.
    pub fn photo(self, file: Uploaded) -> (r: Self)
        ensures
            r@ == self@.with_photo(file.raw),
    {
        let mut m = self;
        m.media = Some(
            DraftMedia::UploadedPhoto { spoiler: false, file: file.raw, ttl_seconds: m.media_ttl },
        );
        m
    }

    /// Attaches a photo that the service fetches, in place of any media.
    pub fn photo_url(self, url: String) -> (r: Self)
        ensures
            r@ == self@.with_photo_url(url@),
    {
        let mut m = self;
        m.media = Some(DraftMedia::PhotoExternal { spoiler: false, url, ttl_seconds: m.media_ttl });
        m
    }

    /// Attaches the uploaded file as a document, in place of any media.
    pub fn document(self, file: Uploaded) -> (r: Self)
        ensures
            r@ == self@.with_uploaded(file.name@, file.raw, guessed_mime(file.name@), false),
    {
        let mime_type = self.get_file_mime(&file);
        self.uploaded(file, mime_type, false)
    }

    /// Attaches media that the caller built, in place of any media.
    pub fn media(self, media: DraftMedia) -> (r: Self)
        ensures
            r@ == self@.with_media(Some(media@)),
    {
        let mut m = self;
        m.media = Some(media);
        m
    }

    /// Sets the thumbnail of the uploaded document. Does nothing where the
    /// media is anything else, or nothing.
    pub fn thumbnail(self, thumb: Uploaded) -> (r: Self)
        ensures
            r@ == self@.with_thumbnail(thumb.raw),
    {
        let mut m = self;
        let media = m.media;
        m.media = match media {
            Some(
                DraftMedia::UploadedDocument {
                    nosound_video,
                    force_file,
                    spoiler,
                    file,
                    thumb: _,
                    mime_type,
                    attributes,
                    stickers,
                    ttl_seconds,
                    video_cover,
                    video_timestamp,
                },
            ) => Some(
                DraftMedia::UploadedDocument {
                    nosound_video,
                    force_file,
                    spoiler,
                    file,
                    thumb: Some(thumb.raw),
                    mime_type,
                    attributes,
                    stickers,
                    ttl_seconds,
                    video_cover,
                    video_timestamp,
                },
            ),
            other => other,
        };
        m
    }

    /// Attaches a document that the service fetches, in place of any media.
    pub fn document_url(self, url: String) -> (r: Self)
        ensures
            r@ == self@.with_document_url(url@),
    {
        let mut m = self;
        m.media = Some(
            DraftMedia::DocumentExternal { spoiler: false, url, ttl_seconds: m.media_ttl },
        );
        m
    }

    /// Appends an attribute to those of the uploaded document. Does nothing
    /// where the media is anything else, or nothing.
    pub fn attribute(self, attr: Attribute) -> (r: Self)
        ensures
            r@ == self@.with_attribute(attr@),
    {
        let mut m = self;
        let media = m.media;
        m.media = match media {
            Some(
                DraftMedia::UploadedDocument {
                    nosound_video,
                    force_file,
                    spoiler,
                    file,
                    thumb,
                    mime_type,
                    attributes,
                    stickers,
                    ttl_seconds,
                    video_cover,
                    video_timestamp,
                },
            ) => {
                let mut extended = attributes;
                extended.push(attr);
                assert(attribute_views(extended@) =~= attribute_views(attributes@).push(attr@));
                Some(
                    DraftMedia::UploadedDocument {
                        nosound_video,
                        force_file,
                        spoiler,
                        file,
                        thumb,
                        mime_type,
                        attributes: extended,
                        stickers,
                        ttl_seconds,
                        video_cover,
                        video_timestamp,
                    },
                )
            },
            other => other,
        };
        m
    }

    /// Takes over the media of a received message: the descriptor that sends
    /// it again, or no media where it has none that can be sent.
    pub fn copy_media(self, media: Option<DraftMedia>) -> (r: Self)
        ensures
            r@ == self@.with_media(opt_media_view(media)),
    {
        let mut m = self;
        m.media = media;
        m
    }

    /// Attaches the uploaded file as a plain file, in place of any media.
    pub fn file(self, file: Uploaded) -> (r: Self)
        ensures
            r@ == self@.with_uploaded(file.name@, file.raw, guessed_mime(file.name@), true),
    {
        let mime_type = self.get_file_mime(&file);
        self.uploaded(file, mime_type, true)
    }

    /// Sets the time to live of media that is attached after this call. A
    /// negative number takes it away. Media already attached keeps its own.
    pub fn media_ttl(self, seconds: i32) -> (r: Self)
        ensures
            r@ == self@.with_media_ttl(seconds),
    {
        let mut m = self;
        m.media_ttl = if seconds < 0 {
            None
        } else {
            Some(seconds)
        };
        m
    }

    /// Sets the MIME type of documents that are attached after this call,
    /// in place of the one guessed from the file's name.
    pub fn mime_type(self, mime_type: &str) -> (r: Self)
        ensures
            r@ == self@.with_mime_type(mime_type@),
    {
        let mut m = self;
        m.mime_type = Some(mime_type.to_owned());
        m
    }

    /// The MIME type under which the file would be attached now.
    pub fn get_file_mime(&self, file: &Uploaded) -> (r: String)
        ensures
            r@ == resolved_mime(self@.mime_type, guessed_mime(file.name@)),
    {
        resolve_mime(self.mime_type.as_ref(), file.name())
    }

    /// Attaches the uploaded file under the given MIME type, with its name
    /// as the only attribute.
    fn uploaded(self, file: Uploaded, mime_type: String, force_file: bool) -> (r: Self)
        ensures
            r@ == self@.with_media(
                Some(
                    MediaView::UploadedDocument {
                        nosound_video: false,
                        force_file,
                        spoiler: false,
                        file: file.raw,
                        thumb: None,
                        mime_type: mime_type@,
                        attributes: seq![AttributeView::FileName(file.name@)],
                        stickers: None,
                        ttl_seconds: self.media_ttl,
                        video_cover: None,
                        video_timestamp: None,
                    },
                ),
            ),
    {
        let mut m = self;
        let Uploaded { name, raw } = file;
        let mut attributes: Vec<Attribute> = Vec::new();
        attributes.push(Attribute::FileName(name));
        assert(attribute_views(attributes@) =~= seq![AttributeView::FileName(name@)]);
        m.media = Some(
            DraftMedia::UploadedDocument {
                nosound_video: false,
                force_file,
                spoiler: false,
                file: raw,
                thumb: None,
                mime_type,
                attributes,
                stickers: None,
                ttl_seconds: m.media_ttl,
                video_cover: None,
                video_timestamp: None,
            },
        );
        m
    }

    /// A draft with the given plain text and nothing else.
    pub fn text(s: &str) -> (r: Self)
        ensures
            r@ == InputMessageView::of_contents(s@, Seq::empty(), None),
    {
        let mut m = InputMessage::default();
        m.text = s.to_owned();
        m
    }

    /// A draft with the text and the formatting that a markdown parser gave.
    pub fn markdown(text: String, entities: Vec<MessageEntity>) -> (r: Self)
        ensures
            r@ == InputMessageView::of_contents(text@, entities@, None),
    {
        let mut m = InputMessage::default();
        m.text = text;
        m.entities = entities;
        m
    }

    /// A draft with the text and the formatting that an HTML parser gave.
    pub fn html(text: String, entities: Vec<MessageEntity>) -> (r: Self)
        ensures
            r@ == InputMessageView::of_contents(text@, entities@, None),
    {
        let mut m = InputMessage::default();
        m.text = text;
        m.entities = entities;
        m
    }

    /// A draft with the text, the formatting and the media of a received
    /// message: no formatting where the message had none, and the media only
    /// where the message had one that can be sent again.
    pub fn from_message(
        text: &str,
        entities: Option<Vec<MessageEntity>>,
        media: Option<DraftMedia>,
    ) -> (r: Self)
        ensures
            r@ == InputMessageView::of_contents(
                text@,
                match entities {
                    Some(e) => e@,
                    None => Seq::empty(),
                },
                opt_media_view(media),
            ),
    {
        let mut m = InputMessage::default();
        m.text = text.to_owned();
        m.entities = match entities {
            Some(e) => e,
            None => Vec::new(),
        };
        m.media = media;
        m
    }
}

/// A MIME type chosen before a file is attached is the one the file gets,
/// whatever its name suggests.
pub proof fn lemma_chosen_mime_wins(
    draft: InputMessageView,
    mime: Seq<char>,
    name: Seq<char>,
    file: InputFile,
    guessed: Option<Seq<char>>,
    force_file: bool,
)
    ensures
        draft.with_mime_type(mime).with_uploaded(name, file, guessed, force_file).media matches Some(
            MediaView::UploadedDocument { mime_type, .. },
        ) && mime_type == mime,
{
}

/// With no MIME type chosen, a file gets the one that its name suggests, and
/// the fallback where the name suggests none.
pub proof fn lemma_unchosen_mime_is_guess_or_fallback(
    draft: InputMessageView,
    name: Seq<char>,
    file: InputFile,
    guessed: Option<Seq<char>>,
    force_file: bool,
)
    requires
        draft.mime_type is None,
    ensures
        draft.with_uploaded(name, file, guessed, force_file).media matches Some(
            MediaView::UploadedDocument { mime_type, .. },
        ) && mime_type == (match guessed {
            Some(g) => g,
            None => "application/octet-stream"@,
        }),
{
}

/// A TTL or a MIME type set after media was attached leaves that media as it
/// was: only media attached later gets them.
pub proof fn lemma_late_settings_leave_media(draft: InputMessageView, seconds: i32, mime: Seq<char>)
    ensures
        draft.with_media_ttl(seconds).media == draft.media,
        draft.with_mime_type(mime).media == draft.media,
{
}

/// A photo keeps the TTL that the draft held when it was attached, whatever
/// TTL is set afterwards.
pub proof fn lemma_photo_keeps_ttl(draft: InputMessageView, file: InputFile, seconds: i32)
    ensures
        draft.with_photo(file).with_media_ttl(seconds).media == Some(
            MediaView::UploadedPhoto { spoiler: false, file, ttl_seconds: draft.media_ttl },
        ),
{
}

/// A thumbnail or an attribute for a draft whose media is no uploaded
/// document, or that has no media, leaves the draft as it was.
pub proof fn lemma_document_settings_need_document(
    draft: InputMessageView,
    thumb: InputFile,
    attr: AttributeView,
)
    requires
        !(draft.media matches Some(MediaView::UploadedDocument { .. })),
    ensures
        draft.with_thumbnail(thumb) == draft,
        draft.with_attribute(attr) == draft,
{
}

/// An attribute goes behind those that the document has: after a file is
/// attached, its name stays the first attribute.
pub proof fn lemma_attribute_goes_last(
    draft: InputMessageView,
    name: Seq<char>,
    file: InputFile,
    guessed: Option<Seq<char>>,
    force_file: bool,
    attr: AttributeView,
)
    ensures
        draft.with_uploaded(name, file, guessed, force_file).with_attribute(attr).media matches Some(
            MediaView::UploadedDocument { attributes, .. },
        ) && attributes == seq![AttributeView::FileName(name), attr],
{
    assert(seq![AttributeView::FileName(name)].push(attr) =~= seq![
        AttributeView::FileName(name),
        attr,
    ]);
}

/// Of two schedules set one after the other the second stands: an explicit
/// time after "once online" leaves the time, and the other way round.
pub proof fn lemma_last_schedule_wins(
    draft: InputMessageView,
    first: Option<i32>,
    second: Option<i32>,
)
    ensures
        draft.with_schedule(first).with_schedule(second) == draft.with_schedule(second),
        draft.with_schedule(Some(SCHEDULE_ONCE_ONLINE)).with_schedule(second).schedule_date
            == second,
{
}

/// Media attached later takes the place of media attached before.
pub proof fn lemma_last_media_wins(
    draft: InputMessageView,
    first: Option<MediaView>,
    second: Option<MediaView>,
)
    ensures
        draft.with_media(first).with_media(second) == draft.with_media(second),
{
}

} // verus!
