use vstd::prelude::*;

use super::response::{text_of, Subtitle, SubtitleView};

verus! {

/// Whether two strings hold the same characters.
pub fn same_text(a: &str, b: &str) -> (same: bool)
    ensures
        same == (a@ == b@),
{
    a.to_owned() == b.to_owned()
}

/// A copy of an optional string.
pub fn copy_text(value: &Option<String>) -> (copy: Option<String>)
    ensures
        copy == *value,
{
    match value {
        Some(s) => Some(s.clone()),
        None => None,
    }
}

#[derive(Clone, Copy, Debug, PartialEq, Eq, Structural)]
pub enum MediaType {
    Movie,
    TVShow,
}

impl MediaType {
    /// The media type that `s` names, if it names one.
    pub open spec fn named(s: Seq<char>) -> Option<MediaType> {
        if s == "movie"@ {
            Some(MediaType::Movie)
        } else if s == "tv-show"@ {
            Some(MediaType::TVShow)
        } else {
            None
        }
    }

    /// Reads a media type from its name: `movie` or `tv-show`.
    pub fn from_str(s: &str) -> (parsed: Result<MediaType, ()>)
        ensures
            parsed.ok() == MediaType::named(s@),
    {
        if same_text(s, "movie") {
            Ok(MediaType::Movie)
        } else if same_text(s, "tv-show") {
            Ok(MediaType::TVShow)
        } else {
            Err(())
        }
    }
}

/// The body of a subtitle action request.
#[derive(Clone, Debug, PartialEq, Eq)]
pub struct ActionPayload {
    pub id: u32,
    pub media_type: String,
    pub language: String,
    pub path: String,
    // used only for the sync action
    pub reference: Option<String>,
    pub max_offset_seconds: Option<u32>,
    pub no_fix_framerate: Option<bool>,
    pub gss: Option<bool>,
}

/// A request body as the contracts speak of it.
pub struct PayloadView {
    pub id: u32,
    pub media_type: Seq<char>,
    pub language: Seq<char>,
    pub path: Seq<char>,
    pub reference: Option<Seq<char>>,
    pub max_offset_seconds: Option<u32>,
    pub no_fix_framerate: Option<bool>,
    pub gss: Option<bool>,
}

impl View for ActionPayload {
    type V = PayloadView;

    open spec fn view(&self) -> PayloadView {
        PayloadView {
            id: self.id,
            media_type: self.media_type@,
            language: self.language@,
            path: self.path@,
            reference: text_of(self.reference),
            max_offset_seconds: self.max_offset_seconds,
            no_fix_framerate: self.no_fix_framerate,
            gss: self.gss,
        }
    }
}

/// The request body for `subtitle` of the media item `id`, before any
/// options of the action are added.
pub open spec fn plain_payload(id: u32, media_type: Seq<char>, subtitle: SubtitleView) -> PayloadView
    recommends
        subtitle.is_valid(),
{
    PayloadView {
        id,
        media_type,
        language: subtitle.code.unwrap(),
        path: subtitle.path.unwrap(),
        reference: None,
        max_offset_seconds: None,
        no_fix_framerate: None,
        gss: None,
    }
}

impl ActionPayload {
    /// The request body for a subtitle that has a path and a language code.
    pub fn new(id: u32, media_type: &str, subtitle: &Subtitle) -> (payload: Self)
        requires
            subtitle@.is_valid(),
        ensures
            payload@ == plain_payload(id, media_type@, subtitle@),
    {
        let language = match &subtitle.audio_language_item.code2 {
            Some(code) => code.clone(),
            None => String::new(),
        };
        let path = match &subtitle.path {
            Some(path) => path.clone(),
            None => String::new(),
        };
        ActionPayload {
            id,
            media_type: media_type.to_owned(),
            language,
            path,
            reference: None,
            max_offset_seconds: None,
            no_fix_framerate: None,
            gss: None,
        }
    }
}

} // verus!
