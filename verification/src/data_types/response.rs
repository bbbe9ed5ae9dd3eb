use vstd::prelude::*;

verus! {

/// The view of an optional string: the characters it holds, if any.
pub open spec fn text_of(value: Option<String>) -> Option<Seq<char>> {
    match value {
        Some(s) => Some(s@),
        None => None,
    }
}

/// A subtitle as the contracts speak of it.
pub struct SubtitleView {
    pub path: Option<Seq<char>>,
    pub code: Option<Seq<char>>,
    pub name: Seq<char>,
}

impl SubtitleView {
    /// A subtitle can be acted on exactly if it has both a path and a
    /// language code.
    pub open spec fn is_valid(self) -> bool {
        self.path is Some && self.code is Some
    }
}

/// A movie or an episode as the contracts speak of it: its identifier, its
/// title and its subtitles in the order in which the service listed them.
pub struct RecordView {
    pub id: u32,
    pub title: Seq<char>,
    pub subtitles: Seq<SubtitleView>,
}

impl RecordView {
    /// Whether the record has at least one subtitle that can be acted on.
    pub open spec fn has_valid_subtitle(self) -> bool {
        exists|j: int| 0 <= j < self.subtitles.len() && (#[trigger] self.subtitles[j]).is_valid()
    }
}

#[derive(Debug)]
pub struct PaginatedResponse<T> {
    pub data: Vec<T>,
}

#[derive(Debug, PartialEq, Eq)]
pub struct AudioLanguageItem {
    pub name: String,
    pub code2: Option<String>,
}

#[derive(Debug, PartialEq, Eq)]
pub struct Subtitle {
    pub path: Option<String>,
    pub audio_language_item: AudioLanguageItem,
}

impl View for Subtitle {
    type V = SubtitleView;

    open spec fn view(&self) -> SubtitleView {
        SubtitleView {
            path: text_of(self.path),
            code: text_of(self.audio_language_item.code2),
            name: self.audio_language_item.name@,
        }
    }
}

/// The views of a sequence of subtitles, in the same order.
pub open spec fn subtitle_views(subtitles: Seq<Subtitle>) -> Seq<SubtitleView> {
    Seq::new(subtitles.len(), |j: int| subtitles[j]@)
}

#[derive(Clone, Debug, PartialEq, Eq)]
pub struct Movie {
    pub subtitles: Vec<Subtitle>,
    pub radarr_id: u32,
    pub title: String,
}

#[derive(Clone, Debug, PartialEq, Eq)]
pub struct TVShow {
    pub sonarr_series_id: u32,
    pub title: String,
}

#[derive(Clone, Debug, PartialEq, Eq)]
pub struct Episode {
    pub sonarr_episode_id: u32,
    pub subtitles: Vec<Subtitle>,
    pub title: String,
}

impl View for Movie {
    type V = RecordView;

    open spec fn view(&self) -> RecordView {
        RecordView {
            id: self.radarr_id,
            title: self.title@,
            subtitles: subtitle_views(self.subtitles@),
        }
    }
}

impl View for Episode {
    type V = RecordView;

    open spec fn view(&self) -> RecordView {
        RecordView {
            id: self.sonarr_episode_id,
            title: self.title@,
            subtitles: subtitle_views(self.subtitles@),
        }
    }
}

/// What movies and episodes have in common: a numeric identifier, a title and
/// an ordered list of subtitles.
pub trait MediaRecord: Sized {
    spec fn record(&self) -> RecordView;

    fn media_id(&self) -> (id: u32)
        ensures
            id == self.record().id,
    ;

    fn media_title(&self) -> (title: &String)
        ensures
            title@ == self.record().title,
    ;

    fn media_subtitles(&self) -> (subtitles: &Vec<Subtitle>)
        ensures
            subtitle_views(subtitles@) == self.record().subtitles,
    ;

    /// The name under which the service knows this kind of media.
    spec fn kind(&self) -> Seq<char>;

    fn kind_name(&self) -> (name: &'static str)
        ensures
            name@ == self.kind(),
    ;
}

impl MediaRecord for Movie {
    open spec fn record(&self) -> RecordView {
        self@
    }

    fn media_id(&self) -> (id: u32) {
        self.radarr_id
    }

    fn media_title(&self) -> (title: &String) {
        &self.title
    }

    fn media_subtitles(&self) -> (subtitles: &Vec<Subtitle>) {
        &self.subtitles
    }

    open spec fn kind(&self) -> Seq<char> {
        "movie"@
    }

    fn kind_name(&self) -> (name: &'static str) {
        "movie"
    }
}

impl MediaRecord for Episode {
    open spec fn record(&self) -> RecordView {
        self@
    }

    fn media_id(&self) -> (id: u32) {
        self.sonarr_episode_id
    }

    fn media_title(&self) -> (title: &String) {
        &self.title
    }

    fn media_subtitles(&self) -> (subtitles: &Vec<Subtitle>) {
        &self.subtitles
    }

    open spec fn kind(&self) -> Seq<char> {
        "episode"@
    }

    fn kind_name(&self) -> (name: &'static str) {
        "episode"
    }
}

impl Clone for AudioLanguageItem {
    fn clone(&self) -> (copy: Self)
        ensures
            copy == *self,
    {
        let code2 = match &self.code2 {
            Some(code) => Some(code.clone()),
            None => None,
        };
        AudioLanguageItem { name: self.name.clone(), code2 }
    }
}

impl Clone for Subtitle {
    fn clone(&self) -> (copy: Self)
        ensures
            copy == *self,
    {
        let path = match &self.path {
            Some(path) => Some(path.clone()),
            None => None,
        };
        Subtitle { path, audio_language_item: self.audio_language_item.clone() }
    }
}

impl Subtitle {
    /// Whether the subtitle can be acted on: it has a path and a language
    /// code.
    pub fn is_valid(&self) -> (valid: bool)
        ensures
            valid == self@.is_valid(),
            valid == (self.path is Some && self.audio_language_item.code2 is Some),
    {
        self.path.is_some() && self.audio_language_item.code2.is_some()
    }
}

} // verus!
