use vstd::prelude::*;

use crate::data_types::response::{
    subtitle_views, text_of, AudioLanguageItem, Episode, MediaRecord, Movie, RecordView, Subtitle, SubtitleView,
};

verus! {

/// One row of the ledger of processed subtitles.
#[derive(Clone, Debug, PartialEq, Eq)]
pub struct ProcessedEntry {
    pub media_id: u32,
    pub title: String,
    pub language_code: String,
    pub language_name: String,
    pub path: Option<String>,
    pub processed_at: i64,
}

/// A ledger row as the contracts speak of it.
pub struct EntryView {
    pub id: u32,
    pub title: Seq<char>,
    pub code: Seq<char>,
    pub name: Seq<char>,
    pub path: Option<Seq<char>>,
    pub processed_at: i64,
}

impl View for ProcessedEntry {
    type V = EntryView;

    open spec fn view(&self) -> EntryView {
        EntryView {
            id: self.media_id,
            title: self.title@,
            code: self.language_code@,
            name: self.language_name@,
            path: text_of(self.path),
            processed_at: self.processed_at,
        }
    }
}

/// The views of a sequence of rows, in the same order.
pub open spec fn entry_views(rows: Seq<ProcessedEntry>) -> Seq<EntryView> {
    Seq::new(rows.len(), |i: int| rows[i]@)
}

/// Whether some row records the pair of `id` and `code`.
pub open spec fn has_key(rows: Seq<EntryView>, id: u32, code: Seq<char>) -> bool {
    exists|i: int| 0 <= i < rows.len() && (#[trigger] rows[i]).id == id && rows[i].code == code
}

/// Whether some row belongs to the media item `id`, whatever its language.
pub open spec fn has_id(rows: Seq<EntryView>, id: u32) -> bool {
    exists|i: int| 0 <= i < rows.len() && (#[trigger] rows[i]).id == id
}

/// No two rows record the same pair of media id and language code.
pub open spec fn unique_keys(rows: Seq<EntryView>) -> bool {
    forall|i: int, j: int|
        0 <= i < j < rows.len() ==> !((#[trigger] rows[i]).id == (#[trigger] rows[j]).id
            && rows[i].code == rows[j].code)
}

/// The rows after an insert that ignores a pair already recorded.
pub open spec fn inserted(rows: Seq<EntryView>, entry: EntryView) -> Seq<EntryView> {
    if has_key(rows, entry.id, entry.code) {
        rows
    } else {
        rows.push(entry)
    }
}

/// Whether marking `subtitle` of the media item `id` creates a row: the
/// subtitle names a language and the pair is not yet recorded.
pub open spec fn mark_creates(rows: Seq<EntryView>, id: u32, subtitle: SubtitleView) -> bool {
    subtitle.code is Some && !has_key(rows, id, subtitle.code.unwrap())
}

/// The rows after marking `subtitle` of the media item `id` at time `now`.
pub open spec fn marked(
    rows: Seq<EntryView>,
    id: u32,
    title: Seq<char>,
    subtitle: SubtitleView,
    now: i64,
) -> Seq<EntryView> {
    match subtitle.code {
        None => rows,
        Some(code) => inserted(
            rows,
            EntryView {
                id,
                title,
                code,
                name: subtitle.name,
                path: subtitle.path,
                processed_at: now,
            },
        ),
    }
}

/// Whether subtitle `j` of `record` still awaits processing: it can be acted
/// on and its pair is not recorded.
pub open spec fn pending(record: RecordView, j: int, rows: Seq<EntryView>) -> bool {
    record.subtitles[j].is_valid() && !has_key(rows, record.id, record.subtitles[j].code.unwrap())
}

/// A record counts as unprocessed unless it has subtitles that can be acted
/// on and every one of them is recorded.
pub open spec fn is_unprocessed(record: RecordView, rows: Seq<EntryView>) -> bool {
    !record.has_valid_subtitle() || exists|j: int|
        0 <= j < record.subtitles.len() && #[trigger] pending(record, j, rows)
}

/// The records of `records` that count as unprocessed, in their order.
pub open spec fn unprocessed<R: MediaRecord>(records: Seq<R>, rows: Seq<EntryView>) -> Seq<R> {
    records.filter(keeps_unprocessed(rows))
}

/// The test by which `unprocessed` keeps a record.
pub open spec fn keeps_unprocessed<R: MediaRecord>(rows: Seq<EntryView>) -> spec_fn(R) -> bool {
    |r: R| is_unprocessed(r.record(), rows)
}

/// The processed subtitles of one kind of media, in the order in which they
/// were recorded. No pair of media id and language code occurs twice.
pub struct ProcessedTable {
    rows: Vec<ProcessedEntry>,
}

impl View for ProcessedTable {
    type V = Seq<EntryView>;

    closed spec fn view(&self) -> Seq<EntryView> {
        entry_views(self.rows@)
    }
}

impl ProcessedTable {
    #[verifier::type_invariant]
    spec fn well_formed(self) -> bool {
        unique_keys(entry_views(self.rows@))
    }

    pub fn new() -> (table: Self)
        ensures
            table@ == Seq::<EntryView>::empty(),
    {
        let table = ProcessedTable { rows: Vec::new() };
        assert(table@ =~= Seq::<EntryView>::empty());
        table
    }

    /// The number of rows. The rows are known to have distinct keys.
    pub fn len(&self) -> (n: usize)
        ensures
            n == self@.len(),
            unique_keys(self@),
    {
        proof {
            use_type_invariant(self);
        }
        self.rows.len()
    }

    pub fn entry(&self, i: usize) -> (entry: &ProcessedEntry)
        requires
            i < self@.len(),
        ensures
            entry@ == self@[i as int],
    {
        &self.rows[i]
    }

    /// Whether the pair of `id` and `code` is recorded.
    pub fn contains(&self, id: u32, code: &String) -> (found: bool)
        ensures
            found == has_key(self@, id, code@),
    {
        let mut i: usize = 0;
        while i < self.rows.len()
            invariant
                i <= self.rows.len(),
                forall|k: int|
                    0 <= k < i ==> !((#[trigger] self@[k]).id == id && self@[k].code == code@),
            decreases self.rows.len() - i,
        {
            let row = &self.rows[i];
            if row.media_id == id && row.language_code == *code {
                assert(self@[i as int].id == id && self@[i as int].code == code@);
                return true;
            }
            i += 1;
        }
        false
    }

    /// Whether any language of the media item `id` is recorded.
    pub fn has_rows_for(&self, id: u32) -> (found: bool)
        ensures
            found == has_id(self@, id),
    {
        let mut i: usize = 0;
        while i < self.rows.len()
            invariant
                i <= self.rows.len(),
                forall|k: int| 0 <= k < i ==> (#[trigger] self@[k]).id != id,
            decreases self.rows.len() - i,
        {
            if self.rows[i].media_id == id {
                assert(self@[i as int].id == id);
                return true;
            }
            i += 1;
        }
        false
    }

    /// Records `entry` unless its pair of media id and language code is
    /// already there, in which case the earlier row stays as it is.
    pub fn insert_if_absent(&mut self, entry: ProcessedEntry) -> (created: bool)
        ensures
            created == !has_key(old(self)@, entry.media_id, entry.language_code@),
            final(self)@ == inserted(old(self)@, entry@),
            unique_keys(final(self)@),
    {
        proof {
            use_type_invariant(&*self);
        }
        if self.contains(entry.media_id, &entry.language_code) {
            return false;
        }
        let ghost before = self@;
        let mut rows: Vec<ProcessedEntry> = Vec::new();
        std::mem::swap(&mut rows, &mut self.rows);
        rows.push(entry);
        assert(entry_views(rows@) =~= before.push(entry@));
        self.rows = rows;
        true
    }
}


impl ProcessedTable {
    /// Whether `record` counts as unprocessed. A record without any row is
    /// settled at once; only the others are looked up subtitle by subtitle.
    pub fn is_record_unprocessed<R: MediaRecord>(&self, record: &R) -> (keep: bool)
        ensures
            keep == is_unprocessed(record.record(), self@),
    {
        let id = record.media_id();
        let subtitles = record.media_subtitles();
        let ghost view = record.record();
        if !self.has_rows_for(id) {
            proof {
                if view.has_valid_subtitle() {
                    let j = choose|j: int|
                        0 <= j < view.subtitles.len() && (#[trigger] view.subtitles[j]).is_valid();
                    assert(pending(view, j, self@));
                }
            }
            return true;
        }
        let mut any_valid = false;
        let mut j: usize = 0;
        while j < subtitles.len()
            invariant
                j <= subtitles.len(),
                view == record.record(),
                id == view.id,
                subtitle_views(subtitles@) == view.subtitles,
                any_valid == exists|k: int| 0 <= k < j && (#[trigger] view.subtitles[k]).is_valid(),
                forall|k: int| 0 <= k < j ==> !#[trigger] pending(view, k, self@),
            decreases subtitles.len() - j,
        {
            let subtitle = &subtitles[j];
            assert(view.subtitles[j as int] == subtitle@);
            if subtitle.is_valid() {
                any_valid = true;
                match &subtitle.audio_language_item.code2 {
                    Some(code) => {
                        if !self.contains(id, code) {
                            assert(view.subtitles.len() == subtitles@.len());
                            assert(pending(view, j as int, self@));
                            return true;
                        }
                    },
                    None => {},
                }
            }
            j += 1;
        }
        !any_valid
    }

    /// Keeps the records that count as unprocessed, in their order.
    pub fn filter_unprocessed<R: MediaRecord>(&self, records: Vec<R>) -> (kept: Vec<R>)
        ensures
            kept@ == unprocessed(records@, self@),
    {
        let ghost all = records@;
        let ghost rows = self@;
        let ghost keep = keeps_unprocessed::<R>(rows);
        let mut kept: Vec<R> = Vec::new();
        let mut rest = records;
        let mut stack: Vec<R> = Vec::new();
        // Turn the list over so that records come off the end in their order.
        while rest.len() > 0
            invariant
                rest@.len() + stack@.len() == all.len(),
                rest@ == all.take(rest@.len() as int),
                forall|k: int| 0 <= k < stack@.len() ==> stack@[k] == all[all.len() - 1 - k],
            decreases rest.len(),
        {
            let record = rest.pop().unwrap();
            stack.push(record);
            assert(rest@ =~= all.take(rest@.len() as int));
        }
        while stack.len() > 0
            invariant
                self@ == rows,
                keep == keeps_unprocessed::<R>(rows),
                stack@.len() <= all.len(),
                kept@ == all.take(all.len() - stack@.len()).filter(keep),
                forall|k: int| 0 <= k < stack@.len() ==> stack@[k] == all[all.len() - 1 - k],
            decreases stack.len(),
        {
            let ghost at = all.len() - stack@.len();
            let record = stack.pop().unwrap();
            proof {
                assert(record == all[at]);
                assert(all.take(at + 1) =~= all.take(at).push(record));
                filter_push(all.take(at), record, keep);
            }
            if self.is_record_unprocessed(&record) {
                kept.push(record);
            }
        }
        assert(all.take(all.len() as int) =~= all);
        kept
    }
}

impl ProcessedTable {
    /// Records that `subtitle` of the media item `id` was processed at time
    /// `now`. Nothing is recorded for a subtitle without a language code, nor
    /// for a pair that is already there.
    pub fn mark(&mut self, id: u32, title: String, subtitle: Subtitle, now: i64) -> (created: bool)
        ensures
            created == mark_creates(old(self)@, id, subtitle@),
            final(self)@ == marked(old(self)@, id, title@, subtitle@, now),
            unique_keys(final(self)@),
    {
        let Subtitle { path, audio_language_item } = subtitle;
        let AudioLanguageItem { name, code2 } = audio_language_item;
        match code2 {
            None => {
                proof {
                    use_type_invariant(&*self);
                }
                false
            },
            Some(language_code) => {
                let entry = ProcessedEntry {
                    media_id: id,
                    title,
                    language_code,
                    language_name: name,
                    path,
                    processed_at: now,
                };
                self.insert_if_absent(entry)
            },
        }
    }
}

/// The ledger of processed subtitles: one table for movies and one for
/// episodes.
pub struct DedupStore {
    pub movies: ProcessedTable,
    pub episodes: ProcessedTable,
}

impl DedupStore {
    /// A ledger with nothing recorded.
    pub fn new() -> (store: Self)
        ensures
            store.movies@ == Seq::<EntryView>::empty(),
            store.episodes@ == Seq::<EntryView>::empty(),
    {
        DedupStore { movies: ProcessedTable::new(), episodes: ProcessedTable::new() }
    }
}

pub fn is_movie_subtitle_processed(store: &DedupStore, radarr_id: u32, language_code: &String) -> (
    processed: bool
)
    ensures
        processed == has_key(store.movies@, radarr_id, language_code@),
{
    store.movies.contains(radarr_id, language_code)
}

pub fn is_episode_subtitle_processed(
    store: &DedupStore,
    sonarr_episode_id: u32,
    language_code: &String,
) -> (processed: bool)
    ensures
        processed == has_key(store.episodes@, sonarr_episode_id, language_code@),
{
    store.episodes.contains(sonarr_episode_id, language_code)
}

/// Records a processed episode subtitle. Returns whether a row was created:
/// not for a subtitle without a language code, and not for a pair that is
/// already recorded, whose row stays untouched.
pub fn mark_episode_subtitle_processed(
    store: &mut DedupStore,
    sonarr_episode_id: u32,
    title: String,
    subtitle: Subtitle,
    now: i64,
) -> (created: bool)
    ensures
        created == mark_creates(old(store).episodes@, sonarr_episode_id, subtitle@),
        final(store).episodes@ == marked(
            old(store).episodes@,
            sonarr_episode_id,
            title@,
            subtitle@,
            now,
        ),
        final(store).movies@ == old(store).movies@,
        unique_keys(final(store).episodes@),
{
    store.episodes.mark(sonarr_episode_id, title, subtitle, now)
}

/// Records a processed movie subtitle. Returns whether a row was created: not
/// for a subtitle without a language code, and not for a pair that is already
/// recorded, whose row stays untouched.
pub fn mark_movie_subtitle_processed(
    store: &mut DedupStore,
    radarr_id: u32,
    title: String,
    subtitle: Subtitle,
    now: i64,
) -> (created: bool)
    ensures
        created == mark_creates(old(store).movies@, radarr_id, subtitle@),
        final(store).movies@ == marked(old(store).movies@, radarr_id, title@, subtitle@, now),
        final(store).episodes@ == old(store).episodes@,
        unique_keys(final(store).movies@),
{
    store.movies.mark(radarr_id, title, subtitle, now)
}

/// Keeps the movies that count as unprocessed, in their order.
pub fn filter_unprocessed_movies(store: &DedupStore, movies: Vec<Movie>) -> (kept: Vec<Movie>)
    ensures
        kept@ == unprocessed(movies@, store.movies@),
{
    store.movies.filter_unprocessed(movies)
}

/// Keeps the episodes that count as unprocessed, in their order.
pub fn filter_unprocessed_episodes(store: &DedupStore, episodes: Vec<Episode>) -> (kept: Vec<
    Episode,
>)
    ensures
        kept@ == unprocessed(episodes@, store.episodes@),
{
    store.episodes.filter_unprocessed(episodes)
}

/// Marking records the pair of a subtitle that names a language, and keeps
/// every pair that was recorded before.
pub proof fn lemma_marked_keys(
    rows: Seq<EntryView>,
    id: u32,
    title: Seq<char>,
    subtitle: SubtitleView,
    now: i64,
)
    ensures
        subtitle.code is Some ==> has_key(
            marked(rows, id, title, subtitle, now),
            id,
            subtitle.code.unwrap(),
        ),
        forall|other: u32, code: Seq<char>|
            has_key(rows, other, code) ==> has_key(
                marked(rows, id, title, subtitle, now),
                other,
                code,
            ),
{
    let after = marked(rows, id, title, subtitle, now);
    if subtitle.code is Some && !has_key(rows, id, subtitle.code.unwrap()) {
        let last = rows.len() as int;
        assert(after[last].id == id && after[last].code == subtitle.code.unwrap());
    }
    assert forall|other: u32, code: Seq<char>| has_key(rows, other, code) implies has_key(
        after,
        other,
        code,
    ) by {
        let i = choose|i: int|
            0 <= i < rows.len() && (#[trigger] rows[i]).id == other && rows[i].code == code;
        assert(after[i] == rows[i]);
    }
}

/// Marking keeps the pairs of the rows distinct.
pub proof fn lemma_marked_unique(
    rows: Seq<EntryView>,
    id: u32,
    title: Seq<char>,
    subtitle: SubtitleView,
    now: i64,
)
    requires
        unique_keys(rows),
    ensures
        unique_keys(marked(rows, id, title, subtitle, now)),
{
    let after = marked(rows, id, title, subtitle, now);
    if subtitle.code is Some && !has_key(rows, id, subtitle.code.unwrap()) {
        let last = rows.len() as int;
        assert forall|i: int, j: int| 0 <= i < j < after.len() implies !((#[trigger] after[i]).id
            == (#[trigger] after[j]).id && after[i].code == after[j].code) by {
            if j == last {
                assert(rows[i] == after[i]);
            } else {
                assert(rows[i] == after[i] && rows[j] == after[j]);
            }
        }
    }
}

/// Marking the same pair of media id and language code a second time creates
/// no row and leaves every row, with its time stamp, as the first marking
/// left it; the pair is held by one row only.
pub proof fn lemma_mark_twice(
    rows: Seq<EntryView>,
    id: u32,
    first_title: Seq<char>,
    first: SubtitleView,
    first_now: i64,
    second_title: Seq<char>,
    second: SubtitleView,
    second_now: i64,
)
    requires
        unique_keys(rows),
        second.code == first.code,
    ensures
        ({
            let once = marked(rows, id, first_title, first, first_now);
            &&& !mark_creates(once, id, second)
            &&& marked(once, id, second_title, second, second_now) == once
            &&& unique_keys(once)
            &&& mark_creates(rows, id, first) ==> once == rows.push(
                EntryView {
                    id,
                    title: first_title,
                    code: first.code.unwrap(),
                    name: first.name,
                    path: first.path,
                    processed_at: first_now,
                },
            )
        }),
{
    lemma_marked_keys(rows, id, first_title, first, first_now);
    lemma_marked_unique(rows, id, first_title, first, first_now);
}

/// Where the ledger is kept on disk.
#[derive(Clone, Debug, PartialEq, Eq)]
pub enum DbLocation {
    /// The file that the caller named; its parent directory is made if need
    /// be.
    Given(String),
    /// The file `database.db` in the data directory that the environment
    /// names; the directory is made if need be.
    DataDir(String),
    /// The file `database.db` in the user's directory for application data;
    /// the directory is made if need be.
    UserDir(String),
}

/// Chooses where the ledger is kept: the path that the caller gave, else the
/// data directory that the environment names, else the user's directory for
/// application data. Without any of them there is no place for it.
pub fn get_db_path(
    custom_path: Option<String>,
    data_dir: Option<String>,
    user_dir: Option<String>,
) -> (location: Result<DbLocation, String>)
    ensures
        match custom_path {
            Some(path) => location == Ok::<DbLocation, String>(DbLocation::Given(path)),
            None => match data_dir {
                Some(dir) => location == Ok::<DbLocation, String>(DbLocation::DataDir(dir)),
                None => match user_dir {
                    Some(dir) => location == Ok::<DbLocation, String>(DbLocation::UserDir(dir)),
                    None => location matches Err(message) && message@
                        == "Failed to obtain a default database path"@,
                },
            },
        },
{
    if let Some(path) = custom_path {
        return Ok(DbLocation::Given(path));
    }
    if let Some(dir) = data_dir {
        return Ok(DbLocation::DataDir(dir));
    }
    match user_dir {
        Some(dir) => Ok(DbLocation::UserDir(dir)),
        None => Err("Failed to obtain a default database path".to_owned()),
    }
}

/// Filtering a sequence with one more item at its end filters the sequence
/// and then decides on the item.
pub proof fn filter_push<A>(items: Seq<A>, item: A, keep: spec_fn(A) -> bool)
    ensures
        items.push(item).filter(keep) == if keep(item) {
            items.filter(keep).push(item)
        } else {
            items.filter(keep)
        },
{
    reveal(Seq::filter);
    assert(items.push(item).drop_last() =~= items);
}

} // verus!
