use vstd::prelude::*;

use crate::cli::ActionCommands;
use crate::data_types::request::{plain_payload, ActionPayload};
use crate::data_types::response::{
    text_of, Episode, MediaRecord, Movie, RecordView, SubtitleView, TVShow,
};
use crate::db::{
    filter_unprocessed_episodes, filter_unprocessed_movies, has_key, is_unprocessed,
    keeps_unprocessed, lemma_marked_keys, mark_creates, marked, pending, unprocessed, DedupStore,
    EntryView, ProcessedTable,
};

verus! {

/// Whether a subtitle's language code passes the language filter: without a
/// filter every subtitle passes, with one only a subtitle of that language.
pub open spec fn matches_language(filter: Option<Seq<char>>, code: Option<Seq<char>>) -> bool {
    match filter {
        None => true,
        Some(language) => code == Some(language),
    }
}

/// Whether a request is sent for the subtitle: it can be acted on and passes
/// the language filter.
pub open spec fn dispatchable(subtitle: SubtitleView, filter: Option<Seq<char>>) -> bool {
    subtitle.is_valid() && matches_language(filter, subtitle.code)
}

/// The views of a sequence of records, in the same order.
pub open spec fn record_views<R: MediaRecord>(records: Seq<R>) -> Seq<RecordView> {
    Seq::new(records.len(), |i: int| records[i].record())
}

/// The subtitles for which a request is still to be sent, as pairs of a
/// record's index and a subtitle's index, when the run stands at subtitle `j`
/// of record `i`: record by record, and within a record in the order of its
/// subtitles.
pub open spec fn targets_from(
    records: Seq<RecordView>,
    filter: Option<Seq<char>>,
    i: int,
    j: int,
) -> Seq<(int, int)>
    decreases records.len() - i, (if 0 <= i < records.len() { records[i].subtitles.len() - j } else { 0 }),
{
    if i < 0 || j < 0 || i >= records.len() {
        Seq::empty()
    } else if j >= records[i].subtitles.len() {
        targets_from(records, filter, i + 1, 0)
    } else if dispatchable(records[i].subtitles[j], filter) {
        seq![(i, j)] + targets_from(records, filter, i, j + 1)
    } else {
        targets_from(records, filter, i, j + 1)
    }
}

/// What a run is to do and on which records.
#[derive(Clone, Debug, PartialEq, Eq)]
pub struct Action {
    pub base_url: String,
    pub action: ActionCommands,
    pub ids: Vec<u32>,
    pub offset: u32,
    pub limit: Option<u32>,
    pub skip_processed: bool,
    pub language_code: Option<String>,
}

impl Action {
    /// A run on every record, with the OCR fixes as its action, until the
    /// caller says otherwise.
    pub fn new(base_url: String) -> (action: Self)
        ensures
            action.base_url == base_url,
            action.action == ActionCommands::OCRFixes,
            action.ids@.len() == 0,
            action.offset == 0,
            action.limit is None,
            !action.skip_processed,
            action.language_code is None,
    {
        Action {
            base_url,
            action: ActionCommands::OCRFixes,
            ids: Vec::new(),
            offset: 0,
            limit: None,
            skip_processed: false,
            language_code: None,
        }
    }

    /// The language filter as the contracts speak of it.
    pub open spec fn language(&self) -> Option<Seq<char>> {
        text_of(self.language_code)
    }

    /// Whether a subtitle's language code passes the language filter.
    pub fn matches_language_filter(&self, subtitle_code: Option<&String>) -> (passes: bool)
        ensures
            passes == matches_language(
                self.language(),
                match subtitle_code {
                    Some(code) => Some(code@),
                    None => None,
                },
            ),
    {
        match (&self.language_code, subtitle_code) {
            (Some(language), Some(code)) => *language == *code,
            (Some(_), None) => false,
            (None, _) => true,
        }
    }
}

/// The records of a run and the place where it stands: subtitle `subtitle`
/// of record `record` is the next to look at.
#[derive(Debug)]
pub struct Run<R> {
    pub records: Vec<R>,
    pub record: usize,
    pub subtitle: usize,
    /// How many fetched records were left out as already processed.
    pub skipped: usize,
    /// Whether the run was stopped because the connection was lost.
    pub halted: bool,
}

/// How the service answered a request, as far as the run is concerned.
#[derive(Clone, Debug, PartialEq, Eq)]
pub enum DispatchOutcome {
    /// The service answered with this status and body.
    Completed { status: u16, body: String },
    /// The service was reached, but no answer came of it, even after the
    /// retries.
    Unanswered { message: String },
    /// No connection to the service could be made.
    ConnectionFailed { message: String },
}

/// What became of the request for subtitle `subtitle` of record `record`.
#[derive(Clone, Debug, PartialEq, Eq)]
pub enum Verdict {
    /// The service accepted the request; `created` says whether the ledger
    /// gained a row.
    Succeeded { record: usize, subtitle: usize, created: bool },
    /// The service refused the request; the run goes on with the next
    /// subtitle.
    Failed { record: usize, subtitle: usize, status: u16, body: String },
    /// No answer came; the run goes on with the next subtitle.
    Unanswered { record: usize, subtitle: usize, message: String },
    /// The connection is lost; the run must stop.
    Disconnected { message: String },
    /// No request was awaited.
    Idle,
}

impl Verdict {
    /// Whether the run must stop: only a lost connection is fatal.
    pub fn is_fatal(&self) -> (fatal: bool)
        ensures
            fatal == (*self is Disconnected),
    {
        match self {
            Verdict::Disconnected { .. } => true,
            _ => false,
        }
    }
}

/// Whether a status code reports success.
pub open spec fn is_success(status: u16) -> bool {
    200 <= status < 300
}

/// What a run found when it started.
#[derive(Clone, Copy, Debug, PartialEq, Eq, Structural)]
pub struct PageSummary {
    /// How many records the run works on; with none there is nothing to do.
    pub records: usize,
    /// How many fetched records were left out as already processed.
    pub skipped: usize,
}

/// What a run does next.
#[derive(Clone, Debug, PartialEq, Eq)]
pub enum Step {
    /// Send this request body for subtitle `subtitle` of record `record`.
    Dispatch { record: usize, subtitle: usize, payload: ActionPayload },
    /// Nothing is left to send.
    Finished,
    /// The connection was lost: nothing more is sent.
    Halted,
}

impl<R: MediaRecord> Run<R> {
    /// The subtitles for which this run still has a request to send.
    pub open spec fn remaining(&self, filter: Option<Seq<char>>) -> Seq<(int, int)> {
        targets_from(record_views(self.records@), filter, self.record as int, self.subtitle as int)
    }

    /// What the run found when it started.
    pub fn summary(&self) -> (summary: PageSummary)
        ensures
            summary == (PageSummary { records: self.records@.len() as usize, skipped: self.skipped }),
    {
        PageSummary { records: self.records.len(), skipped: self.skipped }
    }

    /// Moves to the next subtitle for which a request is to be sent, and
    /// gives that request's body. Subtitles that cannot be acted on, and
    /// those that the language filter leaves out, are passed over. A run that
    /// was stopped stays where it is and sends nothing.
    pub fn next(&mut self, action: &Action) -> (step: Step)
        ensures
            final(self).records == old(self).records,
            final(self).skipped == old(self).skipped,
            final(self).halted == old(self).halted,
            final(self).remaining(action.language()) == old(self).remaining(action.language()),
            match step {
                Step::Halted => old(self).halted && *final(self) == *old(self),
                Step::Finished => !old(self).halted && old(self).remaining(
                    action.language(),
                ).len() == 0,
                Step::Dispatch { record, subtitle, payload } => {
                    &&& !old(self).halted
                    &&& old(self).remaining(action.language()).len() > 0
                    &&& old(self).remaining(action.language())[0] == (record as int, subtitle as int)
                    &&& final(self).record == record
                    &&& final(self).subtitle == subtitle
                    &&& record < old(self).records@.len()
                    &&& subtitle < old(self).records@[record as int].record().subtitles.len()
                    &&& dispatchable(
                        old(self).records@[record as int].record().subtitles[subtitle as int],
                        action.language(),
                    )
                    &&& payload@ == plain_payload(
                        old(self).records@[record as int].record().id,
                        old(self).records@[record as int].kind(),
                        old(self).records@[record as int].record().subtitles[subtitle as int],
                    )
                },
            },
    {
        if self.halted {
            return Step::Halted;
        }
        let ghost views = record_views(self.records@);
        let ghost filter = action.language();
        let mut i: usize = self.record;
        let mut j: usize = self.subtitle;
        let mut found: Option<ActionPayload> = None;
        while found.is_none() && i < self.records.len()
            invariant
                *self == *old(self),
                views == record_views(self.records@),
                filter == action.language(),
                targets_from(views, filter, i as int, j as int) == old(self).remaining(filter),
                match found {
                    None => true,
                    Some(payload) => {
                        &&& i < self.records@.len()
                        &&& j < views[i as int].subtitles.len()
                        &&& dispatchable(views[i as int].subtitles[j as int], filter)
                        &&& payload@ == plain_payload(
                            views[i as int].id,
                            self.records@[i as int].kind(),
                            views[i as int].subtitles[j as int],
                        )
                    },
                },
            decreases
                    if found is Some { 0int } else { 1int },
                    self.records.len() - i,
                    (if i < self.records.len() {
                        views[i as int].subtitles.len() - j
                    } else {
                        0
                    }),
        {
            let record = &self.records[i];
            let subtitles = record.media_subtitles();
            assert(views[i as int] == record.record());
            if j >= subtitles.len() {
                i += 1;
                j = 0;
            } else {
                let subtitle = &subtitles[j];
                assert(views[i as int].subtitles[j as int] == subtitle@);
                if subtitle.is_valid() && action.matches_language_filter(
                    subtitle.audio_language_item.code2.as_ref(),
                ) {
                    found = Some(ActionPayload::new(record.media_id(), record.kind_name(), subtitle));
                } else {
                    j += 1;
                }
            }
        }
        self.record = i;
        self.subtitle = j;
        match found {
            Some(payload) => Step::Dispatch { record: i, subtitle: j, payload },
            None => Step::Finished,
        }
    }
}

/// How a run and the rows of its table change when the answer `outcome`
/// arrives at time `now`, and what is reported. A run that was stopped, or
/// has nothing left to send, awaits no answer. Otherwise the answer belongs to the first remaining
/// subtitle: a success records it and the run moves on; a refusal or a
/// missing answer records nothing and the run moves on; a lost connection
/// records nothing and stops the run where it stands.
pub open spec fn settled<R: MediaRecord>(
    before: Run<R>,
    after: Run<R>,
    filter: Option<Seq<char>>,
    rows_before: Seq<EntryView>,
    rows_after: Seq<EntryView>,
    outcome: DispatchOutcome,
    now: i64,
    verdict: Verdict,
) -> bool {
    let rest = before.remaining(filter);
    &&& after.records == before.records
    &&& after.skipped == before.skipped
    &&& if before.halted {
        &&& verdict == Verdict::Idle
        &&& rows_after == rows_before
        &&& after == before
    } else if rest.len() == 0 {
        &&& verdict == Verdict::Idle
        &&& rows_after == rows_before
        &&& !after.halted
        &&& after.remaining(filter).len() == 0
    } else {
        let record = before.records@[rest[0].0].record();
        let subtitle = record.subtitles[rest[0].1];
        match outcome {
            DispatchOutcome::ConnectionFailed { message } => {
                &&& verdict == Verdict::Disconnected { message }
                &&& rows_after == rows_before
                &&& after.halted
                &&& after.remaining(filter) == rest
            },
            DispatchOutcome::Unanswered { message } => {
                &&& !after.halted
                &&& verdict == Verdict::Unanswered {
                    record: rest[0].0 as usize,
                    subtitle: rest[0].1 as usize,
                    message,
                }
                &&& rows_after == rows_before
                &&& after.remaining(filter) == rest.skip(1)
            },
            DispatchOutcome::Completed { status, body } => {
                &&& !after.halted
                &&& after.remaining(filter) == rest.skip(1)
                &&& if is_success(status) {
                    &&& verdict == Verdict::Succeeded {
                        record: rest[0].0 as usize,
                        subtitle: rest[0].1 as usize,
                        created: mark_creates(rows_before, record.id, subtitle),
                    }
                    &&& rows_after == marked(rows_before, record.id, record.title, subtitle, now)
                } else {
                    &&& verdict == Verdict::Failed {
                        record: rest[0].0 as usize,
                        subtitle: rest[0].1 as usize,
                        status,
                        body,
                    }
                    &&& rows_after == rows_before
                }
            },
        }
    }
}

impl<R: MediaRecord> Run<R> {
    /// Takes in the answer to the request for the subtitle at which the run
    /// stands. On success the subtitle is recorded in `table` and the run
    /// moves on; on a refusal or a missing answer nothing is recorded and the
    /// run moves on; on a lost connection nothing is recorded and the run is
    /// stopped where it stands.
    pub fn settle(
        &mut self,
        action: &Action,
        table: &mut ProcessedTable,
        outcome: DispatchOutcome,
        now: i64,
    ) -> (verdict: Verdict)
        ensures
            settled(
                *old(self),
                *final(self),
                action.language(),
                old(table)@,
                final(table)@,
                outcome,
                now,
                verdict,
            ),
    {
        let ghost filter = action.language();
        let ghost views = record_views(self.records@);
        let ghost rest = self.remaining(filter);
        match self.next(action) {
            Step::Halted => Verdict::Idle,
            Step::Finished => Verdict::Idle,
            Step::Dispatch { record, subtitle, payload: _ } => {
                match outcome {
                    DispatchOutcome::ConnectionFailed { message } => {
                        self.halted = true;
                        Verdict::Disconnected { message }
                    },
                    DispatchOutcome::Unanswered { message } => {
                        proof {
                            assert(targets_from(views, filter, record as int, subtitle as int)
                                == rest);
                            assert(rest.skip(1) =~= targets_from(
                                views,
                                filter,
                                record as int,
                                subtitle + 1,
                            ));
                        }
                        let count = self.records[record].media_subtitles().len();
                        assert(views[record as int].subtitles.len() == count);
                        self.subtitle = subtitle + 1;
                        Verdict::Unanswered { record, subtitle, message }
                    },
                    DispatchOutcome::Completed { status, body } => {
                        proof {
                            assert(targets_from(views, filter, record as int, subtitle as int)
                                == rest);
                            assert(rest.skip(1) =~= targets_from(
                                views,
                                filter,
                                record as int,
                                subtitle + 1,
                            ));
                        }
                        let count = self.records[record].media_subtitles().len();
                        assert(views[record as int].subtitles.len() == count);
                        self.subtitle = subtitle + 1;
                        if 200 <= status && status < 300 {
                            let entry = &self.records[record];
                            let title = entry.media_title().clone();
                            let subtitles = entry.media_subtitles();
                            let done = subtitles[subtitle].clone();
                            assert(views[record as int].subtitles[subtitle as int] == done@);
                            let created = table.mark(entry.media_id(), title, done, now);
                            Verdict::Succeeded { record, subtitle, created }
                        } else {
                            Verdict::Failed { record, subtitle, status, body }
                        }
                    },
                }
            },
        }
    }
}

/// The shows of a run on episodes and the show that comes next.
#[derive(Debug)]
pub struct ShowRun {
    pub shows: Vec<TVShow>,
    pub show: usize,
}

impl ShowRun {
    /// The index of the show whose episodes are to be fetched next, if any
    /// show is left.
    pub fn next(&mut self) -> (show: Option<usize>)
        ensures
            final(self).shows == old(self).shows,
            old(self).show < old(self).shows@.len() ==> show == Some(old(self).show)
                && final(self).show == old(self).show + 1,
            old(self).show >= old(self).shows@.len() ==> show is None && final(self).show == old(
                self,
            ).show,
    {
        if self.show < self.shows.len() {
            let show = self.show;
            self.show = show + 1;
            Some(show)
        } else {
            None
        }
    }
}

impl Action {
    /// Starts a run on the movies that were fetched. Where processed movies
    /// are to be skipped, those whose subtitles are all recorded are left
    /// out. A run without records has nothing to send.
    pub fn movies(&self, store: &DedupStore, movies: Vec<Movie>) -> (run: Run<Movie>)
        ensures
            run.records@ == if self.skip_processed {
                unprocessed(movies@, store.movies@)
            } else {
                movies@
            },
            run.record == 0,
            run.subtitle == 0,
            !run.halted,
            run.skipped == movies@.len() - run.records@.len(),
    {
        let fetched = movies.len();
        let records = if self.skip_processed {
            proof {
                movies@.lemma_filter_len(keeps_unprocessed::<Movie>(store.movies@));
            }
            filter_unprocessed_movies(store, movies)
        } else {
            movies
        };
        let skipped = fetched - records.len();
        Run { records, record: 0, subtitle: 0, skipped, halted: false }
    }

    /// Starts a run on the episodes that were fetched for one show, as
    /// `movies` does on movies.
    pub fn episodes(&self, store: &DedupStore, episodes: Vec<Episode>) -> (run: Run<Episode>)
        ensures
            run.records@ == if self.skip_processed {
                unprocessed(episodes@, store.episodes@)
            } else {
                episodes@
            },
            run.record == 0,
            run.subtitle == 0,
            !run.halted,
            run.skipped == episodes@.len() - run.records@.len(),
    {
        let fetched = episodes.len();
        let records = if self.skip_processed {
            proof {
                episodes@.lemma_filter_len(keeps_unprocessed::<Episode>(store.episodes@));
            }
            filter_unprocessed_episodes(store, episodes)
        } else {
            episodes
        };
        let skipped = fetched - records.len();
        Run { records, record: 0, subtitle: 0, skipped, halted: false }
    }

    /// Starts a run on the shows that were fetched: their episodes are
    /// fetched and processed show by show, in the order of the list.
    pub fn tv_shows(&self, shows: Vec<TVShow>) -> (run: ShowRun)
        ensures
            run.shows == shows,
            run.show == 0,
    {
        ShowRun { shows, show: 0 }
    }

    /// Takes in the answer to the request for the movie subtitle at which
    /// `run` stands; a success is recorded among the movies of `store`.
    pub fn process_movie_subtitle(
        &self,
        store: &mut DedupStore,
        run: &mut Run<Movie>,
        outcome: DispatchOutcome,
        now: i64,
    ) -> (verdict: Verdict)
        ensures
            final(store).episodes@ == old(store).episodes@,
            settled(*old(run), *final(run), self.language(), old(store).movies@, final(store).movies@, outcome, now, verdict),
    {
        run.settle(self, &mut store.movies, outcome, now)
    }

    /// Takes in the answer to the request for the episode subtitle at which
    /// `run` stands; a success is recorded among the episodes of `store`.
    pub fn process_episode_subtitle(
        &self,
        store: &mut DedupStore,
        run: &mut Run<Episode>,
        outcome: DispatchOutcome,
        now: i64,
    ) -> (verdict: Verdict)
        ensures
            final(store).movies@ == old(store).movies@,
            settled(*old(run), *final(run), self.language(), old(store).episodes@, final(store).episodes@, outcome, now, verdict),
    {
        run.settle(self, &mut store.episodes, outcome, now)
    }
}

/// Whether `target` names a subtitle of `records` for which a request is
/// sent: it can be acted on and passes the language filter.
pub open spec fn is_target(
    records: Seq<RecordView>,
    filter: Option<Seq<char>>,
    target: (int, int),
) -> bool {
    &&& 0 <= target.0 < records.len()
    &&& 0 <= target.1 < records[target.0].subtitles.len()
    &&& dispatchable(records[target.0].subtitles[target.1], filter)
}

/// Every subtitle for which a request is still to be sent can be acted on
/// and passes the language filter.
pub proof fn lemma_targets_sound(
    records: Seq<RecordView>,
    filter: Option<Seq<char>>,
    i: int,
    j: int,
)
    ensures
        forall|k: int|
            0 <= k < targets_from(records, filter, i, j).len() ==> is_target(
                records,
                filter,
                #[trigger] targets_from(records, filter, i, j)[k],
            ),
    decreases records.len() - i, (if 0 <= i < records.len() { records[i].subtitles.len() - j } else { 0 }),
{
    let here = targets_from(records, filter, i, j);
    if i < 0 || j < 0 || i >= records.len() {
        assert(here.len() == 0);
    } else if j >= records[i].subtitles.len() {
        lemma_targets_sound(records, filter, i + 1, 0);
        assert(here == targets_from(records, filter, i + 1, 0));
    } else {
        lemma_targets_sound(records, filter, i, j + 1);
        let rest = targets_from(records, filter, i, j + 1);
        assert forall|k: int| 0 <= k < here.len() implies is_target(
            records,
            filter,
            #[trigger] here[k],
        ) by {
            if dispatchable(records[i].subtitles[j], filter) {
                if k > 0 {
                    assert(here[k] == rest[k - 1]);
                }
            } else {
                assert(here[k] == rest[k]);
            }
        }
    }
}

/// A request is sent for every subtitle at or after the place where the run
/// stands that can be acted on and passes the language filter.
pub proof fn lemma_targets_complete(
    records: Seq<RecordView>,
    filter: Option<Seq<char>>,
    i: int,
    j: int,
    a: int,
    b: int,
)
    requires
        0 <= i,
        0 <= j,
        i < a || (i == a && j <= b),
        a < records.len(),
        0 <= b < records[a].subtitles.len(),
        dispatchable(records[a].subtitles[b], filter),
    ensures
        targets_from(records, filter, i, j).contains((a, b)),
    decreases records.len() - i, (if 0 <= i < records.len() { records[i].subtitles.len() - j } else { 0 }),
{
    let here = targets_from(records, filter, i, j);
    if j >= records[i].subtitles.len() {
        lemma_targets_complete(records, filter, i + 1, 0, a, b);
    } else if i == a && j == b {
        assert(here[0] == (a, b));
    } else {
        lemma_targets_complete(records, filter, i, j + 1, a, b);
        let rest = targets_from(records, filter, i, j + 1);
        let k = choose|k: int| 0 <= k < rest.len() && rest[k] == (a, b);
        if dispatchable(records[i].subtitles[j], filter) {
            assert(here[k + 1] == (a, b));
        } else {
            assert(here[k] == (a, b));
        }
    }
}

/// No request is sent for a subtitle that lacks a path or a language code,
/// wherever the run stands and whatever the language filter is.
pub proof fn lemma_invalid_never_dispatched(
    records: Seq<RecordView>,
    filter: Option<Seq<char>>,
    i: int,
    j: int,
    a: int,
    b: int,
)
    requires
        0 <= a < records.len(),
        0 <= b < records[a].subtitles.len(),
        !records[a].subtitles[b].is_valid(),
    ensures
        !targets_from(records, filter, i, j).contains((a, b)),
{
    lemma_targets_sound(records, filter, i, j);
}

/// The rows of a table after every request of `targets` has succeeded in
/// turn, request `k` at time `times[k]`.
pub open spec fn rows_after(
    records: Seq<RecordView>,
    targets: Seq<(int, int)>,
    rows: Seq<EntryView>,
    times: Seq<i64>,
) -> Seq<EntryView>
    decreases targets.len(),
{
    if targets.len() == 0 {
        rows
    } else {
        let target = targets.last();
        marked(
            rows_after(records, targets.drop_last(), rows, times),
            records[target.0].id,
            records[target.0].title,
            records[target.0].subtitles[target.1],
            times[targets.len() - 1],
        )
    }
}

/// After the requests of `targets` have succeeded, the pair of each of them
/// that names a language is recorded, and so is every pair recorded before.
pub proof fn lemma_rows_after_keys(
    records: Seq<RecordView>,
    targets: Seq<(int, int)>,
    rows: Seq<EntryView>,
    times: Seq<i64>,
)
    ensures
        forall|id: u32, code: Seq<char>|
            has_key(rows, id, code) ==> has_key(rows_after(records, targets, rows, times), id, code),
        forall|k: int|
            0 <= k < targets.len() && records[(#[trigger] targets[k]).0].subtitles[targets[k].1].code
                is Some ==> has_key(
                rows_after(records, targets, rows, times),
                records[targets[k].0].id,
                records[targets[k].0].subtitles[targets[k].1].code.unwrap(),
            ),
    decreases targets.len(),
{
    if targets.len() > 0 {
        let target = targets.last();
        let earlier = targets.drop_last();
        let before = rows_after(records, earlier, rows, times);
        lemma_rows_after_keys(records, earlier, rows, times);
        lemma_marked_keys(
            before,
            records[target.0].id,
            records[target.0].title,
            records[target.0].subtitles[target.1],
            times[targets.len() - 1],
        );
        assert forall|k: int|
            0 <= k < targets.len() && records[(#[trigger] targets[k]).0].subtitles[targets[k].1].code
                is Some implies has_key(
            rows_after(records, targets, rows, times),
            records[targets[k].0].id,
            records[targets[k].0].subtitles[targets[k].1].code.unwrap(),
        ) by {
            if k < targets.len() - 1 {
                assert(earlier[k] == targets[k]);
            }
        }
    }
}

/// The rows after a series of successful requests are those after the first
/// request, carried through the rest of the series: what `rows_after` gives
/// is what marking request by request gives.
pub proof fn lemma_rows_after_first(
    records: Seq<RecordView>,
    targets: Seq<(int, int)>,
    rows: Seq<EntryView>,
    times: Seq<i64>,
)
    requires
        targets.len() > 0,
        times.len() == targets.len(),
    ensures
        rows_after(records, targets, rows, times) == rows_after(
            records,
            targets.skip(1),
            marked(
                rows,
                records[targets[0].0].id,
                records[targets[0].0].title,
                records[targets[0].0].subtitles[targets[0].1],
                times[0],
            ),
            times.skip(1),
        ),
    decreases targets.len(),
{
    let rest = targets.skip(1);
    let once = marked(
        rows,
        records[targets[0].0].id,
        records[targets[0].0].title,
        records[targets[0].0].subtitles[targets[0].1],
        times[0],
    );
    if rest.len() == 0 {
        assert(targets.drop_last() =~= Seq::<(int, int)>::empty());
        assert(rows_after(records, targets.drop_last(), rows, times) == rows);
    } else {
        let earlier = targets.drop_last();
        lemma_rows_after_first(records, earlier, rows, times.drop_last());
        assert(earlier.skip(1) =~= rest.drop_last());
        assert(times.drop_last().skip(1) =~= times.skip(1).drop_last());
        assert(times.drop_last()[0] == times[0]);
        lemma_rows_after_times(records, earlier, rows, times, times.drop_last());
        lemma_rows_after_times(
            records,
            rest.drop_last(),
            once,
            times.skip(1),
            times.skip(1).drop_last(),
        );
    }
}

/// The rows after a series of successful requests depend on the times of
/// those requests only.
pub proof fn lemma_rows_after_times(
    records: Seq<RecordView>,
    targets: Seq<(int, int)>,
    rows: Seq<EntryView>,
    times: Seq<i64>,
    other: Seq<i64>,
)
    requires
        forall|k: int| 0 <= k < targets.len() ==> times[k] == other[k],
    ensures
        rows_after(records, targets, rows, times) == rows_after(records, targets, rows, other),
    decreases targets.len(),
{
    if targets.len() > 0 {
        lemma_rows_after_times(records, targets.drop_last(), rows, times, other);
    }
}

/// A second run sends nothing. Take a run that skips processed records, on
/// records fetched from an inventory in which the language filter passes
/// every subtitle that can be acted on (as it does where there is no
/// filter), and let each of its requests succeed. A run of the same kind on
/// the same inventory, against the rows that the first run left, has no
/// request to send.
pub proof fn lemma_second_run_sends_nothing<R: MediaRecord>(
    records: Seq<R>,
    filter: Option<Seq<char>>,
    rows: Seq<EntryView>,
    times: Seq<i64>,
)
    requires
        forall|i: int, j: int|
            0 <= i < records.len() && 0 <= j < records[i].record().subtitles.len()
                && (#[trigger] records[i].record().subtitles[j]).is_valid() ==> matches_language(
                filter,
                records[i].record().subtitles[j].code,
            ),
    ensures
        ({
            let first = record_views(unprocessed(records, rows));
            let left = rows_after(first, targets_from(first, filter, 0, 0), rows, times);
            targets_from(record_views(unprocessed(records, left)), filter, 0, 0).len() == 0
        }),
{
    let kept = unprocessed(records, rows);
    let first = record_views(kept);
    let plan = targets_from(first, filter, 0, 0);
    let left = rows_after(first, plan, rows, times);
    let again = unprocessed(records, left);
    let second = record_views(again);
    lemma_rows_after_keys(first, plan, rows, times);
    lemma_targets_sound(second, filter, 0, 0);
    if targets_from(second, filter, 0, 0).len() > 0 {
        let target = targets_from(second, filter, 0, 0)[0];
        let record = again[target.0];
        let view = record.record();
        assert(second[target.0] == view);
        assert(view.subtitles[target.1].is_valid());
        assert(view.has_valid_subtitle());
        records.lemma_filter_pred(keeps_unprocessed::<R>(left), target.0);
        assert(is_unprocessed(view, left));
        let j = choose|j: int| 0 <= j < view.subtitles.len() && #[trigger] pending(view, j, left);
        let code = view.subtitles[j].code.unwrap();
        if is_unprocessed(view, rows) {
            assert(again.contains(record));
            records.lemma_filter_contains_rev(keeps_unprocessed::<R>(left), record);
            let at = choose|at: int| 0 <= at < records.len() && records[at] == record;
            assert(matches_language(filter, records[at].record().subtitles[j].code));
            records.lemma_filter_contains(keeps_unprocessed::<R>(rows), at);
            let a = choose|a: int| 0 <= a < kept.len() && kept[a] == record;
            assert(first[a] == view);
            lemma_targets_complete(first, filter, 0, 0, a, j);
            let k = choose|k: int| 0 <= k < plan.len() && plan[k] == (a, j);
            assert(has_key(left, view.id, code));
        } else {
            assert(!pending(view, j, rows));
            assert(has_key(rows, view.id, code));
        }
    }
}

} // verus!
