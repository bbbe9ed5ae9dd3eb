use vstd::prelude::*;
use vstd::string::StringExecFns;

use crate::actions::Action;
use crate::cli::ActionCommands;
use crate::data_types::request::{copy_text, ActionPayload, PayloadView};
use crate::data_types::response::text_of;
use crate::text::{decimal, decimal_text};
use crate::urls::{paired, push_path_segment, push_query_pair, pushed, queried, set_query};

verus! {

/// One parameter of a query: its name and its value.
#[derive(Clone, Debug, PartialEq, Eq)]
pub struct QueryPair {
    pub name: String,
    pub value: String,
}

impl View for QueryPair {
    type V = (Seq<char>, Seq<char>);

    open spec fn view(&self) -> (Seq<char>, Seq<char>) {
        (self.name@, self.value@)
    }
}

/// The views of a sequence of query parameters, in the same order.
pub open spec fn pair_views(pairs: Seq<QueryPair>) -> Seq<(Seq<char>, Seq<char>)> {
    Seq::new(pairs.len(), |k: int| pairs[k]@)
}

/// The number that stands for "no limit" when only an offset is given.
pub open spec fn length_of(limit: Option<u32>) -> nat {
    match limit {
        Some(n) => n as nat,
        None => u32::MAX as nat,
    }
}

/// The query parameters that restrict a list request. Identifiers, where
/// there are any, are sent one parameter each under the name `param`, and
/// offset and limit are left out. Otherwise a limit or an offset above zero
/// is sent as `length` and `start`. Otherwise nothing is sent.
pub open spec fn query_pairs(param: Seq<char>, ids: Seq<u32>, offset: u32, limit: Option<u32>) -> Seq<
    (Seq<char>, Seq<char>),
> {
    if ids.len() > 0 {
        Seq::new(ids.len(), |k: int| (param, decimal(ids[k] as nat)))
    } else if limit is Some || offset > 0 {
        seq![("length"@, decimal(length_of(limit))), ("start"@, decimal(offset as nat))]
    } else {
        Seq::empty()
    }
}

/// `url` with the parameters of `pairs` appended to its query one after the
/// other, or nothing as soon as one of them cannot be appended.
pub open spec fn with_pairs(url: Option<Seq<char>>, pairs: Seq<(Seq<char>, Seq<char>)>) -> Option<
    Seq<char>,
>
    decreases pairs.len(),
{
    if pairs.len() == 0 {
        url
    } else {
        match with_pairs(url, pairs.drop_last()) {
            Some(so_far) => paired(so_far, pairs.last().0, pairs.last().1),
            None => None,
        }
    }
}

/// The address to which a request for the action `code` goes: the path
/// `subtitles` below `base`, with the action as a query parameter.
pub open spec fn request_url(base: Seq<char>, code: Seq<char>) -> Option<Seq<char>> {
    match pushed(base, "subtitles"@) {
        Some(url) => paired(url, "action"@, code),
        None => None,
    }
}

/// The address of a list below `base`, restricted by `pairs`.
pub open spec fn list_url(base: Seq<char>, list: Seq<char>, pairs: Seq<(Seq<char>, Seq<char>)>) -> Option<
    Seq<char>,
> {
    with_pairs(pushed(base, list), pairs)
}

/// The address of the episodes of the show `series_id` below `base`.
pub open spec fn episode_list_url(base: Seq<char>, series_id: u32) -> Option<Seq<char>> {
    match pushed(base, "episodes"@) {
        Some(url) => queried(url, "seriesid[]="@ + decimal(series_id as nat)),
        None => None,
    }
}

/// The request body with the options of the action: those of a sync are
/// filled in, any other action leaves the body as it is.
pub open spec fn with_options(payload: PayloadView, action: ActionCommands) -> PayloadView {
    match action {
        ActionCommands::Sync(options) => PayloadView {
            reference: text_of(options.reference),
            max_offset_seconds: options.max_offset_seconds,
            no_fix_framerate: Some(options.no_fix_framerate),
            gss: Some(options.gss),
            ..payload
        },
        _ => payload,
    }
}

/// A request to the service: where it goes and what its body holds.
#[derive(Clone, Debug, PartialEq, Eq)]
pub struct DispatchRequest {
    pub url: String,
    pub payload: ActionPayload,
}

/// Appends the parameters of `pairs` to the query of `url`, in their order.
pub fn append_pairs(url: &str, pairs: &Vec<QueryPair>) -> (result: Option<String>)
    ensures
        text_of(result) == with_pairs(Some(url@), pair_views(pairs@)),
{
    let ghost all = pair_views(pairs@);
    let mut current: Option<String> = Some(url.to_owned());
    let mut k: usize = 0;
    while k < pairs.len()
        invariant
            k <= pairs.len(),
            all == pair_views(pairs@),
            text_of(current) == with_pairs(Some(url@), all.take(k as int)),
        decreases pairs.len() - k,
    {
        let pair = &pairs[k];
        proof {
            assert(all.take(k + 1).drop_last() =~= all.take(k as int));
            assert(all.take(k + 1).last() == pair@);
        }
        current = match current {
            Some(so_far) => push_query_pair(so_far.as_str(), pair.name.as_str(), pair.value.as_str()),
            None => None,
        };
        k += 1;
    }
    assert(all.take(pairs.len() as int) =~= all);
    current
}

impl Action {
    /// The query parameters by which this run restricts a list request whose
    /// identifiers go under the name `query_param`.
    pub fn query_pairs(&self, query_param: &str) -> (pairs: Vec<QueryPair>)
        ensures
            pair_views(pairs@) == query_pairs(query_param@, self.ids@, self.offset, self.limit),
    {
        let mut pairs: Vec<QueryPair> = Vec::new();
        if self.ids.len() > 0 {
            let mut k: usize = 0;
            while k < self.ids.len()
                invariant
                    k <= self.ids.len(),
                    pairs@.len() == k,
                    forall|m: int|
                        0 <= m < k ==> (#[trigger] pairs@[m])@ == (
                            query_param@,
                            decimal(self.ids@[m] as nat),
                        ),
                decreases self.ids.len() - k,
            {
                pairs.push(
                    QueryPair { name: query_param.to_owned(), value: decimal_text(self.ids[k]) },
                );
                k += 1;
            }
            assert(pair_views(pairs@) =~= query_pairs(
                query_param@,
                self.ids@,
                self.offset,
                self.limit,
            ));
        } else if self.limit.is_some() || self.offset > 0 {
            let length = match self.limit {
                Some(n) => n,
                None => u32::MAX,
            };
            pairs.push(QueryPair { name: "length".to_owned(), value: decimal_text(length) });
            pairs.push(QueryPair { name: "start".to_owned(), value: decimal_text(self.offset) });
            assert(pair_views(pairs@) =~= query_pairs(
                query_param@,
                self.ids@,
                self.offset,
                self.limit,
            ));
        } else {
            assert(pair_views(pairs@) =~= query_pairs(
                query_param@,
                self.ids@,
                self.offset,
                self.limit,
            ));
        }
        pairs
    }

    /// Restricts the list request `url` to the records that this run is
    /// about.
    pub fn limit_records(&self, url: &str, query_param: &str) -> (result: Option<String>)
        ensures
            text_of(result) == with_pairs(
                Some(url@),
                query_pairs(query_param@, self.ids@, self.offset, self.limit),
            ),
    {
        let pairs = self.query_pairs(query_param);
        append_pairs(url, &pairs)
    }

    /// The address of the list `list` with this run's restrictions.
    fn list_address(&self, list: &str, query_param: &str) -> (result: Option<String>)
        ensures
            text_of(result) == list_url(
                self.base_url@,
                list@,
                query_pairs(query_param@, self.ids@, self.offset, self.limit),
            ),
    {
        let ghost pairs = query_pairs(query_param@, self.ids@, self.offset, self.limit);
        match push_path_segment(self.base_url.as_str(), list) {
            Some(url) => self.limit_records(url.as_str(), query_param),
            None => {
                proof {
                    lemma_nothing_to_append(pairs);
                }
                None
            },
        }
    }

    /// The address from which the movies of this run are fetched.
    pub fn movies_url(&self) -> (result: Option<String>)
        ensures
            text_of(result) == list_url(
                self.base_url@,
                "movies"@,
                query_pairs("radarrid[]"@, self.ids@, self.offset, self.limit),
            ),
    {
        self.list_address("movies", "radarrid[]")
    }

    /// The address from which the shows of this run are fetched.
    pub fn series_url(&self) -> (result: Option<String>)
        ensures
            text_of(result) == list_url(
                self.base_url@,
                "series"@,
                query_pairs("seriesid[]"@, self.ids@, self.offset, self.limit),
            ),
    {
        self.list_address("series", "seriesid[]")
    }

    /// The address from which the episodes of one show are fetched.
    pub fn episodes_url(&self, series_id: u32) -> (result: Option<String>)
        ensures
            text_of(result) == episode_list_url(self.base_url@, series_id),
    {
        match push_path_segment(self.base_url.as_str(), "episodes") {
            Some(url) => {
                let query = "seriesid[]=".to_owned().concat(decimal_text(series_id).as_str());
                set_query(url.as_str(), query.as_str())
            },
            None => None,
        }
    }

    /// Makes the request for one subtitle ready to be sent: its address
    /// names the action, and its body carries the options of a sync. Nothing
    /// is made where the base address is no URL below which a path can be
    /// put.
    pub fn perform(&self, payload: ActionPayload) -> (result: Option<DispatchRequest>)
        ensures
            result is Some <==> request_url(self.base_url@, self.action.code()) is Some,
            result matches Some(request) ==> {
                &&& Some(request.url@) == request_url(self.base_url@, self.action.code())
                &&& request.payload@ == with_options(payload@, self.action)
            },
    {
        let code = self.action.to_string();
        let url = match push_path_segment(self.base_url.as_str(), "subtitles") {
            Some(url) => push_query_pair(url.as_str(), "action", code.as_str()),
            None => None,
        };
        match url {
            None => None,
            Some(url) => {
                let mut payload = payload;
                match &self.action {
                    ActionCommands::Sync(options) => {
                        payload.reference = copy_text(&options.reference);
                        payload.max_offset_seconds = options.max_offset_seconds;
                        payload.no_fix_framerate = Some(options.no_fix_framerate);
                        payload.gss = Some(options.gss);
                    },
                    _ => {},
                }
                Some(DispatchRequest { url, payload })
            },
        }
    }
}

/// Nothing can be appended to an address that could not be made.
pub proof fn lemma_nothing_to_append(pairs: Seq<(Seq<char>, Seq<char>)>)
    ensures
        with_pairs(None, pairs) is None,
    decreases pairs.len(),
{
    if pairs.len() > 0 {
        lemma_nothing_to_append(pairs.drop_last());
    }
}

/// Identifiers take precedence: where a run names identifiers, its list
/// request carries one parameter for each of them, under the name for
/// identifiers and in their order, and nothing else, whatever offset and
/// limit are.
pub proof fn lemma_ids_take_precedence(
    param: Seq<char>,
    ids: Seq<u32>,
    offset: u32,
    limit: Option<u32>,
)
    requires
        ids.len() > 0,
    ensures
        query_pairs(param, ids, offset, limit).len() == ids.len(),
        forall|k: int|
            0 <= k < ids.len() ==> #[trigger] query_pairs(param, ids, offset, limit)[k] == (
                param,
                decimal(ids[k] as nat),
            ),
        query_pairs(param, ids, offset, limit) == query_pairs(param, ids, 0, None),
{
}

} // verus!
