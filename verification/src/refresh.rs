//! Refreshing the catalog, one page at a time.
//!
//! A refresh is a conversation between this module and a host. The module
//! names the request to make; the host makes it and reports what came of
//! it; the module gathers the records and names the next request. The
//! first page that cannot be had or cannot be read ends the fetching, and
//! what was gathered up to then is the new catalog. Nothing gathered is a
//! failure. The client takes the new catalog over before anything is
//! written to the cache file, so a failed write costs only the file.
//!
//! No request is retried, and every refresh starts again at page 1.

use crate::client::{first_location, held, ClientValue, FuelClient};
use crate::model::{clone_models, snapshot, FuelModel, ModelValue};
use crate::text::{decimal, decimal_text};
use std::path::PathBuf;
use vstd::prelude::*;

verus! {

/// One `GET` for the host to perform.
#[derive(Debug, PartialEq)]
pub struct PageRequest {
    /// The address to get.
    pub url: String,
    /// Name and value of each header to send along, in order.
    pub headers: Vec<(String, String)>,
}

/// What a [`PageRequest`] stands for.
pub ghost struct RequestValue {
    pub url: Seq<char>,
    pub headers: Seq<(Seq<char>, Seq<char>)>,
}

impl View for PageRequest {
    type V = RequestValue;

    open spec fn view(&self) -> RequestValue {
        RequestValue {
            url: self.url@,
            headers: self.headers@.map_values(|header: (String, String)| (header.0@, header.1@)),
        }
    }
}

/// What came of asking for one page.
#[derive(Debug, PartialEq)]
pub enum PageOutcome {
    /// The service answered and the answer read as a list of records,
    /// which may be empty.
    Records(Vec<FuelModel>),
    /// No answer could be had: no connection, a timeout, a status other
    /// than success.
    TransportFailure,
    /// An answer came that does not read as a list of records.
    DecodeFailure,
}

/// What a [`PageOutcome`] stands for.
pub ghost enum OutcomeValue {
    Records(Seq<ModelValue>),
    TransportFailure,
    DecodeFailure,
}

impl View for PageOutcome {
    type V = OutcomeValue;

    open spec fn view(&self) -> OutcomeValue {
        match self {
            PageOutcome::Records(records) => OutcomeValue::Records(snapshot(records@)),
            PageOutcome::TransportFailure => OutcomeValue::TransportFailure,
            PageOutcome::DecodeFailure => OutcomeValue::DecodeFailure,
        }
    }
}

/// Whether a status code reports success.
pub open spec fn is_success(status: u16) -> bool {
    200 <= status <= 299
}

/// The outcome that a reply amounts to. `status` is the status of the
/// reply, if one came; `records` is what its body read as, if it read as
/// a list of records. Without a reply, or with one that does not report
/// success, the page could not be had, whatever the body holds.
pub open spec fn outcome_of(status: Option<u16>, records: Option<Seq<ModelValue>>) -> OutcomeValue {
    match status {
        Some(code) if is_success(code) => match records {
            Some(list) => OutcomeValue::Records(list),
            None => OutcomeValue::DecodeFailure,
        },
        _ => OutcomeValue::TransportFailure,
    }
}

impl PageOutcome {
    /// Reads the outcome of a request off the status of the reply and
    /// what its body was decoded to.
    pub fn of(status: Option<u16>, records: Option<Vec<FuelModel>>) -> (outcome: PageOutcome)
        ensures
            outcome@ == outcome_of(status, held(records)),
    {
        match status {
            Some(code) => {
                if 200 <= code && code <= 299 {
                    match records {
                        Some(list) => PageOutcome::Records(list),
                        None => PageOutcome::DecodeFailure,
                    }
                } else {
                    PageOutcome::TransportFailure
                }
            },
            None => PageOutcome::TransportFailure,
        }
    }
}

/// Why the fetching stopped.
#[derive(Clone, Copy, Debug, PartialEq, Eq)]
pub enum StopCause {
    /// A page could not be had.
    Transport,
    /// A page could not be read.
    Decode,
    /// The page counter has no successor.
    PageLimit,
}

/// Why a refresh yields no catalog to its caller.
#[derive(Clone, Copy, Debug, PartialEq, Eq)]
pub enum RefreshError {
    /// The fetching stopped with no record gathered. The client keeps
    /// what it held.
    Empty(StopCause),
    /// A catalog was fetched and the client holds it, but there is no
    /// location to write it to.
    NoCacheLocation,
    /// A catalog was fetched and the client holds it, but the host could
    /// not write the cache file.
    NotPersisted,
}

/// A refresh that is fetching pages.
#[derive(Debug, PartialEq)]
pub struct Fetching {
    /// The page whose outcome is awaited.
    pub page: u64,
    /// The records of the pages before it, in order.
    pub gathered: Vec<FuelModel>,
    /// Whether the new catalog goes to the cache file as well.
    pub write_to_disk: bool,
    /// Whether the records of each page are handed out as they arrive.
    pub progress: bool,
    /// Where to write when the client has no cache location of its own.
    pub fallback: Option<PathBuf>,
}

/// What a [`Fetching`] stands for.
pub ghost struct FetchingValue {
    pub page: u64,
    pub gathered: Seq<ModelValue>,
    pub write_to_disk: bool,
    pub progress: bool,
    pub fallback: Option<PathBuf>,
}

impl View for Fetching {
    type V = FetchingValue;

    open spec fn view(&self) -> FetchingValue {
        FetchingValue {
            page: self.page,
            gathered: snapshot(self.gathered@),
            write_to_disk: self.write_to_disk,
            progress: self.progress,
            fallback: self.fallback,
        }
    }
}

/// A refresh whose catalog the client holds and the host is writing.
#[derive(Debug, PartialEq)]
pub struct Persisting {
    /// The catalog being written.
    pub catalog: Vec<FuelModel>,
}

/// How a refresh goes on.
#[derive(Debug, PartialEq)]
pub enum Next {
    /// Make this request and report its outcome to [`Fetching::absorb`].
    Fetch(Fetching, PageRequest),
    /// Write the catalog that the client now holds to this location and
    /// report to [`Persisting::conclude`] whether that worked.
    Persist(Persisting, PathBuf),
    /// The refresh is over, with this result.
    Done(Result<Vec<FuelModel>, RefreshError>),
}

/// What a [`Next`] stands for.
pub ghost enum NextValue {
    Fetch(FetchingValue, RequestValue),
    Persist(Seq<ModelValue>, PathBuf),
    Done(Result<Seq<ModelValue>, RefreshError>),
}

/// The value of a refresh's result.
pub open spec fn result_value(result: Result<Vec<FuelModel>, RefreshError>) -> Result<
    Seq<ModelValue>,
    RefreshError,
> {
    match result {
        Ok(catalog) => Ok(snapshot(catalog@)),
        Err(error) => Err(error),
    }
}

impl View for Next {
    type V = NextValue;

    open spec fn view(&self) -> NextValue {
        match self {
            Next::Fetch(state, request) => NextValue::Fetch(state@, request@),
            Next::Persist(state, path) => NextValue::Persist(snapshot(state.catalog@), *path),
            Next::Done(result) => NextValue::Done(result_value(*result)),
        }
    }
}

/// One move of a refresh.
#[derive(Debug, PartialEq)]
pub struct Step {
    /// Records to hand to whoever follows the progress, in this order.
    /// A listener that has gone away is no concern of the refresh.
    pub announce: Vec<FuelModel>,
    /// What the host does next.
    pub next: Next,
}

/// What a [`Step`] stands for.
pub ghost struct StepValue {
    pub announce: Seq<ModelValue>,
    pub next: NextValue,
}

impl View for Step {
    type V = StepValue;

    open spec fn view(&self) -> StepValue {
        StepValue { announce: snapshot(self.announce@), next: self.next@ }
    }
}

/// The address of a page: the base address, then `models?page=` and the
/// page number in decimal.
pub open spec fn page_address(base: Seq<char>, page: u64) -> Seq<char> {
    base + "models"@ + "?page="@ + decimal(page as nat)
}

/// The request for a page: its address, and the token as the one header
/// `Private-token` where the client has one.
pub open spec fn request_for(client: ClientValue, page: u64) -> RequestValue {
    RequestValue {
        url: page_address(client.url, page),
        headers: match client.token {
            Some(token) => seq![("Private-token"@, token)],
            None => seq![],
        },
    }
}

/// The state in which every refresh starts: page 1, nothing gathered.
pub open spec fn first_page(write_to_disk: bool, progress: bool, fallback: Option<PathBuf>)
    -> FetchingValue {
    FetchingValue { page: 1, gathered: Seq::empty(), write_to_disk, progress, fallback }
}

/// Why an outcome that ends the fetching does so.
pub open spec fn cause_of(outcome: OutcomeValue) -> StopCause {
    match outcome {
        OutcomeValue::Records(_) => StopCause::PageLimit,
        OutcomeValue::TransportFailure => StopCause::Transport,
        OutcomeValue::DecodeFailure => StopCause::Decode,
    }
}

/// The end of the fetching, with `total` gathered.
///
/// Nothing gathered is a failure and leaves the client alone. Otherwise
/// the client takes `total` over as its catalog at once; then either the
/// refresh is done, or the catalog is to be written to the client's cache
/// location, or to the fallback where the client has none.
pub open spec fn settle(
    client: ClientValue,
    state: FetchingValue,
    total: Seq<ModelValue>,
    cause: StopCause,
) -> (ClientValue, NextValue) {
    if total.len() == 0 {
        (client, NextValue::Done(Err(RefreshError::Empty(cause))))
    } else {
        let holding = ClientValue { models: Some(total), ..client };
        if !state.write_to_disk {
            (holding, NextValue::Done(Ok(total)))
        } else {
            match first_location(client.cache_path, state.fallback) {
                Some(path) => (holding, NextValue::Persist(total, path)),
                None => (holding, NextValue::Done(Err(RefreshError::NoCacheLocation))),
            }
        }
    }
}

/// The records that an outcome adds.
pub open spec fn records_of(outcome: OutcomeValue) -> Seq<ModelValue> {
    match outcome {
        OutcomeValue::Records(records) => records,
        _ => Seq::empty(),
    }
}

/// Whether the fetching goes on after an outcome: a page was read and
/// the counter can name the next one.
pub open spec fn goes_on(state: FetchingValue, outcome: OutcomeValue) -> bool {
    outcome is Records && state.page < u64::MAX
}

/// One move of the fetching: the client afterwards, what is announced,
/// and how the refresh goes on.
///
/// A page that was read is added behind what was gathered, and announced
/// record by record where progress is followed; the next page is asked
/// for. Any other outcome ends the fetching with what was gathered.
pub open spec fn transition(client: ClientValue, state: FetchingValue, outcome: OutcomeValue) -> (
    ClientValue,
    StepValue,
) {
    let total = state.gathered + records_of(outcome);
    let announce = if state.progress {
        records_of(outcome)
    } else {
        Seq::empty()
    };
    if goes_on(state, outcome) {
        let page = (state.page + 1) as u64;
        let onward = FetchingValue { page, gathered: total, ..state };
        (client, StepValue { announce, next: NextValue::Fetch(onward, request_for(client, page)) })
    } else {
        let (holding, next) = settle(client, state, total, cause_of(outcome));
        (holding, StepValue { announce, next })
    }
}

/// The result of a refresh once the host has tried to write the file.
pub open spec fn written_result(catalog: Seq<ModelValue>, written: bool) -> Result<
    Seq<ModelValue>,
    RefreshError,
> {
    if written {
        Ok(catalog)
    } else {
        Err(RefreshError::NotPersisted)
    }
}

impl FuelClient {
    /// The address of page `page` at this client's service.
    pub fn page_url(&self, page: u64) -> (url: String)
        ensures
            url@ == page_address(self.url@, page),
    {
        let mut url = self.url.clone();
        url.append("models");
        url.append("?page=");
        let number = decimal_text(page);
        url.append(number.as_str());
        url
    }

    /// The request for page `page`.
    pub fn page_request(&self, page: u64) -> (request: PageRequest)
        ensures
            request@ == request_for(self@, page),
    {
        let url = self.page_url(page);
        let mut headers: Vec<(String, String)> = Vec::new();
        match &self.token {
            Some(token) => {
                headers.push(("Private-token".to_owned(), token.clone()));
            },
            None => {},
        }
        let request = PageRequest { url, headers };
        assert(request@.headers =~= request_for(self@, page).headers);
        request
    }

    /// Starts a refresh that follows no progress.
    ///
    /// With `write_to_disk` the new catalog also goes to the cache file:
    /// at the client's cache location, or at `fallback` where it has none.
    pub fn update_cache(&self, write_to_disk: bool, fallback: Option<PathBuf>) -> (start: (
        Fetching,
        PageRequest,
    ))
        ensures
            start.0@ == first_page(write_to_disk, false, fallback),
            start.1@ == request_for(self@, 1),
    {
        self.update_cache_with_progress(write_to_disk, false, fallback)
    }

    /// Starts a refresh: the state to keep, and the request for page 1.
    ///
    /// With `progress` every page that is read is announced record by
    /// record as it arrives.
    pub fn update_cache_with_progress(
        &self,
        write_to_disk: bool,
        progress: bool,
        fallback: Option<PathBuf>,
    ) -> (start: (Fetching, PageRequest))
        ensures
            start.0@ == first_page(write_to_disk, progress, fallback),
            start.1@ == request_for(self@, 1),
    {
        let state = Fetching { page: 1, gathered: Vec::new(), write_to_disk, progress, fallback };
        assert(state@.gathered =~= Seq::empty());
        (state, self.page_request(1))
    }
}

impl Fetching {
    /// Takes the outcome of the request for `self.page` and makes the
    /// next move, as [`transition`] describes it.
    ///
    /// While pages are read the client is left alone. When the fetching
    /// ends with records gathered, the client's catalog is replaced by
    /// them in one piece; when it ends with none, the client keeps what
    /// it held.
    pub fn absorb(self, client: &mut FuelClient, outcome: PageOutcome) -> (step: Step)
        ensures
            (final(client)@, step@) == transition(old(client)@, self@, outcome@),
    {
        let ghost before = self@;
        let ghost seen = outcome@;
        let Fetching { page, gathered, write_to_disk, progress, fallback } = self;
        let mut gathered = gathered;
        let mut announce: Vec<FuelModel> = Vec::new();
        assert(snapshot(announce@) =~= Seq::empty());
        let cause = match outcome {
            PageOutcome::Records(records) => {
                let mut records = records;
                if progress {
                    announce = clone_models(&records);
                }
                assert(snapshot(gathered@ + records@) =~= before.gathered + records_of(seen));
                gathered.append(&mut records);
                if page < u64::MAX {
                    let request = client.page_request(page + 1);
                    let onward = Fetching {
                        page: page + 1,
                        gathered,
                        write_to_disk,
                        progress,
                        fallback,
                    };
                    return Step { announce, next: Next::Fetch(onward, request) };
                }
                StopCause::PageLimit
            },
            PageOutcome::TransportFailure => StopCause::Transport,
            PageOutcome::DecodeFailure => StopCause::Decode,
        };
        if gathered.len() == 0 {
            return Step { announce, next: Next::Done(Err(RefreshError::Empty(cause))) };
        }
        let catalog = clone_models(&gathered);
        let target = match &client.cache_path {
            Some(path) => Some(path.clone()),
            None => fallback,
        };
        client.models = Some(gathered);
        let next = if !write_to_disk {
            Next::Done(Ok(catalog))
        } else {
            match target {
                Some(path) => Next::Persist(Persisting { catalog }, path),
                None => Next::Done(Err(RefreshError::NoCacheLocation)),
            }
        };
        Step { announce, next }
    }
}

impl Persisting {
    /// Ends the refresh once the host has tried to write the cache file.
    /// The client is out of reach here: it keeps the catalog either way.
    pub fn conclude(self, written: bool) -> (result: Result<Vec<FuelModel>, RefreshError>)
        ensures
            result_value(result) == written_result(snapshot(self.catalog@), written),
    {
        if written {
            Ok(self.catalog)
        } else {
            Err(RefreshError::NotPersisted)
        }
    }
}

/// Where a refresh stands after a run of outcomes, each reported in
/// answer to the request before it. Outcomes that arrive after the
/// fetching has ended are not looked at.
pub open spec fn run(client: ClientValue, state: FetchingValue, outcomes: Seq<OutcomeValue>) -> (
    ClientValue,
    NextValue,
)
    decreases outcomes.len(),
{
    if outcomes.len() == 0 {
        (client, NextValue::Fetch(state, request_for(client, state.page)))
    } else {
        let (after, step) = transition(client, state, outcomes.first());
        match step.next {
            NextValue::Fetch(onward, _) => run(after, onward, outcomes.drop_first()),
            _ => (after, step.next),
        }
    }
}

/// Pages that were read, as the outcomes that report them.
pub open spec fn pages_read(pages: Seq<Seq<ModelValue>>) -> Seq<OutcomeValue> {
    pages.map_values(|records: Seq<ModelValue>| OutcomeValue::Records(records))
}

/// Pages read one after another and then a failure end the fetching with
/// exactly the records of those pages, in the order of the pages and
/// within each page in the order of its records, behind what was
/// gathered before. In particular a failure on the very first page of a
/// refresh ends it with nothing gathered, which is a failure and not an
/// empty catalog.
pub proof fn fetching_gathers_pages_in_order(
    client: ClientValue,
    state: FetchingValue,
    pages: Seq<Seq<ModelValue>>,
    failure: OutcomeValue,
)
    requires
        !(failure is Records),
        state.page + pages.len() <= u64::MAX,
    ensures
        run(client, state, pages_read(pages).push(failure)) == settle(
            client,
            state,
            state.gathered + pages.flatten(),
            cause_of(failure),
        ),
    decreases pages.len(),
{
    let outcomes = pages_read(pages).push(failure);
    if pages.len() > 0 {
        let rest = pages.drop_first();
        let (after, step) = transition(client, state, outcomes.first());
        let onward = step.next->Fetch_0;
        assert(outcomes.drop_first() =~= pages_read(rest).push(failure));
        fetching_gathers_pages_in_order(client, onward, rest, failure);
        assert(onward.gathered + rest.flatten() =~= state.gathered + pages.flatten());
    }
}

/// What a refresh announces over a run of outcomes, in order.
pub open spec fn announced(client: ClientValue, state: FetchingValue, outcomes: Seq<OutcomeValue>)
    -> Seq<ModelValue>
    decreases outcomes.len(),
{
    if outcomes.len() == 0 {
        Seq::empty()
    } else {
        let (after, step) = transition(client, state, outcomes.first());
        match step.next {
            NextValue::Fetch(onward, _) => step.announce + announced(
                after,
                onward,
                outcomes.drop_first(),
            ),
            _ => step.announce,
        }
    }
}

/// Where progress is followed, what is announced while pages are read is
/// what is gathered from them: every record once, page after page and
/// record after record. Where it is not followed, nothing is announced.
pub proof fn progress_announces_what_is_gathered(
    client: ClientValue,
    state: FetchingValue,
    pages: Seq<Seq<ModelValue>>,
    failure: OutcomeValue,
)
    requires
        !(failure is Records),
        state.page + pages.len() <= u64::MAX,
    ensures
        announced(client, state, pages_read(pages).push(failure)) == if state.progress {
            pages.flatten()
        } else {
            Seq::empty()
        },
    decreases pages.len(),
{
    let outcomes = pages_read(pages).push(failure);
    if pages.len() > 0 {
        let rest = pages.drop_first();
        let (after, step) = transition(client, state, outcomes.first());
        let onward = step.next->Fetch_0;
        assert(outcomes.drop_first() =~= pages_read(rest).push(failure));
        progress_announces_what_is_gathered(client, onward, rest, failure);
    }
}

/// A catalog that was fetched is in the client's hands from the moment
/// the fetching ends: when the host is asked to write it, the client
/// holds it already, and a write that fails changes the result of the
/// refresh and nothing else. The same holds where there is no location
/// to write to.
pub proof fn failed_write_keeps_catalog(
    client: ClientValue,
    state: FetchingValue,
    outcome: OutcomeValue,
)
    ensures
        ({
            let (after, step) = transition(client, state, outcome);
            &&& step.next matches NextValue::Persist(catalog, _) ==> {
                &&& after.models == Some(catalog)
                &&& written_result(catalog, false) == Err::<Seq<ModelValue>, _>(
                    RefreshError::NotPersisted,
                )
            }
            &&& step.next == NextValue::Done(Err(RefreshError::NoCacheLocation))
                ==> after.models == Some(state.gathered + records_of(outcome))
        }),
{
}

} // verus!
