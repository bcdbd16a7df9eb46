//! Following redirects from a first address to a document.
//!
//! A `Resolver` never fetches anything itself. It says which address is to be
//! fetched next, takes what the fetch gave, and decides: stop with the
//! document, stop with an error, follow a redirect, or give up because the
//! budget of fetches is spent.

use vstd::prelude::*;
use vstd::utf8::{decode_utf8, valid_utf8};
use crate::text::{borrowed_text, decimal, decimal_text, decode_lossy, lossy_utf8};
use crate::url::{
    gemini_url_for, gemini_url_text, parse_url, parse_view, parsed_url, AddressError, ResourceUrl,
    UrlModel,
};

verus! {

/// The status of a Gemini response: its class, and the second digit of the
/// code; for an unknown class the whole code.
#[derive(Clone, Copy, Debug, PartialEq, Eq, Structural)]
pub enum StatusCode {
    Input(u8),
    Success(u8),
    Redirect(u8),
    TemporaryFailure(u8),
    PermanentFailure(u8),
    ClientCertRequired(u8),
    Unknown(u8),
}

impl StatusCode {
    /// The status as it is written in messages: the name of its class, then
    /// the number in round brackets.
    pub open spec fn debug_text(self) -> Seq<char> {
        match self {
            StatusCode::Input(n) => "Input("@ + decimal(n as nat) + ")"@,
            StatusCode::Success(n) => "Success("@ + decimal(n as nat) + ")"@,
            StatusCode::Redirect(n) => "Redirect("@ + decimal(n as nat) + ")"@,
            StatusCode::TemporaryFailure(n) => "TemporaryFailure("@ + decimal(n as nat) + ")"@,
            StatusCode::PermanentFailure(n) => "PermanentFailure("@ + decimal(n as nat) + ")"@,
            StatusCode::ClientCertRequired(n) => "ClientCertRequired("@ + decimal(n as nat) + ")"@,
            StatusCode::Unknown(n) => "Unknown("@ + decimal(n as nat) + ")"@,
        }
    }

    /// The status as it is written in messages.
    pub fn debug(&self) -> (out: String)
        ensures
            out@ == self.debug_text(),
    {
        let (name, n): (&str, u8) = match self {
            StatusCode::Input(n) => ("Input(", *n),
            StatusCode::Success(n) => ("Success(", *n),
            StatusCode::Redirect(n) => ("Redirect(", *n),
            StatusCode::TemporaryFailure(n) => ("TemporaryFailure(", *n),
            StatusCode::PermanentFailure(n) => ("PermanentFailure(", *n),
            StatusCode::ClientCertRequired(n) => ("ClientCertRequired(", *n),
            StatusCode::Unknown(n) => ("Unknown(", *n),
        };
        let mut out = name.to_owned();
        let digits = decimal_text(n as u16);
        out.append(digits.as_str());
        out.append(")");
        out
    }
}

/// The message for a response whose status is neither success nor redirect.
pub open spec fn unknown_status_text(status: StatusCode) -> Seq<char> {
    "Unknown status code: "@ + status.debug_text()
}

/// A response as the transport hands it over.
#[derive(Clone, Debug, PartialEq, Eq)]
pub struct Response {
    pub status: StatusCode,
    pub meta: String,
    pub body: Vec<u8>,
}

/// What one fetch came to.
#[derive(Clone, Debug, PartialEq, Eq)]
pub enum FetchResult {
    /// The document, as the bytes that were sent.
    Content { body: Vec<u8> },
    /// The resource is to be looked for at another address.
    RedirectTo { target: String },
    /// Nothing usable came back.
    Failure { reason: String },
}

/// A `FetchResult` as a mathematical value.
pub enum FetchModel {
    Content { body: Seq<u8> },
    RedirectTo { target: Seq<char> },
    Failure { reason: Seq<char> },
}

impl View for FetchResult {
    type V = FetchModel;

    open spec fn view(&self) -> FetchModel {
        match self {
            FetchResult::Content { body } => FetchModel::Content { body: body@ },
            FetchResult::RedirectTo { target } => FetchModel::RedirectTo { target: target@ },
            FetchResult::Failure { reason } => FetchModel::Failure { reason: reason@ },
        }
    }
}

/// What a response comes to, by the class of its status: success carries the
/// body as the document, a redirect carries the new address in its meta line,
/// and every other class is a failure that names the status.
pub open spec fn classified(status: StatusCode, meta: Seq<char>, body: Seq<u8>) -> FetchModel {
    match status {
        StatusCode::Success(_) => FetchModel::Content { body },
        StatusCode::Redirect(_) => FetchModel::RedirectTo { target: meta },
        _ => FetchModel::Failure { reason: unknown_status_text(status) },
    }
}

impl FetchResult {
    /// What a response comes to, by the class of its status.
    pub fn from_response(response: Response) -> (r: FetchResult)
        ensures
            r@ == classified(response.status, response.meta@, response.body@),
    {
        match response.status {
            StatusCode::Success(_) => FetchResult::Content { body: response.body },
            StatusCode::Redirect(_) => FetchResult::RedirectTo { target: response.meta },
            status => {
                let mut reason = "Unknown status code: ".to_owned();
                let shown = status.debug();
                reason.append(shown.as_str());
                FetchResult::Failure { reason }
            },
        }
    }

    /// What a fetch comes to when the transport itself failed with `message`.
    pub fn transport_error(message: String) -> (r: FetchResult)
        ensures
            r@ == (FetchModel::Failure { reason: message@ }),
    {
        FetchResult::Failure { reason: message }
    }
}

/// How a resolution ended.
#[derive(Clone, Debug, PartialEq, Eq)]
pub enum ResolutionOutcome {
    /// The document was reached; this is its text.
    Content(String),
    /// The resolution stopped at its first error; this is the message.
    Failed(String),
    /// The budget of fetches was spent on redirects: no document, no error.
    Exhausted,
}

/// A `ResolutionOutcome` as a mathematical value.
pub enum OutcomeModel {
    Content(Seq<char>),
    Failed(Seq<char>),
    Exhausted,
}

impl OutcomeModel {
    /// The text of the document, where one was reached.
    pub open spec fn content(self) -> Option<Seq<char>> {
        match self {
            OutcomeModel::Content(text) => Some(text),
            _ => None,
        }
    }

    /// The error message, where the resolution failed.
    pub open spec fn error(self) -> Option<Seq<char>> {
        match self {
            OutcomeModel::Failed(reason) => Some(reason),
            _ => None,
        }
    }
}

impl View for ResolutionOutcome {
    type V = OutcomeModel;

    open spec fn view(&self) -> OutcomeModel {
        match self {
            ResolutionOutcome::Content(text) => OutcomeModel::Content(text@),
            ResolutionOutcome::Failed(reason) => OutcomeModel::Failed(reason@),
            ResolutionOutcome::Exhausted => OutcomeModel::Exhausted,
        }
    }
}

impl ResolutionOutcome {
    /// The text of the document, where one was reached.
    pub fn content(&self) -> (r: Option<&String>)
        ensures
            borrowed_text(r) == self@.content(),
    {
        match self {
            ResolutionOutcome::Content(text) => Some(text),
            _ => None,
        }
    }

    /// The error message, where the resolution failed.
    pub fn error(&self) -> (r: Option<&String>)
        ensures
            borrowed_text(r) == self@.error(),
    {
        match self {
            ResolutionOutcome::Failed(reason) => Some(reason),
            _ => None,
        }
    }
}

/// Where a resolution stands.
pub enum StageModel {
    /// This address is to be fetched next.
    Pending(UrlModel),
    /// The resolution is over.
    Done(OutcomeModel),
}

/// A `Resolver` as a mathematical value.
pub struct ResolverModel {
    /// How many fetches the resolution may make in all.
    pub budget: nat,
    /// How many fetches it has made.
    pub fetches: nat,
    pub stage: StageModel,
}

impl ResolverModel {
    /// No more fetches were made than the budget allows; while a fetch is
    /// asked for the budget is not yet spent; and a resolution that gave up
    /// has spent all of it.
    pub open spec fn wf(self) -> bool {
        &&& self.fetches <= self.budget
        &&& self.stage is Pending ==> self.fetches < self.budget
        &&& self.stage == StageModel::Done(OutcomeModel::Exhausted) ==> self.fetches == self.budget
    }

    /// The resolution before its first fetch. A first address that did not
    /// parse ends it at once with that error; a budget of zero ends it with
    /// nothing.
    pub open spec fn initial(start: Result<UrlModel, AddressError>, budget: nat) -> ResolverModel {
        ResolverModel {
            budget,
            fetches: 0,
            stage: match start {
                Err(e) => StageModel::Done(OutcomeModel::Failed(e.message_text())),
                Ok(url) => if budget == 0 {
                    StageModel::Done(OutcomeModel::Exhausted)
                } else {
                    StageModel::Pending(url)
                },
            },
        }
    }

    /// The resolution over, one fetch later, with `outcome`.
    pub open spec fn ended(self, outcome: OutcomeModel) -> ResolverModel {
        ResolverModel {
            budget: self.budget,
            fetches: self.fetches + 1,
            stage: StageModel::Done(outcome),
        }
    }

    /// The pending fetch failed with `reason`.
    pub open spec fn failed(self, reason: Seq<char>) -> ResolverModel {
        if self.stage is Pending {
            self.ended(OutcomeModel::Failed(reason))
        } else {
            self
        }
    }

    /// The pending fetch gave the document, whose text is `text`.
    pub open spec fn delivered(self, text: Seq<char>) -> ResolverModel {
        if self.stage is Pending {
            self.ended(OutcomeModel::Content(text))
        } else {
            self
        }
    }

    /// The pending fetch gave a redirect, and parsing its target gave
    /// `target`. A target that did not parse ends the resolution with that
    /// error. One that did is fetched next, unless the budget is spent.
    pub open spec fn redirected(self, target: Result<UrlModel, AddressError>) -> ResolverModel {
        if self.stage is Pending {
            match target {
                Err(e) => self.ended(OutcomeModel::Failed(e.message_text())),
                Ok(url) => if self.fetches + 1 < self.budget {
                    ResolverModel {
                        budget: self.budget,
                        fetches: self.fetches + 1,
                        stage: StageModel::Pending(url),
                    }
                } else {
                    self.ended(OutcomeModel::Exhausted)
                },
            }
        } else {
            self
        }
    }

    /// The resolution after the pending fetch came to `fetched`. A resolution
    /// that is over stays as it is.
    pub open spec fn step(self, fetched: FetchModel) -> ResolverModel {
        match fetched {
            FetchModel::Failure { reason } => self.failed(reason),
            FetchModel::Content { body } => self.delivered(lossy_utf8(body)),
            FetchModel::RedirectTo { target } => self.redirected(parsed_url(target)),
        }
    }

    /// The resolution after a series of fetches came to `replies`, the first
    /// of them first.
    pub open spec fn run(self, replies: Seq<FetchModel>) -> ResolverModel
        decreases replies.len(),
    {
        if replies.len() == 0 {
            self
        } else {
            self.step(replies[0]).run(replies.drop_first())
        }
    }
}

/// The replies of a chain of redirects: each target in turn.
pub open spec fn redirects(targets: Seq<Seq<char>>) -> Seq<FetchModel> {
    Seq::new(targets.len(), |i: int| FetchModel::RedirectTo { target: targets[i] })
}

/// One step keeps a resolution well formed and its budget as it was. It
/// counts one fetch where a fetch was pending, and changes nothing where the
/// resolution was over.
pub proof fn lemma_step_counts(s: ResolverModel, fetched: FetchModel)
    requires
        s.wf(),
    ensures
        s.step(fetched).wf(),
        s.step(fetched).budget == s.budget,
        s.stage is Pending ==> s.step(fetched).fetches == s.fetches + 1,
        s.stage is Done ==> s.step(fetched) == s,
{
}

/// A resolution that is over stays as it is, whatever comes after.
pub proof fn lemma_done_is_final(s: ResolverModel, replies: Seq<FetchModel>)
    requires
        s.stage is Done,
    ensures
        s.run(replies) == s,
    decreases replies.len(),
{
    if replies.len() > 0 {
        lemma_done_is_final(s, replies.drop_first());
    }
}

/// Through any series of replies a resolution stays well formed, keeps its
/// budget, and counts at most one fetch for each reply; while it still asks
/// for a fetch, it has counted every one of them.
pub proof fn lemma_run_counts(s: ResolverModel, replies: Seq<FetchModel>)
    requires
        s.wf(),
    ensures
        s.run(replies).wf(),
        s.run(replies).budget == s.budget,
        s.fetches <= s.run(replies).fetches <= s.fetches + replies.len(),
        s.run(replies).stage is Pending ==> s.run(replies).fetches == s.fetches + replies.len(),
    decreases replies.len(),
{
    if s.stage is Done {
        lemma_done_is_final(s, replies);
    } else if replies.len() > 0 {
        lemma_step_counts(s, replies[0]);
        lemma_run_counts(s.step(replies[0]), replies.drop_first());
    }
}

/// A resolution makes no more fetches than its budget allows, however they
/// turn out: once as many replies have come in as the budget counts, it is
/// over.
pub proof fn lemma_resolution_ends_within_budget(
    start: Result<UrlModel, AddressError>,
    budget: nat,
    replies: Seq<FetchModel>,
)
    ensures
        ResolverModel::initial(start, budget).run(replies).fetches <= budget,
        replies.len() >= budget ==> ResolverModel::initial(start, budget).run(replies).stage is Done,
{
    lemma_run_counts(ResolverModel::initial(start, budget), replies);
}

/// An outcome never holds both a document and an error. It holds neither
/// only where the resolution gave up, and a resolution gives up only once
/// its whole budget went into fetches.
pub proof fn lemma_nothing_only_when_spent(
    start: Result<UrlModel, AddressError>,
    budget: nat,
    replies: Seq<FetchModel>,
)
    ensures
        ({
            let end = ResolverModel::initial(start, budget).run(replies);
            end.stage matches StageModel::Done(outcome) ==> {
                &&& !(outcome.content() is Some && outcome.error() is Some)
                &&& outcome.content() is None && outcome.error() is None ==> end.fetches == budget
            }
        }),
{
    lemma_run_counts(ResolverModel::initial(start, budget), replies);
}

/// Where the first fetch gives the document, the outcome is that document,
/// decoded, and no error.
pub proof fn lemma_first_content_is_the_outcome(url: UrlModel, budget: nat, body: Seq<u8>)
    requires
        budget > 0,
    ensures
        ResolverModel::initial(Ok(url), budget).step(FetchModel::Content { body }).stage
            == StageModel::Done(OutcomeModel::Content(lossy_utf8(body))),
        OutcomeModel::Content(lossy_utf8(body)).content() == Some(lossy_utf8(body)),
        OutcomeModel::Content(lossy_utf8(body)).error() is None,
{
}

/// A fetch that fails ends the resolution with its message as the error and
/// no document, whatever is left of the budget.
pub proof fn lemma_failure_ends_resolution(s: ResolverModel, reason: Seq<char>)
    requires
        s.wf(),
        s.stage is Pending,
    ensures
        s.step(FetchModel::Failure { reason }).stage == StageModel::Done(
            OutcomeModel::Failed(reason),
        ),
        OutcomeModel::Failed(reason).error() == Some(reason),
        OutcomeModel::Failed(reason).content() is None,
{
}

/// A chain of redirects whose targets all parse, with the document at its
/// end: the outcome is the document where the budget covers the fetch of
/// every link and of the document, and nothing at all where it does not.
pub proof fn lemma_redirect_chain(s: ResolverModel, targets: Seq<Seq<char>>, body: Seq<u8>)
    requires
        s.wf(),
        s.stage is Pending,
        forall|i: int| 0 <= i < targets.len() ==> parsed_url(#[trigger] targets[i]) is Ok,
    ensures
        s.run(redirects(targets).push(FetchModel::Content { body })).stage == (if s.fetches
            + targets.len() < s.budget {
            StageModel::Done(OutcomeModel::Content(lossy_utf8(body)))
        } else {
            StageModel::Done(OutcomeModel::Exhausted)
        }),
    decreases targets.len(),
{
    let document = FetchModel::Content { body };
    let replies = redirects(targets).push(document);
    if targets.len() == 0 {
        assert(replies[0] == document);
        assert(replies.drop_first() =~= Seq::<FetchModel>::empty());
        assert(s.step(document).run(replies.drop_first()) == s.step(document));
    } else {
        let rest = targets.drop_first();
        assert(replies[0] == FetchModel::RedirectTo { target: targets[0] });
        assert(replies.drop_first() =~= redirects(rest).push(document));
        let next = s.step(replies[0]);
        assert(parsed_url(targets[0]) is Ok);
        if s.fetches + 1 < s.budget {
            assert forall|i: int| 0 <= i < rest.len() implies parsed_url(#[trigger] rest[i]) is Ok by {
                assert(rest[i] == targets[i + 1]);
            }
            lemma_redirect_chain(next, rest, body);
        } else {
            lemma_done_is_final(next, replies.drop_first());
        }
    }
}

/// Where a resolution stands.
enum Stage {
    Pending(ResourceUrl),
    Done(ResolutionOutcome),
}

/// One resolution: from a first address, through redirects, to its outcome.
pub struct Resolver {
    budget: usize,
    fetches: usize,
    stage: Stage,
}

impl View for Resolver {
    type V = ResolverModel;

    closed spec fn view(&self) -> ResolverModel {
        ResolverModel {
            budget: self.budget as nat,
            fetches: self.fetches as nat,
            stage: match self.stage {
                Stage::Pending(url) => StageModel::Pending(url@),
                Stage::Done(outcome) => StageModel::Done(outcome@),
            },
        }
    }
}

impl Resolver {
    #[verifier::type_invariant]
    spec fn well_formed(self) -> bool {
        self@.wf()
    }

    /// A resolution that starts from `start` and may make `max_redirects`
    /// fetches.
    pub fn new(start: Result<ResourceUrl, AddressError>, max_redirects: usize) -> (r: Resolver)
        ensures
            r@ == ResolverModel::initial(parse_view(start), max_redirects as nat),
            r@.wf(),
    {
        let stage = match start {
            Err(e) => Stage::Done(ResolutionOutcome::Failed(e.message())),
            Ok(url) => if max_redirects == 0 {
                Stage::Done(ResolutionOutcome::Exhausted)
            } else {
                Stage::Pending(url)
            },
        };
        Resolver { budget: max_redirects, fetches: 0, stage }
    }

    /// A resolution for the resource that `request_path` stands for.
    pub fn begin(request_path: &str, max_redirects: usize) -> (r: Resolver)
        ensures
            r@ == ResolverModel::initial(
                parsed_url(gemini_url_text(request_path@)),
                max_redirects as nat,
            ),
            r@.wf(),
    {
        let address = gemini_url_for(request_path);
        Resolver::new(parse_url(address.as_str()), max_redirects)
    }

    /// The address to fetch next; none once the resolution is over.
    pub fn pending(&self) -> (r: Option<&ResourceUrl>)
        ensures
            match r {
                Some(url) => self@.stage == StageModel::Pending(url@),
                None => self@.stage is Done,
            },
            self@.wf(),
    {
        proof {
            use_type_invariant(self);
        }
        match &self.stage {
            Stage::Pending(url) => Some(url),
            Stage::Done(_) => None,
        }
    }

    /// How many fetches the resolution has made.
    pub fn fetches(&self) -> (n: usize)
        ensures
            n == self@.fetches,
            n <= self@.budget,
    {
        proof {
            use_type_invariant(self);
        }
        self.fetches
    }

    /// How many fetches the resolution may make in all.
    pub fn budget(&self) -> (n: usize)
        ensures
            n == self@.budget,
    {
        self.budget
    }

    /// The pending fetch failed with `reason`.
    pub fn fail(self, reason: String) -> (r: Resolver)
        ensures
            r@ == self@.failed(reason@),
            r@.wf(),
    {
        proof {
            use_type_invariant(&self);
        }
        match self.stage {
            Stage::Pending(_) => Resolver {
                budget: self.budget,
                fetches: self.fetches + 1,
                stage: Stage::Done(ResolutionOutcome::Failed(reason)),
            },
            Stage::Done(outcome) => Resolver {
                budget: self.budget,
                fetches: self.fetches,
                stage: Stage::Done(outcome),
            },
        }
    }

    /// The pending fetch gave the document, whose text is `text`.
    pub fn deliver(self, text: String) -> (r: Resolver)
        ensures
            r@ == self@.delivered(text@),
            r@.wf(),
    {
        proof {
            use_type_invariant(&self);
        }
        match self.stage {
            Stage::Pending(_) => Resolver {
                budget: self.budget,
                fetches: self.fetches + 1,
                stage: Stage::Done(ResolutionOutcome::Content(text)),
            },
            Stage::Done(outcome) => Resolver {
                budget: self.budget,
                fetches: self.fetches,
                stage: Stage::Done(outcome),
            },
        }
    }

    /// The pending fetch gave a redirect, and parsing its target gave
    /// `target`.
    pub fn redirect(self, target: Result<ResourceUrl, AddressError>) -> (r: Resolver)
        ensures
            r@ == self@.redirected(parse_view(target)),
            r@.wf(),
    {
        proof {
            use_type_invariant(&self);
        }
        match self.stage {
            Stage::Pending(_) => {
                let fetches = self.fetches + 1;
                let stage = match target {
                    Err(e) => Stage::Done(ResolutionOutcome::Failed(e.message())),
                    Ok(url) => if fetches < self.budget {
                        Stage::Pending(url)
                    } else {
                        Stage::Done(ResolutionOutcome::Exhausted)
                    },
                };
                Resolver { budget: self.budget, fetches, stage }
            },
            Stage::Done(outcome) => Resolver {
                budget: self.budget,
                fetches: self.fetches,
                stage: Stage::Done(outcome),
            },
        }
    }

    /// Takes what the pending fetch came to and decides how the resolution
    /// goes on. The body of a document is decoded as UTF-8, never rejected;
    /// the target of a redirect is parsed as an address.
    pub fn on_fetch(self, fetched: FetchResult) -> (r: Resolver)
        ensures
            r@ == self@.step(fetched@),
            r@.wf(),
            fetched@ matches FetchModel::Content { body } ==> (valid_utf8(body) ==> r@
                == self@.delivered(decode_utf8(body))),
    {
        match fetched {
            FetchResult::Failure { reason } => self.fail(reason),
            FetchResult::Content { body } => {
                let text = decode_lossy(&body);
                self.deliver(text)
            },
            FetchResult::RedirectTo { target } => {
                let parsed = parse_url(target.as_str());
                self.redirect(parsed)
            },
        }
    }

    /// The outcome, once the resolution is over; none while a fetch is
    /// pending.
    pub fn into_outcome(self) -> (r: Option<ResolutionOutcome>)
        ensures
            match r {
                Some(outcome) => self@.stage == StageModel::Done(outcome@),
                None => self@.stage is Pending,
            },
    {
        match self.stage {
            Stage::Pending(_) => None,
            Stage::Done(outcome) => Some(outcome),
        }
    }
}

} // verus!
