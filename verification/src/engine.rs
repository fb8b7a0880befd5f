//! The resolution engine: sources are tried one after another, in an order
//! drawn afresh for each resolution, until one gives an image address.
//!
//! The engine does not fetch. A [`Resolution`] says what to do next
//! ([`Resolution::poll`]) and takes the reply to the request it asked for
//! ([`Resolution::deliver`]); whoever drives it performs the request.

use vstd::prelude::*;
use vstd::seq_lib::*;
use crate::date::CalendarDate;
use crate::extract::{
    extract, is_absolute, lemma_origin_is_absolute, lemma_prefix_of_concat,
    lemma_result_is_absolute, reply_result, ExtractError, Reply,
};
use crate::source::{all_sources, Source};

verus! {

/// The failure of one attempted source.
#[derive(Clone, Copy, Debug, PartialEq, Eq, Structural)]
pub struct SourceFailure {
    /// The source that was tried.
    pub source: Source,
    /// Why it gave no address.
    pub error: ExtractError,
}

/// Why a resolution gave no address.
#[derive(Clone, Debug)]
pub enum ResolveError {
    /// There was no source to try.
    NoSources,
    /// Every source was tried and failed; the failures, in the order tried.
    AllFailed(Vec<SourceFailure>),
}

/// What the driver of a resolution has to do next.
#[derive(Debug)]
pub enum Action {
    /// Fetch `url` from `source` and deliver the reply.
    Fetch { source: Source, url: String },
    /// Nothing more: the resolution has ended with this result.
    Done(Result<String, ResolveError>),
}

/// How a resolution ends.
pub enum Outcome {
    /// With the image address of the first source that gave one.
    Resolved(Seq<char>),
    /// At once, for want of any source.
    NoSources,
    /// With the failure of every source, in the order tried.
    AllFailed(Seq<SourceFailure>),
}

/// An action with its texts and lists as sequences.
pub enum ActionView {
    Fetch { source: Source, url: Seq<char> },
    Done(Outcome),
}

/// The state of a resolution as plain values.
pub struct ResolutionView {
    /// The day whose comic is looked for.
    pub date: CalendarDate,
    /// The sources in the order in which they are tried.
    pub order: Seq<Source>,
    /// The failures recorded so far, one for each source tried in vain.
    pub failures: Seq<SourceFailure>,
    /// The address found, once a source gave one.
    pub resolved: Option<Seq<char>>,
}

/// One resolution in progress: the trial order, the failures recorded so
/// far and the address once found.
pub struct Resolution {
    date: CalendarDate,
    order: Vec<Source>,
    failures: Vec<SourceFailure>,
    resolved: Option<String>,
}

/// The result of a resolution with its texts and lists as sequences.
pub open spec fn outcome_view(result: Result<String, ResolveError>) -> Outcome {
    match result {
        Ok(url) => Outcome::Resolved(url@),
        Err(ResolveError::NoSources) => Outcome::NoSources,
        Err(ResolveError::AllFailed(failures)) => Outcome::AllFailed(failures@),
    }
}

/// An action with its texts and lists as sequences.
pub open spec fn action_view(action: Action) -> ActionView {
    match action {
        Action::Fetch { source, url } => ActionView::Fetch { source, url: url@ },
        Action::Done(result) => ActionView::Done(outcome_view(result)),
    }
}

/// What one source makes of the day, given the reply it would send: a
/// source that needs no fetch gives its address whatever the reply.
pub open spec fn attempt(source: Source, date: CalendarDate, reply: Reply) -> Result<
    Seq<char>,
    ExtractError,
> {
    if source.spec_needs_fetch() {
        reply_result(source, reply)
    } else {
        Ok(source.spec_target(date))
    }
}

/// The position in `order`, at or after `from`, of the first source whose
/// attempt succeeds.
pub open spec fn first_success(
    date: CalendarDate,
    order: Seq<Source>,
    replies: spec_fn(Source) -> Reply,
    from: int,
) -> Option<int>
    decreases order.len() - from,
{
    if from < 0 || from >= order.len() {
        None
    } else if attempt(order[from], date, replies(order[from])) is Ok {
        Some(from)
    } else {
        first_success(date, order, replies, from + 1)
    }
}

/// The failures of the first `count` sources of `order`.
pub open spec fn failures_of(
    date: CalendarDate,
    order: Seq<Source>,
    replies: spec_fn(Source) -> Reply,
    count: int,
) -> Seq<SourceFailure> {
    Seq::new(
        count as nat,
        |i: int|
            SourceFailure {
                source: order[i],
                error: attempt(order[i], date, replies(order[i]))->Err_0,
            },
    )
}

/// How the resolution for `date` ends where the sources are tried in
/// `order` and each source `s` would send `replies(s)`.
pub open spec fn outcome(date: CalendarDate, order: Seq<Source>, replies: spec_fn(Source) -> Reply)
    -> Outcome {
    if order.len() == 0 {
        Outcome::NoSources
    } else {
        match first_success(date, order, replies, 0) {
            Some(i) => Outcome::Resolved(attempt(order[i], date, replies(order[i]))->Ok_0),
            None => Outcome::AllFailed(failures_of(date, order, replies, order.len() as int)),
        }
    }
}

impl ResolutionView {
    /// The state is one that a resolution can be in: each failure recorded
    /// belongs to the source tried at its position, and an address was found
    /// only where a source was left to give it, and is absolute.
    pub open spec fn wf(self) -> bool {
        &&& self.date.wf()
        &&& self.failures.len() <= self.order.len()
        &&& forall|i: int| 0 <= i < self.failures.len() ==> self.failures[i].source == self.order[i]
        &&& self.resolved matches Some(url) ==> self.failures.len() < self.order.len()
            && is_absolute(url)
    }

    /// The source that is tried next, while the resolution has not ended.
    pub open spec fn current(self) -> Option<Source> {
        if self.resolved is None && self.failures.len() < self.order.len() {
            Some(self.order[self.failures.len() as int])
        } else {
            None
        }
    }

    /// The source whose reply the resolution waits for, if it waits for one.
    pub open spec fn awaiting(self) -> Option<Source> {
        match self.current() {
            Some(source) if source.spec_needs_fetch() => Some(source),
            _ => None,
        }
    }

    /// What there is to do in this state.
    pub open spec fn next_action(self) -> ActionView {
        if let Some(url) = self.resolved {
            ActionView::Done(Outcome::Resolved(url))
        } else if self.order.len() == 0 {
            ActionView::Done(Outcome::NoSources)
        } else if self.failures.len() >= self.order.len() {
            ActionView::Done(Outcome::AllFailed(self.failures))
        } else {
            let source = self.order[self.failures.len() as int];
            if source.spec_needs_fetch() {
                ActionView::Fetch { source, url: source.spec_target(self.date) }
            } else {
                ActionView::Done(Outcome::Resolved(source.spec_target(self.date)))
            }
        }
    }

    /// The state after `reply` was delivered: where a reply is awaited, the
    /// address it gives ends the resolution, and its failure is recorded
    /// behind the earlier ones; where none is awaited, nothing changes.
    pub open spec fn after_reply(self, reply: Reply) -> ResolutionView {
        match self.awaiting() {
            None => self,
            Some(source) => match reply_result(source, reply) {
                Ok(url) => ResolutionView { resolved: Some(url), ..self },
                Err(error) => ResolutionView {
                    failures: self.failures.push(SourceFailure { source, error }),
                    ..self
                },
            },
        }
    }

    /// The state in which a resolution begins.
    pub open spec fn initial(date: CalendarDate, order: Seq<Source>) -> ResolutionView {
        ResolutionView { date, order, failures: Seq::empty(), resolved: None }
    }

    /// The state is one that the resolution for `date` over `order` reaches
    /// where each source `s` sends `replies(s)`: the sources tried so far
    /// all failed, as recorded, and an address found is that of the source
    /// tried next.
    pub open spec fn follows(
        self,
        date: CalendarDate,
        order: Seq<Source>,
        replies: spec_fn(Source) -> Reply,
    ) -> bool {
        &&& self.wf()
        &&& self.date == date
        &&& self.order == order
        &&& self.failures == failures_of(date, order, replies, self.failures.len() as int)
        &&& forall|i: int|
            0 <= i < self.failures.len() ==> (#[trigger] attempt(
                order[i],
                date,
                replies(order[i]),
            )) is Err
        &&& self.resolved matches Some(url) ==> attempt(
            order[self.failures.len() as int],
            date,
            replies(order[self.failures.len() as int]),
        ) == Ok::<Seq<char>, ExtractError>(url)
    }
}

/// The address that a source is asked at, or gives without being asked,
/// is absolute.
pub proof fn lemma_target_is_absolute(source: Source, date: CalendarDate)
    ensures
        is_absolute(source.spec_target(date)),
{
    lemma_origin_is_absolute(source);
    let origin = source.spec_origin();
    let rest = match source {
        Source::Jikos => source.spec_slug() + date.text("%Y"@) + "/ga"@ + date.text("%y%m%d"@)
            + ".gif"@,
        _ => source.spec_slug() + date.text("%Y/%m/%d"@),
    };
    assert(source.spec_target(date) =~= origin + rest);
    if "https://"@.is_prefix_of(origin) {
        lemma_prefix_of_concat("https://"@, origin, rest);
    } else {
        lemma_prefix_of_concat("http://"@, origin, rest);
    }
}

/// Whatever address a resolution ends with is absolute: a relative path
/// found in a document never comes back bare.
pub proof fn lemma_resolved_address_is_absolute(
    date: CalendarDate,
    order: Seq<Source>,
    replies: spec_fn(Source) -> Reply,
)
    ensures
        outcome(date, order, replies) matches Outcome::Resolved(url) ==> is_absolute(url),
{
    if let Outcome::Resolved(url) = outcome(date, order, replies) {
        lemma_first_success(date, order, replies, 0);
        let i = first_success(date, order, replies, 0)->Some_0;
        lemma_target_is_absolute(order[i], date);
        lemma_result_is_absolute(order[i], replies(order[i]));
    }
}

/// Where `first_success` finds a position, the source there succeeds and
/// every source from `from` up to it fails; where it finds none, every
/// source from `from` on fails.
pub proof fn lemma_first_success(
    date: CalendarDate,
    order: Seq<Source>,
    replies: spec_fn(Source) -> Reply,
    from: int,
)
    requires
        0 <= from,
    ensures
        match first_success(date, order, replies, from) {
            Some(i) => from <= i < order.len() && attempt(order[i], date, replies(order[i])) is Ok
                && forall|j: int|
                from <= j < i ==> (#[trigger] attempt(order[j], date, replies(order[j]))) is Err,
            None => forall|j: int|
                from <= j < order.len() ==> (#[trigger] attempt(
                    order[j],
                    date,
                    replies(order[j]),
                )) is Err,
        },
    decreases order.len() - from,
{
    if from < order.len() && !(attempt(order[from], date, replies(order[from])) is Ok) {
        lemma_first_success(date, order, replies, from + 1);
    }
}

/// A resolution ends with an address exactly where some source of the
/// order would give one; the address is then that of the first such source
/// in the order, and no source behind it counts.
pub proof fn lemma_resolved_iff_some_source_succeeds(
    date: CalendarDate,
    order: Seq<Source>,
    replies: spec_fn(Source) -> Reply,
)
    ensures
        outcome(date, order, replies) is Resolved <==> exists|s: Source|
            order.contains(s) && (#[trigger] attempt(s, date, replies(s))) is Ok,
        outcome(date, order, replies) matches Outcome::Resolved(url) ==> exists|i: int|
            0 <= i < order.len() && #[trigger] attempt(order[i], date, replies(order[i])) == Ok::<
                Seq<char>,
                ExtractError,
            >(url) && forall|j: int|
                0 <= j < i ==> (#[trigger] attempt(order[j], date, replies(order[j]))) is Err,
{
    lemma_first_success(date, order, replies, 0);
    match first_success(date, order, replies, 0) {
        Some(i) => {
            assert(order.contains(order[i]));
            assert(attempt(order[i], date, replies(order[i])) is Ok);
        },
        None => {
            assert forall|s: Source| order.contains(s) implies !((#[trigger] attempt(
                s,
                date,
                replies(s),
            )) is Ok) by {
                let j = choose|j: int| 0 <= j < order.len() && order[j] == s;
                assert(attempt(order[j], date, replies(order[j])) is Err);
            }
        },
    }
}

/// Whether a resolution succeeds does not depend on the order in which the
/// sources are tried: two orders that hold the same sources both end with
/// an address or both end without one, and in the same kind of failure.
pub proof fn lemma_success_is_order_independent(
    date: CalendarDate,
    first: Seq<Source>,
    second: Seq<Source>,
    replies: spec_fn(Source) -> Reply,
)
    requires
        first.to_multiset() == second.to_multiset(),
    ensures
        outcome(date, first, replies) is Resolved <==> outcome(date, second, replies) is Resolved,
        outcome(date, first, replies) is NoSources <==> outcome(date, second, replies) is NoSources,
        outcome(date, first, replies) is AllFailed <==> outcome(date, second, replies) is AllFailed,
{
    to_multiset_len(first);
    to_multiset_len(second);
    lemma_resolved_iff_some_source_succeeds(date, first, replies);
    lemma_resolved_iff_some_source_succeeds(date, second, replies);
    assert forall|s: Source| first.contains(s) <==> second.contains(s) by {
        to_multiset_contains(first, s);
        to_multiset_contains(second, s);
    }
}

/// A resolution that ends in failure has recorded one failure for each
/// source, at the source's place in the order, with the source's own reason.
pub proof fn lemma_all_failed_records_each_source(
    date: CalendarDate,
    order: Seq<Source>,
    replies: spec_fn(Source) -> Reply,
)
    ensures
        outcome(date, order, replies) matches Outcome::AllFailed(failures) ==> {
            &&& failures.len() == order.len()
            &&& failures.len() > 0
            &&& forall|i: int|
                0 <= i < order.len() ==> (#[trigger] failures[i]).source == order[i] && attempt(
                    order[i],
                    date,
                    replies(order[i]),
                ) == Err::<Seq<char>, ExtractError>(failures[i].error)
        },
{
    lemma_first_success(date, order, replies, 0);
}

/// With one source that fails, the failure holds exactly one reason: that
/// source's.
pub proof fn lemma_single_source_failure(
    date: CalendarDate,
    source: Source,
    replies: spec_fn(Source) -> Reply,
)
    requires
        attempt(source, date, replies(source)) is Err,
    ensures
        outcome(date, seq![source], replies) == Outcome::AllFailed(
            seq![
                SourceFailure {
                    source,
                    error: attempt(source, date, replies(source))->Err_0,
                },
            ],
        ),
{
    let order = seq![source];
    lemma_first_success(date, order, replies, 0);
    assert(failures_of(date, order, replies, 1) =~= seq![
        SourceFailure { source, error: attempt(source, date, replies(source))->Err_0 },
    ]);
}

/// Without a source the resolution ends at once, and not as one in which
/// every source failed.
pub proof fn lemma_no_sources(date: CalendarDate, replies: spec_fn(Source) -> Reply)
    ensures
        outcome(date, Seq::empty(), replies) == Outcome::NoSources,
        ResolutionView::initial(date, Seq::empty()).next_action() == ActionView::Done(
            Outcome::NoSources,
        ),
        forall|order: Seq<Source>|
            (#[trigger] outcome(date, order, replies)) is NoSources <==> order.len() == 0,
{
}

/// The source that needs no fetch gives the same address for the same day,
/// whatever any source replies; so an order that holds it always resolves.
pub proof fn lemma_pattern_source_is_deterministic(
    first: CalendarDate,
    second: CalendarDate,
    reply: Reply,
    other: Reply,
)
    requires
        first.spec_year() == second.spec_year(),
        first.spec_month() == second.spec_month(),
        first.spec_day() == second.spec_day(),
    ensures
        attempt(Source::Jikos, first, reply) == attempt(Source::Jikos, second, other),
        attempt(Source::Jikos, first, reply) == Ok::<Seq<char>, ExtractError>(
            Source::Jikos.spec_target(first),
        ),
{
    CalendarDate::lemma_same_fields_same_date(first, second);
}

/// An order that holds every known source always ends with an address.
pub proof fn lemma_full_registry_resolves(
    date: CalendarDate,
    order: Seq<Source>,
    replies: spec_fn(Source) -> Reply,
)
    requires
        order.contains(Source::Jikos),
    ensures
        outcome(date, order, replies) is Resolved,
{
    lemma_resolved_iff_some_source_succeeds(date, order, replies);
    assert(attempt(Source::Jikos, date, replies(Source::Jikos)) is Ok);
}

/// A resolution begins in a state that follows its order under any replies.
pub proof fn lemma_initial_follows(
    date: CalendarDate,
    order: Seq<Source>,
    replies: spec_fn(Source) -> Reply,
)
    requires
        date.wf(),
    ensures
        ResolutionView::initial(date, order).follows(date, order, replies),
{
    assert(failures_of(date, order, replies, 0) =~= Seq::empty());
}

/// Delivering the reply of the awaited source keeps the state on the path
/// of its order, and moves it on: one more source has been tried, or the
/// address is found. So each source is asked at most once.
pub proof fn lemma_deliver_follows(
    state: ResolutionView,
    date: CalendarDate,
    order: Seq<Source>,
    replies: spec_fn(Source) -> Reply,
)
    requires
        state.follows(date, order, replies),
        state.awaiting() is Some,
    ensures
        state.after_reply(replies(state.awaiting()->Some_0)).follows(date, order, replies),
        ({
            let next = state.after_reply(replies(state.awaiting()->Some_0));
            next.resolved is Some || next.failures.len() == state.failures.len() + 1
        }),
{
    let source = state.awaiting()->Some_0;
    let next = state.after_reply(replies(source));
    let k = state.failures.len() as int;
    lemma_result_is_absolute(source, replies(source));
    assert(source == order[k]);
    assert(attempt(source, date, replies(source)) == reply_result(source, replies(source)));
    if reply_result(source, replies(source)) is Err {
        assert(next.failures =~= failures_of(date, order, replies, k + 1));
        assert forall|i: int| 0 <= i < next.failures.len() implies (#[trigger] attempt(
            order[i],
            date,
            replies(order[i]),
        )) is Err by {
            if i < k {
                assert(attempt(order[i], date, replies(order[i])) is Err);
            }
        }
    }
}

/// Where a state on the path of its order has nothing more to do, its
/// result is the outcome of the resolution; where it asks for a fetch, the
/// request is the awaited source's, for the day looked for.
pub proof fn lemma_done_is_outcome(
    state: ResolutionView,
    date: CalendarDate,
    order: Seq<Source>,
    replies: spec_fn(Source) -> Reply,
)
    requires
        state.follows(date, order, replies),
    ensures
        match state.next_action() {
            ActionView::Done(result) => result == outcome(date, order, replies),
            ActionView::Fetch { source, url } => state.awaiting() == Some(source) && url
                == source.spec_target(date),
        },
{
    lemma_first_success(date, order, replies, 0);
    let k = state.failures.len() as int;
    if state.resolved is None && k < order.len() && !order[k].spec_needs_fetch() {
        assert(attempt(order[k], date, replies(order[k])) is Ok);
    }
}

/// Permutes the sources with `rand::seq::SliceRandom::shuffle`, drawing from
/// the generator that `rand::rng` hands out.
///
/// Trusted: the shuffle moves the items and neither adds nor drops one.
/// Which order comes out is left open.
#[verifier::external_body]
fn shuffle(sources: &mut Vec<Source>)
    ensures
        final(sources)@.to_multiset() == old(sources)@.to_multiset(),
{
    rand::seq::SliceRandom::shuffle(sources.as_mut_slice(), &mut rand::rng());
}

/// The known sources in an order drawn at random: each of them once.
pub fn trial_order() -> (order: Vec<Source>)
    ensures
        order@.to_multiset() == all_sources().to_multiset(),
        order@.len() == all_sources().len(),
        order@.no_duplicates(),
        forall|s: Source| order@.contains(s),
{
    let mut order = Source::all();
    shuffle(&mut order);
    proof {
        let registry = all_sources();
        to_multiset_len(registry);
        to_multiset_len(order@);
        registry.lemma_multiset_has_no_duplicates();
        order@.lemma_multiset_has_no_duplicates_conv();
        assert forall|s: Source| order@.contains(s) by {
            assert(registry.contains(s));
            to_multiset_contains(registry, s);
            to_multiset_contains(order@, s);
        }
    }
    order
}

/// Begins the resolution of the comic of `comic_date` over all known
/// sources, in a trial order drawn afresh.
pub fn get_comic(comic_date: CalendarDate) -> (resolution: Resolution)
    requires
        comic_date.wf(),
    ensures
        resolution.wf(),
        resolution@.date == comic_date,
        resolution@.failures.len() == 0,
        resolution@.resolved is None,
        resolution@.order.to_multiset() == all_sources().to_multiset(),
        resolution@.order.no_duplicates(),
        forall|s: Source| resolution@.order.contains(s),
{
    Resolution::start(comic_date, trial_order())
}

fn copy_failures(failures: &Vec<SourceFailure>) -> (copy: Vec<SourceFailure>)
    ensures
        copy@ == failures@,
{
    let mut copy: Vec<SourceFailure> = Vec::new();
    let mut i: usize = 0;
    while i < failures.len()
        invariant
            i <= failures.len(),
            copy@ == failures@.take(i as int),
        decreases failures.len() - i,
    {
        copy.push(failures[i]);
        proof {
            assert(failures@.take(i + 1) =~= failures@.take(i as int).push(failures@[i as int]));
        }
        i += 1;
    }
    proof {
        assert(failures@.take(failures@.len() as int) =~= failures@);
    }
    copy
}

impl View for Resolution {
    type V = ResolutionView;

    closed spec fn view(&self) -> ResolutionView {
        ResolutionView {
            date: self.date,
            order: self.order@,
            failures: self.failures@,
            resolved: match self.resolved {
                Some(url) => Some(url@),
                None => None,
            },
        }
    }
}

impl Resolution {
    /// The resolution is in a state that it can be in.
    pub open spec fn wf(&self) -> bool {
        self@.wf()
    }

    /// Begins a resolution for `date` that tries the sources in `order`.
    pub fn start(date: CalendarDate, order: Vec<Source>) -> (resolution: Resolution)
        requires
            date.wf(),
        ensures
            resolution.wf(),
            resolution@ == ResolutionView::initial(date, order@),
    {
        let resolution = Resolution { date, order, failures: Vec::new(), resolved: None };
        proof {
            assert(resolution@.failures =~= Seq::empty());
        }
        resolution
    }

    /// Says what is to be done next: the request to make for the source
    /// that is tried now, or the result with which the resolution has ended.
    /// A source that needs no fetch ends the resolution with its address.
    /// The state is left as it is.
    pub fn poll(&self) -> (action: Action)
        requires
            self.wf(),
        ensures
            action_view(action) == self@.next_action(),
            action matches Action::Done(Ok(url)) ==> is_absolute(url@),
            action matches Action::Fetch { source, url } ==> is_absolute(url@),
    {
        if let Some(url) = &self.resolved {
            return Action::Done(Ok(url.clone()));
        }
        if self.order.len() == 0 {
            return Action::Done(Err(ResolveError::NoSources));
        }
        if self.failures.len() >= self.order.len() {
            return Action::Done(Err(ResolveError::AllFailed(copy_failures(&self.failures))));
        }
        let source = self.order[self.failures.len()];
        let url = source.target(&self.date);
        proof {
            lemma_target_is_absolute(source, self.date);
        }
        if source.needs_fetch() {
            Action::Fetch { source, url }
        } else {
            Action::Done(Ok(url))
        }
    }

    /// Takes the reply to the request that `poll` asked for. An address
    /// read from it ends the resolution; a failure is recorded and the next
    /// source comes up. Where no reply is awaited nothing changes.
    pub fn deliver(&mut self, reply: &Reply)
        requires
            old(self).wf(),
        ensures
            final(self).wf(),
            final(self)@ == old(self)@.after_reply(*reply),
    {
        if self.resolved.is_some() || self.failures.len() >= self.order.len() {
            return ;
        }
        let source = self.order[self.failures.len()];
        if !source.needs_fetch() {
            return ;
        }
        match extract(source, reply) {
            Ok(url) => {
                self.resolved = Some(url);
            },
            Err(error) => {
                self.failures.push(SourceFailure { source, error });
            },
        }
    }

    /// The source that is tried now, while the resolution has not ended.
    pub fn current_source(&self) -> (source: Option<Source>)
        requires
            self.wf(),
        ensures
            source == self@.current(),
    {
        if self.resolved.is_none() && self.failures.len() < self.order.len() {
            Some(self.order[self.failures.len()])
        } else {
            None
        }
    }

    /// The number of sources that were tried and failed so far.
    pub fn attempts_failed(&self) -> (count: usize)
        ensures
            count == self@.failures.len(),
    {
        self.failures.len()
    }
}

} // verus!
