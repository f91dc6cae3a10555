//! Lyric resolution: which lyric a track gets, from the cache or from the
//! providers.
//!
//! A resolution looks at the cache first, unless it is told to pass over it.
//! Without a cached pair it asks the providers one by one, in the order in
//! which they are configured, and takes the first answer that has something
//! to show. A provider that fails counts as one that found nothing. When no
//! provider is left the resolution ends with the empty pair, not with an
//! error.
//!
//! Reading the cache and asking a provider are the caller's work. A
//! [`Resolution`] says which of them is due next, as a [`ResolveStep`], and
//! takes what came of it.

use crate::lyric::{view_of_entry, LyricPair, LyricPairView};
use crate::sync::{ResolveError, ResolveRequest, ResolveRequestView};
use crate::track::{SearchQuery, SearchQueryView};
use vstd::prelude::*;

verus! {

/// A provider could not answer a search.
#[derive(Clone, Copy, Debug, PartialEq, Eq)]
pub struct ProviderError;

/// What a resolution waits for.
#[derive(Clone, Copy, Debug, PartialEq, Eq)]
pub enum Stage {
    /// The entry of the cache.
    AwaitCache,
    /// The answer of the provider with this number.
    AwaitProvider(usize),
    /// Nothing: the resolution is over.
    Finished,
}

/// What is due next in a resolution.
#[derive(Debug, PartialEq, Eq)]
pub enum ResolveStep {
    /// Read the cache entry at `path` and report it with
    /// [`Resolution::cache_loaded`].
    LoadCache { path: String },
    /// Ask the provider with the number `provider` for `query` and report its
    /// answer with [`Resolution::provider_answered`].
    Search { provider: usize, query: SearchQuery },
    /// The resolution is over, and `pair` is its result.
    Done { pair: LyricPair },
}

/// Mathematical value of a [`ResolveStep`].
#[verifier::ext_equal]
pub enum ResolveStepView {
    LoadCache { path: Seq<char> },
    Search { provider: usize, query: SearchQueryView },
    Done { pair: LyricPairView },
}

impl View for ResolveStep {
    type V = ResolveStepView;

    open spec fn view(&self) -> ResolveStepView {
        match self {
            ResolveStep::LoadCache { path } => ResolveStepView::LoadCache { path: path@ },
            ResolveStep::Search { provider, query } => ResolveStepView::Search {
                provider: *provider,
                query: query@,
            },
            ResolveStep::Done { pair } => ResolveStepView::Done { pair: pair@ },
        }
    }
}

/// The value of a provider's answer.
pub open spec fn view_of_answer(answer: Result<LyricPair, ProviderError>) -> Result<
    LyricPairView,
    ProviderError,
> {
    match answer {
        Ok(pair) => Ok(pair@),
        Err(error) => Err(error),
    }
}

/// The values of the answers of the providers, in their order.
pub open spec fn view_of_answers(answers: Seq<Result<LyricPair, ProviderError>>) -> Seq<
    Result<LyricPairView, ProviderError>,
> {
    Seq::new(answers.len(), |i: int| view_of_answer(answers[i]))
}

/// Whether an answer ends the search: it brings a pair with something to
/// show.
pub open spec fn is_found(answer: Result<LyricPairView, ProviderError>) -> bool {
    match answer {
        Ok(pair) => pair.has_content(),
        Err(_) => false,
    }
}

/// The first pair with something to show among the answers from the provider
/// `from` on, `None` where there is none.
pub open spec fn first_found(answers: Seq<Result<LyricPairView, ProviderError>>, from: int) -> Option<
    LyricPairView,
>
    decreases answers.len() - from,
{
    if from < 0 || from >= answers.len() {
        None
    } else if is_found(answers[from]) {
        Some(answers[from]->Ok_0)
    } else {
        first_found(answers, from + 1)
    }
}

/// What the providers come to: the first pair with something to show, the
/// empty pair where no provider has one.
pub open spec fn provided_pair(answers: Seq<Result<LyricPairView, ProviderError>>) -> LyricPairView {
    match first_found(answers, 0) {
        Some(pair) => pair,
        None => LyricPairView::empty(),
    }
}

/// Whether a request lets the cache answer: it does not force a refetch, and
/// it names a cache path.
pub open spec fn consults_cache(request: ResolveRequestView) -> bool {
    !request.force_refetch && request.cache_path is Some
}

/// The lyric that a request resolves to, given the entry that the cache holds
/// at its path and the answers that the providers would give: the cached pair
/// where the cache is consulted and has one, else what the providers come to.
pub open spec fn resolved_pair(
    request: ResolveRequestView,
    cached: Option<LyricPairView>,
    answers: Seq<Result<LyricPairView, ProviderError>>,
) -> LyricPairView {
    if consults_cache(request) && cached is Some {
        cached->Some_0
    } else {
        provided_pair(answers)
    }
}

/// Mathematical value of a [`Resolution`].
#[verifier::ext_equal]
pub struct ResolutionView {
    pub query: SearchQueryView,
    pub providers: usize,
    pub stage: Stage,
}

impl ResolutionView {
    /// A resolution waits for providers that exist only.
    pub open spec fn wf(self) -> bool {
        self.stage matches Stage::AwaitProvider(provider) ==> provider < self.providers
    }

    /// The resolution over.
    pub open spec fn finished(self) -> ResolutionView {
        ResolutionView { stage: Stage::Finished, ..self }
    }

    /// Turning to the provider `provider`: where it exists it is asked, and
    /// else the resolution ends with the empty pair.
    pub open spec fn turn_to(self, provider: int) -> (ResolutionView, ResolveStepView) {
        if 0 <= provider < self.providers {
            (
                ResolutionView { stage: Stage::AwaitProvider(provider as usize), ..self },
                ResolveStepView::Search { provider: provider as usize, query: self.query },
            )
        } else {
            (self.finished(), ResolveStepView::Done { pair: LyricPairView::empty() })
        }
    }

    /// The start of a resolution for `request` with `providers` providers.
    pub open spec fn start(request: ResolveRequestView, providers: usize) -> (
        ResolutionView,
        ResolveStepView,
    ) {
        let fresh = ResolutionView {
            query: request.track.search_query(),
            providers,
            stage: Stage::AwaitCache,
        };
        if consults_cache(request) {
            (fresh, ResolveStepView::LoadCache { path: request.cache_path->Some_0 })
        } else {
            fresh.turn_to(0)
        }
    }

    /// After the cache was read: a cached pair ends the resolution, and
    /// without one the first provider is turned to. A report that is not
    /// waited for changes nothing and gets no step.
    pub open spec fn cache_loaded(self, entry: Option<LyricPairView>) -> (
        ResolutionView,
        Option<ResolveStepView>,
    ) {
        match self.stage {
            Stage::AwaitCache => match entry {
                Some(pair) => (self.finished(), Some(ResolveStepView::Done { pair })),
                None => (self.turn_to(0).0, Some(self.turn_to(0).1)),
            },
            _ => (self, None),
        }
    }

    /// After a provider answered: a pair with something to show ends the
    /// resolution, and any other answer turns to the next provider. A report
    /// that is not waited for changes nothing and gets no step.
    pub open spec fn provider_answered(self, answer: Result<LyricPairView, ProviderError>) -> (
        ResolutionView,
        Option<ResolveStepView>,
    ) {
        match self.stage {
            Stage::AwaitProvider(provider) => if is_found(answer) {
                (self.finished(), Some(ResolveStepView::Done { pair: answer->Ok_0 }))
            } else {
                (self.turn_to(provider + 1).0, Some(self.turn_to(provider + 1).1))
            },
            _ => (self, None),
        }
    }
}

/// One resolution in progress.
#[derive(Debug)]
pub struct Resolution {
    query: SearchQuery,
    providers: usize,
    stage: Stage,
}

impl View for Resolution {
    type V = ResolutionView;

    closed spec fn view(&self) -> ResolutionView {
        ResolutionView { query: self.query@, providers: self.providers, stage: self.stage }
    }
}

impl Resolution {
    #[verifier::type_invariant]
    spec fn well_formed(&self) -> bool {
        self@.wf()
    }

    /// What the resolution waits for; a provider that it waits for exists.
    pub fn stage(&self) -> (stage: Stage)
        ensures
            stage == self@.stage,
            self@.wf(),
    {
        proof {
            use_type_invariant(self);
        }
        self.stage
    }

    /// Turns to the provider `provider`.
    fn turn_to(&mut self, provider: usize) -> (step: ResolveStep)
        ensures
            (final(self)@, step@) == old(self)@.turn_to(provider as int),
    {
        proof {
            use_type_invariant(&*self);
        }
        if provider < self.providers {
            self.stage = Stage::AwaitProvider(provider);
            ResolveStep::Search { provider, query: self.query.clone() }
        } else {
            self.stage = Stage::Finished;
            ResolveStep::Done { pair: LyricPair::empty() }
        }
    }

    /// Starts the resolution of `request` with `providers` providers, and
    /// says what is due first: to read the cache where the request lets the
    /// cache answer, else to ask the first provider, and with no provider at
    /// all nothing but the empty pair.
    pub fn start(request: &ResolveRequest, providers: usize) -> (started: (Resolution, ResolveStep))
        ensures
            (started.0@, started.1@) == ResolutionView::start(request@, providers),
    {
        let mut resolution = Resolution {
            query: request.track.search_query(),
            providers,
            stage: Stage::AwaitCache,
        };
        let consult = match &request.cache_path {
            Some(path) => if request.force_refetch {
                None
            } else {
                Some(path.clone())
            },
            None => None,
        };
        match consult {
            Some(path) => (resolution, ResolveStep::LoadCache { path }),
            None => {
                let step = resolution.turn_to(0);
                (resolution, step)
            },
        }
    }

    /// Takes the cache entry, `None` for a path without an entry that can be
    /// read. A cached pair is the result, whatever it holds; without one the
    /// first provider is due. Where the resolution does not wait for the
    /// cache the report is dropped: nothing changes and `None` comes back.
    pub fn cache_loaded(&mut self, entry: Option<LyricPair>) -> (step: Option<ResolveStep>)
        ensures
            (final(self)@, view_of_step(step)) == old(self)@.cache_loaded(view_of_entry(entry)),
    {
        proof {
            use_type_invariant(&*self);
        }
        match self.stage {
            Stage::AwaitCache => match entry {
                Some(pair) => {
                    self.stage = Stage::Finished;
                    Some(ResolveStep::Done { pair })
                },
                None => Some(self.turn_to(0)),
            },
            _ => None,
        }
    }

    /// Takes the answer of the provider that was asked last. A pair with
    /// something to show is the result. After a failure or a pair with
    /// nothing to show the next provider is due, and the empty pair is the
    /// result where none is left. Where the resolution does not wait for a
    /// provider the report is dropped: nothing changes and `None` comes back.
    pub fn provider_answered(&mut self, answer: Result<LyricPair, ProviderError>) -> (step: Option<
        ResolveStep,
    >)
        ensures
            (final(self)@, view_of_step(step)) == old(self)@.provider_answered(
                view_of_answer(answer),
            ),
    {
        proof {
            use_type_invariant(&*self);
        }
        match self.stage {
            Stage::AwaitProvider(provider) => {
                match answer {
                    Ok(pair) => {
                        if pair.has_content() {
                            self.stage = Stage::Finished;
                            return Some(ResolveStep::Done { pair });
                        }
                    },
                    Err(_) => {},
                }
                Some(self.turn_to(provider + 1))
            },
            _ => None,
        }
    }
}

/// How many reports a resolution may still take before it is over.
spec fn reports_left(providers: usize, step: ResolveStepView) -> nat {
    match step {
        ResolveStepView::LoadCache { .. } => (providers + 2) as nat,
        ResolveStepView::Search { provider, .. } => (providers - provider + 1) as nat,
        ResolveStepView::Done { .. } => 0,
    }
}

/// The pair that a resolution ends with, seen from the step that is due.
spec fn pair_ahead(
    step: ResolveStepView,
    cached: Option<LyricPairView>,
    answers: Seq<Result<LyricPairView, ProviderError>>,
) -> LyricPairView {
    match step {
        ResolveStepView::LoadCache { .. } => match cached {
            Some(pair) => pair,
            None => provided_pair(answers),
        },
        ResolveStepView::Search { provider, .. } => match first_found(answers, provider as int) {
            Some(pair) => pair,
            None => LyricPairView::empty(),
        },
        ResolveStepView::Done { pair } => pair,
    }
}

/// Whether `step` is the one that a resolution at `stage` has handed out.
spec fn step_is_due(stage: Stage, providers: usize, step: ResolveStepView) -> bool {
    match step {
        ResolveStepView::LoadCache { .. } => stage == Stage::AwaitCache,
        ResolveStepView::Search { provider, .. } => stage == Stage::AwaitProvider(provider)
            && provider < providers,
        ResolveStepView::Done { .. } => true,
    }
}

/// Resolves `request` in one go, from the entry `cached` that the cache holds
/// at the path of the request and the answers that the providers give, in the
/// order of the providers. The result is never an error: it is the cached
/// pair where the request lets the cache answer and there is one, else the
/// first answer with something to show, else the empty pair.
pub fn resolve(
    request: &ResolveRequest,
    cached: &Option<LyricPair>,
    answers: &Vec<Result<LyricPair, ProviderError>>,
) -> (result: Result<LyricPair, ResolveError>)
    ensures
        result matches Ok(pair) && pair@ == resolved_pair(
            request@,
            view_of_entry(*cached),
            view_of_answers(answers@),
        ),
{
    let ghost entry = view_of_entry(*cached);
    let ghost given = view_of_answers(answers@);
    let ghost target = resolved_pair(request@, entry, given);
    let started = Resolution::start(request, answers.len());
    let mut resolution = started.0;
    let mut step = started.1;
    assert(given.len() == 0 ==> first_found(given, 0) is None);
    loop
        invariant
            entry == view_of_entry(*cached),
            given == view_of_answers(answers@),
            target == resolved_pair(request@, entry, given),
            resolution@.providers == answers.len(),
            step_is_due(resolution@.stage, resolution@.providers, step@),
            pair_ahead(step@, entry, given) == target,
        decreases reports_left(resolution@.providers, step@),
    {
        match step {
            ResolveStep::Done { pair } => {
                return Ok(pair);
            },
            ResolveStep::LoadCache { .. } => {
                let report = match cached {
                    Some(pair) => Some(pair.clone()),
                    None => None,
                };
                assert(given.len() == 0 ==> first_found(given, 0) is None);
                match resolution.cache_loaded(report) {
                    Some(next) => {
                        step = next;
                    },
                    None => {
                        return Ok(LyricPair::empty());
                    },
                }
            },
            ResolveStep::Search { provider, .. } => {
                let report = match &answers[provider] {
                    Ok(pair) => Ok(pair.clone()),
                    Err(error) => Err(*error),
                };
                assert(view_of_answer(report) == given[provider as int]);
                assert(first_found(given, provider as int) == if is_found(given[provider as int]) {
                    Some(given[provider as int]->Ok_0)
                } else {
                    first_found(given, provider + 1)
                });
                assert(provider + 1 >= given.len() ==> first_found(given, provider + 1) is None);
                match resolution.provider_answered(report) {
                    Some(next) => {
                        step = next;
                    },
                    None => {
                        return Ok(LyricPair::empty());
                    },
                }
            },
        }
    }
}

/// The value of an optional step.
pub open spec fn view_of_step(step: Option<ResolveStep>) -> Option<ResolveStepView> {
    match step {
        Some(step) => Some(step@),
        None => None,
    }
}

} // verus!
