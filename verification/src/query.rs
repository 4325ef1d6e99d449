use crate::coordinator::RunSignal;
use crate::coordinator::RunSignalView;
use crate::error::ConfigurationError;
use crate::error::PipelineError;
use crate::error::PipelineErrorView;
use crate::provider::resolution;
use crate::provider::resolve;
use crate::provider::Availability;
use crate::provider::Backend;
use crate::provider::Capability;
use crate::provider::ProviderHandle;
use crate::provider::ProviderHandleView;
use crate::repository::Repository;
use crate::repository::RepositoryView;
use vstd::prelude::*;

verus! {

/// The steps of a query run. Each works on what the one before it left.
#[derive(Clone, Copy, Debug, PartialEq, Eq, Structural)]
pub enum Step {
    /// Rewrite or expand the question.
    Transform,
    /// Embed the question with the provider that embedded the index.
    Embed,
    /// Fetch the nearest chunks from the vector store.
    Retrieve,
    /// Write the answer from the question and the chunks.
    Answer,
}

impl Step {
    /// The steps in the order in which a question passes them.
    pub open spec fn order() -> Seq<Step> {
        seq![Step::Transform, Step::Embed, Step::Retrieve, Step::Answer]
    }

    /// The place of the step in the order, counted from zero.
    pub open spec fn position(self) -> int {
        match self {
            Step::Transform => 0,
            Step::Embed => 1,
            Step::Retrieve => 2,
            Step::Answer => 3,
        }
    }

    /// The step that every question enters first.
    pub fn first() -> (step: Step)
        ensures
            step == Step::order()[0],
    {
        Step::Transform
    }

    /// The step that follows, if any does.
    pub fn next(self) -> (following: Option<Step>)
        ensures
            following matches Some(step) ==> step == Step::order()[self.position() + 1],
            following is None <==> self.position() + 1 == Step::order().len(),
    {
        match self {
            Step::Transform => Some(Step::Embed),
            Step::Embed => Some(Step::Retrieve),
            Step::Retrieve => Some(Step::Answer),
            Step::Answer => None,
        }
    }
}

/// The error that a failure of a step is reported as: the store's where
/// retrieval fails, a provider's at every other step.
pub open spec fn failure_at(step: Step, detail: Seq<char>) -> PipelineErrorView {
    if step == Step::Retrieve {
        PipelineErrorView::Storage(detail)
    } else {
        PipelineErrorView::Provider(detail)
    }
}

/// Wraps the detail of a failed step into the error of its kind. Every
/// such error ends the run.
pub fn failure(step: Step, detail: String) -> (error: PipelineError)
    ensures
        error@ == failure_at(step, detail@),
{
    if step == Step::Retrieve {
        PipelineError::Storage(detail)
    } else {
        PipelineError::Provider(detail)
    }
}

/// Everything a query run is assembled from.
#[derive(Clone, Debug, PartialEq, Eq)]
pub struct QueryPlan {
    pub question: String,
    /// The provider that embeds the question.
    pub embedding_provider: ProviderHandle,
    /// The provider that writes the answer.
    pub answer_provider: ProviderHandle,
    /// The directory that holds the vector store.
    pub store_dir: String,
}

/// The mathematical content of a [`QueryPlan`].
pub struct QueryPlanView {
    pub question: Seq<char>,
    pub embedding_provider: ProviderHandleView,
    pub answer_provider: ProviderHandleView,
    pub store_dir: Seq<char>,
}

impl View for QueryPlan {
    type V = QueryPlanView;

    open spec fn view(&self) -> QueryPlanView {
        QueryPlanView {
            question: self.question@,
            embedding_provider: self.embedding_provider@,
            answer_provider: self.answer_provider@,
            store_dir: self.store_dir@,
        }
    }
}

/// The space that embeddings lie in: vectors can be compared only where
/// the same model of the same backend computed them.
#[derive(Clone, Debug, PartialEq, Eq)]
pub struct EmbeddingSpace {
    pub backend: Backend,
    pub model: String,
}

/// The mathematical content of an [`EmbeddingSpace`].
pub struct EmbeddingSpaceView {
    pub backend: Backend,
    pub model: Seq<char>,
}

impl View for EmbeddingSpace {
    type V = EmbeddingSpaceView;

    open spec fn view(&self) -> EmbeddingSpaceView {
        EmbeddingSpaceView { backend: self.backend, model: self.model@ }
    }
}

/// The space that a provider embeds into.
pub open spec fn space_of(handle: ProviderHandleView) -> EmbeddingSpaceView {
    EmbeddingSpaceView { backend: handle.backend, model: handle.model }
}

/// Names the space that a provider embeds into.
pub fn embedding_space(handle: &ProviderHandle) -> (space: EmbeddingSpace)
    ensures
        space@ == space_of(handle@),
{
    EmbeddingSpace { backend: handle.backend(), model: handle.model().clone() }
}

/// The plan for answering a question from a repository's index, or the
/// fault of the configuration. `indexed_in` is the space of the index's
/// embeddings, where an index exists. The embedding provider is resolved
/// first, then held against the index, then the answer provider is
/// resolved.
pub open spec fn query_plan(
    repository: RepositoryView,
    build: Availability,
    question: Seq<char>,
    indexed_in: Option<EmbeddingSpaceView>,
) -> Result<QueryPlanView, ConfigurationError> {
    let config = repository.config;
    match resolution(config, build, config.embedding_provider, Capability::EmbeddingGeneration) {
        Err(error) => Err(error),
        Ok(embedding_provider) => if indexed_in is Some && indexed_in != Some(
            space_of(embedding_provider),
        ) {
            Err(ConfigurationError::EmbeddingMismatch)
        } else {
            match resolution(config, build, config.query_provider, Capability::PromptCompletion) {
                Err(error) => Err(error),
                Ok(answer_provider) => Ok(
                    QueryPlanView {
                        question,
                        embedding_provider,
                        answer_provider,
                        store_dir: config.cache_dir,
                    },
                ),
            }
        },
    }
}

/// The content of an assembled plan or of the refusal to assemble one.
pub open spec fn plan_view(outcome: Result<QueryPlan, ConfigurationError>) -> Result<
    QueryPlanView,
    ConfigurationError,
> {
    match outcome {
        Ok(plan) => Ok(plan@),
        Err(error) => Err(error),
    }
}

/// The content of the space of an index, where one exists.
pub open spec fn known_view(space: Option<&EmbeddingSpace>) -> Option<EmbeddingSpaceView> {
    match space {
        Some(space) => Some(space@),
        None => None,
    }
}

/// Tells whether a provider embeds into a space.
pub fn embeds_into(handle: &ProviderHandle, space: &EmbeddingSpace) -> (yes: bool)
    ensures
        yes == (space_of(handle@) == space@),
{
    handle.backend() == space.backend && *handle.model() == space.model
}

/// Assembles the plan for answering a question.
pub fn plan_query(
    repository: &Repository,
    build: &Availability,
    question: String,
    indexed_in: Option<&EmbeddingSpace>,
) -> (outcome: Result<QueryPlan, ConfigurationError>)
    ensures
        plan_view(outcome) == query_plan(repository@, *build, question@, known_view(indexed_in)),
{
    let config = repository.config();
    let embedding_provider = match resolve(
        config,
        build,
        config.embedding_provider(),
        Capability::EmbeddingGeneration,
    ) {
        Ok(handle) => handle,
        Err(error) => {
            return Err(error);
        },
    };
    match indexed_in {
        Some(space) => {
            if !embeds_into(&embedding_provider, space) {
                return Err(ConfigurationError::EmbeddingMismatch);
            }
        },
        None => {},
    }
    let answer_provider = match resolve(
        config,
        build,
        config.query_provider(),
        Capability::PromptCompletion,
    ) {
        Ok(handle) => handle,
        Err(error) => {
            return Err(error);
        },
    };
    Ok(
        QueryPlan {
            question,
            embedding_provider,
            answer_provider,
            store_dir: config.cache_dir().clone(),
        },
    )
}

/// The fragments of one answer, handed out once each and in their order.
/// There is no way to start over.
#[derive(Debug)]
pub struct AnswerStream {
    fragments: Vec<String>,
    taken: usize,
}

impl AnswerStream {
    #[verifier::type_invariant]
    spec fn consistent(self) -> bool {
        self.taken <= self.fragments.len()
    }

    /// The fragments that have not been handed out yet.
    pub closed spec fn remaining(&self) -> Seq<Seq<char>> {
        self.fragments.deep_view().skip(self.taken as int)
    }

    /// A stream that hands out the fragments from the first on.
    pub fn new(fragments: Vec<String>) -> (stream: AnswerStream)
        ensures
            stream.remaining() == fragments.deep_view(),
    {
        AnswerStream { fragments, taken: 0 }
    }

    /// Whether every fragment has been handed out.
    pub fn is_exhausted(&self) -> (exhausted: bool)
        ensures
            exhausted == (self.remaining().len() == 0),
    {
        proof {
            use_type_invariant(self);
        }
        self.taken == self.fragments.len()
    }

    /// Hands out the next fragment, if one is left.
    pub fn next_fragment(&mut self) -> (fragment: Option<String>)
        ensures
            old(self).remaining().len() == 0 ==> fragment is None && final(self).remaining()
                == old(self).remaining(),
            old(self).remaining().len() > 0 ==> fragment.deep_view() == Some(
                old(self).remaining()[0],
            ) && final(self).remaining() == old(self).remaining().skip(1),
    {
        proof {
            use_type_invariant(&*self);
        }
        if self.taken == self.fragments.len() {
            None
        } else {
            let fragment = self.fragments[self.taken].clone();
            self.taken = self.taken + 1;
            Some(fragment)
        }
    }

    /// Hands out the next signal of the run that produced the answer: the
    /// next fragment, or the completion once none is left.
    pub fn next_signal(&mut self) -> (signal: RunSignal)
        ensures
            signal@ == signal_of(old(self).remaining()),
            final(self).remaining() == rest_of(old(self).remaining()),
    {
        match self.next_fragment() {
            Some(fragment) => RunSignal::AnswerChunk(fragment),
            None => RunSignal::Completed,
        }
    }
}

/// The signal that a stream with these fragments left gives next.
pub open spec fn signal_of(remaining: Seq<Seq<char>>) -> RunSignalView {
    if remaining.len() == 0 {
        RunSignalView::Completed
    } else {
        RunSignalView::AnswerChunk(remaining[0])
    }
}

/// The fragments that are left after the next signal.
pub open spec fn rest_of(remaining: Seq<Seq<char>>) -> Seq<Seq<char>> {
    if remaining.len() == 0 {
        remaining
    } else {
        remaining.skip(1)
    }
}

/// An index that was embedded under the configuration in force passes the
/// check of the embedding space: with the space of the provider that the
/// embedding selector resolves to, the plan is the one made without an
/// index.
pub proof fn law_unchanged_configuration_matches_index(
    repository: RepositoryView,
    build: Availability,
    question: Seq<char>,
)
    ensures
        resolution(
            repository.config,
            build,
            repository.config.embedding_provider,
            Capability::EmbeddingGeneration,
        ) matches Ok(handle) ==> query_plan(repository, build, question, Some(space_of(handle)))
            == query_plan(repository, build, question, None),
{
}

/// A question is never embedded into another space than the index: where
/// an index exists, a plan is made only with an embedding provider of the
/// index's space, and a resolvable provider of another space is refused as
/// a mismatch.
pub proof fn law_plan_embeds_into_the_index_space(
    repository: RepositoryView,
    build: Availability,
    question: Seq<char>,
    indexed_in: EmbeddingSpaceView,
)
    ensures
        query_plan(repository, build, question, Some(indexed_in)) matches Ok(plan) ==> space_of(
            plan.embedding_provider,
        ) == indexed_in,
        resolution(
            repository.config,
            build,
            repository.config.embedding_provider,
            Capability::EmbeddingGeneration,
        ) matches Ok(handle) ==> (space_of(handle) != indexed_in ==> query_plan(
            repository,
            build,
            question,
            Some(indexed_in),
        ) == Err::<QueryPlanView, ConfigurationError>(ConfigurationError::EmbeddingMismatch)),
{
}

/// A stream is finite and cannot start over: every signal but the
/// completion shortens what is left by one fragment, and after the
/// completion nothing is left.
pub proof fn law_stream_only_shrinks(remaining: Seq<Seq<char>>)
    ensures
        signal_of(remaining) is AnswerChunk ==> rest_of(remaining).len() + 1 == remaining.len(),
        signal_of(remaining) is Completed <==> remaining.len() == 0,
        signal_of(remaining) is Completed ==> rest_of(remaining).len() == 0,
{
}

} // verus!
