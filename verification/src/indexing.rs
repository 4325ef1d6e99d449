use crate::config::Language;
use crate::coordinator::RunSignalView;
use crate::error::ConfigurationError;
use crate::error::PipelineError;
use crate::error::PipelineErrorView;
use crate::provider::resolution;
use crate::provider::resolve;
use crate::provider::Availability;
use crate::provider::Capability;
use crate::provider::ProviderHandle;
use crate::provider::ProviderHandleView;
use crate::repository::Repository;
use crate::repository::RepositoryView;
use crate::run::Run;
use crate::run::RunView;
use crate::run::Verdict;
use vstd::prelude::*;

verus! {

/// The stages of an indexing run. Each consumes what the one before it
/// produced.
#[derive(Clone, Copy, Debug, PartialEq, Eq, Structural)]
pub enum Stage {
    /// Enumerate the project's files by extension and read them.
    Load,
    /// Split each file into chunks.
    Chunk,
    /// Write metadata for each chunk with the prompt provider.
    Enrich,
    /// Compute embeddings for batches of chunks.
    Embed,
    /// Store each chunk with its embedding and metadata.
    Persist,
}

impl Stage {
    /// The stages in the order in which an item passes them.
    pub open spec fn order() -> Seq<Stage> {
        seq![Stage::Load, Stage::Chunk, Stage::Enrich, Stage::Embed, Stage::Persist]
    }

    /// The place of the stage in the order, counted from zero.
    pub open spec fn position(self) -> int {
        match self {
            Stage::Load => 0,
            Stage::Chunk => 1,
            Stage::Enrich => 2,
            Stage::Embed => 3,
            Stage::Persist => 4,
        }
    }

    /// The stage that every item enters first.
    pub fn first() -> (stage: Stage)
        ensures
            stage == Stage::order()[0],
    {
        Stage::Load
    }

    /// The stage that follows, if any does.
    pub fn next(self) -> (following: Option<Stage>)
        ensures
            following matches Some(stage) ==> stage == Stage::order()[self.position() + 1],
            following is None <==> self.position() + 1 == Stage::order().len(),
    {
        match self {
            Stage::Load => Some(Stage::Chunk),
            Stage::Chunk => Some(Stage::Enrich),
            Stage::Enrich => Some(Stage::Embed),
            Stage::Embed => Some(Stage::Persist),
            Stage::Persist => None,
        }
    }
}

/// The bounds on the size of a chunk, in bytes: the chunker is handed the
/// range from `min` up to, but without, `max`.
#[derive(Clone, Copy, Debug, PartialEq, Eq, Structural)]
pub struct ChunkBounds {
    pub min: usize,
    pub max: usize,
}

/// The lower bound on the size of a chunk of code.
pub const MIN_CHUNK_BYTES: usize = 100;

/// The upper bound on the size of a chunk of code.
pub const MAX_CHUNK_BYTES: usize = 2048;

impl ChunkBounds {
    /// The bounds used for code.
    pub open spec fn code() -> ChunkBounds {
        ChunkBounds { min: MIN_CHUNK_BYTES, max: MAX_CHUNK_BYTES }
    }

    /// Gives the bounds used for code.
    pub fn for_code() -> (bounds: ChunkBounds)
        ensures
            bounds == ChunkBounds::code(),
            bounds.min < bounds.max,
    {
        ChunkBounds { min: MIN_CHUNK_BYTES, max: MAX_CHUNK_BYTES }
    }
}

/// Everything an indexing run is assembled from.
#[derive(Clone, Debug, PartialEq, Eq)]
pub struct IndexingPlan {
    /// The directory whose files are indexed.
    pub root: String,
    pub language: Language,
    /// The extensions, without the dot, of the files to load.
    pub extensions: Vec<String>,
    pub chunk_size: ChunkBounds,
    /// The provider that writes the metadata of each chunk.
    pub metadata_provider: ProviderHandle,
    /// The provider that embeds the chunks.
    pub embedding_provider: ProviderHandle,
    /// The directory that holds the vector store.
    pub store_dir: String,
}

/// The mathematical content of an [`IndexingPlan`].
pub struct IndexingPlanView {
    pub root: Seq<char>,
    pub language: Language,
    pub extensions: Seq<Seq<char>>,
    pub chunk_size: ChunkBounds,
    pub metadata_provider: ProviderHandleView,
    pub embedding_provider: ProviderHandleView,
    pub store_dir: Seq<char>,
}

impl View for IndexingPlan {
    type V = IndexingPlanView;

    open spec fn view(&self) -> IndexingPlanView {
        IndexingPlanView {
            root: self.root@,
            language: self.language,
            extensions: self.extensions.deep_view(),
            chunk_size: self.chunk_size,
            metadata_provider: self.metadata_provider@,
            embedding_provider: self.embedding_provider@,
            store_dir: self.store_dir@,
        }
    }
}

/// The plan for indexing a repository, or the fault of its configuration.
/// The metadata provider is resolved first; where both selectors fail, its
/// error is the one reported. There is no plan with one provider only.
pub open spec fn indexing_plan(repository: RepositoryView, build: Availability) -> Result<
    IndexingPlanView,
    ConfigurationError,
> {
    let config = repository.config;
    match resolution(config, build, config.indexing_provider, Capability::PromptCompletion) {
        Err(error) => Err(error),
        Ok(metadata_provider) => match resolution(
            config,
            build,
            config.embedding_provider,
            Capability::EmbeddingGeneration,
        ) {
            Err(error) => Err(error),
            Ok(embedding_provider) => Ok(
                IndexingPlanView {
                    root: repository.path,
                    language: config.language,
                    extensions: config.language.extensions(),
                    chunk_size: ChunkBounds::code(),
                    metadata_provider,
                    embedding_provider,
                    store_dir: config.cache_dir,
                },
            ),
        },
    }
}

/// The content of an assembled plan or of the refusal to assemble one.
pub open spec fn plan_view(outcome: Result<IndexingPlan, ConfigurationError>) -> Result<
    IndexingPlanView,
    ConfigurationError,
> {
    match outcome {
        Ok(plan) => Ok(plan@),
        Err(error) => Err(error),
    }
}

/// Assembles the plan for indexing a repository.
pub fn plan_indexing(repository: &Repository, build: &Availability) -> (outcome: Result<
    IndexingPlan,
    ConfigurationError,
>)
    ensures
        plan_view(outcome) == indexing_plan(repository@, *build),
{
    let config = repository.config();
    let metadata_provider = match resolve(
        config,
        build,
        config.indexing_provider(),
        Capability::PromptCompletion,
    ) {
        Ok(handle) => handle,
        Err(error) => {
            return Err(error);
        },
    };
    let embedding_provider = match resolve(
        config,
        build,
        config.embedding_provider(),
        Capability::EmbeddingGeneration,
    ) {
        Ok(handle) => handle,
        Err(error) => {
            return Err(error);
        },
    };
    Ok(
        IndexingPlan {
            root: repository.path().clone(),
            language: config.language,
            extensions: config.language.file_extensions(),
            chunk_size: ChunkBounds::for_code(),
            metadata_provider,
            embedding_provider,
            store_dir: config.cache_dir().clone(),
        },
    )
}

/// What went wrong with one item at one stage.
#[derive(Clone, Copy, Debug, PartialEq, Eq, Structural)]
pub enum Cause {
    /// A path could not be enumerated or read; `root` says that it was the
    /// project's root directory itself.
    Io { root: bool },
    /// A provider call failed; `unreachable` says that the provider cannot
    /// be reached at all.
    Provider { unreachable: bool },
    /// The vector store failed.
    Storage,
}

/// What an indexing run does about a fault. A file that cannot be read is
/// skipped unless it is the root; a chunk whose metadata cannot be written
/// is skipped unless the provider is unreachable; everything else ends the
/// run.
pub open spec fn verdict(stage: Stage, cause: Cause) -> Verdict {
    match cause {
        Cause::Io { root } => if root {
            Verdict::Abort
        } else {
            Verdict::Skip
        },
        Cause::Provider { unreachable } => if stage == Stage::Enrich && !unreachable {
            Verdict::Skip
        } else {
            Verdict::Abort
        },
        Cause::Storage => Verdict::Abort,
    }
}

/// Decides what to do about a fault at a stage.
pub fn judge(stage: Stage, cause: Cause) -> (decision: Verdict)
    ensures
        decision == verdict(stage, cause),
{
    match cause {
        Cause::Io { root } => {
            if root {
                Verdict::Abort
            } else {
                Verdict::Skip
            }
        },
        Cause::Provider { unreachable } => {
            if stage == Stage::Enrich && !unreachable {
                Verdict::Skip
            } else {
                Verdict::Abort
            }
        },
        Cause::Storage => Verdict::Abort,
    }
}

/// The error that a fault is reported as.
pub open spec fn error_of(cause: Cause, detail: Seq<char>) -> PipelineErrorView {
    match cause {
        Cause::Io { .. } => PipelineErrorView::Io(detail),
        Cause::Provider { .. } => PipelineErrorView::Provider(detail),
        Cause::Storage => PipelineErrorView::Storage(detail),
    }
}

/// Wraps the detail of a fault into the error of its kind.
pub fn classify(cause: Cause, detail: String) -> (error: PipelineError)
    ensures
        error@ == error_of(cause, detail@),
{
    match cause {
        Cause::Io { .. } => PipelineError::Io(detail),
        Cause::Provider { .. } => PipelineError::Provider(detail),
        Cause::Storage => PipelineError::Storage(detail),
    }
}

/// The kind of fault that a failure at a stage is. Loading and chunking
/// fail on files, enriching and embedding on providers, storing on the
/// store. `grave` says that more than the one item is struck: the root
/// cannot be read, or the provider cannot be reached.
pub open spec fn cause_at(stage: Stage, grave: bool) -> Cause {
    match stage {
        Stage::Load => Cause::Io { root: grave },
        Stage::Chunk => Cause::Io { root: false },
        Stage::Enrich => Cause::Provider { unreachable: grave },
        Stage::Embed => Cause::Provider { unreachable: grave },
        Stage::Persist => Cause::Storage,
    }
}

/// Names the kind of fault that a failure at a stage is.
pub fn cause_of(stage: Stage, grave: bool) -> (cause: Cause)
    ensures
        cause == cause_at(stage, grave),
{
    match stage {
        Stage::Load => Cause::Io { root: grave },
        Stage::Chunk => Cause::Io { root: false },
        Stage::Enrich => Cause::Provider { unreachable: grave },
        Stage::Embed => Cause::Provider { unreachable: grave },
        Stage::Persist => Cause::Storage,
    }
}

/// A failure of one item at a stage, as the pipeline reports it.
#[derive(Clone, Debug, PartialEq, Eq)]
pub struct Fault {
    /// Whether more than the one item is struck.
    pub grave: bool,
    pub detail: String,
}

/// The mathematical content of a [`Fault`].
pub struct FaultView {
    pub grave: bool,
    pub detail: Seq<char>,
}

impl View for Fault {
    type V = FaultView;

    open spec fn view(&self) -> FaultView {
        FaultView { grave: self.grave, detail: self.detail@ }
    }
}

impl DeepView for Fault {
    type V = FaultView;

    open spec fn deep_view(&self) -> FaultView {
        self@
    }
}

/// The run after an item has left a stage, with or without a fault.
pub open spec fn checked(run: RunView, stage: Stage, fault: Option<FaultView>) -> RunView {
    match fault {
        None => run,
        Some(fault) => run.record(
            verdict(stage, cause_at(stage, fault.grave)),
            error_of(cause_at(stage, fault.grave), fault.detail),
        ),
    }
}

/// Whether an item that has left a stage goes on to the next: only without
/// a fault, and only while the run may go on.
pub open spec fn goes_on(run: RunView, fault: Option<FaultView>) -> bool {
    fault is None && run.admits()
}

/// Takes note of an item that has left a stage and says whether it goes on
/// to the next.
pub fn checkpoint(run: &mut Run, stage: Stage, fault: Option<Fault>) -> (onward: bool)
    ensures
        final(run)@ == checked(old(run)@, stage, fault.deep_view()),
        onward == goes_on(old(run)@, fault.deep_view()),
{
    match fault {
        None => run.may_begin(),
        Some(fault) => {
            let cause = cause_of(stage, fault.grave);
            run.record(judge(stage, cause), classify(cause, fault.detail));
            false
        },
    }
}

/// The order holds every stage once, at its position, and the positions
/// rise from loading over chunking, enriching and embedding to storing.
pub proof fn law_stages_are_in_strict_order()
    ensures
        Stage::order().len() == 5,
        forall|stage: Stage| 0 <= #[trigger] stage.position() < Stage::order().len(),
        forall|stage: Stage| Stage::order()[#[trigger] stage.position()] == stage,
        Stage::Load.position() < Stage::Chunk.position() < Stage::Enrich.position()
            < Stage::Embed.position() < Stage::Persist.position(),
{
}

/// A plan exists exactly when both of its providers resolve, and then it
/// holds the two handles, each with the capability of its stage.
pub proof fn law_plan_needs_both_providers(repository: RepositoryView, build: Availability)
    ensures
        indexing_plan(repository, build) is Ok <==> resolution(
            repository.config,
            build,
            repository.config.indexing_provider,
            Capability::PromptCompletion,
        ) is Ok && resolution(
            repository.config,
            build,
            repository.config.embedding_provider,
            Capability::EmbeddingGeneration,
        ) is Ok,
        indexing_plan(repository, build) matches Ok(plan) ==> plan.metadata_provider.capability
            == Capability::PromptCompletion && plan.embedding_provider.capability
            == Capability::EmbeddingGeneration,
{
}

/// A provider that cannot be reached ends the run at whatever stage it is
/// called, and so do every fault of the store and a root that cannot be
/// read.
pub proof fn law_unreachable_provider_ends_the_run(stage: Stage)
    ensures
        verdict(stage, Cause::Provider { unreachable: true }) == Verdict::Abort,
        verdict(stage, Cause::Storage) == Verdict::Abort,
        verdict(stage, Cause::Io { root: true }) == Verdict::Abort,
{
}

/// Once a cancellation was observed or a fault has ended the run, no item
/// passes a checkpoint, at any stage and with or without a fault of its
/// own, and the record of the run stays as it is.
pub proof fn law_nothing_passes_an_ended_run(run: RunView, stage: Stage, fault: Option<FaultView>)
    requires
        !run.admits(),
    ensures
        !goes_on(run, fault),
        checked(run, stage, fault) == run,
{
}

/// A grave fault of a provider or any fault of the store ends the run at
/// its checkpoint with the error of its kind; a fault that strikes one
/// file or one chunk's metadata only is counted and the run goes on.
pub proof fn law_checkpoint_follows_the_verdict(run: RunView, stage: Stage, fault: FaultView)
    requires
        run.admits(),
    ensures
        verdict(stage, cause_at(stage, fault.grave)) == Verdict::Abort ==> !checked(
            run,
            stage,
            Some(fault),
        ).admits() && checked(run, stage, Some(fault)).ending() == RunSignalView::Failed(
            error_of(cause_at(stage, fault.grave), fault.detail),
        ),
        verdict(stage, cause_at(stage, fault.grave)) == Verdict::Skip ==> checked(
            run,
            stage,
            Some(fault),
        ).admits(),
        verdict(stage, cause_at(stage, fault.grave)) == Verdict::Skip <==> !fault.grave && (stage
            == Stage::Load || stage == Stage::Enrich) || stage == Stage::Chunk,
{
}

} // verus!
