use kwaak::config::{Config, Language, ProviderConfig};
use kwaak::coordinator::RunSignal;
use kwaak::error::{ConfigurationError, Parameter, PipelineError};
use kwaak::indexing::{
    cause_of, checkpoint, classify, judge, plan_indexing, Cause, ChunkBounds, Fault, Stage,
    MAX_CHUNK_BYTES, MIN_CHUNK_BYTES,
};
use kwaak::provider::{resolve, Availability, Backend, Capability};
use kwaak::query::{
    embedding_space, embeds_into, failure, plan_query, AnswerStream, EmbeddingSpace, Step,
};
use kwaak::repository::Repository;
use kwaak::run::{Run, Verdict};

fn provider(name: &str, backend: &str, embedding_model: &str) -> ProviderConfig {
    ProviderConfig {
        name: name.to_string(),
        backend: backend.to_string(),
        api_key: Some("sk-test".to_string()),
        prompt_model: Some("gpt-4o-mini".to_string()),
        embedding_model: Some(embedding_model.to_string()),
    }
}

fn repository(indexing: &str, embedding: &str, query: &str) -> Repository {
    Repository::from_config(Config {
        language: Language::Typescript,
        providers: vec![
            provider("chat", "openai", "text-embedding-3-small"),
            provider("vectors", "fastembed", "bge-small"),
            provider("large", "openai", "text-embedding-3-large"),
        ],
        indexing_provider: indexing.to_string(),
        embedding_provider: embedding.to_string(),
        query_provider: query.to_string(),
        cache_dir: "/var/cache/project".to_string(),
        log_dir: "/var/log/project".to_string(),
    })
}

fn everything() -> Availability {
    Availability { open_ai: true, ollama: true, fast_embed: true }
}

#[test]
fn the_stages_follow_in_strict_order() {
    assert_eq!(Stage::first(), Stage::Load);
    assert_eq!(Stage::Load.next(), Some(Stage::Chunk));
    assert_eq!(Stage::Chunk.next(), Some(Stage::Enrich));
    assert_eq!(Stage::Enrich.next(), Some(Stage::Embed));
    assert_eq!(Stage::Embed.next(), Some(Stage::Persist));
    assert_eq!(Stage::Persist.next(), None);
}

#[test]
fn code_is_chunked_between_100_and_2048_bytes() {
    assert_eq!(MIN_CHUNK_BYTES, 100);
    assert_eq!(MAX_CHUNK_BYTES, 2048);
    assert_eq!(ChunkBounds::for_code(), ChunkBounds { min: 100, max: 2048 });
}

#[test]
fn an_indexing_plan_holds_what_the_run_needs() {
    let repository = repository("chat", "vectors", "chat");
    let plan = plan_indexing(&repository, &everything()).unwrap();
    assert_eq!(plan.root, ".");
    assert_eq!(plan.language, Language::Typescript);
    assert_eq!(plan.extensions, vec!["ts", "tsx", "js", "jsx"]);
    assert_eq!(plan.chunk_size, ChunkBounds { min: 100, max: 2048 });
    assert_eq!(plan.store_dir, "/var/cache/project");
    assert_eq!(plan.metadata_provider.capability(), Capability::PromptCompletion);
    assert_eq!(plan.metadata_provider.backend(), Backend::OpenAi);
    assert_eq!(plan.metadata_provider.model(), "gpt-4o-mini");
    assert_eq!(plan.embedding_provider.capability(), Capability::EmbeddingGeneration);
    assert_eq!(plan.embedding_provider.backend(), Backend::FastEmbed);
    assert_eq!(plan.embedding_provider.model(), "bge-small");
}

#[test]
fn planning_twice_gives_the_same_plan() {
    let repository = repository("chat", "chat", "chat");
    let first = plan_indexing(&repository, &everything());
    let second = plan_indexing(&repository, &everything());
    assert!(first.is_ok());
    assert_eq!(first, second);
}

#[test]
fn no_indexing_plan_without_both_providers() {
    assert_eq!(
        plan_indexing(&repository("gone", "vectors", "chat"), &everything()),
        Err(ConfigurationError::UnknownProvider)
    );
    assert_eq!(
        plan_indexing(&repository("vectors", "gone", "chat"), &everything()),
        Err(ConfigurationError::CapabilityUnsupported(
            Backend::FastEmbed,
            Capability::PromptCompletion
        ))
    );
    let build = Availability { open_ai: true, ollama: true, fast_embed: false };
    assert_eq!(
        plan_indexing(&repository("chat", "vectors", "chat"), &build),
        Err(ConfigurationError::BackendUnavailable(Backend::FastEmbed))
    );
    assert!(plan_indexing(&repository("chat", "chat", "gone"), &everything()).is_ok());
}

#[test]
fn an_unreadable_file_is_skipped_unless_it_is_the_root() {
    for stage in [Stage::Load, Stage::Chunk, Stage::Enrich, Stage::Embed, Stage::Persist] {
        assert_eq!(judge(stage, Cause::Io { root: false }), Verdict::Skip);
        assert_eq!(judge(stage, Cause::Io { root: true }), Verdict::Abort);
    }
}

#[test]
fn a_chunk_without_metadata_is_skipped_unless_the_provider_is_unreachable() {
    assert_eq!(judge(Stage::Enrich, Cause::Provider { unreachable: false }), Verdict::Skip);
    assert_eq!(judge(Stage::Enrich, Cause::Provider { unreachable: true }), Verdict::Abort);
}

#[test]
fn other_provider_and_storage_faults_end_the_run() {
    for stage in [Stage::Load, Stage::Chunk, Stage::Embed, Stage::Persist] {
        assert_eq!(judge(stage, Cause::Provider { unreachable: false }), Verdict::Abort);
        assert_eq!(judge(stage, Cause::Provider { unreachable: true }), Verdict::Abort);
    }
    for stage in [Stage::Load, Stage::Chunk, Stage::Enrich, Stage::Embed, Stage::Persist] {
        assert_eq!(judge(stage, Cause::Storage), Verdict::Abort);
    }
}

#[test]
fn faults_are_reported_under_their_kind() {
    assert_eq!(
        classify(Cause::Io { root: true }, "no such directory".to_string()),
        PipelineError::Io("no such directory".to_string())
    );
    assert_eq!(
        classify(Cause::Provider { unreachable: false }, "rate limited".to_string()),
        PipelineError::Provider("rate limited".to_string())
    );
    assert_eq!(
        classify(Cause::Storage, "table is locked".to_string()),
        PipelineError::Storage("table is locked".to_string())
    );
}

#[test]
fn a_run_without_faults_completes() {
    let run = Run::new();
    assert!(run.may_begin());
    assert_eq!(run.skipped(), 0);
    assert_eq!(run.finish(), RunSignal::Completed);
}

#[test]
fn two_files_pass_every_stage_of_a_clean_run() {
    let run = Run::new();
    let mut persisted = 0;
    for _file in 0..2 {
        let mut stage = Some(Stage::first());
        while let Some(current) = stage {
            assert!(run.may_begin());
            if current == Stage::Persist {
                persisted += 1;
            }
            stage = current.next();
        }
    }
    assert_eq!(persisted, 2);
    assert_eq!(run.skipped(), 0);
    assert_eq!(run.finish(), RunSignal::Completed);
}

#[test]
fn skipped_items_are_counted_and_the_run_goes_on() {
    let mut run = Run::new();
    run.record(Verdict::Skip, PipelineError::Io("a.ts".to_string()));
    run.record(Verdict::Skip, PipelineError::Provider("chunk 3".to_string()));
    assert!(run.may_begin());
    assert_eq!(run.skipped(), 2);
    assert_eq!(run.finish(), RunSignal::Completed);
}

#[test]
fn an_always_failing_provider_ends_the_run_before_anything_is_stored() {
    let mut run = Run::new();
    let cause = Cause::Provider { unreachable: true };
    let verdict = judge(Stage::Enrich, cause);
    assert_eq!(verdict, Verdict::Abort);
    run.record(verdict, classify(cause, "connection refused".to_string()));
    assert!(!run.may_begin());
    run.record(Verdict::Skip, PipelineError::Io("late".to_string()));
    run.record(Verdict::Abort, PipelineError::Storage("late".to_string()));
    run.cancel();
    assert!(!run.may_begin());
    assert_eq!(run.skipped(), 0);
    assert_eq!(
        run.finish(),
        RunSignal::Failed(PipelineError::Provider("connection refused".to_string()))
    );
}

#[test]
fn no_stage_begins_after_a_cancellation() {
    let mut run = Run::new();
    run.record(Verdict::Skip, PipelineError::Io("a.ts".to_string()));
    run.cancel();
    assert!(!run.may_begin());
    run.record(Verdict::Abort, PipelineError::Provider("aborted call".to_string()));
    run.record(Verdict::Skip, PipelineError::Io("b.ts".to_string()));
    assert!(!run.may_begin());
    assert_eq!(run.skipped(), 1);
    assert_eq!(run.finish(), RunSignal::Stopped);
}

#[test]
fn a_query_plan_holds_what_the_run_needs() {
    let repository = repository("chat", "vectors", "chat");
    let plan =
        plan_query(&repository, &everything(), "where is main?".to_string(), None).unwrap();
    assert_eq!(plan.question, "where is main?");
    assert_eq!(plan.store_dir, "/var/cache/project");
    assert_eq!(plan.embedding_provider.capability(), Capability::EmbeddingGeneration);
    assert_eq!(plan.embedding_provider.backend(), Backend::FastEmbed);
    assert_eq!(plan.answer_provider.capability(), Capability::PromptCompletion);
    assert_eq!(plan.answer_provider.model(), "gpt-4o-mini");
}

#[test]
fn a_query_uses_the_embedding_of_the_index() {
    let repository = repository("chat", "vectors", "chat");
    let index = plan_indexing(&repository, &everything()).unwrap();
    let space = embedding_space(&index.embedding_provider);
    assert_eq!(space, EmbeddingSpace { backend: Backend::FastEmbed, model: "bge-small".to_string() });
    let plan = plan_query(&repository, &everything(), "test".to_string(), Some(&space)).unwrap();
    assert_eq!(plan.embedding_provider, index.embedding_provider);
    assert!(embeds_into(&plan.embedding_provider, &space));
}

#[test]
fn another_embedding_than_the_index_is_a_configuration_error() {
    let local = EmbeddingSpace { backend: Backend::FastEmbed, model: "bge-small".to_string() };
    assert_eq!(
        plan_query(
            &repository("chat", "chat", "chat"),
            &everything(),
            "test".to_string(),
            Some(&local),
        ),
        Err(ConfigurationError::EmbeddingMismatch)
    );
    let small = EmbeddingSpace {
        backend: Backend::OpenAi,
        model: "text-embedding-3-small".to_string(),
    };
    assert_eq!(
        plan_query(
            &repository("chat", "large", "chat"),
            &everything(),
            "test".to_string(),
            Some(&small),
        ),
        Err(ConfigurationError::EmbeddingMismatch)
    );
    assert!(plan_query(
        &repository("chat", "chat", "chat"),
        &everything(),
        "test".to_string(),
        Some(&small),
    )
    .is_ok());
}

#[test]
fn the_embedding_is_checked_before_the_answer_provider() {
    let local = EmbeddingSpace { backend: Backend::FastEmbed, model: "bge-small".to_string() };
    assert_eq!(
        plan_query(
            &repository("chat", "chat", "gone"),
            &everything(),
            "test".to_string(),
            Some(&local),
        ),
        Err(ConfigurationError::EmbeddingMismatch)
    );
    assert_eq!(
        plan_query(
            &repository("chat", "gone", "chat"),
            &everything(),
            "test".to_string(),
            Some(&local),
        ),
        Err(ConfigurationError::UnknownProvider)
    );
}

#[test]
fn embedding_spaces_are_told_apart_by_backend_and_model() {
    let config = repository("chat", "chat", "chat");
    let build = everything();
    let resolve_embedding = |name: &str| {
        resolve(config.config(), &build, &name.to_string(), Capability::EmbeddingGeneration)
            .unwrap()
    };
    let small = resolve_embedding("chat");
    let large = resolve_embedding("large");
    let local = resolve_embedding("vectors");
    assert!(embeds_into(&small, &embedding_space(&small)));
    assert!(!embeds_into(&small, &embedding_space(&large)));
    assert!(!embeds_into(&small, &embedding_space(&local)));
    assert!(!embeds_into(
        &small,
        &EmbeddingSpace { backend: Backend::Ollama, model: "text-embedding-3-small".to_string() }
    ));
}

#[test]
fn the_steps_of_a_query_follow_in_strict_order() {
    assert_eq!(Step::first(), Step::Transform);
    assert_eq!(Step::Transform.next(), Some(Step::Embed));
    assert_eq!(Step::Embed.next(), Some(Step::Retrieve));
    assert_eq!(Step::Retrieve.next(), Some(Step::Answer));
    assert_eq!(Step::Answer.next(), None);
}

#[test]
fn a_failed_retrieval_is_a_fault_of_the_store() {
    assert_eq!(
        failure(Step::Retrieve, "index is missing".to_string()),
        PipelineError::Storage("index is missing".to_string())
    );
    for step in [Step::Transform, Step::Embed, Step::Answer] {
        assert_eq!(
            failure(step, "timeout".to_string()),
            PipelineError::Provider("timeout".to_string())
        );
    }
}

#[test]
fn failures_are_named_by_their_stage() {
    assert_eq!(cause_of(Stage::Load, false), Cause::Io { root: false });
    assert_eq!(cause_of(Stage::Load, true), Cause::Io { root: true });
    assert_eq!(cause_of(Stage::Chunk, false), Cause::Io { root: false });
    assert_eq!(cause_of(Stage::Chunk, true), Cause::Io { root: false });
    assert_eq!(cause_of(Stage::Enrich, false), Cause::Provider { unreachable: false });
    assert_eq!(cause_of(Stage::Enrich, true), Cause::Provider { unreachable: true });
    assert_eq!(cause_of(Stage::Embed, true), Cause::Provider { unreachable: true });
    assert_eq!(cause_of(Stage::Persist, false), Cause::Storage);
    assert_eq!(cause_of(Stage::Persist, true), Cause::Storage);
}

#[test]
fn items_pass_the_checkpoints_of_a_clean_run() {
    let mut run = Run::new();
    let mut stored = 0;
    for _file in 0..2 {
        let mut stage = Some(Stage::first());
        while let Some(current) = stage {
            assert!(checkpoint(&mut run, current, None));
            if current == Stage::Persist {
                stored += 1;
            }
            stage = current.next();
        }
    }
    assert_eq!(stored, 2);
    assert_eq!(run.skipped(), 0);
    assert_eq!(run.finish(), RunSignal::Completed);
}

#[test]
fn a_struck_item_is_dropped_and_the_others_go_on() {
    let mut run = Run::new();
    let unreadable = Fault { grave: false, detail: "a.ts: permission denied".to_string() };
    assert!(!checkpoint(&mut run, Stage::Load, Some(unreadable)));
    let rate_limited = Fault { grave: false, detail: "rate limited".to_string() };
    assert!(!checkpoint(&mut run, Stage::Enrich, Some(rate_limited)));
    assert!(checkpoint(&mut run, Stage::Enrich, None));
    assert!(checkpoint(&mut run, Stage::Persist, None));
    assert_eq!(run.skipped(), 2);
    assert_eq!(run.finish(), RunSignal::Completed);
}

#[test]
fn an_unreachable_provider_lets_nothing_reach_the_store() {
    let mut run = Run::new();
    assert!(checkpoint(&mut run, Stage::Load, None));
    assert!(checkpoint(&mut run, Stage::Chunk, None));
    let refused = Fault { grave: true, detail: "connection refused".to_string() };
    assert!(!checkpoint(&mut run, Stage::Enrich, Some(refused.clone())));
    assert!(!checkpoint(&mut run, Stage::Enrich, Some(refused)));
    assert!(!checkpoint(&mut run, Stage::Enrich, None));
    assert!(!checkpoint(&mut run, Stage::Embed, None));
    assert!(!checkpoint(&mut run, Stage::Persist, None));
    assert_eq!(run.skipped(), 0);
    assert_eq!(
        run.finish(),
        RunSignal::Failed(PipelineError::Provider("connection refused".to_string()))
    );
}

#[test]
fn a_failing_embedding_or_store_ends_the_run() {
    let mut run = Run::new();
    let fault = Fault { grave: false, detail: "bad request".to_string() };
    assert!(!checkpoint(&mut run, Stage::Embed, Some(fault)));
    assert!(!run.may_begin());
    assert_eq!(run.finish(), RunSignal::Failed(PipelineError::Provider("bad request".to_string())));
    let mut run = Run::new();
    let fault = Fault { grave: false, detail: "disk full".to_string() };
    assert!(!checkpoint(&mut run, Stage::Persist, Some(fault)));
    assert_eq!(run.finish(), RunSignal::Failed(PipelineError::Storage("disk full".to_string())));
    let mut run = Run::new();
    let fault = Fault { grave: true, detail: "no such directory".to_string() };
    assert!(!checkpoint(&mut run, Stage::Load, Some(fault)));
    assert_eq!(
        run.finish(),
        RunSignal::Failed(PipelineError::Io("no such directory".to_string()))
    );
}

#[test]
fn nothing_passes_a_checkpoint_after_a_cancellation() {
    let mut run = Run::new();
    assert!(checkpoint(&mut run, Stage::Load, None));
    run.cancel();
    for stage in [Stage::Load, Stage::Chunk, Stage::Enrich, Stage::Embed, Stage::Persist] {
        assert!(!checkpoint(&mut run, stage, None));
    }
    let late = Fault { grave: true, detail: "aborted call".to_string() };
    assert!(!checkpoint(&mut run, Stage::Embed, Some(late)));
    assert_eq!(run.finish(), RunSignal::Stopped);
}

#[test]
fn no_query_plan_without_both_providers() {
    assert_eq!(
        plan_query(&repository("chat", "gone", "chat"), &everything(), "q".to_string(), None),
        Err(ConfigurationError::UnknownProvider)
    );
    assert_eq!(
        plan_query(&repository("chat", "chat", "vectors"), &everything(), "q".to_string(), None),
        Err(ConfigurationError::CapabilityUnsupported(
            Backend::FastEmbed,
            Capability::PromptCompletion
        ))
    );
    let mut broken = provider("chat", "openai", "");
    broken.prompt_model = None;
    let repository = Repository::from_config(Config {
        language: Language::Go,
        providers: vec![broken],
        indexing_provider: "chat".to_string(),
        embedding_provider: "chat".to_string(),
        query_provider: "chat".to_string(),
        cache_dir: "cache".to_string(),
        log_dir: "log".to_string(),
    });
    assert_eq!(
        plan_query(&repository, &everything(), "q".to_string(), None),
        Err(ConfigurationError::MissingParameter(Parameter::EmbeddingModel))
    );
}

#[test]
fn an_answer_is_handed_out_fragment_by_fragment() {
    let mut stream = AnswerStream::new(vec!["fn ".to_string(), "main".to_string()]);
    assert!(!stream.is_exhausted());
    assert_eq!(stream.next_fragment(), Some("fn ".to_string()));
    assert_eq!(stream.next_fragment(), Some("main".to_string()));
    assert!(stream.is_exhausted());
    assert_eq!(stream.next_fragment(), None);
    assert_eq!(stream.next_fragment(), None);
}

#[test]
fn an_answer_ends_with_the_completion() {
    let mut stream = AnswerStream::new(vec!["one".to_string(), "two".to_string()]);
    assert_eq!(stream.next_signal(), RunSignal::AnswerChunk("one".to_string()));
    assert_eq!(stream.next_signal(), RunSignal::AnswerChunk("two".to_string()));
    assert_eq!(stream.next_signal(), RunSignal::Completed);
    assert_eq!(stream.next_signal(), RunSignal::Completed);
    let mut empty = AnswerStream::new(Vec::new());
    assert!(empty.is_exhausted());
    assert_eq!(empty.next_signal(), RunSignal::Completed);
}
