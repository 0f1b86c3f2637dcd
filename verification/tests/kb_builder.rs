use mac_aid::error::{BuildCause, BuildError, StorageError};
use mac_aid::error::InferenceError;
use mac_aid::kb_builder::{
    aborted_message, batch_failure_message, build_kb, document_failure_message,
    embed_failure_message, finished_message, progress_message, store_failure_message, BuildAction,
    BuildEvent, KbBuild, KbFlags, BATCH_PAUSE_MS, BATCH_SIZE,
};

const READY: KbFlags = KbFlags { ready: true, rebuilding: false };
const IDLE: KbFlags = KbFlags { ready: false, rebuilding: false };
const BUILDING: KbFlags = KbFlags { ready: false, rebuilding: true };

fn answer(action: BuildAction, batch_ok: bool) -> BuildEvent {
    match action {
        BuildAction::ClearStore => BuildEvent::Cleared,
        BuildAction::EmbedBatch { start, end } => {
            if batch_ok {
                BuildEvent::BatchEmbedded { count: end - start }
            } else {
                BuildEvent::BatchFailed
            }
        }
        BuildAction::StoreBatch { .. } => BuildEvent::Stored,
        BuildAction::EmbedSingle { .. } => BuildEvent::SingleDone,
        BuildAction::ReportProgress { .. } => BuildEvent::Paused,
        BuildAction::CountStored => BuildEvent::Counted { indexed: 0 },
        BuildAction::Finish { .. } => BuildEvent::Paused,
        BuildAction::Abort(_) => BuildEvent::Paused,
    }
}

fn actions(total: usize, rebuild: bool, batch_ok: bool) -> Vec<BuildAction> {
    let mut build = build_kb(total, rebuild, READY);
    let mut seen = vec![build.pending];
    while !build.is_finished() {
        assert!(build.is_well_formed());
        assert_eq!(build.flags, BUILDING);
        assert!(!build.flags.retrieval_allowed());
        let next = build.step(answer(build.pending, batch_ok));
        assert_eq!(next, build.pending);
        seen.push(next);
        assert!(seen.len() <= 3 * total + 5);
    }
    seen
}

#[test]
fn batches_have_ten_documents_and_pause_fifty_milliseconds() {
    assert_eq!(BATCH_SIZE, 10);
    assert_eq!(BATCH_PAUSE_MS, 50);
}

#[test]
fn the_flags_allow_retrieval_only_when_ready_and_not_rebuilding() {
    assert!(READY.retrieval_allowed());
    assert!(!IDLE.retrieval_allowed());
    assert!(!BUILDING.retrieval_allowed());
    assert!(!KbFlags { ready: true, rebuilding: true }.retrieval_allowed());
    assert_eq!(KbFlags::at_startup(true), READY);
    assert_eq!(KbFlags::at_startup(false), IDLE);
    assert_eq!(IDLE.build_started(), BUILDING);
    assert_eq!(READY.build_started(), BUILDING);
    assert_eq!(BUILDING.build_completed(), READY);
}

#[test]
fn a_rebuild_is_not_ready_until_it_completes() {
    let mut build = build_kb(25, true, READY);
    assert_eq!(build.flags, BUILDING);
    assert_eq!(build.pending, BuildAction::ClearStore);
    assert_eq!(build.step(BuildEvent::Cleared), BuildAction::EmbedBatch { start: 0, end: 10 });
    assert_eq!(
        build.step(BuildEvent::BatchEmbedded { count: 10 }),
        BuildAction::StoreBatch { start: 0, end: 10, count: 10 }
    );
    assert_eq!(build.flags, BUILDING);
    assert_eq!(build.step(BuildEvent::Stored), BuildAction::ReportProgress { done: 10 });
    assert_eq!(build.status_message(), Some("Rebuilding: 10/25 commands".to_string()));
    assert_eq!(build.step(BuildEvent::Paused), BuildAction::EmbedBatch { start: 10, end: 20 });
    assert_eq!(
        build.step(BuildEvent::BatchFailed),
        BuildAction::EmbedSingle { start: 10, index: 10, end: 20 }
    );
    for index in 11..20 {
        assert_eq!(
            build.step(BuildEvent::SingleDone),
            BuildAction::EmbedSingle { start: 10, index, end: 20 }
        );
        assert_eq!(build.flags, BUILDING);
    }
    assert_eq!(build.step(BuildEvent::SingleDone), BuildAction::ReportProgress { done: 20 });
    assert_eq!(build.step(BuildEvent::Paused), BuildAction::EmbedBatch { start: 20, end: 25 });
    assert_eq!(
        build.step(BuildEvent::BatchEmbedded { count: 3 }),
        BuildAction::StoreBatch { start: 20, end: 25, count: 3 }
    );
    assert_eq!(build.step(BuildEvent::Stored), BuildAction::ReportProgress { done: 25 });
    assert_eq!(build.status_message(), Some("Rebuilding: 25/25 commands".to_string()));
    assert_eq!(build.step(BuildEvent::Paused), BuildAction::CountStored);
    assert_eq!(build.flags, BUILDING);
    assert!(!build.is_finished());
    assert_eq!(build.step(BuildEvent::Counted { indexed: 18 }), BuildAction::Finish { indexed: 18 });
    assert_eq!(build.flags, READY);
    assert!(build.flags.retrieval_allowed());
    assert!(build.is_finished());
    assert_eq!(
        build.status_message(),
        Some("Knowledge base rebuilt! 18 commands indexed.".to_string())
    );
    assert_eq!(build.step(BuildEvent::Paused), BuildAction::Finish { indexed: 18 });
    assert_eq!(build.flags, READY);
}

#[test]
fn a_first_build_does_not_clear_the_store() {
    let mut build = build_kb(3, false, IDLE);
    assert_eq!(build.flags, BUILDING);
    assert_eq!(build.pending, BuildAction::EmbedBatch { start: 0, end: 3 });
    assert_eq!(build.status_message(), None);
    build.step(BuildEvent::BatchEmbedded { count: 3 });
    build.step(BuildEvent::Stored);
    assert_eq!(build.status_message(), Some("Indexed 3/3 commands".to_string()));
    build.step(BuildEvent::Paused);
    build.step(BuildEvent::Counted { indexed: 3 });
    assert_eq!(
        build.status_message(),
        Some("Knowledge base built: 3 commands indexed.".to_string())
    );
    assert_eq!(build.flags, READY);
}

#[test]
fn a_build_of_nothing_only_counts() {
    let mut build = build_kb(0, false, IDLE);
    assert_eq!(build.pending, BuildAction::CountStored);
    assert_eq!(build.step(BuildEvent::Counted { indexed: 0 }), BuildAction::Finish { indexed: 0 });
    assert_eq!(
        build.status_message(),
        Some("Knowledge base built: 0 commands indexed.".to_string())
    );
    let mut rebuild = build_kb(0, true, READY);
    assert_eq!(rebuild.pending, BuildAction::ClearStore);
    assert_eq!(
        rebuild.status_message(),
        Some("Rebuilding knowledge base...".to_string())
    );
    assert_eq!(rebuild.step(BuildEvent::Cleared), BuildAction::CountStored);
}

#[test]
fn batches_cover_the_documents_in_order() {
    for total in [1usize, 9, 10, 11, 20, 25, 101] {
        for batch_ok in [true, false] {
            let mut next = 0;
            let mut singles = Vec::new();
            for action in actions(total, false, batch_ok) {
                match action {
                    BuildAction::EmbedBatch { start, end } => {
                        assert_eq!(start, next);
                        assert_eq!(end, (start + 10).min(total));
                        next = end;
                    }
                    BuildAction::EmbedSingle { index, .. } => singles.push(index),
                    _ => {}
                }
            }
            assert_eq!(next, total);
            if batch_ok {
                assert!(singles.is_empty());
            } else {
                assert_eq!(singles, (0..total).collect::<Vec<usize>>());
            }
        }
    }
}

#[test]
fn progress_is_reported_after_each_batch_is_stored() {
    let seen = actions(25, false, true);
    assert_eq!(
        seen,
        vec![
            BuildAction::EmbedBatch { start: 0, end: 10 },
            BuildAction::StoreBatch { start: 0, end: 10, count: 10 },
            BuildAction::ReportProgress { done: 10 },
            BuildAction::EmbedBatch { start: 10, end: 20 },
            BuildAction::StoreBatch { start: 10, end: 20, count: 10 },
            BuildAction::ReportProgress { done: 20 },
            BuildAction::EmbedBatch { start: 20, end: 25 },
            BuildAction::StoreBatch { start: 20, end: 25, count: 5 },
            BuildAction::ReportProgress { done: 25 },
            BuildAction::CountStored,
            BuildAction::Finish { indexed: 0 },
        ]
    );
}

#[test]
fn only_as_many_pairs_are_stored_as_embeddings_came_back() {
    let mut build = build_kb(10, false, IDLE);
    assert_eq!(
        build.step(BuildEvent::BatchEmbedded { count: 0 }),
        BuildAction::StoreBatch { start: 0, end: 10, count: 0 }
    );
    let mut build = build_kb(10, false, IDLE);
    assert_eq!(
        build.step(BuildEvent::BatchEmbedded { count: 12 }),
        BuildAction::StoreBatch { start: 0, end: 10, count: 10 }
    );
    let mut build = build_kb(10, false, IDLE);
    assert_eq!(
        build.step(BuildEvent::BatchEmbedded { count: usize::MAX }),
        BuildAction::StoreBatch { start: 0, end: 10, count: 10 }
    );
}

#[test]
fn a_failed_clear_gives_the_build_up_and_keeps_the_index() {
    let mut build = build_kb(5, true, READY);
    let error = BuildError { cause: BuildCause::Storage(StorageError::LockContention), document: None };
    assert_eq!(
        build.step(BuildEvent::ClearFailed(StorageError::LockContention)),
        BuildAction::Abort(error)
    );
    assert!(build.is_finished());
    assert_eq!(build.flags, READY);
    assert_eq!(
        build.status_message(),
        Some("Error rebuilding: storage is locked by another writer".to_string())
    );
    let mut build = build_kb(5, true, IDLE);
    build.step(BuildEvent::ClearFailed(StorageError::Io));
    assert_eq!(build.flags, IDLE);
}

#[test]
fn a_failed_count_gives_the_build_up_and_leaves_it_not_ready() {
    let mut build = build_kb(0, false, READY);
    let error = BuildError { cause: BuildCause::Storage(StorageError::Io), document: None };
    assert_eq!(build.step(BuildEvent::CountFailed(StorageError::Io)), BuildAction::Abort(error));
    assert_eq!(build.flags, IDLE);
    assert_eq!(
        build.status_message(),
        Some("Background KB build failed: storage I/O failure".to_string())
    );
    assert_eq!(build.step(BuildEvent::Counted { indexed: 4 }), BuildAction::Abort(error));
    assert_eq!(build.flags, IDLE);
}

#[test]
fn a_build_ignores_an_event_that_answers_nothing() {
    let mut build = build_kb(12, false, IDLE);
    let before: KbBuild = build;
    for event in [
        BuildEvent::Cleared,
        BuildEvent::ClearFailed(StorageError::Io),
        BuildEvent::Stored,
        BuildEvent::SingleDone,
        BuildEvent::SingleFailed(BuildCause::Storage(StorageError::Io)),
        BuildEvent::Paused,
        BuildEvent::Counted { indexed: 1 },
        BuildEvent::CountFailed(StorageError::Io),
    ] {
        assert_eq!(build.step(event), BuildAction::EmbedBatch { start: 0, end: 10 });
        assert_eq!(build.pending, before.pending);
        assert_eq!(build.flags, before.flags);
    }
}

#[test]
fn a_build_ends_within_three_steps_per_document_and_four() {
    for total in [0usize, 1, 10, 33] {
        for rebuild in [false, true] {
            for batch_ok in [false, true] {
                assert!(actions(total, rebuild, batch_ok).len() <= 3 * total + 5);
            }
        }
    }
    assert_eq!(actions(10, true, false).len(), 15);
}

#[test]
fn status_lines_are_exact() {
    assert_eq!(progress_message(10, 25, false), "Indexed 10/25 commands");
    assert_eq!(progress_message(0, 0, false), "Indexed 0/0 commands");
    assert_eq!(progress_message(10, 25, true), "Rebuilding: 10/25 commands");
    assert_eq!(finished_message(1234, false), "Knowledge base built: 1234 commands indexed.");
    assert_eq!(finished_message(7, true), "Knowledge base rebuilt! 7 commands indexed.");
    assert_eq!(aborted_message("boom", true), "Error rebuilding: boom");
    assert_eq!(aborted_message("boom", false), "Background KB build failed: boom");
    assert_eq!(
        batch_failure_message(20, 30, "exhausted retries"),
        "Batch embedding failed (docs 20-30): exhausted retries"
    );
    assert_eq!(store_failure_message("git", "disk full"), "Failed to store: git: disk full");
    assert_eq!(embed_failure_message("jq", "timeout"), "Failed to embed: jq: timeout");
}

#[test]
fn a_document_that_fails_is_skipped_and_the_build_goes_on() {
    let exhausted = BuildCause::Inference(InferenceError::ExhaustedRetries { last_status: None });
    let mut build = build_kb(3, false, IDLE);
    build.step(BuildEvent::BatchFailed);
    assert_eq!(
        build.step(BuildEvent::SingleFailed(exhausted)),
        BuildAction::EmbedSingle { start: 0, index: 1, end: 3 }
    );
    assert_eq!(
        build.step(BuildEvent::SingleFailed(BuildCause::Storage(StorageError::Io))),
        BuildAction::EmbedSingle { start: 0, index: 2, end: 3 }
    );
    assert_eq!(
        build.step(BuildEvent::SingleFailed(exhausted)),
        BuildAction::ReportProgress { done: 3 }
    );
    assert_eq!(build.flags, BUILDING);
    build.step(BuildEvent::Paused);
    assert_eq!(build.step(BuildEvent::Counted { indexed: 0 }), BuildAction::Finish { indexed: 0 });
    assert_eq!(build.flags, READY);
}

#[test]
fn the_line_for_a_skipped_document_names_the_step_that_failed() {
    let stored = BuildError { cause: BuildCause::Storage(StorageError::Io), document: Some(4) };
    assert_eq!(
        document_failure_message("git", stored),
        "Failed to store: git: storage I/O failure"
    );
    let embedded = BuildError {
        cause: BuildCause::Inference(InferenceError::Status(404)),
        document: Some(5),
    };
    assert_eq!(
        document_failure_message("jq", embedded),
        "Failed to embed: jq: inference request failed: 404"
    );
}

#[test]
fn a_forged_build_is_not_well_formed() {
    let build = build_kb(25, false, IDLE);
    assert!(build.is_well_formed());
    let mut forged = build;
    forged.pending = BuildAction::EmbedBatch { start: 5, end: 15 };
    assert!(!forged.is_well_formed());
    forged.pending = BuildAction::EmbedBatch { start: 20, end: 30 };
    assert!(!forged.is_well_formed());
    forged.pending = BuildAction::EmbedBatch { start: 20, end: 25 };
    assert!(forged.is_well_formed());
    forged.pending = BuildAction::EmbedSingle { start: 20, index: 25, end: 25 };
    assert!(!forged.is_well_formed());
    forged.pending = BuildAction::ReportProgress { done: 7 };
    assert!(!forged.is_well_formed());
    forged.pending = BuildAction::ClearStore;
    assert!(!forged.is_well_formed());
    forged = build;
    forged.flags = READY;
    assert!(!forged.is_well_formed());
}
