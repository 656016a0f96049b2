use meeting_companion::whisper::{
    unavailable_message, ParallelConfig, ParallelProcessor, ProcessingStatus, ResourceStatus,
    SystemMonitor, WhisperEngine,
};

#[test]
fn engine_is_created_but_holds_nothing() {
    let engine = WhisperEngine::new().unwrap();
    assert!(engine.available_models().is_empty());
    assert!(!engine.model_loaded());
    assert!(engine.current_model().is_none());
    assert!(WhisperEngine::new_with_models_dir(None).is_ok());
    assert!(WhisperEngine::new_with_models_dir(Some(std::path::PathBuf::from("models"))).is_ok());
}

#[test]
fn primary_constraint_is_the_first_warning() {
    let status = ResourceStatus {
        can_proceed: false,
        warnings: vec!["low memory".to_string(), "busy".to_string()],
    };
    assert_eq!(status.get_primary_constraint(), Some("low memory".to_string()));
    let status = ResourceStatus { can_proceed: true, warnings: vec![] };
    assert_eq!(status.get_primary_constraint(), None);
}

#[test]
fn monitor_reports_the_missing_engine() {
    let monitor = SystemMonitor::new();
    let status = monitor.resource_constraints();
    assert!(!status.can_proceed);
    assert_eq!(
        status.get_primary_constraint(),
        Some("Whisper is not available on Windows. Use Deepgram for transcription.".to_string())
    );
    assert_eq!(status.warnings, vec![unavailable_message()]);
    assert_eq!(monitor.safe_worker_count(), 0);
}

#[test]
fn defaults() {
    let config = ParallelConfig::default();
    assert_eq!((config.max_workers, config.memory_budget_mb), (1, 512));
    let status = ProcessingStatus::default();
    assert!(!status.is_processing && !status.is_paused);
    assert_eq!(
        (
            status.total_chunks,
            status.processed_chunks,
            status.failed_chunks,
            status.current_worker_count
        ),
        (0, 0, 0, 0)
    );
    let idle = ParallelProcessor.processing_status();
    assert!(!idle.is_processing);
}
