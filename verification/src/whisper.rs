//! Stand-in for a local transcription engine on systems where none is
//! available. Every operation that would need the engine reports that it is
//! not there.

use std::path::PathBuf;
use vstd::prelude::*;
use vstd::string::*;

verus! {

/// `anyhow::Error`, carried through as an opaque value.
#[verifier::external_type_specification]
#[verifier::external_body]
pub struct ExAnyhowError(anyhow::Error);

/// What every operation that needs the engine says.
pub open spec fn unavailable_text() -> Seq<char> {
    "Whisper is not available on Windows. Use Deepgram for transcription."@
}

/// The message that the engine is not available.
pub fn unavailable_message() -> (text: String)
    ensures
        text@ == unavailable_text(),
{
    "Whisper is not available on Windows. Use Deepgram for transcription.".to_owned()
}

/// State of a model on disk.
#[derive(Debug, Clone)]
pub enum ModelStatus {
    Available,
    Missing,
    Downloading { progress: u8 },
    Error(String),
    Corrupted { file_size: u64, expected_min_size: u64 },
}

/// Description of a model.
#[derive(Debug, Clone)]
pub struct ModelInfo {
    pub name: String,
    pub path: PathBuf,
    pub size_mb: u32,
    pub accuracy: String,
    pub speed: String,
    pub status: ModelStatus,
    pub description: String,
}

/// The engine that is not there.
pub struct WhisperEngine;

impl WhisperEngine {
    /// Creates the stand-in. Never fails.
    pub fn new() -> (engine: Result<Self, anyhow::Error>)
        ensures
            engine is Ok,
    {
        Ok(WhisperEngine)
    }

    /// Creates the stand-in; the directory is not looked at. Never fails.
    pub fn new_with_models_dir(_models_dir: Option<PathBuf>) -> (engine: Result<
        Self,
        anyhow::Error,
    >)
        ensures
            engine is Ok,
    {
        Ok(WhisperEngine)
    }

    /// There are no models.
    pub fn available_models(&self) -> (models: Vec<ModelInfo>)
        ensures
            models@.len() == 0,
    {
        Vec::new()
    }

    /// No model is ever loaded.
    pub fn model_loaded(&self) -> (loaded: bool)
        ensures
            !loaded,
    {
        false
    }

    /// There is no current model.
    pub fn current_model(&self) -> (model: Option<String>)
        ensures
            model is None,
    {
        None
    }
}

/// Limits of parallel processing.
#[derive(Debug, Clone)]
pub struct ParallelConfig {
    pub max_workers: usize,
    pub memory_budget_mb: u64,
}

impl Default for ParallelConfig {
    /// One worker and 512 MB.
    fn default() -> (config: Self)
        ensures
            config.max_workers == 1,
            config.memory_budget_mb == 512,
    {
        ParallelConfig { max_workers: 1, memory_budget_mb: 512 }
    }
}

/// Progress of parallel processing.
#[derive(Debug, Clone)]
pub struct ProcessingStatus {
    pub is_processing: bool,
    pub is_paused: bool,
    pub total_chunks: usize,
    pub processed_chunks: usize,
    pub failed_chunks: usize,
    pub current_worker_count: usize,
}

impl ProcessingStatus {
    /// Nothing is being processed and nothing was.
    pub open spec fn is_idle(&self) -> bool {
        &&& !self.is_processing
        &&& !self.is_paused
        &&& self.total_chunks == 0
        &&& self.processed_chunks == 0
        &&& self.failed_chunks == 0
        &&& self.current_worker_count == 0
    }
}

impl Default for ProcessingStatus {
    fn default() -> (status: Self)
        ensures
            status.is_idle(),
    {
        ProcessingStatus {
            is_processing: false,
            is_paused: false,
            total_chunks: 0,
            processed_chunks: 0,
            failed_chunks: 0,
            current_worker_count: 0,
        }
    }
}

/// Whether the system has the resources to go on, and what speaks against
/// it.
#[derive(Debug, Clone)]
pub struct ResourceStatus {
    pub can_proceed: bool,
    pub warnings: Vec<String>,
}

impl ResourceStatus {
    /// The first warning, if there is any.
    pub fn get_primary_constraint(&self) -> (constraint: Option<String>)
        ensures
            self.warnings@.len() == 0 ==> constraint is None,
            self.warnings@.len() > 0 ==> (constraint matches Some(text) && text@
                == self.warnings@[0]@),
    {
        if self.warnings.len() == 0 {
            None
        } else {
            Some(self.warnings[0].clone())
        }
    }
}

/// Observer of system resources.
pub struct SystemMonitor;

impl SystemMonitor {
    /// Creates the observer. It holds nothing.
    pub fn new() -> (monitor: Self)
        ensures
            monitor == SystemMonitor,
    {
        SystemMonitor
    }

    /// Processing cannot proceed: the one warning says that the engine is
    /// not available.
    pub fn resource_constraints(&self) -> (status: ResourceStatus)
        ensures
            !status.can_proceed,
            status.warnings@.len() == 1,
            status.warnings@[0]@ == unavailable_text(),
    {
        let mut warnings: Vec<String> = Vec::new();
        warnings.push(unavailable_message());
        ResourceStatus { can_proceed: false, warnings }
    }

    /// No worker can run safely.
    pub fn safe_worker_count(&self) -> (count: usize)
        ensures
            count == 0,
    {
        0
    }
}

/// The processor that never runs.
pub struct ParallelProcessor;

impl ParallelProcessor {
    /// The status is always idle.
    pub fn processing_status(&self) -> (status: ProcessingStatus)
        ensures
            status.is_idle(),
    {
        ProcessingStatus::default()
    }
}

} // verus!
