//! The loading of a model, step by step.
//!
//! The steps alternate with work outside: every step takes the outcome of the work that was
//! asked for last, and asks for the next one.

use crate::error::{FindAllModelFilesError, FormatLoadError, LoadError};
use crate::lora::LoraAdapter;
use crate::plan::{LoadRequest, ModelContents, PlannedLoad, Refusal};
use crate::progress::LoadProgress;
use crate::tensor_loader::MmapCompatibleLoader;
use crate::tensors::TensorTable;
use std::path::PathBuf;
use vstd::prelude::*;

verus! {

/// The LoRA files of a load.
#[derive(Debug)]
pub struct LoraQueue {
    /// The paths of the files that are still to be read, the current one first.
    pub pending: Vec<PathBuf>,
    /// The adapters of the files that were read.
    pub done: Vec<LoraAdapter>,
}

/// How far a load has come.
#[derive(Debug)]
pub enum LoadState {
    /// It is being checked whether the path exists.
    CheckingPath(LoadRequest),
    /// The files of the model are being looked for.
    FindingFiles(LoadRequest),
    /// The model file is being opened.
    OpeningModel(LoadRequest),
    /// The model file is being read.
    ReadingModel(LoadRequest),
    /// The first pending LoRA file is being opened.
    OpeningLora(PlannedLoad, LoraQueue),
    /// The first pending LoRA file is being read.
    ReadingLora(PlannedLoad, LoraQueue),
    /// The context is being created.
    CreatingContext(PlannedLoad, Option<Vec<LoraAdapter>>),
    /// The size of the context is being reported.
    ReportingContext(PlannedLoad, Option<Vec<LoraAdapter>>),
    /// The model file is being opened again, mapped if that was planned, and measured.
    MappingModel(PlannedLoad, Option<Vec<LoraAdapter>>),
    /// The model is being built from its tensors.
    BuildingModel {
        /// The size of the model file.
        file_size: u64,
        /// The number of tensors in the model file.
        tensor_count: usize,
    },
    /// The end of the load is being reported.
    ReportingLoaded,
    /// The model is loaded.
    Finished,
    /// The load failed.
    Failed,
}

/// The outcome of work that a load asked for.
#[derive(Debug)]
pub enum LoadEvent {
    /// Whether the path of the model exists.
    PathChecked(bool),
    /// The files of the model were looked for.
    FilesFound(Result<Vec<PathBuf>, FindAllModelFilesError>),
    /// A file was opened.
    FileOpened(Result<(), std::io::Error>),
    /// The model file was read.
    ModelRead(Result<ModelContents, FormatLoadError<LoadError>>),
    /// A LoRA file was read.
    LoraRead(Result<TensorTable, FormatLoadError<LoadError>>),
    /// Progress was reported.
    Reported,
    /// The context was created.
    ContextCreated,
    /// The model file was opened again, mapped where that was asked for, and measured.
    ModelMapped(Result<u64, std::io::Error>),
    /// The model was built.
    ModelBuilt(Result<(), LoadError>),
}

/// Work that a load asks for.
#[derive(Debug)]
pub enum LoadAction {
    /// Check whether the path of the model exists.
    CheckPath,
    /// Look for the files of the model.
    FindModelFiles,
    /// Open the model file.
    OpenModelFile,
    /// Read the model file.
    ReadModelFile,
    /// Open a LoRA file.
    OpenLoraFile {
        /// The path of the file.
        path: PathBuf,
    },
    /// Read the LoRA file that was opened.
    ReadLoraFile,
    /// Report progress to the user.
    Report(LoadProgress),
    /// Create the context.
    CreateContext {
        /// The size of the context.
        bytes: usize,
        /// Whether memory for the tensors' data is allocated in it.
        allocate: bool,
    },
    /// Open the model file again, map it into memory if `map` says so, and take its size.
    MapModelFile {
        /// Whether to map the file.
        map: bool,
    },
    /// Build the model from the tensors that the loader loads.
    BuildModel(MmapCompatibleLoader),
    /// Hand the model over: it is loaded.
    Finish,
    /// Give up with an error.
    Fail(LoadError),
    /// Stop: the model cannot be loaded at all.
    Abort(Refusal),
}

impl LoadState {
    /// A file is pending wherever one is being opened or read.
    pub open spec fn wf(self) -> bool {
        match self {
            LoadState::OpeningLora(plan, queue) => queue.pending@.len() > 0,
            LoadState::ReadingLora(plan, queue) => queue.pending@.len() > 0,
            _ => true,
        }
    }

    /// The outcome is one of the work that was asked for.
    pub open spec fn expects(self, event: LoadEvent) -> bool {
        match self {
            LoadState::CheckingPath(_) => event is PathChecked,
            LoadState::FindingFiles(_) => event is FilesFound,
            LoadState::OpeningModel(_) => event is FileOpened,
            LoadState::ReadingModel(_) => event is ModelRead,
            LoadState::OpeningLora(..) => event is FileOpened,
            LoadState::ReadingLora(..) => event is LoraRead,
            LoadState::CreatingContext(..) => event is ContextCreated,
            LoadState::ReportingContext(..) => event is Reported,
            LoadState::MappingModel(..) => event is ModelMapped,
            LoadState::BuildingModel { .. } => event is ModelBuilt,
            LoadState::ReportingLoaded => event is Reported,
            LoadState::Finished => false,
            LoadState::Failed => false,
        }
    }
}

/// The load ends with an error.
pub open spec fn fails(after: LoadState, action: LoadAction, error: LoadError) -> bool {
    after == LoadState::Failed && action == LoadAction::Fail(error)
}

/// The context of `plan` is created: it takes the tensors' data where the file is not mapped.
pub open spec fn creates_context(plan: PlannedLoad) -> LoadAction {
    LoadAction::CreateContext { bytes: plan.context_bytes, allocate: !plan.use_mmap }
}

/// The loader takes the tensors of `plan` from its file, mapped as planned, and patches them
/// with `adapters`; it has loaded none yet.
pub open spec fn loads_for(
    loader: MmapCompatibleLoader,
    plan: PlannedLoad,
    adapters: Option<Vec<LoraAdapter>>,
) -> bool {
    &&& loader.wf()
    &&& loader.path == plan.path
    &&& loader.tensors == plan.tensors
    &&& loader.mapped == plan.use_mmap
    &&& loader.lora_adapters == adapters
    &&& loader.loaded_tensors@ == Set::<Seq<char>>::empty()
}

/// The load goes on with the LoRA files `pending`, after those that gave `done`; with none
/// left it goes on with the context.
pub open spec fn goes_on_with_lora(
    plan: PlannedLoad,
    pending: Seq<PathBuf>,
    done: Seq<LoraAdapter>,
    after: LoadState,
    action: LoadAction,
) -> bool {
    if pending.len() == 0 {
        &&& after matches LoadState::CreatingContext(next, Some(adapters))
        &&& next == plan
        &&& adapters@ == done
        &&& action == creates_context(plan)
    } else {
        &&& after matches LoadState::OpeningLora(next, queue)
        &&& next == plan
        &&& queue.pending@ == pending
        &&& queue.done@ == done
        &&& action == (LoadAction::OpenLoraFile { path: pending[0] })
    }
}

/// From the state `before`, the outcome `event` leads to the state `after`, and `action` is
/// asked for.
pub open spec fn leads_to(
    before: LoadState,
    event: LoadEvent,
    after: LoadState,
    action: LoadAction,
) -> bool {
    match before {
        LoadState::CheckingPath(request) => if event == LoadEvent::PathChecked(true) {
            after == LoadState::FindingFiles(request) && action == LoadAction::FindModelFiles
        } else {
            fails(after, action, LoadError::FileDoesNotExist { path: request.path })
        },
        LoadState::FindingFiles(request) => match event->FilesFound_0 {
            Ok(paths) => if paths@.len() == 1 {
                after == LoadState::OpeningModel(request) && action == LoadAction::OpenModelFile
            } else {
                fails(after, action, LoadError::MultipartNotSupported { paths })
            },
            Err(FindAllModelFilesError::NoParentPath { path }) => fails(
                after,
                action,
                LoadError::NoParentPath { path },
            ),
            Err(FindAllModelFilesError::IO(err)) => fails(after, action, LoadError::Io(err)),
        },
        LoadState::OpeningModel(request) => match event->FileOpened_0 {
            Ok(_) => after == LoadState::ReadingModel(request) && action
                == LoadAction::ReadModelFile,
            Err(source) => fails(
                after,
                action,
                LoadError::OpenFileFailed { source, path: request.path },
            ),
        },
        LoadState::ReadingModel(request) => match event->ModelRead_0 {
            Ok(contents) => match request.refuses(contents) {
                Some(refusal) => after == LoadState::Failed && action == LoadAction::Abort(refusal),
                None => match request.lora_adapters {
                    Some(paths) => {
                        let plan = plan_of(after)->0;
                        &&& plan_of(after) is Some
                        &&& request.plans(contents, plan)
                        &&& goes_on_with_lora(plan, paths@, Seq::empty(), after, action)
                    },
                    None => {
                        &&& after matches LoadState::CreatingContext(plan, adapters)
                        &&& request.plans(contents, plan)
                        &&& adapters is None
                        &&& action == creates_context(plan)
                    },
                },
            },
            Err(err) => fails(after, action, LoadError::of_format_error(err, request.path)),
        },
        LoadState::OpeningLora(plan, queue) => match event->FileOpened_0 {
            Ok(_) => {
                &&& after == LoadState::ReadingLora(plan, queue)
                &&& action == LoadAction::ReadLoraFile
            },
            Err(source) => fails(
                after,
                action,
                LoadError::OpenFileFailed { source, path: queue.pending@[0] },
            ),
        },
        LoadState::ReadingLora(plan, queue) => match event->LoraRead_0 {
            Ok(tensors) => exists|adapter: LoraAdapter| #[trigger]
                adapter.made_of(tensors, queue.pending@[0]) && goes_on_with_lora(
                    plan,
                    queue.pending@.drop_first(),
                    queue.done@.push(adapter),
                    after,
                    action,
                ),
            Err(err) => fails(after, action, LoadError::of_format_error(err, queue.pending@[0])),
        },
        LoadState::CreatingContext(plan, adapters) => {
            &&& after == LoadState::ReportingContext(plan, adapters)
            &&& action == LoadAction::Report(
                LoadProgress::ContextSize { bytes: plan.context_bytes },
            )
        },
        LoadState::ReportingContext(plan, adapters) => {
            &&& after == LoadState::MappingModel(plan, adapters)
            &&& action == (LoadAction::MapModelFile { map: plan.use_mmap })
        },
        LoadState::MappingModel(plan, adapters) => match event->ModelMapped_0 {
            Ok(file_size) => {
                &&& after matches LoadState::BuildingModel { file_size: size, tensor_count }
                &&& size == file_size
                &&& tensor_count == plan.tensors@.len()
                &&& action matches LoadAction::BuildModel(loader)
                &&& loads_for(loader, plan, adapters)
            },
            Err(err) => fails(after, action, LoadError::Io(err)),
        },
        LoadState::BuildingModel { file_size, tensor_count } => match event->ModelBuilt_0 {
            Ok(_) => {
                &&& after == LoadState::ReportingLoaded
                &&& action == LoadAction::Report(LoadProgress::Loaded { file_size, tensor_count })
            },
            Err(err) => fails(after, action, err),
        },
        LoadState::ReportingLoaded => after == LoadState::Finished && action == LoadAction::Finish,
        LoadState::Finished => false,
        LoadState::Failed => false,
    }
}

/// The plan that a load follows, once there is one and until the model is built.
pub open spec fn plan_of(state: LoadState) -> Option<PlannedLoad> {
    match state {
        LoadState::OpeningLora(plan, _) => Some(plan),
        LoadState::ReadingLora(plan, _) => Some(plan),
        LoadState::CreatingContext(plan, _) => Some(plan),
        LoadState::ReportingContext(plan, _) => Some(plan),
        LoadState::MappingModel(plan, _) => Some(plan),
        _ => None,
    }
}

/// Starts a load: the first work is to check the path.
pub fn start(request: LoadRequest) -> (started: (LoadState, LoadAction))
    ensures
        started.0 == LoadState::CheckingPath(request),
        started.1 == LoadAction::CheckPath,
        started.0.wf(),
{
    (LoadState::CheckingPath(request), LoadAction::CheckPath)
}

/// Ends a load with `error`.
fn fail(error: LoadError) -> (step: (LoadState, LoadAction))
    ensures
        fails(step.0, step.1, error),
{
    (LoadState::Failed, LoadAction::Fail(error))
}

/// Goes on with the context.
fn create_context(plan: PlannedLoad, adapters: Option<Vec<LoraAdapter>>) -> (step: (
    LoadState,
    LoadAction,
))
    ensures
        step.0 == LoadState::CreatingContext(plan, adapters),
        step.1 == creates_context(plan),
{
    let bytes: usize = plan.context_bytes;
    let allocate: bool = !plan.use_mmap;
    (LoadState::CreatingContext(plan, adapters), LoadAction::CreateContext { bytes, allocate })
}

/// Goes on with the LoRA files that are left, or with the context.
fn go_on_with_lora(plan: PlannedLoad, queue: LoraQueue) -> (step: (LoadState, LoadAction))
    ensures
        goes_on_with_lora(plan, queue.pending@, queue.done@, step.0, step.1),
        step.0.wf(),
{
    if queue.pending.len() == 0 {
        create_context(plan, Some(queue.done))
    } else {
        let path: PathBuf = queue.pending[0].clone();
        (LoadState::OpeningLora(plan, queue), LoadAction::OpenLoraFile { path })
    }
}

/// Takes the outcome of the work that was asked for last, and says what to do next.
pub fn step(state: LoadState, event: LoadEvent) -> (next: (LoadState, LoadAction))
    requires
        state.wf(),
        state.expects(event),
    ensures
        leads_to(state, event, next.0, next.1),
        next.0.wf(),
{
    match (state, event) {
        (LoadState::CheckingPath(request), LoadEvent::PathChecked(found)) => {
            if found {
                (LoadState::FindingFiles(request), LoadAction::FindModelFiles)
            } else {
                fail(LoadError::FileDoesNotExist { path: request.path })
            }
        },
        (LoadState::FindingFiles(request), LoadEvent::FilesFound(found)) => match found {
            Ok(paths) => {
                if paths.len() != 1 {
                    fail(LoadError::MultipartNotSupported { paths })
                } else {
                    (LoadState::OpeningModel(request), LoadAction::OpenModelFile)
                }
            },
            Err(err) => fail(LoadError::from(err)),
        },
        (LoadState::OpeningModel(request), LoadEvent::FileOpened(opened)) => match opened {
            Ok(_) => (LoadState::ReadingModel(request), LoadAction::ReadModelFile),
            Err(source) => fail(LoadError::OpenFileFailed { source, path: request.path }),
        },
        (LoadState::ReadingModel(request), LoadEvent::ModelRead(read)) => match read {
            Ok(contents) => match request.plan(contents) {
                Ok((plan, lora_adapters)) => match lora_adapters {
                    Some(pending) => go_on_with_lora(
                        plan,
                        LoraQueue { pending, done: Vec::new() },
                    ),
                    None => create_context(plan, None),
                },
                Err(refusal) => (LoadState::Failed, LoadAction::Abort(refusal)),
            },
            Err(err) => fail(LoadError::from_format_error(err, request.path)),
        },
        (LoadState::OpeningLora(plan, queue), LoadEvent::FileOpened(opened)) => match opened {
            Ok(_) => (LoadState::ReadingLora(plan, queue), LoadAction::ReadLoraFile),
            Err(source) => {
                let mut pending: Vec<PathBuf> = queue.pending;
                fail(LoadError::OpenFileFailed { source, path: pending.remove(0) })
            },
        },
        (LoadState::ReadingLora(plan, queue), LoadEvent::LoraRead(read)) => {
            let mut pending: Vec<PathBuf> = queue.pending;
            let path: PathBuf = pending.remove(0);
            assert(pending@ =~= queue.pending@.drop_first());
            match read {
                Ok(tensors) => {
                    let mut done: Vec<LoraAdapter> = queue.done;
                    let adapter: LoraAdapter = LoraAdapter::new(tensors, path);
                    assert(adapter.made_of(tensors, queue.pending@[0]));
                    done.push(adapter);
                    go_on_with_lora(plan, LoraQueue { pending, done })
                },
                Err(err) => fail(LoadError::from_format_error(err, path)),
            }
        },
        (LoadState::CreatingContext(plan, adapters), _) => {
            let bytes: usize = plan.context_bytes;
            (
                LoadState::ReportingContext(plan, adapters),
                LoadAction::Report(LoadProgress::ContextSize { bytes }),
            )
        },
        (LoadState::ReportingContext(plan, adapters), _) => {
            let map: bool = plan.use_mmap;
            (LoadState::MappingModel(plan, adapters), LoadAction::MapModelFile { map })
        },
        (LoadState::MappingModel(plan, adapters), LoadEvent::ModelMapped(mapped)) => match mapped {
            Ok(file_size) => {
                let tensor_count: usize = plan.tensors.len();
                let loader: MmapCompatibleLoader = MmapCompatibleLoader::new(
                    plan.path,
                    plan.tensors,
                    plan.use_mmap,
                    adapters,
                );
                (
                    LoadState::BuildingModel { file_size, tensor_count },
                    LoadAction::BuildModel(loader),
                )
            },
            Err(err) => fail(LoadError::from(err)),
        },
        (
            LoadState::BuildingModel { file_size, tensor_count },
            LoadEvent::ModelBuilt(built),
        ) => match built {
            Ok(_) => (
                LoadState::ReportingLoaded,
                LoadAction::Report(LoadProgress::Loaded { file_size, tensor_count }),
            ),
            Err(err) => fail(err),
        },
        // Only the report of the end is left.
        (_, _) => (LoadState::Finished, LoadAction::Finish),
    }
}

/// Every outcome of the work that was asked for is taken, the good as well as the bad.
pub proof fn every_outcome_is_taken(
    request: LoadRequest,
    plan: PlannedLoad,
    queue: LoraQueue,
    adapters: Option<Vec<LoraAdapter>>,
    sizes: (u64, usize),
    found: bool,
    files: Result<Vec<PathBuf>, FindAllModelFilesError>,
    opened: Result<(), std::io::Error>,
    model: Result<ModelContents, FormatLoadError<LoadError>>,
    lora: Result<TensorTable, FormatLoadError<LoadError>>,
    mapped: Result<u64, std::io::Error>,
    built: Result<(), LoadError>,
)
    ensures
        LoadState::CheckingPath(request).expects(LoadEvent::PathChecked(found)),
        LoadState::FindingFiles(request).expects(LoadEvent::FilesFound(files)),
        LoadState::OpeningModel(request).expects(LoadEvent::FileOpened(opened)),
        LoadState::ReadingModel(request).expects(LoadEvent::ModelRead(model)),
        LoadState::OpeningLora(plan, queue).expects(LoadEvent::FileOpened(opened)),
        LoadState::ReadingLora(plan, queue).expects(LoadEvent::LoraRead(lora)),
        LoadState::CreatingContext(plan, adapters).expects(LoadEvent::ContextCreated),
        LoadState::ReportingContext(plan, adapters).expects(LoadEvent::Reported),
        LoadState::MappingModel(plan, adapters).expects(LoadEvent::ModelMapped(mapped)),
        (LoadState::BuildingModel { file_size: sizes.0, tensor_count: sizes.1 }).expects(
            LoadEvent::ModelBuilt(built),
        ),
        LoadState::ReportingLoaded.expects(LoadEvent::Reported),
{
}

/// A load starts with its request and the check of its path, and a step leads from one state to
/// the next.
pub proof fn steps_lead_on(
    request: LoadRequest,
    started: (LoadState, LoadAction),
    state: LoadState,
    event: LoadEvent,
    next: (LoadState, LoadAction),
)
    requires
        call_ensures(start, (request,), started),
        call_ensures(step, (state, event), next),
    ensures
        started.0 == LoadState::CheckingPath(request),
        started.1 == LoadAction::CheckPath,
        leads_to(state, event, next.0, next.1),
        started.0.wf(),
        next.0.wf(),
{
}

} // verus!
