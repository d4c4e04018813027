//! What holds of whole loads.

use crate::error::{FindAllModelFilesError, LoadError};
use crate::lora::LoraAdapter;
use crate::plan::{PlannedLoad, Refusal};
use crate::progress::LoadProgress;
use crate::session::{LoadAction, LoadEvent, LoadState};
use std::path::PathBuf;
use vstd::prelude::*;

verus! {

/// The course of a load: its states, the outcomes that came in, and the work that was asked
/// for after each.
pub struct Run {
    pub states: Seq<LoadState>,
    pub events: Seq<LoadEvent>,
    pub actions: Seq<LoadAction>,
}

impl Run {
    /// The load starts with its path being checked, and every outcome is one of the work that
    /// was asked for and leads to the next state.
    pub open spec fn valid(self) -> bool {
        &&& self.states.len() == self.events.len() + 1
        &&& self.actions.len() == self.events.len()
        &&& self.states[0] is CheckingPath
        &&& forall|i: int|
            0 <= i < self.events.len() ==> #[trigger] self.states[i].expects(self.events[i])
        &&& forall|i: int|
            0 <= i < self.events.len() ==> #[trigger] crate::session::leads_to(
                self.states[i],
                self.events[i],
                self.states[i + 1],
                self.actions[i],
            )
    }

    /// The load has ended with the model.
    pub open spec fn finished(self) -> bool {
        self.valid() && self.states.last() is Finished
    }

    /// The progress that is reported by the work asked for after the outcome `i`.
    pub open spec fn reports(self, i: int) -> Option<LoadProgress> {
        if 0 <= i < self.actions.len() {
            match self.actions[i] {
                LoadAction::Report(progress) => Some(progress),
                _ => None,
            }
        } else {
            None
        }
    }
}

/// The work went wrong, or found a model that is not in one part.
pub open spec fn went_wrong(event: LoadEvent) -> bool {
    match event {
        LoadEvent::PathChecked(found) => !found,
        LoadEvent::FilesFound(Ok(paths)) => paths@.len() != 1,
        LoadEvent::FilesFound(Err(_)) => true,
        LoadEvent::FileOpened(opened) => opened is Err,
        LoadEvent::ModelRead(read) => read is Err,
        LoadEvent::LoraRead(read) => read is Err,
        LoadEvent::Reported => false,
        LoadEvent::ContextCreated => false,
        LoadEvent::ModelMapped(mapped) => mapped is Err,
        LoadEvent::ModelBuilt(built) => built is Err,
    }
}

/// How far a load has come, as a number: every step but those among the LoRA files leads to a
/// higher one.
spec fn stage(state: LoadState) -> int {
    match state {
        LoadState::CheckingPath(_) => 0,
        LoadState::FindingFiles(_) => 1,
        LoadState::OpeningModel(_) => 2,
        LoadState::ReadingModel(_) => 3,
        LoadState::OpeningLora(..) => 4,
        LoadState::ReadingLora(..) => 4,
        LoadState::CreatingContext(..) => 5,
        LoadState::ReportingContext(..) => 6,
        LoadState::MappingModel(..) => 7,
        LoadState::BuildingModel { .. } => 8,
        LoadState::ReportingLoaded => 9,
        LoadState::Finished => 10,
        LoadState::Failed => 11,
    }
}

/// Every outcome of a load is one of the work that was asked for, and leads to the next state.
proof fn step_at(run: Run, i: int)
    requires
        run.valid(),
        0 <= i < run.events.len(),
    ensures
        run.states[i].expects(run.events[i]),
        crate::session::leads_to(
            run.states[i],
            run.events[i],
            run.states[i + 1],
            run.actions[i],
        ),
{
    assert(run.states[i].expects(run.events[i]));
    assert(crate::session::leads_to(
        run.states[i],
        run.events[i],
        run.states[i + 1],
        run.actions[i],
    ));
}

/// An outcome that went wrong ends the load at once: no model is handed over, no further
/// outcome is taken, and the work asked for is to give up with an error.
pub proof fn a_failure_ends_the_load(run: Run, i: int)
    requires
        run.valid(),
        0 <= i < run.events.len(),
        went_wrong(run.events[i]),
    ensures
        i == run.events.len() - 1,
        run.states.last() is Failed,
        run.actions[i] is Fail,
{
    step_at(run, i);
    if i + 1 < run.events.len() {
        step_at(run, i + 1);
    }
}

/// A load that ends with the model met no outcome that went wrong; the model file was the only
/// part that was found.
pub proof fn a_finished_load_met_no_failure(run: Run)
    requires
        run.finished(),
    ensures
        forall|i: int| 0 <= i < run.events.len() ==> !went_wrong(#[trigger] run.events[i]),
{
    assert forall|i: int| 0 <= i < run.events.len() implies !went_wrong(
        #[trigger] run.events[i],
    ) by {
        if went_wrong(run.events[i]) {
            a_failure_ends_the_load(run, i);
        }
    }
}

/// A load that gives up or stops had an outcome that went wrong, or a model that is refused.
pub proof fn only_a_failure_ends_a_load_without_a_model(run: Run, i: int)
    requires
        run.valid(),
        0 <= i < run.events.len(),
        run.states[i + 1] is Failed,
    ensures
        went_wrong(run.events[i]) || (run.states[i] matches LoadState::ReadingModel(request) && (
        run.events[i] matches LoadEvent::ModelRead(Ok(contents)) && request.refuses(
            contents,
        ) is Some)),
{
    step_at(run, i);
}

/// From one state to the next a load comes further, but for the steps among the LoRA files.
proof fn stage_rises(run: Run, i: int)
    requires
        run.valid(),
        0 <= i < run.events.len(),
    ensures
        stage(run.states[i]) <= stage(run.states[i + 1]),
        stage(run.states[i]) != 4 ==> stage(run.states[i]) < stage(run.states[i + 1]),
        stage(run.states[i]) < 10,
{
    step_at(run, i);
}

/// A later state is at least as far.
proof fn stages_rise(run: Run, i: int, j: int)
    requires
        run.valid(),
        0 <= i <= j < run.states.len(),
    ensures
        stage(run.states[i]) <= stage(run.states[j]),
        i < j && stage(run.states[i]) != 4 ==> stage(run.states[i]) < stage(run.states[j]),
    decreases j - i,
{
    if i < j {
        stages_rise(run, i, j - 1);
        stage_rises(run, j - 1);
        if i + 1 < j {
            stage_rises(run, i);
            stages_rise(run, i + 1, j);
        }
    }
}

/// What is reported follows from the states: the size of the context as its report begins, the
/// end of the load as that report begins, and nothing else.
proof fn reports_by_state(run: Run, i: int)
    requires
        run.valid(),
        0 <= i < run.events.len(),
    ensures
        run.reports(i) is Some <==> (run.states[i + 1] is ReportingContext || run.states[i
            + 1] is ReportingLoaded),
        run.states[i + 1] is ReportingContext ==> run.reports(i) == Some(
            LoadProgress::ContextSize { bytes: run.states[i + 1]->ReportingContext_0.context_bytes },
        ),
        run.states[i + 1] is ReportingLoaded ==> run.reports(i)->0 is Loaded,
{
    step_at(run, i);
}

/// A load that ends with the model has reported its context and its end.
proof fn passes_every_stage(run: Run, goal: int)
    requires
        run.finished(),
        goal == 6 || goal == 9,
    ensures
        exists|i: int| 0 < i < run.states.len() && stage(#[trigger] run.states[i]) == goal,
{
    passes_stage_before(run, goal, run.states.len() - 1);
}

/// A load that has come as far as `goal` on the way to the model has passed `goal`.
proof fn passes_stage_before(run: Run, goal: int, j: int)
    requires
        run.valid(),
        0 <= j < run.states.len(),
        goal == 6 || goal == 9,
        goal <= stage(run.states[j]) <= 10,
    ensures
        exists|i: int| 0 < i <= j && stage(#[trigger] run.states[i]) == goal,
    decreases j,
{
    if stage(run.states[j]) == goal {
        assert(j > 0);
    } else {
        assert(j > 0);
        step_at(run, j - 1);
        passes_stage_before(run, goal, j - 1);
        let i = choose|i: int| 0 < i <= j - 1 && stage(#[trigger] run.states[i]) == goal;
        assert(stage(run.states[i]) == goal);
    }
}

/// A load that ends with the model reports the size of its context once, and the end of the
/// load once after it, and nothing else.
pub proof fn a_finished_load_reports_context_and_end(run: Run)
    requires
        run.finished(),
    ensures
        exists|c: int, l: int|
            {
                &&& c < l
                &&& (#[trigger] run.reports(c)) matches Some(LoadProgress::ContextSize { .. })
                &&& (#[trigger] run.reports(l)) matches Some(LoadProgress::Loaded { .. })
                &&& forall|i: int| i != c && i != l ==> (#[trigger] run.reports(i)) is None
            },
{
    passes_every_stage(run, 6);
    passes_every_stage(run, 9);
    let at_context = choose|i: int|
        0 < i < run.states.len() && stage(#[trigger] run.states[i]) == 6;
    let at_end = choose|i: int| 0 < i < run.states.len() && stage(#[trigger] run.states[i]) == 9;
    let c = at_context - 1;
    let l = at_end - 1;
    reports_by_state(run, c);
    reports_by_state(run, l);
    if at_end <= at_context {
        stages_rise(run, at_end, at_context);
    }
    assert forall|i: int| i != c && i != l implies (#[trigger] run.reports(i)) is None by {
        if run.reports(i) is Some {
            reports_by_state(run, i);
            if run.states[i + 1] is ReportingContext {
                if i < c {
                    stages_rise(run, i + 1, at_context);
                } else {
                    stages_rise(run, at_context, i + 1);
                }
            } else {
                if i < l {
                    stages_rise(run, i + 1, at_end);
                } else {
                    stages_rise(run, at_end, i + 1);
                }
            }
        }
    }
    assert(run.reports(c) is Some && run.reports(l) is Some);
}

/// The size of the context is reported once the context is created, and as soon as it is.
pub proof fn the_context_is_reported_when_created(run: Run, i: int)
    requires
        run.valid(),
        0 <= i < run.events.len(),
    ensures
        run.events[i] is ContextCreated <==> (run.reports(i) matches Some(
            LoadProgress::ContextSize { .. },
        )),
        run.events[i] is ContextCreated ==> i > 0 && (
        run.actions[i - 1] matches LoadAction::CreateContext { bytes, .. } && run.reports(i)
            == Some(LoadProgress::ContextSize { bytes })),
{
    step_at(run, i);
    if run.events[i] is ContextCreated {
        step_at(run, i - 1);
    }
}

/// The adapters are those of the files at `paths`, in their order, and each knows the tensors
/// that its own tensors patch.
pub open spec fn adapters_of(paths: Seq<PathBuf>, adapters: Seq<LoraAdapter>) -> bool {
    &&& adapters.len() == paths.len()
    &&& forall|k: int|
        0 <= k < paths.len() ==> (#[trigger] adapters[k]).path == paths[k]
            && adapters[k].tensors_to_patch@ == crate::lora::patch_targets(adapters[k].tensors@)
}

/// There are adapters exactly where adapters were requested, and they are those.
pub open spec fn adapters_as_requested(
    paths: Option<Vec<PathBuf>>,
    adapters: Option<Vec<LoraAdapter>>,
) -> bool {
    match (paths, adapters) {
        (Some(paths), Some(adapters)) => adapters_of(paths@, adapters@),
        (None, None) => true,
        _ => false,
    }
}

/// Every adapter has the tensors of its own file: after the model file was read with the
/// outcome `m`, every LoRA file was opened with one outcome and read with the next.
pub open spec fn adapters_read(run: Run, m: int, adapters: Seq<LoraAdapter>) -> bool {
    forall|k: int|
        0 <= k < adapters.len() ==> run.events[m + 2 + 2 * k] == LoadEvent::LoraRead(
            Ok((#[trigger] adapters[k]).tensors),
        )
}

/// The adapters are those that were requested, with the tensors of their files.
spec fn adapters_follow(run: Run, m: int, adapters: Option<Vec<LoraAdapter>>) -> bool {
    &&& adapters_as_requested(run.states[0]->CheckingPath_0.lora_adapters, adapters)
    &&& adapters matches Some(adapters) ==> adapters_read(run, m, adapters@)
}

/// The state after the outcomes before `j` lies on the way from the model file, read with the
/// outcome `m`, to the model.
spec fn follows(run: Run, m: int, j: int) -> bool {
    let request = run.states[0]->CheckingPath_0;
    let contents = run.events[m]->ModelRead_0->Ok_0;
    match run.states[j] {
        LoadState::OpeningLora(plan, queue) => {
            &&& request.plans(contents, plan)
            &&& lora_follows(run, m, queue)
            &&& j == m + 1 + 2 * queue.done@.len()
        },
        LoadState::ReadingLora(plan, queue) => {
            &&& request.plans(contents, plan)
            &&& lora_follows(run, m, queue)
            &&& j == m + 2 + 2 * queue.done@.len()
        },
        LoadState::CreatingContext(plan, adapters) => {
            &&& request.plans(contents, plan)
            &&& adapters_follow(run, m, adapters)
        },
        LoadState::ReportingContext(plan, adapters) => {
            &&& request.plans(contents, plan)
            &&& adapters_follow(run, m, adapters)
        },
        LoadState::MappingModel(plan, adapters) => {
            &&& request.plans(contents, plan)
            &&& adapters_follow(run, m, adapters)
        },
        LoadState::BuildingModel { file_size, tensor_count } => tensor_count
            == contents.tensors@.len(),
        LoadState::ReportingLoaded => true,
        LoadState::Finished => true,
        LoadState::Failed => true,
        _ => false,
    }
}

/// The files that were read and those that are pending are those requested.
spec fn lora_follows(run: Run, m: int, queue: crate::session::LoraQueue) -> bool {
    let paths = run.states[0]->CheckingPath_0.lora_adapters;
    &&& paths is Some
    &&& queue.pending@.len() > 0
    &&& lora_done(paths->0@, queue.pending@, queue.done@)
    &&& adapters_read(run, m, queue.done@)
}

/// The files that gave `done`, and then those at `pending`, are those at `paths`.
spec fn lora_done(paths: Seq<PathBuf>, pending: Seq<PathBuf>, done: Seq<LoraAdapter>) -> bool {
    &&& done.len() + pending.len() == paths.len()
    &&& pending == paths.skip(done.len() as int)
    &&& adapters_of(paths.take(done.len() as int), done)
}

/// Until the model file is read, the request stays what it was.
proof fn request_stays(run: Run, i: int)
    requires
        run.valid(),
        0 <= i < run.states.len(),
    ensures
        match run.states[i] {
            LoadState::CheckingPath(request) => request == run.states[0]->CheckingPath_0,
            LoadState::FindingFiles(request) => request == run.states[0]->CheckingPath_0,
            LoadState::OpeningModel(request) => request == run.states[0]->CheckingPath_0,
            LoadState::ReadingModel(request) => request == run.states[0]->CheckingPath_0,
            _ => true,
        },
    decreases i,
{
    if i > 0 {
        request_stays(run, i - 1);
        step_at(run, i - 1);
    }
}

/// Going on with the LoRA files keeps to the request.
proof fn going_on_follows(
    run: Run,
    m: int,
    j: int,
    plan: PlannedLoad,
    pending: Seq<PathBuf>,
    done: Seq<LoraAdapter>,
)
    requires
        run.states[0]->CheckingPath_0.plans(run.events[m]->ModelRead_0->Ok_0, plan),
        run.states[0]->CheckingPath_0.lora_adapters is Some,
        lora_done(run.states[0]->CheckingPath_0.lora_adapters->0@, pending, done),
        adapters_read(run, m, done),
        j == m + 1 + 2 * done.len(),
        crate::session::goes_on_with_lora(plan, pending, done, run.states[j], run.actions[j - 1]),
    ensures
        follows(run, m, j),
{
    if pending.len() == 0 {
        let paths = run.states[0]->CheckingPath_0.lora_adapters->0@;
        assert(paths.take(done.len() as int) =~= paths);
    }
}

/// One more LoRA file that is read keeps to the request.
proof fn reading_lora_follows(run: Run, m: int, i: int)
    requires
        run.valid(),
        0 <= m < i < run.events.len(),
        follows(run, m, i),
        run.states[i] is ReadingLora,
        run.events[i] matches LoadEvent::LoraRead(Ok(_)),
    ensures
        follows(run, m, i + 1),
{
    step_at(run, i);
    let tensors = run.events[i]->LoraRead_0->Ok_0;
    let plan = run.states[i]->ReadingLora_0;
    let queue = run.states[i]->ReadingLora_1;
    let adapter = choose|adapter: LoraAdapter| #[trigger]
        adapter.made_of(tensors, queue.pending@[0]) && crate::session::goes_on_with_lora(
            plan,
            queue.pending@.drop_first(),
            queue.done@.push(adapter),
            run.states[i + 1],
            run.actions[i],
        );
    let paths = run.states[0]->CheckingPath_0.lora_adapters->0@;
    let done = queue.done@.push(adapter);
    let n = queue.done@.len() as int;
    assert(queue.pending@[0] == paths[n]);
    assert(queue.pending@.drop_first() =~= paths.skip(n + 1));
    assert forall|k: int| 0 <= k < n + 1 implies (#[trigger] done[k]).path == paths.take(n + 1)[k]
        && done[k].tensors_to_patch@ == crate::lora::patch_targets(done[k].tensors@)
        && run.events[m + 2 + 2 * k] == LoadEvent::LoraRead(Ok(done[k].tensors)) by {
        if k < n {
            assert(done[k] == queue.done@[k]);
            assert(paths.take(n)[k] == paths[k]);
        }
    }
    going_on_follows(run, m, i + 1, plan, queue.pending@.drop_first(), done);
}

/// From the model file on, every state keeps to the request and to what the file holds.
proof fn states_follow(run: Run, m: int, j: int)
    requires
        run.valid(),
        0 <= m < j < run.states.len(),
        run.events[m] matches LoadEvent::ModelRead(Ok(_)),
    ensures
        follows(run, m, j),
    decreases j,
{
    let request = run.states[0]->CheckingPath_0;
    let contents = run.events[m]->ModelRead_0->Ok_0;
    let i = j - 1;
    step_at(run, i);
    if i == m {
        request_stays(run, i);
        if request.refuses(contents) is None {
            if let Some(paths) = request.lora_adapters {
                assert(paths@.skip(0) =~= paths@);
                let plan = crate::session::plan_of(run.states[j])->0;
                going_on_follows(run, m, j, plan, paths@, Seq::empty());
            }
        }
    } else {
        states_follow(run, m, i);
        if run.states[i] is ReadingLora && run.events[i]->LoraRead_0 is Ok {
            reading_lora_follows(run, m, i);
        }
    }
}

/// After a model file with `contents` was read, all the work keeps to the request and to what
/// the file holds: the context has the size that the tensors need, and takes the tensors' data
/// exactly where the file is not mapped; the model is built from the tensors of the file and
/// the adapters that were requested, each with the tensors of its own file; and the end of the
/// load tells how many tensors there are.
pub proof fn the_work_keeps_to_the_request(run: Run, m: int, i: int)
    requires
        run.valid(),
        0 <= m <= i < run.events.len(),
        run.events[m] matches LoadEvent::ModelRead(Ok(_)),
    ensures
        ({
            let request = run.states[0]->CheckingPath_0;
            let contents = run.events[m]->ModelRead_0->Ok_0;
            let maps = request.maps(contents.container_type);
            let size = crate::tensors::total_bytes(contents.tensors@, request.header_size, maps);
            match run.actions[i] {
                LoadAction::Report(LoadProgress::ContextSize { bytes }) => bytes == size,
                LoadAction::Report(LoadProgress::Loaded { tensor_count, .. }) => tensor_count
                    == contents.tensors@.len(),
                LoadAction::Report(_) => false,
                LoadAction::CreateContext { bytes, allocate } => bytes == size && allocate != maps,
                LoadAction::MapModelFile { map } => map == maps,
                LoadAction::BuildModel(loader) => {
                    &&& loader.wf()
                    &&& loader.path == request.path
                    &&& loader.tensors == contents.tensors
                    &&& loader.mapped == maps
                    &&& adapters_as_requested(request.lora_adapters, loader.lora_adapters)
                    &&& adapters_read(run, m, loader.adapters())
                    &&& loader.loaded_tensors@ == Set::<Seq<char>>::empty()
                },
                _ => true,
            }
        }),
{
    states_follow(run, m, i + 1);
    if i > m {
        states_follow(run, m, i);
    }
    step_at(run, i);
    reports_by_state(run, i);
}

/// The end of a load tells the size that was taken of the model file.
pub proof fn the_end_tells_the_file_size(run: Run, k: int, i: int)
    requires
        run.valid(),
        0 <= k < run.events.len(),
        0 <= i < run.events.len(),
        run.events[k] matches LoadEvent::ModelMapped(Ok(_)),
        run.reports(i) matches Some(LoadProgress::Loaded { .. }),
    ensures
        run.reports(i)->0->file_size == run.events[k]->ModelMapped_0->Ok_0,
{
    step_at(run, k);
    step_at(run, i);
    if i < k + 1 {
        stages_rise(run, i, k + 1);
    } else {
        stages_rise(run, k + 1, i);
    }
}

/// The number of LoRA files that are requested.
pub open spec fn lora_count(request: crate::plan::LoadRequest) -> nat {
    match request.lora_adapters {
        Some(paths) => paths@.len(),
        None => 0,
    }
}

/// The number of outcomes until the model is loaded, if none goes wrong.
spec fn outcomes_left(state: LoadState) -> nat {
    match state {
        LoadState::CheckingPath(request) => 9 + 2 * lora_count(request),
        LoadState::FindingFiles(request) => 8 + 2 * lora_count(request),
        LoadState::OpeningModel(request) => 7 + 2 * lora_count(request),
        LoadState::ReadingModel(request) => 6 + 2 * lora_count(request),
        LoadState::OpeningLora(_, queue) => 5 + 2 * queue.pending@.len(),
        LoadState::ReadingLora(_, queue) => 4 + 2 * queue.pending@.len(),
        LoadState::CreatingContext(..) => 5,
        LoadState::ReportingContext(..) => 4,
        LoadState::MappingModel(..) => 3,
        LoadState::BuildingModel { .. } => 2,
        LoadState::ReportingLoaded => 1,
        LoadState::Finished => 0,
        LoadState::Failed => 0,
    }
}

/// Every outcome that does not go wrong brings a load one nearer to its end.
proof fn outcomes_run_out(run: Run, i: int)
    requires
        run.valid(),
        0 <= i < run.states.len(),
        !(run.states[i] is Failed),
    ensures
        i + outcomes_left(run.states[i]) == 9 + 2 * lora_count(run.states[0]->CheckingPath_0),
        run.states[i].wf(),
    decreases i,
{
    if i > 0 {
        step_at(run, i - 1);
        outcomes_run_out(run, i - 1);
    }
}

/// A load ends: it takes nine outcomes to the model and two more for every LoRA file, and
/// fewer or as many where it fails.
pub proof fn a_load_ends(run: Run)
    requires
        run.valid(),
    ensures
        run.events.len() <= 9 + 2 * lora_count(run.states[0]->CheckingPath_0),
        run.finished() ==> run.events.len() == 9 + 2 * lora_count(
            run.states[0]->CheckingPath_0,
        ),
{
    let last = run.events.len() as int;
    if run.states[last] is Failed {
        assert(last > 0);
        step_at(run, last - 1);
        outcomes_run_out(run, last - 1);
    } else {
        outcomes_run_out(run, last);
    }
}

/// The paths of the LoRA files of a load.
pub open spec fn lora_paths(run: Run) -> Seq<PathBuf> {
    match run.states[0]->CheckingPath_0.lora_adapters {
        Some(paths) => paths@,
        None => Seq::empty(),
    }
}

/// Every state of a load that has not failed has its number.
proof fn states_by_number(run: Run, j: int)
    requires
        run.valid(),
        0 <= j < run.states.len(),
        !(run.states[j] is Failed),
    ensures
        ({
            let paths = lora_paths(run);
            let n = paths.len();
            match run.states[j] {
                LoadState::CheckingPath(_) => j == 0,
                LoadState::FindingFiles(_) => j == 1,
                LoadState::OpeningModel(_) => j == 2,
                LoadState::ReadingModel(_) => j == 3,
                LoadState::OpeningLora(_, queue) => {
                    &&& j == 4 + 2 * queue.done@.len()
                    &&& queue.done@.len() < n
                    &&& queue.pending@ == paths.skip(queue.done@.len() as int)
                },
                LoadState::ReadingLora(_, queue) => {
                    &&& j == 5 + 2 * queue.done@.len()
                    &&& queue.done@.len() < n
                    &&& queue.pending@ == paths.skip(queue.done@.len() as int)
                },
                LoadState::CreatingContext(..) => j == 4 + 2 * n,
                LoadState::ReportingContext(..) => j == 5 + 2 * n,
                LoadState::MappingModel(..) => j == 6 + 2 * n,
                LoadState::BuildingModel { .. } => j == 7 + 2 * n,
                LoadState::ReportingLoaded => j == 8 + 2 * n,
                LoadState::Finished => j == 9 + 2 * n,
                LoadState::Failed => true,
            }
        }),
    decreases j,
{
    if j > 0 {
        let i = j - 1;
        let paths = lora_paths(run);
        step_at(run, i);
        request_stays(run, i);
        states_by_number(run, i);
        assert(paths.skip(0) =~= paths);
        if let LoadState::ReadingLora(_, queue) = run.states[i] {
            let k = queue.done@.len() as int;
            assert(queue.pending@.drop_first() =~= paths.skip(k + 1));
        }
    }
}

/// The work of a load in its order. After the path is checked, the files of the model are looked
/// for, and the model file is opened and read. Then the requested LoRA files are opened in their
/// order, each read before the next is opened. Then the context is created and its size
/// reported, the model file is mapped or not, the model is built, the end of the load is
/// reported, and the model is handed over.
pub proof fn the_work_in_its_order(run: Run, i: int)
    requires
        run.valid(),
        0 <= i < run.events.len(),
        !(run.states[i + 1] is Failed),
    ensures
        ({
            let n = lora_paths(run).len() as int;
            &&& i == 0 ==> run.actions[i] is FindModelFiles
            &&& i == 1 ==> run.actions[i] is OpenModelFile
            &&& i == 2 ==> run.actions[i] is ReadModelFile
            &&& 3 <= i < 3 + 2 * n && i % 2 == 1 ==> run.actions[i] == (LoadAction::OpenLoraFile {
                path: lora_paths(run)[(i - 3) / 2],
            })
            &&& 3 <= i < 3 + 2 * n && i % 2 == 0 ==> run.actions[i] is ReadLoraFile
            &&& i == 3 + 2 * n ==> run.actions[i] is CreateContext
            &&& i == 4 + 2 * n ==> (run.actions[i] matches LoadAction::Report(
                LoadProgress::ContextSize { .. },
            ))
            &&& i == 5 + 2 * n ==> run.actions[i] is MapModelFile
            &&& i == 6 + 2 * n ==> run.actions[i] is BuildModel
            &&& i == 7 + 2 * n ==> (run.actions[i] matches LoadAction::Report(
                LoadProgress::Loaded { .. },
            ))
            &&& i == 8 + 2 * n ==> run.actions[i] is Finish && run.finished()
            &&& i <= 8 + 2 * n
        }),
{
    step_at(run, i);
    if run.states[i] is Failed {
        assert(false);
    }
    states_by_number(run, i);
    states_by_number(run, i + 1);
    if i + 1 < run.events.len() {
        step_at(run, i + 1);
    }
}

/// The outcomes of a load in their order: each is one of the work before it.
pub proof fn the_outcomes_in_their_order(run: Run, i: int)
    requires
        run.valid(),
        0 <= i < run.events.len(),
    ensures
        ({
            let n = lora_paths(run).len() as int;
            &&& i == 0 ==> run.events[i] is PathChecked
            &&& i == 1 ==> run.events[i] is FilesFound
            &&& i == 2 ==> run.events[i] is FileOpened
            &&& i == 3 ==> run.events[i] is ModelRead
            &&& 4 <= i < 4 + 2 * n && i % 2 == 0 ==> run.events[i] is FileOpened
            &&& 4 <= i < 4 + 2 * n && i % 2 == 1 ==> run.events[i] is LoraRead
            &&& i == 4 + 2 * n ==> run.events[i] is ContextCreated
            &&& i == 5 + 2 * n ==> run.events[i] is Reported
            &&& i == 6 + 2 * n ==> run.events[i] is ModelMapped
            &&& i == 7 + 2 * n ==> run.events[i] is ModelBuilt
            &&& i == 8 + 2 * n ==> run.events[i] is Reported
            &&& i <= 8 + 2 * n
        }),
{
    step_at(run, i);
    states_by_number(run, i);
}

/// The tensors of the adapter with the number `k` were read from the file at the adapter's own
/// path: that file was asked for, opened, and read, with nothing in between.
pub proof fn adapters_are_read_from_their_own_files(run: Run, i: int, k: int)
    requires
        run.valid(),
        0 <= i < run.events.len(),
        run.actions[i] is BuildModel,
        0 <= k < run.actions[i]->BuildModel_0.adapters().len(),
    ensures
        ({
            let adapter = run.actions[i]->BuildModel_0.adapters()[k];
            &&& run.actions[i]->BuildModel_0.adapters().len() == lora_paths(run).len()
            &&& adapter.path == lora_paths(run)[k]
            &&& run.actions[3 + 2 * k] == (LoadAction::OpenLoraFile { path: adapter.path })
            &&& run.events[4 + 2 * k] matches LoadEvent::FileOpened(Ok(_))
            &&& run.actions[4 + 2 * k] is ReadLoraFile
            &&& run.events[5 + 2 * k] == LoadEvent::LoraRead(Ok(adapter.tensors))
            &&& adapter.tensors_to_patch@ == crate::lora::patch_targets(adapter.tensors@)
        }),
{
    step_at(run, i);
    states_by_number(run, i);
    assert(!(run.states[i + 1] is Failed));
    let n = lora_paths(run).len() as int;
    assert(i == 6 + 2 * n);
    not_failed_before(run, i + 1, 4);
    the_outcomes_in_their_order(run, 3);
    step_at(run, 3);
    assert(run.events[3] matches LoadEvent::ModelRead(Ok(_)));
    the_work_keeps_to_the_request(run, 3, i);
    assert(k < n);
    not_failed_before(run, i + 1, 4 + 2 * k);
    not_failed_before(run, i + 1, 5 + 2 * k);
    the_work_in_its_order(run, 3 + 2 * k);
    the_work_in_its_order(run, 4 + 2 * k);
    assert((3 + 2 * k) % 2 == 1 && (4 + 2 * k) % 2 == 0);
    the_outcomes_in_their_order(run, 4 + 2 * k);
    step_at(run, 4 + 2 * k);
    let adapters = run.actions[i]->BuildModel_0.adapters();
    assert(adapters[k].path == lora_paths(run)[k]);
    assert(run.events[3 + 2 + 2 * k] == LoadEvent::LoraRead(Ok(adapters[k].tensors)));
}

/// A load that goes on has not failed before.
proof fn not_failed_before(run: Run, j: int, i: int)
    requires
        run.valid(),
        0 <= i <= j < run.states.len(),
        !(run.states[j] is Failed),
    ensures
        !(run.states[i] is Failed),
{
    if i < j {
        step_at(run, i);
    }
}

/// The errors that end a load: each names the file that the work was on, where it has room for a
/// path, and keeps what went wrong.
pub proof fn the_errors_of_a_load(run: Run, i: int)
    requires
        run.valid(),
        0 <= i < run.events.len(),
    ensures
        ({
            let path = run.states[0]->CheckingPath_0.path;
            let paths = lora_paths(run);
            match run.events[i] {
                LoadEvent::PathChecked(false) => run.actions[i] == LoadAction::Fail(
                    LoadError::FileDoesNotExist { path },
                ),
                LoadEvent::FilesFound(Ok(found)) => found@.len() != 1 ==> run.actions[i]
                    == LoadAction::Fail(LoadError::MultipartNotSupported { paths: found }),
                LoadEvent::FilesFound(Err(FindAllModelFilesError::NoParentPath { path: child })) => {
                    run.actions[i] == LoadAction::Fail(LoadError::NoParentPath { path: child })
                },
                LoadEvent::FilesFound(Err(FindAllModelFilesError::IO(err))) => run.actions[i]
                    == LoadAction::Fail(LoadError::Io(err)),
                LoadEvent::FileOpened(Err(source)) => run.actions[i] == LoadAction::Fail(
                    LoadError::OpenFileFailed {
                        source,
                        path: if i == 2 {
                            path
                        } else {
                            paths[(i - 4) / 2]
                        },
                    },
                ),
                LoadEvent::ModelRead(Err(err)) => run.actions[i] == LoadAction::Fail(
                    LoadError::of_format_error(err, path),
                ),
                LoadEvent::LoraRead(Err(err)) => run.actions[i] == LoadAction::Fail(
                    LoadError::of_format_error(err, paths[(i - 5) / 2]),
                ),
                LoadEvent::ModelMapped(Err(err)) => run.actions[i] == LoadAction::Fail(
                    LoadError::Io(err),
                ),
                LoadEvent::ModelBuilt(Err(err)) => run.actions[i] == LoadAction::Fail(err),
                _ => !(run.actions[i] is Fail),
            }
        }),
{
    step_at(run, i);
    request_stays(run, i);
    states_by_number(run, i);
}

/// A load is aborted exactly where the model file was read and holds quantized tensors of
/// another version than 2, or a context that is too large; a model without quantized tensors is
/// never aborted for its version.
pub proof fn aborted_loads(run: Run, i: int)
    requires
        run.valid(),
        0 <= i < run.events.len(),
    ensures
        ({
            let request = run.states[0]->CheckingPath_0;
            match run.events[i] {
                LoadEvent::ModelRead(Ok(contents)) => {
                    let version = crate::plan::effective_version(
                        contents.file_type,
                        contents.container_type,
                    );
                    let wrong_version = crate::plan::holds_blocks(contents) && version != 2;
                    let fits = crate::tensors::total_bytes_fit(
                        contents.tensors@,
                        request.header_size,
                        request.prefer_mmap && contents.container_type is Ggjt
                            && request.lora_adapters is None,
                    );
                    &&& wrong_version ==> run.actions[i] == LoadAction::Abort(
                        Refusal::QuantizationVersion { version },
                    )
                    &&& !wrong_version && !fits ==> run.actions[i] == LoadAction::Abort(
                        Refusal::ContextTooLarge,
                    )
                    &&& !wrong_version && fits ==> !(run.states[i + 1] is Failed)
                },
                _ => !(run.actions[i] is Abort),
            }
        }),
{
    step_at(run, i);
    request_stays(run, i);
    if let LoadEvent::ModelRead(Ok(contents)) = run.events[i] {
        crate::plan::refused_models(run.states[0]->CheckingPath_0, contents);
    }
}

} // verus!
