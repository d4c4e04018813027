//! What holds of the loading of tensors as a whole, of one tensor and of several.

use crate::progress::LoadProgress;
use crate::tensor_loader::{TensorAction, TensorContext, TensorEvent, TensorPoint, TensorStage};
use crate::tensors::TensorLoadInfo;
use vstd::prelude::*;

verus! {

/// The course of the loading of one tensor: where it stood, the outcomes that came in, and the
/// work that was asked for after each.
pub struct TensorRun {
    pub context: TensorContext,
    pub points: Seq<TensorPoint>,
    pub events: Seq<TensorEvent>,
    pub actions: Seq<TensorAction>,
}

impl TensorRun {
    /// The loading starts with the tensor being filled, and every outcome is one of the work
    /// that was asked for and leads to the next point.
    pub open spec fn valid(self) -> bool {
        &&& self.points.len() == self.events.len() + 1
        &&& self.actions.len() == self.events.len()
        &&& self.points[0].stage == TensorStage::Reading
        &&& self.context.adapters.len() <= usize::MAX
        &&& forall|i: int|
            0 <= i < self.events.len() ==> #[trigger] self.points[i].stage.expects(self.events[i])
        &&& forall|i: int|
            0 <= i < self.events.len() ==> #[trigger] self.context.next(
                self.points[i],
                self.events[i],
            ) == (self.points[i + 1], self.actions[i])
    }

    /// The loading has ended with the tensor.
    pub open spec fn finished(self) -> bool {
        self.valid() && self.points.last().stage == TensorStage::Finished
    }

    /// The loading has ended without the tensor.
    pub open spec fn failed(self) -> bool {
        self.valid() && self.points.last().stage == TensorStage::Failed
    }

    /// The report that the tensor is loaded, with the number of tensors loaded before it.
    pub open spec fn loaded_report(self) -> TensorAction {
        TensorAction::Report(
            LoadProgress::TensorLoaded {
                current_tensor: self.points[0].loaded.len() as usize,
                tensor_count: self.context.tensor_count,
            },
        )
    }
}

/// The work on a tensor up to the adapter with the number `count`: every adapter is applied in
/// turn, and it is reported of those, and only those, that patch the tensor.
pub open spec fn patch_work(context: TensorContext, count: nat) -> Seq<TensorAction>
    decreases count,
{
    if count == 0 {
        Seq::empty()
    } else {
        let adapter = (count - 1) as nat;
        let applied = patch_work(context, adapter).push(
            TensorAction::Patch { adapter: adapter as usize },
        );
        if context.adapters[adapter as int].tensors_to_patch@.contains(context.name@) {
            applied.push(
                TensorAction::Report(
                    LoadProgress::LoraApplied {
                        name: context.name,
                        source: context.adapters[adapter as int].path,
                    },
                ),
            )
        } else {
            applied
        }
    }
}

/// The work on a tensor that cannot be filled, or that the adapter with the number `adapter`
/// cannot be applied to.
pub open spec fn failed_work(
    context: TensorContext,
    adapter: Option<nat>,
    error: crate::error::LoadError,
) -> Seq<TensorAction> {
    match adapter {
        Some(adapter) => patch_work(context, adapter).push(
            TensorAction::Patch { adapter: adapter as usize },
        ).push(TensorAction::Fail(error)),
        None => seq![TensorAction::Fail(error)],
    }
}

/// The work that was asked for until the stage `stage`.
spec fn work_until(run: TensorRun, stage: TensorStage, work: Seq<TensorAction>) -> bool {
    let context = run.context;
    let count = context.adapters.len();
    match stage {
        TensorStage::Reading => work == Seq::<TensorAction>::empty(),
        TensorStage::Patching(adapter) => {
            &&& adapter < count
            &&& work == patch_work(context, adapter as nat).push(TensorAction::Patch { adapter })
        },
        TensorStage::ReportingPatch(adapter) => {
            &&& adapter < count
            &&& work == patch_work(context, (adapter + 1) as nat)
        },
        TensorStage::ReportingLoaded => work == patch_work(context, count).push(
            run.loaded_report(),
        ),
        TensorStage::Finished => work == patch_work(context, count).push(run.loaded_report()).push(
            TensorAction::Finish,
        ),
        TensorStage::Failed => exists|adapter: Option<nat>, error: crate::error::LoadError|
            {
                &&& adapter matches Some(k) ==> k < count
                &&& work == #[trigger] failed_work(context, adapter, error)
            },
    }
}

/// At every point the work so far is that of the stage, and only the end changes the loaded
/// tensors.
proof fn work_in_order(run: TensorRun, i: int)
    requires
        run.valid(),
        0 <= i < run.points.len(),
    ensures
        work_until(run, run.points[i].stage, run.actions.take(i)),
        run.points[i].loaded == (if run.points[i].stage == TensorStage::Finished {
            run.points[0].loaded.insert(run.context.name@)
        } else {
            run.points[0].loaded
        }),
    decreases i,
{
    if i == 0 {
        assert(run.actions.take(0) =~= Seq::<TensorAction>::empty());
    } else {
        let j = i - 1;
        let context = run.context;
        let before = run.actions.take(j);
        let work = run.actions.take(i);
        work_in_order(run, j);
        assert(run.points[j].stage.expects(run.events[j]));
        assert(context.next(run.points[j], run.events[j]) == (run.points[j + 1], run.actions[j]));
        assert(work =~= before.push(run.actions[j]));
        match run.points[j].stage {
            TensorStage::Reading => {
                if let Err(err) = run.events[j]->DataReady_0 {
                    assert(work =~= failed_work(
                        context,
                        None,
                        crate::error::LoadError::Io(err),
                    ));
                }
            },
            TensorStage::Patching(adapter) => {
                if let Err(error) = run.events[j]->Patched_0 {
                    assert(work == failed_work(context, Some(adapter as nat), error));
                } else if !context.patched_by(adapter as int) {
                    assert(before == patch_work(context, (adapter + 1) as nat));
                }
            },
            _ => {},
        }
    }
}

/// A tensor that is loaded had every adapter applied in their order, those that patch it were
/// reported each before the next one, and then it was reported once that the tensor is loaded,
/// with the number of tensors loaded before it; it is then one of the loaded tensors, and no
/// other one has become one.
pub proof fn a_loaded_tensor_was_patched_in_order(run: TensorRun)
    requires
        run.finished(),
    ensures
        run.actions == patch_work(run.context, run.context.adapters.len()).push(
            run.loaded_report(),
        ).push(TensorAction::Finish),
        run.points.last().loaded == run.points[0].loaded.insert(run.context.name@),
{
    let last = run.points.len() - 1;
    work_in_order(run, last);
    assert(run.actions.take(last) =~= run.actions);
}

/// The work on the adapters reports patches only.
proof fn patch_work_only_patches(context: TensorContext, count: nat)
    ensures
        forall|i: int|
            0 <= i < patch_work(context, count).len() ==> {
                let action = #[trigger] patch_work(context, count)[i];
                action is Patch || action matches TensorAction::Report(
                    LoadProgress::LoraApplied { .. },
                )
            },
    decreases count,
{
    if count > 0 {
        patch_work_only_patches(context, (count - 1) as nat);
    }
}

/// A tensor that fails to load leaves the loaded tensors as they were. Before the failure at
/// most the adapters before the one that failed were applied, in their order, those that patch
/// the tensor were reported, and it was not reported that the tensor is loaded.
pub proof fn a_failed_tensor_changes_nothing(run: TensorRun)
    requires
        run.failed(),
    ensures
        run.points.last().loaded == run.points[0].loaded,
        exists|adapter: Option<nat>, error: crate::error::LoadError|
            {
                &&& adapter matches Some(k) ==> k < run.context.adapters.len()
                &&& run.actions == #[trigger] failed_work(run.context, adapter, error)
            },
        forall|i: int|
            0 <= i < run.actions.len() ==> {
                &&& !((#[trigger] run.actions[i]) matches TensorAction::Report(
                    LoadProgress::TensorLoaded { .. },
                ))
                &&& !(run.actions[i] is Finish)
            },
{
    let last = run.points.len() - 1;
    work_in_order(run, last);
    assert(run.actions.take(last) =~= run.actions);
    let (adapter, error) = choose|adapter: Option<nat>, error: crate::error::LoadError|
        {
            &&& adapter matches Some(k) ==> k < run.context.adapters.len()
            &&& run.actions == #[trigger] failed_work(run.context, adapter, error)
        };
    assert(run.actions == failed_work(run.context, adapter, error));
    if let Some(k) = adapter {
        patch_work_only_patches(run.context, k);
    }
}

/// The names of the tensors that are loaded after all of `runs`, none being loaded before.
pub open spec fn loaded_after(runs: Seq<TensorRun>) -> Set<Seq<char>> {
    if runs.len() == 0 {
        Set::empty()
    } else {
        runs.last().points.last().loaded
    }
}

/// Tensors are loaded one after the other, from a model of which none is loaded yet: every
/// loading ends, with the tensor or without, and starts with what the one before it left.
pub open spec fn in_a_row(runs: Seq<TensorRun>) -> bool {
    forall|i: int|
        #![trigger runs[i]]
        0 <= i < runs.len() ==> {
            &&& runs[i].finished() || runs[i].failed()
            &&& runs[i].points[0].loaded == loaded_after(runs.take(i))
        }
}

/// The names of the tensors whose loading ended with the tensor.
pub open spec fn finished_names(runs: Seq<TensorRun>) -> Set<Seq<char>> {
    Set::new(
        |name: Seq<char>|
            exists|i: int|
                0 <= i < runs.len() && (#[trigger] runs[i]).finished() && runs[i].context.name@
                    == name,
    )
}

/// How many loadings ended with the tensor.
pub open spec fn finished_count(runs: Seq<TensorRun>) -> nat
    decreases runs.len(),
{
    if runs.len() == 0 {
        0
    } else {
        finished_count(runs.drop_last()) + if runs.last().finished() {
            1nat
        } else {
            0nat
        }
    }
}

/// The tensors that are loaded are those whose loading ended with the tensor, and no others.
pub proof fn exactly_the_finished_tensors_are_loaded(runs: Seq<TensorRun>)
    requires
        in_a_row(runs),
    ensures
        loaded_after(runs) == finished_names(runs),
    decreases runs.len(),
{
    if runs.len() == 0 {
        assert(finished_names(runs) =~= Set::empty());
    } else {
        let last = runs.len() - 1;
        let before = runs.take(last);
        let run = runs[last];
        row_so_far(runs, last);
        exactly_the_finished_tensors_are_loaded(before);
        finished_names_with_one_more(runs);
        if run.finished() {
            a_loaded_tensor_was_patched_in_order(run);
        } else {
            a_failed_tensor_changes_nothing(run);
        }
    }
}

/// The first loadings of a row are one.
proof fn row_so_far(runs: Seq<TensorRun>, count: int)
    requires
        in_a_row(runs),
        0 <= count <= runs.len(),
    ensures
        in_a_row(runs.take(count)),
{
    let before = runs.take(count);
    assert forall|i: int| #![trigger before[i]] 0 <= i < before.len() implies {
        &&& before[i].finished() || before[i].failed()
        &&& before[i].points[0].loaded == loaded_after(before.take(i))
    } by {
        assert(before[i] == runs[i]);
        assert(before.take(i) =~= runs.take(i));
    }
}

/// The last loading adds the name of its tensor, if it ended with the tensor.
proof fn finished_names_with_one_more(runs: Seq<TensorRun>)
    requires
        runs.len() > 0,
    ensures
        finished_names(runs) == (if runs.last().finished() {
            finished_names(runs.take(runs.len() - 1)).insert(runs.last().context.name@)
        } else {
            finished_names(runs.take(runs.len() - 1))
        }),
{
    let last = runs.len() - 1;
    let before = runs.take(last);
    assert forall|name: Seq<char>| #[trigger] finished_names(before).contains(name) implies
        finished_names(runs).contains(name) by {
        let i = choose|i: int|
            0 <= i < before.len() && (#[trigger] before[i]).finished() && before[i].context.name@
                == name;
        assert(runs[i] == before[i]);
    }
    assert forall|name: Seq<char>| #[trigger] finished_names(runs).contains(name) implies
        finished_names(before).contains(name) || (runs[last].finished()
        && runs[last].context.name@ == name) by {
        let i = choose|i: int|
            0 <= i < runs.len() && (#[trigger] runs[i]).finished() && runs[i].context.name@ == name;
        if i < last {
            assert(before[i] == runs[i]);
        }
    }
    if runs.last().finished() {
        assert(finished_names(runs).contains(runs[last].context.name@));
        assert(finished_names(runs) =~= finished_names(before).insert(runs[last].context.name@));
    } else {
        assert(finished_names(runs) =~= finished_names(before));
    }
}

/// No two of the loadings that ended with the tensor have the same name.
pub open spec fn finished_once(runs: Seq<TensorRun>) -> bool {
    forall|i: int, j: int|
        0 <= i < j < runs.len() && (#[trigger] runs[i]).finished() && (
        #[trigger] runs[j]).finished() ==> runs[i].context.name@ != runs[j].context.name@
}

/// Where no tensor was loaded twice, there are as many names as loadings that ended with the
/// tensor.
proof fn finished_names_are_counted(runs: Seq<TensorRun>)
    requires
        finished_once(runs),
    ensures
        finished_names(runs).finite(),
        finished_names(runs).len() == finished_count(runs),
    decreases runs.len(),
{
    if runs.len() == 0 {
        assert(finished_names(runs) =~= Set::empty());
    } else {
        let last = runs.len() - 1;
        let before = runs.take(last);
        assert(before =~= runs.drop_last());
        assert forall|i: int, j: int|
            0 <= i < j < before.len() && (#[trigger] before[i]).finished() && (
            #[trigger] before[j]).finished() implies before[i].context.name@
            != before[j].context.name@ by {
            assert(before[i] == runs[i] && before[j] == runs[j]);
        }
        finished_names_are_counted(before);
        finished_names_with_one_more(runs);
        if runs[last].finished() {
            let name = runs[last].context.name@;
            if finished_names(before).contains(name) {
                let i = choose|i: int|
                    0 <= i < before.len() && (#[trigger] before[i]).finished()
                        && before[i].context.name@ == name;
                assert(before[i] == runs[i]);
                assert(false);
            }
        }
    }
}

/// Where every loading ended with the tensor, they are all counted.
proof fn all_are_counted(runs: Seq<TensorRun>)
    requires
        forall|i: int| 0 <= i < runs.len() ==> (#[trigger] runs[i]).finished(),
    ensures
        finished_count(runs) == runs.len(),
    decreases runs.len(),
{
    if runs.len() > 0 {
        let before = runs.drop_last();
        assert forall|i: int| 0 <= i < before.len() implies (#[trigger] before[i]).finished() by {
            assert(before[i] == runs[i]);
        }
        all_are_counted(before);
    }
}

/// While the tensors of a model are loaded, none of them twice, the reports that one is loaded
/// count them from zero on: each tells how many were loaded before it, failures aside, and the
/// number of tensors in the model, which is always higher.
pub proof fn loaded_tensors_are_numbered(
    runs: Seq<TensorRun>,
    infos: Seq<TensorLoadInfo>,
    i: int,
)
    requires
        in_a_row(runs),
        finished_once(runs),
        crate::tensors::names_distinct(infos),
        forall|k: int|
            #![trigger runs[k]]
            0 <= k < runs.len() ==> runs[k].context.tensor_count == infos.len()
                && crate::tensors::by_name(infos).contains_key(runs[k].context.name@),
        0 <= i < runs.len(),
        runs[i].finished(),
    ensures
        runs[i].actions[runs[i].actions.len() - 2] matches TensorAction::Report(
            LoadProgress::TensorLoaded { current_tensor, tensor_count },
        ) && current_tensor == finished_count(runs.take(i)) && tensor_count == infos.len()
            && current_tensor < tensor_count,
        (forall|k: int| 0 <= k < i ==> (#[trigger] runs[k]).finished()) ==> finished_count(
            runs.take(i),
        ) == i,
{
    let before = runs.take(i);
    let name = runs[i].context.name@;
    row_so_far(runs, i);
    exactly_the_finished_tensors_are_loaded(before);
    assert forall|a: int, b: int|
        0 <= a < b < before.len() && (#[trigger] before[a]).finished() && (
        #[trigger] before[b]).finished() implies before[a].context.name@
        != before[b].context.name@ by {
        assert(before[a] == runs[a] && before[b] == runs[b]);
    }
    finished_names_are_counted(before);
    assert forall|other: Seq<char>| #[trigger] finished_names(before).contains(
        other,
    ) implies crate::tensors::by_name(infos).contains_key(other) && other != name by {
        let k = choose|k: int|
            0 <= k < before.len() && (#[trigger] before[k]).finished() && before[k].context.name@
                == other;
        assert(before[k] == runs[k]);
    }
    assert(!finished_names(before).contains(name));
    crate::tensor_loader::loaded_within_count(finished_names(before), infos, name);
    a_loaded_tensor_was_patched_in_order(runs[i]);
    if forall|k: int| 0 <= k < i ==> (#[trigger] runs[k]).finished() {
        assert forall|k: int| 0 <= k < before.len() implies (#[trigger] before[k]).finished() by {
            assert(before[k] == runs[k]);
        }
        all_are_counted(before);
    }
}

/// The loading of a tensor fails exactly where the tensor could not be filled or an adapter
/// could not be applied, at once, and with the error that came in.
pub proof fn a_tensor_fails_with_the_error_that_came_in(run: TensorRun, i: int)
    requires
        run.valid(),
        0 <= i < run.events.len(),
    ensures
        run.events[i] matches TensorEvent::DataReady(Err(err)) ==> run.actions[i]
            == TensorAction::Fail(crate::error::LoadError::Io(err)) && i == run.events.len() - 1,
        run.events[i] matches TensorEvent::Patched(Err(err)) ==> run.actions[i]
            == TensorAction::Fail(err) && i == run.events.len() - 1,
        run.points[i + 1].stage == TensorStage::Failed || run.actions[i] is Fail ==> (
        run.events[i] matches TensorEvent::DataReady(Err(_))) || (
        run.events[i] matches TensorEvent::Patched(Err(_))),
{
    assert(run.points[i].stage.expects(run.events[i]));
    assert(run.context.next(run.points[i], run.events[i]) == (run.points[i + 1], run.actions[i]));
    work_in_order(run, i);
    if i + 1 < run.events.len() {
        assert(run.points[i + 1].stage.expects(run.events[i + 1]));
    }
}

/// The loading of a tensor that has not failed ends: it takes one outcome for the tensor's data,
/// one for every adapter, one for every report of a patch, and one for the report that the
/// tensor is loaded.
pub proof fn the_loading_of_a_tensor_ends(run: TensorRun)
    requires
        run.valid(),
    ensures
        run.events.len() <= patch_work(run.context, run.context.adapters.len()).len() + 2,
        run.finished() ==> run.events.len() == patch_work(
            run.context,
            run.context.adapters.len(),
        ).len() + 2,
{
    let last = run.points.len() - 1;
    let count = run.context.adapters.len();
    work_in_order(run, last);
    assert(run.actions.take(last) =~= run.actions);
    match run.points[last].stage {
        TensorStage::Patching(adapter) => {
            patch_work_grows(run.context, (adapter + 1) as nat, count);
        },
        TensorStage::ReportingPatch(adapter) => {
            patch_work_grows(run.context, (adapter + 1) as nat, count);
        },
        TensorStage::Failed => {
            let (adapter, error) = choose|adapter: Option<nat>, error: crate::error::LoadError|
                {
                    &&& adapter matches Some(k) ==> k < count
                    &&& run.actions == #[trigger] failed_work(run.context, adapter, error)
                };
            if let Some(k) = adapter {
                patch_work_grows(run.context, k + 1, count);
            }
        },
        _ => {},
    }
}

/// More adapters are more work.
proof fn patch_work_grows(context: TensorContext, some: nat, all: nat)
    requires
        some <= all,
    ensures
        patch_work(context, some).len() <= patch_work(context, all).len(),
    decreases all,
{
    if some < all {
        patch_work_grows(context, some, (all - 1) as nat);
    }
}

} // verus!
