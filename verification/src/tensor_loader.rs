//! The loading of a model's tensors, one by one.

use crate::element::ElementType;
use crate::error::LoadError;
use crate::lora::LoraAdapter;
use crate::names::NameSet;
use crate::progress::LoadProgress;
use crate::tensors::{TensorLoadInfo, TensorTable};
use crate::text::append_decimal;
use std::path::PathBuf;
use vstd::prelude::*;

verus! {

/// The dimensions of a tensor that can be created.
#[derive(Debug, Clone, Copy, PartialEq, Eq, Structural)]
pub enum TensorShape {
    /// A tensor with one dimension.
    One(usize),
    /// A tensor with two dimensions.
    Two(usize, usize),
    /// A tensor with three dimensions.
    Three(usize, usize, usize),
}

/// Where a tensor's data comes from.
#[derive(Debug, Clone, Copy, PartialEq, Eq, Structural)]
pub enum TensorData {
    /// The tensor points into the mapped file.
    Mapped {
        /// The place of the data in the file.
        offset: u64,
    },
    /// The data is read from the file into the tensor's own memory.
    Read {
        /// The place of the data in the file.
        offset: u64,
    },
}

/// How a tensor is created and filled.
#[derive(Debug, Clone, Copy, PartialEq, Eq, Structural)]
pub struct TensorPlan {
    /// The type of the tensor's elements.
    pub element_type: ElementType,
    /// The tensor's dimensions.
    pub shape: TensorShape,
    /// Where the tensor's data comes from.
    pub data: TensorData,
}

/// The shape of a tensor with the dimensions `dims`, if there is one.
pub open spec fn shape_of(dims: Seq<usize>) -> Option<TensorShape> {
    if dims.len() == 1 {
        Some(TensorShape::One(dims[0]))
    } else if dims.len() == 2 {
        Some(TensorShape::Two(dims[0], dims[1]))
    } else if dims.len() == 3 {
        Some(TensorShape::Three(dims[0], dims[1], dims[2]))
    } else {
        None
    }
}

/// The error says that what `text` demands does not hold of the file at `path`.
pub open spec fn broken(error: LoadError, path: PathBuf, text: Seq<char>) -> bool {
    &&& error is InvariantBroken
    &&& error->InvariantBroken_path == Some(path)
    &&& error->InvariantBroken_invariant@ == text
}

/// The file that a model's tensors are taken from.
#[derive(Debug)]
pub struct FileContext<'a> {
    /// The path of the file.
    pub path: &'a PathBuf,
    /// Whether the file is mapped.
    pub mapped: bool,
}

impl<'a> FileContext<'a> {
    /// The file at `path`.
    pub fn new(path: &'a PathBuf, mapped: bool) -> (file: Self)
        ensures
            *file.path == *path,
            file.mapped == mapped,
    {
        FileContext { path, mapped }
    }

    /// This is how the tensor of `info` is created and filled, or why it cannot be.
    pub open spec fn plans(self, info: TensorLoadInfo, planned: Result<TensorPlan, LoadError>) -> bool {
        if info.dims@.len() != info.n_dims {
            planned matches Err(error) && broken(
                error,
                *self.path,
                "the tensor "@ + info.name@ + " should have "@ + crate::text::decimal(
                    info.n_dims as nat,
                ) + " dimensions, not "@ + crate::text::decimal(info.dims@.len()),
            )
        } else {
            match shape_of(info.dims@) {
                Some(shape) => planned == Ok::<TensorPlan, LoadError>(
                    TensorPlan {
                        element_type: info.element_type,
                        shape,
                        data: if self.mapped {
                            TensorData::Mapped { offset: info.start_offset }
                        } else {
                            TensorData::Read { offset: info.start_offset }
                        },
                    },
                ),
                None => planned matches Err(error) && broken(
                    error,
                    *self.path,
                    "the tensor "@ + info.name@
                        + " should have between 1 and 3 dimensions, not "@ + crate::text::decimal(
                        info.dims@.len(),
                    ),
                ),
            }
        }
    }

    /// Decides how the tensor of `info` is created and filled.
    pub fn get_tensor(&self, info: &TensorLoadInfo) -> (planned: Result<TensorPlan, LoadError>)
        ensures
            self.plans(*info, planned),
            planned is Ok <==> info.n_dims == info.dims@.len() && 1 <= info.n_dims <= 3,
            planned matches Ok(plan) ==> {
                &&& plan.element_type == info.element_type
                &&& info.n_dims == 1 ==> plan.shape == TensorShape::One(info.dims@[0])
                &&& info.n_dims == 2 ==> plan.shape == TensorShape::Two(
                    info.dims@[0],
                    info.dims@[1],
                )
                &&& info.n_dims == 3 ==> plan.shape == TensorShape::Three(
                    info.dims@[0],
                    info.dims@[1],
                    info.dims@[2],
                )
                &&& self.mapped ==> (plan.data matches TensorData::Mapped { offset } && offset
                    == info.start_offset)
                &&& !self.mapped ==> (plan.data matches TensorData::Read { offset } && offset
                    == info.start_offset)
            },
    {
        let dims: usize = info.dims.len();
        if dims != info.n_dims {
            let mut text: String = "the tensor ".to_owned();
            text.append(info.name.as_str());
            text.append(" should have ");
            append_decimal(&mut text, info.n_dims as u64);
            text.append(" dimensions, not ");
            append_decimal(&mut text, dims as u64);
            return Err(
                LoadError::InvariantBroken { path: Some(self.path.clone()), invariant: text },
            );
        }
        let shape: TensorShape = match dims {
            1 => TensorShape::One(info.dims[0]),
            2 => TensorShape::Two(info.dims[0], info.dims[1]),
            3 => TensorShape::Three(info.dims[0], info.dims[1], info.dims[2]),
            _ => {
                let mut text: String = "the tensor ".to_owned();
                text.append(info.name.as_str());
                text.append(" should have between 1 and 3 dimensions, not ");
                append_decimal(&mut text, dims as u64);
                return Err(
                    LoadError::InvariantBroken { path: Some(self.path.clone()), invariant: text },
                );
            },
        };
        let offset: u64 = info.start_offset;
        let data: TensorData = if self.mapped {
            TensorData::Mapped { offset }
        } else {
            TensorData::Read { offset }
        };
        Ok(TensorPlan { element_type: info.element_type, shape, data })
    }
}

/// How far the loading of a tensor has come.
#[derive(Debug, Clone, Copy, PartialEq, Eq, Structural)]
pub enum TensorStage {
    /// The tensor is being created and filled.
    Reading,
    /// The adapter with the given number is being applied.
    Patching(usize),
    /// It is being reported that the adapter with the given number was applied.
    ReportingPatch(usize),
    /// It is being reported that the tensor is loaded.
    ReportingLoaded,
    /// The tensor is loaded.
    Finished,
    /// The loading failed.
    Failed,
}

/// The outcome of work that the loading of a tensor asked for.
#[derive(Debug)]
pub enum TensorEvent {
    /// The tensor was created and filled.
    DataReady(Result<(), std::io::Error>),
    /// An adapter was applied.
    Patched(Result<(), LoadError>),
    /// Progress was reported.
    Reported,
}

/// Work that the loading of a tensor asks for.
#[derive(Debug)]
pub enum TensorAction {
    /// Apply an adapter to the tensor.
    Patch {
        /// The number of the adapter.
        adapter: usize,
    },
    /// Report progress to the user.
    Report(LoadProgress),
    /// Hand the tensor over: it is loaded.
    Finish,
    /// Give up with an error.
    Fail(LoadError),
}

/// A tensor that is being loaded.
#[derive(Debug)]
pub struct TensorRequest {
    /// The name of the tensor.
    pub name: String,
    /// How far its loading has come.
    pub stage: TensorStage,
}

/// What does not change while the tensor `name` is loaded.
pub struct TensorContext {
    /// The name of the tensor.
    pub name: String,
    /// The adapters, in the order of their use.
    pub adapters: Seq<LoraAdapter>,
    /// The number of tensors in the model.
    pub tensor_count: usize,
}

/// Where the loading of a tensor stands: its stage, and the names of the tensors that are
/// loaded.
pub struct TensorPoint {
    pub stage: TensorStage,
    pub loaded: Set<Seq<char>>,
}

impl TensorContext {
    /// The stage is one of a load with these adapters.
    pub open spec fn allows(self, stage: TensorStage) -> bool {
        match stage {
            TensorStage::Patching(adapter) => adapter < self.adapters.len(),
            TensorStage::ReportingPatch(adapter) => adapter < self.adapters.len(),
            _ => true,
        }
    }

    /// The adapter with the number `adapter` patches the tensor; any other one leaves it as it
    /// is.
    pub open spec fn patched_by(self, adapter: int) -> bool {
        self.adapters[adapter].tensors_to_patch@.contains(self.name@)
    }

    /// The point and the work when the adapters before the number `adapter` were applied.
    pub open spec fn after_patches(self, adapter: int, loaded: Set<Seq<char>>) -> (
        TensorPoint,
        TensorAction,
    ) {
        if adapter < self.adapters.len() {
            (
                TensorPoint { stage: TensorStage::Patching(adapter as usize), loaded },
                TensorAction::Patch { adapter: adapter as usize },
            )
        } else {
            (
                TensorPoint { stage: TensorStage::ReportingLoaded, loaded },
                TensorAction::Report(
                    LoadProgress::TensorLoaded {
                        current_tensor: loaded.len() as usize,
                        tensor_count: self.tensor_count,
                    },
                ),
            )
        }
    }

    /// The next point, and the work that is asked for.
    pub open spec fn next(self, point: TensorPoint, event: TensorEvent) -> (
        TensorPoint,
        TensorAction,
    ) {
        let loaded = point.loaded;
        match point.stage {
            TensorStage::Reading => match event->DataReady_0 {
                Ok(_) => self.after_patches(0, loaded),
                Err(err) => (
                    TensorPoint { stage: TensorStage::Failed, loaded },
                    TensorAction::Fail(LoadError::Io(err)),
                ),
            },
            TensorStage::Patching(adapter) => match event->Patched_0 {
                Ok(_) => if self.patched_by(adapter as int) {
                    (
                        TensorPoint { stage: TensorStage::ReportingPatch(adapter), loaded },
                        TensorAction::Report(
                            LoadProgress::LoraApplied {
                                name: self.name,
                                source: self.adapters[adapter as int].path,
                            },
                        ),
                    )
                } else {
                    self.after_patches(adapter + 1, loaded)
                },
                Err(err) => (
                    TensorPoint { stage: TensorStage::Failed, loaded },
                    TensorAction::Fail(err),
                ),
            },
            TensorStage::ReportingPatch(adapter) => self.after_patches(adapter + 1, loaded),
            _ => (
                TensorPoint { stage: TensorStage::Finished, loaded: loaded.insert(self.name@) },
                TensorAction::Finish,
            ),
        }
    }
}

impl TensorStage {
    /// The outcome is one of the work that was asked for.
    pub open spec fn expects(self, event: TensorEvent) -> bool {
        match self {
            TensorStage::Reading => event is DataReady,
            TensorStage::Patching(_) => event is Patched,
            TensorStage::ReportingPatch(_) => event is Reported,
            TensorStage::ReportingLoaded => event is Reported,
            TensorStage::Finished => false,
            TensorStage::Failed => false,
        }
    }
}

/// Loads the tensors of a model, from a file that is mapped or not.
#[derive(Debug)]
pub struct MmapCompatibleLoader {
    /// The path of the model file.
    pub path: PathBuf,
    /// The tensors of the model.
    pub tensors: TensorTable,
    /// Whether the file is mapped.
    pub mapped: bool,
    /// The adapters that patch the tensors, in the order of their use.
    pub lora_adapters: Option<Vec<LoraAdapter>>,
    /// The names of the tensors that are loaded.
    pub loaded_tensors: NameSet,
}

impl MmapCompatibleLoader {
    /// Only tensors of the model are loaded.
    pub open spec fn wf(self) -> bool {
        self.loaded_tensors@.subset_of(self.tensors.as_map().dom())
    }

    /// The adapters, in the order of their use.
    pub open spec fn adapters(self) -> Seq<LoraAdapter> {
        match self.lora_adapters {
            Some(adapters) => adapters@,
            None => Seq::empty(),
        }
    }

    /// What does not change while the tensor of `request` is loaded.
    pub open spec fn context(self, request: TensorRequest) -> TensorContext {
        TensorContext {
            name: request.name,
            adapters: self.adapters(),
            tensor_count: self.tensors@.len() as usize,
        }
    }

    /// Where the loading of the tensor of `request` stands.
    pub open spec fn point(self, request: TensorRequest) -> TensorPoint {
        TensorPoint { stage: request.stage, loaded: self.loaded_tensors@ }
    }

    /// A loader that has loaded no tensor yet.
    pub fn new(
        path: PathBuf,
        tensors: TensorTable,
        mapped: bool,
        lora_adapters: Option<Vec<LoraAdapter>>,
    ) -> (loader: Self)
        ensures
            loader.wf(),
            loader.path == path,
            loader.tensors == tensors,
            loader.mapped == mapped,
            loader.lora_adapters == lora_adapters,
            loader.loaded_tensors@ == Set::<Seq<char>>::empty(),
    {
        MmapCompatibleLoader {
            path,
            tensors,
            mapped,
            lora_adapters,
            loaded_tensors: NameSet::new(),
        }
    }

    /// Starts to load the tensor `name`: the first work is to create and fill it as planned.
    /// A name that the model does not have is refused.
    pub fn load(&self, name: &str) -> (started: Result<(TensorRequest, TensorPlan), LoadError>)
        ensures
            self.tensors.as_map().contains_key(name@) ==> {
                let info = self.tensors.as_map()[name@];
                let file = FileContext { path: &self.path, mapped: self.mapped };
                match started {
                    Ok((request, plan)) => {
                        &&& file.plans(info, Ok(plan))
                        &&& request.name@ == name@
                        &&& request.stage == TensorStage::Reading
                    },
                    Err(error) => file.plans(info, Err(error)),
                }
            },
            !self.tensors.as_map().contains_key(name@) ==> {
                &&& started matches Err(LoadError::UnknownTensor { tensor_name, path })
                &&& tensor_name@ == name@
                &&& path == self.path
            },
            forall|i: int|
                0 <= i < self.tensors@.len() && (#[trigger] self.tensors@[i]).name@ == name@ ==> {
                    let info = self.tensors@[i];
                    &&& started is Ok <==> info.n_dims == info.dims@.len() && 1 <= info.n_dims <= 3
                    &&& started matches Ok((request, plan)) ==> {
                        &&& plan.element_type == info.element_type
                        &&& info.n_dims == 1 ==> plan.shape == TensorShape::One(info.dims@[0])
                        &&& info.n_dims == 2 ==> plan.shape == TensorShape::Two(
                            info.dims@[0],
                            info.dims@[1],
                        )
                        &&& info.n_dims == 3 ==> plan.shape == TensorShape::Three(
                            info.dims@[0],
                            info.dims@[1],
                            info.dims@[2],
                        )
                        &&& self.mapped ==> (plan.data matches TensorData::Mapped { offset }
                            && offset == info.start_offset)
                        &&& !self.mapped ==> (plan.data matches TensorData::Read { offset }
                            && offset == info.start_offset)
                    }
                },
            (forall|i: int|
                0 <= i < self.tensors@.len() ==> (#[trigger] self.tensors@[i]).name@ != name@)
                ==> started matches Err(LoadError::UnknownTensor { .. }),
            crate::tensors::names_distinct(self.tensors@),
    {
        proof {
            crate::tensors::by_name_holds_no_other(self.tensors@, name@);
        }
        match self.tensors.get(name) {
            Some(info) => {
                let file: FileContext<'_> = FileContext::new(&self.path, self.mapped);
                match file.get_tensor(info) {
                    Ok(plan) => {
                        let name: String = name.to_owned();
                        Ok((TensorRequest { name, stage: TensorStage::Reading }, plan))
                    },
                    Err(error) => Err(error),
                }
            },
            None => Err(
                LoadError::UnknownTensor { tensor_name: name.to_owned(), path: self.path.clone() },
            ),
        }
    }

    /// The number of adapters.
    fn adapter_count(&self) -> (count: usize)
        ensures
            count == self.adapters().len(),
    {
        match &self.lora_adapters {
            Some(adapters) => adapters.len(),
            None => 0,
        }
    }

    /// The path of the adapter with the number `adapter`, if it patches the tensor `name`.
    fn patch_source(&self, name: &str, adapter: usize) -> (source: Option<PathBuf>)
        requires
            adapter < self.adapters().len(),
        ensures
            source == (if self.adapters()[adapter as int].tensors_to_patch@.contains(name@) {
                Some(self.adapters()[adapter as int].path)
            } else {
                None
            }),
    {
        match &self.lora_adapters {
            Some(adapters) => {
                let adapter: &LoraAdapter = &adapters[adapter];
                if adapter.tensors_to_patch.contains(name) {
                    Some(adapter.path.clone())
                } else {
                    None
                }
            },
            None => None,
        }
    }

    /// Asks for the adapter with the number `adapter`, or, with none left, for the report that
    /// the tensor is loaded.
    fn after_patches(&self, name: String, adapter: usize) -> (next: (TensorRequest, TensorAction))
        requires
            self.wf(),
        ensures
            next.0.name == name,
            (self.point(next.0), next.1) == self.context(next.0).after_patches(
                adapter as int,
                self.loaded_tensors@,
            ),
            self.context(next.0).allows(next.0.stage),
            self.counts_within(name@, next.1),
    {
        if adapter < self.adapter_count() {
            (
                TensorRequest { name, stage: TensorStage::Patching(adapter) },
                TensorAction::Patch { adapter },
            )
        } else {
            let current_tensor: usize = self.loaded_tensors.len();
            let tensor_count: usize = self.tensors.len();
            proof {
                loaded_within_count(self.loaded_tensors@, self.tensors@, name@);
            }
            (
                TensorRequest { name, stage: TensorStage::ReportingLoaded },
                TensorAction::Report(LoadProgress::TensorLoaded { current_tensor, tensor_count }),
            )
        }
    }

    /// Goes on behind the adapter with the number `adapter`.
    fn next_adapter(&self, name: String, adapter: usize) -> (next: (TensorRequest, TensorAction))
        requires
            self.wf(),
            adapter < self.adapters().len(),
        ensures
            next.0.name == name,
            (self.point(next.0), next.1) == self.context(next.0).after_patches(
                adapter + 1,
                self.loaded_tensors@,
            ),
            self.context(next.0).allows(next.0.stage),
            self.counts_within(name@, next.1),
    {
        let count: usize = self.adapter_count();
        assert(adapter < count);
        self.after_patches(name, adapter + 1)
    }

    /// What is reported of the number of loaded tensors stays within the number of tensors; it
    /// is lower for a tensor of the model that is loaded for the first time.
    pub open spec fn counts_within(self, name: Seq<char>, action: TensorAction) -> bool {
        action matches TensorAction::Report(
            LoadProgress::TensorLoaded { current_tensor, tensor_count },
        ) ==> {
            &&& current_tensor == self.loaded_tensors@.len()
            &&& tensor_count == self.tensors@.len()
            &&& current_tensor <= tensor_count
            &&& self.tensors.as_map().contains_key(name) && !self.loaded_tensors@.contains(name)
                ==> current_tensor < tensor_count
        }
    }

    /// Takes the outcome of the work that was asked for last, and says what to do next.
    pub fn step(&mut self, request: TensorRequest, event: TensorEvent) -> (next: (
        TensorRequest,
        TensorAction,
    ))
        requires
            old(self).wf(),
            old(self).tensors.as_map().contains_key(request.name@),
            old(self).context(request).allows(request.stage),
            request.stage.expects(event),
        ensures
            final(self).wf(),
            final(self).path == old(self).path,
            final(self).tensors == old(self).tensors,
            final(self).mapped == old(self).mapped,
            final(self).lora_adapters == old(self).lora_adapters,
            next.0.name == request.name,
            (final(self).point(next.0), next.1) == old(self).context(request).next(
                old(self).point(request),
                event,
            ),
            final(self).context(next.0).allows(next.0.stage),
            old(self).counts_within(request.name@, next.1),
            next.1 matches TensorAction::Patch { adapter } ==> adapter < old(self).adapters().len()
                && next.0.stage == TensorStage::Patching(adapter),
            next.1 matches TensorAction::Report(
                LoadProgress::LoraApplied { name, source },
            ) ==> {
                &&& name@ == request.name@
                &&& request.stage is Patching
                &&& source == old(self).adapters()[request.stage->Patching_0 as int].path
                &&& old(self).adapters()[request.stage->Patching_0 as int].tensors_to_patch@.contains(
                    request.name@,
                )
            },
            next.1 matches TensorAction::Report(
                LoadProgress::TensorLoaded { current_tensor, tensor_count },
            ) ==> current_tensor == old(self).loaded_tensors@.len() && tensor_count == old(
                self,
            ).tensors@.len(),
            final(self).loaded_tensors@ == (if next.1 is Finish {
                old(self).loaded_tensors@.insert(request.name@)
            } else {
                old(self).loaded_tensors@
            }),
    {
        let name: String = request.name;
        match (request.stage, event) {
            (TensorStage::Reading, TensorEvent::DataReady(ready)) => match ready {
                Ok(_) => self.after_patches(name, 0),
                Err(err) => (
                    TensorRequest { name, stage: TensorStage::Failed },
                    TensorAction::Fail(LoadError::from(err)),
                ),
            },
            (TensorStage::Patching(adapter), TensorEvent::Patched(patched)) => match patched {
                Ok(_) => match self.patch_source(name.as_str(), adapter) {
                    Some(source) => {
                        let patched_name: String = name.clone();
                        (
                            TensorRequest { name, stage: TensorStage::ReportingPatch(adapter) },
                            TensorAction::Report(
                                LoadProgress::LoraApplied { name: patched_name, source },
                            ),
                        )
                    },
                    None => self.next_adapter(name, adapter),
                },
                Err(err) => (
                    TensorRequest { name, stage: TensorStage::Failed },
                    TensorAction::Fail(err),
                ),
            },
            (TensorStage::ReportingPatch(adapter), _) => self.next_adapter(name, adapter),
            // Only the report that the tensor is loaded is left.
            (_, _) => {
                self.loaded_tensors.insert(name.clone());
                (TensorRequest { name, stage: TensorStage::Finished }, TensorAction::Finish)
            },
        }
    }
}

/// As many tensors are loaded as there are at most, and fewer while one of them is not.
pub proof fn loaded_within_count(
    loaded: Set<Seq<char>>,
    infos: Seq<TensorLoadInfo>,
    name: Seq<char>,
)
    requires
        crate::tensors::names_distinct(infos),
        loaded.finite(),
        loaded.subset_of(crate::tensors::by_name(infos).dom()),
    ensures
        loaded.len() <= infos.len(),
        crate::tensors::by_name(infos).contains_key(name) && !loaded.contains(name) ==> loaded.len()
            < infos.len(),
{
    let names = crate::tensors::by_name(infos).dom();
    crate::tensors::by_name_size(infos);
    vstd::set_lib::lemma_len_subset(loaded, names);
    if names.contains(name) && !loaded.contains(name) {
        assert(loaded.insert(name).subset_of(names));
        vstd::set_lib::lemma_len_subset(loaded.insert(name), names);
    }
}

/// A tensor is created with its own type and dimensions, and filled from its own place in the
/// file, whether the file is mapped or not. It can be exactly where it has as many dimensions
/// as it says, and from one to three of them; the error tells otherwise how many it has, and
/// how many it says, where the two differ.
pub proof fn tensors_are_created_as_they_are(
    file: FileContext<'_>,
    info: TensorLoadInfo,
    planned: Result<TensorPlan, LoadError>,
)
    requires
        call_ensures(FileContext::get_tensor, (&file, &info), planned),
    ensures
        planned is Ok <==> info.n_dims == info.dims@.len() && 1 <= info.dims@.len() <= 3,
        planned matches Ok(plan) ==> {
            let offset = match plan.data {
                TensorData::Mapped { offset } => offset,
                TensorData::Read { offset } => offset,
            };
            let dims = match plan.shape {
                TensorShape::One(a) => seq![a],
                TensorShape::Two(a, b) => seq![a, b],
                TensorShape::Three(a, b, c) => seq![a, b, c],
            };
            &&& offset == info.start_offset
            &&& plan.data is Mapped <==> file.mapped
            &&& dims == info.dims@
            &&& plan.element_type == info.element_type
        },
        planned matches Err(error) ==> {
            &&& error matches LoadError::InvariantBroken { path: Some(path), .. } && path
                == *file.path
            &&& info.dims@.len() != info.n_dims ==> error->InvariantBroken_invariant@
                == "the tensor "@ + info.name@ + " should have "@ + crate::text::decimal(
                info.n_dims as nat,
            ) + " dimensions, not "@ + crate::text::decimal(info.dims@.len())
            &&& info.dims@.len() == info.n_dims ==> error->InvariantBroken_invariant@
                == "the tensor "@ + info.name@ + " should have between 1 and 3 dimensions, not "@
                + crate::text::decimal(info.dims@.len())
        },
{
    if let Ok(plan) = planned {
        match plan.shape {
            TensorShape::One(a) => {
                assert(seq![a] =~= info.dims@);
            },
            TensorShape::Two(a, b) => {
                assert(seq![a, b] =~= info.dims@);
            },
            TensorShape::Three(a, b, c) => {
                assert(seq![a, b, c] =~= info.dims@);
            },
        }
    }
}

/// Loading a tensor by its name starts with the tensor of the model that has this name, as its
/// file gives it; a name that no tensor has is refused with the name and the path of the model.
pub proof fn tensors_are_loaded_by_name(
    loader: MmapCompatibleLoader,
    name: &str,
    planned: Seq<Result<TensorPlan, LoadError>>,
    started: Result<(TensorRequest, TensorPlan), LoadError>,
)
    requires
        planned.len() == loader.tensors@.len(),
        forall|i: int|
            0 <= i < planned.len() ==> call_ensures(
                FileContext::get_tensor,
                (
                    &FileContext { path: &loader.path, mapped: loader.mapped },
                    &loader.tensors@[i],
                ),
                #[trigger] planned[i],
            ),
        call_ensures(MmapCompatibleLoader::load, (&loader, name), started),
    ensures
        forall|i: int|
            0 <= i < planned.len() && loader.tensors@[i].name@ == name@ ==> {
                &&& started is Ok <==> (#[trigger] planned[i]) is Ok
                &&& started matches Ok((request, plan)) ==> {
                    &&& plan == planned[i]->Ok_0
                    &&& request.name@ == name@
                    &&& request.stage == TensorStage::Reading
                }
                &&& started matches Err(error) ==> error is InvariantBroken
                    && error->InvariantBroken_path == Some(loader.path)
                    && error->InvariantBroken_invariant@
                    == planned[i]->Err_0->InvariantBroken_invariant@
            },
        (forall|i: int|
            0 <= i < loader.tensors@.len() ==> (#[trigger] loader.tensors@[i]).name@ != name@) ==> (
        started matches Err(LoadError::UnknownTensor { tensor_name, path }) && tensor_name@
            == name@ && path == loader.path),
{
    crate::tensors::by_name_holds_no_other(loader.tensors@, name@);
    assert forall|i: int| 0 <= i < planned.len() && loader.tensors@[i].name@ == name@ implies {
        &&& started is Ok <==> (#[trigger] planned[i]) is Ok
        &&& started matches Ok((request, plan)) ==> {
            &&& plan == planned[i]->Ok_0
            &&& request.name@ == name@
            &&& request.stage == TensorStage::Reading
        }
        &&& started matches Err(error) ==> error is InvariantBroken
            && error->InvariantBroken_path == Some(loader.path)
            && error->InvariantBroken_invariant@
            == planned[i]->Err_0->InvariantBroken_invariant@
    } by {
        crate::tensors::by_name_finds_each(loader.tensors@);
        let file = FileContext { path: &loader.path, mapped: loader.mapped };
        tensors_are_created_as_they_are(file, loader.tensors@[i], planned[i]);
    }
}

/// What a loader works with while it loads a tensor is what it holds: its adapters in their
/// order, none where it has no list of them, and the number of its tensors.
pub proof fn loaders_work_with_what_they_hold(loader: MmapCompatibleLoader, request: TensorRequest)
    ensures
        loader.lora_adapters matches Some(adapters) ==> loader.adapters() == adapters@,
        loader.lora_adapters is None ==> loader.adapters().len() == 0,
        loader.context(request).name == request.name,
        loader.context(request).adapters == loader.adapters(),
        loader.tensors@.len() <= usize::MAX ==> loader.context(request).tensor_count
            == loader.tensors@.len(),
        loader.point(request).stage == request.stage,
        loader.point(request).loaded == loader.loaded_tensors@,
        loader.wf() <==> forall|name: Seq<char>| #[trigger]
            loader.loaded_tensors@.contains(name) ==> exists|i: int|
                0 <= i < loader.tensors@.len() && (#[trigger] loader.tensors@[i]).name@ == name,
{
    assert forall|name: Seq<char>| #[trigger] loader.tensors.as_map().dom().contains(name)
        <==> exists|i: int|
        0 <= i < loader.tensors@.len() && (#[trigger] loader.tensors@[i]).name@ == name by {
        crate::tensors::by_name_holds_no_other(loader.tensors@, name);
    }
    if forall|name: Seq<char>| #[trigger]
        loader.loaded_tensors@.contains(name) ==> exists|i: int|
            0 <= i < loader.tensors@.len() && (#[trigger] loader.tensors@[i]).name@ == name {
        assert forall|name: Seq<char>| loader.loaded_tensors@.contains(name) implies
            #[trigger] loader.tensors.as_map().dom().contains(name) by {
            crate::tensors::by_name_holds_no_other(loader.tensors@, name);
        }
    }
}

/// Every outcome of the work is taken, the good as well as the bad: at every stage but the last
/// ones, and for every adapter there is.
pub proof fn every_outcome_of_a_tensor_is_taken(
    context: TensorContext,
    adapter: usize,
    ready: Result<(), std::io::Error>,
    patched: Result<(), LoadError>,
)
    ensures
        TensorStage::Reading.expects(TensorEvent::DataReady(ready)),
        TensorStage::Patching(adapter).expects(TensorEvent::Patched(patched)),
        TensorStage::ReportingPatch(adapter).expects(TensorEvent::Reported),
        TensorStage::ReportingLoaded.expects(TensorEvent::Reported),
        context.allows(TensorStage::Reading),
        context.allows(TensorStage::ReportingLoaded),
        adapter < context.adapters.len() ==> context.allows(TensorStage::Patching(adapter)),
        adapter < context.adapters.len() ==> context.allows(TensorStage::ReportingPatch(adapter)),
{
}

/// A file context and a loader hold what they are made of; a new loader has loaded nothing.
pub proof fn loaders_hold_what_they_are_made_of<'a>(
    path: &'a PathBuf,
    mapped: bool,
    file: FileContext<'a>,
    tensors: TensorTable,
    lora_adapters: Option<Vec<LoraAdapter>>,
    loader: MmapCompatibleLoader,
)
    requires
        call_ensures(FileContext::new, (path, mapped), file),
        call_ensures(MmapCompatibleLoader::new, (*path, tensors, mapped, lora_adapters), loader),
    ensures
        *file.path == *path,
        file.mapped == mapped,
        loader.path == *path,
        loader.tensors == tensors,
        loader.mapped == mapped,
        loader.lora_adapters == lora_adapters,
        forall|name: Seq<char>| !(#[trigger] loader.loaded_tensors@.contains(name)),
{
}

/// The work that a loader asks for when the adapters before the number `adapter` are done with:
/// the next one is applied, and behind the last one it is reported that the tensor is loaded,
/// with the numbers of tensors that are loaded and that there are.
pub open spec fn goes_on_at(
    loader: MmapCompatibleLoader,
    adapter: int,
    next: (TensorRequest, TensorAction),
) -> bool {
    let count = match loader.lora_adapters {
        Some(adapters) => adapters@.len(),
        None => 0,
    };
    if adapter < count {
        &&& next.0.stage matches TensorStage::Patching(k) && k == adapter
        &&& next.1 matches TensorAction::Patch { adapter: k } && k == adapter
    } else {
        &&& next.0.stage == TensorStage::ReportingLoaded
        &&& next.1 matches TensorAction::Report(
            LoadProgress::TensorLoaded { current_tensor, tensor_count },
        )
        &&& current_tensor == loader.loaded_tensors@.len()
        &&& tensor_count == loader.tensors@.len()
    }
}

/// What a loader does with each outcome. A tensor that is filled goes to the adapters; one that
/// could not be filled fails. An adapter that was applied is reported if the tensor is one that
/// it patches, and followed by the next one; one that could not be applied fails the tensor.
/// With the report that the tensor is loaded it is one of the loaded tensors, and nothing else
/// of the loader ever changes.
pub proof fn what_a_loader_does(
    loader: &mut MmapCompatibleLoader,
    request: TensorRequest,
    event: TensorEvent,
    next: (TensorRequest, TensorAction),
)
    requires
        old(loader).context(request).allows(request.stage),
        request.stage.expects(event),
        call_ensures(MmapCompatibleLoader::step, (loader, request, event), next),
    ensures
        next.0.name == request.name,
        final(loader).path == old(loader).path,
        final(loader).tensors == old(loader).tensors,
        final(loader).mapped == old(loader).mapped,
        final(loader).lora_adapters == old(loader).lora_adapters,
        final(loader).loaded_tensors@ == (if request.stage == TensorStage::ReportingLoaded {
            old(loader).loaded_tensors@.insert(request.name@)
        } else {
            old(loader).loaded_tensors@
        }),
        match event {
            TensorEvent::DataReady(Ok(_)) => goes_on_at(*old(loader), 0, next),
            TensorEvent::DataReady(Err(err)) => next.0.stage == TensorStage::Failed && next.1
                == TensorAction::Fail(LoadError::Io(err)),
            TensorEvent::Patched(Err(err)) => next.0.stage == TensorStage::Failed && next.1
                == TensorAction::Fail(err),
            TensorEvent::Patched(Ok(_)) => {
                let k = request.stage->Patching_0;
                let adapter = old(loader).lora_adapters->0@[k as int];
                if adapter.tensors_to_patch@.contains(request.name@) {
                    &&& next.0.stage == TensorStage::ReportingPatch(k)
                    &&& next.1 matches TensorAction::Report(
                        LoadProgress::LoraApplied { name, source },
                    )
                    &&& name@ == request.name@
                    &&& source == adapter.path
                } else {
                    goes_on_at(*old(loader), k + 1, next)
                }
            },
            TensorEvent::Reported => if request.stage == TensorStage::ReportingLoaded {
                next.0.stage == TensorStage::Finished && next.1 is Finish
            } else {
                goes_on_at(*old(loader), request.stage->ReportingPatch_0 + 1, next)
            },
        },
        (final(loader).point(next.0), next.1) == old(loader).context(request).next(
            old(loader).point(request),
            event,
        ),
{
    if let Some(adapters) = old(loader).lora_adapters {
        // There are as many adapters as a `usize` can count.
        assert(adapters.len() == adapters@.len());
    }
}

} // verus!
