//! The decisions that follow from what a model file holds.

use crate::container::ContainerType;
use crate::element::tensor_header_size;
use crate::file_type::FileType;
use crate::tensors::{context_size, has_quantized, TensorTable};
use std::path::PathBuf;
use vstd::prelude::*;

verus! {

/// What was read of a model file.
#[derive(Debug)]
pub struct ModelContents {
    /// The container type of the file.
    pub container_type: ContainerType,
    /// The file type that the hyperparameters give, if they give one.
    pub file_type: Option<FileType>,
    /// The tensors of the file.
    pub tensors: TensorTable,
}

/// A request to load a model.
#[derive(Debug)]
pub struct LoadRequest {
    /// The path of the model.
    pub path: PathBuf,
    /// Whether the file is to be mapped into memory where that is possible.
    pub prefer_mmap: bool,
    /// The paths of the LoRA adapters to use.
    pub lora_adapters: Option<Vec<PathBuf>>,
    /// The bytes that a tensor takes in a context besides its data.
    pub header_size: usize,
}

/// How a model is going to be loaded.
#[derive(Debug)]
pub struct PlannedLoad {
    /// The path of the model.
    pub path: PathBuf,
    /// The tensors of the model.
    pub tensors: TensorTable,
    /// Whether the tensors' data is mapped from the file.
    pub use_mmap: bool,
    /// The size of the context.
    pub context_bytes: usize,
}

/// Why a model that was read cannot be loaded at all.
#[derive(Debug, Clone, Copy, PartialEq, Eq, Structural)]
pub enum Refusal {
    /// The model holds quantized tensors of a version that is not supported: it must be 2.
    QuantizationVersion {
        /// The version of the model.
        version: u32,
    },
    /// The size of the context exceeds what a `usize` can hold.
    ContextTooLarge,
}

/// The quantization version of a model: that of its file type, or, where the file type gives
/// none or version 0, the one that the container type stands for.
pub open spec fn effective_version(
    file_type: Option<FileType>,
    container_type: ContainerType,
) -> u32 {
    let recorded = match file_type {
        Some(file_type) => file_type.quantization_version,
        None => 0,
    };
    if recorded != 0 {
        recorded
    } else if container_type == ContainerType::Ggjt(2) {
        1
    } else if container_type == ContainerType::Ggjt(3) {
        2
    } else {
        0
    }
}

/// The quantization version of a model.
pub fn effective_quantization_version(
    file_type: Option<FileType>,
    container_type: ContainerType,
) -> (version: u32)
    ensures
        version == effective_version(file_type, container_type),
{
    let version: u32 = match file_type {
        Some(file_type) => file_type.quantization_version,
        None => 0,
    };
    if version == 0 {
        // Some writers do not record the quantization version, so it is guessed from the
        // container type.
        if container_type == ContainerType::Ggjt(2) {
            1
        } else if container_type == ContainerType::Ggjt(3) {
            2
        } else {
            version
        }
    } else {
        version
    }
}

impl LoadRequest {
    /// A request to load the model at `path`. The bytes of a tensor's header, 240 where
    /// pointers take eight bytes, are taken from the `ggml` library.
    pub fn new(
        path: PathBuf,
        prefer_mmap: bool,
        lora_adapters: Option<Vec<PathBuf>>,
    ) -> (request: Self)
        ensures
            request.path == path,
            request.prefer_mmap == prefer_mmap,
            request.lora_adapters == lora_adapters,
            crate::element::is_header_size(request.header_size),
            usize::BITS == 64 ==> request.header_size == 240,
            32 <= request.header_size <= isize::MAX + 32,
    {
        LoadRequest { path, prefer_mmap, lora_adapters, header_size: tensor_header_size() }
    }

    /// Whether a file of the given type is mapped: if that is preferred, the container type
    /// allows it, and no adapter is going to change the tensors.
    pub open spec fn maps(self, container_type: ContainerType) -> bool {
        self.prefer_mmap && container_type is Ggjt && self.lora_adapters is None
    }

    /// Why a model with `contents` cannot be loaded, if it cannot.
    pub open spec fn refuses(self, contents: ModelContents) -> Option<Refusal> {
        let version = effective_version(contents.file_type, contents.container_type);
        if crate::tensors::any_quantized(contents.tensors@) && version != 2 {
            Some(Refusal::QuantizationVersion { version })
        } else if !crate::tensors::total_bytes_fit(
            contents.tensors@,
            self.header_size,
            self.maps(contents.container_type),
        ) {
            Some(Refusal::ContextTooLarge)
        } else {
            None
        }
    }

    /// This is the plan to load a model with `contents`.
    pub open spec fn plans(self, contents: ModelContents, plan: PlannedLoad) -> bool {
        &&& plan.path == self.path
        &&& plan.tensors == contents.tensors
        &&& plan.use_mmap == self.maps(contents.container_type)
        &&& plan.context_bytes == crate::tensors::total_bytes(
            contents.tensors@,
            self.header_size,
            plan.use_mmap,
        )
    }

    /// Whether a file of the given type is mapped.
    pub fn use_mmap(&self, container_type: ContainerType) -> (use_mmap: bool)
        ensures
            use_mmap == self.maps(container_type),
    {
        self.prefer_mmap && container_type.support_mmap() && self.lora_adapters.is_none()
    }

    /// Decides how a model with `contents` is loaded, or why it cannot be; the paths of the
    /// adapters come back beside the plan.
    pub fn plan(self, contents: ModelContents) -> (planned: Result<
        (PlannedLoad, Option<Vec<PathBuf>>),
        Refusal,
    >)
        ensures
            match planned {
                Ok((plan, lora_adapters)) => {
                    &&& self.refuses(contents) is None
                    &&& self.plans(contents, plan)
                    &&& lora_adapters == self.lora_adapters
                },
                Err(refusal) => self.refuses(contents) == Some(refusal),
            },
    {
        let version: u32 = effective_quantization_version(
            contents.file_type,
            contents.container_type,
        );
        if has_quantized(&contents.tensors) && version != 2 {
            return Err(Refusal::QuantizationVersion { version });
        }
        let use_mmap: bool = self.use_mmap(contents.container_type);
        match context_size(&contents.tensors, self.header_size, use_mmap) {
            Some(context_bytes) => Ok(
                (
                    PlannedLoad {
                        path: self.path,
                        tensors: contents.tensors,
                        use_mmap,
                        context_bytes,
                    },
                    self.lora_adapters,
                ),
            ),
            None => Err(Refusal::ContextTooLarge),
        }
    }
}

/// A model with quantized tensors is loaded with quantization version 2 only.
pub proof fn quantized_models_have_version_two(request: LoadRequest, contents: ModelContents)
    requires
        request.refuses(contents) is None,
        crate::tensors::any_quantized(contents.tensors@),
    ensures
        effective_version(contents.file_type, contents.container_type) == 2,
{
}

/// A version that the file type records is never overruled by the container type.
pub proof fn recorded_version_counts(file_type: FileType, container_type: ContainerType)
    requires
        file_type.quantization_version != 0,
    ensures
        effective_version(Some(file_type), container_type) == file_type.quantization_version,
{
}

/// A recorded version other than 0 is the version of the model. Without one, and whatever the
/// format, the version is 1 with the container type `Ggjt(2)`, 2 with `Ggjt(3)`, and 0 with any
/// other.
pub proof fn versions_of_models(
    file_type: Option<FileType>,
    container_type: ContainerType,
    version: u32,
)
    requires
        call_ensures(effective_quantization_version, (file_type, container_type), version),
    ensures
        version == effective_version(file_type, container_type),
        file_type matches Some(recorded) && recorded.quantization_version != 0 ==> version
            == file_type->0.quantization_version,
        (file_type matches Some(recorded) ==> recorded.quantization_version == 0) ==> {
            &&& container_type == ContainerType::Ggjt(2) ==> version == 1
            &&& container_type == ContainerType::Ggjt(3) ==> version == 2
            &&& container_type != ContainerType::Ggjt(2) && container_type != ContainerType::Ggjt(3)
                ==> version == 0
        },
{
}

/// The format of a file type has no part in the version of the model, and version 0 counts as
/// none.
pub proof fn versions_do_not_depend_on_formats(
    a: FileType,
    b: FileType,
    container_type: ContainerType,
    versions: (u32, u32, u32),
)
    requires
        a.quantization_version == b.quantization_version,
        call_ensures(effective_quantization_version, (Some(a), container_type), versions.0),
        call_ensures(effective_quantization_version, (Some(b), container_type), versions.1),
        call_ensures(effective_quantization_version, (None, container_type), versions.2),
    ensures
        versions.0 == versions.1,
        a.quantization_version == 0 ==> versions.0 == versions.2,
{
}

/// A file is mapped exactly where that is preferred, its container type is `Ggjt`, of whatever
/// version, and no list of adapters is given, not even an empty one.
pub proof fn mapped_files(request: LoadRequest, container_type: ContainerType, mapped: bool)
    requires
        call_ensures(LoadRequest::use_mmap, (&request, container_type), mapped),
    ensures
        mapped == request.maps(container_type),
        !request.prefer_mmap ==> !mapped,
        container_type is Ggml || container_type is Ggmf ==> !mapped,
        request.lora_adapters is Some ==> !mapped,
        request.prefer_mmap && container_type is Ggjt && request.lora_adapters is None ==> mapped,
{
}

/// One of the tensors is of another type than `I32`, `F16` and `F32`.
pub open spec fn holds_blocks(contents: ModelContents) -> bool {
    exists|i: int|
        0 <= i < contents.tensors@.len() && !((
        #[trigger] contents.tensors@[i]).element_type is I32
            || contents.tensors@[i].element_type is F16 || contents.tensors@[i].element_type is F32)
}

/// A model is refused for its quantization version exactly where it holds quantized tensors and
/// the version is not 2; a model none of whose tensors is quantized never is. Otherwise it is
/// refused exactly where its context would be too large.
pub proof fn refused_models(request: LoadRequest, contents: ModelContents)
    ensures
        (forall|i: int|
            0 <= i < contents.tensors@.len() ==> (
            #[trigger] contents.tensors@[i]).element_type is I32
                || contents.tensors@[i].element_type is F16
                || contents.tensors@[i].element_type is F32) ==> !(request.refuses(
            contents,
        ) matches Some(Refusal::QuantizationVersion { .. })),
        ({
            let version = effective_version(contents.file_type, contents.container_type);
            &&& holds_blocks(contents) && version != 2 <==> request.refuses(contents) == Some(
                Refusal::QuantizationVersion { version },
            )
            &&& request.refuses(contents) matches Some(Refusal::QuantizationVersion { version: v })
                ==> v == version
            &&& request.refuses(contents) == Some(Refusal::ContextTooLarge) <==> !(holds_blocks(
                contents,
            ) && version != 2) && !crate::tensors::total_bytes_fit(
                contents.tensors@,
                request.header_size,
                request.prefer_mmap && contents.container_type is Ggjt
                    && request.lora_adapters is None,
            )
        }),
{
    if crate::tensors::any_quantized(contents.tensors@) {
        let i = choose|i: int|
            0 <= i < contents.tensors@.len() && (
            #[trigger] contents.tensors@[i]).element_type.quantized();
        assert(!(contents.tensors@[i].element_type is I32
            || contents.tensors@[i].element_type is F16
            || contents.tensors@[i].element_type is F32));
    }
    if holds_blocks(contents) {
        let i = choose|i: int|
            0 <= i < contents.tensors@.len() && !((
            #[trigger] contents.tensors@[i]).element_type is I32
                || contents.tensors@[i].element_type is F16
                || contents.tensors@[i].element_type is F32);
        assert(contents.tensors@[i].element_type.quantized());
    }
}

/// A model is planned with its own path and tensors, mapped or not as its container type allows,
/// and with a context of the size that its tensors take, unless it holds quantized tensors of
/// another version than 2, or that size is none; the paths of the adapters come back unchanged.
pub proof fn planned_models(
    request: LoadRequest,
    contents: ModelContents,
    version: u32,
    mapped: bool,
    bytes: Option<usize>,
    planned: Result<(PlannedLoad, Option<Vec<PathBuf>>), Refusal>,
)
    requires
        call_ensures(
            effective_quantization_version,
            (contents.file_type, contents.container_type),
            version,
        ),
        call_ensures(LoadRequest::use_mmap, (&request, contents.container_type), mapped),
        call_ensures(context_size, (&contents.tensors, request.header_size, mapped), bytes),
        call_ensures(LoadRequest::plan, (request, contents), planned),
    ensures
        planned is Ok <==> !(holds_blocks(contents) && version != 2) && bytes is Some,
        planned matches Ok((plan, lora_adapters)) ==> {
            &&& plan.path == request.path
            &&& plan.tensors == contents.tensors
            &&& plan.use_mmap == mapped
            &&& Some(plan.context_bytes) == bytes
            &&& lora_adapters == request.lora_adapters
        },
        planned matches Err(Refusal::QuantizationVersion { version: v }) ==> v == version && v != 2
            && holds_blocks(contents),
        planned matches Err(Refusal::ContextTooLarge) ==> bytes is None && (holds_blocks(contents)
            ==> version == 2),
{
    refused_models(request, contents);
}

/// A request holds what it is made of, and the bytes of a tensor's header.
pub proof fn requests_hold_what_they_are_made_of(
    path: PathBuf,
    prefer_mmap: bool,
    lora_adapters: Option<Vec<PathBuf>>,
    request: LoadRequest,
    header_size: usize,
)
    requires
        call_ensures(LoadRequest::new, (path, prefer_mmap, lora_adapters), request),
        call_ensures(tensor_header_size, (), header_size),
    ensures
        request.path == path,
        request.prefer_mmap == prefer_mmap,
        request.lora_adapters == lora_adapters,
        crate::element::is_header_size(request.header_size),
        crate::element::is_header_size(header_size),
        usize::BITS == 64 ==> request.header_size == 240 && header_size == 240,
{
}

} // verus!
