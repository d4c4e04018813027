use llm_loader::container::ContainerType;
use llm_loader::element::ElementType;
use llm_loader::error::{FindAllModelFilesError, FormatLoadError, LoadError};
use llm_loader::file_type::{FileType, FileTypeFormat};
use llm_loader::plan::{
    effective_quantization_version, LoadRequest, ModelContents, Refusal,
};
use llm_loader::progress::LoadProgress;
use llm_loader::session::{start, step, LoadAction, LoadEvent, LoadState};
use llm_loader::tensors::{TensorLoadInfo, TensorTable};
use std::io::{Error, ErrorKind};
use std::path::PathBuf;

fn model_path() -> PathBuf {
    PathBuf::from("/models/model.bin")
}

fn request(prefer_mmap: bool, lora_adapters: Option<Vec<PathBuf>>) -> LoadRequest {
    LoadRequest::new(model_path(), prefer_mmap, lora_adapters)
}

fn table(tensors: &[(&str, usize, ElementType)]) -> TensorTable {
    let mut table = TensorTable::new();
    for (name, dim, element_type) in tensors {
        table.insert(TensorLoadInfo {
            name: name.to_string(),
            n_dims: 1,
            dims: vec![*dim],
            element_type: *element_type,
            start_offset: 0,
        });
    }
    table
}

fn contents(container_type: ContainerType) -> ModelContents {
    ModelContents {
        container_type,
        file_type: None,
        tensors: table(&[("a", 100, ElementType::F32), ("b", 50, ElementType::F16)]),
    }
}

fn io_error() -> Error {
    Error::from(ErrorKind::PermissionDenied)
}

fn drive(request: LoadRequest, events: Vec<LoadEvent>) -> (LoadState, Vec<LoadAction>) {
    let (mut state, first) = start(request);
    let mut actions = vec![first];
    for event in events {
        let (next, action) = step(state, event);
        state = next;
        actions.push(action);
    }
    (state, actions)
}

fn until_read() -> Vec<LoadEvent> {
    vec![
        LoadEvent::PathChecked(true),
        LoadEvent::FilesFound(Ok(vec![model_path()])),
        LoadEvent::FileOpened(Ok(())),
    ]
}

fn last(actions: Vec<LoadAction>) -> LoadAction {
    actions.into_iter().last().unwrap()
}

#[test]
fn a_request_knows_the_header_size() {
    let request = request(true, Some(vec![PathBuf::from("/lora.bin")]));
    assert_eq!(request.path, model_path());
    assert!(request.prefer_mmap);
    assert_eq!(request.lora_adapters, Some(vec![PathBuf::from("/lora.bin")]));
    assert_eq!(request.header_size, 240);
}

#[test]
fn a_load_without_adapters() {
    let mut events = until_read();
    events.push(LoadEvent::ModelRead(Ok(contents(ContainerType::Ggml))));
    events.push(LoadEvent::ContextCreated);
    events.push(LoadEvent::Reported);
    events.push(LoadEvent::ModelMapped(Ok(1234)));
    events.push(LoadEvent::ModelBuilt(Ok(())));
    events.push(LoadEvent::Reported);
    assert_eq!(events.len(), 9);
    let (state, actions) = drive(request(true, None), events);
    assert!(matches!(state, LoadState::Finished));
    let mut actions = actions.into_iter();
    assert!(matches!(actions.next(), Some(LoadAction::CheckPath)));
    assert!(matches!(actions.next(), Some(LoadAction::FindModelFiles)));
    assert!(matches!(actions.next(), Some(LoadAction::OpenModelFile)));
    assert!(matches!(actions.next(), Some(LoadAction::ReadModelFile)));
    let bytes = 240 + 400 + 240 + 100;
    assert!(matches!(
        actions.next(),
        Some(LoadAction::CreateContext { bytes: b, allocate: true }) if b == bytes
    ));
    assert!(matches!(
        actions.next(),
        Some(LoadAction::Report(LoadProgress::ContextSize { bytes: b })) if b == bytes
    ));
    assert!(matches!(actions.next(), Some(LoadAction::MapModelFile { map: false })));
    let loader = match actions.next() {
        Some(LoadAction::BuildModel(loader)) => loader,
        other => panic!("{other:?}"),
    };
    assert_eq!(loader.path, model_path());
    assert_eq!(loader.tensors.len(), 2);
    assert!(!loader.mapped);
    assert!(loader.lora_adapters.is_none());
    assert_eq!(loader.loaded_tensors.len(), 0);
    assert!(matches!(
        actions.next(),
        Some(LoadAction::Report(LoadProgress::Loaded { file_size: 1234, tensor_count: 2 }))
    ));
    assert!(matches!(actions.next(), Some(LoadAction::Finish)));
    assert!(actions.next().is_none());
}

#[test]
fn a_mapped_load_needs_headers_only() {
    let mut events = until_read();
    events.push(LoadEvent::ModelRead(Ok(contents(ContainerType::Ggjt(1)))));
    events.push(LoadEvent::ContextCreated);
    events.push(LoadEvent::Reported);
    events.push(LoadEvent::ModelMapped(Ok(1234)));
    let (_, mut actions) = drive(request(true, None), events);
    assert!(matches!(actions.pop(), Some(LoadAction::BuildModel(loader)) if loader.mapped));
    assert!(matches!(actions.pop(), Some(LoadAction::MapModelFile { map: true })));
    assert!(matches!(
        actions.pop(),
        Some(LoadAction::Report(LoadProgress::ContextSize { bytes: 480 }))
    ));
    assert!(matches!(
        actions.pop(),
        Some(LoadAction::CreateContext { bytes: 480, allocate: false })
    ));
}

#[test]
fn mapping_has_three_conditions() {
    let lora = || Some(vec![PathBuf::from("/lora.bin")]);
    assert!(request(true, None).use_mmap(ContainerType::Ggjt(3)));
    assert!(!request(false, None).use_mmap(ContainerType::Ggjt(3)));
    assert!(!request(true, None).use_mmap(ContainerType::Ggml));
    assert!(!request(true, None).use_mmap(ContainerType::Ggmf(1)));
    assert!(!request(true, lora()).use_mmap(ContainerType::Ggjt(3)));
    assert!(!request(true, Some(Vec::new())).use_mmap(ContainerType::Ggjt(3)));
}

#[test]
fn a_load_with_adapters() {
    let paths = vec![PathBuf::from("/lora/one.bin"), PathBuf::from("/lora/two.bin")];
    let mut events = until_read();
    events.push(LoadEvent::ModelRead(Ok(contents(ContainerType::Ggjt(1)))));
    for name in ["a.loraA", "b.loraB"] {
        events.push(LoadEvent::FileOpened(Ok(())));
        events.push(LoadEvent::LoraRead(Ok(table(&[(name, 8, ElementType::F32)]))));
    }
    events.push(LoadEvent::ContextCreated);
    events.push(LoadEvent::Reported);
    events.push(LoadEvent::ModelMapped(Ok(99)));
    events.push(LoadEvent::ModelBuilt(Ok(())));
    events.push(LoadEvent::Reported);
    assert_eq!(events.len(), 9 + 2 * 2);
    let (state, actions) = drive(request(true, Some(paths.clone())), events);
    assert!(matches!(state, LoadState::Finished));
    let mut opened = Vec::new();
    let mut reports = 0;
    for action in actions {
        match action {
            LoadAction::OpenLoraFile { path } => opened.push(path),
            LoadAction::Report(_) => reports += 1,
            LoadAction::MapModelFile { map } => assert!(!map),
            LoadAction::BuildModel(loader) => {
                assert!(!loader.mapped);
                let adapters = loader.lora_adapters.unwrap();
                assert_eq!(adapters.len(), 2);
                assert_eq!(adapters[0].path, paths[0]);
                assert_eq!(adapters[1].path, paths[1]);
                assert!(adapters[0].tensors_to_patch.contains("a"));
                assert!(adapters[1].tensors_to_patch.contains("b"));
                assert!(!adapters[0].tensors_to_patch.contains("b"));
                assert!(adapters[0].tensors.get("a.loraA").is_some());
                assert!(adapters[0].tensors.get("b.loraB").is_none());
                assert!(adapters[1].tensors.get("b.loraB").is_some());
            }
            _ => {}
        }
    }
    assert_eq!(opened, paths);
    assert_eq!(reports, 2);
}

#[test]
fn an_empty_list_of_adapters() {
    let mut events = until_read();
    events.push(LoadEvent::ModelRead(Ok(contents(ContainerType::Ggjt(1)))));
    events.push(LoadEvent::ContextCreated);
    events.push(LoadEvent::Reported);
    events.push(LoadEvent::ModelMapped(Ok(99)));
    let (_, actions) = drive(request(true, Some(Vec::new())), events);
    assert!(matches!(
        last(actions),
        LoadAction::BuildModel(loader) if loader.lora_adapters.as_ref().unwrap().is_empty()
    ));
}

#[test]
fn a_missing_file() {
    let (state, actions) = drive(request(false, None), vec![LoadEvent::PathChecked(false)]);
    assert!(matches!(state, LoadState::Failed));
    assert!(matches!(
        last(actions),
        LoadAction::Fail(LoadError::FileDoesNotExist { path }) if path == model_path()
    ));
}

#[test]
fn a_model_in_several_parts() {
    for count in [0, 2, 3] {
        let paths = vec![model_path(); count];
        let events =
            vec![LoadEvent::PathChecked(true), LoadEvent::FilesFound(Ok(paths.clone()))];
        let (_, actions) = drive(request(false, None), events);
        assert!(matches!(
            last(actions),
            LoadAction::Fail(LoadError::MultipartNotSupported { paths: found }) if found == paths
        ));
    }
}

#[test]
fn files_that_cannot_be_found() {
    let error = FindAllModelFilesError::NoParentPath { path: PathBuf::from("/") };
    let events = vec![LoadEvent::PathChecked(true), LoadEvent::FilesFound(Err(error))];
    let (_, actions) = drive(request(false, None), events);
    assert!(matches!(
        last(actions),
        LoadAction::Fail(LoadError::NoParentPath { path }) if path == PathBuf::from("/")
    ));
    let events = vec![
        LoadEvent::PathChecked(true),
        LoadEvent::FilesFound(Err(FindAllModelFilesError::IO(io_error()))),
    ];
    let (_, actions) = drive(request(false, None), events);
    assert!(matches!(last(actions), LoadAction::Fail(LoadError::Io(_))));
}

#[test]
fn a_model_file_that_cannot_be_opened() {
    let mut events = until_read();
    events.pop();
    events.push(LoadEvent::FileOpened(Err(io_error())));
    let (_, actions) = drive(request(false, None), events);
    assert!(matches!(
        last(actions),
        LoadAction::Fail(LoadError::OpenFileFailed { source, path })
            if source.kind() == ErrorKind::PermissionDenied && path == model_path()
    ));
}

#[test]
fn a_model_file_that_cannot_be_read() {
    let mut events = until_read();
    events.push(LoadEvent::ModelRead(Err(FormatLoadError::InvalidMagic(7))));
    let (_, actions) = drive(request(false, None), events);
    assert!(matches!(
        last(actions),
        LoadAction::Fail(LoadError::InvalidMagic { path, magic: 7 }) if path == model_path()
    ));
}

#[test]
fn adapters_that_cannot_be_opened_or_read() {
    let paths = vec![PathBuf::from("/lora/one.bin"), PathBuf::from("/lora/two.bin")];
    let mut events = until_read();
    events.push(LoadEvent::ModelRead(Ok(contents(ContainerType::Ggml))));
    events.push(LoadEvent::FileOpened(Err(io_error())));
    let (_, actions) = drive(request(false, Some(paths.clone())), events);
    assert!(matches!(
        last(actions),
        LoadAction::Fail(LoadError::OpenFileFailed { path, .. }) if path == paths[0]
    ));

    let mut events = until_read();
    events.push(LoadEvent::ModelRead(Ok(contents(ContainerType::Ggml))));
    events.push(LoadEvent::FileOpened(Ok(())));
    events.push(LoadEvent::LoraRead(Ok(TensorTable::new())));
    events.push(LoadEvent::FileOpened(Ok(())));
    events.push(LoadEvent::LoraRead(Err(FormatLoadError::InvalidMagic(5))));
    let (state, actions) = drive(request(false, Some(paths.clone())), events);
    assert!(matches!(state, LoadState::Failed));
    assert!(matches!(
        last(actions),
        LoadAction::Fail(LoadError::InvalidMagic { path, magic: 5 }) if path == paths[1]
    ));
}

#[test]
fn a_model_file_that_cannot_be_mapped() {
    let mut events = until_read();
    events.push(LoadEvent::ModelRead(Ok(contents(ContainerType::Ggml))));
    events.push(LoadEvent::ContextCreated);
    events.push(LoadEvent::Reported);
    events.push(LoadEvent::ModelMapped(Err(io_error())));
    let (_, actions) = drive(request(false, None), events);
    assert!(matches!(last(actions), LoadAction::Fail(LoadError::Io(_))));
}

#[test]
fn a_model_that_cannot_be_built() {
    let mut events = until_read();
    events.push(LoadEvent::ModelRead(Ok(contents(ContainerType::Ggml))));
    events.push(LoadEvent::ContextCreated);
    events.push(LoadEvent::Reported);
    events.push(LoadEvent::ModelMapped(Ok(1)));
    events.push(LoadEvent::ModelBuilt(Err(LoadError::ModelNotCreated { path: model_path() })));
    let (state, actions) = drive(request(false, None), events);
    assert!(matches!(state, LoadState::Failed));
    assert!(matches!(last(actions), LoadAction::Fail(LoadError::ModelNotCreated { .. })));
}

#[test]
fn quantization_versions() {
    let recorded = |quantization_version| {
        Some(FileType { format: FileTypeFormat::MostlyQ4_0, quantization_version })
    };
    for file_type in [None, recorded(0)] {
        assert_eq!(effective_quantization_version(file_type, ContainerType::Ggml), 0);
        assert_eq!(effective_quantization_version(file_type, ContainerType::Ggmf(2)), 0);
        assert_eq!(effective_quantization_version(file_type, ContainerType::Ggjt(1)), 0);
        assert_eq!(effective_quantization_version(file_type, ContainerType::Ggjt(2)), 1);
        assert_eq!(effective_quantization_version(file_type, ContainerType::Ggjt(3)), 2);
        assert_eq!(effective_quantization_version(file_type, ContainerType::Ggjt(4)), 0);
    }
    assert_eq!(effective_quantization_version(recorded(1), ContainerType::Ggjt(3)), 1);
    assert_eq!(effective_quantization_version(recorded(2), ContainerType::Ggml), 2);
}

#[test]
fn quantized_models_need_version_two() {
    let quantized = |container_type| ModelContents {
        container_type,
        file_type: None,
        tensors: table(&[("a", 64, ElementType::Q4_0)]),
    };
    let mut events = until_read();
    events.push(LoadEvent::ModelRead(Ok(quantized(ContainerType::Ggjt(2)))));
    let (state, actions) = drive(request(false, None), events);
    assert!(matches!(state, LoadState::Failed));
    assert!(matches!(
        last(actions),
        LoadAction::Abort(Refusal::QuantizationVersion { version: 1 })
    ));

    let mut events = until_read();
    events.push(LoadEvent::ModelRead(Ok(quantized(ContainerType::Ggjt(3)))));
    let (_, actions) = drive(request(false, None), events);
    assert!(matches!(
        last(actions),
        LoadAction::CreateContext { bytes: 280, allocate: true }
    ));
}

#[test]
fn contexts_that_are_too_large() {
    let huge = ModelContents {
        container_type: ContainerType::Ggml,
        file_type: None,
        tensors: table(&[("a", usize::MAX, ElementType::F32)]),
    };
    let mut events = until_read();
    events.push(LoadEvent::ModelRead(Ok(huge)));
    let (_, actions) = drive(request(false, None), events);
    assert!(matches!(last(actions), LoadAction::Abort(Refusal::ContextTooLarge)));
}
