use llm_loader::element::ElementType;
use llm_loader::error::LoadError;
use llm_loader::lora::LoraAdapter;
use llm_loader::progress::LoadProgress;
use llm_loader::tensor_loader::{
    FileContext, MmapCompatibleLoader, TensorAction, TensorData, TensorEvent, TensorPlan,
    TensorShape, TensorStage,
};
use llm_loader::tensors::{TensorLoadInfo, TensorTable};
use std::io::{Error, ErrorKind};
use std::path::PathBuf;

fn info(name: &str, n_dims: usize, dims: &[usize]) -> TensorLoadInfo {
    TensorLoadInfo {
        name: name.to_string(),
        n_dims,
        dims: dims.to_vec(),
        element_type: ElementType::F16,
        start_offset: 4096,
    }
}

fn path() -> PathBuf {
    PathBuf::from("/models/model.bin")
}

fn adapter(source: &str, names: &[&str]) -> LoraAdapter {
    let mut tensors = TensorTable::new();
    for name in names {
        tensors.insert(info(name, 2, &[8, 4]));
    }
    LoraAdapter::new(tensors, PathBuf::from(source))
}

fn loader(mapped: bool, adapters: Option<Vec<LoraAdapter>>) -> MmapCompatibleLoader {
    let mut tensors = TensorTable::new();
    for name in ["a", "b", "c"] {
        tensors.insert(info(name, 2, &[8, 4]));
    }
    MmapCompatibleLoader::new(path(), tensors, mapped, adapters)
}

fn load(loader: &mut MmapCompatibleLoader, name: &str) -> Vec<TensorAction> {
    let (mut request, _) = loader.load(name).unwrap();
    let mut event = TensorEvent::DataReady(Ok(()));
    let mut actions = Vec::new();
    loop {
        let (next, action) = loader.step(request, event);
        request = next;
        event = match &action {
            TensorAction::Patch { .. } => TensorEvent::Patched(Ok(())),
            TensorAction::Report(_) => TensorEvent::Reported,
            TensorAction::Finish | TensorAction::Fail(_) => {
                actions.push(action);
                return actions;
            }
        };
        actions.push(action);
    }
}

#[test]
fn shapes_of_tensors() {
    let path = path();
    let file = FileContext::new(&path, false);
    let shapes = [
        (vec![5], TensorShape::One(5)),
        (vec![5, 6], TensorShape::Two(5, 6)),
        (vec![5, 6, 7], TensorShape::Three(5, 6, 7)),
    ];
    for (dims, shape) in shapes {
        let plan = file.get_tensor(&info("t", dims.len(), &dims)).unwrap();
        assert_eq!(
            plan,
            TensorPlan {
                element_type: ElementType::F16,
                shape,
                data: TensorData::Read { offset: 4096 },
            }
        );
    }
    let file = FileContext::new(&path, true);
    let plan = file.get_tensor(&info("t", 1, &[5])).unwrap();
    assert_eq!(plan.data, TensorData::Mapped { offset: 4096 });
}

#[test]
fn dimensions_have_to_agree() {
    let path = path();
    let error = FileContext::new(&path, false).get_tensor(&info("wq", 3, &[5, 6])).unwrap_err();
    assert!(matches!(
        error,
        LoadError::InvariantBroken { path: Some(p), invariant: text }
            if p == path && text == "the tensor wq should have 3 dimensions, not 2"
    ));
}

#[test]
fn tensors_have_one_to_three_dimensions() {
    let path = path();
    for dims in [vec![], vec![1, 2, 3, 4], vec![1; 12]] {
        let count = dims.len();
        let error =
            FileContext::new(&path, true).get_tensor(&info("wq", count, &dims)).unwrap_err();
        let expected =
            format!("the tensor wq should have between 1 and 3 dimensions, not {count}");
        assert!(matches!(
            error,
            LoadError::InvariantBroken { path: Some(p), invariant: text }
                if p == path && text == expected
        ));
    }
}

#[test]
fn unknown_tensors_are_refused_with_the_path_of_the_model() {
    let error = loader(false, None).load("d").unwrap_err();
    assert!(matches!(
        error,
        LoadError::UnknownTensor { tensor_name, path: p } if tensor_name == "d" && p == path()
    ));
}

#[test]
fn broken_tensors_are_refused() {
    let mut tensors = TensorTable::new();
    tensors.insert(info("a", 1, &[1, 2]));
    let loader = MmapCompatibleLoader::new(path(), tensors, false, None);
    assert!(matches!(loader.load("a"), Err(LoadError::InvariantBroken { .. })));
}

#[test]
fn a_tensor_is_first_filled() {
    let (request, plan) = loader(true, None).load("b").unwrap();
    assert_eq!(request.name, "b");
    assert_eq!(request.stage, TensorStage::Reading);
    assert_eq!(plan.shape, TensorShape::Two(8, 4));
    assert_eq!(plan.data, TensorData::Mapped { offset: 4096 });
}

#[test]
fn loaded_tensors_are_counted() {
    let mut loader = loader(false, None);
    for (expected, name) in [(0, "a"), (1, "c"), (2, "c"), (2, "b"), (3, "a")] {
        let actions = load(&mut loader, name);
        assert_eq!(actions.len(), 2);
        assert!(matches!(
            &actions[0],
            TensorAction::Report(LoadProgress::TensorLoaded { current_tensor, tensor_count: 3 })
                if *current_tensor == expected
        ));
        assert!(matches!(actions[1], TensorAction::Finish));
    }
    assert_eq!(loader.loaded_tensors.len(), 3);
}

#[test]
fn adapters_are_applied_in_order() {
    let adapters = vec![adapter("/one.bin", &["b.loraA"]), adapter("/two.bin", &["b.loraA"])];
    let mut loader = loader(false, Some(adapters));
    let actions = load(&mut loader, "b");
    assert_eq!(actions.len(), 6);
    for (i, source) in ["/one.bin", "/two.bin"].into_iter().enumerate() {
        assert!(matches!(actions[2 * i], TensorAction::Patch { adapter } if adapter == i));
        assert!(matches!(
            &actions[2 * i + 1],
            TensorAction::Report(LoadProgress::LoraApplied { name, source: s })
                if name == "b" && *s == PathBuf::from(source)
        ));
    }
    assert!(matches!(
        actions[4],
        TensorAction::Report(LoadProgress::TensorLoaded { current_tensor: 0, tensor_count: 3 })
    ));
    assert!(matches!(actions[5], TensorAction::Finish));
    assert!(loader.loaded_tensors.contains("b"));
}

#[test]
fn only_patches_are_reported() {
    let adapters = vec![
        adapter("/one.bin", &["b.loraA"]),
        adapter("/two.bin", &["a.loraA", "a.loraB"]),
        adapter("/three.bin", &["b"]),
    ];
    let mut loader = loader(false, Some(adapters));
    let actions = load(&mut loader, "a");
    assert_eq!(actions.len(), 6);
    assert!(matches!(actions[0], TensorAction::Patch { adapter: 0 }));
    assert!(matches!(actions[1], TensorAction::Patch { adapter: 1 }));
    assert!(matches!(
        &actions[2],
        TensorAction::Report(LoadProgress::LoraApplied { name, source })
            if name == "a" && *source == PathBuf::from("/two.bin")
    ));
    assert!(matches!(actions[3], TensorAction::Patch { adapter: 2 }));
    assert!(matches!(
        actions[4],
        TensorAction::Report(LoadProgress::TensorLoaded { current_tensor: 0, tensor_count: 3 })
    ));
    assert!(matches!(actions[5], TensorAction::Finish));
    assert_eq!(load(&mut loader, "c").len(), 5);
}

#[test]
fn an_empty_list_of_adapters_patches_nothing() {
    let mut loader = loader(false, Some(Vec::new()));
    assert_eq!(load(&mut loader, "a").len(), 2);
}

#[test]
fn a_tensor_that_cannot_be_read() {
    let mut loader = loader(false, Some(vec![adapter("/one.bin", &["a.loraA"])]));
    let (request, _) = loader.load("a").unwrap();
    let error = Error::from(ErrorKind::UnexpectedEof);
    let (request, action) = loader.step(request, TensorEvent::DataReady(Err(error)));
    assert_eq!(request.stage, TensorStage::Failed);
    assert!(matches!(
        action,
        TensorAction::Fail(LoadError::Io(e)) if e.kind() == ErrorKind::UnexpectedEof
    ));
    assert_eq!(loader.loaded_tensors.len(), 0);
}

#[test]
fn a_patch_that_fails() {
    let adapters = vec![adapter("/one.bin", &["a.loraA"]), adapter("/two.bin", &["a.loraA"])];
    let mut loader = loader(false, Some(adapters));
    let (request, _) = loader.load("a").unwrap();
    let (request, action) = loader.step(request, TensorEvent::DataReady(Ok(())));
    assert!(matches!(action, TensorAction::Patch { adapter: 0 }));
    let (request, action) = loader.step(request, TensorEvent::Patched(Ok(())));
    assert!(matches!(
        action,
        TensorAction::Report(LoadProgress::LoraApplied { source, .. })
            if source == PathBuf::from("/one.bin")
    ));
    let (request, action) = loader.step(request, TensorEvent::Reported);
    assert!(matches!(action, TensorAction::Patch { adapter: 1 }));
    let error = LoadError::UnsupportedFileType(1);
    let (request, action) = loader.step(request, TensorEvent::Patched(Err(error)));
    assert_eq!(request.stage, TensorStage::Failed);
    assert!(matches!(action, TensorAction::Fail(LoadError::UnsupportedFileType(1))));
    assert_eq!(loader.loaded_tensors.len(), 0);
}

#[test]
fn only_finished_tensors_are_counted() {
    let mut loader = loader(false, None);
    for (number, name, fails) in [(0, "b", false), (1, "a", true), (1, "c", false), (2, "a", false)]
    {
        if fails {
            let (request, _) = loader.load(name).unwrap();
            let error = Error::from(ErrorKind::UnexpectedEof);
            let (_, action) = loader.step(request, TensorEvent::DataReady(Err(error)));
            assert!(matches!(action, TensorAction::Fail(_)));
            assert!(!loader.loaded_tensors.contains(name));
        } else {
            let actions = load(&mut loader, name);
            assert!(matches!(
                &actions[0],
                TensorAction::Report(LoadProgress::TensorLoaded { current_tensor, tensor_count: 3 })
                    if *current_tensor == number
            ));
            assert!(loader.loaded_tensors.contains(name));
        }
    }
    assert_eq!(loader.loaded_tensors.len(), 3);
}
