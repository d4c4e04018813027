use llm_loader::progress::{
    describe_progress, lines_with_source, progress_lines, LoadProgress, ProgressLine,
};
use std::path::PathBuf;

fn text(head: &str) -> ProgressLine {
    ProgressLine { head: head.to_string(), size_in_bytes: None, tail: String::new() }
}

#[test]
fn hyperparameters_are_told() {
    assert_eq!(
        describe_progress(&LoadProgress::HyperparametersLoaded),
        Some(vec![text("Loaded hyperparameters")])
    );
}

#[test]
fn context_size_is_told_in_megabytes() {
    assert_eq!(
        describe_progress(&LoadProgress::ContextSize { bytes: 1048576 }),
        Some(vec![ProgressLine {
            head: "ggml ctx size = ".to_string(),
            size_in_bytes: Some(1048576),
            tail: " MB\n".to_string(),
        }])
    );
}

#[test]
fn every_eighth_tensor_is_told() {
    for current_tensor in 0..32 {
        let progress = LoadProgress::TensorLoaded { current_tensor, tensor_count: 291 };
        let lines = describe_progress(&progress).unwrap();
        if current_tensor % 8 == 7 {
            assert_eq!(lines, vec![text(&format!("Loaded tensor {}/291", current_tensor + 1))]);
        } else {
            assert!(lines.is_empty());
        }
    }
}

#[test]
fn end_of_the_load_is_told() {
    let progress = LoadProgress::Loaded { file_size: 123456789, tensor_count: 42 };
    assert_eq!(
        describe_progress(&progress),
        Some(vec![
            text("Loading of model complete"),
            ProgressLine {
                head: "Model size = ".to_string(),
                size_in_bytes: Some(123456789),
                tail: " MB / num tensors = 42".to_string(),
            },
        ])
    );
}

#[test]
fn patches_are_told_with_the_name_of_the_file() {
    let progress = LoadProgress::LoraApplied {
        name: "wq.weight".to_string(),
        source: PathBuf::from("adapters").join("lora.bin"),
    };
    assert_eq!(
        describe_progress(&progress),
        Some(vec![text("Patched tensor wq.weight via LoRA from 'lora.bin'")])
    );
    assert_eq!(
        progress_lines(&progress, "other"),
        vec![text("Patched tensor wq.weight via LoRA from 'other'")]
    );
}

#[test]
fn only_the_last_part_of_a_path_is_told() {
    let source = PathBuf::from("home").join("my adapters").join("v1").join("löra.bin");
    let progress = LoadProgress::LoraApplied { name: "wq".to_string(), source };
    assert_eq!(
        describe_progress(&progress),
        Some(vec![text("Patched tensor wq via LoRA from 'löra.bin'")])
    );
}

#[test]
fn a_lone_name_is_told_as_it_is() {
    for name in ["lora.bin", "LoRA_7b-v2", "...", "a..b", "0"] {
        let progress =
            LoadProgress::LoraApplied { name: "wq".to_string(), source: PathBuf::from(name) };
        assert_eq!(
            describe_progress(&progress),
            Some(vec![text(&format!("Patched tensor wq via LoRA from '{name}'"))])
        );
    }
}

#[test]
fn patches_from_a_path_without_a_name_are_not_told() {
    for source in [PathBuf::new(), PathBuf::from(".."), PathBuf::from("adapters").join("..")] {
        let progress = LoadProgress::LoraApplied { name: "wq".to_string(), source };
        assert_eq!(describe_progress(&progress), None);
        assert_eq!(lines_with_source(&progress, None), None);
    }
}

#[test]
fn only_patches_need_the_name_of_a_file() {
    let progress = LoadProgress::HyperparametersLoaded;
    let told = Some(vec![text("Loaded hyperparameters")]);
    assert_eq!(lines_with_source(&progress, None), told);
    assert_eq!(lines_with_source(&progress, Some("lora.bin")), told);
    let progress =
        LoadProgress::LoraApplied { name: "wq".to_string(), source: PathBuf::from("lora.bin") };
    assert_eq!(
        lines_with_source(&progress, Some("other")),
        Some(vec![text("Patched tensor wq via LoRA from 'other'")])
    );
}

#[test]
fn progress_can_be_compared_and_cloned() {
    let progress = LoadProgress::LoraApplied {
        name: "a".to_string(),
        source: PathBuf::from("/b"),
    };
    assert_eq!(progress.clone(), progress);
    assert_ne!(progress, LoadProgress::HyperparametersLoaded);
}
