use llm_loader::container::ContainerType;
use llm_loader::element::{tensor_header_size, ElementType};
use llm_loader::lora::{tensors_to_patch, LoraAdapter};
use llm_loader::names::NameSet;
use llm_loader::tensors::{context_size, has_quantized, TensorLoadInfo, TensorTable};
use llm_loader::text::{append_decimal, name_stem};
use std::path::PathBuf;

fn info(name: &str, dims: &[usize], element_type: ElementType) -> TensorLoadInfo {
    TensorLoadInfo {
        name: name.to_string(),
        n_dims: dims.len(),
        dims: dims.to_vec(),
        element_type,
        start_offset: 64,
    }
}

fn table(infos: Vec<TensorLoadInfo>) -> TensorTable {
    let mut table = TensorTable::new();
    for info in infos {
        table.insert(info);
    }
    table
}

#[test]
fn sizes_of_tensor_data() {
    let sizes = [
        (ElementType::Q4_0, 40),
        (ElementType::Q4_1, 48),
        (ElementType::Q5_0, 44),
        (ElementType::Q5_1, 48),
        (ElementType::Q8_0, 72),
        (ElementType::Q8_1, 88),
        (ElementType::I32, 256),
        (ElementType::F16, 128),
        (ElementType::F32, 256),
        (ElementType::LegacyQ4_2, 40),
    ];
    for (element_type, bytes) in sizes {
        assert_eq!(info("t", &[32, 2], element_type).calc_size(), Some(bytes));
        assert_eq!(info("t", &[64], element_type).calc_size(), Some(bytes));
    }
    assert_eq!(info("t", &[], ElementType::F32).calc_size(), Some(4));
    assert_eq!(info("t", &[7, 0], ElementType::F32).calc_size(), Some(0));
}

#[test]
fn sizes_that_do_not_fit() {
    assert_eq!(info("t", &[usize::MAX, 2], ElementType::F32).calc_size(), None);
    assert_eq!(info("t", &[usize::MAX, 2, 0], ElementType::F32).calc_size(), None);
    assert_eq!(info("t", &[usize::MAX], ElementType::F32).calc_size(), None);
    assert_eq!(info("t", &[usize::MAX], ElementType::F32).calc_absolute_size(8, true), Some(8));
    assert_eq!(info("t", &[1], ElementType::F32).calc_absolute_size(usize::MAX, false), None);
}

#[test]
fn sizes_of_tensors_in_a_context() {
    assert_eq!(info("t", &[64], ElementType::F32).calc_absolute_size(240, false), Some(496));
    assert_eq!(info("t", &[64], ElementType::F32).calc_absolute_size(240, true), Some(240));
}

#[test]
fn header_of_a_tensor() {
    assert_eq!(tensor_header_size(), 240);
}

#[test]
fn sizes_of_contexts() {
    let tensors = table(vec![
        info("a", &[4096], ElementType::F32),
        info("b", &[64, 64], ElementType::Q4_0),
    ]);
    assert_eq!(context_size(&tensors, 240, false), Some(240 + 16384 + 240 + 2560));
    assert_eq!(context_size(&tensors, 240, true), Some(480));
    assert_eq!(context_size(&TensorTable::new(), 240, false), Some(0));
    assert_eq!(context_size(&tensors, usize::MAX, true), None);
}

#[test]
fn size_of_a_context_does_not_depend_on_order() {
    let forth = table(vec![
        info("a", &[3], ElementType::F32),
        info("b", &[5], ElementType::F16),
        info("c", &[7], ElementType::I32),
    ]);
    let back = table(vec![
        info("c", &[7], ElementType::I32),
        info("b", &[5], ElementType::F16),
        info("a", &[3], ElementType::F32),
    ]);
    assert_eq!(context_size(&forth, 100, false), Some(350));
    assert_eq!(context_size(&back, 100, false), Some(350));
}

#[test]
fn last_info_of_a_name_stays() {
    let mut tensors = table(vec![
        info("a", &[1], ElementType::F32),
        info("b", &[2], ElementType::F32),
    ]);
    tensors.insert(info("a", &[3], ElementType::F16));
    assert_eq!(tensors.len(), 2);
    assert_eq!(tensors.get("a").unwrap().dims, vec![3]);
    assert_eq!(tensors.get("a").unwrap().element_type, ElementType::F16);
    assert_eq!(tensors.get("b").unwrap().dims, vec![2]);
    assert!(tensors.get("c").is_none());
    let names: Vec<String> = tensors.infos().iter().map(|info| info.name.clone()).collect();
    assert_eq!(names, vec!["a".to_string(), "b".to_string()]);
}

#[test]
fn quantized_tensors_are_noticed() {
    assert!(!has_quantized(&TensorTable::new()));
    assert!(!has_quantized(&table(vec![
        info("a", &[1], ElementType::F32),
        info("b", &[1], ElementType::F16),
        info("c", &[1], ElementType::I32),
    ])));
    for element_type in [
        ElementType::Q4_0,
        ElementType::Q4_1,
        ElementType::Q5_0,
        ElementType::Q5_1,
        ElementType::Q8_0,
        ElementType::Q8_1,
        ElementType::LegacyQ4_2,
    ] {
        assert!(element_type.is_quantized());
        assert!(has_quantized(&table(vec![
            info("a", &[1], ElementType::F32),
            info("b", &[32], element_type),
        ])));
    }
}

#[test]
fn only_the_newest_container_supports_mmap() {
    assert!(!ContainerType::Ggml.support_mmap());
    assert!(!ContainerType::Ggmf(1).support_mmap());
    assert!(ContainerType::Ggjt(1).support_mmap());
    assert!(ContainerType::Ggjt(3).support_mmap());
}

#[test]
fn stems_of_names() {
    assert_eq!(name_stem("layers.0.wq.weight.loraA"), Some("layers.0.wq.weight".to_string()));
    assert_eq!(name_stem("a.b"), Some("a".to_string()));
    assert_eq!(name_stem(".b"), Some(String::new()));
    assert_eq!(name_stem("b."), Some("b".to_string()));
    assert_eq!(name_stem("größe.ß"), Some("größe".to_string()));
    assert_eq!(name_stem("plain"), None);
    assert_eq!(name_stem(""), None);
}

#[test]
fn stems_agree_with_splitting() {
    for name in ["x", "x.y", "x.y.z", "..", "é.ü", "a.b."] {
        let split = name.rsplit_once('.').map(|(prefix, _)| prefix.to_string());
        assert_eq!(name_stem(name), split);
    }
}

#[test]
fn decimal_numbers() {
    for n in [0, 1, 9, 10, 99, 100, 12345, u64::MAX] {
        let mut text = String::from("n=");
        append_decimal(&mut text, n);
        assert_eq!(text, format!("n={n}"));
    }
}

#[test]
fn names_are_held_once() {
    let mut names = NameSet::new();
    assert_eq!(names.len(), 0);
    assert!(!names.contains("a"));
    names.insert("a".to_string());
    names.insert("b".to_string());
    names.insert("a".to_string());
    assert_eq!(names.len(), 2);
    assert!(names.contains("a"));
    assert!(names.contains("b"));
    assert!(!names.contains("c"));
}

#[test]
fn targets_of_a_lora_file() {
    let tensors = table(vec![
        info("wq.weight.loraA", &[1], ElementType::F32),
        info("wq.weight.loraB", &[1], ElementType::F32),
        info("wk.weight.loraA", &[1], ElementType::F32),
        info("plain", &[1], ElementType::F32),
    ]);
    let targets = tensors_to_patch(&tensors);
    assert_eq!(targets.len(), 2);
    assert!(targets.contains("wq.weight"));
    assert!(targets.contains("wk.weight"));
    assert!(!targets.contains("plain"));
    assert!(!targets.contains("wq"));

    let adapter = LoraAdapter::new(tensors, PathBuf::from("/lora.bin"));
    assert_eq!(adapter.path, PathBuf::from("/lora.bin"));
    assert_eq!(adapter.tensors.len(), 4);
    assert_eq!(adapter.tensors_to_patch.len(), 2);
}
