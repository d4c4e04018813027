use llm_loader::element::ElementType;
use llm_loader::file_type::{FileType, FileTypeFormat, QNT_VERSION_FACTOR};

const FORMATS: [(FileTypeFormat, i32, &str); 9] = [
    (FileTypeFormat::F32, 0, "f32"),
    (FileTypeFormat::MostlyF16, 1, "f16"),
    (FileTypeFormat::MostlyQ4_0, 2, "q4_0"),
    (FileTypeFormat::MostlyQ4_1, 3, "q4_1"),
    (FileTypeFormat::MostlyQ4_1SomeF16, 4, "q4_1_with_f16"),
    (FileTypeFormat::MostlyQ4_2, 5, "q4_2"),
    (FileTypeFormat::MostlyQ8_0, 7, "q8_0"),
    (FileTypeFormat::MostlyQ5_0, 8, "q5_0"),
    (FileTypeFormat::MostlyQ5_1, 9, "q5_1"),
];

fn file_type(format: FileTypeFormat, quantization_version: u32) -> FileType {
    FileType { format, quantization_version }
}

#[test]
fn codes_of_file_types() {
    assert_eq!(QNT_VERSION_FACTOR, 1000);
    for (format, code, _) in FORMATS {
        assert_eq!(i32::from(file_type(format, 0)), code);
        assert_eq!(i32::from(file_type(format, 2)), 2000 + code);
        assert_eq!(i32::from(file_type(format, 2147482)), 2147482000 + code);
    }
}

#[test]
fn large_versions_have_negative_codes() {
    assert_eq!(i32::from(file_type(FileTypeFormat::F32, 2147484)), -2147483296);
    assert_eq!(i32::from(file_type(FileTypeFormat::MostlyQ5_1, 4294967)), -287);
}

#[test]
fn versions_without_code_wrap_around() {
    assert_eq!(i32::from(file_type(FileTypeFormat::F32, 4294968)), 704);
    assert_eq!(i32::from(file_type(FileTypeFormat::F32, u32::MAX)), -1000);
}

#[test]
fn file_types_are_found_from_their_codes() {
    for (format, _, _) in FORMATS {
        for version in [0, 1, 2, 999, 2147483, 2147484, 4294967] {
            let value = file_type(format, version);
            assert_eq!(FileType::try_from(i32::from(value)), Ok(value));
        }
    }
}

#[test]
fn codes_are_found_from_their_file_types() {
    for code in [0, 1, 9, 1001, 2002, 2147483007, -1288, -296, i32::MIN] {
        if let Ok(found) = FileType::try_from(code) {
            assert_eq!(i32::from(found), code);
        }
    }
    assert_eq!(FileType::try_from(2002), Ok(file_type(FileTypeFormat::MostlyQ4_0, 2)));
    assert_eq!(FileType::try_from(-296), Ok(file_type(FileTypeFormat::F32, 4294967)));
}

#[test]
fn unknown_codes_are_refused() {
    for code in [6, 10, 11, 999, 2006, 2999, -1, i32::MAX, i32::MIN] {
        assert_eq!(FileType::try_from(code), Err(()));
    }
}

#[test]
fn descriptions_of_file_types() {
    for (format, _, name) in FORMATS {
        assert_eq!(file_type(format, 0).to_string(), format!("{name}_qnt0"));
        assert_eq!(file_type(format, 2).to_string(), format!("{name}_qnt2"));
        assert_eq!(file_type(format, 4294967295).to_string(), format!("{name}_qnt4294967295"));
    }
    assert_eq!(file_type(FileTypeFormat::MostlyQ4_0, 2).to_string(), "q4_0_qnt2");
    assert_eq!(file_type(FileTypeFormat::F32, 1050).to_string(), "f32_qnt1050");
}

#[test]
fn descriptions_of_different_file_types_differ() {
    let mut seen: Vec<String> = Vec::new();
    for (format, _, _) in FORMATS {
        for version in [0, 1, 2, 10, 11, 100] {
            let text = file_type(format, version).to_string();
            assert!(!seen.contains(&text));
            seen.push(text);
        }
    }
}

#[test]
fn default_file_type() {
    assert_eq!(FileTypeFormat::default(), FileTypeFormat::MostlyF16);
    assert_eq!(FileType::default(), file_type(FileTypeFormat::MostlyF16, 0));
}

#[test]
fn formats_of_element_types() {
    let known = [
        (ElementType::Q4_0, FileTypeFormat::MostlyQ4_0),
        (ElementType::Q4_1, FileTypeFormat::MostlyQ4_1),
        (ElementType::Q5_0, FileTypeFormat::MostlyQ5_0),
        (ElementType::Q5_1, FileTypeFormat::MostlyQ5_1),
        (ElementType::Q8_0, FileTypeFormat::MostlyQ8_0),
        (ElementType::F16, FileTypeFormat::MostlyF16),
        (ElementType::F32, FileTypeFormat::F32),
        (ElementType::LegacyQ4_2, FileTypeFormat::MostlyQ4_2),
    ];
    for (element_type, format) in known {
        assert_eq!(FileTypeFormat::try_from(element_type), Ok(format));
    }
    assert_eq!(FileTypeFormat::try_from(ElementType::Q8_1), Err(()));
    assert_eq!(FileTypeFormat::try_from(ElementType::I32), Err(()));
}
