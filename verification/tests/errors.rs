use llm_loader::container::ContainerType;
use llm_loader::error::{FindAllModelFilesError, FormatLoadError, LoadError};
use std::io::{Error, ErrorKind};
use std::path::PathBuf;

fn path() -> PathBuf {
    PathBuf::from("/models/model.bin")
}

fn reported(error: FormatLoadError<LoadError>) -> LoadError {
    LoadError::from_format_error(error, path())
}

#[test]
fn bad_magic_keeps_path_and_number() {
    let error = reported(FormatLoadError::InvalidMagic(0x1234));
    assert!(matches!(
        error,
        LoadError::InvalidMagic { path: p, magic: 0x1234 } if p == path()
    ));
}

#[test]
fn bad_version_keeps_container() {
    let error = reported(FormatLoadError::InvalidFormatVersion(ContainerType::Ggjt(9)));
    assert!(matches!(
        error,
        LoadError::InvalidFormatVersion { container_type: ContainerType::Ggjt(9) }
    ));
}

#[test]
fn io_error_is_kept() {
    let error = reported(FormatLoadError::Io(Error::from(ErrorKind::UnexpectedEof)));
    assert!(matches!(error, LoadError::Io(e) if e.kind() == ErrorKind::UnexpectedEof));
}

#[test]
fn utf8_error_is_kept() {
    let source = String::from_utf8(vec![b'a', 0xff]).unwrap_err();
    let error = reported(FormatLoadError::InvalidUtf8(source));
    assert!(matches!(error, LoadError::InvalidUtf8(e) if e.utf8_error().valid_up_to() == 1));
}

#[test]
fn integer_error_is_kept() {
    let source = u8::try_from(300i32).unwrap_err();
    let error = reported(FormatLoadError::InvalidIntegerConversion(source));
    assert!(matches!(error, LoadError::InvalidIntegerConversion(_)));
}

#[test]
fn handler_error_is_passed_on() {
    let error = reported(FormatLoadError::ImplementationError(LoadError::UnsupportedFileType(6)));
    assert!(matches!(error, LoadError::UnsupportedFileType(6)));
}

#[test]
fn bad_element_type_keeps_tensor_and_path() {
    let error = reported(FormatLoadError::UnsupportedElementType {
        tensor_name: "wq".to_string(),
        ftype: 77,
    });
    assert!(matches!(
        error,
        LoadError::UnsupportedElementType { tensor_name, ftype: 77, path: p }
            if tensor_name == "wq" && p == path()
    ));
}

#[test]
fn broken_invariant_keeps_text_and_path() {
    let error = reported(FormatLoadError::InvariantBroken("3 <= 2".to_string()));
    assert!(matches!(
        error,
        LoadError::InvariantBroken { path: Some(p), invariant: text }
            if p == path() && text == "3 <= 2"
    ));
}

#[test]
fn errors_of_finding_files() {
    let error = LoadError::from(FindAllModelFilesError::NoParentPath { path: path() });
    assert!(matches!(error, LoadError::NoParentPath { path: p } if p == path()));
    let error = LoadError::from(FindAllModelFilesError::IO(Error::from(ErrorKind::NotFound)));
    assert!(matches!(error, LoadError::Io(e) if e.kind() == ErrorKind::NotFound));
}

#[test]
fn errors_of_the_standard_library() {
    let error = LoadError::from(Error::from(ErrorKind::NotFound));
    assert!(matches!(error, LoadError::Io(_)));
    let error = LoadError::from(String::from_utf8(vec![0xff]).unwrap_err());
    assert!(matches!(error, LoadError::InvalidUtf8(_)));
    let error = LoadError::from(u8::try_from(300i32).unwrap_err());
    assert!(matches!(error, LoadError::InvalidIntegerConversion(_)));
}
