//! The errors of loading a model.

use crate::container::ContainerType;
use std::path::PathBuf;
use vstd::prelude::*;

verus! {

/// Declares [`std::io::Error`].
#[verifier::external_type_specification]
#[verifier::external_body]
pub struct ExIoError(std::io::Error);

/// Declares [`std::string::FromUtf8Error`].
#[verifier::external_type_specification]
#[verifier::external_body]
pub struct ExFromUtf8Error(std::string::FromUtf8Error);

/// Errors encountered during the loading process.
#[allow(inconsistent_fields)]
#[derive(Debug)]
pub enum LoadError {
    /// The file does not exist.
    FileDoesNotExist {
        /// The path that failed.
        path: PathBuf,
    },
    /// A file failed to open.
    OpenFileFailed {
        /// The underlying error.
        source: std::io::Error,
        /// The path that failed.
        path: PathBuf,
    },
    /// There is no parent path for a given path.
    NoParentPath {
        /// The path without a parent.
        path: PathBuf,
    },
    /// Reading exactly `bytes` from a file failed.
    ReadExactFailed {
        /// The underlying error.
        source: std::io::Error,
        /// The number of bytes that were attempted to be read.
        bytes: usize,
    },
    /// A non-specific IO error.
    Io(std::io::Error),
    /// One of the strings encountered was not valid UTF-8.
    InvalidUtf8(std::string::FromUtf8Error),
    /// One of the integers encountered could not be converted to a more appropriate type.
    InvalidIntegerConversion(std::num::TryFromIntError),
    /// The `f16_` hyperparameter had an invalid value.
    UnsupportedFileType(i32),
    /// An invalid magic number was encountered during the loading process.
    InvalidMagic {
        /// The path that failed.
        path: PathBuf,
        /// The magic number that was encountered.
        magic: u32,
    },
    /// The version of the format is not supported by this version of `llm`.
    InvalidFormatVersion {
        /// The format that was encountered.
        container_type: ContainerType,
    },
    /// The `f16` hyperparameter had an invalid value.
    HyperparametersF16Invalid {
        /// The format type that was encountered.
        ftype: i32,
    },
    /// The tensor `tensor_name` was encountered during the loading of `path`, but was not seen
    /// during the model prelude.
    UnknownTensor {
        /// The name of the tensor.
        tensor_name: String,
        /// The path that failed.
        path: PathBuf,
    },
    /// The tensor `tensor_name` did not match its expected size.
    TensorWrongSize {
        /// The name of the tensor.
        tensor_name: String,
        /// The path that failed.
        path: PathBuf,
    },
    /// The tensor `tensor_name` did not have the expected format type.
    UnsupportedElementType {
        /// The name of the tensor.
        tensor_name: String,
        /// The format type that was encountered.
        ftype: u32,
        /// The path that failed.
        path: PathBuf,
    },
    /// An invariant was broken.
    InvariantBroken {
        /// The path that failed.
        path: Option<PathBuf>,
        /// The invariant that was broken.
        invariant: String,
    },
    /// The model could not be created.
    ///
    /// This implies that there were no tensors in the model to be loaded.
    ModelNotCreated {
        /// The path that failed.
        path: PathBuf,
    },
    /// Multiple parts of the model were found.
    ///
    /// Multi-part models are not supported. Please convert the model to a single part.
    MultipartNotSupported {
        /// The paths that were found.
        paths: Vec<PathBuf>,
    },
}

/// Errors of reading a file in one of the container formats.
#[derive(Debug)]
pub enum FormatLoadError<E> {
    /// The file magic number is invalid.
    InvalidMagic(u32),
    /// An unsupported format version was found.
    InvalidFormatVersion(ContainerType),
    /// A non-specific IO error.
    Io(std::io::Error),
    /// One of the strings encountered was not valid UTF-8.
    InvalidUtf8(std::string::FromUtf8Error),
    /// One of the integers encountered could not be converted to a more appropriate type.
    InvalidIntegerConversion(std::num::TryFromIntError),
    /// An error `E` was returned by the implementation of the loader.
    ImplementationError(E),
    /// One of the tensors encountered had an unsupported data type.
    UnsupportedElementType {
        /// The name of the tensor.
        tensor_name: String,
        /// The format type that was encountered.
        ftype: u32,
    },
    /// An invariant was broken.
    InvariantBroken(String),
}

/// Errors of finding the files that a model is made of.
#[derive(Debug)]
pub enum FindAllModelFilesError {
    /// The path of the model has no parent.
    NoParentPath {
        /// The path without a parent.
        path: PathBuf,
    },
    /// A non-specific IO error.
    IO(std::io::Error),
}

impl From<FindAllModelFilesError> for LoadError {
    fn from(value: FindAllModelFilesError) -> (error: Self) {
        match value {
            FindAllModelFilesError::NoParentPath { path } => LoadError::NoParentPath { path },
            FindAllModelFilesError::IO(err) => LoadError::Io(err),
        }
    }
}

impl vstd::std_specs::convert::FromSpecImpl<FindAllModelFilesError> for LoadError {
    open spec fn obeys_from_spec() -> bool {
        true
    }

    open spec fn from_spec(value: FindAllModelFilesError) -> Self {
        match value {
            FindAllModelFilesError::NoParentPath { path } => LoadError::NoParentPath { path },
            FindAllModelFilesError::IO(err) => LoadError::Io(err),
        }
    }
}

impl From<std::io::Error> for LoadError {
    fn from(value: std::io::Error) -> (error: Self) {
        LoadError::Io(value)
    }
}

impl vstd::std_specs::convert::FromSpecImpl<std::io::Error> for LoadError {
    open spec fn obeys_from_spec() -> bool {
        true
    }

    open spec fn from_spec(value: std::io::Error) -> Self {
        LoadError::Io(value)
    }
}

impl From<std::string::FromUtf8Error> for LoadError {
    fn from(value: std::string::FromUtf8Error) -> (error: Self) {
        LoadError::InvalidUtf8(value)
    }
}

impl vstd::std_specs::convert::FromSpecImpl<std::string::FromUtf8Error> for LoadError {
    open spec fn obeys_from_spec() -> bool {
        true
    }

    open spec fn from_spec(value: std::string::FromUtf8Error) -> Self {
        LoadError::InvalidUtf8(value)
    }
}

impl From<std::num::TryFromIntError> for LoadError {
    fn from(value: std::num::TryFromIntError) -> (error: Self) {
        LoadError::InvalidIntegerConversion(value)
    }
}

impl vstd::std_specs::convert::FromSpecImpl<std::num::TryFromIntError> for LoadError {
    open spec fn obeys_from_spec() -> bool {
        true
    }

    open spec fn from_spec(value: std::num::TryFromIntError) -> Self {
        LoadError::InvalidIntegerConversion(value)
    }
}

impl LoadError {
    /// What a failure to read the file at `path` is reported as: an error of the handler is
    /// passed on, any other one keeps what it holds, with the path where there is room for it.
    pub open spec fn of_format_error(value: FormatLoadError<LoadError>, path: PathBuf) -> LoadError {
        match value {
            FormatLoadError::InvalidMagic(magic) => LoadError::InvalidMagic { path, magic },
            FormatLoadError::InvalidFormatVersion(container_type) => {
                LoadError::InvalidFormatVersion { container_type }
            },
            FormatLoadError::Io(err) => LoadError::Io(err),
            FormatLoadError::InvalidUtf8(err) => LoadError::InvalidUtf8(err),
            FormatLoadError::InvalidIntegerConversion(err) => LoadError::InvalidIntegerConversion(
                err,
            ),
            FormatLoadError::ImplementationError(err) => err,
            FormatLoadError::UnsupportedElementType { tensor_name, ftype } => {
                LoadError::UnsupportedElementType { tensor_name, ftype, path }
            },
            FormatLoadError::InvariantBroken(text) => LoadError::InvariantBroken {
                path: Some(path),
                invariant: text,
            },
        }
    }

    /// Reports a failure to read the file at `path`.
    pub fn from_format_error(value: FormatLoadError<LoadError>, path: PathBuf) -> (error: Self)
        ensures
            error == LoadError::of_format_error(value, path),
    {
        match value {
            FormatLoadError::InvalidMagic(magic) => LoadError::InvalidMagic { path, magic },
            FormatLoadError::InvalidFormatVersion(container_type) => {
                LoadError::InvalidFormatVersion { container_type }
            },
            FormatLoadError::Io(err) => LoadError::Io(err),
            FormatLoadError::InvalidUtf8(err) => LoadError::InvalidUtf8(err),
            FormatLoadError::InvalidIntegerConversion(err) => {
                LoadError::InvalidIntegerConversion(err)
            },
            FormatLoadError::ImplementationError(err) => err,
            FormatLoadError::UnsupportedElementType { tensor_name, ftype } => {
                LoadError::UnsupportedElementType { path, tensor_name, ftype }
            },
            FormatLoadError::InvariantBroken(text) => {
                LoadError::InvariantBroken { path: Some(path), invariant: text }
            },
        }
    }
}

/// A failure to read a file keeps what it tells, names the file where the error has room for a
/// path, and lets an error of the handler through as it is.
pub proof fn failures_to_read_are_told(
    value: FormatLoadError<LoadError>,
    path: PathBuf,
    error: LoadError,
)
    requires
        call_ensures(LoadError::from_format_error, (value, path), error),
    ensures
        error == LoadError::of_format_error(value, path),
        value matches FormatLoadError::InvalidMagic(magic) ==> error == (LoadError::InvalidMagic {
            path,
            magic,
        }),
        value matches FormatLoadError::InvalidFormatVersion(container_type) ==> error == (
        LoadError::InvalidFormatVersion { container_type }),
        value matches FormatLoadError::Io(err) ==> error == LoadError::Io(err),
        value matches FormatLoadError::InvalidUtf8(err) ==> error == LoadError::InvalidUtf8(err),
        value matches FormatLoadError::InvalidIntegerConversion(err) ==> error
            == LoadError::InvalidIntegerConversion(err),
        value matches FormatLoadError::ImplementationError(err) ==> error == err,
        value matches FormatLoadError::UnsupportedElementType { tensor_name, ftype } ==> error == (
        LoadError::UnsupportedElementType { tensor_name, ftype, path }),
        value matches FormatLoadError::InvariantBroken(text) ==> error == (
        LoadError::InvariantBroken { path: Some(path), invariant: text }),
{
}

/// An error keeps what it holds when it becomes an error of loading.
pub proof fn errors_keep_what_they_hold(
    io: std::io::Error,
    utf8: std::string::FromUtf8Error,
    integer: std::num::TryFromIntError,
    find: FindAllModelFilesError,
    errors: (LoadError, LoadError, LoadError, LoadError),
)
    requires
        call_ensures(<LoadError as From<std::io::Error>>::from, (io,), errors.0),
        call_ensures(<LoadError as From<std::string::FromUtf8Error>>::from, (utf8,), errors.1),
        call_ensures(<LoadError as From<std::num::TryFromIntError>>::from, (integer,), errors.2),
        call_ensures(<LoadError as From<FindAllModelFilesError>>::from, (find,), errors.3),
    ensures
        errors.0 == LoadError::Io(io),
        errors.1 == LoadError::InvalidUtf8(utf8),
        errors.2 == LoadError::InvalidIntegerConversion(integer),
        find matches FindAllModelFilesError::NoParentPath { path } ==> errors.3 == (
        LoadError::NoParentPath { path }),
        find matches FindAllModelFilesError::IO(err) ==> errors.3 == LoadError::Io(err),
{
}

} // verus!
