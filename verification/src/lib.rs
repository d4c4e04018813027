//! Loading of GGML language models.
//!
//! The library holds what loading a model decides and computes. The work outside, on files, on
//! memory and on the tensors' data, is asked for step by step: [`session`] leads from the path
//! of a model to the model, [`tensor_loader`] from the name of a tensor to the tensor.

pub mod container;
pub mod element;
pub mod error;
pub mod file_type;
pub mod loader;
pub mod lora;
pub mod names;
pub mod paths;
pub mod plan;
pub mod progress;
pub mod runs;
pub mod session;
pub mod tensor_loader;
pub mod tensor_runs;
pub mod tensors;
pub mod text;

pub use container::ContainerType;
pub use error::LoadError;
pub use file_type::{FileType, FileTypeFormat};
pub use loader::Loader;
pub use progress::LoadProgress;
