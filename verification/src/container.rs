//! The container formats of model files.

use vstd::prelude::*;

verus! {

/// The format of the file containing the model.
#[derive(Debug, Clone, Copy, PartialEq, Eq, Structural)]
pub enum ContainerType {
    /// Legacy format, oldest ggml tensor file format.
    Ggml,
    /// Legacy format. Introduces versioning. Newer than GGML, older than GGJT.
    Ggmf(u32),
    /// Mmap-able format.
    Ggjt(u32),
}

impl ContainerType {
    /// Does this container type support mmap?
    pub fn support_mmap(&self) -> (supported: bool)
        ensures
            supported == (self is Ggjt),
    {
        match self {
            ContainerType::Ggjt(_) => true,
            _ => false,
        }
    }
}

/// Files can be mapped in the newest container format, whatever its version, and in no other.
pub proof fn only_ggjt_files_can_be_mapped(container_type: ContainerType, supported: bool)
    requires
        call_ensures(ContainerType::support_mmap, (&container_type,), supported),
    ensures
        forall|version: u32| container_type == ContainerType::Ggjt(version) ==> supported,
        forall|version: u32| container_type == ContainerType::Ggmf(version) ==> !supported,
        container_type == ContainerType::Ggml ==> !supported,
{
}

} // verus!
