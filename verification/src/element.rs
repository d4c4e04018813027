//! The element types of tensors and the memory that they take.

use vstd::prelude::*;

verus! {

/// The type of the elements of a tensor.
#[derive(Debug, Clone, Copy, PartialEq, Eq, Structural)]
pub enum ElementType {
    /// Quantized 4-bit (type 0).
    Q4_0,
    /// Quantized 4-bit (type 1).
    Q4_1,
    /// Quantized 5-bit (type 0).
    Q5_0,
    /// Quantized 5-bit (type 1).
    Q5_1,
    /// Quantized 8-bit (type 0).
    Q8_0,
    /// Quantized 8-bit (type 1).
    Q8_1,
    /// Integer 32-bit.
    I32,
    /// Float 16-bit.
    F16,
    /// Float 32-bit.
    F32,
    /// Quantized 4-bit (type 2), found in legacy files only.
    LegacyQ4_2,
}

/// The number of elements that one block of `element_type` holds.
pub open spec fn block_elements(element_type: ElementType) -> nat {
    match element_type {
        ElementType::I32 | ElementType::F16 | ElementType::F32 => 1,
        ElementType::LegacyQ4_2 => 16,
        _ => 32,
    }
}

/// The number of bytes that one block of `element_type` takes.
pub open spec fn block_bytes(element_type: ElementType) -> nat {
    match element_type {
        ElementType::Q4_0 => 20,
        ElementType::Q4_1 => 24,
        ElementType::Q5_0 => 22,
        ElementType::Q5_1 => 24,
        ElementType::Q8_0 => 36,
        ElementType::Q8_1 => 44,
        ElementType::I32 => 4,
        ElementType::F16 => 2,
        ElementType::F32 => 4,
        ElementType::LegacyQ4_2 => 10,
    }
}

impl ElementType {
    /// Whether values of this type are quantized: stored in blocks of several elements.
    pub open spec fn quantized(self) -> bool {
        !(self is I32 || self is F16 || self is F32)
    }

    /// Whether this type is quantized.
    pub fn is_quantized(&self) -> (quantized: bool)
        ensures
            quantized == self.quantized(),
    {
        match self {
            ElementType::I32 | ElementType::F16 | ElementType::F32 => false,
            _ => true,
        }
    }
}

/// `ggml::type_size`: the bytes that one block of a type takes, as the table of type
/// sizes in the `ggml` library gives them. It returns for every type.
#[verifier::external_body]
pub(crate) fn type_size(element_type: ElementType) -> (bytes: usize)
    ensures
        bytes == block_bytes(element_type),
{
    ggml::type_size(match element_type {
        ElementType::Q4_0 => ggml::Type::Q4_0,
        ElementType::Q4_1 => ggml::Type::Q4_1,
        ElementType::Q5_0 => ggml::Type::Q5_0,
        ElementType::Q5_1 => ggml::Type::Q5_1,
        ElementType::Q8_0 => ggml::Type::Q8_0,
        ElementType::Q8_1 => ggml::Type::Q8_1,
        ElementType::I32 => ggml::Type::I32,
        ElementType::F16 => ggml::Type::F16,
        ElementType::F32 => ggml::Type::F32,
        ElementType::LegacyQ4_2 => ggml::Type::Q4_2,
    })
}

/// `ggml::blck_size`: the elements that one block of a type holds, as the table of block
/// sizes in the `ggml` library gives them. It returns for every type.
#[verifier::external_body]
pub(crate) fn blck_size(element_type: ElementType) -> (elements: usize)
    ensures
        elements == block_elements(element_type),
{
    ggml::blck_size(match element_type {
        ElementType::Q4_0 => ggml::Type::Q4_0,
        ElementType::Q4_1 => ggml::Type::Q4_1,
        ElementType::Q5_0 => ggml::Type::Q5_0,
        ElementType::Q5_1 => ggml::Type::Q5_1,
        ElementType::Q8_0 => ggml::Type::Q8_0,
        ElementType::Q8_1 => ggml::Type::Q8_1,
        ElementType::I32 => ggml::Type::I32,
        ElementType::F16 => ggml::Type::F16,
        ElementType::F32 => ggml::Type::F32,
        ElementType::LegacyQ4_2 => ggml::Type::Q4_2,
    })
}

/// `ggml::Tensor::C_TYPE_SIZE`: the bytes that the description of one tensor takes. It is
/// the size of a C structure, 208 where pointers take eight bytes; what it is elsewhere
/// depends on the machine and is not stated, but that no type is larger than `isize::MAX`.
#[verifier::external_body]
fn tensor_struct_size() -> (bytes: usize)
    ensures
        usize::BITS == 64 ==> bytes == 208,
        bytes <= isize::MAX,
{
    ggml::Tensor::C_TYPE_SIZE
}

/// `ggml::OBJECT_SIZE`: the bytes with which a context prefixes every object, always 32.
#[verifier::external_body]
fn object_size() -> (bytes: usize)
    ensures
        bytes == 32,
{
    ggml::OBJECT_SIZE
}

/// A tensor takes `bytes` in a context besides its data: the size that
/// `ggml::Tensor::C_TYPE_SIZE` gives on this machine, and 32 bytes before it.
pub closed spec fn is_header_size(bytes: usize) -> bool {
    exists|struct_size: usize| #[trigger]
        call_ensures(tensor_struct_size, (), struct_size) && bytes == struct_size + 32
}

/// A tensor's header takes 240 bytes where pointers take eight, and at least 32 anywhere.
pub proof fn header_sizes(bytes: usize)
    requires
        is_header_size(bytes),
    ensures
        usize::BITS == 64 ==> bytes == 240,
        32 <= bytes <= isize::MAX + 32,
{
}

/// The bytes that a tensor takes in a context besides its data: 240 where pointers take
/// eight bytes.
pub fn tensor_header_size() -> (bytes: usize)
    ensures
        is_header_size(bytes),
        usize::BITS == 64 ==> bytes == 240,
        32 <= bytes <= isize::MAX + 32,
{
    tensor_struct_size() + object_size()
}

/// The types that are not quantized are the plain integers and floating point numbers.
pub proof fn plain_types_are_not_quantized(element_type: ElementType, quantized: bool)
    requires
        call_ensures(ElementType::is_quantized, (&element_type,), quantized),
    ensures
        quantized == element_type.quantized(),
        quantized <==> element_type != ElementType::I32 && element_type != ElementType::F16
            && element_type != ElementType::F32,
        quantized <==> block_elements(element_type) > 1,
{
}

/// A plain element stands alone, in four bytes or in two. A quantized one shares a block with
/// 31 others, or with 15 in legacy files; the block takes the bits of its elements and what is
/// kept to scale them.
pub proof fn sizes_of_blocks(element_type: ElementType)
    ensures
        element_type is I32 || element_type is F32 ==> block_elements(element_type) == 1
            && block_bytes(element_type) == 4,
        element_type is F16 ==> block_elements(element_type) == 1 && block_bytes(element_type) == 2,
        element_type is LegacyQ4_2 ==> block_elements(element_type) == 16 && block_bytes(
            element_type,
        ) == 16 * 4 / 8 + 2,
        element_type.quantized() && !(element_type is LegacyQ4_2) ==> block_elements(element_type)
            == 32,
        element_type is Q4_0 ==> block_bytes(element_type) == 32 * 4 / 8 + 4,
        element_type is Q4_1 ==> block_bytes(element_type) == 32 * 4 / 8 + 8,
        element_type is Q5_0 ==> block_bytes(element_type) == 32 * 5 / 8 + 2,
        element_type is Q5_1 ==> block_bytes(element_type) == 32 * 5 / 8 + 4,
        element_type is Q8_0 ==> block_bytes(element_type) == 32 * 8 / 8 + 4,
        element_type is Q8_1 ==> block_bytes(element_type) == 32 * 8 / 8 + 12,
{
}

} // verus!
