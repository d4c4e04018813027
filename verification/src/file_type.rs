//! The file type that a model's hyperparameters record.

use crate::element::ElementType;
use crate::text::append_decimal;
use vstd::prelude::*;

verus! {

/// The factor by which the quantization version is multiplied within a file type code.
pub const QNT_VERSION_FACTOR: u32 = 1000;

/// How the tensors are stored in GGML LLM models.
#[derive(Debug, PartialEq, Clone, Copy, Eq, Structural)]
pub enum FileTypeFormat {
    /// All tensors are stored as f32.
    F32,
    /// All tensors are mostly stored as `f16`, except for the 1D tensors (32-bit).
    MostlyF16,
    /// All tensors are mostly stored as `Q4_0`, except for the 1D tensors (32-bit).
    MostlyQ4_0,
    /// All tensors are mostly stored as `Q4_1`, except for the 1D tensors (32-bit)
    MostlyQ4_1,
    /// All tensors are mostly stored as `Q4_1`, except for the 1D tensors (32-bit)
    /// and the `tok_embeddings.weight` (f16) and `output.weight` tensors (f16).
    MostlyQ4_1SomeF16,
    /// All tensors are mostly stored as `Q4_2`, except for the 1D tensors (32-bit).
    MostlyQ4_2,
    /// All tensors are mostly stored as `Q8_0`, except for the 1D tensors (32-bit).
    MostlyQ8_0,
    /// All tensors are mostly stored as `Q5_0`, except for the 1D tensors (32-bit).
    MostlyQ5_0,
    /// All tensors are mostly stored as `Q5_1`, except for the 1D tensors (32-bit).
    MostlyQ5_1,
}

/// Information about the file.
#[derive(Debug, PartialEq, Clone, Copy, Eq, Structural)]
pub struct FileType {
    /// The format of the tensors.
    pub format: FileTypeFormat,
    /// The quantization version.
    pub quantization_version: u32,
}

/// The number that stands for `format` in a file type code.
pub open spec fn format_code(format: FileTypeFormat) -> nat {
    match format {
        FileTypeFormat::F32 => 0,
        FileTypeFormat::MostlyF16 => 1,
        FileTypeFormat::MostlyQ4_0 => 2,
        FileTypeFormat::MostlyQ4_1 => 3,
        FileTypeFormat::MostlyQ4_1SomeF16 => 4,
        FileTypeFormat::MostlyQ4_2 => 5,
        FileTypeFormat::MostlyQ8_0 => 7,
        FileTypeFormat::MostlyQ5_0 => 8,
        FileTypeFormat::MostlyQ5_1 => 9,
    }
}

/// The format that a number stands for, if it stands for one.
pub open spec fn format_of_code(code: nat) -> Option<FileTypeFormat> {
    if exists|format: FileTypeFormat| #[trigger] format_code(format) == code {
        Some(choose|format: FileTypeFormat| #[trigger] format_code(format) == code)
    } else {
        None
    }
}

/// The 32-bit pattern of `value`, read as an unsigned number.
pub open spec fn unsigned(value: i32) -> nat {
    if value >= 0 {
        value as nat
    } else {
        (value + 0x1_0000_0000) as nat
    }
}

/// The 32-bit number whose unsigned pattern is `n`, taken modulo two to the 32nd power.
pub open spec fn signed(n: nat) -> i32 {
    let low = n % 0x1_0000_0000;
    if low < 0x8000_0000 {
        low as i32
    } else {
        (low - 0x1_0000_0000) as i32
    }
}

impl FileType {
    /// The number that stands for this file type: the quantization version in thousands
    /// and the format's number in the units.
    pub open spec fn code(self) -> nat {
        self.quantization_version as nat * QNT_VERSION_FACTOR as nat + format_code(self.format)
    }

    /// The file type that a code stands for, if it stands for one.
    pub open spec fn of_code(code: nat) -> Option<FileType> {
        match format_of_code(code % QNT_VERSION_FACTOR as nat) {
            Some(format) => Some(
                FileType {
                    format,
                    quantization_version: (code / QNT_VERSION_FACTOR as nat) as u32,
                },
            ),
            None => None,
        }
    }

    /// The text that describes this file type.
    pub open spec fn text(self) -> Seq<char> {
        format_text(self.format) + "_qnt"@ + crate::text::decimal(self.quantization_version as nat)
    }

    /// A description of this file type, such as `q4_0_qnt2`.
    pub fn to_string(&self) -> (text: String)
        ensures
            text@ == self.text(),
    {
        let mut text: String = match self.format {
            FileTypeFormat::F32 => "f32",
            FileTypeFormat::MostlyF16 => "f16",
            FileTypeFormat::MostlyQ4_0 => "q4_0",
            FileTypeFormat::MostlyQ4_1 => "q4_1",
            FileTypeFormat::MostlyQ4_1SomeF16 => "q4_1_with_f16",
            FileTypeFormat::MostlyQ4_2 => "q4_2",
            FileTypeFormat::MostlyQ8_0 => "q8_0",
            FileTypeFormat::MostlyQ5_0 => "q5_0",
            FileTypeFormat::MostlyQ5_1 => "q5_1",
        }.to_owned();
        text.append("_qnt");
        append_decimal(&mut text, self.quantization_version as u64);
        text
    }
}

/// The text that describes `format`.
pub open spec fn format_text(format: FileTypeFormat) -> Seq<char> {
    match format {
        FileTypeFormat::F32 => "f32"@,
        FileTypeFormat::MostlyF16 => "f16"@,
        FileTypeFormat::MostlyQ4_0 => "q4_0"@,
        FileTypeFormat::MostlyQ4_1 => "q4_1"@,
        FileTypeFormat::MostlyQ4_1SomeF16 => "q4_1_with_f16"@,
        FileTypeFormat::MostlyQ4_2 => "q4_2"@,
        FileTypeFormat::MostlyQ8_0 => "q8_0"@,
        FileTypeFormat::MostlyQ5_0 => "q5_0"@,
        FileTypeFormat::MostlyQ5_1 => "q5_1"@,
    }
}

impl Default for FileTypeFormat {
    fn default() -> (format: Self)
        ensures
            format == FileTypeFormat::MostlyF16,
    {
        FileTypeFormat::MostlyF16
    }
}

impl Default for FileType {
    fn default() -> (file_type: Self)
        ensures
            file_type == (FileType {
                format: FileTypeFormat::MostlyF16,
                quantization_version: 0,
            }),
    {
        FileType { format: FileTypeFormat::default(), quantization_version: 0 }
    }
}

impl From<FileType> for i32 {
    /// The code of `value`. A quantization version over 4294967 has no code of its own: the
    /// product with [`QNT_VERSION_FACTOR`] then wraps around.
    fn from(value: FileType) -> (code: i32) {
        let format: u64 = match value.format {
            FileTypeFormat::F32 => 0,
            FileTypeFormat::MostlyF16 => 1,
            FileTypeFormat::MostlyQ4_0 => 2,
            FileTypeFormat::MostlyQ4_1 => 3,
            FileTypeFormat::MostlyQ4_1SomeF16 => 4,
            FileTypeFormat::MostlyQ4_2 => 5,
            FileTypeFormat::MostlyQ8_0 => 7,
            FileTypeFormat::MostlyQ5_0 => 8,
            FileTypeFormat::MostlyQ5_1 => 9,
        };
        assert(value.quantization_version * QNT_VERSION_FACTOR <= 0xffff_ffff * 1000)
            by (nonlinear_arith)
            requires
                QNT_VERSION_FACTOR == 1000,
        ;
        let code: u64 = value.quantization_version as u64 * QNT_VERSION_FACTOR as u64 + format;
        let low: u32 = (code % 0x1_0000_0000) as u32;
        let result: i32 = low as i32;
        assert(low < 0x8000_0000 ==> result == low) by (bit_vector)
            requires
                result == low as i32,
        ;
        assert(low >= 0x8000_0000 ==> result == low - 0x1_0000_0000) by (bit_vector)
            requires
                result == low as i32,
        ;
        result
    }
}

impl vstd::std_specs::convert::FromSpecImpl<FileType> for i32 {
    open spec fn obeys_from_spec() -> bool {
        true
    }

    open spec fn from_spec(value: FileType) -> i32 {
        signed(value.code())
    }
}

impl TryFrom<i32> for FileType {
    type Error = ();

    fn try_from(value: i32) -> (file_type: Result<Self, ()>) {
        let code: u32 = value as u32;
        assert(value >= 0 ==> code == value) by (bit_vector)
            requires
                code == value as u32,
        ;
        assert(value < 0 ==> code == value + 0x1_0000_0000) by (bit_vector)
            requires
                code == value as u32,
        ;
        proof {
            formats_of_codes();
        }
        let format: FileTypeFormat = match code % QNT_VERSION_FACTOR {
            0 => FileTypeFormat::F32,
            1 => FileTypeFormat::MostlyF16,
            2 => FileTypeFormat::MostlyQ4_0,
            3 => FileTypeFormat::MostlyQ4_1,
            4 => FileTypeFormat::MostlyQ4_1SomeF16,
            5 => FileTypeFormat::MostlyQ4_2,
            7 => FileTypeFormat::MostlyQ8_0,
            8 => FileTypeFormat::MostlyQ5_0,
            9 => FileTypeFormat::MostlyQ5_1,
            _ => return Err(()),
        };
        Ok(FileType { format, quantization_version: code / QNT_VERSION_FACTOR })
    }
}

impl vstd::std_specs::convert::TryFromSpecImpl<i32> for FileType {
    open spec fn obeys_try_from_spec() -> bool {
        true
    }

    open spec fn try_from_spec(value: i32) -> Result<Self, ()> {
        match FileType::of_code(unsigned(value)) {
            Some(file_type) => Ok(file_type),
            None => Err(()),
        }
    }
}

impl TryFrom<ElementType> for FileTypeFormat {
    type Error = ();

    fn try_from(value: ElementType) -> (format: Result<Self, ()>) {
        match value {
            ElementType::Q4_0 => Ok(FileTypeFormat::MostlyQ4_0),
            ElementType::Q4_1 => Ok(FileTypeFormat::MostlyQ4_1),
            ElementType::Q5_0 => Ok(FileTypeFormat::MostlyQ5_0),
            ElementType::Q5_1 => Ok(FileTypeFormat::MostlyQ5_1),
            ElementType::Q8_0 => Ok(FileTypeFormat::MostlyQ8_0),
            ElementType::Q8_1 => Err(()),
            ElementType::I32 => Err(()),
            ElementType::F16 => Ok(FileTypeFormat::MostlyF16),
            ElementType::F32 => Ok(FileTypeFormat::F32),
            ElementType::LegacyQ4_2 => Ok(FileTypeFormat::MostlyQ4_2),
        }
    }
}

impl vstd::std_specs::convert::TryFromSpecImpl<ElementType> for FileTypeFormat {
    open spec fn obeys_try_from_spec() -> bool {
        true
    }

    open spec fn try_from_spec(value: ElementType) -> Result<Self, ()> {
        match value {
            ElementType::Q4_0 => Ok(FileTypeFormat::MostlyQ4_0),
            ElementType::Q4_1 => Ok(FileTypeFormat::MostlyQ4_1),
            ElementType::Q5_0 => Ok(FileTypeFormat::MostlyQ5_0),
            ElementType::Q5_1 => Ok(FileTypeFormat::MostlyQ5_1),
            ElementType::Q8_0 => Ok(FileTypeFormat::MostlyQ8_0),
            ElementType::F16 => Ok(FileTypeFormat::MostlyF16),
            ElementType::F32 => Ok(FileTypeFormat::F32),
            ElementType::LegacyQ4_2 => Ok(FileTypeFormat::MostlyQ4_2),
            ElementType::Q8_1 | ElementType::I32 => Err(()),
        }
    }
}

/// Every format has a number of its own.
pub proof fn format_codes_are_distinct()
    ensures
        forall|a: FileTypeFormat, b: FileTypeFormat|
            #[trigger] format_code(a) == #[trigger] format_code(b) ==> a == b,
{
}

/// The formats that the numbers stand for.
proof fn formats_of_codes()
    ensures
        format_of_code(0) == Some(FileTypeFormat::F32),
        format_of_code(1) == Some(FileTypeFormat::MostlyF16),
        format_of_code(2) == Some(FileTypeFormat::MostlyQ4_0),
        format_of_code(3) == Some(FileTypeFormat::MostlyQ4_1),
        format_of_code(4) == Some(FileTypeFormat::MostlyQ4_1SomeF16),
        format_of_code(5) == Some(FileTypeFormat::MostlyQ4_2),
        format_of_code(7) == Some(FileTypeFormat::MostlyQ8_0),
        format_of_code(8) == Some(FileTypeFormat::MostlyQ5_0),
        format_of_code(9) == Some(FileTypeFormat::MostlyQ5_1),
        forall|code: nat| #[trigger] format_of_code(code) is Some <==> code <= 9 && code != 6,
{
    format_codes_are_distinct();
    assert(format_code(FileTypeFormat::F32) == 0);
    assert(format_code(FileTypeFormat::MostlyF16) == 1);
    assert(format_code(FileTypeFormat::MostlyQ4_0) == 2);
    assert(format_code(FileTypeFormat::MostlyQ4_1) == 3);
    assert(format_code(FileTypeFormat::MostlyQ4_1SomeF16) == 4);
    assert(format_code(FileTypeFormat::MostlyQ4_2) == 5);
    assert(format_code(FileTypeFormat::MostlyQ8_0) == 7);
    assert(format_code(FileTypeFormat::MostlyQ5_0) == 8);
    assert(format_code(FileTypeFormat::MostlyQ5_1) == 9);
}

/// A file type whose quantization version is at most 4294967 is found again from its code.
pub proof fn file_type_is_found_from_its_code(file_type: FileType)
    requires
        file_type.quantization_version <= 4294967,
    ensures
        <FileType as vstd::std_specs::convert::TryFromSpec<i32>>::try_from_spec(
            <i32 as vstd::std_specs::convert::FromSpec<FileType>>::from_spec(file_type),
        ) == Ok::<FileType, ()>(file_type),
{
    let version = file_type.quantization_version as nat;
    let code = file_type.code();
    assert(code == version * 1000 + format_code(file_type.format));
    assert(code < 0x1_0000_0000);
    assert(unsigned(signed(code)) == code);
    assert(code % 1000 == format_code(file_type.format));
    assert(code / 1000 == version);
    format_codes_are_distinct();
}

/// A code that stands for a file type is the code of that file type.
pub proof fn code_is_found_from_its_file_type(value: i32)
    ensures
        <FileType as vstd::std_specs::convert::TryFromSpec<i32>>::try_from_spec(
            value,
        ) matches Ok(file_type) ==> <i32 as vstd::std_specs::convert::FromSpec<
            FileType,
        >>::from_spec(file_type) == value,
{
    let code = unsigned(value);
    if let Some(file_type) = FileType::of_code(code) {
        let format = file_type.format;
        assert(format_code(format) == code % 1000);
        assert(file_type.quantization_version == code / 1000);
        assert(file_type.code() == (code / 1000) * 1000 + code % 1000);
    }
}

/// A code stands for a file type exactly where its last three digits, read without sign,
/// are at most nine and not six.
pub proof fn known_codes(value: i32)
    ensures
        <FileType as vstd::std_specs::convert::TryFromSpec<i32>>::try_from_spec(value) is Ok <==> {
            &&& unsigned(value) % 1000 <= 9
            &&& unsigned(value) % 1000 != 6
        },
{
    formats_of_codes();
}

/// Different element types never share a file format.
pub proof fn element_formats_are_distinct(a: ElementType, b: ElementType)
    requires
        <FileTypeFormat as vstd::std_specs::convert::TryFromSpec<ElementType>>::try_from_spec(
            a,
        ) is Ok,
        <FileTypeFormat as vstd::std_specs::convert::TryFromSpec<ElementType>>::try_from_spec(a)
            == <FileTypeFormat as vstd::std_specs::convert::TryFromSpec<
            ElementType,
        >>::try_from_spec(b),
    ensures
        a == b,
{
}

/// The description of a format holds no `n`, which the version's marker does.
proof fn format_text_has_no_marker(format: FileTypeFormat)
    ensures
        forall|i: int| 0 <= i < format_text(format).len() ==> format_text(format)[i] != 'n',
{
    reveal_strlit("f32");
    reveal_strlit("f16");
    reveal_strlit("q4_0");
    reveal_strlit("q4_1");
    reveal_strlit("q4_1_with_f16");
    reveal_strlit("q4_2");
    reveal_strlit("q8_0");
    reveal_strlit("q5_0");
    reveal_strlit("q5_1");
}

/// Different formats are described differently.
proof fn format_texts_are_distinct(a: FileTypeFormat, b: FileTypeFormat)
    requires
        format_text(a) == format_text(b),
    ensures
        a == b,
{
    reveal_strlit("f32");
    reveal_strlit("f16");
    reveal_strlit("q4_0");
    reveal_strlit("q4_1");
    reveal_strlit("q4_1_with_f16");
    reveal_strlit("q4_2");
    reveal_strlit("q8_0");
    reveal_strlit("q5_0");
    reveal_strlit("q5_1");
    assert("f32"@.len() == 3 && "f32"@[1] == '3');
    assert("f16"@.len() == 3 && "f16"@[1] == '1');
    assert("q4_0"@.len() == 4 && "q4_0"@[1] == '4' && "q4_0"@[3] == '0');
    assert("q4_1"@.len() == 4 && "q4_1"@[1] == '4' && "q4_1"@[3] == '1');
    assert("q4_1_with_f16"@.len() == 13 && "q4_1_with_f16"@[1] == '4' && "q4_1_with_f16"@[3] == '1');
    assert("q4_2"@.len() == 4 && "q4_2"@[1] == '4' && "q4_2"@[3] == '2');
    assert("q8_0"@.len() == 4 && "q8_0"@[1] == '8' && "q8_0"@[3] == '0');
    assert("q5_0"@.len() == 4 && "q5_0"@[1] == '5' && "q5_0"@[3] == '0');
    assert("q5_1"@.len() == 4 && "q5_1"@[1] == '5' && "q5_1"@[3] == '1');
    let (text_a, text_b) = (format_text(a), format_text(b));
    assert(text_a.len() == text_b.len());
    assert(text_a[1] == text_b[1]);
    assert(text_a[3] == text_b[3]);
}

/// Different file types are described differently.
pub proof fn descriptions_are_distinct(a: FileType, b: FileType)
    requires
        a.text() == b.text(),
    ensures
        a == b,
{
    let text = a.text();
    let head_a = format_text(a.format);
    let head_b = format_text(b.format);
    reveal_strlit("_qnt");
    format_text_has_no_marker(a.format);
    format_text_has_no_marker(b.format);
    // The first `n` stands two places behind the format's description.
    assert(text[head_a.len() as int + 2] == 'n');
    assert(text[head_b.len() as int + 2] == 'n');
    assert(head_a.len() == head_b.len()) by {
        assert(forall|i: int| 0 <= i < head_a.len() + 2 ==> text[i] != 'n') by {
            assert(forall|i: int| 0 <= i < head_a.len() ==> text[i] == head_a[i]);
        }
        assert(forall|i: int| 0 <= i < head_b.len() + 2 ==> text[i] != 'n') by {
            assert(forall|i: int| 0 <= i < head_b.len() ==> text[i] == head_b[i]);
        }
    }
    let start = head_a.len() as int;
    assert(text.take(start) =~= head_a);
    assert(text.take(start) =~= head_b);
    format_texts_are_distinct(a.format, b.format);
    assert(text.skip(start + 4) =~= crate::text::decimal(a.quantization_version as nat));
    assert(text.skip(start + 4) =~= crate::text::decimal(b.quantization_version as nat));
    crate::text::decimal_is_injective(
        a.quantization_version as nat,
        b.quantization_version as nat,
    );
}

/// The code of a file type is its version in thousands and the number of its format, as a
/// 32-bit number: it goes negative from version 2147484 on, and is taken modulo two to the 32nd
/// power where 32 bits do not hold it.
pub proof fn codes_of_file_types(file_type: FileType, code: i32)
    requires
        call_ensures(<i32 as From<FileType>>::from, (file_type,), code),
    ensures
        ({
            let thousands = file_type.quantization_version * 1000;
            let full: int = match file_type.format {
                FileTypeFormat::F32 => thousands,
                FileTypeFormat::MostlyF16 => thousands + 1,
                FileTypeFormat::MostlyQ4_0 => thousands + 2,
                FileTypeFormat::MostlyQ4_1 => thousands + 3,
                FileTypeFormat::MostlyQ4_1SomeF16 => thousands + 4,
                FileTypeFormat::MostlyQ4_2 => thousands + 5,
                FileTypeFormat::MostlyQ8_0 => thousands + 7,
                FileTypeFormat::MostlyQ5_0 => thousands + 8,
                FileTypeFormat::MostlyQ5_1 => thousands + 9,
            };
            &&& (code - full) % 0x1_0000_0000 == 0
            &&& file_type.quantization_version <= 2147483 ==> code == full
            &&& 2147483 < file_type.quantization_version <= 4294967 ==> code == full
                - 0x1_0000_0000
        }),
{
}

/// A code stands for the version in its thousands and the format in its last three digits, both
/// read without sign; it stands for nothing where no format has that number.
pub proof fn file_types_of_codes(value: i32, file_type: Result<FileType, ()>)
    requires
        call_ensures(<FileType as TryFrom<i32>>::try_from, (value,), file_type),
    ensures
        ({
            let code: int = if value < 0 {
                value + 0x1_0000_0000
            } else {
                value as int
            };
            match file_type {
                Ok(found) => {
                    &&& found.quantization_version == code / 1000
                    &&& found.format is F32 <==> code % 1000 == 0
                    &&& found.format is MostlyF16 <==> code % 1000 == 1
                    &&& found.format is MostlyQ4_0 <==> code % 1000 == 2
                    &&& found.format is MostlyQ4_1 <==> code % 1000 == 3
                    &&& found.format is MostlyQ4_1SomeF16 <==> code % 1000 == 4
                    &&& found.format is MostlyQ4_2 <==> code % 1000 == 5
                    &&& found.format is MostlyQ8_0 <==> code % 1000 == 7
                    &&& found.format is MostlyQ5_0 <==> code % 1000 == 8
                    &&& found.format is MostlyQ5_1 <==> code % 1000 == 9
                },
                Err(_) => code % 1000 == 6 || code % 1000 > 9,
            }
        }),
{
    formats_of_codes();
}

/// A file type is described by its format, `_qnt` and its version in decimal.
pub proof fn descriptions_of_file_types(file_type: FileType, text: String)
    requires
        call_ensures(FileType::to_string, (&file_type,), text),
    ensures
        ({
            let ending = "_qnt"@ + crate::text::decimal(file_type.quantization_version as nat);
            match file_type.format {
                FileTypeFormat::F32 => text@ == "f32"@ + ending,
                FileTypeFormat::MostlyF16 => text@ == "f16"@ + ending,
                FileTypeFormat::MostlyQ4_0 => text@ == "q4_0"@ + ending,
                FileTypeFormat::MostlyQ4_1 => text@ == "q4_1"@ + ending,
                FileTypeFormat::MostlyQ4_1SomeF16 => text@ == "q4_1_with_f16"@ + ending,
                FileTypeFormat::MostlyQ4_2 => text@ == "q4_2"@ + ending,
                FileTypeFormat::MostlyQ8_0 => text@ == "q8_0"@ + ending,
                FileTypeFormat::MostlyQ5_0 => text@ == "q5_0"@ + ending,
                FileTypeFormat::MostlyQ5_1 => text@ == "q5_1"@ + ending,
            }
        }),
{
    let ending = "_qnt"@ + crate::text::decimal(file_type.quantization_version as nat);
    assert(text@ =~= format_text(file_type.format) + ending);
}

/// An element type gives the format whose tensors are mostly of that type; `I32` and `Q8_1` are
/// the types that no format is made of.
pub proof fn formats_of_element_types(
    element_type: ElementType,
    format: Result<FileTypeFormat, ()>,
)
    requires
        call_ensures(<FileTypeFormat as TryFrom<ElementType>>::try_from, (element_type,), format),
    ensures
        format is Err <==> element_type is I32 || element_type is Q8_1,
        format matches Ok(found) ==> {
            &&& found is F32 <==> element_type is F32
            &&& found is MostlyF16 <==> element_type is F16
            &&& found is MostlyQ4_0 <==> element_type is Q4_0
            &&& found is MostlyQ4_1 <==> element_type is Q4_1
            &&& found is MostlyQ4_2 <==> element_type is LegacyQ4_2
            &&& found is MostlyQ8_0 <==> element_type is Q8_0
            &&& found is MostlyQ5_0 <==> element_type is Q5_0
            &&& found is MostlyQ5_1 <==> element_type is Q5_1
        },
{
}

/// Without further word, tensors are mostly `f16`, of quantization version 0.
pub proof fn default_file_types(file_type: FileType, format: FileTypeFormat)
    requires
        call_ensures(<FileType as Default>::default, (), file_type),
        call_ensures(<FileTypeFormat as Default>::default, (), format),
    ensures
        format is MostlyF16,
        file_type.format is MostlyF16,
        file_type.quantization_version == 0,
{
}

} // verus!
