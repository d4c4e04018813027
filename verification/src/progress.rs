//! The progress of loading a model, and how it is told to a user.

use crate::paths::{file_name, path_text};
use crate::text::append_decimal;
use std::path::PathBuf;
use vstd::prelude::*;

verus! {

/// Each variant represents a step within the process of loading the model.
/// These can be used to report progress to the user.
#[derive(Clone, PartialEq, Eq, Debug)]
pub enum LoadProgress {
    /// The hyperparameters have been loaded from the model.
    HyperparametersLoaded,
    /// The context has been created.
    ContextSize {
        /// The size of the context.
        bytes: usize,
    },
    /// A tensor was patched with a LoRA.
    LoraApplied {
        /// The name of the patched tensor.
        name: String,
        /// LoRA file the patch was applied from.
        source: PathBuf,
    },
    /// A tensor from the current part has been loaded.
    TensorLoaded {
        /// The current tensor (0-indexed).
        current_tensor: usize,
        /// The number of total tensors.
        tensor_count: usize,
    },
    /// A model part has finished fully loading.
    Loaded {
        /// The number of bytes in the part.
        file_size: u64,
        /// The number of tensors in the part.
        tensor_count: usize,
    },
}

/// A line that tells a user of progress: `head`, then the size in megabytes of
/// `size_in_bytes` where there is one, then `tail`.
#[derive(Clone, PartialEq, Eq, Debug)]
pub struct ProgressLine {
    /// The text before the size.
    pub head: String,
    /// The size that is shown, in bytes.
    pub size_in_bytes: Option<u64>,
    /// The text behind the size.
    pub tail: String,
}

/// What a line shows.
pub struct LineContent {
    pub head: Seq<char>,
    pub size_in_bytes: Option<u64>,
    pub tail: Seq<char>,
}

impl View for ProgressLine {
    type V = LineContent;

    open spec fn view(&self) -> LineContent {
        LineContent {
            head: self.head@,
            size_in_bytes: self.size_in_bytes,
            tail: self.tail@,
        }
    }
}

/// A line of text without a size.
pub open spec fn text_line(text: Seq<char>) -> LineContent {
    LineContent { head: text, size_in_bytes: None, tail: Seq::empty() }
}

/// The lines that tell of `progress`. A patch is told with `source_name`, the name of the
/// file that it came from; of the tensors that are loaded only every eighth is told.
pub open spec fn told(progress: LoadProgress, source_name: Seq<char>) -> Seq<LineContent> {
    match progress {
        LoadProgress::HyperparametersLoaded => seq![text_line("Loaded hyperparameters"@)],
        LoadProgress::ContextSize { bytes } => seq![
            LineContent {
                head: "ggml ctx size = "@,
                size_in_bytes: Some(bytes as u64),
                tail: " MB\n"@,
            },
        ],
        LoadProgress::LoraApplied { name, source } => seq![
            text_line(
                "Patched tensor "@ + name@ + " via LoRA from '"@ + source_name + "'"@,
            ),
        ],
        LoadProgress::TensorLoaded { current_tensor, tensor_count } => if (current_tensor + 1) % 8
            == 0 {
            seq![
                text_line(
                    "Loaded tensor "@ + crate::text::decimal((current_tensor + 1) as nat) + "/"@
                        + crate::text::decimal(tensor_count as nat),
                ),
            ]
        } else {
            Seq::empty()
        },
        LoadProgress::Loaded { file_size, tensor_count } => seq![
            text_line("Loading of model complete"@),
            LineContent {
                head: "Model size = "@,
                size_in_bytes: Some(file_size),
                tail: " MB / num tensors = "@ + crate::text::decimal(tensor_count as nat),
            },
        ],
    }
}

/// What several lines show.
pub open spec fn contents(lines: Seq<ProgressLine>) -> Seq<LineContent> {
    lines.map_values(|line: ProgressLine| line@)
}

/// A line of `text` without a size.
fn plain_line(text: String) -> (line: ProgressLine)
    ensures
        line@ == text_line(text@),
{
    ProgressLine { head: text, size_in_bytes: None, tail: String::new() }
}

/// The lines that tell of `progress`, where `source_name` is the name of the file that a
/// patch came from.
pub fn progress_lines(progress: &LoadProgress, source_name: &str) -> (lines: Vec<ProgressLine>)
    requires
        progress matches LoadProgress::TensorLoaded { current_tensor, .. } ==> current_tensor
            < usize::MAX,
    ensures
        contents(lines@) == told(*progress, source_name@),
{
    let mut lines: Vec<ProgressLine> = Vec::new();
    match progress {
        LoadProgress::HyperparametersLoaded => {
            lines.push(plain_line("Loaded hyperparameters".to_owned()));
        },
        LoadProgress::ContextSize { bytes } => {
            lines.push(
                ProgressLine {
                    head: "ggml ctx size = ".to_owned(),
                    size_in_bytes: Some(*bytes as u64),
                    tail: " MB\n".to_owned(),
                },
            );
        },
        LoadProgress::LoraApplied { name, .. } => {
            let mut text: String = "Patched tensor ".to_owned();
            text.append(name.as_str());
            text.append(" via LoRA from '");
            text.append(source_name);
            text.append("'");
            lines.push(plain_line(text));
        },
        LoadProgress::TensorLoaded { current_tensor, tensor_count } => {
            let current: usize = *current_tensor + 1;
            if current % 8 == 0 {
                let mut text: String = "Loaded tensor ".to_owned();
                append_decimal(&mut text, current as u64);
                text.append("/");
                append_decimal(&mut text, *tensor_count as u64);
                lines.push(plain_line(text));
            }
        },
        LoadProgress::Loaded { file_size, tensor_count } => {
            lines.push(plain_line("Loading of model complete".to_owned()));
            let mut tail: String = " MB / num tensors = ".to_owned();
            append_decimal(&mut tail, *tensor_count as u64);
            lines.push(
                ProgressLine {
                    head: "Model size = ".to_owned(),
                    size_in_bytes: Some(*file_size),
                    tail,
                },
            );
        },
    }
    assert(contents(lines@) =~= told(*progress, source_name@));
    lines
}

/// The lines that tell of `progress`, where `source_name` is the name of the file that a
/// patch came from, if it has one; there are none for a patch from a file without a name.
pub fn lines_with_source(progress: &LoadProgress, source_name: Option<&str>) -> (lines: Option<
    Vec<ProgressLine>,
>)
    requires
        progress matches LoadProgress::TensorLoaded { current_tensor, .. } ==> current_tensor
            < usize::MAX,
    ensures
        lines is None <==> progress is LoraApplied && source_name is None,
        lines matches Some(text) ==> contents(text@) == told(
            *progress,
            match source_name {
                Some(name) => name@,
                None => Seq::empty(),
            },
        ),
{
    match (progress, source_name) {
        (_, Some(name)) => Some(progress_lines(progress, name)),
        (LoadProgress::LoraApplied { .. }, None) => None,
        (_, None) => {
            proof {
                reveal_strlit("");
                assert(""@ =~= Seq::<char>::empty());
            }
            Some(progress_lines(progress, ""))
        },
    }
}

/// These lines tell of `progress`, a patch from the file named `found`: there are none if the
/// file has no name, or none in Unicode, and else they show that name.
pub open spec fn tells_of_patch(
    progress: LoadProgress,
    found: Option<PathBuf>,
    lines: Option<Vec<ProgressLine>>,
) -> bool {
    match found {
        Some(name) if vstd::utf8::valid_utf8(crate::paths::path_bytes(name)) => {
            &&& lines matches Some(text)
            &&& contents(text@) == told(
                progress,
                vstd::utf8::decode_utf8(crate::paths::path_bytes(name)),
            )
        },
        _ => lines is None,
    }
}

/// The lines that tell of `progress`; nothing if it is a patch from a file whose path has no
/// name, or none in Unicode. A patch is told with the name that [`std::path::Path::file_name`]
/// gives for the path of its file; a path that is a lone name is told as it is.
pub fn describe_progress(progress: &LoadProgress) -> (lines: Option<Vec<ProgressLine>>)
    requires
        progress matches LoadProgress::TensorLoaded { current_tensor, .. } ==> current_tensor
            < usize::MAX,
    ensures
        !(progress is LoraApplied) ==> (lines matches Some(text) && contents(text@) == told(
            *progress,
            Seq::empty(),
        )),
        *progress matches LoadProgress::LoraApplied { source, .. } ==> exists|
            found: Option<PathBuf>,
        | #[trigger]
            crate::paths::gives_file_name(source, found) && tells_of_patch(*progress, found, lines),
        *progress matches LoadProgress::LoraApplied { source, .. } ==> {
            let bytes = crate::paths::path_bytes(source);
            &&& crate::paths::lone_name(bytes) ==> (lines matches Some(text) && contents(text@)
                == told(*progress, vstd::utf8::decode_utf8(bytes)))
            &&& crate::paths::nameless(bytes) ==> lines is None
        },
{
    match progress {
        LoadProgress::LoraApplied { source, .. } => {
            let found: Option<PathBuf> = file_name(source);
            proof {
                crate::paths::file_name_was_given(*source, found);
                if crate::paths::lone_name(crate::paths::path_bytes(*source)) {
                    crate::paths::lone_names_are_unicode(crate::paths::path_bytes(*source));
                }
            }
            match &found {
                Some(name) => match path_text(name) {
                    Some(text) => {
                        proof {
                            vstd::utf8::encode_utf8_decode_utf8(text@);
                        }
                        lines_with_source(progress, Some(text.as_str()))
                    },
                    None => lines_with_source(progress, None),
                },
                None => lines_with_source(progress, None),
            }
        },
        _ => lines_with_source(progress, None),
    }
}

/// The text and the size that a user is shown of each kind of progress.
pub proof fn what_is_shown(progress: LoadProgress, source_name: &str, lines: Vec<ProgressLine>)
    requires
        call_ensures(progress_lines, (&progress, source_name), lines),
    ensures
        match progress {
            LoadProgress::HyperparametersLoaded => {
                &&& lines@.len() == 1
                &&& lines@[0].head@ == "Loaded hyperparameters"@
                &&& lines@[0].size_in_bytes is None
                &&& lines@[0].tail@.len() == 0
            },
            LoadProgress::ContextSize { bytes } => {
                &&& lines@.len() == 1
                &&& lines@[0].head@ == "ggml ctx size = "@
                &&& lines@[0].size_in_bytes matches Some(size) && size == bytes
                &&& lines@[0].tail@ == " MB\n"@
            },
            LoadProgress::LoraApplied { name, .. } => {
                &&& lines@.len() == 1
                &&& lines@[0].head@ == "Patched tensor "@ + name@ + " via LoRA from '"@
                    + source_name@ + "'"@
                &&& lines@[0].size_in_bytes is None
                &&& lines@[0].tail@.len() == 0
            },
            LoadProgress::TensorLoaded { current_tensor, tensor_count } => {
                &&& lines@.len() == (if current_tensor % 8 == 7 {
                    1int
                } else {
                    0
                })
                &&& current_tensor % 8 == 7 ==> {
                    &&& lines@[0].head@ == "Loaded tensor "@ + crate::text::decimal(
                        current_tensor as nat + 1,
                    ) + "/"@ + crate::text::decimal(tensor_count as nat)
                    &&& lines@[0].size_in_bytes is None
                    &&& lines@[0].tail@.len() == 0
                }
            },
            LoadProgress::Loaded { file_size, tensor_count } => {
                &&& lines@.len() == 2
                &&& lines@[0].head@ == "Loading of model complete"@
                &&& lines@[0].size_in_bytes is None
                &&& lines@[0].tail@.len() == 0
                &&& lines@[1].head@ == "Model size = "@
                &&& lines@[1].size_in_bytes == Some(file_size)
                &&& lines@[1].tail@ == " MB / num tensors = "@ + crate::text::decimal(
                    tensor_count as nat,
                )
            },
        },
{
    assert(contents(lines@).len() == lines@.len());
    if lines@.len() > 0 {
        assert(contents(lines@)[0] == lines@[0]@);
    }
    if lines@.len() > 1 {
        assert(contents(lines@)[1] == lines@[1]@);
    }
}

/// Two lists of lines show the same.
pub open spec fn show_the_same(a: Seq<ProgressLine>, b: Seq<ProgressLine>) -> bool {
    &&& a.len() == b.len()
    &&& forall|i: int|
        #![trigger a[i]]
        #![trigger b[i]]
        0 <= i < a.len() ==> a[i].head@ == b[i].head@ && a[i].size_in_bytes == b[i].size_in_bytes
            && a[i].tail@ == b[i].tail@
}

/// Lines with equal contents show the same.
proof fn same_contents_show_the_same(a: Seq<ProgressLine>, b: Seq<ProgressLine>)
    requires
        contents(a) == contents(b),
    ensures
        show_the_same(a, b),
{
    assert(contents(a).len() == a.len() && contents(b).len() == b.len());
    assert forall|i: int|
        #![trigger a[i]]
        #![trigger b[i]]
        0 <= i < a.len() implies a[i].head@ == b[i].head@ && a[i].size_in_bytes
        == b[i].size_in_bytes && a[i].tail@ == b[i].tail@ by {
        assert(contents(a)[i] == a[i]@);
        assert(contents(b)[i] == b[i]@);
    }
}

/// Only a patch needs the name of a file: without one there are no lines for it, while all
/// other progress is shown as it is with any name.
pub proof fn only_patches_need_a_name(
    progress: LoadProgress,
    source_name: &str,
    plain: Vec<ProgressLine>,
    named: Option<Vec<ProgressLine>>,
    unnamed: Option<Vec<ProgressLine>>,
    described: Option<Vec<ProgressLine>>,
)
    requires
        call_ensures(progress_lines, (&progress, source_name), plain),
        call_ensures(lines_with_source, (&progress, Some(source_name)), named),
        call_ensures(lines_with_source, (&progress, None), unnamed),
        call_ensures(describe_progress, (&progress,), described),
    ensures
        named matches Some(lines) && show_the_same(lines@, plain@),
        progress is LoraApplied ==> unnamed is None,
        !(progress is LoraApplied) ==> (unnamed matches Some(lines) && show_the_same(
            lines@,
            plain@,
        )),
        !(progress is LoraApplied) ==> (described matches Some(lines) && show_the_same(
            lines@,
            plain@,
        )),
{
    same_contents_show_the_same(named->0@, plain@);
    if !(progress is LoraApplied) {
        same_contents_show_the_same(unnamed->0@, plain@);
        same_contents_show_the_same(described->0@, plain@);
    }
}

/// A patch is described in one line with the tensor and the file name of its source; a source
/// without a file name, or with one that is not Unicode, gives no line.
pub proof fn patches_are_described_by_file_name(
    name: String,
    source: PathBuf,
    lines: Option<Vec<ProgressLine>>,
)
    requires
        call_ensures(describe_progress, (&LoadProgress::LoraApplied { name, source },), lines),
    ensures
        exists|found: Option<PathBuf>|
            {
                &&& #[trigger] crate::paths::gives_file_name(source, found)
                &&& lines is Some <==> (found matches Some(file) && vstd::utf8::valid_utf8(
                    crate::paths::path_bytes(file),
                ))
                &&& lines matches Some(text) ==> {
                    &&& text@.len() == 1
                    &&& text@[0].head@ == "Patched tensor "@ + name@ + " via LoRA from '"@
                        + vstd::utf8::decode_utf8(crate::paths::path_bytes(found->0)) + "'"@
                    &&& text@[0].size_in_bytes is None
                    &&& text@[0].tail@.len() == 0
                }
            },
{
    let progress = LoadProgress::LoraApplied { name, source };
    let found = choose|found: Option<PathBuf>| #[trigger]
        crate::paths::gives_file_name(source, found) && tells_of_patch(progress, found, lines);
    assert(crate::paths::gives_file_name(source, found));
    if let Some(text) = lines {
        assert(contents(text@).len() == text@.len());
        assert(contents(text@)[0] == text@[0]@);
    }
}

} // verus!
