# llm_loader

The verified core of a loader for GGML language models.

`src/` is a Verus library. It decides and computes everything that loading a model decides and
computes: what a file type code stands for, which quantization version a model has, whether its
file is mapped, how large its context is, which tensors a LoRA file patches, in which order the
work on files, memory and tensors is done, what is reported of it, and which error ends it. Each
function states what it returns; `src/runs.rs` and `src/tensor_runs.rs` prove what holds of whole
loads.

`app/` does the work that the library asks for: it opens, maps and reads files, creates contexts
and tensors, and prints.

`tests/` runs the library on concrete models.
