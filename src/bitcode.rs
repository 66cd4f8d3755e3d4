//! Tables of the LLVM bitcode format that writers of IR build on.
pub mod blocks;
pub mod constants;
