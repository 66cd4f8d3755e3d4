//! A writer for the LLVM bitstream container: bit packing, variable bit rate
//! integers, nested blocks with patched lengths, and abbreviations.
pub mod bitcode;
pub mod bits;
pub mod bitstream;
pub mod bitstream_writer;
mod buf;
