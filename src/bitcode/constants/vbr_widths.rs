//! Widths of the variable bit rate fields of LLVM's records.
use vstd::prelude::*;

verus! {

pub const ALIGNMENT: u32 = 3;
pub const ARRAY_LENGTH: u32 = 8;
pub const ATTR_INDEX: u32 = 6;
pub const BLOCK_COUNT: u32 = 6;
pub const BLOCK_INDEX: u32 = 8;
pub const CCONV: u32 = 5;
pub const INTEGER: u32 = 8;
pub const INT_WIDTH: u32 = 8;
pub const METADATA_INDEX: u32 = 6;
pub const METADATA_KIND_INDEX: u32 = 6;
pub const METADATA_STRING_COUNT: u32 = 6;
pub const METADATA_STRING_OFF: u32 = 6;
pub const STRTAB_LENGTH: u32 = 6;
pub const STRTAB_OFFSET: u32 = 8;
pub const TYPE_INDEX: u32 = 6;
pub const VALUE_INDEX: u32 = 8;

} // verus!
