//! Reading a file as text.

use crate::text::decode;
use crate::tools::{ToolExecutionError, ToolFault};
use vstd::prelude::*;

verus! {

/// The text of a file whose bytes were read, `None` where the path is missing, is
/// no regular file or could not be read.
pub open spec fn file_text(contents: Option<Seq<u8>>) -> Result<Seq<char>, ToolFault> {
    match contents {
        Some(bytes) => if vstd::utf8::valid_utf8(bytes) {
            Ok(vstd::utf8::decode_utf8(bytes))
        } else {
            Err(ToolFault::ReadContents)
        },
        None => Err(ToolFault::ReadContents),
    }
}

/// The full text of a file, given the bytes that were read from it: `None` where
/// reading failed. Fails where there are no bytes or they are not UTF-8.
pub fn read_file(contents: Option<Vec<u8>>) -> (r: Result<String, ToolExecutionError>)
    ensures
        crate::tools::result_view(r) == file_text(
            match contents {
                Some(bytes) => Some(bytes@),
                None => None,
            },
        ),
{
    match contents {
        Some(bytes) => match decode(bytes) {
            Some(text) => Ok(text),
            None => Err(ToolExecutionError::ReadContents),
        },
        None => Err(ToolExecutionError::ReadContents),
    }
}

} // verus!
