//! Blocks: what one file contributes to the output.

use crate::error::{Failure, FailureView, Operation};
use crate::normalize::{normalize, normalized};
use vstd::prelude::*;
use vstd::string::StringExecFns;
use vstd::string::StringSliceAdditionalSpecFns;
use vstd::utf8::{decode_utf8, valid_utf8};

verus! {

/// `core::str::Utf8Error`, the error of bytes that are not UTF-8. Nothing is
/// known of what it holds.
#[verifier::external_type_specification]
#[verifier::external_body]
pub struct ExUtf8Error(core::str::Utf8Error);

/// `core::str::from_utf8` succeeds on the byte sequences that are valid UTF-8
/// and on no others, and what it returns is made of the bytes it was given.
pub assume_specification[ core::str::from_utf8 ](bytes: &[u8]) -> (r: Result<
    &str,
    core::str::Utf8Error,
>)
    ensures
        r is Ok <==> valid_utf8(bytes@),
        r matches Ok(text) ==> text.spec_bytes() == bytes@,
;

/// The header line of the block for `path`, without its line feed.
pub open spec fn header(path: Seq<char>) -> Seq<char> {
    "*** "@ + path
}

/// The text of a block: the header line, then the body.
pub open spec fn block_text(path: Seq<char>, body: Seq<char>) -> Seq<char> {
    header(path) + seq!['\n'] + body
}

/// What is written for the file at `path` that holds `bytes`, where these are
/// valid UTF-8: the block of the normalized text, closed by a line feed.
pub open spec fn file_output(path: Seq<char>, bytes: Seq<u8>) -> Seq<char> {
    block_text(path, normalized(decode_utf8(bytes))) + seq!['\n']
}

/// One unit of output: the path of a file and the normalized text of it.
#[derive(Debug, Clone, PartialEq, Eq)]
pub struct Block {
    pub path: String,
    pub body: String,
}

impl Block {
    /// The block for the file at `path` that holds `text`.
    pub fn new(path: &str, text: &str) -> (block: Block)
        ensures
            block.path@ == path@,
            block.body@ == normalized(text@),
    {
        Block { path: path.to_string(), body: normalize(text) }
    }

    /// The block as text: `*** `, the path, a line feed, the body. The body may
    /// be empty; the header line is there all the same.
    pub fn render(&self) -> (text: String)
        ensures
            text@ == block_text(self.path@, self.body@),
    {
        let mut text = "*** ".to_string();
        text.append(self.path.as_str());
        text.push('\n');
        text.append(self.body.as_str());
        text
    }
}

/// Turns the bytes of the file at `path` into the text of its block. The bytes
/// must be UTF-8, strictly: anything else is a decoding failure that names the
/// file.
pub fn process_file(path: &str, bytes: &[u8]) -> (r: Result<String, Failure>)
    ensures
        r is Ok <==> valid_utf8(bytes@),
        r matches Ok(text) ==> text@ == block_text(path@, normalized(decode_utf8(bytes@))),
        r matches Err(failure) ==> failure@ == (FailureView {
            operation: Operation::DecodeFile,
            subject: path@,
        }),
{
    match core::str::from_utf8(bytes) {
        Ok(text) => {
            proof {
                vstd::utf8::encode_utf8_decode_utf8(text@);
            }
            Ok(Block::new(path, text).render())
        },
        Err(_) => Err(Failure::new(Operation::DecodeFile, path)),
    }
}

} // verus!
