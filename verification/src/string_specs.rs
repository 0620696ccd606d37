//! What is taken on trust of the standard library's strings.

use std::string::FromUtf8Error;

use vstd::prelude::*;
use vstd::utf8::*;

verus! {

/// The error of `String::from_utf8`. Nothing inside it is read.
#[verifier::external_type_specification]
#[verifier::external_body]
pub struct ExFromUtf8Error(FromUtf8Error);

/// `String::from_utf8` accepts exactly the byte vectors that are valid UTF-8,
/// and the string it gives then holds the characters that those bytes encode.
pub assume_specification[ String::from_utf8 ](vec: Vec<u8>) -> (decoded: Result<
    String,
    FromUtf8Error,
>)
    ensures
        decoded is Ok <==> valid_utf8(vec@),
        decoded matches Ok(text) ==> text@ == decode_utf8(vec@),
;

} // verus!
