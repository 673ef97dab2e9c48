use vstd::prelude::*;
use vstd::string::StringSliceAdditionalSpecFns;
use vstd::utf8::{decode_utf8, valid_utf8};
use crate::error::{Error, ErrorKind};

verus! {

/// True when one of the bytes is the null byte.
pub open spec fn has_null(bytes: Seq<u8>) -> bool {
    exists|i: int| 0 <= i < bytes.len() && bytes[i] == 0u8
}

/// An owned text in the form that C takes: its bytes, none of them null,
/// followed by one null byte.
#[derive(Debug)]
pub struct CString {
    bytes: Vec<u8>,
}

impl View for CString {
    type V = Seq<u8>;

    /// The bytes of the text, without the null byte that ends it.
    closed spec fn view(&self) -> Seq<u8> {
        self.bytes@.drop_last()
    }
}

impl CString {
    /// True when the bytes end in the only null byte among them.
    #[verifier::type_invariant]
    closed spec fn wf(self) -> bool {
        &&& self.bytes@.len() > 0
        &&& self.bytes@.last() == 0u8
        &&& !has_null(self.bytes@.drop_last())
    }

    /// Copies a text into the form that C takes. A text that holds a null
    /// byte has no such form and gives `NullByte`.
    pub fn new(text: &str) -> (result: Result<CString, Error>)
        ensures
            result is Ok <==> !has_null(text.spec_bytes()),
            result is Ok ==> result->Ok_0@ == text.spec_bytes(),
            result is Err ==> result->Err_0.spec_kind() == ErrorKind::NullByte,
            result is Err ==> result->Err_0.spec_text() is None,
    {
        let source = text.as_bytes();
        let mut bytes: Vec<u8> = Vec::new();
        let mut i: usize = 0;
        while i < source.len()
            invariant
                source@ == text.spec_bytes(),
                0 <= i <= source@.len(),
                bytes@ == source@.take(i as int),
                !has_null(bytes@),
            decreases source@.len() - i,
        {
            let byte: u8 = source[i];
            if byte == 0 {
                return Err(Error::NullByte(None));
            }
            bytes.push(byte);
            i += 1;
        }
        bytes.push(0u8);
        proof {
            assert(bytes@.drop_last() =~= source@);
        }
        Ok(CString { bytes })
    }

    /// The bytes of the text and the null byte that ends them.
    pub fn as_bytes_with_nul(&self) -> (bytes: &[u8])
        ensures
            bytes@ == self@.push(0u8),
            !has_null(self@),
    {
        proof {
            use_type_invariant(self);
        }
        self.bytes.as_slice()
    }
}

/// Turns bytes into a `String` as `String::from_utf8` of the standard
/// library does: the characters that the bytes encode where they are valid
/// UTF-8, and nothing where they are not.
#[verifier::external_body]
fn decode_bytes(bytes: Vec<u8>) -> (text: Option<String>)
    ensures
        text is Some <==> valid_utf8(bytes@),
        text is Some ==> text->0@ == decode_utf8(bytes@),
{
    match String::from_utf8(bytes) {
        Ok(text) => Some(text),
        Err(_) => None,
    }
}

/// Reads a text that came from C as bytes. Bytes that are not valid UTF-8
/// give `Utf8`.
pub fn string_from_bytes(bytes: Vec<u8>) -> (result: Result<String, Error>)
    ensures
        result is Ok <==> valid_utf8(bytes@),
        result is Ok ==> result->Ok_0@ == decode_utf8(bytes@),
        result is Err ==> result->Err_0.spec_kind() == ErrorKind::Utf8,
        result is Err ==> result->Err_0.spec_text() is None,
{
    match decode_bytes(bytes) {
        Some(text) => Ok(text),
        None => Err(Error::Utf8(None)),
    }
}

} // verus!
