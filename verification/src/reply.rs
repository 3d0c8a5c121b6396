use vstd::prelude::*;
use vstd::string::StringExecFns;
use vstd::utf8::{decode_utf8, valid_utf8};

use crate::errors::CliError;

verus! {

/// Relies on `String::from_utf8`: it returns `Ok` exactly when the bytes are
/// a valid UTF-8 encoding, and then the string is their decoding.  vstd's
/// `valid_utf8` and `decode_utf8` are its model of that encoding.
#[verifier::external_body]
fn bytes_to_utf8(bytes: &Vec<u8>) -> (r: Option<String>)
    ensures
        r is Some <==> valid_utf8(bytes@),
        r matches Some(s) ==> s@ == decode_utf8(bytes@),
{
    match String::from_utf8(bytes.clone()) {
        Ok(s) => Some(s),
        Err(_) => None,
    }
}

/// Whether a reply envelope decodes at all: an empty envelope always does,
/// and a non-empty one decodes exactly when its first frame is valid UTF-8.
pub open spec fn reply_decodes(frames: Seq<Seq<u8>>) -> bool {
    frames.len() == 0 || valid_utf8(frames[0])
}

/// The text a decodable reply envelope carries: the empty string for an
/// empty envelope, else the UTF-8 decoding of the first frame.  Frames past
/// the first are never read.
pub open spec fn reply_text(frames: Seq<Seq<u8>>) -> Seq<char> {
    if frames.len() == 0 {
        Seq::<char>::empty()
    } else {
        decode_utf8(frames[0])
    }
}

/// Extracts the displayable text from a reply envelope.  An envelope with no
/// frames decodes to the empty string, never an error; otherwise the first
/// frame is interpreted as UTF-8, and a `Decoding` error is returned exactly
/// when its bytes are not valid UTF-8.
pub fn decode_reply(frames: &Vec<Vec<u8>>) -> (r: Result<String, CliError>)
    ensures
        r is Ok <==> reply_decodes(frames.deep_view()),
        r matches Ok(s) ==> s@ == reply_text(frames.deep_view()),
        r matches Err(e) ==> (e matches CliError::Decoding(d) && d@
            == "reply frame is not valid UTF-8"@),
{
    proof {
        assert(frames.deep_view().len() == frames@.len());
        if frames@.len() > 0 {
            assert(frames.deep_view()[0] == frames@[0]@);
        }
    }
    if frames.len() == 0 {
        Ok(String::new())
    } else {
        match bytes_to_utf8(&frames[0]) {
            Option::Some(s) => Ok(s),
            Option::None => Err(
                CliError::Decoding(String::from_str("reply frame is not valid UTF-8")),
            ),
        }
    }
}

} // verus!
