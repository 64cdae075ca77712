//! Why a single conversion job failed. Argument trouble is job-local
//! here: a job whose input path has no file-name component is skipped
//! and reported, never allowed to abort the rest of the run.

use vstd::prelude::*;
use crate::digits::dec_rep;
use crate::digits::usize_to_string;

verus! {

#[derive(Debug)]
pub enum ConvertError {
    /// The input path has no file-name component to derive an output
    /// path from.
    Argument { input: String },
    /// The external RAW decoder rejected the input.
    Decode { message: String },
    /// The decoder's reported dimensions do not match the byte count it
    /// returned.
    BufferShape { width: usize, height: usize, actual: usize },
    /// The external TIFF encoder failed to write the output.
    Encode { message: String },
}

/// Description of an argument failure over the input path.
pub open spec fn argument_desc(input: Seq<char>) -> Seq<char> {
    "no file name in input path \""@ + input + "\""@
}

/// Description of a decode failure over the decoder's message.
pub open spec fn decode_desc(message: Seq<char>) -> Seq<char> {
    "decode error: "@ + message
}

/// Description of a buffer-shape failure over the mismatched counts.
pub open spec fn shape_desc(width: nat, height: nat, actual: nat) -> Seq<char> {
    "decoded buffer of "@ + dec_rep(actual) + " bytes does not match "@ + dec_rep(width) + "x"@
        + dec_rep(height) + "x3"@
}

/// Description of an encode failure over the encoder's message.
pub open spec fn encode_desc(message: Seq<char>) -> Seq<char> {
    "encode error: "@ + message
}

/// The one-line human-readable description of an error.
pub open spec fn describe_of(e: ConvertError) -> Seq<char> {
    match e {
        ConvertError::Argument { input } => argument_desc(input@),
        ConvertError::Decode { message } => decode_desc(message@),
        ConvertError::BufferShape { width, height, actual } => shape_desc(
            width as nat,
            height as nat,
            actual as nat,
        ),
        ConvertError::Encode { message } => encode_desc(message@),
    }
}

impl ConvertError {
    /// Renders the error's one-line description, exactly as
    /// `describe_of` states it.
    pub fn describe(&self) -> (r: String)
        ensures
            r@ == describe_of(*self),
    {
        match self {
            ConvertError::Argument { input } => {
                let mut r = String::from_str("no file name in input path \"");
                r.append(input.as_str());
                r.append("\"");
                proof {
                    assert(r@ =~= describe_of(*self));
                }
                r
            },
            ConvertError::Decode { message } => {
                let mut r = String::from_str("decode error: ");
                r.append(message.as_str());
                proof {
                    assert(r@ =~= describe_of(*self));
                }
                r
            },
            ConvertError::BufferShape { width, height, actual } => {
                let mut r = String::from_str("decoded buffer of ");
                let a = usize_to_string(*actual);
                r.append(a.as_str());
                r.append(" bytes does not match ");
                let w = usize_to_string(*width);
                r.append(w.as_str());
                r.append("x");
                let h = usize_to_string(*height);
                r.append(h.as_str());
                r.append("x3");
                proof {
                    assert(r@ =~= describe_of(*self));
                }
                r
            },
            ConvertError::Encode { message } => {
                let mut r = String::from_str("encode error: ");
                r.append(message.as_str());
                proof {
                    assert(r@ =~= describe_of(*self));
                }
                r
            },
        }
    }
}

} // verus!
