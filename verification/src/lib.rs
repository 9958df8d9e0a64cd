//! In-memory modelling, validation, parsing and serialization of HTTP/1.1
//! request and response messages.
//!
//! No sockets, no transport: every operation is a pure transformation over
//! strings and byte buffers.  Requests are parsed from a complete text blob;
//! responses are assembled through an ordering-constrained builder and
//! serialized to an exact byte layout.
use vstd::prelude::*;

pub mod header;
pub mod request;
pub mod response;
pub mod text;

pub use request::{Request, RequestMethod};
pub use response::{IntoBytes, Response, ResponseCode};

use crate::text::{dec_digits, push_dec_u64};

verus! {

/// An HTTP protocol version: a major and a minor number, with no upper
/// bound and no canonicalization beyond literal decimal parsing.
#[derive(Debug, PartialEq, Eq, Structural, Clone, Copy)]
pub struct Version(pub u64, pub u64);

impl Version {
    /// The textual `major.minor` form.
    pub fn render(&self) -> (r: String)
        ensures
            r@ == dec_digits(self.0 as nat) + "."@ + dec_digits(self.1 as nat),
    {
        let mut out = String::new();
        push_dec_u64(&mut out, self.0);
        out.append(".");
        push_dec_u64(&mut out, self.1);
        out
    }
}

} // verus!
