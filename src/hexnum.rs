//! A scalar that keeps its textual form, used for colour codes.

use vstd::prelude::*;

use crate::decimal::{decimal, signed_decimal, signed_text, unsigned_text};
use crate::scalar::JsonScalar;

verus! {

/// A value that the service sends as either a string or an integer, kept as
/// text: strings verbatim, integers in decimal, `null` as `"0"`.
#[derive(Clone, Debug)]
pub struct HexNum(pub String);

/// The text that a scalar is read as, or `None` for a floating-point number,
/// which carries no hexadecimal code.
pub open spec fn hex_text(v: JsonScalar) -> Option<Seq<char>> {
    match v {
        JsonScalar::Null => Some(seq!['0']),
        JsonScalar::Unsigned(u) => Some(decimal(u as nat)),
        JsonScalar::Signed(i) => Some(signed_decimal(i as int)),
        JsonScalar::Float => None,
        JsonScalar::Text(s) => Some(s@),
    }
}

impl HexNum {
    /// Reads a JSON scalar as text. A floating-point number is refused.
    pub fn from_scalar(v: &JsonScalar) -> (r: Option<HexNum>)
        ensures
            r is Some <==> hex_text(*v) is Some,
            r matches Some(h) ==> h.0@ == hex_text(*v)->0,
    {
        match v {
            JsonScalar::Null => Some(HexNum::default()),
            JsonScalar::Unsigned(u) => Some(HexNum(unsigned_text(*u))),
            JsonScalar::Signed(i) => Some(HexNum(signed_text(*i))),
            JsonScalar::Float => None,
            JsonScalar::Text(s) => Some(HexNum(s.clone())),
        }
    }

    /// The kept text.
    pub fn text(&self) -> (r: String)
        ensures
            r@ == self.0@,
    {
        self.0.clone()
    }
}

impl Default for HexNum {
    /// The text `"0"`, which a missing value stands for.
    fn default() -> (r: HexNum)
        ensures
            r.0@ == seq!['0'],
    {
        proof {
            reveal_strlit("0");
        }
        HexNum(String::from_str("0"))
    }
}

} // verus!
