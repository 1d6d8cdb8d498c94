//! Format an integer into a decimal path component, without constructing a
//! temporary heap string each time it is used.
//!
//! This is used for opening paths such as `/proc/self/fd/<fd>`.

use vstd::prelude::*;

verus! {

/// The decimal digits of `n`, most significant first, as ASCII bytes.
pub open spec fn dec_digits(n: nat) -> Seq<u8>
    decreases n,
{
    if n < 10 {
        seq![(48 + n) as u8]
    } else {
        dec_digits(n / 10).push((48 + n % 10) as u8)
    }
}

/// Relies on `itoa::Buffer::format`: it writes exactly the decimal digit
/// string of the integer.
#[verifier::external_body]
fn format_u64(i: u64) -> (r: Vec<u8>)
    ensures
        r@ == dec_digits(i as nat),
{
    let mut buffer = itoa::Buffer::new();
    let s = buffer.format(i);
    s.as_bytes().to_vec()
}

/// An integer formatted as a decimal path component.
#[derive(Clone, Debug)]
pub struct DecInt {
    buf: Vec<u8>,
}

impl DecInt {
    /// The formatted bytes.
    pub closed spec fn spec_bytes(&self) -> Seq<u8> {
        self.buf@
    }

    /// Construct a new path component from an integer.
    pub fn new(i: u64) -> (r: DecInt)
        ensures
            r.spec_bytes() == dec_digits(i as nat),
    {
        DecInt { buf: format_u64(i) }
    }

    /// Return the raw byte buffer.
    pub fn as_bytes(&self) -> (r: &[u8])
        ensures
            r@ == self.spec_bytes(),
    {
        self.buf.as_slice()
    }
}

} // verus!
