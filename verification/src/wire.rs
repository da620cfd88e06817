//! The byte-level constants of the wire protocol: line endings, the
//! header-block terminator, token separators, and the accepted protocol
//! version tokens.
use vstd::prelude::*;

verus! {

/// Maximum size, in bytes, of the header block of one request: the bytes
/// before the blank-line terminator. Larger blocks are rejected outright,
/// which bounds the memory spent on any one connection.
pub const MAX_HEADER_SIZE: usize = 4096;

/// The two-byte line ending used throughout the wire protocol.
pub open spec fn crlf() -> Seq<u8> {
    seq![13u8, 10u8]
}

/// The four-byte header terminator: a blank line after the last header.
pub open spec fn terminator() -> Seq<u8> {
    crlf() + crlf()
}

/// The single space separating the request-line tokens.
pub open spec fn sp() -> Seq<u8> {
    seq![32u8]
}

/// The separator between a header name and its value.
pub open spec fn colon_sp() -> Seq<u8> {
    seq![58u8, 32u8]
}

/// The version token of the older accepted protocol revision, and the one
/// every response is written with.
pub open spec fn http10() -> Seq<u8> {
    seq![72u8, 84u8, 84u8, 80u8, 47u8, 49u8, 46u8, 48u8]
}

/// The version token of the newer accepted protocol revision.
pub open spec fn http11() -> Seq<u8> {
    seq![72u8, 84u8, 84u8, 80u8, 47u8, 49u8, 46u8, 49u8]
}

/// Build the line ending as a vector.
pub fn crlf_vec() -> (v: Vec<u8>)
    ensures
        v@ == crlf(),
{
    let mut v: Vec<u8> = Vec::new();
    v.push(13u8);
    v.push(10u8);
    proof {
        assert(v@ =~= crlf());
    }
    v
}

/// Build the header terminator as a vector.
pub fn terminator_vec() -> (v: Vec<u8>)
    ensures
        v@ == terminator(),
{
    let mut v: Vec<u8> = Vec::new();
    v.push(13u8);
    v.push(10u8);
    v.push(13u8);
    v.push(10u8);
    proof {
        assert(v@ =~= terminator());
    }
    v
}

/// Build the request-line separator as a vector.
pub fn sp_vec() -> (v: Vec<u8>)
    ensures
        v@ == sp(),
{
    let mut v: Vec<u8> = Vec::new();
    v.push(32u8);
    proof {
        assert(v@ =~= sp());
    }
    v
}

/// Build the header name/value separator as a vector.
pub fn colon_sp_vec() -> (v: Vec<u8>)
    ensures
        v@ == colon_sp(),
{
    let mut v: Vec<u8> = Vec::new();
    v.push(58u8);
    v.push(32u8);
    proof {
        assert(v@ =~= colon_sp());
    }
    v
}

/// Build the response version token as a vector.
pub fn http10_vec() -> (v: Vec<u8>)
    ensures
        v@ == http10(),
{
    let mut v: Vec<u8> = Vec::new();
    v.push(72u8);
    v.push(84u8);
    v.push(84u8);
    v.push(80u8);
    v.push(47u8);
    v.push(49u8);
    v.push(46u8);
    v.push(48u8);
    proof {
        assert(v@ =~= http10());
    }
    v
}

/// Build the newer version token as a vector.
pub fn http11_vec() -> (v: Vec<u8>)
    ensures
        v@ == http11(),
{
    let mut v: Vec<u8> = Vec::new();
    v.push(72u8);
    v.push(84u8);
    v.push(84u8);
    v.push(80u8);
    v.push(47u8);
    v.push(49u8);
    v.push(46u8);
    v.push(49u8);
    proof {
        assert(v@ =~= http11());
    }
    v
}

} // verus!
