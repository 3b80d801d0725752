//! Text on the wire: UTF-8, decoded strictly.

use vstd::prelude::*;
use vstd::utf8::decode_utf8;
use vstd::utf8::partial_valid_utf8;
use vstd::utf8::partial_valid_utf8_extend_ascii_block;
use vstd::utf8::valid_utf8;
use crate::decimal::is_decimal;

verus! {

/// Decodes `bytes` with `String::from_utf8` of the standard library.
///
/// Taken on trust: the call yields a string exactly when `bytes` is
/// well-formed UTF-8, and the string then consists of the characters that
/// `bytes` encodes. Nothing is replaced or dropped.
#[verifier::external_body]
pub(crate) fn string_from_utf8(bytes: Vec<u8>) -> (text: Option<String>)
    ensures
        text is Some <==> valid_utf8(bytes@),
        text matches Some(s) ==> s@ == decode_utf8(bytes@),
{
    String::from_utf8(bytes).ok()
}

/// A run of ASCII digits is well-formed UTF-8.
pub proof fn lemma_decimal_is_utf8(s: Seq<u8>)
    requires
        is_decimal(s),
    ensures
        valid_utf8(s),
{
    assert(s.subrange(0, 0) =~= Seq::<u8>::empty());
    assert(partial_valid_utf8(s, 0));
    partial_valid_utf8_extend_ascii_block(s, 0, s.len() as int);
    assert(s.subrange(0, s.len() as int) =~= s);
}

} // verus!
