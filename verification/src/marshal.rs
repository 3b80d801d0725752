//! The argument marshaller: from the host's reply to a parameter fetch to an
//! account name or a balance, or to the reason why it is neither.

use vstd::prelude::*;
use vstd::utf8::decode_utf8;
use vstd::utf8::decode_utf8_encode_utf8;
use vstd::utf8::valid_utf8;
use crate::decimal::decimal_value;
use crate::decimal::is_decimal;
use crate::decimal::parse_decimal;
use crate::error::Error;
use crate::protocol::Reply;
use crate::protocol::ReplyView;
use crate::protocol::Request;
use crate::protocol::RequestView;
use crate::text::string_from_utf8;

verus! {

/// The text that a reply to a parameter fetch carries.
///
/// A reply without bytes means that the host could not supply the parameter.
/// Bytes that are not well-formed UTF-8 are rejected as a whole.
pub open spec fn read_string_spec(reply: ReplyView) -> Result<Seq<char>, Error> {
    match reply {
        ReplyView::Bytes(bytes) => if valid_utf8(bytes) {
            Ok(decode_utf8(bytes))
        } else {
            Err(Error::DecodeError)
        },
        _ => Err(Error::ParameterFetchError),
    }
}

/// The balance that a reply to a parameter fetch carries.
///
/// The parameter is read as text first; the text must then be a run of
/// decimal digits whose value fits `u64`.
pub open spec fn read_balance_spec(reply: ReplyView) -> Result<u64, Error> {
    match reply {
        ReplyView::Bytes(bytes) => if !valid_utf8(bytes) {
            Err(Error::DecodeError)
        } else if is_decimal(bytes) && decimal_value(bytes) <= u64::MAX {
            Ok(decimal_value(bytes) as u64)
        } else {
            Err(Error::ParseError)
        },
        _ => Err(Error::ParameterFetchError),
    }
}

/// The request that fetches the call argument at `index`.
pub fn parameter(index: usize) -> (request: Request)
    ensures
        request@ == (RequestView::GetParameter { index }),
{
    Request::GetParameter { index }
}

/// Reads an account name from the reply to a parameter fetch.
pub fn read_string(reply: Reply) -> (text: Result<String, Error>)
    ensures
        match text {
            Ok(s) => read_string_spec(reply@) == Ok::<Seq<char>, Error>(s@),
            Err(e) => read_string_spec(reply@) == Err::<Seq<char>, Error>(e),
        },
{
    match reply {
        Reply::Bytes(bytes) => match string_from_utf8(bytes) {
            Some(s) => Ok(s),
            None => Err(Error::DecodeError),
        },
        _ => Err(Error::ParameterFetchError),
    }
}

/// Reads a balance or an amount from the reply to a parameter fetch.
pub fn read_balance(reply: Reply) -> (balance: Result<u64, Error>)
    ensures
        balance == read_balance_spec(reply@),
{
    let ghost sent = reply@;
    match read_string(reply) {
        Ok(s) => {
            proof {
                decode_utf8_encode_utf8(sent->Bytes_0);
            }
            match parse_decimal(s.as_str().as_bytes()) {
                Some(balance) => Ok(balance),
                None => Err(Error::ParseError),
            }
        },
        Err(e) => Err(e),
    }
}

} // verus!
