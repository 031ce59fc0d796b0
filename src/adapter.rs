//! The gateway's own rejections, and how a response is told apart from
//! one.
use vstd::prelude::*;
use crate::json::{field_of, require, string_of, DecodeError, Json};
use crate::types::SendMessageResult;

verus! {

/// A rejection by the gateway: a non-zero code and a message.
#[derive(Clone, Debug, PartialEq, Eq)]
pub struct Error {
    pub code: u16,
    pub message: String,
}

impl Error {
    /// The error shape: `code` a non-zero integer that fits in 16 bits,
    /// `msg` a string or absent.
    pub open spec fn wire_ok(j: Json) -> bool {
        &&& field_of(j, "code"@) matches Some(Json::Int(c)) && 0 < c <= u16::MAX
        &&& field_of(j, "msg"@) is None || string_of(field_of(j, "msg"@)) is Some
    }

    /// An absent `msg` reads as the empty message.
    pub open spec fn wire_matches(j: Json, e: Error) -> bool {
        &&& field_of(j, "code"@) == Some(Json::Int(e.code as i64))
        &&& match string_of(field_of(j, "msg"@)) {
            Some(m) => e.message == m,
            None => e.message@.len() == 0,
        }
    }

    pub fn decode(j: &Json) -> (r: Result<Error, DecodeError>)
        ensures
            r is Ok <==> Error::wire_ok(*j),
            r matches Ok(e) ==> Error::wire_matches(*j, e),
    {
        let code = match require(j, "code")? {
            Json::Int(c) => if 0 < *c && *c <= u16::MAX as i64 {
                *c as u16
            } else {
                return Err(DecodeError::InvalidValue);
            },
            _ => return Err(DecodeError::InvalidValue),
        };
        let message = match crate::json::field(j, "msg") {
            Some(Json::Str(m)) => m.clone(),
            Some(_) => return Err(DecodeError::InvalidValue),
            None => String::new(),
        };
        Ok(Error { code, message })
    }

    /// The message, as the error is shown.
    pub fn to_string(&self) -> (r: String)
        ensures
            r == self.message,
    {
        self.message.clone()
    }
}

/// Checks a response before it is read as a result: whatever the expected
/// result, a response in the error shape is the gateway's rejection.
pub fn validate(j: &Json) -> (r: Result<(), Error>)
    ensures
        r is Err <==> Error::wire_ok(*j),
        r matches Err(e) ==> Error::wire_matches(*j, e),
{
    match Error::decode(j) {
        Ok(e) => Err(e),
        Err(_) => Ok(()),
    }
}

/// The `data` field of a response that wraps its result in one.
pub fn data(j: &Json) -> (r: Result<&Json, DecodeError>)
    ensures
        match r {
            Ok(d) => field_of(*j, "data"@) == Some(*d),
            Err(_) => field_of(*j, "data"@) is None,
        },
{
    require(j, "data")
}

/// The code of a rejected send.
pub const REJECTED_CODE: u16 = 500;

impl SendMessageResult {
    /// The id of the sent message; -1 means that the gateway rejected it.
    pub fn into_result(self) -> (r: Result<i32, Error>)
        ensures
            self.message_id != -1 ==> r == Ok::<i32, Error>(self.message_id),
            self.message_id == -1 ==> (r matches Err(e) && e.code == REJECTED_CODE && e.message@
                == "message was rejected"@),
    {
        if self.message_id != -1 {
            Ok(self.message_id)
        } else {
            Err(Error { code: REJECTED_CODE, message: String::from_str("message was rejected") })
        }
    }
}

} // verus!
