//! Containers of bytes that are text.

use std::str::Utf8Error;
use std::string::FromUtf8Error;
use vstd::prelude::*;
use vstd::std_specs::convert::FromSpecImpl;
use vstd::utf8::{encode_utf8, valid_utf8};

use crate::container::kinds::{came_of, Borrow, BorrowError, Container};

verus! {

/// `std::str::Utf8Error`: where bytes are not text.
#[verifier::external_type_specification]
#[verifier::external_body]
pub struct ExUtf8Error(Utf8Error);

/// `std::string::FromUtf8Error`: bytes that were to become text, and why they are none.
#[verifier::external_type_specification]
#[verifier::external_body]
pub struct ExFromUtf8Error(FromUtf8Error);

/// Why bytes are not available as text.
#[derive(Debug, PartialEq)]
pub enum ToStringError {
    /// They are no text.
    Utf8(Utf8Error),
    /// They were handed over, and are no text.
    FromUtf8(FromUtf8Error),
    /// They are not available.
    Lock(BorrowError),
}

impl FromSpecImpl<Utf8Error> for ToStringError {
    open spec fn obeys_from_spec() -> bool {
        true
    }

    open spec fn from_spec(err: Utf8Error) -> ToStringError {
        ToStringError::Utf8(err)
    }
}

impl From<Utf8Error> for ToStringError {
    fn from(err: Utf8Error) -> (r: ToStringError) {
        ToStringError::Utf8(err)
    }
}

impl FromSpecImpl<FromUtf8Error> for ToStringError {
    open spec fn obeys_from_spec() -> bool {
        true
    }

    open spec fn from_spec(err: FromUtf8Error) -> ToStringError {
        ToStringError::FromUtf8(err)
    }
}

impl From<FromUtf8Error> for ToStringError {
    fn from(err: FromUtf8Error) -> (r: ToStringError) {
        ToStringError::FromUtf8(err)
    }
}

impl FromSpecImpl<BorrowError> for ToStringError {
    open spec fn obeys_from_spec() -> bool {
        true
    }

    open spec fn from_spec(err: BorrowError) -> ToStringError {
        ToStringError::Lock(err)
    }
}

impl From<BorrowError> for ToStringError {
    fn from(err: BorrowError) -> (r: ToStringError) {
        ToStringError::Lock(err)
    }
}

/// `std::str::from_utf8`: the text whose bytes these are, where they are valid UTF-8.
#[verifier::external_body]
fn from_utf8(bytes: &[u8]) -> (r: Result<&str, Utf8Error>)
    ensures
        match r {
            Ok(s) => valid_utf8(bytes@) && encode_utf8(s@) == bytes@,
            Err(_) => !valid_utf8(bytes@),
        },
{
    std::str::from_utf8(bytes)
}

/// The text whose bytes these are.
pub fn text_of(bytes: &[u8]) -> (r: Result<&str, ToStringError>)
    ensures
        match r {
            Ok(s) => valid_utf8(bytes@) && encode_utf8(s@) == bytes@,
            Err(e) => e is Utf8 && !valid_utf8(bytes@),
        },
{
    match from_utf8(bytes) {
        Ok(s) => Ok(s),
        Err(e) => Err(ToStringError::from(e)),
    }
}

/// `String::into_bytes`: the bytes of the text.
#[verifier::external_body]
fn into_bytes(s: String) -> (r: Vec<u8>)
    ensures
        r@ == encode_utf8(s@),
{
    s.into_bytes()
}

/// Whether `r` is the text that was borrowed, or says why there is none.
pub open spec fn is_text_of<'c>(
    borrowed: Result<Borrow<'c, u8>, BorrowError>,
    r: Result<String, ToStringError>,
) -> bool {
    match borrowed {
        Ok(b) => match r {
            Ok(s) => valid_utf8(b.items()) && encode_utf8(s@) == b.items(),
            Err(e) => e is Utf8 && !valid_utf8(b.items()),
        },
        Err(error) => r == Err::<String, ToStringError>(ToStringError::Lock(error)),
    }
}

/// The text that was borrowed.
pub fn borrowed_to_string(borrowed: &Result<Borrow<'_, u8>, BorrowError>) -> (r: Result<
    String,
    ToStringError,
>)
    ensures
        is_text_of(*borrowed, r),
{
    match borrowed {
        Ok(b) => match b.try_to_str() {
            Ok(s) => Ok(s.to_owned()),
            Err(e) => Err(e),
        },
        Err(error) => Err(ToStringError::from(*error)),
    }
}

impl<'a> Container<'a, u8> {
    /// The bytes of a text, owned.
    pub fn from_string(s: String) -> (r: Container<'a, u8>)
        ensures
            r matches Container::Vec(v) && v@ == encode_utf8(s@),
    {
        Container::Vec(into_bytes(s))
    }

    /// The bytes of a text, borrowed.
    pub fn from_str(s: &'a str) -> (r: Container<'a, u8>)
        ensures
            r matches Container::Ref(v) && v@ == encode_utf8(s@),
    {
        Container::Ref(s.as_bytes())
    }

    /// Converts the bytes to an owned UTF-8 String.
    /// Most likely, this is a copy.
    /// Returns an error if the byte slice is not valid UTF-8, or if the source data is not
    /// available.
    pub fn try_to_string(&self) -> (r: Result<String, ToStringError>)
        ensures
            exists|b: Result<Borrow<'a, u8>, BorrowError>| #[trigger]
                came_of(*self, b) && is_text_of(b, r),
            !self.is_locking() ==> match r {
                Ok(s) => valid_utf8(self.items()) && encode_utf8(s@) == self.items(),
                Err(e) => e is Utf8 && !valid_utf8(self.items()),
            },
            r matches Err(e) ==> match e {
                ToStringError::Utf8(_) => true,
                ToStringError::FromUtf8(_) => false,
                ToStringError::Lock(error) => self.may_refuse(error),
            },
    {
        let borrowed = self.try_borrow();
        borrowed_to_string(&borrowed)
    }
}

impl<'a> Borrow<'a, u8> {
    /// Converts the borrowed bytes to an borrowed UTF-8 String.
    /// Returns an error if the byte slice is not valid UTF-8.
    pub fn try_to_str(&self) -> (r: Result<&str, ToStringError>)
        ensures
            match r {
                Ok(s) => valid_utf8(self.items()) && encode_utf8(s@) == self.items(),
                Err(e) => e is Utf8 && !valid_utf8(self.items()),
            },
    {
        text_of(self.as_slice())
    }
}

/// The text that is read of the bytes of a text is that text.
pub proof fn lemma_text_round_trip(text: Seq<char>, read: Seq<char>)
    requires
        encode_utf8(read) == encode_utf8(text),
    ensures
        read == text,
{
    vstd::utf8::encode_utf8_decode_utf8(text);
    vstd::utf8::encode_utf8_decode_utf8(read);
}

} // verus!
