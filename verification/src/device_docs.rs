//! The validated address record the working list holds.
//!
//! A record is only ever built from text that passed the dotted-quad
//! check, so holding a `DeviceDoc` is holding a well-formed address.

use vstd::prelude::*;

use crate::text::{all_digits, dec_value};

verus! {

/// A dotted-quad component: one to three ASCII decimal digits whose value
/// is at most 255.  Leading zeros are allowed, as in `017` or `000`.
pub open spec fn valid_octet(s: Seq<char>) -> bool {
    1 <= s.len() <= 3 && all_digits(s) && dec_value(s) <= 255
}

/// A textual IPv4 address: exactly four valid octets separated by dots.
/// Because octets hold digits only, a string decomposes this way in at
/// most one manner.
pub open spec fn valid_ipv4(s: Seq<char>) -> bool {
    exists|i: int, j: int, k: int|
        0 <= i < j < k < s.len() && s[i] == '.' && s[j] == '.' && s[k] == '.'
            && valid_octet(s.subrange(0, i)) && #[trigger] valid_octet(s.subrange(i + 1, j))
            && #[trigger] valid_octet(s.subrange(j + 1, k))
            && valid_octet(s.subrange(k + 1, s.len() as int))
}

/// Relies on `regex::Regex::is_match` with the anchored pattern below:
/// the pattern accepts exactly the strings made of four dot-separated
/// runs of one to three ASCII digits whose value is at most 255 (a
/// three-digit run starts with `0`, `1`, or is `200`–`255`), which is
/// the language `valid_ipv4` describes.
#[verifier::external_body]
pub(crate) fn regex_is_ipv4(s: &str) -> (r: bool)
    ensures
        r == valid_ipv4(s@),
{
    match regex::Regex::new(
        r"^((2(([0-4][0-9])|(5[0-5]))|([01]?[0-9]?[0-9]))\.){3}(2(([0-4][0-9])|(5[0-5]))|([01]?[0-9]?[0-9]))$",
    ) {
        Ok(re) => re.is_match(s),
        Err(_) => false,
    }
}

/// A validated device network address held in the working list.  A
/// record only ever comes out of [`DeviceDoc::from_str`], so its text is
/// always a valid dotted quad.
#[derive(Debug)]
pub struct DeviceDoc {
    ip: String,
}

impl View for DeviceDoc {
    type V = Seq<char>;

    closed spec fn view(&self) -> Seq<char> {
        self.ip@
    }
}

/// The rejection a failed address parse reports.
#[derive(Debug, PartialEq, Eq, Structural)]
pub struct ParseIPError;

impl DeviceDoc {
    /// The record never holds anything but validated address text.
    #[verifier::type_invariant]
    pub closed spec fn inv(self) -> bool {
        valid_ipv4(self.ip@)
    }

    /// The stored address text.
    pub fn ip(&self) -> (r: &String)
        ensures
            r@ == self@,
    {
        &self.ip
    }

    /// Parses free text into a record.  Succeeds exactly on valid
    /// dotted-quad text and stores that text unchanged.
    pub fn from_str(s: &str) -> (r: Result<DeviceDoc, ParseIPError>)
        ensures
            match r {
                Ok(doc) => valid_ipv4(s@) && doc@ == s@,
                Err(_) => !valid_ipv4(s@),
            },
    {
        if regex_is_ipv4(s) {
            Ok(DeviceDoc { ip: s.to_owned() })
        } else {
            Err(ParseIPError)
        }
    }
}

} // verus!
