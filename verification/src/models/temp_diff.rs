//! The change of a temperature against the day before.

use crate::number::{explicit_sign_decimal, explicit_sign_string, parse_i16, parsed_i16};
use vstd::prelude::*;

verus! {

/// A temperature difference in whole degrees.
#[derive(Debug, Clone, Copy, PartialEq, Eq)]
pub struct TempDiff {
    temp_diff: i16,
}

impl View for TempDiff {
    type V = int;

    /// The difference as a number.
    closed spec fn view(&self) -> int {
        self.temp_diff as int
    }
}

impl TempDiff {
    /// The difference that `temp_diff` writes in decimal. The text has to
    /// write a 16-bit number; [`TempDiff::parse`] accepts any text.
    pub fn new(temp_diff: &str) -> (diff: Self)
        requires
            parsed_i16(temp_diff@) is Some,
        ensures
            diff@ == parsed_i16(temp_diff@).unwrap(),
    {
        Self { temp_diff: parse_i16(temp_diff).unwrap() }
    }

    /// The difference that `text` writes in decimal; `None` where `text`
    /// writes no 16-bit number.
    pub fn parse(text: &str) -> (diff: Option<Self>)
        ensures
            match parsed_i16(text@) {
                Some(v) => diff is Some && diff.unwrap()@ == v,
                None => diff is None,
            },
    {
        match parse_i16(text) {
            Some(v) => Some(Self { temp_diff: v }),
            None => None,
        }
    }

    /// The difference of `degrees`.
    pub fn from_degrees(degrees: i16) -> (diff: Self)
        ensures
            diff@ == degrees,
    {
        Self { temp_diff: degrees }
    }

    /// The difference in degrees.
    pub fn degrees(&self) -> (degrees: i16)
        ensures
            degrees == self@,
    {
        self.temp_diff
    }

    /// The difference in decimal with its sign always written: `+0` for no
    /// change, `+3` for a rise, `-5` for a fall.
    pub fn to_string(&self) -> (text: String)
        ensures
            text@ == explicit_sign_decimal(self@),
    {
        explicit_sign_string(self.temp_diff)
    }
}

} // verus!
