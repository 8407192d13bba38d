//! Wall-clock instants, UTC with millisecond precision, as plain fields.
//!
//! The probing engine only ever records and prints an instant, so the model
//! keeps the calendar fields themselves; the clock that produces them lives
//! outside the library.

use vstd::prelude::*;
use crate::strfmt::{spec_dec_pad, dec_pad};

verus! {

/// A UTC wall-clock instant with millisecond precision.
#[derive(Clone, Copy, PartialEq, Eq, Structural, Debug)]
pub struct Timestamp {
    pub year: u16,
    pub month: u8,
    pub day: u8,
    pub hour: u8,
    pub minute: u8,
    pub second: u8,
    pub millisecond: u16,
}

impl Timestamp {
    /// The fields form a calendar instant that the formatter can render.
    pub open spec fn wf(self) -> bool {
        &&& self.year <= 9999
        &&& 1 <= self.month <= 12
        &&& 1 <= self.day <= 31
        &&& self.hour < 24
        &&& self.minute < 60
        &&& self.second < 60
        &&& self.millisecond < 1000
    }

    /// ISO-8601 rendering with milliseconds and a `Z` suffix,
    /// e.g. `2021-07-06T09:10:11.012Z`.
    pub open spec fn spec_iso8601(self) -> Seq<char> {
        spec_dec_pad(self.year as int, 4) + seq!['-'] + spec_dec_pad(self.month as int, 2)
            + seq!['-'] + spec_dec_pad(self.day as int, 2) + seq!['T']
            + spec_dec_pad(self.hour as int, 2) + seq![':'] + spec_dec_pad(self.minute as int, 2)
            + seq![':'] + spec_dec_pad(self.second as int, 2) + seq!['.']
            + spec_dec_pad(self.millisecond as int, 3) + seq!['Z']
    }

    pub fn new(
        year: u16,
        month: u8,
        day: u8,
        hour: u8,
        minute: u8,
        second: u8,
        millisecond: u16,
    ) -> (t: Timestamp)
        ensures
            t == (Timestamp { year, month, day, hour, minute, second, millisecond }),
    {
        Timestamp { year, month, day, hour, minute, second, millisecond }
    }

    /// Renders the instant in the ISO-8601 shape above.
    pub fn to_iso8601_string(&self) -> (s: String)
        ensures
            s@ == self.spec_iso8601(),
    {
        proof {
            reveal_strlit("-");
            reveal_strlit("T");
            reveal_strlit(":");
            reveal_strlit(".");
            reveal_strlit("Z");
        }
        let mut s = dec_pad(self.year as u128, 4);
        s.append("-");
        let part = dec_pad(self.month as u128, 2);
        s.append(part.as_str());
        s.append("-");
        let part = dec_pad(self.day as u128, 2);
        s.append(part.as_str());
        s.append("T");
        let part = dec_pad(self.hour as u128, 2);
        s.append(part.as_str());
        s.append(":");
        let part = dec_pad(self.minute as u128, 2);
        s.append(part.as_str());
        s.append(":");
        let part = dec_pad(self.second as u128, 2);
        s.append(part.as_str());
        s.append(".");
        let part = dec_pad(self.millisecond as u128, 3);
        s.append(part.as_str());
        s.append("Z");
        proof {
            assert(s@ =~= self.spec_iso8601());
        }
        s
    }
}

} // verus!
