//! The unit in which a timestamp counts.

use vstd::prelude::*;
use vstd::string::StringExecFns;
use crate::text::str_equal;

verus! {

/// Resolution of a timestamp.
#[derive(Debug, Clone, Copy, PartialEq, Eq, Structural)]
pub enum TimestampUnit {
    /// Milliseconds.
    Ms,
    /// Microseconds.
    Us,
    /// Nanoseconds.
    Ns,
}

/// How timestamps are to be read: their unit and their time zone, where
/// either is known.
#[derive(Debug)]
pub struct TimestampOptions {
    pub time_unit: Option<TimestampUnit>,
    pub time_zone: Option<String>,
}

impl TimestampUnit {
    /// The unit that `s` names.
    pub open spec fn named(s: Seq<char>) -> Option<TimestampUnit> {
        if s == "ns"@ {
            Some(TimestampUnit::Ns)
        } else if s == "ms"@ {
            Some(TimestampUnit::Ms)
        } else if s == "us"@ || s == "μs"@ {
            Some(TimestampUnit::Us)
        } else {
            None
        }
    }

    /// The name of the unit, in lower case.
    pub open spec fn name_text(self) -> Seq<char> {
        match self {
            TimestampUnit::Ms => "ms"@,
            TimestampUnit::Us => "us"@,
            TimestampUnit::Ns => "ns"@,
        }
    }

    /// The unit as it is displayed.
    pub open spec fn text(self) -> Seq<char> {
        match self {
            TimestampUnit::Ms => "Ms"@,
            TimestampUnit::Us => "Us"@,
            TimestampUnit::Ns => "Ns"@,
        }
    }

    /// The message for a text that names no unit.
    pub open spec fn complaint(s: Seq<char>) -> Seq<char> {
        "Invalid precision: "@ + s + ". Available: ms, us, ns"@
    }

    /// Reads the name of a unit: `ns`, `ms`, `us` or `μs`.
    pub fn from_str(s: &str) -> (r: Result<TimestampUnit, String>)
        ensures
            match r {
                Ok(unit) => Self::named(s@) == Some(unit),
                Err(message) => Self::named(s@) is None && message@ == Self::complaint(s@),
            },
    {
        if str_equal(s, "ns") {
            Ok(TimestampUnit::Ns)
        } else if str_equal(s, "ms") {
            Ok(TimestampUnit::Ms)
        } else if str_equal(s, "us") || str_equal(s, "μs") {
            Ok(TimestampUnit::Us)
        } else {
            let mut message = String::from_str("Invalid precision: ");
            message.append(s);
            message.append(". Available: ms, us, ns");
            Err(message)
        }
    }

    /// The unit as it is displayed.
    pub fn to_string(&self) -> (s: String)
        ensures
            s@ == self.text(),
    {
        match self {
            TimestampUnit::Ms => String::from_str("Ms"),
            TimestampUnit::Us => String::from_str("Us"),
            TimestampUnit::Ns => String::from_str("Ns"),
        }
    }

    /// The name of the unit, in lower case.
    pub fn name(&self) -> (s: String)
        ensures
            s@ == self.name_text(),
            Self::named(s@) == Some(*self),
    {
        proof {
            reveal_strlit("ns");
            reveal_strlit("ms");
            reveal_strlit("us");
            assert("ms"@[0] != "ns"@[0]);
            assert("us"@[0] != "ns"@[0]);
            assert("us"@[0] != "ms"@[0]);
        }
        match self {
            TimestampUnit::Ms => String::from_str("ms"),
            TimestampUnit::Us => String::from_str("us"),
            TimestampUnit::Ns => String::from_str("ns"),
        }
    }
}

} // verus!
