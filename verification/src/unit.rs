//! SI-prefix selection for magnitude display.
//!
//! Prefixes are ordered ascending from femto through yotta, with the
//! bare base unit in the middle. A magnitude picks the largest prefix
//! whose threshold it reaches; below the smallest threshold it keeps
//! the smallest prefix, and the largest prefix catches everything at
//! or above its own threshold. The thresholds are powers of ten held
//! as floating-point values outside the library; selection here is
//! verified over the outcome of comparing the value against each
//! threshold in ascending order.

use vstd::prelude::*;

verus! {

/// An SI magnitude prefix, ascending from femto to yotta.
#[derive(Clone, Copy, Debug, PartialEq, Eq, Structural)]
pub enum MeasurementUnit {
    Femto,
    Pico,
    Nano,
    Micro,
    Milli,
    Base,
    Kilo,
    Mega,
    Giga,
    Tera,
    Peta,
    Exa,
    Zetta,
    Yotta,
}

/// How many prefixes there are.
pub const UNIT_COUNT: usize = 14;

/// The prefix at position `i` of the ascending order.
pub open spec fn unit_at(i: int) -> MeasurementUnit {
    if i <= 0 {
        MeasurementUnit::Femto
    } else if i == 1 {
        MeasurementUnit::Pico
    } else if i == 2 {
        MeasurementUnit::Nano
    } else if i == 3 {
        MeasurementUnit::Micro
    } else if i == 4 {
        MeasurementUnit::Milli
    } else if i == 5 {
        MeasurementUnit::Base
    } else if i == 6 {
        MeasurementUnit::Kilo
    } else if i == 7 {
        MeasurementUnit::Mega
    } else if i == 8 {
        MeasurementUnit::Giga
    } else if i == 9 {
        MeasurementUnit::Tera
    } else if i == 10 {
        MeasurementUnit::Peta
    } else if i == 11 {
        MeasurementUnit::Exa
    } else if i == 12 {
        MeasurementUnit::Zetta
    } else {
        MeasurementUnit::Yotta
    }
}

/// The symbol of a prefix, as prepended to the unit suffix.
pub open spec fn spec_symbol(u: MeasurementUnit) -> Seq<char> {
    match u {
        MeasurementUnit::Femto => "f"@,
        MeasurementUnit::Pico => "p"@,
        MeasurementUnit::Nano => "n"@,
        MeasurementUnit::Micro => "µ"@,
        MeasurementUnit::Milli => "m"@,
        MeasurementUnit::Base => ""@,
        MeasurementUnit::Kilo => "k"@,
        MeasurementUnit::Mega => "M"@,
        MeasurementUnit::Giga => "G"@,
        MeasurementUnit::Tera => "T"@,
        MeasurementUnit::Peta => "P"@,
        MeasurementUnit::Exa => "E"@,
        MeasurementUnit::Zetta => "Z"@,
        MeasurementUnit::Yotta => "Y"@,
    }
}

/// The largest index whose flag is set, or minus one if none is.
pub open spec fn last_reached(s: Seq<bool>) -> int
    decreases s.len(),
{
    if s.len() == 0 {
        -1
    } else if s[s.len() - 1] {
        s.len() - 1
    } else {
        last_reached(s.drop_last())
    }
}

/// The selection rule: the prefix at the largest index whose threshold
/// the value reaches; a value that reaches none keeps the smallest
/// prefix. Since the largest prefix sits at the last index, it catches
/// every value at or above its own threshold.
pub open spec fn spec_select_unit(s: Seq<bool>) -> MeasurementUnit {
    if last_reached(s) >= 0 {
        unit_at(last_reached(s))
    } else {
        unit_at(0)
    }
}

/// Picks the best-fitting prefix for a magnitude. `at_least[i]` holds
/// the outcome of comparing the magnitude against the threshold of the
/// prefix at position `i`, ascending: whether the magnitude is at or
/// above that threshold (so a value exactly on a threshold rounds up
/// into that prefix's band).
pub fn select_unit(at_least: &Vec<bool>) -> (u: MeasurementUnit)
    requires
        at_least@.len() == UNIT_COUNT,
    ensures
        u == spec_select_unit(at_least@),
{
    proof {
        assert(at_least@.take(14) =~= at_least@);
    }
    let mut i: usize = UNIT_COUNT;
    while i > 0
        invariant
            i <= 14,
            at_least@.len() == 14,
            last_reached(at_least@) == last_reached(at_least@.take(i as int)),
        decreases i,
    {
        i = i - 1;
        if at_least[i] {
            return MeasurementUnit::from_index(i);
        }
        proof {
            assert(at_least@.take(i + 1 as int).drop_last() =~= at_least@.take(i as int));
        }
    }
    MeasurementUnit::Femto
}

impl MeasurementUnit {
    /// The prefix at position `i` of the ascending order.
    pub fn from_index(i: usize) -> (u: MeasurementUnit)
        requires
            i < 14,
        ensures
            u == unit_at(i as int),
    {
        match i {
            0 => MeasurementUnit::Femto,
            1 => MeasurementUnit::Pico,
            2 => MeasurementUnit::Nano,
            3 => MeasurementUnit::Micro,
            4 => MeasurementUnit::Milli,
            5 => MeasurementUnit::Base,
            6 => MeasurementUnit::Kilo,
            7 => MeasurementUnit::Mega,
            8 => MeasurementUnit::Giga,
            9 => MeasurementUnit::Tera,
            10 => MeasurementUnit::Peta,
            11 => MeasurementUnit::Exa,
            12 => MeasurementUnit::Zetta,
            _ => MeasurementUnit::Yotta,
        }
    }

    /// The symbol of this prefix.
    pub fn symbol(&self) -> (r: &'static str)
        ensures
            r@ == spec_symbol(*self),
    {
        match self {
            MeasurementUnit::Femto => "f",
            MeasurementUnit::Pico => "p",
            MeasurementUnit::Nano => "n",
            MeasurementUnit::Micro => "µ",
            MeasurementUnit::Milli => "m",
            MeasurementUnit::Base => "",
            MeasurementUnit::Kilo => "k",
            MeasurementUnit::Mega => "M",
            MeasurementUnit::Giga => "G",
            MeasurementUnit::Tera => "T",
            MeasurementUnit::Peta => "P",
            MeasurementUnit::Exa => "E",
            MeasurementUnit::Zetta => "Z",
            MeasurementUnit::Yotta => "Y",
        }
    }
}

} // verus!
