//! Units of measurement and their names on the wire.
use metrics::Unit;
use vstd::prelude::*;

verus! {

/// `metrics::Unit`.
#[verifier::external_type_specification]
#[verifier::external_body]
pub struct ExUnit(metrics::Unit);

/// The units that a metric can be described with.
#[derive(Debug, Clone, Copy, PartialEq, Eq)]
pub enum UnitKind {
    Count,
    Percent,
    Seconds,
    Milliseconds,
    Microseconds,
    Nanoseconds,
    Tebibytes,
    Gibibytes,
    Mebibytes,
    Kibibytes,
    Bytes,
    TerabitsPerSecond,
    GigabitsPerSecond,
    MegabitsPerSecond,
    KilobitsPerSecond,
    BitsPerSecond,
    CountPerSecond,
}

/// The variant of a `metrics::Unit`.
pub uninterp spec fn unit_view(u: metrics::Unit) -> UnitKind;

/// Tells the variants of `metrics::Unit` apart: the result has the name of
/// the variant that `u` is.
#[verifier::external_body]
pub(crate) fn unit_kind(u: metrics::Unit) -> (r: UnitKind)
    ensures
        r == unit_view(u),
{
    match u {
        Unit::Count => UnitKind::Count, Unit::Percent => UnitKind::Percent,
        Unit::Seconds => UnitKind::Seconds, Unit::Milliseconds => UnitKind::Milliseconds,
        Unit::Microseconds => UnitKind::Microseconds, Unit::Nanoseconds => UnitKind::Nanoseconds,
        Unit::Tebibytes => UnitKind::Tebibytes, Unit::Gibibytes => UnitKind::Gibibytes,
        Unit::Mebibytes => UnitKind::Mebibytes, Unit::Kibibytes => UnitKind::Kibibytes,
        Unit::Bytes => UnitKind::Bytes, Unit::TerabitsPerSecond => UnitKind::TerabitsPerSecond,
        Unit::GigabitsPerSecond => UnitKind::GigabitsPerSecond,
        Unit::MegabitsPerSecond => UnitKind::MegabitsPerSecond,
        Unit::KilobitsPerSecond => UnitKind::KilobitsPerSecond,
        Unit::BitsPerSecond => UnitKind::BitsPerSecond, Unit::CountPerSecond => UnitKind::CountPerSecond,
    }
}

impl UnitKind {
    /// The wire string of this unit.
    pub open spec fn wire_name(self) -> Seq<char> {
        match self {
            UnitKind::Count => "none"@,
            UnitKind::Percent => "percent"@,
            UnitKind::Seconds => "second"@,
            UnitKind::Milliseconds => "millisecond"@,
            UnitKind::Microseconds => "microsecond"@,
            UnitKind::Nanoseconds => "nanosecond"@,
            UnitKind::Tebibytes => "tebibyte"@,
            UnitKind::Gibibytes => "gibibyte"@,
            UnitKind::Mebibytes => "mebibyte"@,
            UnitKind::Kibibytes => "kibibyte"@,
            UnitKind::Bytes => "byte"@,
            UnitKind::TerabitsPerSecond => "terabit_per_second"@,
            UnitKind::GigabitsPerSecond => "gigabit_per_second"@,
            UnitKind::MegabitsPerSecond => "megabit_per_second"@,
            UnitKind::KilobitsPerSecond => "kilobit_per_second"@,
            UnitKind::BitsPerSecond => "bit_per_second"@,
            UnitKind::CountPerSecond => "count_per_second"@,
        }
    }

    /// Sentry's string for this unit, in the singular form of its examples.
    pub fn as_wire_str(self) -> (r: &'static str)
        ensures
            r@ == self.wire_name(),
    {
        match self {
            UnitKind::Count => "none",
            UnitKind::Percent => "percent",
            UnitKind::Seconds => "second",
            UnitKind::Milliseconds => "millisecond",
            UnitKind::Microseconds => "microsecond",
            UnitKind::Nanoseconds => "nanosecond",
            UnitKind::Tebibytes => "tebibyte",
            UnitKind::Gibibytes => "gibibyte",
            UnitKind::Mebibytes => "mebibyte",
            UnitKind::Kibibytes => "kibibyte",
            UnitKind::Bytes => "byte",
            UnitKind::TerabitsPerSecond => "terabit_per_second",
            UnitKind::GigabitsPerSecond => "gigabit_per_second",
            UnitKind::MegabitsPerSecond => "megabit_per_second",
            UnitKind::KilobitsPerSecond => "kilobit_per_second",
            UnitKind::BitsPerSecond => "bit_per_second",
            UnitKind::CountPerSecond => "count_per_second",
        }
    }
}

/// Map a `metrics::Unit` to Sentry's unit string.
pub fn map_unit(u: metrics::Unit) -> (r: &'static str)
    ensures
        r@ == unit_view(u).wire_name(),
{
    unit_kind(u).as_wire_str()
}

} // verus!
