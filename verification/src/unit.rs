//! Measurement units as numbered by the DLMS/COSEM standard.

use vstd::prelude::*;

verus! {

/// A measurement unit as defined by DLMS/COSEM (IEC 62056).
///
/// Only the units relevant for power meters are represented.
#[derive(Debug, Clone, Copy, PartialEq, Eq, Structural)]
pub enum Unit {
    /// active power `[W]`
    Watt,
    /// active energy `[Wh]`
    WattHour,
    /// voltage `[V]`
    Volt,
    /// current `[A]`
    Ampere,
    /// (phase) angle
    Degree,
    /// frequency `[Hz]`
    Hertz,
}

/// The unit, if any, that a DLMS/COSEM unit number names.
pub open spec fn spec_unit_from_u8(value: u8) -> Option<Unit> {
    match value {
        8u8 => Some(Unit::Degree),
        27u8 => Some(Unit::Watt),
        30u8 => Some(Unit::WattHour),
        33u8 => Some(Unit::Ampere),
        35u8 => Some(Unit::Volt),
        44u8 => Some(Unit::Hertz),
        _ => None,
    }
}

/// The short textual symbol of a unit.
pub open spec fn spec_unit_str(unit: Unit) -> &'static str {
    match unit {
        Unit::Watt => "W",
        Unit::WattHour => "Wh",
        Unit::Volt => "V",
        Unit::Ampere => "A",
        Unit::Degree => "\u{b0}",
        Unit::Hertz => "Hz",
    }
}

impl Unit {
    /// Returns a string describing the unit (e.g. `"W"` for `Unit::Watt`).
    pub fn as_str(&self) -> (r: &'static str)
        ensures
            r == spec_unit_str(*self),
    {
        match self {
            Unit::Watt => "W",
            Unit::WattHour => "Wh",
            Unit::Volt => "V",
            Unit::Ampere => "A",
            Unit::Degree => "\u{b0}",
            Unit::Hertz => "Hz",
        }
    }

    /// Creates a `Unit` instance from a DLMS/COSEM unit number.
    ///
    /// Returns `None` if the given unit number doesn't match one of the
    /// supported units.
    pub fn from_u8(value: u8) -> (r: Option<Unit>)
        ensures
            r == spec_unit_from_u8(value),
    {
        match value {
            8 => Some(Unit::Degree),
            27 => Some(Unit::Watt),
            30 => Some(Unit::WattHour),
            33 => Some(Unit::Ampere),
            35 => Some(Unit::Volt),
            44 => Some(Unit::Hertz),
            _ => None,
        }
    }
}

} // verus!
