use vstd::prelude::*;

verus! {

/// Whether the dashboard clock shows 12-hour or 24-hour time.
#[derive(Clone, Copy, Debug, PartialEq, Eq, Structural)]
pub enum ClockFormat {
    H12,
    H24,
}

/// The number by which a clock format is persisted: 12 or 24.
pub open spec fn clock_format_code(format: ClockFormat) -> u8 {
    match format {
        ClockFormat::H12 => 12,
        ClockFormat::H24 => 24,
    }
}

/// The clock format a persisted number stands for: 12 is 12-hour, anything else 24-hour.
pub open spec fn clock_format_of_code(value: u8) -> ClockFormat {
    if value == 12 {
        ClockFormat::H12
    } else {
        ClockFormat::H24
    }
}

/// The other clock format.
pub open spec fn toggled_format(format: ClockFormat) -> ClockFormat {
    match format {
        ClockFormat::H12 => ClockFormat::H24,
        ClockFormat::H24 => ClockFormat::H12,
    }
}

impl ClockFormat {
    /// Switches between the two formats.
    pub fn toggle(&mut self)
        ensures
            *final(self) == toggled_format(*old(self)),
    {
        *self = match self {
            ClockFormat::H12 => ClockFormat::H24,
            ClockFormat::H24 => ClockFormat::H12,
        };
    }

    pub fn is_12h(self) -> (r: bool)
        ensures
            r == (self == ClockFormat::H12),
    {
        matches!(self, ClockFormat::H12)
    }

    pub fn from_u8(value: u8) -> (r: Self)
        ensures
            r == clock_format_of_code(value),
    {
        if value == 12 {
            ClockFormat::H12
        } else {
            ClockFormat::H24
        }
    }

    pub fn as_u8(self) -> (r: u8)
        ensures
            r == clock_format_code(self),
    {
        match self {
            ClockFormat::H12 => 12,
            ClockFormat::H24 => 24,
        }
    }
}

/// Toggling the clock format twice gives back the format it started from.
pub proof fn lemma_toggle_twice(format: ClockFormat)
    ensures
        toggled_format(toggled_format(format)) == format,
{
}

/// Reading back the number a format is stored as gives the same format.
pub proof fn lemma_code_round_trip(format: ClockFormat)
    ensures
        clock_format_of_code(clock_format_code(format)) == format,
{
}

/// A stored number survives a read and a write exactly when it is 12 or 24.
pub proof fn lemma_code_kept_iff_canonical(value: u8)
    ensures
        (clock_format_code(clock_format_of_code(value)) == value) <==> (value == 12 || value == 24),
{
}

} // verus!
