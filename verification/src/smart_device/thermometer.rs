//! The thermometer: a reading on one of two scales, and its conversion to
//! whole degrees of either.
//!
//! A reading is kept in thousandths of a degree, as an integer, so that the
//! conversions are exact: a whole degree is the nearest one, and a reading
//! half-way between two whole degrees goes to the one farther from zero.

use vstd::prelude::*;
use vstd::string::*;

use crate::error::{CustomError, CustomErrorView};
use crate::house::CustomResult;
use crate::smart_device::command::{DeviceCommand, Executable, ExecutionResult, ExecutionResultView};
use crate::text::{append_decimal, decimal};

verus! {

/// How many units of a reading make one degree.
pub const UNITS_PER_DEGREE: i32 = 1000;

/// A temperature reading in thousandths of a degree, on the scale that the
/// variant names.
#[derive(Clone, Copy, Debug, PartialEq, Eq, Structural)]
pub enum Temperature {
    Celsius(i32),
    Fahrenheit(i32),
}

/// The magnitude of an integer.
pub open spec fn magnitude(v: int) -> int {
    if v < 0 {
        -v
    } else {
        v
    }
}

/// The integer nearest to `num / den`; where two are equally near, the one
/// farther from zero.
pub open spec fn round_half_away(num: int, den: int) -> int
    recommends
        den > 0,
{
    if num >= 0 {
        (2 * num + den) / (2 * den)
    } else {
        -((2 * (-num) + den) / (2 * den))
    }
}

/// The value of `i16` nearest to `v`.
pub open spec fn clamp_i16(v: int) -> int {
    if v < i16::MIN {
        i16::MIN as int
    } else if v > i16::MAX {
        i16::MAX as int
    } else {
        v
    }
}

/// [`round_half_away`] gives a nearest integer: it has the sign of the
/// fraction, and its distance from the fraction is at most one half, and
/// exactly one half only where it is the farther of the two from zero.
pub proof fn lemma_round_half_away_is_nearest(num: int, den: int)
    requires
        den > 0,
    ensures
        num >= 0 ==> round_half_away(num, den) >= 0,
        num <= 0 ==> round_half_away(num, den) <= 0,
        2 * den * magnitude(round_half_away(num, den)) <= 2 * magnitude(num) + den,
        2 * magnitude(num) - den < 2 * den * magnitude(round_half_away(num, den)),
{
    let m = magnitude(num);
    let q = (2 * m + den) / (2 * den);
    assert(q >= 0 && 2 * den * q <= 2 * m + den && 2 * m - den < 2 * den * q && (m == 0 ==> q
        == 0)) by (nonlinear_arith)
        requires
            den > 0,
            m >= 0,
            q == (2 * m + den) / (2 * den),
    ;
    assert(magnitude(round_half_away(num, den)) == q);
}

impl Temperature {
    /// The reading in whole degrees Celsius: a Celsius reading rounded, a
    /// Fahrenheit reading `f` converted as `(f - 32) * 5 / 9` and rounded.
    pub open spec fn celsius_degrees(self) -> int {
        match self {
            Temperature::Celsius(c) => clamp_i16(round_half_away(c as int, UNITS_PER_DEGREE as int)),
            Temperature::Fahrenheit(f) => clamp_i16(
                round_half_away((f - 32 * UNITS_PER_DEGREE) * 5, 9 * UNITS_PER_DEGREE),
            ),
        }
    }

    /// The reading in whole degrees Fahrenheit: a Fahrenheit reading rounded,
    /// a Celsius reading `c` converted as `c * 1.8 + 32` and rounded.
    pub open spec fn fahrenheit_degrees(self) -> int {
        match self {
            Temperature::Fahrenheit(f) => clamp_i16(
                round_half_away(f as int, UNITS_PER_DEGREE as int),
            ),
            Temperature::Celsius(c) => clamp_i16(
                round_half_away(c * 9 + 160 * UNITS_PER_DEGREE, 5 * UNITS_PER_DEGREE),
            ),
        }
    }

    /// The reading as a text: the scale, and the thousandths in brackets.
    pub open spec fn text(self) -> Seq<char> {
        match self {
            Temperature::Celsius(c) => "Celsius("@ + decimal(c as int) + ")"@,
            Temperature::Fahrenheit(f) => "Fahrenheit("@ + decimal(f as int) + ")"@,
        }
    }

    /// The reading as a text: the scale, and the thousandths in brackets.
    pub fn to_text(&self) -> (text: String)
        ensures
            text@ == self.text(),
    {
        match *self {
            Temperature::Celsius(c) => {
                let mut text = String::from_str("Celsius(");
                append_decimal(&mut text, c as i64);
                text.append(")");
                text
            },
            Temperature::Fahrenheit(f) => {
                let mut text = String::from_str("Fahrenheit(");
                append_decimal(&mut text, f as i64);
                text.append(")");
                text
            },
        }
    }

    /// The reading of a whole number of degrees Celsius.
    pub open spec fn whole_celsius(degrees: int) -> Temperature {
        Temperature::Celsius((degrees * UNITS_PER_DEGREE) as i32)
    }

    /// The reading of a whole number of degrees Fahrenheit.
    pub open spec fn whole_fahrenheit(degrees: int) -> Temperature {
        Temperature::Fahrenheit((degrees * UNITS_PER_DEGREE) as i32)
    }

    /// The reading in whole degrees Celsius, rounded to the nearest degree
    /// (half-way readings away from zero) and kept within `i16`.
    pub fn as_celsius(&self) -> (degrees: i16)
        ensures
            degrees == self.celsius_degrees(),
    {
        let unit: i64 = UNITS_PER_DEGREE as i64;
        match *self {
            Temperature::Celsius(c) => to_i16(rounded(c as i64, unit)),
            Temperature::Fahrenheit(f) => to_i16(rounded((f as i64 - 32 * unit) * 5, 9 * unit)),
        }
    }

    /// The reading in whole degrees Fahrenheit, rounded to the nearest degree
    /// (half-way readings away from zero) and kept within `i16`.
    pub fn as_fahrenheit(&self) -> (degrees: i16)
        ensures
            degrees == self.fahrenheit_degrees(),
    {
        let unit: i64 = UNITS_PER_DEGREE as i64;
        match *self {
            Temperature::Fahrenheit(f) => to_i16(rounded(f as i64, unit)),
            Temperature::Celsius(c) => to_i16(rounded(c as i64 * 9 + 160 * unit, 5 * unit)),
        }
    }
}

fn rounded(num: i64, den: i64) -> (nearest: i64)
    requires
        0 < den <= 10000,
        -0x1_0000_0000_0000 <= num <= 0x1_0000_0000_0000,
    ensures
        nearest == round_half_away(num as int, den as int),
{
    if num >= 0 {
        (2 * num + den) / (2 * den)
    } else {
        let up: i64 = (2 * (-num) + den) / (2 * den);
        assert(0 <= up <= 2 * (-num) + den) by (nonlinear_arith)
            requires
                up == (2 * (-num) + den) / (2 * den),
                den > 0,
                num < 0,
        ;
        -up
    }
}

fn to_i16(v: i64) -> (kept: i16)
    ensures
        kept == clamp_i16(v as int),
{
    if v < i16::MIN as i64 {
        i16::MIN
    } else if v > i16::MAX as i64 {
        i16::MAX
    } else {
        v as i16
    }
}

/// A whole number of degrees Celsius, read in Fahrenheit and then in
/// Celsius again, is the number that was started from.
pub proof fn lemma_celsius_round_trip(degrees: int)
    requires
        i16::MIN <= degrees <= i16::MAX,
        i16::MIN <= round_half_away(degrees * 9 + 160, 5) <= i16::MAX,
    ensures
        Temperature::whole_fahrenheit(
            Temperature::whole_celsius(degrees).fahrenheit_degrees(),
        ).celsius_degrees() == degrees,
{
    let f = Temperature::whole_celsius(degrees).fahrenheit_degrees();
    lemma_round_half_away_is_nearest(degrees * 9 + 160, 5);
    lemma_round_half_away_is_nearest(degrees * 9000 + 160000, 5000);
    lemma_round_half_away_is_nearest((f * 1000 - 32000) * 5, 9000);
}

/// A whole number of degrees Fahrenheit, read in Celsius and then in
/// Fahrenheit again, is at most one degree from the number that was
/// started from.
pub proof fn lemma_fahrenheit_round_trip(degrees: int)
    requires
        i16::MIN <= degrees <= i16::MAX,
    ensures
        -1 <= Temperature::whole_celsius(
            Temperature::whole_fahrenheit(degrees).celsius_degrees(),
        ).fahrenheit_degrees() - degrees <= 1,
{
    let c = Temperature::whole_fahrenheit(degrees).celsius_degrees();
    lemma_round_half_away_is_nearest((degrees * 1000 - 32000) * 5, 9000);
    lemma_round_half_away_is_nearest(c * 9000 + 160000, 5000);
}

/// A thermometer: a name and the reading it shows.
#[derive(Clone, Debug)]
pub struct Thermometer {
    pub name: String,
    pub state: Temperature,
}

impl Thermometer {
    /// The reading in whole degrees Celsius.
    pub fn get_celsius(&self) -> (degrees: i16)
        ensures
            degrees == self.state.celsius_degrees(),
    {
        self.get_temperature().as_celsius()
    }

    /// The reading in whole degrees Fahrenheit.
    pub fn get_fahrenheit(&self) -> (degrees: i16)
        ensures
            degrees == self.state.fahrenheit_degrees(),
    {
        self.get_temperature().as_fahrenheit()
    }

    /// The reading as the thermometer shows it.
    pub fn get_temperature(&self) -> (reading: Temperature)
        ensures
            reading == self.state,
    {
        self.state
    }
}

/// The message with which a thermometer refuses a command.
pub open spec fn thermometer_message() -> Seq<char> {
    "thermometer error"@
}

impl Executable for Thermometer {
    open spec fn after(self, command: DeviceCommand) -> Thermometer {
        self
    }

    open spec fn answer(self, command: DeviceCommand) -> Result<
        ExecutionResultView,
        CustomErrorView,
    > {
        Err(CustomErrorView::CommandExecutionFailure(thermometer_message()))
    }

    /// A thermometer carries out no command: it stays as it is and answers
    /// with a failure.
    fn execute(&mut self, command: DeviceCommand) -> (answer: CustomResult<ExecutionResult>) {
        Err(CustomError::CommandExecutionFailure(ThermometerError {  }.get_message()))
    }
}

/// The failure of a thermometer.
#[derive(Debug, Default)]
pub struct ThermometerError {}

impl ThermometerError {
    /// What the failure says.
    pub fn get_message(&self) -> (message: String)
        ensures
            message@ == thermometer_message(),
    {
        String::from_str("thermometer error")
    }
}

} // verus!
