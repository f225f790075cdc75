//! The data carried through the system: one sensor reading, one
//! timestamped log entry, and the acquisition error taxonomy.

use vstd::prelude::*;
use vstd::string::StringExecFns;

verus! {

/// A decimal number exactly as it appears on the sensor's wire format:
/// an optional minus sign, a whole part, and `frac_len` fractional
/// digits whose value is `frac`. The number denoted is
/// `(-1)^negative * (whole + frac / 10^frac_len)`.
#[derive(Clone, Copy, PartialEq, Eq, Structural, Debug)]
pub struct Decimal {
    pub negative: bool,
    pub whole: u64,
    pub frac: u64,
    pub frac_len: u8,
}

/// The mathematical content of a `Decimal`, with unbounded parts; the
/// line grammar is specified over these values, so that a line whose
/// numbers do not fit the machine types still has a meaning.
pub ghost struct DecimalVal {
    pub negative: bool,
    pub whole: int,
    pub frac: int,
    pub frac_len: int,
}

impl View for Decimal {
    type V = DecimalVal;

    open spec fn view(&self) -> DecimalVal {
        DecimalVal {
            negative: self.negative,
            whole: self.whole as int,
            frac: self.frac as int,
            frac_len: self.frac_len as int,
        }
    }
}

/// Whether a mathematical decimal fits the machine representation.
pub open spec fn decimal_fits(d: DecimalVal) -> bool {
    &&& 0 <= d.whole <= u64::MAX
    &&& 0 <= d.frac <= u64::MAX
    &&& 0 <= d.frac_len <= u8::MAX
}

impl Decimal {
    /// The zero value used by the sentinel cache entry: `0.0`.
    pub open spec fn zero_spec() -> Decimal {
        Decimal { negative: false, whole: 0, frac: 0, frac_len: 1 }
    }

    pub fn zero() -> (r: Decimal)
        ensures
            r == Decimal::zero_spec(),
    {
        Decimal { negative: false, whole: 0, frac: 0, frac_len: 1 }
    }
}

/// One parsed sensor reading: CO2 concentration in ppm, relative
/// humidity in percent, temperature in degrees Celsius.
#[derive(Clone, Copy, PartialEq, Eq, Structural, Debug)]
pub struct UDCO2SStat {
    pub co2ppm: i32,
    pub humidity: Decimal,
    pub temperature: Decimal,
}

/// The mathematical content of a reading, used by the line grammar.
pub ghost struct ReadingVal {
    pub co2ppm: int,
    pub humidity: DecimalVal,
    pub temperature: DecimalVal,
}

impl View for UDCO2SStat {
    type V = ReadingVal;

    open spec fn view(&self) -> ReadingVal {
        ReadingVal {
            co2ppm: self.co2ppm as int,
            humidity: self.humidity@,
            temperature: self.temperature@,
        }
    }
}

/// Whether a mathematical reading fits the machine representation.
/// The CO2 field is parsed from digits alone, so it is never negative.
pub open spec fn reading_fits(v: ReadingVal) -> bool {
    &&& 0 <= v.co2ppm <= i32::MAX
    &&& decimal_fits(v.humidity)
    &&& decimal_fits(v.temperature)
}

impl UDCO2SStat {
    pub fn new(co2ppm: i32, humidity: Decimal, temperature: Decimal) -> (r: Self)
        ensures
            r == (UDCO2SStat { co2ppm, humidity, temperature }),
    {
        UDCO2SStat { co2ppm, humidity, temperature }
    }
}

/// One observation event: a reading together with the wall-clock second
/// at which it was acquired.
#[derive(Clone, Copy, PartialEq, Eq, Structural, Debug)]
pub struct Log {
    pub time: i64,
    pub status: UDCO2SStat,
}

/// The initial cache contents: timestamp 0 and an all-zero reading, so
/// that the first request can never be served from the cache once the
/// clock has advanced past the freshness window.
pub open spec fn sentinel_log() -> Log {
    Log {
        time: 0,
        status: UDCO2SStat {
            co2ppm: 0,
            humidity: Decimal::zero_spec(),
            temperature: Decimal::zero_spec(),
        },
    }
}

impl Log {
    pub fn sentinel() -> (r: Log)
        ensures
            r == sentinel_log(),
    {
        Log {
            time: 0,
            status: UDCO2SStat {
                co2ppm: 0,
                humidity: Decimal::zero(),
                temperature: Decimal::zero(),
            },
        }
    }
}

/// Why one acquisition cycle failed. Every error propagates unchanged
/// through the cached read path to the caller.
#[derive(Clone, Copy, PartialEq, Eq, Structural, Debug)]
pub enum AcquisitionError {
    /// The serial transport could not be opened or configured.
    DeviceUnavailable,
    /// A write or read failed with something other than a timeout.
    IoError,
    /// The data line did not match the expected pattern.
    ParseFailure,
}

impl AcquisitionError {
    /// The human-readable description served to the HTTP caller.
    pub fn message(&self) -> (r: String)
        ensures
            self is DeviceUnavailable ==> r@ == "could not open or configure the device"@,
            self is IoError ==> r@ == "i/o error while talking to the device"@,
            self is ParseFailure ==> r@ == "could not read from device"@,
    {
        match self {
            AcquisitionError::DeviceUnavailable => {
                String::from_str("could not open or configure the device")
            },
            AcquisitionError::IoError => String::from_str("i/o error while talking to the device"),
            AcquisitionError::ParseFailure => String::from_str("could not read from device"),
        }
    }
}

} // verus!
