use vstd::prelude::*;
use crate::curve::curve_increasing;
use crate::filter::FILTER_SCALE;

verus! {

/// Command-line arguments of the daemon.
pub struct Args {
    /// Path of the configuration file.
    pub config: String,
}

/// A fan curve point.
#[derive(Clone, Copy, Debug, PartialEq, Eq)]
pub struct FanCurvePoint {
    /// Temperature, in millidegrees Celsius, where the fan setting should trigger.
    pub temp: i32,
    /// Speed that the fan should be set to when the temperature is reached.
    pub speed: u8,
}

impl FanCurvePoint {
    /// A point whose threshold is given in whole degrees Celsius.
    pub fn from_degrees(temp: i8, speed: u8) -> (r: FanCurvePoint)
        ensures
            r.temp == temp as int * 1000,
            r.speed == speed,
    {
        FanCurvePoint { temp: temp as i32 * 1000, speed }
    }
}

/// Why a configuration was rejected.
#[derive(Clone, Copy, Debug, PartialEq, Eq)]
pub enum ConfigError {
    /// The filter factor lies outside `0.0..=1.0`.
    FilterFactorOutOfRange,
    /// The fan curve is not strictly increasing in temperature and in speed.
    CurveNotIncreasing,
}

impl ConfigError {
    /// The message that describes the error.
    pub fn message(&self) -> (r: String) {
        match self {
            ConfigError::FilterFactorOutOfRange => "filter_factor: must be between 0.0 and 1.0".to_string(),
            ConfigError::CurveNotIncreasing => "fan_curve: temperatures and speeds must both be increasing".to_string(),
        }
    }
}

/// Validated service configuration.
pub struct Config {
    /// Polling interval in seconds.
    pub poll_interval_secs: u64,
    /// The number of cooldown cycles to keep the fan speed stable for.
    pub cooldown_cycles: u8,
    /// The filtering factor for smoothing CPU temperature, in millionths
    /// (`FILTER_SCALE` stands for 1.0).
    pub filter_factor: u32,
    /// Fan curve points in strictly ascending order.
    pub fan_curve: Vec<FanCurvePoint>,
}

impl Config {
    /// The invariant that validation establishes.
    pub open spec fn wf(&self) -> bool {
        &&& self.filter_factor <= FILTER_SCALE
        &&& curve_increasing(self.fan_curve@)
    }

    /// Validates the configuration read from a file. The filter factor is given
    /// in millionths and must lie in `0..=FILTER_SCALE`; the curve must be
    /// strictly increasing in both temperature and speed.
    pub fn try_new(
        poll_interval_secs: u8,
        cooldown_cycles: u8,
        filter_factor: i64,
        fan_curve: Vec<FanCurvePoint>,
    ) -> (r: Result<Config, ConfigError>)
        ensures
            !(0 <= filter_factor <= FILTER_SCALE) <==> r == Err::<Config, ConfigError>(
                ConfigError::FilterFactorOutOfRange,
            ),
            (0 <= filter_factor <= FILTER_SCALE && !curve_increasing(fan_curve@)) <==> r
                == Err::<Config, ConfigError>(ConfigError::CurveNotIncreasing),
            r is Ok ==> ({
                let c = r->Ok_0;
                &&& c.wf()
                &&& c.poll_interval_secs == poll_interval_secs
                &&& c.cooldown_cycles == cooldown_cycles
                &&& c.filter_factor == filter_factor
                &&& c.fan_curve@ == fan_curve@
            }),
    {
        if filter_factor < 0 || filter_factor > FILTER_SCALE as i64 {
            return Err(ConfigError::FilterFactorOutOfRange);
        }
        if !crate::curve::is_increasing(&fan_curve) {
            return Err(ConfigError::CurveNotIncreasing);
        }
        Ok(Config {
            poll_interval_secs: poll_interval_secs as u64,
            cooldown_cycles,
            filter_factor: filter_factor as u32,
            fan_curve,
        })
    }
}

} // verus!
