use vstd::prelude::*;

verus! {

/// I2C command address of the fan on cases that have a dedicated one.
pub const FAN_COMMAND: u8 = 0x80;

/// Abstraction over `Argon40` case versions.
pub trait ArgonCase {
    /// The (`command address`, `data byte`) pair that sets the fan to `speed` percent.
    spec fn command_spec(speed: u8) -> (u8, u8);

    /// Determines the I2C fan speed command address and data payload.
    /// Returns a tuple of (`command address`, `data byte`).
    fn i2c_fan_command(speed: u8) -> (r: (u8, u8))
        ensures
            r == Self::command_spec(speed),
    ;
}

/// Argon40 V2 case: the speed is set by accessing the equivalent command address.
pub struct ArgonV2;

impl ArgonCase for ArgonV2 {
    open spec fn command_spec(speed: u8) -> (u8, u8) {
        (speed, 0)
    }

    fn i2c_fan_command(speed: u8) -> (r: (u8, u8)) {
        (speed, 0)
    }
}

/// Argon40 V3 case: the fan has a dedicated command address to which the speed is sent.
pub struct ArgonV3;

impl ArgonCase for ArgonV3 {
    open spec fn command_spec(speed: u8) -> (u8, u8) {
        (FAN_COMMAND, speed)
    }

    fn i2c_fan_command(speed: u8) -> (r: (u8, u8)) {
        (FAN_COMMAND, speed)
    }
}

} // verus!
