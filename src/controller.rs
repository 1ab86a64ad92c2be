use vstd::prelude::*;
use crate::case::ArgonCase;
use crate::config::FanCurvePoint;
use crate::curve::{curve_increasing, curve_speed, evaluate_curve};
use crate::filter::{filter, filter_spec, FILTER_SCALE};
use crate::hysteresis::{transition, transition_spec, ControllerState};

verus! {

/// The control loop's state: the fan curve and settings, the smoothed
/// temperature, the hysteresis state and the speed last commanded.
///
/// Reading the temperature and writing to the bus are the caller's: each tick
/// takes a raw reading and returns the I2C command to write, if any.
pub struct FanController {
    pub state: ControllerState,
    pub fan_curve: Vec<FanCurvePoint>,
    pub cooldown_cycles: u8,
    /// Filter factor in millionths.
    pub filter_factor: u32,
    /// Speed last commanded, in percent.
    pub current_speed: u8,
    /// Smoothed CPU temperature, in millidegrees Celsius.
    pub smoothed_temp: i32,
}

/// The speed commanded after a tick that decided `command`.
pub open spec fn commanded(command: Option<u8>, current: u8) -> u8 {
    match command {
        Some(s) => s,
        None => current,
    }
}

impl FanController {
    /// The settings stay as validated.
    pub open spec fn wf(&self) -> bool {
        &&& self.filter_factor <= FILTER_SCALE
        &&& curve_increasing(self.fan_curve@)
    }

    /// Creates a controller from a validated configuration and the first CPU
    /// temperature reading, which becomes the initial smoothed value. The fan
    /// starts turned off: the caller writes the command for speed `0`.
    pub fn new(fan_curve: Vec<FanCurvePoint>, cooldown_cycles: u8, filter_factor: u32, initial_temp: i32) -> (r:
        FanController)
        requires
            filter_factor <= FILTER_SCALE,
            curve_increasing(fan_curve@),
        ensures
            r.wf(),
            r.current_speed == 0,
            r.state == ControllerState::Regular,
            r.smoothed_temp == initial_temp,
            r.fan_curve@ == fan_curve@,
            r.cooldown_cycles == cooldown_cycles,
            r.filter_factor == filter_factor,
    {
        FanController {
            state: ControllerState::Regular,
            fan_curve,
            cooldown_cycles,
            filter_factor,
            current_speed: 0,
            smoothed_temp: initial_temp,
        }
    }

    /// Runs the fan controller logic once on a raw temperature reading
    /// (millidegrees): smooths it, looks up the target speed and applies the
    /// hysteresis. Returns the I2C (`command address`, `data byte`) to write
    /// when the commanded speed changes on this tick.
    pub fn run_once<C: ArgonCase>(&mut self, raw_temp: i32) -> (r: Option<(u8, u8)>)
        requires
            old(self).wf(),
        ensures
            final(self).wf(),
            final(self).fan_curve@ == old(self).fan_curve@,
            final(self).cooldown_cycles == old(self).cooldown_cycles,
            final(self).filter_factor == old(self).filter_factor,
            final(self).smoothed_temp == filter_spec(
                raw_temp as int,
                old(self).smoothed_temp as int,
                old(self).filter_factor as int,
            ),
            ({
                let target = curve_speed(old(self).fan_curve@, final(self).smoothed_temp as int);
                let (next, command) = transition_spec(
                    old(self).state,
                    old(self).current_speed,
                    target,
                    old(self).cooldown_cycles,
                );
                &&& final(self).state == next
                &&& final(self).current_speed == commanded(command, old(self).current_speed)
                &&& r == match command {
                    Some(s) => Some(C::command_spec(s)),
                    None => None,
                }
            }),
    {
        let temp = filter(raw_temp, self.smoothed_temp, self.filter_factor);
        self.smoothed_temp = temp;
        let target = evaluate_curve(&self.fan_curve, temp);
        let (next, command) = transition(self.state, self.current_speed, target, self.cooldown_cycles);
        self.state = next;
        match command {
            Some(speed) => Some(self.set_speed::<C>(speed)),
            None => None,
        }
    }

    /// Records `speed` as the commanded speed and returns its I2C command.
    fn set_speed<C: ArgonCase>(&mut self, speed: u8) -> (r: (u8, u8))
        ensures
            *final(self) == (FanController { current_speed: speed, ..*old(self) }),
            r == C::command_spec(speed),
    {
        self.current_speed = speed;
        C::i2c_fan_command(speed)
    }

    /// Turns the fan off on the way out: the commanded speed becomes `0` and the
    /// I2C command for it is returned. A failure to write it does not undo this.
    pub fn shutdown<C: ArgonCase>(&mut self) -> (r: (u8, u8))
        ensures
            final(self).current_speed == 0,
            final(self).state == old(self).state,
            final(self).fan_curve@ == old(self).fan_curve@,
            final(self).cooldown_cycles == old(self).cooldown_cycles,
            final(self).filter_factor == old(self).filter_factor,
            final(self).smoothed_temp == old(self).smoothed_temp,
            r == C::command_spec(0),
    {
        self.set_speed::<C>(0)
    }

    /// The speed last commanded, in percent.
    pub fn current_speed(&self) -> (r: u8)
        ensures
            r == self.current_speed,
    {
        self.current_speed
    }

    /// The smoothed CPU temperature, in millidegrees Celsius.
    pub fn smoothed_temp(&self) -> (r: i32)
        ensures
            r == self.smoothed_temp,
    {
        self.smoothed_temp
    }

    /// The hysteresis state.
    pub fn state(&self) -> (r: ControllerState)
        ensures
            r == self.state,
    {
        self.state
    }
}

} // verus!
