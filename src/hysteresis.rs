use vstd::prelude::*;

verus! {

/// State of the cooldown hysteresis.
#[derive(Clone, Copy, Debug, PartialEq, Eq)]
pub enum ControllerState {
    /// The fan is running as usual.
    Regular,
    /// The temperature has dropped but the fan keeps its speed for a while.
    ///
    /// Contains the remaining cycles left for cooldown.
    Cooldown { cycles: u8 },
}

/// One tick of the hysteresis: the next state, and the speed to command if
/// the speed changes on this tick.
pub open spec fn transition_spec(state: ControllerState, current: u8, target: u8, cooldown_cycles: u8) -> (
    ControllerState,
    Option<u8>,
) {
    if target > current {
        (ControllerState::Regular, Some(target))
    } else {
        match state {
            ControllerState::Cooldown { cycles } => if cycles == 0 {
                (ControllerState::Regular, Some(target))
            } else {
                (ControllerState::Cooldown { cycles: (cycles - 1) as u8 }, None)
            },
            ControllerState::Regular => if target == current {
                (ControllerState::Regular, None)
            } else if cooldown_cycles == 0 {
                (ControllerState::Regular, Some(target))
            } else {
                (ControllerState::Cooldown { cycles: (cooldown_cycles - 1) as u8 }, None)
            },
        }
    }
}

/// Decides, from the target and the commanded speed, whether the speed changes
/// on this tick. A rise is applied at once; a drop waits `cooldown_cycles`
/// ticks, the tick that first sees it counting as the first of them.
pub fn transition(state: ControllerState, current: u8, target: u8, cooldown_cycles: u8) -> (r: (
    ControllerState,
    Option<u8>,
))
    ensures
        r == transition_spec(state, current, target, cooldown_cycles),
{
    if target > current {
        return (ControllerState::Regular, Some(target));
    }
    match state {
        ControllerState::Cooldown { cycles } => {
            if cycles == 0 {
                (ControllerState::Regular, Some(target))
            } else {
                (ControllerState::Cooldown { cycles: cycles - 1 }, None)
            }
        },
        ControllerState::Regular => {
            if target == current {
                (ControllerState::Regular, None)
            } else if cooldown_cycles == 0 {
                (ControllerState::Regular, Some(target))
            } else {
                (ControllerState::Cooldown { cycles: cooldown_cycles - 1 }, None)
            }
        },
    }
}

/// State and commanded speed after `n` ticks that all see the same target.
pub open spec fn hold_target(state: ControllerState, current: u8, target: u8, cooldown_cycles: u8, n: nat) -> (
    ControllerState,
    u8,
)
    decreases n,
{
    if n == 0 {
        (state, current)
    } else {
        let prev = hold_target(state, current, target, cooldown_cycles, (n - 1) as nat);
        let (next, command) = transition_spec(prev.0, prev.1, target, cooldown_cycles);
        (
            next,
            match command {
                Some(s) => s,
                None => prev.1,
            },
        )
    }
}

/// A rise of the target is commanded on the tick that sees it, whatever the state.
pub proof fn lemma_ramp_up_immediate(state: ControllerState, current: u8, target: u8, cooldown_cycles: u8)
    requires
        target > current,
    ensures
        transition_spec(state, current, target, cooldown_cycles) == (
        ControllerState::Regular,
        Some(target),
        ),
{
}

/// With cooldown disabled, a drop is commanded on the tick that sees it.
pub proof fn lemma_no_cooldown_immediate(current: u8, target: u8)
    requires
        target < current,
    ensures
        transition_spec(ControllerState::Regular, current, target, 0) == (
        ControllerState::Regular,
        Some(target),
        ),
{
}

proof fn lemma_cooldown_holds_speed(current: u8, target: u8, cooldown_cycles: u8, n: nat)
    requires
        target < current,
        1 <= n <= cooldown_cycles,
    ensures
        hold_target(ControllerState::Regular, current, target, cooldown_cycles, n) == (
        ControllerState::Cooldown { cycles: (cooldown_cycles - n) as u8 },
        current,
        ),
    decreases n,
{
    if n > 1 {
        lemma_cooldown_holds_speed(current, target, cooldown_cycles, (n - 1) as nat);
    }
    assert(hold_target(ControllerState::Regular, current, target, cooldown_cycles, 0) == (
    ControllerState::Regular,
    current,
    ));
}

/// When the target drops below the commanded speed and stays there, the
/// commanded speed is kept for the first `cooldown_cycles` ticks, the tick that
/// sees the drop included, and the lower target is commanded on the next one.
pub proof fn lemma_cooldown_delay(current: u8, target: u8, cooldown_cycles: u8)
    requires
        target < current,
    ensures
        forall|n: nat|
            1 <= n <= cooldown_cycles ==> (#[trigger] hold_target(
                ControllerState::Regular,
                current,
                target,
                cooldown_cycles,
                n,
            )).1 == current,
        hold_target(ControllerState::Regular, current, target, cooldown_cycles, (cooldown_cycles + 1) as nat)
            == (ControllerState::Regular, target),
{
    assert forall|n: nat| 1 <= n <= cooldown_cycles implies (#[trigger] hold_target(
        ControllerState::Regular,
        current,
        target,
        cooldown_cycles,
        n,
    )).1 == current by {
        lemma_cooldown_holds_speed(current, target, cooldown_cycles, n);
    }
    if cooldown_cycles > 0 {
        lemma_cooldown_holds_speed(current, target, cooldown_cycles, cooldown_cycles as nat);
    } else {
        assert(hold_target(ControllerState::Regular, current, target, cooldown_cycles, 0) == (
        ControllerState::Regular,
        current,
        ));
    }
}

} // verus!
