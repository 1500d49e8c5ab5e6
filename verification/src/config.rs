//! The parameters of a simulation, passed into every step that needs them.

use vstd::prelude::*;
use crate::geometry::SUBUNITS;

verus! {

/// Change of vertical speed per tick while airborne, as tuned.
pub const GRAVITY: i64 = -12;

/// Width of the screen as tuned: 800 world units.
pub const SCREEN_WIDTH: i64 = 800 * SUBUNITS;

/// Height of the screen as tuned: 600 world units.
pub const SCREEN_HEIGHT: i64 = 600 * SUBUNITS;

/// Length of a tick as tuned, in sixtieths of a second.
pub const TIME_STEP: i64 = 1;

/// What a simulation is run with. The values never change during a run.
#[derive(Clone, Copy, Debug, PartialEq, Eq, Structural)]
pub struct Config {
    /// Added to the vertical speed on every airborne tick; negative, since
    /// it pulls down.
    pub gravity: i64,
    /// Half the width of the screen, in sub-units. The visible world spans
    /// `-half_width ..= half_width`.
    pub half_width: i64,
    /// Half the height of the screen, in sub-units.
    pub half_height: i64,
    /// Length of a tick, in sixtieths of a second. All speeds and
    /// accelerations are tuned for a tick of 1.
    pub time_step: i64,
}

/// The mathematical value of a [`Config`].
pub struct ConfigView {
    pub gravity: int,
    pub half_width: int,
    pub half_height: int,
    pub time_step: int,
}

impl ConfigView {
    /// Gravity pulls down, the screen is not empty, time moves forward.
    pub open spec fn wf(self) -> bool {
        &&& self.gravity < 0
        &&& self.half_width >= 0
        &&& self.half_height >= 0
        &&& self.time_step > 0
    }
}

impl View for Config {
    type V = ConfigView;

    open spec fn view(&self) -> ConfigView {
        ConfigView {
            gravity: self.gravity as int,
            half_width: self.half_width as int,
            half_height: self.half_height as int,
            time_step: self.time_step as int,
        }
    }
}

impl Config {
    /// A configuration of the given values, where they are well-formed.
    pub fn new(gravity: i64, half_width: i64, half_height: i64, time_step: i64) -> (r: Option<Config>)
        ensures
            r.is_some() <==> (ConfigView {
                gravity: gravity as int,
                half_width: half_width as int,
                half_height: half_height as int,
                time_step: time_step as int,
            }).wf(),
            r.is_some() ==> r.unwrap() == (Config { gravity, half_width, half_height, time_step }),
    {
        if gravity < 0 && half_width >= 0 && half_height >= 0 && time_step > 0 {
            Some(Config { gravity, half_width, half_height, time_step })
        } else {
            None
        }
    }

    /// The tuned configuration: gravity of -12 per tick, a screen of 800 by
    /// 600 world units, ticks of a sixtieth of a second.
    pub fn standard() -> (c: Config)
        ensures
            c@.wf(),
            c == (Config {
                gravity: GRAVITY,
                half_width: 24000,
                half_height: 18000,
                time_step: TIME_STEP,
            }),
    {
        Config {
            gravity: GRAVITY,
            half_width: SCREEN_WIDTH / 2,
            half_height: SCREEN_HEIGHT / 2,
            time_step: TIME_STEP,
        }
    }
}

} // verus!
