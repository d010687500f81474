//! One motor channel: four output lines and a wiring flag.

use vstd::prelude::*;
use crate::direction::{Direction, Invert};
use crate::line::OutputLine;

verus! {

/// The electrical state of one motor channel: the levels of its four lines
/// (`true` is high) and its wiring flag.
pub struct Channel {
    pub phase_a: bool,
    pub phase_b: bool,
    pub enable: bool,
    pub pwm: bool,
    pub invert: bool,
}

impl Channel {
    /// The direction that the lines are to encode when `dir` is asked for:
    /// `dir` itself, or its mirror image where the wiring is inverted.
    pub open spec fn effective(self, dir: Direction) -> Direction {
        if self.invert {
            dir.inverted()
        } else {
            dir
        }
    }

    /// The channel after it has been armed: enable and PWM lines high,
    /// everything else as before.
    pub open spec fn armed(self) -> Channel {
        Channel { enable: true, pwm: true, ..self }
    }

    /// The channel after `dir` has been asked for. Phase A is high exactly for
    /// an effective forward, phase B exactly for an effective backward; the
    /// other lines and the wiring flag are as before.
    pub open spec fn driven(self, dir: Direction) -> Channel {
        Channel {
            phase_a: self.effective(dir) == Direction::Forward,
            phase_b: self.effective(dir) == Direction::Backward,
            ..self
        }
    }
}

/// The channel after it has been armed `times` times in a row.
pub open spec fn armed_repeatedly(channel: Channel, times: nat) -> Channel
    decreases times,
{
    if times == 0 {
        channel
    } else {
        armed_repeatedly(channel, (times - 1) as nat).armed()
    }
}

/// Arming a channel once or many times comes to the same: the enable and PWM
/// lines are high afterwards, whatever they were before, and nothing else has
/// changed.
pub proof fn arming_again_changes_nothing(channel: Channel, times: nat)
    requires
        times >= 1,
    ensures
        armed_repeatedly(channel, times) == channel.armed(),
        armed_repeatedly(channel, times).enable,
        armed_repeatedly(channel, times).pwm,
    decreases times,
{
    if times > 1 {
        arming_again_changes_nothing(channel, (times - 1) as nat);
    } else {
        reveal_with_fuel(armed_repeatedly, 2);
    }
}

/// Once armed, a channel stays armed: neither arming it again nor asking for
/// a direction takes the enable or the PWM line low.
pub proof fn armed_channel_stays_armed(channel: Channel, dir: Direction)
    requires
        channel.enable,
        channel.pwm,
    ensures
        channel.armed() == channel,
        channel.driven(dir).enable,
        channel.driven(dir).pwm,
{
}

/// Asking for a direction fixes both phase lines by the table: high and low
/// for an effective forward, low and high for an effective backward, both low
/// for an effective stop. The two are never high together.
pub proof fn phases_follow_the_effective_direction(channel: Channel, dir: Direction)
    ensures
        channel.effective(dir) == Direction::Forward ==> channel.driven(dir).phase_a
            && !channel.driven(dir).phase_b,
        channel.effective(dir) == Direction::Backward ==> !channel.driven(dir).phase_a
            && channel.driven(dir).phase_b,
        channel.effective(dir) == Direction::Stopped ==> !channel.driven(dir).phase_a
            && !channel.driven(dir).phase_b,
        !(channel.driven(dir).phase_a && channel.driven(dir).phase_b),
{
}

/// A stop is a stop on either wiring: both phase lines are low.
pub proof fn stopped_ignores_the_wiring(channel: Channel)
    ensures
        !channel.driven(Direction::Stopped).phase_a,
        !channel.driven(Direction::Stopped).phase_b,
{
}

/// Asking for the same direction again changes nothing.
pub proof fn same_direction_again_changes_nothing(channel: Channel, dir: Direction)
    ensures
        channel.driven(dir).driven(dir) == channel.driven(dir),
{
}

/// A later direction replaces an earlier one: nothing of the earlier request
/// is left in the channel.
pub proof fn last_direction_wins(channel: Channel, earlier: Direction, later: Direction)
    ensures
        channel.driven(earlier).driven(later) == channel.driven(later),
{
}

/// Arming and directing do not touch each other's lines, so their order does
/// not matter.
pub proof fn arming_and_directing_commute(channel: Channel, dir: Direction)
    ensures
        channel.armed().driven(dir) == channel.driven(dir).armed(),
        channel.driven(dir).enable == channel.enable,
        channel.driven(dir).pwm == channel.pwm,
        channel.armed().phase_a == channel.phase_a,
        channel.armed().phase_b == channel.phase_b,
{
}

/// A motor channel that can be armed and given a direction.
pub trait Drive {
    /// The electrical state of the channel.
    spec fn channel(&self) -> Channel;

    /// Arms the channel: enable and PWM lines go high.
    fn enable(&mut self)
        ensures
            final(self).channel() == old(self).channel().armed(),
    ;

    /// Sets the phase lines for `dir`, corrected for the wiring.
    fn set_direction(&mut self, dir: Direction)
        ensures
            final(self).channel() == old(self).channel().driven(dir),
    ;
}

/// A motor channel that owns its four output lines.
pub struct Motor<PinA, PinB, PinEn, PinPwm> {
    pub pin_a: PinA,
    pub pin_b: PinB,
    pub pin_en: PinEn,
    pub pin_pwm: PinPwm,
    pub invert: bool,
}

impl<PinA, PinB, PinEn, PinPwm> Drive for Motor<PinA, PinB, PinEn, PinPwm>
where
    PinA: OutputLine,
    PinB: OutputLine,
    PinEn: OutputLine,
    PinPwm: OutputLine,
{
    open spec fn channel(&self) -> Channel {
        Channel {
            phase_a: self.pin_a.is_high(),
            phase_b: self.pin_b.is_high(),
            enable: self.pin_en.is_high(),
            pwm: self.pin_pwm.is_high(),
            invert: self.invert,
        }
    }

    /// Writes high to the enable line, then to the PWM line, and leaves the
    /// phase lines alone.
    fn enable(&mut self)
        ensures
            final(self).pin_a == old(self).pin_a,
            final(self).pin_b == old(self).pin_b,
    {
        self.pin_en.set_high();
        self.pin_pwm.set_high();
    }

    /// Writes phase A, then phase B, and leaves the enable and PWM lines
    /// alone.
    fn set_direction(&mut self, dir: Direction)
        ensures
            final(self).pin_en == old(self).pin_en,
            final(self).pin_pwm == old(self).pin_pwm,
    {
        let dir = if self.invert {
            dir.invert()
        } else {
            dir
        };
        match dir {
            Direction::Forward => {
                self.pin_a.set_high();
                self.pin_b.set_low();
            },
            Direction::Backward => {
                self.pin_a.set_low();
                self.pin_b.set_high();
            },
            Direction::Stopped => {
                self.pin_a.set_low();
                self.pin_b.set_low();
            },
        }
    }
}

} // verus!
