//! The audio unit: two pulse voices, a triangle, a noise generator and the
//! delta-modulation channel, each an integer state machine, clocked by a
//! frame sequencer in a 4-step or 5-step schedule. Sample synthesis (the
//! nonlinear DAC tables and the analog filter chain) is floating-point and
//! lives with the presentation layer; this module exposes each channel's
//! digital output level instead.

use vstd::prelude::*;

use crate::mem::Memory;

verus! {

/// The fixed length-counter load table, indexed by the top five bits of a
/// timer-high or length register write.
pub open spec fn spec_length_table(i: u8) -> u8 {
    if i == 0 {
        10
    } else if i == 1 {
        254
    } else if i == 2 {
        20
    } else if i == 3 {
        2
    } else if i == 4 {
        40
    } else if i == 5 {
        4
    } else if i == 6 {
        80
    } else if i == 7 {
        6
    } else if i == 8 {
        160
    } else if i == 9 {
        8
    } else if i == 10 {
        60
    } else if i == 11 {
        10
    } else if i == 12 {
        14
    } else if i == 13 {
        12
    } else if i == 14 {
        26
    } else if i == 15 {
        14
    } else if i == 16 {
        12
    } else if i == 17 {
        16
    } else if i == 18 {
        24
    } else if i == 19 {
        18
    } else if i == 20 {
        48
    } else if i == 21 {
        20
    } else if i == 22 {
        96
    } else if i == 23 {
        22
    } else if i == 24 {
        192
    } else if i == 25 {
        24
    } else if i == 26 {
        72
    } else if i == 27 {
        26
    } else if i == 28 {
        16
    } else if i == 29 {
        28
    } else if i == 30 {
        32
    } else {
        30
    }
}

fn length_table(i: u8) -> (r: u8)
    requires
        i < 32,
    ensures
        r == spec_length_table(i),
{
    let table: [u8; 32] = [
        10,
        254,
        20,
        2,
        40,
        4,
        80,
        6,
        160,
        8,
        60,
        10,
        14,
        12,
        26,
        14,
        12,
        16,
        24,
        18,
        48,
        20,
        96,
        22,
        192,
        24,
        72,
        26,
        16,
        28,
        32,
        30,
    ];
    table[i as usize]
}

/// One pulse voice: duty sequencer, volume envelope, frequency sweep,
/// length counter and timer.
#[derive(Clone, Copy)]
pub struct SquareWave {
    pub enabled: bool,
    pub channel: u8,
    pub length_enabled: bool,
    pub length_value: u8,
    pub timer_period: u16,
    pub timer_value: u16,
    pub duty_mode: u8,
    pub duty_value: u8,
    pub sweep_reload: bool,
    pub sweep_enabled: bool,
    pub sweep_negate: bool,
    pub sweep_shift: u8,
    pub sweep_period: u8,
    pub sweep_value: u8,
    pub envelope_enabled: bool,
    pub envelope_loop: bool,
    pub envelope_start: bool,
    pub envelope_period: u8,
    pub envelope_value: u8,
    pub envelope_volume: u8,
    pub constant_volume: u8,
}

pub open spec fn spec_square_new(channel: u8) -> SquareWave {
    SquareWave {
        enabled: false,
        channel: channel,
        length_enabled: false,
        length_value: 0,
        timer_period: 0,
        timer_value: 0,
        duty_mode: 0,
        duty_value: 0,
        sweep_reload: false,
        sweep_enabled: false,
        sweep_negate: false,
        sweep_shift: 0,
        sweep_period: 0,
        sweep_value: 0,
        envelope_enabled: false,
        envelope_loop: false,
        envelope_start: false,
        envelope_period: 0,
        envelope_value: 0,
        envelope_volume: 0,
        constant_volume: 0,
    }
}

/// Control write: duty in the top two bits, length-counter halt in bit 5
/// (doubling as the envelope loop), constant-volume select in bit 4, and
/// the four volume/period bits; the envelope restarts.
pub open spec fn spec_sq_write_control(q: SquareWave, val: u8) -> SquareWave {
    SquareWave {
        duty_mode: (val as int / 64) as u8,
        length_enabled: (val as int / 32) % 2 == 0,
        envelope_loop: (val as int / 32) % 2 == 1,
        envelope_enabled: (val as int / 16) % 2 == 0,
        envelope_period: (val as int % 16) as u8,
        constant_volume: (val as int % 16) as u8,
        envelope_start: true,
        ..q
    }
}

/// Sweep write: enable, divider period, direction and shift; the sweep
/// divider reloads on the next clock.
pub open spec fn spec_sq_write_sweep(q: SquareWave, val: u8) -> SquareWave {
    SquareWave {
        sweep_enabled: (val as int / 128) % 2 == 1,
        sweep_period: ((val as int / 16) % 8 + 1) as u8,
        sweep_negate: (val as int / 8) % 2 == 1,
        sweep_shift: (val as int % 8) as u8,
        sweep_reload: true,
        ..q
    }
}

pub open spec fn spec_sq_write_timer_low(q: SquareWave, val: u8) -> SquareWave {
    SquareWave { timer_period: ((q.timer_period as int / 256) * 256 + val) as u16, ..q }
}

/// Timer-high write: the three period bits land above the low byte, the
/// length counter reloads from the fixed table indexed by the top five
/// bits, and duty sequencing restarts.
pub open spec fn spec_sq_write_timer_high(q: SquareWave, val: u8) -> SquareWave {
    SquareWave {
        timer_period: ((q.timer_period as int % 256) + 256 * (val as int % 8)) as u16,
        length_value: spec_length_table((val as int / 8) as u8),
        envelope_start: true,
        duty_value: 0,
        ..q
    }
}

/// Timer clock: on expiry the divider reloads and the duty sequencer
/// advances one of its eight steps.
pub open spec fn spec_sq_step_timer(q: SquareWave) -> SquareWave {
    if q.timer_value == 0 {
        SquareWave {
            timer_value: q.timer_period,
            duty_value: ((q.duty_value as int + 1) % 8) as u8,
            ..q
        }
    } else {
        SquareWave { timer_value: (q.timer_value - 1) as u16, ..q }
    }
}

/// Envelope clock: a restart loads full volume and the divider; otherwise
/// the divider counts down, and on expiry the volume decays, looping back
/// to full when the loop flag holds.
pub open spec fn spec_sq_step_envelope(q: SquareWave) -> SquareWave {
    if q.envelope_start {
        SquareWave {
            envelope_volume: 15,
            envelope_value: q.envelope_period,
            envelope_start: false,
            ..q
        }
    } else if q.envelope_value > 0 {
        SquareWave { envelope_value: (q.envelope_value - 1) as u8, ..q }
    } else if q.envelope_volume > 0 {
        SquareWave { envelope_value: q.envelope_period, envelope_volume: (q.envelope_volume
            - 1) as u8, ..q }
    } else if q.envelope_loop {
        SquareWave { envelope_value: q.envelope_period, envelope_volume: 15, ..q }
    } else {
        SquareWave { envelope_value: q.envelope_period, ..q }
    }
}

/// The sweep itself: the period moves by itself shifted right, downward
/// with negate (channel one undershoots by one more), upward otherwise,
/// with 16-bit wraparound.
pub open spec fn spec_sq_sweep(q: SquareWave) -> SquareWave {
    let delta = (q.timer_period >> ((q.sweep_shift % 16) as u16)) as u16;
    if q.sweep_negate {
        let down = if q.timer_period - delta >= 0 {
            (q.timer_period - delta) as u16
        } else {
            (q.timer_period - delta + 0x10000) as u16
        };
        if q.channel == 1 {
            if down >= 1 {
                SquareWave { timer_period: (down - 1) as u16, ..q }
            } else {
                SquareWave { timer_period: 0xffff, ..q }
            }
        } else {
            SquareWave { timer_period: down, ..q }
        }
    } else {
        let up = if q.timer_period + delta <= 0xffff {
            (q.timer_period + delta) as u16
        } else {
            (q.timer_period + delta - 0x10000) as u16
        };
        SquareWave { timer_period: up, ..q }
    }
}

/// Sweep clock: a pending reload restarts the divider (sweeping once if
/// enabled with an expired divider); otherwise the divider counts down and
/// sweeps on expiry when enabled.
pub open spec fn spec_sq_step_sweep(q: SquareWave) -> SquareWave {
    if q.sweep_reload {
        let q2 = if q.sweep_enabled && q.sweep_value == 0 {
            spec_sq_sweep(q)
        } else {
            q
        };
        SquareWave { sweep_value: q2.sweep_period, sweep_reload: false, ..q2 }
    } else if q.sweep_value > 0 {
        SquareWave { sweep_value: (q.sweep_value - 1) as u8, ..q }
    } else {
        let q2 = if q.sweep_enabled {
            spec_sq_sweep(q)
        } else {
            q
        };
        SquareWave { sweep_value: q2.sweep_period, ..q2 }
    }
}

/// Length clock: the counter decays toward silence unless halted.
pub open spec fn spec_sq_step_length(q: SquareWave) -> SquareWave {
    if q.length_enabled && q.length_value > 0 {
        SquareWave { length_value: (q.length_value - 1) as u8, ..q }
    } else {
        q
    }
}

/// The eight-step duty waveforms, one bit per step.
pub open spec fn spec_duty_bit(mode: u8, step: u8) -> u8 {
    if mode == 0 {
        if step == 1 {
            1
        } else {
            0
        }
    } else if mode == 1 {
        if step == 1 || step == 2 {
            1
        } else {
            0
        }
    } else if mode == 2 {
        if 1 <= step && step <= 4 {
            1
        } else {
            0
        }
    } else {
        if step == 1 || step == 2 {
            0
        } else {
            1
        }
    }
}

/// Digital output of a pulse voice: silent when disabled, out of length,
/// with an out-of-range period or a low duty bit; otherwise the constant
/// volume or the envelope's decaying volume.
pub open spec fn spec_sq_signal(q: SquareWave) -> u8 {
    if !q.enabled {
        0
    } else if q.length_value == 0 {
        0
    } else if q.timer_period < 8 || q.timer_period > 0x7ff {
        0
    } else if spec_duty_bit((q.duty_mode as int % 4) as u8, (q.duty_value as int % 8) as u8)
        == 0 {
        0
    } else if !q.envelope_enabled {
        (q.constant_volume % 16) as u8
    } else {
        (q.envelope_volume % 16) as u8
    }
}

impl SquareWave {
    pub fn new_square_wave(channel: u8) -> (r: SquareWave)
        ensures
            r == spec_square_new(channel),
    {
        SquareWave {
            enabled: false,
            channel: channel,
            length_enabled: false,
            length_value: 0,
            timer_period: 0,
            timer_value: 0,
            duty_mode: 0,
            duty_value: 0,
            sweep_reload: false,
            sweep_enabled: false,
            sweep_negate: false,
            sweep_shift: 0,
            sweep_period: 0,
            sweep_value: 0,
            envelope_enabled: false,
            envelope_loop: false,
            envelope_start: false,
            envelope_period: 0,
            envelope_value: 0,
            envelope_volume: 0,
            constant_volume: 0,
        }
    }

    pub fn reset(&mut self)
        ensures
            *final(self) == spec_square_new(old(self).channel),
    {
        let channel = self.channel;
        *self = SquareWave::new_square_wave(channel);
    }

    pub fn write_control(&mut self, val: u8)
        ensures
            *final(self) == spec_sq_write_control(*old(self), val),
    {
        self.duty_mode = val / 64;
        self.length_enabled = (val / 32) % 2 == 0;
        self.envelope_loop = (val / 32) % 2 == 1;
        self.envelope_enabled = (val / 16) % 2 == 0;
        self.envelope_period = val % 16;
        self.constant_volume = val % 16;
        self.envelope_start = true;
    }

    pub fn write_sweep(&mut self, val: u8)
        ensures
            *final(self) == spec_sq_write_sweep(*old(self), val),
    {
        self.sweep_enabled = (val / 128) % 2 == 1;
        self.sweep_period = (val / 16) % 8 + 1;
        self.sweep_negate = (val / 8) % 2 == 1;
        self.sweep_shift = val % 8;
        self.sweep_reload = true;
    }

    pub fn write_timer_low(&mut self, val: u8)
        ensures
            *final(self) == spec_sq_write_timer_low(*old(self), val),
    {
        self.timer_period = (self.timer_period / 256) * 256 + val as u16;
    }

    pub fn write_timer_high(&mut self, val: u8)
        ensures
            *final(self) == spec_sq_write_timer_high(*old(self), val),
    {
        self.timer_period = self.timer_period % 256 + 256 * (val as u16 % 8);
        self.length_value = length_table(val / 8);
        self.envelope_start = true;
        self.duty_value = 0;
    }

    pub fn step_timer(&mut self)
        ensures
            *final(self) == spec_sq_step_timer(*old(self)),
    {
        if self.timer_value == 0 {
            self.timer_value = self.timer_period;
            self.duty_value = ((self.duty_value as u16 + 1) % 8) as u8;
        } else {
            self.timer_value = self.timer_value - 1;
        }
    }

    pub fn step_envelope(&mut self)
        ensures
            *final(self) == spec_sq_step_envelope(*old(self)),
    {
        if self.envelope_start {
            self.envelope_volume = 15;
            self.envelope_value = self.envelope_period;
            self.envelope_start = false;
        } else if self.envelope_value > 0 {
            self.envelope_value = self.envelope_value - 1;
        } else {
            if self.envelope_volume > 0 {
                self.envelope_volume = self.envelope_volume - 1;
            } else if self.envelope_loop {
                self.envelope_volume = 15;
            }
            self.envelope_value = self.envelope_period;
        }
    }

    pub fn step_sweep(&mut self)
        ensures
            *final(self) == spec_sq_step_sweep(*old(self)),
    {
        if self.sweep_reload {
            if self.sweep_enabled && self.sweep_value == 0 {
                self.sweep();
            }
            self.sweep_value = self.sweep_period;
            self.sweep_reload = false;
        } else if self.sweep_value > 0 {
            self.sweep_value = self.sweep_value - 1;
        } else {
            if self.sweep_enabled {
                self.sweep();
            }
            self.sweep_value = self.sweep_period;
        }
    }

    fn sweep(&mut self)
        ensures
            *final(self) == spec_sq_sweep(*old(self)),
    {
        let delta = self.timer_period >> ((self.sweep_shift % 16) as u16);
        if self.sweep_negate {
            let down = self.timer_period.wrapping_sub(delta);
            self.timer_period = if self.channel == 1 {
                down.wrapping_sub(1)
            } else {
                down
            };
        } else {
            self.timer_period = self.timer_period.wrapping_add(delta);
        }
    }

    pub fn step_length(&mut self)
        ensures
            *final(self) == spec_sq_step_length(*old(self)),
    {
        if self.length_enabled && self.length_value > 0 {
            self.length_value = self.length_value - 1;
        }
    }

    /// Digital output level, 0 to 15.
    pub fn signal(&self) -> (r: u8)
        ensures
            r == spec_sq_signal(*self),
            r <= 15,
    {
        if !self.enabled {
            0
        } else if self.length_value == 0 {
            0
        } else if self.timer_period < 8 || self.timer_period > 0x7ff {
            0
        } else {
            let mode = self.duty_mode % 4;
            let step = self.duty_value % 8;
            let bit: u8 = if mode == 0 {
                if step == 1 {
                    1
                } else {
                    0
                }
            } else if mode == 1 {
                if step == 1 || step == 2 {
                    1
                } else {
                    0
                }
            } else if mode == 2 {
                if 1 <= step && step <= 4 {
                    1
                } else {
                    0
                }
            } else {
                if step == 1 || step == 2 {
                    0
                } else {
                    1
                }
            };
            if bit == 0 {
                0
            } else if !self.envelope_enabled {
                self.constant_volume % 16
            } else {
                self.envelope_volume % 16
            }
        }
    }
}

/// The triangle voice: a 32-step waveform sequencer gated by both the
/// length counter and a linear counter, with a timer that runs at the full
/// CPU rate.
#[derive(Clone, Copy)]
pub struct TriangleWave {
    pub enabled: bool,
    pub length_enabled: bool,
    pub length_value: u8,
    pub timer_period: u16,
    pub timer_value: u16,
    pub duty_value: u8,
    pub counter_period: u8,
    pub counter_value: u8,
    pub counter_reload: bool,
}

pub open spec fn spec_tri_new() -> TriangleWave {
    TriangleWave {
        enabled: false,
        length_enabled: false,
        length_value: 0,
        timer_period: 0,
        timer_value: 0,
        duty_value: 0,
        counter_period: 0,
        counter_reload: false,
        counter_value: 0,
    }
}

/// Control write: length halt in the top bit, the linear counter's reload
/// value in the rest.
pub open spec fn spec_tri_write_control(t: TriangleWave, val: u8) -> TriangleWave {
    TriangleWave {
        length_enabled: (val as int / 128) % 2 == 0,
        counter_period: (val as int % 128) as u8,
        ..t
    }
}

pub open spec fn spec_tri_write_timer_low(t: TriangleWave, val: u8) -> TriangleWave {
    TriangleWave { timer_period: ((t.timer_period as int / 256) * 256 + val) as u16, ..t }
}

pub open spec fn spec_tri_write_timer_high(t: TriangleWave, val: u8) -> TriangleWave {
    TriangleWave {
        timer_period: ((t.timer_period as int % 256) + 256 * (val as int % 8)) as u16,
        length_value: spec_length_table((val as int / 8) as u8),
        timer_value: ((t.timer_period as int % 256) + 256 * (val as int % 8)) as u16,
        counter_reload: true,
        ..t
    }
}

/// Timer clock: the waveform only advances while both counters are alive.
pub open spec fn spec_tri_step_timer(t: TriangleWave) -> TriangleWave {
    if t.timer_value == 0 {
        if t.length_value > 0 && t.counter_value > 0 {
            TriangleWave {
                timer_value: t.timer_period,
                duty_value: ((t.duty_value as int + 1) % 32) as u8,
                ..t
            }
        } else {
            TriangleWave { timer_value: t.timer_period, ..t }
        }
    } else {
        TriangleWave { timer_value: (t.timer_value - 1) as u16, ..t }
    }
}

/// Linear-counter clock: a pending reload restores the full count,
/// otherwise the count decays; the reload flag sticks while the length
/// counter is halted.
pub open spec fn spec_tri_step_counter(t: TriangleWave) -> TriangleWave {
    let t2 = if t.counter_reload {
        TriangleWave { counter_value: t.counter_period, ..t }
    } else if t.counter_value > 0 {
        TriangleWave { counter_value: (t.counter_value - 1) as u8, ..t }
    } else {
        t
    };
    if t2.length_enabled {
        TriangleWave { counter_reload: false, ..t2 }
    } else {
        t2
    }
}

pub open spec fn spec_tri_step_length(t: TriangleWave) -> TriangleWave {
    if t.length_enabled && t.length_value > 0 {
        TriangleWave { length_value: (t.length_value - 1) as u8, ..t }
    } else {
        t
    }
}

/// The 32-step triangle waveform: down from 15 to 0, then back up.
pub open spec fn spec_tri_wave(step: int) -> u8 {
    if step < 16 {
        (15 - step) as u8
    } else {
        (step - 16) as u8
    }
}

pub open spec fn spec_tri_signal(t: TriangleWave) -> u8 {
    if !t.enabled {
        0
    } else if t.length_value == 0 {
        0
    } else if t.counter_value == 0 {
        0
    } else {
        spec_tri_wave(t.duty_value as int % 32)
    }
}

impl TriangleWave {
    pub fn new_triangle_wave() -> (r: TriangleWave)
        ensures
            r == spec_tri_new(),
    {
        TriangleWave {
            enabled: false,
            length_enabled: false,
            length_value: 0,
            timer_period: 0,
            timer_value: 0,
            duty_value: 0,
            counter_period: 0,
            counter_reload: false,
            counter_value: 0,
        }
    }

    pub fn reset(&mut self)
        ensures
            *final(self) == spec_tri_new(),
    {
        *self = TriangleWave::new_triangle_wave();
    }

    pub fn write_control(&mut self, val: u8)
        ensures
            *final(self) == spec_tri_write_control(*old(self), val),
    {
        self.length_enabled = (val / 128) % 2 == 0;
        self.counter_period = val % 128;
    }

    pub fn write_timer_low(&mut self, val: u8)
        ensures
            *final(self) == spec_tri_write_timer_low(*old(self), val),
    {
        self.timer_period = (self.timer_period / 256) * 256 + val as u16;
    }

    pub fn write_timer_high(&mut self, val: u8)
        ensures
            *final(self) == spec_tri_write_timer_high(*old(self), val),
    {
        self.timer_period = self.timer_period % 256 + 256 * (val as u16 % 8);
        self.length_value = length_table(val / 8);
        self.timer_value = self.timer_period;
        self.counter_reload = true;
    }

    pub fn step_timer(&mut self)
        ensures
            *final(self) == spec_tri_step_timer(*old(self)),
    {
        if self.timer_value == 0 {
            self.timer_value = self.timer_period;
            if self.length_value > 0 && self.counter_value > 0 {
                self.duty_value = ((self.duty_value as u16 + 1) % 32) as u8;
            }
        } else {
            self.timer_value = self.timer_value - 1;
        }
    }

    pub fn step_counter(&mut self)
        ensures
            *final(self) == spec_tri_step_counter(*old(self)),
    {
        if self.counter_reload {
            self.counter_value = self.counter_period;
        } else if self.counter_value > 0 {
            self.counter_value = self.counter_value - 1;
        }
        if self.length_enabled {
            self.counter_reload = false;
        }
    }

    pub fn step_length(&mut self)
        ensures
            *final(self) == spec_tri_step_length(*old(self)),
    {
        if self.length_enabled && self.length_value > 0 {
            self.length_value = self.length_value - 1;
        }
    }

    /// Digital output level, 0 to 15.
    pub fn signal(&self) -> (r: u8)
        ensures
            r == spec_tri_signal(*self),
            r <= 15,
    {
        if !self.enabled {
            0
        } else if self.length_value == 0 {
            0
        } else if self.counter_value == 0 {
            0
        } else {
            let step = self.duty_value % 32;
            if step < 16 {
                15 - step
            } else {
                step - 16
            }
        }
    }
}

/// Timer periods of the noise generator's sixteen selectable rates.
pub open spec fn spec_noise_period(i: u8) -> u16 {
    if i == 0 {
        4
    } else if i == 1 {
        8
    } else if i == 2 {
        16
    } else if i == 3 {
        32
    } else if i == 4 {
        64
    } else if i == 5 {
        96
    } else if i == 6 {
        128
    } else if i == 7 {
        160
    } else if i == 8 {
        202
    } else if i == 9 {
        254
    } else if i == 10 {
        380
    } else if i == 11 {
        508
    } else if i == 12 {
        762
    } else if i == 13 {
        1016
    } else if i == 14 {
        2034
    } else {
        4068
    }
}

fn noise_period(i: u8) -> (r: u16)
    requires
        i < 16,
    ensures
        r == spec_noise_period(i),
{
    let table: [u16; 16] = [
        4,
        8,
        16,
        32,
        64,
        96,
        128,
        160,
        202,
        254,
        380,
        508,
        762,
        1016,
        2034,
        4068,
    ];
    table[i as usize]
}

/// The noise voice: a 15-bit feedback shift register with two tap modes,
/// gated by an envelope and a length counter.
#[derive(Clone, Copy)]
pub struct Noise {
    pub enabled: bool,
    pub mode: bool,
    pub shift_register: u16,
    pub length_enabled: bool,
    pub length_value: u8,
    pub timer_period: u16,
    pub timer_value: u16,
    pub envelope_enabled: bool,
    pub envelope_loop: bool,
    pub envelope_start: bool,
    pub envelope_period: u8,
    pub envelope_value: u8,
    pub envelope_volume: u8,
    pub constant_volume: u8,
}

pub open spec fn spec_noise_new() -> Noise {
    Noise {
        enabled: false,
        mode: false,
        shift_register: 1,
        length_enabled: false,
        length_value: 0,
        timer_period: 0,
        timer_value: 0,
        envelope_enabled: false,
        envelope_loop: false,
        envelope_start: false,
        envelope_period: 0,
        envelope_value: 0,
        envelope_volume: 0,
        constant_volume: 0,
    }
}

pub open spec fn spec_noise_write_control(n: Noise, val: u8) -> Noise {
    Noise {
        length_enabled: (val as int / 32) % 2 == 0,
        envelope_loop: (val as int / 32) % 2 == 1,
        envelope_enabled: (val as int / 16) % 2 == 0,
        envelope_period: (val as int % 16) as u8,
        constant_volume: (val as int % 16) as u8,
        envelope_start: true,
        ..n
    }
}

/// Mode write: tap selection in the top bit, timer rate from the fixed
/// period table in the low four bits.
pub open spec fn spec_noise_write_mode(n: Noise, val: u8) -> Noise {
    Noise {
        mode: (val as int / 128) % 2 == 1,
        timer_period: spec_noise_period((val as int % 16) as u8),
        ..n
    }
}

pub open spec fn spec_noise_write_length_index(n: Noise, val: u8) -> Noise {
    Noise {
        length_value: spec_length_table((val as int / 8) as u8),
        envelope_start: true,
        ..n
    }
}

/// Timer clock: on expiry the register shifts, feeding back the low bit
/// xored with tap bit 6 (tone mode) or bit 1 (noise mode) into bit 14.
pub open spec fn spec_noise_step_timer(n: Noise) -> Noise {
    if n.timer_value == 0 {
        let tap = if n.mode {
            (n.shift_register as int / 64) % 2
        } else {
            (n.shift_register as int / 2) % 2
        };
        let feedback = if n.shift_register as int % 2 == tap {
            0int
        } else {
            1int
        };
        Noise {
            timer_value: n.timer_period,
            shift_register: (n.shift_register as int / 2 + feedback * 0x4000) as u16,
            ..n
        }
    } else {
        Noise { timer_value: (n.timer_value - 1) as u16, ..n }
    }
}

pub open spec fn spec_noise_step_envelope(n: Noise) -> Noise {
    if n.envelope_start {
        Noise { envelope_volume: 15, envelope_value: n.envelope_period, envelope_start: false, ..n }
    } else if n.envelope_value > 0 {
        Noise { envelope_value: (n.envelope_value - 1) as u8, ..n }
    } else if n.envelope_volume > 0 {
        Noise { envelope_value: n.envelope_period, envelope_volume: (n.envelope_volume - 1) as u8, ..n }
    } else if n.envelope_loop {
        Noise { envelope_value: n.envelope_period, envelope_volume: 15, ..n }
    } else {
        Noise { envelope_value: n.envelope_period, ..n }
    }
}

pub open spec fn spec_noise_step_length(n: Noise) -> Noise {
    if n.length_enabled && n.length_value > 0 {
        Noise { length_value: (n.length_value - 1) as u8, ..n }
    } else {
        n
    }
}

pub open spec fn spec_noise_signal(n: Noise) -> u8 {
    if !n.enabled {
        0
    } else if n.length_value == 0 {
        0
    } else if n.shift_register as int % 2 == 1 {
        0
    } else if !n.envelope_enabled {
        (n.constant_volume % 16) as u8
    } else {
        (n.envelope_volume % 16) as u8
    }
}

impl Noise {
    pub fn new_noise_channel() -> (r: Noise)
        ensures
            r == spec_noise_new(),
    {
        Noise {
            enabled: false,
            mode: false,
            shift_register: 1,
            length_enabled: false,
            length_value: 0,
            timer_period: 0,
            timer_value: 0,
            envelope_enabled: false,
            envelope_loop: false,
            envelope_start: false,
            envelope_period: 0,
            envelope_value: 0,
            envelope_volume: 0,
            constant_volume: 0,
        }
    }

    pub fn reset(&mut self)
        ensures
            *final(self) == spec_noise_new(),
    {
        *self = Noise::new_noise_channel();
    }

    pub fn write_control(&mut self, val: u8)
        ensures
            *final(self) == spec_noise_write_control(*old(self), val),
    {
        self.length_enabled = (val / 32) % 2 == 0;
        self.envelope_loop = (val / 32) % 2 == 1;
        self.envelope_enabled = (val / 16) % 2 == 0;
        self.envelope_period = val % 16;
        self.constant_volume = val % 16;
        self.envelope_start = true;
    }

    pub fn write_mode(&mut self, val: u8)
        ensures
            *final(self) == spec_noise_write_mode(*old(self), val),
    {
        self.mode = (val / 128) % 2 == 1;
        self.timer_period = noise_period(val % 16);
    }

    pub fn write_length_index(&mut self, val: u8)
        ensures
            *final(self) == spec_noise_write_length_index(*old(self), val),
    {
        self.length_value = length_table(val / 8);
        self.envelope_start = true;
    }

    pub fn step_timer(&mut self)
        ensures
            *final(self) == spec_noise_step_timer(*old(self)),
    {
        if self.timer_value == 0 {
            self.timer_value = self.timer_period;
            let tap = if self.mode {
                (self.shift_register / 64) % 2
            } else {
                (self.shift_register / 2) % 2
            };
            let feedback: u16 = if self.shift_register % 2 == tap {
                0
            } else {
                1
            };
            self.shift_register = self.shift_register / 2 + feedback * 0x4000;
        } else {
            self.timer_value = self.timer_value - 1;
        }
    }

    pub fn step_envelope(&mut self)
        ensures
            *final(self) == spec_noise_step_envelope(*old(self)),
    {
        if self.envelope_start {
            self.envelope_volume = 15;
            self.envelope_value = self.envelope_period;
            self.envelope_start = false;
        } else if self.envelope_value > 0 {
            self.envelope_value = self.envelope_value - 1;
        } else {
            if self.envelope_volume > 0 {
                self.envelope_volume = self.envelope_volume - 1;
            } else if self.envelope_loop {
                self.envelope_volume = 15;
            }
            self.envelope_value = self.envelope_period;
        }
    }

    pub fn step_length(&mut self)
        ensures
            *final(self) == spec_noise_step_length(*old(self)),
    {
        if self.length_enabled && self.length_value > 0 {
            self.length_value = self.length_value - 1;
        }
    }

    /// Digital output level, 0 to 15.
    pub fn signal(&self) -> (r: u8)
        ensures
            r == spec_noise_signal(*self),
            r <= 15,
    {
        if !self.enabled {
            0
        } else if self.length_value == 0 {
            0
        } else if self.shift_register % 2 == 1 {
            0
        } else if !self.envelope_enabled {
            self.constant_volume % 16
        } else {
            self.envelope_volume % 16
        }
    }
}

/// Timer periods of the delta-modulation channel's sixteen rates.
pub open spec fn spec_dmc_period(i: u8) -> u16 {
    if i == 0 {
        428
    } else if i == 1 {
        380
    } else if i == 2 {
        340
    } else if i == 3 {
        320
    } else if i == 4 {
        286
    } else if i == 5 {
        254
    } else if i == 6 {
        226
    } else if i == 7 {
        214
    } else if i == 8 {
        190
    } else if i == 9 {
        160
    } else if i == 10 {
        142
    } else if i == 11 {
        128
    } else if i == 12 {
        106
    } else if i == 13 {
        84
    } else if i == 14 {
        72
    } else {
        54
    }
}

fn dmc_period(i: u8) -> (r: u16)
    requires
        i < 16,
    ensures
        r == spec_dmc_period(i),
{
    let table: [u16; 16] = [
        428,
        380,
        340,
        320,
        286,
        254,
        226,
        214,
        190,
        160,
        142,
        128,
        106,
        84,
        72,
        54,
    ];
    table[i as usize]
}

/// The delta-modulation channel's register state: sample address and
/// length, the 7-bit output accumulator, and the one-byte sample buffer.
/// Sample playback itself needs bus fetches and is driven from outside.
#[derive(Clone, Copy)]
pub struct DMC {
    pub enabled: bool,
    pub irq: bool,
    pub loop_flag: bool,
    pub tick_period: u16,
    pub value: u8,
    pub sample_address: u16,
    pub sample_length: u16,
    pub buffer: u8,
}

pub open spec fn spec_dmc_new() -> DMC {
    DMC {
        enabled: false,
        irq: false,
        loop_flag: false,
        tick_period: 0,
        value: 0,
        sample_address: 0,
        sample_length: 0,
        buffer: 0,
    }
}

pub open spec fn spec_dmc_write_control(d: DMC, val: u8) -> DMC {
    DMC {
        irq: (val as int / 128) % 2 == 1,
        loop_flag: (val as int / 64) % 2 == 1,
        tick_period: spec_dmc_period((val as int % 16) as u8),
        ..d
    }
}

pub open spec fn spec_dmc_write_dac(d: DMC, val: u8) -> DMC {
    DMC { value: (val as int % 128) as u8, ..d }
}

/// Sample start address: 0xC000 plus 64 bytes per unit.
pub open spec fn spec_dmc_write_address(d: DMC, val: u8) -> DMC {
    DMC { sample_address: (0xC000 + val as int * 64) as u16, ..d }
}

/// Sample length: 16 bytes per unit, plus one.
pub open spec fn spec_dmc_write_length(d: DMC, val: u8) -> DMC {
    DMC { sample_length: (val as int * 16 + 1) as u16, ..d }
}

pub open spec fn spec_dmc_signal(d: DMC) -> u8 {
    (d.value % 128) as u8
}

impl DMC {
    pub fn new_dmc_channel() -> (r: DMC)
        ensures
            r == spec_dmc_new(),
    {
        DMC {
            enabled: false,
            irq: false,
            loop_flag: false,
            tick_period: 0,
            value: 0,
            sample_address: 0,
            sample_length: 0,
            buffer: 0,
        }
    }

    pub fn reset(&mut self)
        ensures
            *final(self) == spec_dmc_new(),
    {
        *self = DMC::new_dmc_channel();
    }

    pub fn write_control(&mut self, val: u8)
        ensures
            *final(self) == spec_dmc_write_control(*old(self), val),
    {
        self.irq = (val / 128) % 2 == 1;
        self.loop_flag = (val / 64) % 2 == 1;
        self.tick_period = dmc_period(val % 16);
    }

    pub fn write_dac(&mut self, val: u8)
        ensures
            *final(self) == spec_dmc_write_dac(*old(self), val),
    {
        self.value = val % 128;
    }

    pub fn write_address(&mut self, val: u8)
        ensures
            *final(self) == spec_dmc_write_address(*old(self), val),
    {
        self.sample_address = 0xC000 + (val as u16) * 64;
    }

    pub fn write_length(&mut self, val: u8)
        ensures
            *final(self) == spec_dmc_write_length(*old(self), val),
    {
        self.sample_length = (val as u16) * 16 + 1;
    }

    /// Digital output level, 0 to 127.
    pub fn signal(&self) -> (r: u8)
        ensures
            r == spec_dmc_signal(*self),
            r <= 127,
    {
        self.value % 128
    }
}

/// The frame sequencer's two selectable schedules.
#[derive(Clone, Copy, Debug, PartialEq, Eq, Structural)]
pub enum SequencerMode {
    FourStep,
    FiveStep,
}

/// What one audio step reports back to the driver: whether the frame
/// sequencer raised the interrupt line, and whether an output sample is due
/// (the driver synthesizes it from the channels' digital outputs).
pub struct StepResult {
    pub trigger_irq: bool,
    pub sample_due: bool,
}

/// The audio unit: five voices, the cycle counter, and the frame sequencer
/// with its mode, position and interrupt-enable flag.
pub struct APU {
    pub square1: SquareWave,
    pub square2: SquareWave,
    pub triangle: TriangleWave,
    pub noise: Noise,
    pub dmc: DMC,
    pub cycles: u64,
    pub frame_mode: SequencerMode,
    pub frame_value: u8,
    pub irq: bool,
}

/// One envelope clock: both pulse envelopes, the triangle's linear counter
/// and the noise envelope.
pub open spec fn spec_apu_step_envelopes(a: APU) -> APU {
    APU {
        square1: spec_sq_step_envelope(a.square1),
        square2: spec_sq_step_envelope(a.square2),
        triangle: spec_tri_step_counter(a.triangle),
        noise: spec_noise_step_envelope(a.noise),
        ..a
    }
}

/// One sweep clock of both pulse voices.
pub open spec fn spec_apu_step_sweeps(a: APU) -> APU {
    APU { square1: spec_sq_step_sweep(a.square1), square2: spec_sq_step_sweep(a.square2), ..a }
}

/// One length clock of the four length-counted voices.
pub open spec fn spec_apu_step_lengths(a: APU) -> APU {
    APU {
        square1: spec_sq_step_length(a.square1),
        square2: spec_sq_step_length(a.square2),
        triangle: spec_tri_step_length(a.triangle),
        noise: spec_noise_step_length(a.noise),
        ..a
    }
}

/// One timer clock: the triangle runs every CPU cycle, the other voices
/// every other cycle.
pub open spec fn spec_apu_step_timers(a: APU) -> APU {
    let a1 = APU { triangle: spec_tri_step_timer(a.triangle), ..a };
    if a.cycles % 2 == 0 {
        APU {
            square1: spec_sq_step_timer(a1.square1),
            square2: spec_sq_step_timer(a1.square2),
            noise: spec_noise_step_timer(a1.noise),
            ..a1
        }
    } else {
        a1
    }
}

/// One frame-sequencer clock. In 5-step mode the position cycles through
/// five slots, clocking envelopes on the first four and sweeps and lengths
/// on two of them, never raising an interrupt. In 4-step mode the position
/// cycles through four slots, and the last one raises the interrupt flag
/// exactly when interrupts are enabled.
pub open spec fn spec_apu_step_frame(a: APU) -> (APU, bool) {
    match a.frame_mode {
        SequencerMode::FiveStep => {
            let fv = ((a.frame_value as int + 1) % 5) as u8;
            let a1 = APU { frame_value: fv, ..a };
            if fv == 0 || fv == 2 {
                (
                    spec_apu_step_lengths(spec_apu_step_sweeps(spec_apu_step_envelopes(a1))),
                    false,
                )
            } else if fv == 1 || fv == 3 {
                (spec_apu_step_envelopes(a1), false)
            } else {
                (a1, false)
            }
        },
        SequencerMode::FourStep => {
            let fv = ((a.frame_value as int + 1) % 4) as u8;
            let a1 = APU { frame_value: fv, ..a };
            if fv == 0 || fv == 2 {
                (spec_apu_step_envelopes(a1), false)
            } else if fv == 1 {
                (
                    spec_apu_step_lengths(spec_apu_step_sweeps(spec_apu_step_envelopes(a1))),
                    false,
                )
            } else {
                (
                    spec_apu_step_lengths(spec_apu_step_sweeps(spec_apu_step_envelopes(a1))),
                    a.irq,
                )
            }
        },
    }
}

/// Channel enable write: bits 0 through 4 enable the five voices, and a
/// disabled voice's length counter is cleared at once.
pub open spec fn spec_apu_write_control(a: APU, val: u8) -> APU {
    let e1 = val as int % 2 == 1;
    let e2 = (val as int / 2) % 2 == 1;
    let e3 = (val as int / 4) % 2 == 1;
    let e4 = (val as int / 8) % 2 == 1;
    let e5 = (val as int / 16) % 2 == 1;
    APU {
        square1: SquareWave {
            enabled: e1,
            length_value: if e1 {
                a.square1.length_value
            } else {
                0
            },
            ..a.square1
        },
        square2: SquareWave {
            enabled: e2,
            length_value: if e2 {
                a.square2.length_value
            } else {
                0
            },
            ..a.square2
        },
        triangle: TriangleWave {
            enabled: e3,
            length_value: if e3 {
                a.triangle.length_value
            } else {
                0
            },
            ..a.triangle
        },
        noise: Noise {
            enabled: e4,
            length_value: if e4 {
                a.noise.length_value
            } else {
                0
            },
            ..a.noise
        },
        dmc: DMC { enabled: e5, ..a.dmc },
        ..a
    }
}

/// Frame-counter write: the top bit picks the 5-step schedule, the next
/// bit inhibits the interrupt, and selecting 5-step mode immediately clocks
/// envelopes, sweeps and lengths once.
pub open spec fn spec_apu_write_frame_counter(a: APU, val: u8) -> APU {
    let mode = if (val as int / 128) % 2 == 0 {
        SequencerMode::FourStep
    } else {
        SequencerMode::FiveStep
    };
    let a1 = APU { frame_mode: mode, irq: (val as int / 64) % 2 == 0, ..a };
    if mode is FiveStep {
        spec_apu_step_lengths(spec_apu_step_sweeps(spec_apu_step_envelopes(a1)))
    } else {
        a1
    }
}

/// The status byte: one length-counter-active bit per voice, and the
/// delta channel's buffer state in bit 4.
pub open spec fn spec_apu_status(a: APU) -> u8 {
    ((if a.square1.length_value > 0 {
        1int
    } else {
        0int
    }) + (if a.square2.length_value > 0 {
        2int
    } else {
        0int
    }) + (if a.triangle.length_value > 0 {
        4int
    } else {
        0int
    }) + (if a.noise.length_value > 0 {
        8int
    } else {
        0int
    }) + (if a.dmc.buffer != 0 {
        16int
    } else {
        0int
    })) as u8
}

/// The audio register file's read map: only the status register answers.
pub open spec fn spec_apu_read(a: APU, address: u16) -> Result<u8, Seq<char>> {
    if address == 0x4015 {
        Ok(spec_apu_status(a))
    } else {
        Ok(0)
    }
}

/// The audio register file's write map: four registers per voice, the
/// channel-enable register and the frame counter; anything else in the
/// audio window is not an audio register and is a fault.
pub open spec fn spec_apu_write(a: APU, address: u16, val: u8) -> (APU, Result<u8, Seq<char>>) {
    if address == 0x4000 {
        (APU { square1: spec_sq_write_control(a.square1, val), ..a }, Ok(0))
    } else if address == 0x4001 {
        (APU { square1: spec_sq_write_sweep(a.square1, val), ..a }, Ok(0))
    } else if address == 0x4002 {
        (APU { square1: spec_sq_write_timer_low(a.square1, val), ..a }, Ok(0))
    } else if address == 0x4003 {
        (APU { square1: spec_sq_write_timer_high(a.square1, val), ..a }, Ok(0))
    } else if address == 0x4004 {
        (APU { square2: spec_sq_write_control(a.square2, val), ..a }, Ok(0))
    } else if address == 0x4005 {
        (APU { square2: spec_sq_write_sweep(a.square2, val), ..a }, Ok(0))
    } else if address == 0x4006 {
        (APU { square2: spec_sq_write_timer_low(a.square2, val), ..a }, Ok(0))
    } else if address == 0x4007 {
        (APU { square2: spec_sq_write_timer_high(a.square2, val), ..a }, Ok(0))
    } else if address == 0x4008 {
        (APU { triangle: spec_tri_write_control(a.triangle, val), ..a }, Ok(0))
    } else if address == 0x4009 {
        (a, Ok(0))
    } else if address == 0x400a {
        (APU { triangle: spec_tri_write_timer_low(a.triangle, val), ..a }, Ok(0))
    } else if address == 0x400b {
        (APU { triangle: spec_tri_write_timer_high(a.triangle, val), ..a }, Ok(0))
    } else if address == 0x400c {
        (APU { noise: spec_noise_write_control(a.noise, val), ..a }, Ok(0))
    } else if address == 0x400d {
        (a, Ok(0))
    } else if address == 0x400e {
        (APU { noise: spec_noise_write_mode(a.noise, val), ..a }, Ok(0))
    } else if address == 0x400f {
        (APU { noise: spec_noise_write_length_index(a.noise, val), ..a }, Ok(0))
    } else if address == 0x4010 {
        (APU { dmc: spec_dmc_write_control(a.dmc, val), ..a }, Ok(0))
    } else if address == 0x4011 {
        (APU { dmc: spec_dmc_write_dac(a.dmc, val), ..a }, Ok(0))
    } else if address == 0x4012 {
        (APU { dmc: spec_dmc_write_address(a.dmc, val), ..a }, Ok(0))
    } else if address == 0x4013 {
        (APU { dmc: spec_dmc_write_length(a.dmc, val), ..a }, Ok(0))
    } else if address == 0x4015 {
        (spec_apu_write_control(a, val), Ok(0))
    } else if address == 0x4017 {
        (spec_apu_write_frame_counter(a, val), Ok(0))
    } else {
        (a, Err("bad audio register address"@))
    }
}

/// One audio step: the cycle counter advances, timers clock, and the two
/// fixed-ratio checkpoints (frame sequencer at clock/240, output sample at
/// clock/44100) fire when the counter crosses them.
pub open spec fn spec_apu_step(a: APU) -> (APU, bool, bool) {
    let c1 = a.cycles;
    let c2 = if c1 == 0xffff_ffff_ffff_ffff {
        0u64
    } else {
        (c1 + 1) as u64
    };
    let a1 = APU { cycles: c2, ..a };
    let a2 = spec_apu_step_timers(a1);
    let frame_hit = c1 * 240 / 1789773 != c2 * 240 / 1789773;
    let sample_hit = c1 * 44100 / 1789773 != c2 * 44100 / 1789773;
    if frame_hit {
        let (a3, irq) = spec_apu_step_frame(a2);
        (a3, irq, sample_hit)
    } else {
        (a2, false, sample_hit)
    }
}

pub open spec fn spec_apu_new() -> APU {
    APU {
        square1: spec_square_new(1),
        square2: spec_square_new(2),
        triangle: spec_tri_new(),
        noise: spec_noise_new(),
        dmc: spec_dmc_new(),
        cycles: 0,
        frame_mode: SequencerMode::FourStep,
        frame_value: 0,
        irq: false,
    }
}

impl View for APU {
    type V = APU;

    open spec fn view(&self) -> APU {
        *self
    }
}

impl Memory for APU {
    open spec fn wf(&self) -> bool {
        true
    }

    open spec fn spec_read(&self, address: u16) -> Result<u8, Seq<char>> {
        spec_apu_read(*self, address)
    }

    open spec fn spec_write(&self, address: u16, val: u8) -> (APU, Result<u8, Seq<char>>) {
        spec_apu_write(*self, address, val)
    }

    fn read(&mut self, address: u16) -> (r: Result<u8, String>) {
        if address == 0x4015 {
            Ok(self.read_status())
        } else {
            Ok(0)
        }
    }

    fn write(&mut self, address: u16, val: u8) -> (r: Result<u8, String>) {
        if address == 0x4000 {
            self.square1.write_control(val);
            Ok(0)
        } else if address == 0x4001 {
            self.square1.write_sweep(val);
            Ok(0)
        } else if address == 0x4002 {
            self.square1.write_timer_low(val);
            Ok(0)
        } else if address == 0x4003 {
            self.square1.write_timer_high(val);
            Ok(0)
        } else if address == 0x4004 {
            self.square2.write_control(val);
            Ok(0)
        } else if address == 0x4005 {
            self.square2.write_sweep(val);
            Ok(0)
        } else if address == 0x4006 {
            self.square2.write_timer_low(val);
            Ok(0)
        } else if address == 0x4007 {
            self.square2.write_timer_high(val);
            Ok(0)
        } else if address == 0x4008 {
            self.triangle.write_control(val);
            Ok(0)
        } else if address == 0x4009 {
            Ok(0)
        } else if address == 0x400a {
            self.triangle.write_timer_low(val);
            Ok(0)
        } else if address == 0x400b {
            self.triangle.write_timer_high(val);
            Ok(0)
        } else if address == 0x400c {
            self.noise.write_control(val);
            Ok(0)
        } else if address == 0x400d {
            Ok(0)
        } else if address == 0x400e {
            self.noise.write_mode(val);
            Ok(0)
        } else if address == 0x400f {
            self.noise.write_length_index(val);
            Ok(0)
        } else if address == 0x4010 {
            self.dmc.write_control(val);
            Ok(0)
        } else if address == 0x4011 {
            self.dmc.write_dac(val);
            Ok(0)
        } else if address == 0x4012 {
            self.dmc.write_address(val);
            Ok(0)
        } else if address == 0x4013 {
            self.dmc.write_length(val);
            Ok(0)
        } else if address == 0x4015 {
            self.write_control(val);
            Ok(0)
        } else if address == 0x4017 {
            self.write_frame_counter(val);
            Ok(0)
        } else {
            Err(String::from_str("bad audio register address"))
        }
    }
}

impl APU {
    /// Power-up state: silent voices, the 4-step schedule, interrupts off.
    pub fn new_nes_apu() -> (r: APU)
        ensures
            r == spec_apu_new(),
    {
        APU {
            square1: SquareWave::new_square_wave(1),
            square2: SquareWave::new_square_wave(2),
            triangle: TriangleWave::new_triangle_wave(),
            noise: Noise::new_noise_channel(),
            dmc: DMC::new_dmc_channel(),
            cycles: 0,
            frame_mode: SequencerMode::FourStep,
            frame_value: 0,
            irq: false,
        }
    }

    /// Reset every voice to its power-up state; the sequencer keeps going.
    pub fn reset(&mut self)
        ensures
            *final(self) == (APU {
                square1: spec_square_new(old(self).square1.channel),
                square2: spec_square_new(old(self).square2.channel),
                triangle: spec_tri_new(),
                noise: spec_noise_new(),
                dmc: spec_dmc_new(),
                ..*old(self)
            }),
    {
        self.square1.reset();
        self.square2.reset();
        self.triangle.reset();
        self.noise.reset();
        self.dmc.reset();
    }

    /// The packed length-counter/buffer status byte.
    pub fn read_status(&self) -> (r: u8)
        ensures
            r == spec_apu_status(*self),
    {
        (if self.square1.length_value > 0 {
            1u8
        } else {
            0u8
        }) + (if self.square2.length_value > 0 {
            2u8
        } else {
            0u8
        }) + (if self.triangle.length_value > 0 {
            4u8
        } else {
            0u8
        }) + (if self.noise.length_value > 0 {
            8u8
        } else {
            0u8
        }) + (if self.dmc.buffer != 0 {
            16u8
        } else {
            0u8
        })
    }

    /// Frame-counter register write, per `spec_apu_write_frame_counter`.
    pub fn write_frame_counter(&mut self, val: u8)
        ensures
            *final(self) == spec_apu_write_frame_counter(*old(self), val),
    {
        self.frame_mode = if (val / 128) % 2 == 0 {
            SequencerMode::FourStep
        } else {
            SequencerMode::FiveStep
        };
        self.irq = (val / 64) % 2 == 0;
        if matches!(self.frame_mode, SequencerMode::FiveStep) {
            self.step_envelopes();
            self.step_sweeps();
            self.step_lengths();
        }
    }

    /// Channel-enable register write, per `spec_apu_write_control`.
    pub fn write_control(&mut self, val: u8)
        ensures
            *final(self) == spec_apu_write_control(*old(self), val),
    {
        let e1 = val % 2 == 1;
        let e2 = (val / 2) % 2 == 1;
        let e3 = (val / 4) % 2 == 1;
        let e4 = (val / 8) % 2 == 1;
        let e5 = (val / 16) % 2 == 1;
        self.square1 = SquareWave {
            enabled: e1,
            length_value: if e1 {
                self.square1.length_value
            } else {
                0
            },
            ..self.square1
        };
        self.square2 = SquareWave {
            enabled: e2,
            length_value: if e2 {
                self.square2.length_value
            } else {
                0
            },
            ..self.square2
        };
        self.triangle = TriangleWave {
            enabled: e3,
            length_value: if e3 {
                self.triangle.length_value
            } else {
                0
            },
            ..self.triangle
        };
        self.noise = Noise {
            enabled: e4,
            length_value: if e4 {
                self.noise.length_value
            } else {
                0
            },
            ..self.noise
        };
        self.dmc = DMC { enabled: e5, ..self.dmc };
    }

    pub fn step_envelopes(&mut self)
        ensures
            *final(self) == spec_apu_step_envelopes(*old(self)),
    {
        self.square1.step_envelope();
        self.square2.step_envelope();
        self.triangle.step_counter();
        self.noise.step_envelope();
    }

    pub fn step_sweeps(&mut self)
        ensures
            *final(self) == spec_apu_step_sweeps(*old(self)),
    {
        self.square1.step_sweep();
        self.square2.step_sweep();
    }

    pub fn step_lengths(&mut self)
        ensures
            *final(self) == spec_apu_step_lengths(*old(self)),
    {
        self.square1.step_length();
        self.square2.step_length();
        self.triangle.step_length();
        self.noise.step_length();
    }

    pub fn step_timers(&mut self)
        ensures
            *final(self) == spec_apu_step_timers(*old(self)),
    {
        self.triangle.step_timer();
        if self.cycles % 2 == 0 {
            self.square1.step_timer();
            self.square2.step_timer();
            self.noise.step_timer();
        }
    }

    /// One frame-sequencer clock; returns whether the interrupt line rose.
    pub fn step_frame_counter(&mut self) -> (r: bool)
        ensures
            *final(self) == spec_apu_step_frame(*old(self)).0,
            r == spec_apu_step_frame(*old(self)).1,
    {
        match self.frame_mode {
            SequencerMode::FiveStep => {
                self.frame_value = ((self.frame_value as u16 + 1) % 5) as u8;
                let fv = self.frame_value;
                if fv == 0 || fv == 2 {
                    self.step_envelopes();
                    self.step_sweeps();
                    self.step_lengths();
                } else if fv == 1 || fv == 3 {
                    self.step_envelopes();
                }
                false
            },
            SequencerMode::FourStep => {
                self.frame_value = ((self.frame_value as u16 + 1) % 4) as u8;
                let fv = self.frame_value;
                if fv == 0 || fv == 2 {
                    self.step_envelopes();
                    false
                } else if fv == 1 {
                    self.step_envelopes();
                    self.step_sweeps();
                    self.step_lengths();
                    false
                } else {
                    self.step_envelopes();
                    self.step_sweeps();
                    self.step_lengths();
                    self.irq
                }
            },
        }
    }

    /// One audio step per CPU cycle, per `spec_apu_step`.
    pub fn step(&mut self) -> (r: StepResult)
        ensures
            *final(self) == spec_apu_step(*old(self)).0,
            r.trigger_irq == spec_apu_step(*old(self)).1,
            r.sample_due == spec_apu_step(*old(self)).2,
    {
        let c1 = self.cycles;
        self.cycles = self.cycles.wrapping_add(1);
        let c2 = self.cycles;
        self.step_timers();

        let f1 = (c1 as u128) * 240 / 1789773;
        let f2 = (c2 as u128) * 240 / 1789773;
        let trigger_irq = if f1 != f2 {
            self.step_frame_counter()
        } else {
            false
        };

        let s1 = (c1 as u128) * 44100 / 1789773;
        let s2 = (c2 as u128) * 44100 / 1789773;
        StepResult { trigger_irq, sample_due: s1 != s2 }
    }

    /// The five voices' digital output levels, for the driver's mixer:
    /// pulse one, pulse two, triangle, noise, delta.
    pub fn outputs(&self) -> (r: (u8, u8, u8, u8, u8))
        ensures
            r.0 == spec_sq_signal(self.square1),
            r.1 == spec_sq_signal(self.square2),
            r.2 == spec_tri_signal(self.triangle),
            r.3 == spec_noise_signal(self.noise),
            r.4 == spec_dmc_signal(self.dmc),
    {
        (
            self.square1.signal(),
            self.square2.signal(),
            self.triangle.signal(),
            self.noise.signal(),
            self.dmc.signal(),
        )
    }
}

/// The frame sequencer raises the interrupt flag exactly on the 4-step
/// schedule's last slot with interrupts enabled, and never otherwise — in
/// particular never in 5-step mode.
pub proof fn lemma_frame_irq_exact(a: APU)
    ensures
        spec_apu_step_frame(a).1 <==> (a.frame_mode is FourStep && a.irq && (a.frame_value as int
            + 1) % 4 == 3),
{
}

/// In 4-step mode with interrupts enabled, four successive sequencer clocks
/// raise the interrupt flag exactly once.
#[verifier::rlimit(80)]
pub proof fn lemma_four_step_irq_once(a: APU)
    requires
        a.frame_mode is FourStep,
        a.irq,
    ensures
        ({
            let (a1, r1) = spec_apu_step_frame(a);
            let (a2, r2) = spec_apu_step_frame(a1);
            let (a3, r3) = spec_apu_step_frame(a2);
            let (a4, r4) = spec_apu_step_frame(a3);
            (if r1 {
                1int
            } else {
                0int
            }) + (if r2 {
                1int
            } else {
                0int
            }) + (if r3 {
                1int
            } else {
                0int
            }) + (if r4 {
                1int
            } else {
                0int
            }) == 1
        }),
{
    let (a1, r1) = spec_apu_step_frame(a);
    let (a2, r2) = spec_apu_step_frame(a1);
    let (a3, r3) = spec_apu_step_frame(a2);
    let (a4, r4) = spec_apu_step_frame(a3);
    assert(a1.frame_mode is FourStep && a1.irq && a1.frame_value == (a.frame_value as int + 1)
        % 4);
    assert(a2.frame_mode is FourStep && a2.irq && a2.frame_value == (a.frame_value as int + 2)
        % 4);
    assert(a3.frame_mode is FourStep && a3.irq && a3.frame_value == (a.frame_value as int + 3)
        % 4);
    assert(a4.frame_mode is FourStep && a4.irq && a4.frame_value == (a.frame_value as int + 4)
        % 4);
}

} // verus!
