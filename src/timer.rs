//! The clocked counter peripheral: a free-running divider and a counter that
//! runs at a selectable rate and requests an interrupt when it wraps.
use crate::cpu::Mem;
use vstd::prelude::*;

verus! {

/// Bit of the interrupt request register that the counter's overflow sets.
pub const TIMER_INTERRUPT_BIT: u8 = 0b0000_0100;

/// Cycles per counter increment for the rate bits (the low two bits of the control register).
pub open spec fn period_of(ctrl: u8) -> u32 {
    if ctrl % 4 == 1 {
        16
    } else if ctrl % 4 == 2 {
        64
    } else if ctrl % 4 == 3 {
        256
    } else {
        1024
    }
}

/// Whether the control register's enable bit (bit 2) is set.
pub open spec fn enabled_by(ctrl: u8) -> bool {
    (ctrl / 4) % 2 == 1
}

/// The counter after `n` increments from `counter`, reloading from `modulo`
/// each time it wraps past 0xFF, and whether it wrapped at all.
pub open spec fn count_up(counter: u8, modulo: u8, n: nat) -> (u8, bool)
    decreases n,
{
    if n == 0 {
        (counter, false)
    } else {
        let (c, wrapped) = count_up(counter, modulo, (n - 1) as nat);
        if c == 0xFF {
            (modulo, true)
        } else {
            ((c + 1) as u8, wrapped)
        }
    }
}

#[derive(PartialEq, Eq, Structural, Clone, Copy, Debug)]
pub struct Timer {
    pub divider: u8,
    pub counter: u8,
    pub modulo: u8,
    pub timer_ctrl: u8,
    pub timer_enabled: bool,
    pub clock_freq: u32,
    pub div_internal: u64,
    pub timer_internal: u64,
    pub interrupt: u8,
}

impl Timer {
    pub open spec fn wf(&self) -> bool {
        &&& self.timer_enabled == enabled_by(self.timer_ctrl)
        &&& self.clock_freq == period_of(self.timer_ctrl)
        &&& self.div_internal < 256
        &&& self.timer_internal < self.clock_freq
    }

    /// The value that a read of the register at `addr` (0xFF04..=0xFF07) gives.
    pub open spec fn register(&self, addr: u16) -> u8 {
        if addr == 0xFF04 {
            self.divider
        } else if addr == 0xFF05 {
            self.counter
        } else if addr == 0xFF06 {
            self.modulo
        } else {
            self.timer_ctrl
        }
    }

    /// The timer after a write of `data` to the register at `addr`.
    pub open spec fn after_write(self, addr: u16, data: u8) -> Timer {
        if addr == 0xFF04 {
            Timer { divider: data, ..self }
        } else if addr == 0xFF05 {
            Timer { counter: data, ..self }
        } else if addr == 0xFF06 {
            Timer { modulo: data, ..self }
        } else {
            Timer {
                timer_ctrl: data,
                timer_enabled: enabled_by(data),
                clock_freq: period_of(data),
                timer_internal: 0,
                ..self
            }
        }
    }

    /// `self` is `pre` after `time` cycles: the divider counts every 256
    /// cycles; when enabled, the counter counts every period, reloading from
    /// the modulo and requesting an interrupt each time it wraps.
    pub open spec fn ticked(self, pre: Timer, time: u32) -> bool {
        let total = pre.timer_internal + time;
        let (c, wrapped) = count_up(pre.counter, pre.modulo, (total / pre.clock_freq as int) as nat);
        &&& self.div_internal == (pre.div_internal + time) % 256
        &&& self.divider == (pre.divider + (pre.div_internal + time) / 256) % 256
        &&& self.modulo == pre.modulo
        &&& self.timer_ctrl == pre.timer_ctrl
        &&& self.timer_enabled == pre.timer_enabled
        &&& self.clock_freq == pre.clock_freq
        &&& if pre.timer_enabled {
            &&& self.timer_internal == total % pre.clock_freq as int
            &&& self.counter == c
            &&& self.interrupt == if wrapped {
                pre.interrupt | TIMER_INTERRUPT_BIT
            } else {
                pre.interrupt
            }
        } else {
            &&& self.timer_internal == pre.timer_internal
            &&& self.counter == pre.counter
            &&& self.interrupt == pre.interrupt
        }
    }

    /// The timer at power-on: every register and accumulator zero, the
    /// counter disabled at the slowest period.
    pub open spec fn initial() -> Timer {
        Timer {
            divider: 0,
            counter: 0,
            modulo: 0,
            timer_ctrl: 0,
            timer_enabled: false,
            clock_freq: 1024,
            div_internal: 0,
            timer_internal: 0,
            interrupt: 0,
        }
    }

    pub fn new() -> (r: Self)
        ensures
            r.wf(),
            r == Timer::initial(),
    {
        Timer {
            divider: 0,
            counter: 0,
            modulo: 0,
            timer_ctrl: 0,
            timer_enabled: false,
            clock_freq: 1024,
            div_internal: 0,
            timer_internal: 0,
            interrupt: 0,
        }
    }

    /// Advances the timer by `time` cycles.
    pub fn execute_cycle(&mut self, time: u32)
        requires
            old(self).wf(),
        ensures
            final(self).wf(),
            final(self).ticked(*old(self), time),
    {
        let acc = self.div_internal + time as u64;
        self.divider = ((self.divider as u64 + acc / 256) % 256) as u8;
        self.div_internal = acc % 256;

        if !self.timer_enabled {
            return;
        }

        let total = self.timer_internal + time as u64;
        let freq = self.clock_freq as u64;
        let steps = total / freq;
        let c0 = self.counter;
        let i0 = self.interrupt;
        let mut k: u64 = 0;
        let mut wrapped = false;
        while k < steps
            invariant
                k <= steps,
                freq == old(self).clock_freq,
                freq > 0,
                self.div_internal == acc % 256,
                self.divider == ((old(self).divider + acc / 256) % 256) as u8,
                self.timer_ctrl == old(self).timer_ctrl,
                self.timer_enabled == old(self).timer_enabled,
                self.clock_freq == old(self).clock_freq,
                self.timer_internal == old(self).timer_internal,
                self.modulo == old(self).modulo,
                (self.counter, wrapped) == count_up(c0, self.modulo, k as nat),
                self.interrupt == if wrapped {
                    i0 | TIMER_INTERRUPT_BIT
                } else {
                    i0
                },
            decreases steps - k,
        {
            self.counter = self.counter.wrapping_add(1);
            if self.counter == 0 {
                self.counter = self.modulo;
                self.interrupt = self.interrupt | TIMER_INTERRUPT_BIT;
                wrapped = true;
                assert((i0 | TIMER_INTERRUPT_BIT) | TIMER_INTERRUPT_BIT == i0 | TIMER_INTERRUPT_BIT)
                    by (bit_vector);
            }
            k += 1;
        }
        self.timer_internal = total % freq;
    }

    /// Recomputes the enable bit and the period from the control register.
    fn extract_timer_ctrl_reg(&mut self)
        ensures
            final(self).timer_enabled == enabled_by(old(self).timer_ctrl),
            final(self).clock_freq == period_of(old(self).timer_ctrl),
            final(self).timer_ctrl == old(self).timer_ctrl,
            final(self).divider == old(self).divider,
            final(self).counter == old(self).counter,
            final(self).modulo == old(self).modulo,
            final(self).div_internal == old(self).div_internal,
            final(self).timer_internal == old(self).timer_internal,
            final(self).interrupt == old(self).interrupt,
    {
        let ctrl = self.timer_ctrl;
        assert((ctrl & 0b100) == 0 <==> (ctrl / 4) % 2 != 1) by (bit_vector);
        assert((ctrl & 0b11) == ctrl % 4) by (bit_vector);
        self.timer_enabled = (ctrl & 0b0000_0100) != 0;
        let rate = ctrl & 0b0000_0011;
        self.clock_freq = if rate == 0b01 {
            16
        } else if rate == 0b10 {
            64
        } else if rate == 0b11 {
            256
        } else {
            1024
        };
    }
}

impl Mem for Timer {
    open spec fn mem_ok(&self) -> bool {
        self.wf()
    }

    open spec fn can_access(addr: u16) -> bool {
        0xFF04 <= addr <= 0xFF07
    }

    open spec fn peek(&self, addr: u16) -> u8 {
        self.register(addr)
    }

    open spec fn written(&self, pre: Timer, addr: u16, data: u8) -> bool {
        *self == pre.after_write(addr, data)
    }

    fn mem_read_u8(&self, addr: u16) -> (r: u8) {
        if addr == 0xFF04 {
            self.divider
        } else if addr == 0xFF05 {
            self.counter
        } else if addr == 0xFF06 {
            self.modulo
        } else {
            self.timer_ctrl
        }
    }

    /// A write to the register at `addr`; a write to the control register
    /// takes effect at once, and restarts the counter's accumulator.
    fn mem_write_u8(&mut self, addr: u16, data: u8) {
        if addr == 0xFF04 {
            self.divider = data;
        } else if addr == 0xFF05 {
            self.counter = data;
        } else if addr == 0xFF06 {
            self.modulo = data;
        } else {
            self.timer_ctrl = data;
            self.extract_timer_ctrl_reg();
            self.timer_internal = 0;
        }
    }
}

} // verus!
