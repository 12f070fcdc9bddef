//! Register access layer over a simulated register file.
//!
//! `Machine` models the flat address space of memory-mapped control
//! registers that the bring-up sequence touches, together with the
//! hardware-driven behaviour that the sequence polls for: crystal
//! oscillator startup, glitchless mux settling, and PLL lock.  Every
//! status bit is driven by a deterministic read-countdown model so that
//! polling loops can be verified to take an exact number of iterations.
//!
//! The four access operations — `read_reg`, `write_reg`, `set_bits` and
//! `clear_bits` — are the only way the sequencer touches the register
//! file.  Reads can have side effects (a settling counter advances), so
//! `read_reg` takes `&mut self`; `set_bits` and `clear_bits` model the
//! hardware write-alias convention that ORs or AND-NOTs a mask into a
//! register in one write, without a read-modify-write cycle.

use vstd::prelude::*;

use crate::regs::{
    CLK_GPOUT0_CTRL_ADDR, CLK_PERI_CTRL_ADDR, CLK_REF_CTRL_ADDR, CLK_SYS_CTRL_ADDR,
    IO_BANK0_BASE, IO_GPIO_COUNT, PADS_BANK0_BASE, PADS_REG_COUNT, PLL_LOCK_BIT,
    PLL_PWR_DOWN_BITS, PLL_SYS_CS_ADDR, PLL_SYS_FBDIV_ADDR, PLL_SYS_PRIM_ADDR, PLL_SYS_PWR_ADDR,
    PLL_USB_CS_ADDR, PLL_USB_FBDIV_ADDR, PLL_USB_PRIM_ADDR, PLL_USB_PWR_ADDR, RESETS_DONE_ADDR,
    RESETS_RESET_ADDR, RESETS_VALID_MASK, SIO_OE_ADDR, SIO_OE_CLR_ADDR, SIO_OE_SET_ADDR,
    SIO_OUT_ADDR, SIO_OUT_CLR_ADDR, SIO_OUT_SET_ADDR, TIMER_DBGPAUSE_ADDR, WATCHDOG_TICK_ADDR,
    XOSC_CTRL_ADDR, XOSC_ENABLE_VALUE, XOSC_STABLE_BIT, XOSC_STATUS_ADDR,
};

verus! {

/// Power-on value of a pad register: input buffer enabled, output driver
/// disabled, pull-down on.
pub const PAD_POWER_ON_VALUE: u32 = 0x56;

/// Power-on value of a pin control register: function select parked on the
/// null function.
pub const IO_CTRL_POWER_ON_VALUE: u32 = 0x1f;

/// Power-on value of the timer debug-pause register: pause on either
/// debugger halt.
pub const TIMER_DBGPAUSE_POWER_ON_VALUE: u32 = 0x7;

/// How the simulated hardware answers polls: each status becomes visible
/// only after a configured number of reads, and each PLL reports lock only
/// for one exact divider programming.
#[derive(Clone, Copy, PartialEq, Eq, Structural, Debug)]
pub struct SimConfig {
    /// Reads of the oscillator status register that return "not stable"
    /// after the oscillator is enabled.
    pub xosc_startup_reads: u32,
    /// Reads of the reference-clock mux register that still show the old
    /// source after a switch.
    pub ref_mux_settle_reads: u32,
    /// Reads of the system-clock mux register that still show the old
    /// source after a switch.
    pub sys_mux_settle_reads: u32,
    /// Feedback divider the system PLL locks on.
    pub pll_sys_target_fbdiv: u32,
    /// Post-divider register value the system PLL locks on.
    pub pll_sys_target_prim: u32,
    /// Reads of the system PLL status register that return "not locked"
    /// once lock is possible.
    pub pll_sys_lock_reads: u32,
    /// Feedback divider the USB PLL locks on.
    pub pll_usb_target_fbdiv: u32,
    /// Post-divider register value the USB PLL locks on.
    pub pll_usb_target_prim: u32,
    /// Reads of the USB PLL status register that return "not locked" once
    /// lock is possible.
    pub pll_usb_lock_reads: u32,
}

/// A glitchless mux register: writes land in `pending` and become visible
/// on reads only after `settle` further reads, modelling the confirmable,
/// non-instant switch of the hardware mux.
#[derive(Clone, Copy, PartialEq, Eq, Structural, Debug)]
pub struct Mux {
    /// Value a read returns now.
    pub visible: u32,
    /// Value most recently written.
    pub pending: u32,
    /// Reads left until `visible` catches up with `pending`.
    pub settle: u32,
}

/// The crystal oscillator: a control register and a startup countdown that
/// drives the stable bit of the status register.
#[derive(Clone, Copy, PartialEq, Eq, Structural, Debug)]
pub struct Xosc {
    /// Control register value.
    pub ctrl: u32,
    /// Status reads left until the stable bit appears.
    pub countdown: u32,
}

/// One PLL block: power, feedback divider and post-divider registers, and
/// a lock countdown that drives the locked bit of the status register.
#[derive(Clone, Copy, PartialEq, Eq, Structural, Debug)]
pub struct Pll {
    /// Power register; the PLL runs only with `PLL_PWR_DOWN_BITS` clear.
    pub pwr: u32,
    /// Feedback divider register.
    pub fbdiv: u32,
    /// Post-divider register.
    pub prim: u32,
    /// Status reads left until the locked bit appears, once lock is
    /// possible.
    pub countdown: u32,
}

/// The simulated register file.
pub struct Machine {
    /// Poll-latency and lock-target model of the hardware.
    pub cfg: SimConfig,
    /// Shared reset register of the reset controller.
    pub resets: u32,
    /// Crystal oscillator block.
    pub xosc: Xosc,
    /// Reference-clock glitchless mux.
    pub clk_ref: Mux,
    /// System-clock glitchless mux.
    pub clk_sys: Mux,
    /// Peripheral clock control register.
    pub clk_peri_ctrl: u32,
    /// First clock-generator output control register; the sequence reads
    /// it only as a settling delay.
    pub clk_gpout0_ctrl: u32,
    /// System PLL block.
    pub pll_sys: Pll,
    /// USB PLL block.
    pub pll_usb: Pll,
    /// Pad control registers, one word per register, bank voltage select
    /// first, then one per pad.
    pub pads: Vec<u32>,
    /// Pin control registers of the I/O bank, one per pin.
    pub io_ctrl: Vec<u32>,
    /// Output register of the single-cycle I/O block.
    pub sio_out: u32,
    /// Output-enable register of the single-cycle I/O block.
    pub sio_oe: u32,
    /// Watchdog tick generator register.
    pub watchdog_tick: u32,
    /// Timer debug-pause register.
    pub timer_dbgpause: u32,
}

/// Mathematical value of a `Machine`: the same registers with the two
/// register banks as sequences.
#[verifier::ext_equal]
pub struct MachineState {
    pub cfg: SimConfig,
    pub resets: u32,
    pub xosc: Xosc,
    pub clk_ref: Mux,
    pub clk_sys: Mux,
    pub clk_peri_ctrl: u32,
    pub clk_gpout0_ctrl: u32,
    pub pll_sys: Pll,
    pub pll_usb: Pll,
    pub pads: Seq<u32>,
    pub io_ctrl: Seq<u32>,
    pub sio_out: u32,
    pub sio_oe: u32,
    pub watchdog_tick: u32,
    pub timer_dbgpause: u32,
}

impl View for Machine {
    type V = MachineState;

    open spec fn view(&self) -> MachineState {
        MachineState {
            cfg: self.cfg,
            resets: self.resets,
            xosc: self.xosc,
            clk_ref: self.clk_ref,
            clk_sys: self.clk_sys,
            clk_peri_ctrl: self.clk_peri_ctrl,
            clk_gpout0_ctrl: self.clk_gpout0_ctrl,
            pll_sys: self.pll_sys,
            pll_usb: self.pll_usb,
            pads: self.pads@,
            io_ctrl: self.io_ctrl@,
            sio_out: self.sio_out,
            sio_oe: self.sio_oe,
            watchdog_tick: self.watchdog_tick,
            timer_dbgpause: self.timer_dbgpause,
        }
    }
}

/// A mux is well formed when its settle counter runs exactly while a
/// switch is in flight: the visible value differs from the pending one if
/// and only if reads remain.
pub open spec fn mux_wf(m: Mux) -> bool {
    (m.settle == 0) <==> (m.visible == m.pending)
}

/// Effect of writing `v` to a mux register whose switch takes
/// `settle_reads` reads to confirm.  Writing the visible value back, or
/// writing with no configured latency, commits at once.
pub open spec fn mux_write(m: Mux, v: u32, settle_reads: u32) -> Mux {
    if v == m.visible || settle_reads == 0 {
        Mux { visible: v, pending: v, settle: 0 }
    } else {
        Mux { visible: m.visible, pending: v, settle: settle_reads }
    }
}

/// Effect of one read on a mux register: the last settling read commits
/// the pending value.
pub open spec fn mux_poll(m: Mux) -> Mux {
    if m.settle == 1 {
        Mux { visible: m.pending, pending: m.pending, settle: 0 }
    } else if m.settle > 1 {
        Mux { settle: (m.settle - 1) as u32, ..m }
    } else {
        m
    }
}

/// The oscillator is enabled when its control register holds the enable
/// value.
pub open spec fn xosc_enabled(x: Xosc) -> bool {
    x.ctrl == XOSC_ENABLE_VALUE
}

/// The stable bit reads as set: the oscillator is enabled and its startup
/// countdown has run out.
pub open spec fn xosc_stable(x: Xosc) -> bool {
    xosc_enabled(x) && x.countdown == 0
}

/// Effect of writing `v` to the oscillator control register: enabling it
/// starts the startup countdown.
pub open spec fn xosc_write(x: Xosc, v: u32, startup_reads: u32) -> Xosc {
    if v == XOSC_ENABLE_VALUE {
        Xosc { ctrl: v, countdown: startup_reads }
    } else {
        Xosc { ctrl: v, ..x }
    }
}

/// Effect of one read of the oscillator status register.
pub open spec fn xosc_poll(x: Xosc) -> Xosc {
    if xosc_enabled(x) && x.countdown > 0 {
        Xosc { countdown: (x.countdown - 1) as u32, ..x }
    } else {
        x
    }
}

/// A PLL can lock: it is powered and its dividers are programmed to the
/// values the simulated hardware locks on.
pub open spec fn pll_lock_ready(p: Pll, target_fbdiv: u32, target_prim: u32) -> bool {
    p.pwr & PLL_PWR_DOWN_BITS == 0 && p.fbdiv == target_fbdiv && p.prim == target_prim
}

/// The locked bit reads as set: lock is possible and the lock countdown
/// has run out.
pub open spec fn pll_locked(p: Pll, target_fbdiv: u32, target_prim: u32) -> bool {
    pll_lock_ready(p, target_fbdiv, target_prim) && p.countdown == 0
}

/// Effect of writing a PLL configuration register: any reconfiguration
/// restarts lock acquisition.
pub open spec fn pll_write_pwr(p: Pll, v: u32, lock_reads: u32) -> Pll {
    Pll { pwr: v, countdown: lock_reads, ..p }
}

pub open spec fn pll_write_fbdiv(p: Pll, v: u32, lock_reads: u32) -> Pll {
    Pll { fbdiv: v, countdown: lock_reads, ..p }
}

pub open spec fn pll_write_prim(p: Pll, v: u32, lock_reads: u32) -> Pll {
    Pll { prim: v, countdown: lock_reads, ..p }
}

/// Effect of one read of a PLL status register.
pub open spec fn pll_poll(p: Pll, target_fbdiv: u32, target_prim: u32) -> Pll {
    if pll_lock_ready(p, target_fbdiv, target_prim) && p.countdown > 0 {
        Pll { countdown: (p.countdown - 1) as u32, ..p }
    } else {
        p
    }
}

/// The address is a pad control register.
pub open spec fn is_pads_addr(addr: u32) -> bool {
    &&& PADS_BANK0_BASE <= addr
    &&& addr < PADS_BANK0_BASE + PADS_REG_COUNT * 4
    &&& (addr - PADS_BANK0_BASE) % 4 == 0
}

/// Word index of a pad control register.
pub open spec fn pads_index(addr: u32) -> int {
    (addr - PADS_BANK0_BASE) / 4
}

/// The address is a pin control register of the I/O bank.
pub open spec fn is_io_ctrl_addr(addr: u32) -> bool {
    &&& IO_BANK0_BASE <= addr
    &&& addr < IO_BANK0_BASE + IO_GPIO_COUNT * 8
    &&& (addr - IO_BANK0_BASE) % 8 == 4
}

/// Pin index of a pin control register.
pub open spec fn io_index(addr: u32) -> int {
    (addr - IO_BANK0_BASE) / 8
}

/// Addresses the model can read.
pub open spec fn readable_addr(addr: u32) -> bool {
    ||| addr == RESETS_RESET_ADDR
    ||| addr == RESETS_DONE_ADDR
    ||| addr == XOSC_CTRL_ADDR
    ||| addr == XOSC_STATUS_ADDR
    ||| addr == CLK_GPOUT0_CTRL_ADDR
    ||| addr == CLK_REF_CTRL_ADDR
    ||| addr == CLK_SYS_CTRL_ADDR
    ||| addr == CLK_PERI_CTRL_ADDR
    ||| addr == PLL_SYS_CS_ADDR
    ||| addr == PLL_SYS_PWR_ADDR
    ||| addr == PLL_SYS_FBDIV_ADDR
    ||| addr == PLL_SYS_PRIM_ADDR
    ||| addr == PLL_USB_CS_ADDR
    ||| addr == PLL_USB_PWR_ADDR
    ||| addr == PLL_USB_FBDIV_ADDR
    ||| addr == PLL_USB_PRIM_ADDR
    ||| is_pads_addr(addr)
    ||| is_io_ctrl_addr(addr)
    ||| addr == SIO_OUT_ADDR
    ||| addr == SIO_OE_ADDR
    ||| addr == WATCHDOG_TICK_ADDR
    ||| addr == TIMER_DBGPAUSE_ADDR
}

/// Addresses the model can write.  Status registers are read-only; the
/// single-cycle I/O output and output-enable registers are written only
/// through their dedicated set/clear ports.
pub open spec fn writable_addr(addr: u32) -> bool {
    ||| addr == RESETS_RESET_ADDR
    ||| addr == XOSC_CTRL_ADDR
    ||| addr == CLK_GPOUT0_CTRL_ADDR
    ||| addr == CLK_REF_CTRL_ADDR
    ||| addr == CLK_SYS_CTRL_ADDR
    ||| addr == CLK_PERI_CTRL_ADDR
    ||| addr == PLL_SYS_PWR_ADDR
    ||| addr == PLL_SYS_FBDIV_ADDR
    ||| addr == PLL_SYS_PRIM_ADDR
    ||| addr == PLL_USB_PWR_ADDR
    ||| addr == PLL_USB_FBDIV_ADDR
    ||| addr == PLL_USB_PRIM_ADDR
    ||| is_pads_addr(addr)
    ||| is_io_ctrl_addr(addr)
    ||| addr == SIO_OUT_SET_ADDR
    ||| addr == SIO_OUT_CLR_ADDR
    ||| addr == SIO_OE_SET_ADDR
    ||| addr == SIO_OE_CLR_ADDR
    ||| addr == WATCHDOG_TICK_ADDR
    ||| addr == TIMER_DBGPAUSE_ADDR
}

/// Addresses in peripheral blocks that implement the write-alias
/// convention, so `set_bits` and `clear_bits` may target them: the reset
/// controller, the clock generator and the two PLLs.
pub open spec fn alias_addr(addr: u32) -> bool {
    ||| addr == RESETS_RESET_ADDR
    ||| addr == CLK_GPOUT0_CTRL_ADDR
    ||| addr == CLK_REF_CTRL_ADDR
    ||| addr == CLK_SYS_CTRL_ADDR
    ||| addr == CLK_PERI_CTRL_ADDR
    ||| addr == PLL_SYS_PWR_ADDR
    ||| addr == PLL_SYS_FBDIV_ADDR
    ||| addr == PLL_SYS_PRIM_ADDR
    ||| addr == PLL_USB_PWR_ADDR
    ||| addr == PLL_USB_FBDIV_ADDR
    ||| addr == PLL_USB_PRIM_ADDR
}

impl MachineState {
    /// Well-formedness of the register file: the banks have their full
    /// size and neither mux is in a contradictory settle state.
    pub open spec fn wf(self) -> bool {
        &&& self.pads.len() == PADS_REG_COUNT
        &&& self.io_ctrl.len() == IO_GPIO_COUNT
        &&& mux_wf(self.clk_ref)
        &&& mux_wf(self.clk_sys)
    }

    /// The system PLL can lock.
    pub open spec fn pll_sys_lock_ready(self) -> bool {
        pll_lock_ready(self.pll_sys, self.cfg.pll_sys_target_fbdiv, self.cfg.pll_sys_target_prim)
    }

    /// The USB PLL can lock.
    pub open spec fn pll_usb_lock_ready(self) -> bool {
        pll_lock_ready(self.pll_usb, self.cfg.pll_usb_target_fbdiv, self.cfg.pll_usb_target_prim)
    }
}

/// Value a read of `addr` returns.
pub open spec fn read_result(s: MachineState, addr: u32) -> u32 {
    if addr == RESETS_RESET_ADDR {
        s.resets
    } else if addr == RESETS_DONE_ADDR {
        !s.resets & RESETS_VALID_MASK
    } else if addr == XOSC_CTRL_ADDR {
        s.xosc.ctrl
    } else if addr == XOSC_STATUS_ADDR {
        if xosc_stable(s.xosc) {
            XOSC_STABLE_BIT
        } else {
            0
        }
    } else if addr == CLK_GPOUT0_CTRL_ADDR {
        s.clk_gpout0_ctrl
    } else if addr == CLK_REF_CTRL_ADDR {
        s.clk_ref.visible
    } else if addr == CLK_SYS_CTRL_ADDR {
        s.clk_sys.visible
    } else if addr == CLK_PERI_CTRL_ADDR {
        s.clk_peri_ctrl
    } else if addr == PLL_SYS_CS_ADDR {
        if pll_locked(s.pll_sys, s.cfg.pll_sys_target_fbdiv, s.cfg.pll_sys_target_prim) {
            PLL_LOCK_BIT
        } else {
            0
        }
    } else if addr == PLL_SYS_PWR_ADDR {
        s.pll_sys.pwr
    } else if addr == PLL_SYS_FBDIV_ADDR {
        s.pll_sys.fbdiv
    } else if addr == PLL_SYS_PRIM_ADDR {
        s.pll_sys.prim
    } else if addr == PLL_USB_CS_ADDR {
        if pll_locked(s.pll_usb, s.cfg.pll_usb_target_fbdiv, s.cfg.pll_usb_target_prim) {
            PLL_LOCK_BIT
        } else {
            0
        }
    } else if addr == PLL_USB_PWR_ADDR {
        s.pll_usb.pwr
    } else if addr == PLL_USB_FBDIV_ADDR {
        s.pll_usb.fbdiv
    } else if addr == PLL_USB_PRIM_ADDR {
        s.pll_usb.prim
    } else if is_pads_addr(addr) {
        s.pads[pads_index(addr)]
    } else if is_io_ctrl_addr(addr) {
        s.io_ctrl[io_index(addr)]
    } else if addr == SIO_OUT_ADDR {
        s.sio_out
    } else if addr == SIO_OE_ADDR {
        s.sio_oe
    } else if addr == WATCHDOG_TICK_ADDR {
        s.watchdog_tick
    } else if addr == TIMER_DBGPAUSE_ADDR {
        s.timer_dbgpause
    } else {
        0
    }
}

/// State after a read of `addr`: only the status registers with a
/// countdown move.
pub open spec fn read_next(s: MachineState, addr: u32) -> MachineState {
    if addr == XOSC_STATUS_ADDR {
        MachineState { xosc: xosc_poll(s.xosc), ..s }
    } else if addr == CLK_REF_CTRL_ADDR {
        MachineState { clk_ref: mux_poll(s.clk_ref), ..s }
    } else if addr == CLK_SYS_CTRL_ADDR {
        MachineState { clk_sys: mux_poll(s.clk_sys), ..s }
    } else if addr == PLL_SYS_CS_ADDR {
        MachineState {
            pll_sys: pll_poll(s.pll_sys, s.cfg.pll_sys_target_fbdiv, s.cfg.pll_sys_target_prim),
            ..s
        }
    } else if addr == PLL_USB_CS_ADDR {
        MachineState {
            pll_usb: pll_poll(s.pll_usb, s.cfg.pll_usb_target_fbdiv, s.cfg.pll_usb_target_prim),
            ..s
        }
    } else {
        s
    }
}

/// State after writing `v` to `addr`.
pub open spec fn write_next(s: MachineState, addr: u32, v: u32) -> MachineState {
    if addr == RESETS_RESET_ADDR {
        MachineState { resets: v, ..s }
    } else if addr == XOSC_CTRL_ADDR {
        MachineState { xosc: xosc_write(s.xosc, v, s.cfg.xosc_startup_reads), ..s }
    } else if addr == CLK_GPOUT0_CTRL_ADDR {
        MachineState { clk_gpout0_ctrl: v, ..s }
    } else if addr == CLK_REF_CTRL_ADDR {
        MachineState { clk_ref: mux_write(s.clk_ref, v, s.cfg.ref_mux_settle_reads), ..s }
    } else if addr == CLK_SYS_CTRL_ADDR {
        MachineState { clk_sys: mux_write(s.clk_sys, v, s.cfg.sys_mux_settle_reads), ..s }
    } else if addr == CLK_PERI_CTRL_ADDR {
        MachineState { clk_peri_ctrl: v, ..s }
    } else if addr == PLL_SYS_PWR_ADDR {
        MachineState { pll_sys: pll_write_pwr(s.pll_sys, v, s.cfg.pll_sys_lock_reads), ..s }
    } else if addr == PLL_SYS_FBDIV_ADDR {
        MachineState { pll_sys: pll_write_fbdiv(s.pll_sys, v, s.cfg.pll_sys_lock_reads), ..s }
    } else if addr == PLL_SYS_PRIM_ADDR {
        MachineState { pll_sys: pll_write_prim(s.pll_sys, v, s.cfg.pll_sys_lock_reads), ..s }
    } else if addr == PLL_USB_PWR_ADDR {
        MachineState { pll_usb: pll_write_pwr(s.pll_usb, v, s.cfg.pll_usb_lock_reads), ..s }
    } else if addr == PLL_USB_FBDIV_ADDR {
        MachineState { pll_usb: pll_write_fbdiv(s.pll_usb, v, s.cfg.pll_usb_lock_reads), ..s }
    } else if addr == PLL_USB_PRIM_ADDR {
        MachineState { pll_usb: pll_write_prim(s.pll_usb, v, s.cfg.pll_usb_lock_reads), ..s }
    } else if is_pads_addr(addr) {
        MachineState { pads: s.pads.update(pads_index(addr), v), ..s }
    } else if is_io_ctrl_addr(addr) {
        MachineState { io_ctrl: s.io_ctrl.update(io_index(addr), v), ..s }
    } else if addr == SIO_OUT_SET_ADDR {
        MachineState { sio_out: s.sio_out | v, ..s }
    } else if addr == SIO_OUT_CLR_ADDR {
        MachineState { sio_out: s.sio_out & !v, ..s }
    } else if addr == SIO_OE_SET_ADDR {
        MachineState { sio_oe: s.sio_oe | v, ..s }
    } else if addr == SIO_OE_CLR_ADDR {
        MachineState { sio_oe: s.sio_oe & !v, ..s }
    } else if addr == WATCHDOG_TICK_ADDR {
        MachineState { watchdog_tick: v, ..s }
    } else if addr == TIMER_DBGPAUSE_ADDR {
        MachineState { timer_dbgpause: v, ..s }
    } else {
        s
    }
}

/// Register value an atomic set or clear starts from: the last value
/// software put there (for a mux, the pending value).
pub open spec fn rmw_target(s: MachineState, addr: u32) -> u32 {
    if addr == RESETS_RESET_ADDR {
        s.resets
    } else if addr == CLK_GPOUT0_CTRL_ADDR {
        s.clk_gpout0_ctrl
    } else if addr == CLK_REF_CTRL_ADDR {
        s.clk_ref.pending
    } else if addr == CLK_SYS_CTRL_ADDR {
        s.clk_sys.pending
    } else if addr == CLK_PERI_CTRL_ADDR {
        s.clk_peri_ctrl
    } else if addr == PLL_SYS_PWR_ADDR {
        s.pll_sys.pwr
    } else if addr == PLL_SYS_FBDIV_ADDR {
        s.pll_sys.fbdiv
    } else if addr == PLL_SYS_PRIM_ADDR {
        s.pll_sys.prim
    } else if addr == PLL_USB_PWR_ADDR {
        s.pll_usb.pwr
    } else if addr == PLL_USB_FBDIV_ADDR {
        s.pll_usb.fbdiv
    } else if addr == PLL_USB_PRIM_ADDR {
        s.pll_usb.prim
    } else {
        0
    }
}

/// State after an atomic set: one write of `mask` to the set alias ORs it
/// into the register.
pub open spec fn set_next(s: MachineState, addr: u32, mask: u32) -> MachineState {
    write_next(s, addr, rmw_target(s, addr) | mask)
}

/// State after an atomic clear: one write of `mask` to the clear alias
/// AND-NOTs it out of the register.
pub open spec fn clear_next(s: MachineState, addr: u32, mask: u32) -> MachineState {
    write_next(s, addr, rmw_target(s, addr) & !mask)
}

impl Mux {
    /// One read of the mux register.
    fn poll_read(&mut self) -> (r: u32)
        ensures
            *final(self) == mux_poll(*old(self)),
            r == old(self).visible,
    {
        let r = self.visible;
        if self.settle == 1 {
            self.visible = self.pending;
            self.settle = 0;
        } else if self.settle > 1 {
            self.settle = self.settle - 1;
        }
        r
    }

    /// One write to the mux register, with the configured settle latency.
    fn write_value(&mut self, v: u32, settle_reads: u32)
        ensures
            *final(self) == mux_write(*old(self), v, settle_reads),
    {
        if v == self.visible || settle_reads == 0 {
            self.visible = v;
            self.pending = v;
            self.settle = 0;
        } else {
            self.pending = v;
            self.settle = settle_reads;
        }
    }
}

impl Xosc {
    /// One read of the oscillator status register.
    fn status_read(&mut self) -> (r: u32)
        ensures
            *final(self) == xosc_poll(*old(self)),
            r == (if xosc_stable(*old(self)) {
                XOSC_STABLE_BIT
            } else {
                0u32
            }),
    {
        if self.ctrl == XOSC_ENABLE_VALUE {
            if self.countdown > 0 {
                self.countdown = self.countdown - 1;
                0
            } else {
                XOSC_STABLE_BIT
            }
        } else {
            0
        }
    }
}

impl Pll {
    /// One read of the PLL control/status register.
    fn cs_read(&mut self, target_fbdiv: u32, target_prim: u32) -> (r: u32)
        ensures
            *final(self) == pll_poll(*old(self), target_fbdiv, target_prim),
            r == (if pll_locked(*old(self), target_fbdiv, target_prim) {
                PLL_LOCK_BIT
            } else {
                0u32
            }),
    {
        if self.pwr & PLL_PWR_DOWN_BITS == 0 && self.fbdiv == target_fbdiv && self.prim
            == target_prim {
            if self.countdown > 0 {
                self.countdown = self.countdown - 1;
                0
            } else {
                PLL_LOCK_BIT
            }
        } else {
            0
        }
    }
}

impl Machine {
    /// A register file in power-on state, answering polls as `cfg` says.
    pub fn new(cfg: SimConfig) -> (m: Machine)
        ensures
            m@.wf(),
            m@.cfg == cfg,
            m@.resets == RESETS_VALID_MASK,
            m@.xosc == (Xosc { ctrl: 0, countdown: 0 }),
            m@.clk_ref == (Mux { visible: 0, pending: 0, settle: 0 }),
            m@.clk_sys == (Mux { visible: 0, pending: 0, settle: 0 }),
            m@.clk_peri_ctrl == 0,
            m@.clk_gpout0_ctrl == 0,
            m@.pll_sys == (Pll { pwr: PLL_PWR_DOWN_BITS, fbdiv: 0, prim: 0, countdown: 0 }),
            m@.pll_usb == (Pll { pwr: PLL_PWR_DOWN_BITS, fbdiv: 0, prim: 0, countdown: 0 }),
            m@.pads == Seq::new(PADS_REG_COUNT as nat, |i: int| PAD_POWER_ON_VALUE),
            m@.io_ctrl == Seq::new(IO_GPIO_COUNT as nat, |i: int| IO_CTRL_POWER_ON_VALUE),
            m@.sio_out == 0,
            m@.sio_oe == 0,
            m@.watchdog_tick == 0,
            m@.timer_dbgpause == TIMER_DBGPAUSE_POWER_ON_VALUE,
    {
        let mut pads: Vec<u32> = Vec::new();
        let mut i: u32 = 0;
        while i < PADS_REG_COUNT
            invariant
                i <= PADS_REG_COUNT,
                pads@.len() == i,
                forall|j: int| 0 <= j < i ==> pads@[j] == PAD_POWER_ON_VALUE,
            decreases PADS_REG_COUNT - i,
        {
            pads.push(PAD_POWER_ON_VALUE);
            i = i + 1;
        }
        let mut io_ctrl: Vec<u32> = Vec::new();
        let mut k: u32 = 0;
        while k < IO_GPIO_COUNT
            invariant
                k <= IO_GPIO_COUNT,
                io_ctrl@.len() == k,
                forall|j: int| 0 <= j < k ==> io_ctrl@[j] == IO_CTRL_POWER_ON_VALUE,
            decreases IO_GPIO_COUNT - k,
        {
            io_ctrl.push(IO_CTRL_POWER_ON_VALUE);
            k = k + 1;
        }
        let m = Machine {
            cfg,
            resets: RESETS_VALID_MASK,
            xosc: Xosc { ctrl: 0, countdown: 0 },
            clk_ref: Mux { visible: 0, pending: 0, settle: 0 },
            clk_sys: Mux { visible: 0, pending: 0, settle: 0 },
            clk_peri_ctrl: 0,
            clk_gpout0_ctrl: 0,
            pll_sys: Pll { pwr: PLL_PWR_DOWN_BITS, fbdiv: 0, prim: 0, countdown: 0 },
            pll_usb: Pll { pwr: PLL_PWR_DOWN_BITS, fbdiv: 0, prim: 0, countdown: 0 },
            pads,
            io_ctrl,
            sio_out: 0,
            sio_oe: 0,
            watchdog_tick: 0,
            timer_dbgpause: TIMER_DBGPAUSE_POWER_ON_VALUE,
        };
        proof {
            assert(m@.pads =~= Seq::new(PADS_REG_COUNT as nat, |i: int| PAD_POWER_ON_VALUE));
            assert(m@.io_ctrl =~= Seq::new(IO_GPIO_COUNT as nat, |i: int| IO_CTRL_POWER_ON_VALUE));
        }
        m
    }

    /// Atomic volatile read of the register at `addr`.  Reads are
    /// order-preserving and can have side effects: a settling status
    /// register advances by one read.
    pub fn read_reg(&mut self, addr: u32) -> (r: u32)
        requires
            old(self)@.wf(),
            readable_addr(addr),
        ensures
            final(self)@ == read_next(old(self)@, addr),
            r == read_result(old(self)@, addr),
            final(self)@.wf(),
    {
        if addr == RESETS_RESET_ADDR {
            self.resets
        } else if addr == RESETS_DONE_ADDR {
            !self.resets & RESETS_VALID_MASK
        } else if addr == XOSC_CTRL_ADDR {
            self.xosc.ctrl
        } else if addr == XOSC_STATUS_ADDR {
            self.xosc.status_read()
        } else if addr == CLK_GPOUT0_CTRL_ADDR {
            self.clk_gpout0_ctrl
        } else if addr == CLK_REF_CTRL_ADDR {
            self.clk_ref.poll_read()
        } else if addr == CLK_SYS_CTRL_ADDR {
            self.clk_sys.poll_read()
        } else if addr == CLK_PERI_CTRL_ADDR {
            self.clk_peri_ctrl
        } else if addr == PLL_SYS_CS_ADDR {
            let tf = self.cfg.pll_sys_target_fbdiv;
            let tp = self.cfg.pll_sys_target_prim;
            self.pll_sys.cs_read(tf, tp)
        } else if addr == PLL_SYS_PWR_ADDR {
            self.pll_sys.pwr
        } else if addr == PLL_SYS_FBDIV_ADDR {
            self.pll_sys.fbdiv
        } else if addr == PLL_SYS_PRIM_ADDR {
            self.pll_sys.prim
        } else if addr == PLL_USB_CS_ADDR {
            let tf = self.cfg.pll_usb_target_fbdiv;
            let tp = self.cfg.pll_usb_target_prim;
            self.pll_usb.cs_read(tf, tp)
        } else if addr == PLL_USB_PWR_ADDR {
            self.pll_usb.pwr
        } else if addr == PLL_USB_FBDIV_ADDR {
            self.pll_usb.fbdiv
        } else if addr == PLL_USB_PRIM_ADDR {
            self.pll_usb.prim
        } else if addr >= PADS_BANK0_BASE && addr < PADS_BANK0_BASE + PADS_REG_COUNT * 4 && (addr
            - PADS_BANK0_BASE) % 4 == 0 {
            let idx: usize = ((addr - PADS_BANK0_BASE) / 4) as usize;
            self.pads[idx]
        } else if addr >= IO_BANK0_BASE && addr < IO_BANK0_BASE + IO_GPIO_COUNT * 8 && (addr
            - IO_BANK0_BASE) % 8 == 4 {
            let idx: usize = ((addr - IO_BANK0_BASE) / 8) as usize;
            self.io_ctrl[idx]
        } else if addr == SIO_OUT_ADDR {
            self.sio_out
        } else if addr == SIO_OE_ADDR {
            self.sio_oe
        } else if addr == WATCHDOG_TICK_ADDR {
            self.watchdog_tick
        } else {
            self.timer_dbgpause
        }
    }

    /// Atomic volatile write of `value` to the register at `addr`,
    /// replacing its prior contents.
    pub fn write_reg(&mut self, addr: u32, value: u32)
        requires
            old(self)@.wf(),
            writable_addr(addr),
        ensures
            final(self)@ == write_next(old(self)@, addr, value),
            final(self)@.wf(),
    {
        if addr == RESETS_RESET_ADDR {
            self.resets = value;
        } else if addr == XOSC_CTRL_ADDR {
            if value == XOSC_ENABLE_VALUE {
                self.xosc.ctrl = value;
                self.xosc.countdown = self.cfg.xosc_startup_reads;
            } else {
                self.xosc.ctrl = value;
            }
        } else if addr == CLK_GPOUT0_CTRL_ADDR {
            self.clk_gpout0_ctrl = value;
        } else if addr == CLK_REF_CTRL_ADDR {
            let d = self.cfg.ref_mux_settle_reads;
            self.clk_ref.write_value(value, d);
        } else if addr == CLK_SYS_CTRL_ADDR {
            let d = self.cfg.sys_mux_settle_reads;
            self.clk_sys.write_value(value, d);
        } else if addr == CLK_PERI_CTRL_ADDR {
            self.clk_peri_ctrl = value;
        } else if addr == PLL_SYS_PWR_ADDR {
            self.pll_sys.pwr = value;
            self.pll_sys.countdown = self.cfg.pll_sys_lock_reads;
        } else if addr == PLL_SYS_FBDIV_ADDR {
            self.pll_sys.fbdiv = value;
            self.pll_sys.countdown = self.cfg.pll_sys_lock_reads;
        } else if addr == PLL_SYS_PRIM_ADDR {
            self.pll_sys.prim = value;
            self.pll_sys.countdown = self.cfg.pll_sys_lock_reads;
        } else if addr == PLL_USB_PWR_ADDR {
            self.pll_usb.pwr = value;
            self.pll_usb.countdown = self.cfg.pll_usb_lock_reads;
        } else if addr == PLL_USB_FBDIV_ADDR {
            self.pll_usb.fbdiv = value;
            self.pll_usb.countdown = self.cfg.pll_usb_lock_reads;
        } else if addr == PLL_USB_PRIM_ADDR {
            self.pll_usb.prim = value;
            self.pll_usb.countdown = self.cfg.pll_usb_lock_reads;
        } else if addr >= PADS_BANK0_BASE && addr < PADS_BANK0_BASE + PADS_REG_COUNT * 4 && (addr
            - PADS_BANK0_BASE) % 4 == 0 {
            let idx: usize = ((addr - PADS_BANK0_BASE) / 4) as usize;
            self.pads[idx] = value;
        } else if addr >= IO_BANK0_BASE && addr < IO_BANK0_BASE + IO_GPIO_COUNT * 8 && (addr
            - IO_BANK0_BASE) % 8 == 4 {
            let idx: usize = ((addr - IO_BANK0_BASE) / 8) as usize;
            self.io_ctrl[idx] = value;
        } else if addr == SIO_OUT_SET_ADDR {
            self.sio_out = self.sio_out | value;
        } else if addr == SIO_OUT_CLR_ADDR {
            self.sio_out = self.sio_out & !value;
        } else if addr == SIO_OE_SET_ADDR {
            self.sio_oe = self.sio_oe | value;
        } else if addr == SIO_OE_CLR_ADDR {
            self.sio_oe = self.sio_oe & !value;
        } else if addr == WATCHDOG_TICK_ADDR {
            self.watchdog_tick = value;
        } else {
            self.timer_dbgpause = value;
        }
    }

    /// Current register value an atomic set or clear starts from; no side
    /// effect.
    fn rmw_current(&self, addr: u32) -> (r: u32)
        requires
            alias_addr(addr),
        ensures
            r == rmw_target(self@, addr),
    {
        if addr == RESETS_RESET_ADDR {
            self.resets
        } else if addr == CLK_GPOUT0_CTRL_ADDR {
            self.clk_gpout0_ctrl
        } else if addr == CLK_REF_CTRL_ADDR {
            self.clk_ref.pending
        } else if addr == CLK_SYS_CTRL_ADDR {
            self.clk_sys.pending
        } else if addr == CLK_PERI_CTRL_ADDR {
            self.clk_peri_ctrl
        } else if addr == PLL_SYS_PWR_ADDR {
            self.pll_sys.pwr
        } else if addr == PLL_SYS_FBDIV_ADDR {
            self.pll_sys.fbdiv
        } else if addr == PLL_SYS_PRIM_ADDR {
            self.pll_sys.prim
        } else if addr == PLL_USB_PWR_ADDR {
            self.pll_usb.pwr
        } else if addr == PLL_USB_FBDIV_ADDR {
            self.pll_usb.fbdiv
        } else {
            self.pll_usb.prim
        }
    }

    /// Atomic `*addr |= mask`, performed by one write of `mask` to the
    /// hardware set alias at `addr + SET_ALIAS_OFFSET`, so no other bit of
    /// the register, nor any other register, is disturbed.  Only
    /// peripheral blocks that implement the alias convention may be
    /// targeted.
    pub fn set_bits(&mut self, addr: u32, mask: u32)
        requires
            old(self)@.wf(),
            alias_addr(addr),
        ensures
            final(self)@ == set_next(old(self)@, addr, mask),
            final(self)@.wf(),
    {
        let cur = self.rmw_current(addr);
        self.write_reg(addr, cur | mask);
    }

    /// Atomic `*addr &= !mask`, performed by one write of `mask` to the
    /// hardware clear alias at `addr + CLEAR_ALIAS_OFFSET`; the
    /// counterpart of `set_bits`.
    pub fn clear_bits(&mut self, addr: u32, mask: u32)
        requires
            old(self)@.wf(),
            alias_addr(addr),
        ensures
            final(self)@ == clear_next(old(self)@, addr, mask),
            final(self)@.wf(),
    {
        let cur = self.rmw_current(addr);
        self.write_reg(addr, cur & !mask);
    }
}

} // verus!
