//! Clock and pin bring-up sequencer.
//!
//! A fixed, one-shot sequence of register operations with embedded
//! wait-for-condition steps.  The order is load-bearing: each step assumes
//! the hardware state established by the one before it.  Every wait is a
//! busy-poll of a status register; the waits return the number of polls
//! they performed, which the register model pins down exactly.
//!
//! The sequence, in order: start the crystal oscillator and wait for
//! stability; move the reference clock onto the oscillator and the system
//! clock onto the reference clock, confirming each glitchless mux switch
//! by readback; cycle both PLLs through reset, reprogram their dividers
//! while powered down, and wait for lock; hand the system clock to the
//! system PLL; re-derive the peripheral clock; set the watchdog tick
//! divider for a one-microsecond tick; and bring one pin out of reset into
//! software-driven output mode.

use vstd::prelude::*;

use crate::machine::{read_result, xosc_enabled, Machine, MachineState, Mux, Pll, Xosc};
use crate::regs::{
    CLK_GPOUT0_CTRL_ADDR, CLK_PERI_CTRL_ADDR, CLK_PERI_ENABLE_BIT, CLK_REF_CTRL_ADDR,
    CLK_REF_SRC_XOSC, CLK_SYS_AUXSRC_MASK, CLK_SYS_AUX_ENABLE_BIT, CLK_SYS_CTRL_ADDR,
    IO_BANK0_BASE, IO_FUNCSEL_SIO, IO_GPIO_COUNT, PADS_BANK0_BASE, PAD_OUTPUT_VALUE,
    PLL_LOCK_BIT, PLL_PWR_DOWN_BITS, PLL_SYS_CS_ADDR, PLL_SYS_FBDIV, PLL_SYS_FBDIV_ADDR,
    PLL_SYS_PRIM_ADDR, PLL_SYS_PRIM_VALUE, PLL_SYS_PWR_ADDR, PLL_USB_CS_ADDR, PLL_USB_FBDIV,
    PLL_USB_FBDIV_ADDR, PLL_USB_PRIM_ADDR, PLL_USB_PRIM_VALUE, PLL_USB_PWR_ADDR,
    RESETS_RESET_ADDR, RESET_BIT_IO_BANK0, RESET_BIT_PADS_BANK0, RESET_BIT_PLL_SYS,
    RESET_BIT_PLL_USB, SIO_OE_SET_ADDR, SIO_OUT_CLR_ADDR, SIO_OUT_SET_ADDR,
    TIMER_DBGPAUSE_ADDR, WATCHDOG_TICK_ADDR, WATCHDOG_TICK_VALUE, XOSC_CTRL_ADDR,
    XOSC_ENABLE_VALUE, XOSC_STABLE_BIT, XOSC_STATUS_ADDR,
};

verus! {

/// Busy-poll the oscillator status register until the stable bit is set.
///
/// The poll returns control on the very read that first shows the bit: if
/// the model makes the bit visible after `countdown` reads, the wait takes
/// exactly `countdown + 1` polls, and the register file is otherwise
/// untouched.
pub fn wait_xosc_stable(m: &mut Machine) -> (iters: u64)
    requires
        old(m)@.wf(),
        xosc_enabled(old(m)@.xosc),
    ensures
        final(m)@ == (MachineState {
            xosc: (Xosc { ctrl: XOSC_ENABLE_VALUE, countdown: 0 }),
            ..old(m)@
        }),
        iters == old(m)@.xosc.countdown + 1,
        final(m)@.wf(),
{
    let ghost s0 = m@;
    let mut iters: u64 = 0;
    loop
        invariant_except_break
            m@.wf(),
            m@ == (MachineState {
                xosc: (Xosc { ctrl: XOSC_ENABLE_VALUE, countdown: m@.xosc.countdown }),
                ..s0
            }),
            iters == s0.xosc.countdown - m@.xosc.countdown,
        ensures
            m@ == (MachineState { xosc: (Xosc { ctrl: XOSC_ENABLE_VALUE, countdown: 0 }), ..s0 }),
            iters == s0.xosc.countdown + 1,
        decreases m@.xosc.countdown,
    {
        let status = m.read_reg(XOSC_STATUS_ADDR);
        iters = iters + 1;
        proof {
            assert(XOSC_STABLE_BIT & XOSC_STABLE_BIT != 0) by (bit_vector);
            assert(0u32 & XOSC_STABLE_BIT == 0) by (bit_vector);
        }
        if status & XOSC_STABLE_BIT != 0 {
            break;
        }
    }
    iters
}

/// Busy-poll the reference-clock mux until the readback confirms `src`.
///
/// `src` must already have been written; the glitchless mux takes a
/// settling time to switch, so the wait takes exactly one poll more than
/// the settle count the switch started with.
pub fn wait_clk_ref_src(m: &mut Machine, src: u32) -> (iters: u64)
    requires
        old(m)@.wf(),
        old(m)@.clk_ref.pending == src,
    ensures
        final(m)@ == (MachineState {
            clk_ref: (Mux { visible: src, pending: src, settle: 0 }),
            ..old(m)@
        }),
        iters == old(m)@.clk_ref.settle + 1,
        final(m)@.wf(),
{
    let ghost s0 = m@;
    let mut iters: u64 = 0;
    loop
        invariant_except_break
            m@.wf(),
            m@ == (MachineState {
                clk_ref: (Mux {
                    visible: m@.clk_ref.visible,
                    pending: src,
                    settle: m@.clk_ref.settle,
                }),
                ..s0
            }),
            iters == s0.clk_ref.settle - m@.clk_ref.settle,
        ensures
            m@ == (MachineState {
                clk_ref: (Mux { visible: src, pending: src, settle: 0 }),
                ..s0
            }),
            iters == s0.clk_ref.settle + 1,
        decreases m@.clk_ref.settle,
    {
        let v = m.read_reg(CLK_REF_CTRL_ADDR);
        iters = iters + 1;
        if v == src {
            break;
        }
    }
    iters
}

/// Busy-poll the system-clock mux until the readback shows the glitchless
/// select on the reference clock (auxiliary bit clear).
pub fn wait_clk_sys_on_ref(m: &mut Machine) -> (iters: u64)
    requires
        old(m)@.wf(),
        old(m)@.clk_sys.pending & CLK_SYS_AUX_ENABLE_BIT == 0,
        old(m)@.clk_sys.settle > 0 ==> old(m)@.clk_sys.visible & CLK_SYS_AUX_ENABLE_BIT
            == CLK_SYS_AUX_ENABLE_BIT,
    ensures
        final(m)@ == (MachineState {
            clk_sys: (Mux {
                visible: old(m)@.clk_sys.pending,
                pending: old(m)@.clk_sys.pending,
                settle: 0,
            }),
            ..old(m)@
        }),
        iters == old(m)@.clk_sys.settle + 1,
        final(m)@.wf(),
{
    let ghost s0 = m@;
    let mut iters: u64 = 0;
    loop
        invariant_except_break
            m@.wf(),
            m@ == (MachineState {
                clk_sys: (Mux {
                    visible: m@.clk_sys.visible,
                    pending: s0.clk_sys.pending,
                    settle: m@.clk_sys.settle,
                }),
                ..s0
            }),
            s0.clk_sys.pending & CLK_SYS_AUX_ENABLE_BIT == 0,
            m@.clk_sys.settle > 0 ==> m@.clk_sys.visible & CLK_SYS_AUX_ENABLE_BIT
                == CLK_SYS_AUX_ENABLE_BIT,
            iters == s0.clk_sys.settle - m@.clk_sys.settle,
        ensures
            m@ == (MachineState {
                clk_sys: (Mux {
                    visible: s0.clk_sys.pending,
                    pending: s0.clk_sys.pending,
                    settle: 0,
                }),
                ..s0
            }),
            iters == s0.clk_sys.settle + 1,
        decreases m@.clk_sys.settle,
    {
        let v = m.read_reg(CLK_SYS_CTRL_ADDR);
        iters = iters + 1;
        if v & CLK_SYS_AUX_ENABLE_BIT == 0 {
            break;
        }
    }
    iters
}

/// Busy-poll the system-clock mux until the readback shows the glitchless
/// select on the auxiliary source (auxiliary bit set).
pub fn wait_clk_sys_on_aux(m: &mut Machine) -> (iters: u64)
    requires
        old(m)@.wf(),
        old(m)@.clk_sys.pending & CLK_SYS_AUX_ENABLE_BIT == CLK_SYS_AUX_ENABLE_BIT,
        old(m)@.clk_sys.settle > 0 ==> old(m)@.clk_sys.visible & CLK_SYS_AUX_ENABLE_BIT == 0,
    ensures
        final(m)@ == (MachineState {
            clk_sys: (Mux {
                visible: old(m)@.clk_sys.pending,
                pending: old(m)@.clk_sys.pending,
                settle: 0,
            }),
            ..old(m)@
        }),
        iters == old(m)@.clk_sys.settle + 1,
        final(m)@.wf(),
{
    let ghost s0 = m@;
    let mut iters: u64 = 0;
    loop
        invariant_except_break
            m@.wf(),
            m@ == (MachineState {
                clk_sys: (Mux {
                    visible: m@.clk_sys.visible,
                    pending: s0.clk_sys.pending,
                    settle: m@.clk_sys.settle,
                }),
                ..s0
            }),
            s0.clk_sys.pending & CLK_SYS_AUX_ENABLE_BIT == CLK_SYS_AUX_ENABLE_BIT,
            m@.clk_sys.settle > 0 ==> m@.clk_sys.visible & CLK_SYS_AUX_ENABLE_BIT == 0,
            iters == s0.clk_sys.settle - m@.clk_sys.settle,
        ensures
            m@ == (MachineState {
                clk_sys: (Mux {
                    visible: s0.clk_sys.pending,
                    pending: s0.clk_sys.pending,
                    settle: 0,
                }),
                ..s0
            }),
            iters == s0.clk_sys.settle + 1,
        decreases m@.clk_sys.settle,
    {
        let v = m.read_reg(CLK_SYS_CTRL_ADDR);
        iters = iters + 1;
        if v & CLK_SYS_AUX_ENABLE_BIT != 0 {
            break;
        }
    }
    iters
}

/// Busy-poll the system PLL status register until the locked bit is set.
/// The PLL must be powered with its dividers on the lock target, or the
/// poll would never return.
pub fn wait_pll_sys_locked(m: &mut Machine) -> (iters: u64)
    requires
        old(m)@.wf(),
        old(m)@.pll_sys_lock_ready(),
    ensures
        final(m)@ == (MachineState {
            pll_sys: (Pll { countdown: 0, ..old(m)@.pll_sys }),
            ..old(m)@
        }),
        iters == old(m)@.pll_sys.countdown + 1,
        final(m)@.wf(),
{
    let ghost s0 = m@;
    let mut iters: u64 = 0;
    loop
        invariant_except_break
            m@.wf(),
            m@ == (MachineState {
                pll_sys: (Pll { countdown: m@.pll_sys.countdown, ..s0.pll_sys }),
                ..s0
            }),
            m@.pll_sys_lock_ready(),
            iters == s0.pll_sys.countdown - m@.pll_sys.countdown,
        ensures
            m@ == (MachineState { pll_sys: (Pll { countdown: 0, ..s0.pll_sys }), ..s0 }),
            iters == s0.pll_sys.countdown + 1,
        decreases m@.pll_sys.countdown,
    {
        let v = m.read_reg(PLL_SYS_CS_ADDR);
        iters = iters + 1;
        proof {
            assert(PLL_LOCK_BIT & PLL_LOCK_BIT != 0) by (bit_vector);
            assert(0u32 & PLL_LOCK_BIT == 0) by (bit_vector);
        }
        if v & PLL_LOCK_BIT != 0 {
            break;
        }
    }
    iters
}

/// Busy-poll the USB PLL status register until the locked bit is set; the
/// counterpart of `wait_pll_sys_locked`.
pub fn wait_pll_usb_locked(m: &mut Machine) -> (iters: u64)
    requires
        old(m)@.wf(),
        old(m)@.pll_usb_lock_ready(),
    ensures
        final(m)@ == (MachineState {
            pll_usb: (Pll { countdown: 0, ..old(m)@.pll_usb }),
            ..old(m)@
        }),
        iters == old(m)@.pll_usb.countdown + 1,
        final(m)@.wf(),
{
    let ghost s0 = m@;
    let mut iters: u64 = 0;
    loop
        invariant_except_break
            m@.wf(),
            m@ == (MachineState {
                pll_usb: (Pll { countdown: m@.pll_usb.countdown, ..s0.pll_usb }),
                ..s0
            }),
            m@.pll_usb_lock_ready(),
            iters == s0.pll_usb.countdown - m@.pll_usb.countdown,
        ensures
            m@ == (MachineState { pll_usb: (Pll { countdown: 0, ..s0.pll_usb }), ..s0 }),
            iters == s0.pll_usb.countdown + 1,
        decreases m@.pll_usb.countdown,
    {
        let v = m.read_reg(PLL_USB_CS_ADDR);
        iters = iters + 1;
        proof {
            assert(PLL_LOCK_BIT & PLL_LOCK_BIT != 0) by (bit_vector);
            assert(0u32 & PLL_LOCK_BIT == 0) by (bit_vector);
        }
        if v & PLL_LOCK_BIT != 0 {
            break;
        }
    }
    iters
}

/// Busy-poll the oscillator status register for at most `max_polls`
/// reads.
///
/// The unbounded wait hangs forever if the oscillator never stabilizes
/// (for instance because it was never enabled); this variant gives up
/// instead.  It returns the number of polls it took exactly when the
/// oscillator is enabled and its stable bit comes within the budget, and
/// `None` after spending the whole budget otherwise.
pub fn wait_xosc_stable_bounded(m: &mut Machine, max_polls: u64) -> (r: Option<u64>)
    requires
        old(m)@.wf(),
    ensures
        final(m)@.wf(),
        (xosc_enabled(old(m)@.xosc) && old(m)@.xosc.countdown < max_polls) ==> (r == Some(
            (old(m)@.xosc.countdown + 1) as u64,
        ) && final(m)@ == (MachineState {
            xosc: (Xosc { ctrl: XOSC_ENABLE_VALUE, countdown: 0 }),
            ..old(m)@
        })),
        !(xosc_enabled(old(m)@.xosc) && old(m)@.xosc.countdown < max_polls) ==> r
            == None::<u64>,
        (!xosc_enabled(old(m)@.xosc)) ==> final(m)@ == old(m)@,
        (xosc_enabled(old(m)@.xosc) && old(m)@.xosc.countdown >= max_polls) ==> final(m)@ == (
        MachineState {
            xosc: (Xosc {
                ctrl: old(m)@.xosc.ctrl,
                countdown: (old(m)@.xosc.countdown - max_polls) as u32,
            }),
            ..old(m)@
        }),
{
    let ghost s0 = m@;
    let mut polls: u64 = 0;
    while polls < max_polls
        invariant
            s0 == old(m)@,
            m@.wf(),
            polls <= max_polls,
            !xosc_enabled(s0.xosc) ==> m@ == s0,
            xosc_enabled(s0.xosc) ==> polls <= s0.xosc.countdown && m@ == (MachineState {
                xosc: (Xosc {
                    ctrl: s0.xosc.ctrl,
                    countdown: (s0.xosc.countdown - polls) as u32,
                }),
                ..s0
            }),
        decreases max_polls - polls,
    {
        let status = m.read_reg(XOSC_STATUS_ADDR);
        polls = polls + 1;
        proof {
            assert(XOSC_STABLE_BIT & XOSC_STABLE_BIT != 0) by (bit_vector);
            assert(0u32 & XOSC_STABLE_BIT == 0) by (bit_vector);
        }
        if status & XOSC_STABLE_BIT != 0 {
            return Some(polls);
        }
    }
    None
}

/// Busy-poll the system PLL status register for at most `max_polls`
/// reads.
///
/// The unbounded wait hangs forever if the PLL can never lock (powered
/// down, or dividers off the lock target); this variant gives up instead.
/// It returns the number of polls it took exactly when lock is possible
/// and comes within the budget, and `None` after spending the whole
/// budget otherwise.
pub fn wait_pll_sys_locked_bounded(m: &mut Machine, max_polls: u64) -> (r: Option<u64>)
    requires
        old(m)@.wf(),
    ensures
        final(m)@.wf(),
        (old(m)@.pll_sys_lock_ready() && old(m)@.pll_sys.countdown < max_polls) ==> (r == Some(
            (old(m)@.pll_sys.countdown + 1) as u64,
        ) && final(m)@ == (MachineState {
            pll_sys: (Pll { countdown: 0, ..old(m)@.pll_sys }),
            ..old(m)@
        })),
        !(old(m)@.pll_sys_lock_ready() && old(m)@.pll_sys.countdown < max_polls) ==> r
            == None::<u64>,
        (!old(m)@.pll_sys_lock_ready()) ==> final(m)@ == old(m)@,
        (old(m)@.pll_sys_lock_ready() && old(m)@.pll_sys.countdown >= max_polls) ==> final(m)@
            == (MachineState {
            pll_sys: (Pll {
                countdown: (old(m)@.pll_sys.countdown - max_polls) as u32,
                ..old(m)@.pll_sys
            }),
            ..old(m)@
        }),
{
    let ghost s0 = m@;
    let mut polls: u64 = 0;
    while polls < max_polls
        invariant
            s0 == old(m)@,
            m@.wf(),
            polls <= max_polls,
            !s0.pll_sys_lock_ready() ==> m@ == s0,
            s0.pll_sys_lock_ready() ==> polls <= s0.pll_sys.countdown && m@ == (MachineState {
                pll_sys: (Pll {
                    countdown: (s0.pll_sys.countdown - polls) as u32,
                    ..s0.pll_sys
                }),
                ..s0
            }),
        decreases max_polls - polls,
    {
        let v = m.read_reg(PLL_SYS_CS_ADDR);
        polls = polls + 1;
        proof {
            assert(PLL_LOCK_BIT & PLL_LOCK_BIT != 0) by (bit_vector);
            assert(0u32 & PLL_LOCK_BIT == 0) by (bit_vector);
        }
        if v & PLL_LOCK_BIT != 0 {
            return Some(polls);
        }
    }
    None
}

/// Busy-poll the USB PLL status register for at most `max_polls` reads;
/// the counterpart of `wait_pll_sys_locked_bounded`.
pub fn wait_pll_usb_locked_bounded(m: &mut Machine, max_polls: u64) -> (r: Option<u64>)
    requires
        old(m)@.wf(),
    ensures
        final(m)@.wf(),
        (old(m)@.pll_usb_lock_ready() && old(m)@.pll_usb.countdown < max_polls) ==> (r == Some(
            (old(m)@.pll_usb.countdown + 1) as u64,
        ) && final(m)@ == (MachineState {
            pll_usb: (Pll { countdown: 0, ..old(m)@.pll_usb }),
            ..old(m)@
        })),
        !(old(m)@.pll_usb_lock_ready() && old(m)@.pll_usb.countdown < max_polls) ==> r
            == None::<u64>,
        (!old(m)@.pll_usb_lock_ready()) ==> final(m)@ == old(m)@,
        (old(m)@.pll_usb_lock_ready() && old(m)@.pll_usb.countdown >= max_polls) ==> final(m)@
            == (MachineState {
            pll_usb: (Pll {
                countdown: (old(m)@.pll_usb.countdown - max_polls) as u32,
                ..old(m)@.pll_usb
            }),
            ..old(m)@
        }),
{
    let ghost s0 = m@;
    let mut polls: u64 = 0;
    while polls < max_polls
        invariant
            s0 == old(m)@,
            m@.wf(),
            polls <= max_polls,
            !s0.pll_usb_lock_ready() ==> m@ == s0,
            s0.pll_usb_lock_ready() ==> polls <= s0.pll_usb.countdown && m@ == (MachineState {
                pll_usb: (Pll {
                    countdown: (s0.pll_usb.countdown - polls) as u32,
                    ..s0.pll_usb
                }),
                ..s0
            }),
        decreases max_polls - polls,
    {
        let v = m.read_reg(PLL_USB_CS_ADDR);
        polls = polls + 1;
        proof {
            assert(PLL_LOCK_BIT & PLL_LOCK_BIT != 0) by (bit_vector);
            assert(0u32 & PLL_LOCK_BIT == 0) by (bit_vector);
        }
        if v & PLL_LOCK_BIT != 0 {
            return Some(polls);
        }
    }
    None
}

/// Assert then deassert a peripheral's reset bit in the shared reset
/// register, through the atomic set and clear operations, so that no
/// unrelated bit of the register is ever disturbed.  Deassertion is
/// immediate at the register level.
pub fn reset_peripheral(m: &mut Machine, mask: u32)
    requires
        old(m)@.wf(),
    ensures
        final(m)@ == (MachineState {
            resets: (old(m)@.resets | mask) & !mask,
            ..old(m)@
        }),
        final(m)@.resets & mask == 0,
        final(m)@.resets & !mask == old(m)@.resets & !mask,
        final(m)@.wf(),
{
    m.set_bits(RESETS_RESET_ADDR, mask);
    m.clear_bits(RESETS_RESET_ADDR, mask);
    proof {
        let r = old(m)@.resets;
        assert(((r | mask) & !mask) & mask == 0) by (bit_vector);
        assert(((r | mask) & !mask) & !mask == r & !mask) by (bit_vector);
    }
}

/// Power the system PLL down, program its feedback divider and
/// post-divider register, and power it back up.  The PLL is disabled while
/// its dividers change, as a running PLL must not be reprogrammed.  After
/// the call, lock can be reached exactly when the programmed values equal
/// the divider pair the simulated hardware locks on.
pub fn configure_pll_sys(m: &mut Machine, fbdiv: u32, prim: u32)
    requires
        old(m)@.wf(),
    ensures
        final(m)@ == (MachineState {
            pll_sys: (Pll {
                pwr: 0,
                fbdiv: fbdiv,
                prim: prim,
                countdown: old(m)@.cfg.pll_sys_lock_reads,
            }),
            ..old(m)@
        }),
        final(m)@.pll_sys_lock_ready() <==> (fbdiv == old(m)@.cfg.pll_sys_target_fbdiv && prim
            == old(m)@.cfg.pll_sys_target_prim),
        final(m)@.wf(),
{
    m.write_reg(PLL_SYS_PWR_ADDR, PLL_PWR_DOWN_BITS);
    m.write_reg(PLL_SYS_FBDIV_ADDR, fbdiv);
    m.write_reg(PLL_SYS_PRIM_ADDR, prim);
    m.clear_bits(PLL_SYS_PWR_ADDR, PLL_PWR_DOWN_BITS);
    proof {
        assert(PLL_PWR_DOWN_BITS & !PLL_PWR_DOWN_BITS == 0) by (bit_vector);
        assert(0u32 & PLL_PWR_DOWN_BITS == 0) by (bit_vector);
    }
}

/// Power the USB PLL down, program its dividers, and power it back up; the
/// counterpart of `configure_pll_sys`.
pub fn configure_pll_usb(m: &mut Machine, fbdiv: u32, prim: u32)
    requires
        old(m)@.wf(),
    ensures
        final(m)@ == (MachineState {
            pll_usb: (Pll {
                pwr: 0,
                fbdiv: fbdiv,
                prim: prim,
                countdown: old(m)@.cfg.pll_usb_lock_reads,
            }),
            ..old(m)@
        }),
        final(m)@.pll_usb_lock_ready() <==> (fbdiv == old(m)@.cfg.pll_usb_target_fbdiv && prim
            == old(m)@.cfg.pll_usb_target_prim),
        final(m)@.wf(),
{
    m.write_reg(PLL_USB_PWR_ADDR, PLL_PWR_DOWN_BITS);
    m.write_reg(PLL_USB_FBDIV_ADDR, fbdiv);
    m.write_reg(PLL_USB_PRIM_ADDR, prim);
    m.clear_bits(PLL_USB_PWR_ADDR, PLL_PWR_DOWN_BITS);
    proof {
        assert(PLL_PWR_DOWN_BITS & !PLL_PWR_DOWN_BITS == 0) by (bit_vector);
        assert(0u32 & PLL_PWR_DOWN_BITS == 0) by (bit_vector);
    }
}

/// Final value of the system-clock mux control register after bring-up:
/// auxiliary source field cleared (system PLL) and the glitchless select
/// moved to the auxiliary path.
pub open spec fn clk_sys_final_value(initial_pending: u32) -> u32 {
    ((initial_pending & !CLK_SYS_AUX_ENABLE_BIT) & !CLK_SYS_AUXSRC_MASK) | CLK_SYS_AUX_ENABLE_BIT
}

/// Bring the clock tree from power-on state to the target configuration:
/// crystal oscillator running, reference clock on the crystal, both PLLs
/// reset, reprogrammed and locked, system clock on the system PLL,
/// peripheral clock re-derived from it, watchdog tick at one microsecond,
/// and the timer no longer pausing under a debugger.
///
/// The clock muxes must not be mid-switch on entry (true at power-on), and
/// the simulated hardware must lock on the divider plan this sequence
/// programs; on hardware whose PLLs lock on anything else the sequence
/// would poll forever.
pub fn init_clocks(m: &mut Machine)
    requires
        old(m)@.wf(),
        old(m)@.clk_ref.settle == 0,
        old(m)@.clk_sys.settle == 0,
        old(m)@.cfg.pll_sys_target_fbdiv == PLL_SYS_FBDIV,
        old(m)@.cfg.pll_sys_target_prim == PLL_SYS_PRIM_VALUE,
        old(m)@.cfg.pll_usb_target_fbdiv == PLL_USB_FBDIV,
        old(m)@.cfg.pll_usb_target_prim == PLL_USB_PRIM_VALUE,
    ensures
        final(m)@.wf(),
        final(m)@.xosc == (Xosc { ctrl: XOSC_ENABLE_VALUE, countdown: 0 }),
        final(m)@.clk_ref == (Mux {
            visible: CLK_REF_SRC_XOSC,
            pending: CLK_REF_SRC_XOSC,
            settle: 0,
        }),
        final(m)@.clk_sys == (Mux {
            visible: clk_sys_final_value(old(m)@.clk_sys.pending),
            pending: clk_sys_final_value(old(m)@.clk_sys.pending),
            settle: 0,
        }),
        final(m)@.clk_sys.visible & CLK_SYS_AUX_ENABLE_BIT == CLK_SYS_AUX_ENABLE_BIT,
        final(m)@.clk_sys.visible & CLK_SYS_AUXSRC_MASK == 0,
        final(m)@.resets == (((old(m)@.resets | RESET_BIT_PLL_SYS) & !RESET_BIT_PLL_SYS
            | RESET_BIT_PLL_USB) & !RESET_BIT_PLL_USB),
        final(m)@.resets & (RESET_BIT_PLL_SYS | RESET_BIT_PLL_USB) == 0,
        final(m)@.resets & !(RESET_BIT_PLL_SYS | RESET_BIT_PLL_USB) == old(m)@.resets & !(
        RESET_BIT_PLL_SYS | RESET_BIT_PLL_USB),
        final(m)@.pll_sys == (Pll {
            pwr: 0,
            fbdiv: PLL_SYS_FBDIV,
            prim: PLL_SYS_PRIM_VALUE,
            countdown: 0,
        }),
        final(m)@.pll_usb == (Pll {
            pwr: 0,
            fbdiv: PLL_USB_FBDIV,
            prim: PLL_USB_PRIM_VALUE,
            countdown: 0,
        }),
        read_result(final(m)@, PLL_SYS_CS_ADDR) == PLL_LOCK_BIT,
        read_result(final(m)@, PLL_USB_CS_ADDR) == PLL_LOCK_BIT,
        read_result(final(m)@, XOSC_STATUS_ADDR) == XOSC_STABLE_BIT,
        final(m)@.clk_peri_ctrl == CLK_PERI_ENABLE_BIT,
        final(m)@.watchdog_tick == WATCHDOG_TICK_VALUE,
        final(m)@.timer_dbgpause == 0,
        final(m)@.cfg == old(m)@.cfg,
        final(m)@.clk_gpout0_ctrl == old(m)@.clk_gpout0_ctrl,
        final(m)@.pads == old(m)@.pads,
        final(m)@.io_ctrl == old(m)@.io_ctrl,
        final(m)@.sio_out == old(m)@.sio_out,
        final(m)@.sio_oe == old(m)@.sio_oe,
{
    let ghost p0 = m@.clk_sys.pending;

    // Start the crystal oscillator and wait for its stable bit.
    m.write_reg(XOSC_CTRL_ADDR, XOSC_ENABLE_VALUE);
    wait_xosc_stable(m);

    // Move the reference clock onto the crystal oscillator; the glitchless
    // mux switch must be confirmed by readback before anything downstream
    // may rely on it.
    m.write_reg(CLK_REF_CTRL_ADDR, CLK_REF_SRC_XOSC);
    wait_clk_ref_src(m, CLK_REF_SRC_XOSC);

    // Park the system clock on the reference clock so the PLLs can be
    // reconfigured without a downstream consumer observing an unstable
    // auxiliary source.
    m.clear_bits(CLK_SYS_CTRL_ADDR, CLK_SYS_AUX_ENABLE_BIT);
    proof {
        assert((p0 & !CLK_SYS_AUX_ENABLE_BIT) & CLK_SYS_AUX_ENABLE_BIT == 0) by (bit_vector);
        assert((p0 & !CLK_SYS_AUX_ENABLE_BIT != p0) ==> (p0 & CLK_SYS_AUX_ENABLE_BIT
            == CLK_SYS_AUX_ENABLE_BIT)) by (bit_vector);
    }
    wait_clk_sys_on_ref(m);

    // Cycle each PLL subsystem through reset before touching it.
    reset_peripheral(m, RESET_BIT_PLL_SYS);
    reset_peripheral(m, RESET_BIT_PLL_USB);

    // Reprogram each PLL while powered down, re-enable it, and wait for
    // lock.
    configure_pll_sys(m, PLL_SYS_FBDIV, PLL_SYS_PRIM_VALUE);
    wait_pll_sys_locked(m);
    configure_pll_usb(m, PLL_USB_FBDIV, PLL_USB_PRIM_VALUE);
    wait_pll_usb_locked(m);

    // Point the system clock's auxiliary source at the system PLL first,
    // then move the glitchless select onto the auxiliary path, and confirm
    // the switch.  The auxiliary source must be settled before the
    // glitchless mux is told to use it.
    let ctrl = m.read_reg(CLK_SYS_CTRL_ADDR);
    m.write_reg(CLK_SYS_CTRL_ADDR, ctrl & !CLK_SYS_AUXSRC_MASK);
    m.set_bits(CLK_SYS_CTRL_ADDR, CLK_SYS_AUX_ENABLE_BIT);
    proof {
        assert(((((p0 & !CLK_SYS_AUX_ENABLE_BIT) & !CLK_SYS_AUXSRC_MASK)
            | CLK_SYS_AUX_ENABLE_BIT) & CLK_SYS_AUX_ENABLE_BIT) == CLK_SYS_AUX_ENABLE_BIT)
            by (bit_vector);
        assert((((p0 & !CLK_SYS_AUX_ENABLE_BIT) & !CLK_SYS_AUXSRC_MASK)
            & CLK_SYS_AUX_ENABLE_BIT) == 0) by (bit_vector);
        assert(((((p0 & !CLK_SYS_AUX_ENABLE_BIT) & !CLK_SYS_AUXSRC_MASK)
            | CLK_SYS_AUX_ENABLE_BIT) & CLK_SYS_AUXSRC_MASK) == 0) by (bit_vector);
    }
    wait_clk_sys_on_aux(m);
    proof {
        let r0 = old(m)@.resets;
        assert(((((r0 | RESET_BIT_PLL_SYS) & !RESET_BIT_PLL_SYS | RESET_BIT_PLL_USB)
            & !RESET_BIT_PLL_USB) & (RESET_BIT_PLL_SYS | RESET_BIT_PLL_USB)) == 0)
            by (bit_vector);
        assert(((((r0 | RESET_BIT_PLL_SYS) & !RESET_BIT_PLL_SYS | RESET_BIT_PLL_USB)
            & !RESET_BIT_PLL_USB) & !(RESET_BIT_PLL_SYS | RESET_BIT_PLL_USB)) == (r0 & !(
        RESET_BIT_PLL_SYS | RESET_BIT_PLL_USB))) by (bit_vector);
        assert(0u32 & PLL_PWR_DOWN_BITS == 0) by (bit_vector);
    }

    // Re-derive the peripheral clock from the now PLL-driven system clock:
    // stop it, stall for a bus read, and re-enable it.
    m.write_reg(CLK_PERI_CTRL_ADDR, 0);
    let _stall = m.read_reg(CLK_GPOUT0_CTRL_ADDR);
    m.write_reg(CLK_PERI_CTRL_ADDR, CLK_PERI_ENABLE_BIT);

    // One watchdog tick per microsecond, and keep the timer counting while
    // a debugger has the cores halted.
    m.write_reg(WATCHDOG_TICK_ADDR, WATCHDOG_TICK_VALUE);
    m.write_reg(TIMER_DBGPAUSE_ADDR, 0);
}

/// Bring one pin out of reset into software-driven output mode: cycle the
/// I/O bank and pad blocks through reset, enable the pad's output driver
/// and disable its input buffer, bind the pin to the single-cycle I/O
/// controller, and arm its output driver through the atomic set port so no
/// other pin's enable bit is disturbed.
pub fn init_io(m: &mut Machine, pin: u32)
    requires
        old(m)@.wf(),
        pin < IO_GPIO_COUNT,
    ensures
        final(m)@ == (MachineState {
            resets: (((old(m)@.resets | RESET_BIT_IO_BANK0) & !RESET_BIT_IO_BANK0
                | RESET_BIT_PADS_BANK0) & !RESET_BIT_PADS_BANK0),
            pads: old(m)@.pads.update(pin + 1, PAD_OUTPUT_VALUE),
            io_ctrl: old(m)@.io_ctrl.update(pin as int, IO_FUNCSEL_SIO),
            sio_oe: old(m)@.sio_oe | (1u32 << pin),
            ..old(m)@
        }),
        final(m)@.resets & (RESET_BIT_IO_BANK0 | RESET_BIT_PADS_BANK0) == 0,
        final(m)@.resets & !(RESET_BIT_IO_BANK0 | RESET_BIT_PADS_BANK0) == old(m)@.resets & !(
        RESET_BIT_IO_BANK0 | RESET_BIT_PADS_BANK0),
        final(m)@.pads[pin + 1] == PAD_OUTPUT_VALUE,
        final(m)@.io_ctrl[pin as int] == IO_FUNCSEL_SIO,
        final(m)@.sio_oe & (1u32 << pin) == (1u32 << pin),
        final(m)@.sio_oe & !(1u32 << pin) == old(m)@.sio_oe & !(1u32 << pin),
        final(m)@.wf(),
{
    reset_peripheral(m, RESET_BIT_IO_BANK0);
    reset_peripheral(m, RESET_BIT_PADS_BANK0);
    m.write_reg(PADS_BANK0_BASE + (pin + 1) * 4, PAD_OUTPUT_VALUE);
    m.write_reg(IO_BANK0_BASE + (pin * 8 + 4), IO_FUNCSEL_SIO);
    m.write_reg(SIO_OE_SET_ADDR, 1u32 << pin);
    proof {
        let r0 = old(m)@.resets;
        let oe = old(m)@.sio_oe;
        assert(((((r0 | RESET_BIT_IO_BANK0) & !RESET_BIT_IO_BANK0 | RESET_BIT_PADS_BANK0)
            & !RESET_BIT_PADS_BANK0) & (RESET_BIT_IO_BANK0 | RESET_BIT_PADS_BANK0)) == 0)
            by (bit_vector);
        assert(((((r0 | RESET_BIT_IO_BANK0) & !RESET_BIT_IO_BANK0 | RESET_BIT_PADS_BANK0)
            & !RESET_BIT_PADS_BANK0) & !(RESET_BIT_IO_BANK0 | RESET_BIT_PADS_BANK0)) == (r0 & !(
        RESET_BIT_IO_BANK0 | RESET_BIT_PADS_BANK0))) by (bit_vector);
        assert(pin < 32 ==> ((oe | (1u32 << pin)) & (1u32 << pin)) == (1u32 << pin))
            by (bit_vector);
        assert(pin < 32 ==> ((oe | (1u32 << pin)) & !(1u32 << pin)) == (oe & !(1u32 << pin)))
            by (bit_vector);
    }
}

/// Drive the pin's output high through the atomic set port of the output
/// register: its bit becomes 1 and every other pin's output is untouched.
pub fn pin_set_high(m: &mut Machine, pin: u32)
    requires
        old(m)@.wf(),
        pin < IO_GPIO_COUNT,
    ensures
        final(m)@ == (MachineState { sio_out: old(m)@.sio_out | (1u32 << pin), ..old(m)@ }),
        final(m)@.sio_out & (1u32 << pin) == (1u32 << pin),
        final(m)@.sio_out & !(1u32 << pin) == old(m)@.sio_out & !(1u32 << pin),
        final(m)@.wf(),
{
    m.write_reg(SIO_OUT_SET_ADDR, 1u32 << pin);
    proof {
        let x = old(m)@.sio_out;
        assert(pin < 32 ==> ((x | (1u32 << pin)) & (1u32 << pin)) == (1u32 << pin))
            by (bit_vector);
        assert(pin < 32 ==> ((x | (1u32 << pin)) & !(1u32 << pin)) == (x & !(1u32 << pin)))
            by (bit_vector);
    }
}

/// Drive the pin's output low through the atomic clear port of the output
/// register: its bit becomes 0 and every other pin's output is untouched.
pub fn pin_set_low(m: &mut Machine, pin: u32)
    requires
        old(m)@.wf(),
        pin < IO_GPIO_COUNT,
    ensures
        final(m)@ == (MachineState { sio_out: old(m)@.sio_out & !(1u32 << pin), ..old(m)@ }),
        final(m)@.sio_out & (1u32 << pin) == 0,
        final(m)@.sio_out & !(1u32 << pin) == old(m)@.sio_out & !(1u32 << pin),
        final(m)@.wf(),
{
    m.write_reg(SIO_OUT_CLR_ADDR, 1u32 << pin);
    proof {
        let x = old(m)@.sio_out;
        assert(pin < 32 ==> (((x & !(1u32 << pin)) & (1u32 << pin)) == 0)) by (bit_vector);
        assert(pin < 32 ==> (((x & !(1u32 << pin)) & !(1u32 << pin)) == (x & !(1u32 << pin))))
            by (bit_vector);
    }
}

} // verus!
