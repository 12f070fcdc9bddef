//! Laws of the register model and of the frequency plan, stated and
//! proved over the spec-level machine transitions.

use vstd::prelude::*;

use crate::machine::{clear_next, read_result, set_next, MachineState};
use crate::regs::{
    pll_output_hz, prim_postdiv1, prim_postdiv2, MICROSECONDS_PER_SECOND, PLL_SYS_FBDIV,
    PLL_SYS_POSTDIV1, PLL_SYS_POSTDIV2, PLL_SYS_PRIM_VALUE, PLL_USB_FBDIV, PLL_USB_POSTDIV1,
    PLL_USB_POSTDIV2, PLL_USB_PRIM_VALUE, RESETS_DONE_ADDR, RESETS_RESET_ADDR, RESETS_VALID_MASK,
    SYS_CLOCK_HZ, USB_CLOCK_HZ, WATCHDOG_TICK_DIVIDER, WATCHDOG_TICK_DIV_MASK,
    WATCHDOG_TICK_ENABLE_BIT, WATCHDOG_TICK_VALUE, XOSC_HZ,
};

verus! {

/// Law: asserting then deasserting a peripheral's reset bit through the
/// atomic set and clear operations leaves the peripheral out of reset, the
/// reset-done register showing "not in reset" for it, and every unrelated
/// bit of the shared reset register exactly as it was.
pub proof fn lemma_reset_cycle_isolated(s: MachineState, mask: u32, unrelated: u32)
    requires
        unrelated & mask == 0,
        mask & RESETS_VALID_MASK == mask,
    ensures
        clear_next(set_next(s, RESETS_RESET_ADDR, mask), RESETS_RESET_ADDR, mask).resets & mask
            == 0,
        clear_next(set_next(s, RESETS_RESET_ADDR, mask), RESETS_RESET_ADDR, mask).resets
            & unrelated == s.resets & unrelated,
        read_result(
            clear_next(set_next(s, RESETS_RESET_ADDR, mask), RESETS_RESET_ADDR, mask),
            RESETS_DONE_ADDR,
        ) & mask == mask,
{
    let r = s.resets;
    assert((((r | mask) & !mask) & mask) == 0) by (bit_vector);
    assert((unrelated & mask == 0) ==> ((((r | mask) & !mask) & unrelated) == (r & unrelated)))
        by (bit_vector);
    assert((mask & RESETS_VALID_MASK == mask) ==> (((!((r | mask) & !mask) & RESETS_VALID_MASK)
        & mask) == mask)) by (bit_vector);
}

/// Law: the system PLL divider plan is exact for the target frequency.
/// The post dividers encoded in the programmed register value are the
/// planned ones, and reference * fbdiv / (postdiv1 * postdiv2) equals the
/// target system frequency with no remainder.
pub proof fn lemma_sys_pll_frequency()
    ensures
        prim_postdiv1(PLL_SYS_PRIM_VALUE) == PLL_SYS_POSTDIV1,
        prim_postdiv2(PLL_SYS_PRIM_VALUE) == PLL_SYS_POSTDIV2,
        pll_output_hz(
            XOSC_HZ as int,
            PLL_SYS_FBDIV as int,
            PLL_SYS_POSTDIV1 as int,
            PLL_SYS_POSTDIV2 as int,
        ) == SYS_CLOCK_HZ,
        XOSC_HZ * PLL_SYS_FBDIV == SYS_CLOCK_HZ * (PLL_SYS_POSTDIV1 * PLL_SYS_POSTDIV2),
{
    assert(prim_postdiv1(PLL_SYS_PRIM_VALUE) == PLL_SYS_POSTDIV1) by (bit_vector);
    assert(prim_postdiv2(PLL_SYS_PRIM_VALUE) == PLL_SYS_POSTDIV2) by (bit_vector);
}

/// Law: the USB PLL divider plan is exact for the target frequency, as in
/// `lemma_sys_pll_frequency`.
pub proof fn lemma_usb_pll_frequency()
    ensures
        prim_postdiv1(PLL_USB_PRIM_VALUE) == PLL_USB_POSTDIV1,
        prim_postdiv2(PLL_USB_PRIM_VALUE) == PLL_USB_POSTDIV2,
        pll_output_hz(
            XOSC_HZ as int,
            PLL_USB_FBDIV as int,
            PLL_USB_POSTDIV1 as int,
            PLL_USB_POSTDIV2 as int,
        ) == USB_CLOCK_HZ,
        XOSC_HZ * PLL_USB_FBDIV == USB_CLOCK_HZ * (PLL_USB_POSTDIV1 * PLL_USB_POSTDIV2),
{
    assert(prim_postdiv1(PLL_USB_PRIM_VALUE) == PLL_USB_POSTDIV1) by (bit_vector);
    assert(prim_postdiv2(PLL_USB_PRIM_VALUE) == PLL_USB_POSTDIV2) by (bit_vector);
}

/// Law: the value programmed into the watchdog tick register enables the
/// tick generator with a divider of 12, and dividing the crystal frequency
/// by it yields exactly one tick per microsecond.
pub proof fn lemma_watchdog_tick_microsecond()
    ensures
        WATCHDOG_TICK_VALUE & WATCHDOG_TICK_DIV_MASK == WATCHDOG_TICK_DIVIDER,
        WATCHDOG_TICK_VALUE & WATCHDOG_TICK_ENABLE_BIT == WATCHDOG_TICK_ENABLE_BIT,
        WATCHDOG_TICK_DIVIDER * MICROSECONDS_PER_SECOND == XOSC_HZ,
        XOSC_HZ / WATCHDOG_TICK_DIVIDER == MICROSECONDS_PER_SECOND,
{
    assert(WATCHDOG_TICK_VALUE & WATCHDOG_TICK_DIV_MASK == WATCHDOG_TICK_DIVIDER)
        by (bit_vector);
    assert(WATCHDOG_TICK_VALUE & WATCHDOG_TICK_ENABLE_BIT == WATCHDOG_TICK_ENABLE_BIT)
        by (bit_vector);
}

} // verus!
