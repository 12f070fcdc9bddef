//! The register address map and the fixed configuration values.
//!
//! Base addresses, byte offsets and bit positions are the wire contract
//! with the hardware (datasheet-defined); the divider constants encode the
//! target frequencies for a 12 MHz crystal.

use vstd::prelude::*;

verus! {

// Peripheral base addresses.
pub const RESETS_BASE: u32 = 0x4000_c000;
pub const PADS_BANK0_BASE: u32 = 0x4001_c000;
pub const IO_BANK0_BASE: u32 = 0x4001_4000;
pub const SIO_BASE: u32 = 0xd000_0000;
pub const XOSC_BASE: u32 = 0x4002_4000;
pub const CLOCKS_BASE: u32 = 0x4000_8000;
pub const PLL_SYS_BASE: u32 = 0x4002_8000;
pub const PLL_USB_BASE: u32 = 0x4002_c000;
pub const WATCHDOG_BASE: u32 = 0x4005_8000;
pub const TIMER_BASE: u32 = 0x4005_4000;

// Peripheral blocks that implement the write-alias convention map a write
// of a mask to `addr + SET_ALIAS_OFFSET` to an atomic `*addr |= mask`, and
// to `addr + CLEAR_ALIAS_OFFSET` to an atomic `*addr &= !mask`.
pub const SET_ALIAS_OFFSET: u32 = 0x2000;
pub const CLEAR_ALIAS_OFFSET: u32 = 0x3000;

// Reset controller: the shared reset register and the reset-done status
// register, one bit per peripheral.
pub const RESETS_RESET_ADDR: u32 = RESETS_BASE + 0x00;
pub const RESETS_DONE_ADDR: u32 = RESETS_BASE + 0x08;
/// Bits that correspond to an actual peripheral in the reset registers.
pub const RESETS_VALID_MASK: u32 = 0x01ff_ffff;
pub const RESET_BIT_IO_BANK0: u32 = 1u32 << 5;
pub const RESET_BIT_PADS_BANK0: u32 = 1u32 << 8;
pub const RESET_BIT_PLL_SYS: u32 = 1u32 << 12;
pub const RESET_BIT_PLL_USB: u32 = 1u32 << 13;

// Crystal oscillator: control register and status register.
pub const XOSC_CTRL_ADDR: u32 = XOSC_BASE + 0x00;
pub const XOSC_STATUS_ADDR: u32 = XOSC_BASE + 0x04;
/// Control value that enables the oscillator for the 1-15 MHz range.
pub const XOSC_ENABLE_VALUE: u32 = 0x00fa_baa0;
/// Stable bit in the status register.
pub const XOSC_STABLE_BIT: u32 = 0x8000_0000;

// Clock generator: glitchless mux control registers and the peripheral
// clock control register.
pub const CLK_GPOUT0_CTRL_ADDR: u32 = CLOCKS_BASE + 0x00;
pub const CLK_REF_CTRL_ADDR: u32 = CLOCKS_BASE + 0x30;
pub const CLK_SYS_CTRL_ADDR: u32 = CLOCKS_BASE + 0x3c;
pub const CLK_PERI_CTRL_ADDR: u32 = CLOCKS_BASE + 0x48;
/// Reference-clock mux selector for the crystal oscillator.
pub const CLK_REF_SRC_XOSC: u32 = 2;
/// Glitchless-mux bit of the system clock: 0 selects the reference clock,
/// 1 selects the auxiliary source.
pub const CLK_SYS_AUX_ENABLE_BIT: u32 = 1;
/// Auxiliary-source field of the system clock mux (value 0 = system PLL).
pub const CLK_SYS_AUXSRC_MASK: u32 = 0b111u32 << 5;
/// Enable bit of the peripheral clock.
pub const CLK_PERI_ENABLE_BIT: u32 = 1u32 << 11;

// PLL register offsets, shared by the system and USB PLL blocks.
pub const PLL_CS_OFFSET: u32 = 0x00;
pub const PLL_PWR_OFFSET: u32 = 0x04;
pub const PLL_FBDIV_OFFSET: u32 = 0x08;
pub const PLL_PRIM_OFFSET: u32 = 0x0c;
pub const PLL_SYS_CS_ADDR: u32 = PLL_SYS_BASE + PLL_CS_OFFSET;
pub const PLL_SYS_PWR_ADDR: u32 = PLL_SYS_BASE + PLL_PWR_OFFSET;
pub const PLL_SYS_FBDIV_ADDR: u32 = PLL_SYS_BASE + PLL_FBDIV_OFFSET;
pub const PLL_SYS_PRIM_ADDR: u32 = PLL_SYS_BASE + PLL_PRIM_OFFSET;
pub const PLL_USB_CS_ADDR: u32 = PLL_USB_BASE + PLL_CS_OFFSET;
pub const PLL_USB_PWR_ADDR: u32 = PLL_USB_BASE + PLL_PWR_OFFSET;
pub const PLL_USB_FBDIV_ADDR: u32 = PLL_USB_BASE + PLL_FBDIV_OFFSET;
pub const PLL_USB_PRIM_ADDR: u32 = PLL_USB_BASE + PLL_PRIM_OFFSET;
/// Locked bit in a PLL's control/status register.
pub const PLL_LOCK_BIT: u32 = 0x8000_0000;
/// Power-down and VCO power-down bits in a PLL's power register: both must
/// be set to disable the PLL and both cleared to run it.
pub const PLL_PWR_DOWN_BITS: u32 = (1u32 << 5) | 1;

// Pad control block: one register per pad, starting with the bank voltage
// select register, so pad P lives at word index P + 1.
pub const PADS_REG_COUNT: u32 = 33;
/// Pad value with the input buffer disabled and the output driver enabled.
pub const PAD_OUTPUT_VALUE: u32 = 0;

// I/O bank: each pin has a status register and a control register, 8 bytes
// per pin; the control register sits at byte offset pin * 8 + 4.
pub const IO_GPIO_COUNT: u32 = 30;
/// Function-select value that binds a pin to the single-cycle I/O block.
pub const IO_FUNCSEL_SIO: u32 = 5;

// Single-cycle I/O block: output and output-enable registers with
// dedicated atomic set/clear ports.
pub const SIO_OUT_ADDR: u32 = SIO_BASE + 0x10;
pub const SIO_OUT_SET_ADDR: u32 = SIO_BASE + 0x14;
pub const SIO_OUT_CLR_ADDR: u32 = SIO_BASE + 0x18;
pub const SIO_OE_ADDR: u32 = SIO_BASE + 0x20;
pub const SIO_OE_SET_ADDR: u32 = SIO_BASE + 0x24;
pub const SIO_OE_CLR_ADDR: u32 = SIO_BASE + 0x28;

// Watchdog tick generator and timer debug-pause register.
pub const WATCHDOG_TICK_ADDR: u32 = WATCHDOG_BASE + 0x2c;
/// Enable bit of the tick generator.
pub const WATCHDOG_TICK_ENABLE_BIT: u32 = 1u32 << 9;
/// Divider field of the tick generator.
pub const WATCHDOG_TICK_DIV_MASK: u32 = 0x1ff;
pub const TIMER_DBGPAUSE_ADDR: u32 = TIMER_BASE + 0x2c;

// Frequency plan: a 12 MHz crystal, a 125 MHz system clock and a 48 MHz
// USB clock.  A PLL produces reference * fbdiv / (postdiv1 * postdiv2):
//   12 MHz * 125 / (6 * 2) = 125 MHz
//   12 MHz * 100 / (5 * 5) =  48 MHz
pub const XOSC_HZ: u32 = 12_000_000;
pub const SYS_CLOCK_HZ: u32 = 125_000_000;
pub const USB_CLOCK_HZ: u32 = 48_000_000;
pub const PLL_SYS_FBDIV: u32 = 125;
pub const PLL_SYS_POSTDIV1: u32 = 6;
pub const PLL_SYS_POSTDIV2: u32 = 2;
pub const PLL_USB_FBDIV: u32 = 100;
pub const PLL_USB_POSTDIV1: u32 = 5;
pub const PLL_USB_POSTDIV2: u32 = 5;
/// The post dividers live in the PRIM register at bits 16..19 and 12..15.
pub const PLL_SYS_PRIM_VALUE: u32 = (PLL_SYS_POSTDIV1 << 16) | (PLL_SYS_POSTDIV2 << 12);
pub const PLL_USB_PRIM_VALUE: u32 = (PLL_USB_POSTDIV1 << 16) | (PLL_USB_POSTDIV2 << 12);
/// Tick divider that turns the crystal frequency into one tick per
/// microsecond: 12 MHz / 12 = 1 MHz.
pub const WATCHDOG_TICK_DIVIDER: u32 = 12;
pub const MICROSECONDS_PER_SECOND: u32 = 1_000_000;
/// Value programmed into the tick register: the divider with the enable
/// bit set.
pub const WATCHDOG_TICK_VALUE: u32 = WATCHDOG_TICK_DIVIDER | WATCHDOG_TICK_ENABLE_BIT;

/// First post divider encoded in a PRIM register value.
pub open spec fn prim_postdiv1(prim: u32) -> u32 {
    (prim >> 16) & 0x7
}

/// Second post divider encoded in a PRIM register value.
pub open spec fn prim_postdiv2(prim: u32) -> u32 {
    (prim >> 12) & 0x7
}

/// Output frequency of a PLL: reference * fbdiv / (postdiv1 * postdiv2).
pub open spec fn pll_output_hz(reference_hz: int, fbdiv: int, postdiv1: int, postdiv2: int) -> int
    recommends
        postdiv1 > 0,
        postdiv2 > 0,
{
    (reference_hz * fbdiv) / (postdiv1 * postdiv2)
}

} // verus!
