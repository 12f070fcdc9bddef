//! End-to-end bring-up scenarios: the full clock sequence, the pin
//! sequence, the frequency plan arithmetic, and the toggle loop.

use rp2040_bringup::machine::{Machine, SimConfig};
use rp2040_bringup::regs::{
    CLK_PERI_CTRL_ADDR, CLK_PERI_ENABLE_BIT, CLK_REF_CTRL_ADDR, CLK_REF_SRC_XOSC,
    CLK_SYS_AUXSRC_MASK, CLK_SYS_AUX_ENABLE_BIT, CLK_SYS_CTRL_ADDR, IO_FUNCSEL_SIO,
    MICROSECONDS_PER_SECOND, PAD_OUTPUT_VALUE, PLL_LOCK_BIT, PLL_SYS_CS_ADDR, PLL_SYS_FBDIV,
    PLL_SYS_POSTDIV1, PLL_SYS_POSTDIV2, PLL_SYS_PRIM_VALUE, PLL_USB_CS_ADDR, PLL_USB_FBDIV,
    PLL_USB_POSTDIV1, PLL_USB_POSTDIV2, PLL_USB_PRIM_VALUE, SIO_OE_ADDR, SIO_OUT_ADDR,
    SYS_CLOCK_HZ, TIMER_DBGPAUSE_ADDR, USB_CLOCK_HZ, WATCHDOG_TICK_ADDR, WATCHDOG_TICK_DIVIDER,
    WATCHDOG_TICK_DIV_MASK, WATCHDOG_TICK_ENABLE_BIT, WATCHDOG_TICK_VALUE, XOSC_HZ,
    XOSC_STABLE_BIT, XOSC_STATUS_ADDR,
};
use rp2040_bringup::sequence::{init_clocks, init_io, pin_set_high, pin_set_low};

const PIN: u32 = 25;

fn board_config() -> SimConfig {
    SimConfig {
        xosc_startup_reads: 5,
        ref_mux_settle_reads: 2,
        sys_mux_settle_reads: 2,
        pll_sys_target_fbdiv: PLL_SYS_FBDIV,
        pll_sys_target_prim: PLL_SYS_PRIM_VALUE,
        pll_sys_lock_reads: 3,
        pll_usb_target_fbdiv: PLL_USB_FBDIV,
        pll_usb_target_prim: PLL_USB_PRIM_VALUE,
        pll_usb_lock_reads: 3,
    }
}

#[test]
fn clocks_reach_target_configuration() {
    let mut m = Machine::new(board_config());
    init_clocks(&mut m);
    // Oscillator stable, reference clock on the crystal.
    assert_eq!(m.read_reg(XOSC_STATUS_ADDR) & XOSC_STABLE_BIT, XOSC_STABLE_BIT);
    assert_eq!(m.read_reg(CLK_REF_CTRL_ADDR), CLK_REF_SRC_XOSC);
    // Both PLLs locked on the divider plan.
    assert_eq!(m.read_reg(PLL_SYS_CS_ADDR), PLL_LOCK_BIT);
    assert_eq!(m.read_reg(PLL_USB_CS_ADDR), PLL_LOCK_BIT);
    assert_eq!(m.pll_sys.fbdiv, PLL_SYS_FBDIV);
    assert_eq!(m.pll_sys.prim, PLL_SYS_PRIM_VALUE);
    assert_eq!(m.pll_usb.fbdiv, PLL_USB_FBDIV);
    assert_eq!(m.pll_usb.prim, PLL_USB_PRIM_VALUE);
    // System clock on the auxiliary path with the system PLL selected.
    let sys_ctrl = m.read_reg(CLK_SYS_CTRL_ADDR);
    assert_eq!(sys_ctrl & CLK_SYS_AUX_ENABLE_BIT, CLK_SYS_AUX_ENABLE_BIT);
    assert_eq!(sys_ctrl & CLK_SYS_AUXSRC_MASK, 0);
    // Peripheral clock re-enabled, tick generator and timer configured.
    assert_eq!(m.read_reg(CLK_PERI_CTRL_ADDR), CLK_PERI_ENABLE_BIT);
    assert_eq!(m.read_reg(WATCHDOG_TICK_ADDR), WATCHDOG_TICK_VALUE);
    assert_eq!(m.read_reg(TIMER_DBGPAUSE_ADDR), 0);
}

#[test]
fn clocks_leave_pins_untouched() {
    let mut m = Machine::new(board_config());
    let pads_before = m.pads.clone();
    let io_before = m.io_ctrl.clone();
    init_clocks(&mut m);
    assert_eq!(m.pads, pads_before);
    assert_eq!(m.io_ctrl, io_before);
    assert_eq!(m.sio_oe, 0);
    assert_eq!(m.sio_out, 0);
}

#[test]
fn pin_bringup_configures_pad_funcsel_and_output_enable() {
    let mut m = Machine::new(board_config());
    // Pre-arm another pin's output enable; it must survive.
    let other: u32 = 1 << 7;
    m.sio_oe = other;
    let pads_before = m.pads.clone();
    init_io(&mut m, PIN);
    // Pad: input disabled, output enabled; every other pad untouched.
    let pad_idx = (PIN + 1) as usize;
    assert_eq!(m.pads[pad_idx], PAD_OUTPUT_VALUE);
    for i in 0..m.pads.len() {
        if i != pad_idx {
            assert_eq!(m.pads[i], pads_before[i]);
        }
    }
    // Function select bound to the single-cycle I/O controller.
    assert_eq!(m.io_ctrl[PIN as usize], IO_FUNCSEL_SIO);
    // Output enable: the pin's bit set, all other bits unchanged.
    assert_eq!(m.read_reg(SIO_OE_ADDR), other | (1 << PIN));
}

#[test]
fn pin_bringup_works_on_first_and_last_pin() {
    let mut m = Machine::new(board_config());
    init_io(&mut m, 0);
    assert_eq!(m.pads[1], PAD_OUTPUT_VALUE);
    assert_eq!(m.io_ctrl[0], IO_FUNCSEL_SIO);
    assert_eq!(m.sio_oe & 1, 1);
    init_io(&mut m, 29);
    assert_eq!(m.pads[30], PAD_OUTPUT_VALUE);
    assert_eq!(m.io_ctrl[29], IO_FUNCSEL_SIO);
    assert_eq!(m.sio_oe & (1 << 29), 1 << 29);
}

#[test]
fn frequency_plan_is_exact() {
    // 12,000,000 * 125 / (6 * 2) == 125,000,000 with no remainder.
    let sys = XOSC_HZ as u64 * PLL_SYS_FBDIV as u64;
    let sys_div = (PLL_SYS_POSTDIV1 * PLL_SYS_POSTDIV2) as u64;
    assert_eq!(sys % sys_div, 0);
    assert_eq!(sys / sys_div, SYS_CLOCK_HZ as u64);
    // 12,000,000 * 100 / (5 * 5) == 48,000,000 with no remainder.
    let usb = XOSC_HZ as u64 * PLL_USB_FBDIV as u64;
    let usb_div = (PLL_USB_POSTDIV1 * PLL_USB_POSTDIV2) as u64;
    assert_eq!(usb % usb_div, 0);
    assert_eq!(usb / usb_div, USB_CLOCK_HZ as u64);
    // The post dividers are really what the PRIM register value encodes.
    assert_eq!((PLL_SYS_PRIM_VALUE >> 16) & 0x7, PLL_SYS_POSTDIV1);
    assert_eq!((PLL_SYS_PRIM_VALUE >> 12) & 0x7, PLL_SYS_POSTDIV2);
    assert_eq!((PLL_USB_PRIM_VALUE >> 16) & 0x7, PLL_USB_POSTDIV1);
    assert_eq!((PLL_USB_PRIM_VALUE >> 12) & 0x7, PLL_USB_POSTDIV2);
}

#[test]
fn watchdog_tick_is_one_microsecond() {
    let mut m = Machine::new(board_config());
    init_clocks(&mut m);
    let tick = m.read_reg(WATCHDOG_TICK_ADDR);
    assert_eq!(tick & WATCHDOG_TICK_DIV_MASK, WATCHDOG_TICK_DIVIDER);
    assert_eq!(tick & WATCHDOG_TICK_DIV_MASK, 12);
    assert_eq!(tick & WATCHDOG_TICK_ENABLE_BIT, WATCHDOG_TICK_ENABLE_BIT);
    // Dividing the 12 MHz reference by 12 yields exactly one tick per
    // microsecond.
    assert_eq!(XOSC_HZ / (tick & WATCHDOG_TICK_DIV_MASK), MICROSECONDS_PER_SECOND);
}

#[test]
fn toggle_loop_alternates_starting_high() {
    let mut m = Machine::new(board_config());
    init_clocks(&mut m);
    init_io(&mut m, PIN);
    let bit = 1u32 << PIN;
    let mut observed: Vec<bool> = Vec::new();
    // Two iterations of the blink loop: high, (delay), low, (delay).
    for _ in 0..2 {
        pin_set_high(&mut m, PIN);
        observed.push(m.read_reg(SIO_OUT_ADDR) & bit != 0);
        pin_set_low(&mut m, PIN);
        observed.push(m.read_reg(SIO_OUT_ADDR) & bit != 0);
    }
    assert_eq!(observed, vec![true, false, true, false]);
}

#[test]
fn toggle_does_not_disturb_other_pins() {
    let mut m = Machine::new(board_config());
    m.sio_out = 1 << 3;
    pin_set_high(&mut m, PIN);
    assert_eq!(m.sio_out, (1 << 3) | (1 << PIN));
    pin_set_low(&mut m, PIN);
    assert_eq!(m.sio_out, 1 << 3);
}
