//! Tests of the register access layer: plain reads and writes, the atomic
//! set/clear operations, the reset controller, and the modeled status-bit
//! latencies.

use rp2040_bringup::machine::{Machine, SimConfig};
use rp2040_bringup::regs::{
    CLK_REF_CTRL_ADDR, CLK_REF_SRC_XOSC, PLL_LOCK_BIT, PLL_SYS_CS_ADDR, PLL_SYS_FBDIV,
    RESETS_DONE_ADDR, RESETS_RESET_ADDR, WATCHDOG_TICK_ADDR, XOSC_CTRL_ADDR, XOSC_ENABLE_VALUE,
    XOSC_STABLE_BIT, XOSC_STATUS_ADDR,
};
use rp2040_bringup::sequence::{
    configure_pll_sys, configure_pll_usb, reset_peripheral, wait_clk_ref_src,
    wait_pll_sys_locked, wait_pll_sys_locked_bounded, wait_pll_usb_locked_bounded,
    wait_xosc_stable, wait_xosc_stable_bounded,
};

fn quick_config() -> SimConfig {
    SimConfig {
        xosc_startup_reads: 0,
        ref_mux_settle_reads: 0,
        sys_mux_settle_reads: 0,
        pll_sys_target_fbdiv: rp2040_bringup::regs::PLL_SYS_FBDIV,
        pll_sys_target_prim: rp2040_bringup::regs::PLL_SYS_PRIM_VALUE,
        pll_sys_lock_reads: 0,
        pll_usb_target_fbdiv: rp2040_bringup::regs::PLL_USB_FBDIV,
        pll_usb_target_prim: rp2040_bringup::regs::PLL_USB_PRIM_VALUE,
        pll_usb_lock_reads: 0,
    }
}

#[test]
fn write_then_read_roundtrip() {
    let mut m = Machine::new(quick_config());
    m.write_reg(WATCHDOG_TICK_ADDR, 0x1234);
    assert_eq!(m.read_reg(WATCHDOG_TICK_ADDR), 0x1234);
}

#[test]
fn set_bits_only_ors_the_mask() {
    let mut m = Machine::new(quick_config());
    m.write_reg(RESETS_RESET_ADDR, 0x0000_0f0f);
    m.set_bits(RESETS_RESET_ADDR, 0x0000_00f0);
    assert_eq!(m.read_reg(RESETS_RESET_ADDR), 0x0000_0fff);
}

#[test]
fn clear_bits_only_clears_the_mask() {
    let mut m = Machine::new(quick_config());
    m.write_reg(RESETS_RESET_ADDR, 0x0000_0fff);
    m.clear_bits(RESETS_RESET_ADDR, 0x0000_00f0);
    assert_eq!(m.read_reg(RESETS_RESET_ADDR), 0x0000_0f0f);
}

#[test]
fn reset_cycle_leaves_unrelated_bits_alone() {
    let mut m = Machine::new(quick_config());
    // Pre-set an unrelated reset bit, cycle another peripheral's bit, and
    // check the unrelated one still reads back set.
    let unrelated: u32 = 1 << 3;
    let mask: u32 = 1 << 12;
    m.write_reg(RESETS_RESET_ADDR, unrelated);
    reset_peripheral(&mut m, mask);
    let resets = m.read_reg(RESETS_RESET_ADDR);
    assert_eq!(resets & mask, 0);
    assert_eq!(resets & unrelated, unrelated);
    // The reset-done register reports "not in reset" for the cycled
    // peripheral.
    assert_eq!(m.read_reg(RESETS_DONE_ADDR) & mask, mask);
}

#[test]
fn xosc_stable_after_exactly_n_plus_one_polls() {
    let mut cfg = quick_config();
    cfg.xosc_startup_reads = 7;
    let mut m = Machine::new(cfg);
    m.write_reg(XOSC_CTRL_ADDR, XOSC_ENABLE_VALUE);
    // The stable bit appears after 7 reads, so the poll loop runs exactly
    // 8 times.
    let iters = wait_xosc_stable(&mut m);
    assert_eq!(iters, 8);
    assert_eq!(m.read_reg(XOSC_STATUS_ADDR) & XOSC_STABLE_BIT, XOSC_STABLE_BIT);
}

#[test]
fn xosc_stable_with_zero_latency_takes_one_poll() {
    let mut m = Machine::new(quick_config());
    m.write_reg(XOSC_CTRL_ADDR, XOSC_ENABLE_VALUE);
    assert_eq!(wait_xosc_stable(&mut m), 1);
}

#[test]
fn xosc_not_stable_while_disabled() {
    let mut m = Machine::new(quick_config());
    assert_eq!(m.read_reg(XOSC_STATUS_ADDR) & XOSC_STABLE_BIT, 0);
}

#[test]
fn ref_mux_readback_lags_by_settle_count() {
    let mut cfg = quick_config();
    cfg.ref_mux_settle_reads = 3;
    let mut m = Machine::new(cfg);
    m.write_reg(CLK_REF_CTRL_ADDR, CLK_REF_SRC_XOSC);
    // The first three reads still show the old source (0), the fourth
    // confirms the switch.
    assert_eq!(m.read_reg(CLK_REF_CTRL_ADDR), 0);
    assert_eq!(m.read_reg(CLK_REF_CTRL_ADDR), 0);
    assert_eq!(m.read_reg(CLK_REF_CTRL_ADDR), 0);
    assert_eq!(m.read_reg(CLK_REF_CTRL_ADDR), CLK_REF_SRC_XOSC);
}

#[test]
fn ref_mux_wait_counts_settle_plus_one() {
    let mut cfg = quick_config();
    cfg.ref_mux_settle_reads = 5;
    let mut m = Machine::new(cfg);
    m.write_reg(CLK_REF_CTRL_ADDR, CLK_REF_SRC_XOSC);
    assert_eq!(wait_clk_ref_src(&mut m, CLK_REF_SRC_XOSC), 6);
}

#[test]
fn pll_lock_wait_counts_lock_reads_plus_one() {
    let mut cfg = quick_config();
    cfg.pll_sys_lock_reads = 4;
    let mut m = Machine::new(cfg);
    configure_pll_sys(&mut m, cfg.pll_sys_target_fbdiv, cfg.pll_sys_target_prim);
    assert_eq!(wait_pll_sys_locked(&mut m), 5);
    assert_eq!(m.read_reg(PLL_SYS_CS_ADDR), PLL_LOCK_BIT);
}

#[test]
fn pll_never_locks_on_wrong_dividers() {
    let mut m = Machine::new(quick_config());
    // One off the planned feedback divider: the locked bit must not
    // appear, however often the status register is polled.
    configure_pll_sys(&mut m, PLL_SYS_FBDIV + 1, rp2040_bringup::regs::PLL_SYS_PRIM_VALUE);
    for _ in 0..32 {
        assert_eq!(m.read_reg(PLL_SYS_CS_ADDR), 0);
    }
}

#[test]
fn bounded_xosc_wait_succeeds_within_budget() {
    let mut cfg = quick_config();
    cfg.xosc_startup_reads = 7;
    let mut m = Machine::new(cfg);
    m.write_reg(XOSC_CTRL_ADDR, XOSC_ENABLE_VALUE);
    assert_eq!(wait_xosc_stable_bounded(&mut m, 100), Some(8));
}

#[test]
fn bounded_xosc_wait_gives_up_on_tight_budget() {
    let mut cfg = quick_config();
    cfg.xosc_startup_reads = 7;
    let mut m = Machine::new(cfg);
    m.write_reg(XOSC_CTRL_ADDR, XOSC_ENABLE_VALUE);
    // Stability needs 8 polls; a budget of 7 is one short.
    assert_eq!(wait_xosc_stable_bounded(&mut m, 7), None);
    // The oscillator keeps starting up; the next poll shows stable.
    assert_eq!(wait_xosc_stable_bounded(&mut m, 1), Some(1));
}

#[test]
fn bounded_xosc_wait_gives_up_while_disabled() {
    let mut m = Machine::new(quick_config());
    assert_eq!(wait_xosc_stable_bounded(&mut m, 16), None);
}

#[test]
fn bounded_pll_wait_gives_up_on_wrong_dividers() {
    let mut cfg = quick_config();
    cfg.pll_sys_lock_reads = 2;
    cfg.pll_usb_lock_reads = 2;
    let mut m = Machine::new(cfg);
    configure_pll_sys(&mut m, PLL_SYS_FBDIV + 1, cfg.pll_sys_target_prim);
    assert_eq!(wait_pll_sys_locked_bounded(&mut m, 64), None);
    configure_pll_usb(&mut m, cfg.pll_usb_target_fbdiv, cfg.pll_usb_target_prim ^ 0x1000);
    assert_eq!(wait_pll_usb_locked_bounded(&mut m, 64), None);
}

#[test]
fn bounded_pll_wait_succeeds_on_the_plan() {
    let mut cfg = quick_config();
    cfg.pll_sys_lock_reads = 2;
    cfg.pll_usb_lock_reads = 4;
    let mut m = Machine::new(cfg);
    configure_pll_sys(&mut m, cfg.pll_sys_target_fbdiv, cfg.pll_sys_target_prim);
    assert_eq!(wait_pll_sys_locked_bounded(&mut m, 64), Some(3));
    configure_pll_usb(&mut m, cfg.pll_usb_target_fbdiv, cfg.pll_usb_target_prim);
    assert_eq!(wait_pll_usb_locked_bounded(&mut m, 64), Some(5));
}
