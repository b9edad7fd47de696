use enable_ansi_support::enable_ansi_support;
use enable_ansi_support::device::SimConsole;
use enable_ansi_support::mode::ENABLE_VIRTUAL_TERMINAL_PROCESSING;

fn failing(open: Option<u32>, get: Option<u32>, set: Option<u32>, mode: u32) -> SimConsole {
    SimConsole {
        open_fails: open.is_some(),
        open_error: open.unwrap_or(0),
        get_fails: get.is_some(),
        get_error: get.unwrap_or(0),
        set_fails: set.is_some(),
        set_error: set.unwrap_or(0),
        mode,
        set_calls: 0,
    }
}

#[test]
fn returns_ok_without_platform_work() {
    assert_eq!(enable_ansi_support(), Ok(()));
}

#[test]
fn fresh_device_gains_exactly_the_vt_bit() {
    let mut d = SimConsole::new(0x0000);
    assert_eq!(d.enable(), Ok(()));
    assert_eq!(d.mode, 0x0004);
    assert_eq!(d.set_calls, 1);
}

#[test]
fn unrelated_bit_is_preserved() {
    let mut d = SimConsole::new(0x0001);
    assert_eq!(d.enable(), Ok(()));
    assert_eq!(d.mode, 0x0005);
    assert_eq!(d.set_calls, 1);
}

#[test]
fn every_other_bit_is_preserved() {
    let start: u32 = 0xdead_beeb;
    assert_eq!(start & ENABLE_VIRTUAL_TERMINAL_PROCESSING, 0);
    let mut d = SimConsole::new(start);
    assert_eq!(d.enable(), Ok(()));
    assert_eq!(d.mode, start | ENABLE_VIRTUAL_TERMINAL_PROCESSING);
    assert_eq!(d.mode & !ENABLE_VIRTUAL_TERMINAL_PROCESSING, start);
}

#[test]
fn open_failure_reports_code_five() {
    let mut d = failing(Some(5), None, None, 0x0000);
    assert_eq!(d.enable(), Err(5));
    assert_eq!(d.mode, 0x0000);
    assert_eq!(d.set_calls, 0);
}

#[test]
fn query_failure_reports_last_error() {
    let mut d = failing(None, Some(87), None, 0x0000);
    assert_eq!(d.enable(), Err(87));
    assert_eq!(d.mode, 0x0000);
    assert_eq!(d.set_calls, 0);
}

#[test]
fn set_failure_reports_last_error() {
    let mut d = failing(None, None, Some(6), 0x0010);
    assert_eq!(d.enable(), Err(6));
    assert_eq!(d.mode, 0x0010);
    assert_eq!(d.set_calls, 1);
}

#[test]
fn already_enabled_issues_no_write() {
    let mut d = SimConsole::new(0x0007);
    assert_eq!(d.enable(), Ok(()));
    assert_eq!(d.mode, 0x0007);
    assert_eq!(d.set_calls, 0);
}

#[test]
fn enabling_twice_matches_enabling_once() {
    let mut once = SimConsole::new(0x0001);
    assert_eq!(once.enable(), Ok(()));

    let mut twice = SimConsole::new(0x0001);
    assert_eq!(twice.enable(), Ok(()));
    assert_eq!(twice.enable(), Ok(()));

    assert_eq!(twice.mode, once.mode);
    assert_eq!(twice.set_calls, 1);
}
