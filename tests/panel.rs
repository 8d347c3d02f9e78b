use rusty_panel::config::{config_path, plan_config_load, Config, ConfigError, ConfigStep, PanelConfig};
use rusty_panel::runner::{decode_output, displayed_text, is_white_space, run_outcome, RunError};
use rusty_panel::scheduler::{RefreshScheduler, TickAction};
use rusty_panel::visibility::{PanelGeometry, Visibility, VisibilityController, PANEL_HEIGHT};

#[test]
fn output_is_trimmed_for_display() {
    assert_eq!(displayed_text("  12:30\n"), "12:30");
    assert_eq!(decode_output(b"  12:30\n".to_vec()), Ok("12:30".to_string()));
}

#[test]
fn inner_white_space_is_kept() {
    assert_eq!(displayed_text("\t Mon 12 Oct \r\n"), "Mon 12 Oct");
}

#[test]
fn blank_output_displays_nothing() {
    assert_eq!(displayed_text(""), "");
    assert_eq!(displayed_text(" \n\t "), "");
    assert_eq!(decode_output(Vec::new()), Ok(String::new()));
}

#[test]
fn unicode_white_space_is_trimmed() {
    assert_eq!(displayed_text("\u{3000}\u{a0}x y\u{2028}\u{85}"), "x y");
}

#[test]
fn trimming_agrees_with_str_trim() {
    for s in ["", "a", " a ", "\u{200b}a\u{200b}", "\u{1680}é\u{205f}", "ab\n\ncd\n", "\u{feff}z"] {
        assert_eq!(displayed_text(s), s.trim());
    }
}

#[test]
fn white_space_agrees_with_char_is_whitespace() {
    for u in 0u32..=0x10ffff {
        if let Some(c) = char::from_u32(u) {
            assert_eq!(is_white_space(c), c.is_whitespace(), "at U+{:04X}", u);
        }
    }
}

#[test]
fn invalid_utf8_is_an_error() {
    assert_eq!(decode_output(vec![0x31, 0xff, 0x32]), Err(RunError::NotUtf8));
    assert_eq!(decode_output(vec![0xc3]), Err(RunError::NotUtf8));
    assert_eq!(run_outcome(Some(vec![0xfe])), Err(RunError::NotUtf8));
}

#[test]
fn multibyte_output_is_decoded() {
    assert_eq!(decode_output(vec![0x20, 0xc3, 0xa9, 0x0a]), Ok("é".to_string()));
}

#[test]
fn spawn_failure_is_reported() {
    assert_eq!(run_outcome(None), Err(RunError::SpawnFailed));
    assert_eq!(run_outcome(Some(b"ok\n".to_vec())), Ok("ok".to_string()));
}

#[test]
fn default_config_values() {
    let c = Config::default();
    assert_eq!(c.cmd, "date");
    assert_eq!(c.hide_delay_ms, 500);
    assert_eq!(c.timeout_s, 1);
    assert_eq!(c, Config { cmd: "date".to_string(), hide_delay_ms: 500, timeout_s: 1 });
}

#[test]
fn zero_poll_interval_is_rejected() {
    let c = Config { cmd: "date".to_string(), hide_delay_ms: 500, timeout_s: 0 };
    assert_eq!(c.validate(None).unwrap_err(), ConfigError::ZeroPollInterval);
    assert_eq!(PanelConfig::new("date".to_string(), 0, 0).unwrap_err(), ConfigError::ZeroPollInterval);
}

#[test]
fn default_config_validates() {
    let p = Config::default().validate(Some("/home/u".to_string())).unwrap();
    assert_eq!(p.command, "date");
    assert_eq!(p.hide_delay_ms, 500);
    assert_eq!(p.poll_interval_s, 1);
}

#[test]
fn command_home_prefix_is_expanded() {
    let home = Some("/home/u".to_string());
    let c = Config { cmd: "~/bin/status".to_string(), hide_delay_ms: 0, timeout_s: 5 };
    assert_eq!(c.validate(home.clone()).unwrap().command, "/home/u/bin/status");
    assert_eq!(c.validate(None).unwrap().command, "~/bin/status");
    let other = Config { cmd: "~user/bin/status".to_string(), hide_delay_ms: 0, timeout_s: 5 };
    assert_eq!(other.validate(home.clone()).unwrap().command, "~user/bin/status");
    let bare = Config { cmd: "~".to_string(), hide_delay_ms: 0, timeout_s: 5 };
    assert_eq!(bare.validate(home.clone()).unwrap().command, "/home/u");
    let plain = Config { cmd: "/usr/bin/date".to_string(), hide_delay_ms: 0, timeout_s: 5 };
    assert_eq!(plain.validate(home).unwrap().command, "/usr/bin/date");
}

#[test]
fn config_paths() {
    let home = Some("/home/u".to_string());
    assert_eq!(config_path(None, home.clone()), "/home/u/.config/rusty-panel.yaml");
    assert_eq!(config_path(None, None), "~/.config/rusty-panel.yaml");
    assert_eq!(config_path(Some("~/p.yaml".to_string()), home.clone()), "/home/u/p.yaml");
    assert_eq!(config_path(Some("/etc/panel.yaml".to_string()), home), "/etc/panel.yaml");
}

#[test]
fn first_run_creates_then_second_run_reads() {
    assert_eq!(plan_config_load(false, false), ConfigStep::CreateDefault);
    assert_eq!(plan_config_load(false, true), ConfigStep::Read);
    assert_eq!(plan_config_load(true, false), ConfigStep::Read);
    assert_eq!(plan_config_load(true, true), ConfigStep::Read);
}

fn controller(cancel: bool) -> VisibilityController {
    VisibilityController::new(PanelGeometry::new(1920, 1080), 500, cancel)
}

#[test]
fn panel_starts_visible_at_bottom() {
    let c = controller(true);
    assert_eq!(c.state, Visibility::Visible);
    assert_eq!(c.current_top(), 1080 - PANEL_HEIGHT);
    assert_eq!(c.current_top(), 1062);
}

#[test]
fn enter_shows_from_any_state() {
    let mut c = controller(false);
    c.pointer_leave(0);
    assert_eq!(c.timer_fired(500), Some(1079));
    assert_eq!(c.state, Visibility::Hidden);
    assert_eq!(c.pointer_enter(), 1062);
    assert_eq!(c.state, Visibility::Visible);
    assert_eq!(c.pointer_enter(), 1062);
    assert_eq!(c.state, Visibility::Visible);
}

#[test]
fn leave_hides_after_exactly_the_delay() {
    let mut c = controller(true);
    assert_eq!(c.pointer_leave(1000), 1500);
    assert_eq!(c.state, Visibility::Visible);
    assert_eq!(c.timer_fired(1499), None);
    assert_eq!(c.state, Visibility::Visible);
    assert_eq!(c.timer_fired(1500), Some(1080 - 1));
    assert_eq!(c.state, Visibility::Hidden);
    assert_eq!(c.timer_fired(9000), None);
}

#[test]
fn enter_cancels_pending_hide() {
    let mut c = controller(true);
    c.pointer_leave(0);
    c.pointer_enter();
    assert_eq!(c.timer_fired(600), None);
    assert_eq!(c.state, Visibility::Visible);
}

#[test]
fn enter_keeps_pending_hide_without_cancelling() {
    let mut c = controller(false);
    c.pointer_leave(0);
    c.pointer_enter();
    assert_eq!(c.timer_fired(600), Some(1079));
    assert_eq!(c.state, Visibility::Hidden);
}

#[test]
fn zero_hide_delay_hides_at_once() {
    let mut c = VisibilityController::new(PanelGeometry::new(800, 600), 0, true);
    assert_eq!(c.pointer_leave(42), 42);
    assert_eq!(c.timer_fired(42), Some(599));
}

fn scheduler(poll_s: u32, stop: bool) -> RefreshScheduler {
    let p = PanelConfig::new("date".to_string(), 500, poll_s).unwrap();
    RefreshScheduler::new(&p, 0, stop)
}

#[test]
fn ticks_once_per_period_from_end_of_previous() {
    let mut s = scheduler(2, true);
    assert_eq!(s.displayed, "");
    assert!(!s.begin_tick(1999));
    assert!(s.begin_tick(2000));
    assert!(!s.begin_tick(2100));
    assert_eq!(s.finish_tick(Ok("a".to_string()), 2300), TickAction::Continue);
    assert_eq!(s.displayed, "a");
    assert_eq!(s.next_due_ms, 4300);
    assert!(!s.begin_tick(4299));
    assert!(s.begin_tick(4300));
}

#[test]
fn failure_keeps_last_text_or_stops() {
    let mut s = scheduler(1, false);
    assert!(s.begin_tick(1000));
    s.finish_tick(Ok("up".to_string()), 1000);
    assert!(s.begin_tick(2000));
    assert_eq!(s.finish_tick(Err(RunError::NotUtf8), 2000), TickAction::Continue);
    assert_eq!(s.displayed, "up");

    let mut f = scheduler(1, true);
    assert!(f.begin_tick(1000));
    assert_eq!(f.finish_tick(Err(RunError::SpawnFailed), 1000), TickAction::Stop(RunError::SpawnFailed));
    assert_eq!(f.displayed, "");
}

#[test]
fn tick_shows_trimmed_output_and_keeps_it_on_bad_bytes() {
    let mut s = scheduler(1, false);
    assert!(s.begin_tick(1000));
    s.finish_tick(run_outcome(Some(b" 12:30\n".to_vec())), 1000);
    assert_eq!(s.displayed, "12:30");
    assert!(s.begin_tick(2000));
    assert_eq!(s.finish_tick(run_outcome(Some(vec![0xff, 0xfe])), 2000), TickAction::Continue);
    assert_eq!(s.displayed, "12:30");
}
