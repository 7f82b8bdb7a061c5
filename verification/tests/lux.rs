use toolbelt::lux::cli::{Cli, DEFAULT_HOSTNAME, DEFAULT_PORT};
use toolbelt::lux::control::{
    color_mode, command_line, lux_percent, next_action, socket_path, status_text, ColorMode,
    DaemonAction, DaemonEvent, Reading, MAX_ILLUMINANCE,
};

fn float_mode(lux: u32) -> Option<ColorMode> {
    let illuminance = f64::from(lux) / 338.0;
    if illuminance < 0.30 {
        Some(ColorMode::Dark)
    } else if illuminance > 0.35 {
        Some(ColorMode::Light)
    } else {
        None
    }
}

#[test]
fn thresholds_at_their_edges() {
    assert_eq!(color_mode(0), Some(ColorMode::Dark));
    assert_eq!(color_mode(101), Some(ColorMode::Dark));
    assert_eq!(color_mode(102), None);
    assert_eq!(color_mode(110), None);
    assert_eq!(color_mode(118), None);
    assert_eq!(color_mode(119), Some(ColorMode::Light));
    assert_eq!(color_mode(u32::MAX), Some(ColorMode::Light));
}

#[test]
fn modes_agree_with_the_float_ratio() {
    for lux in 0..5000u32 {
        assert_eq!(color_mode(lux), float_mode(lux), "lux {}", lux);
    }
    for lux in [u32::MAX, u32::MAX - 1, 1 << 31, 1_000_000] {
        assert_eq!(color_mode(lux), float_mode(lux));
    }
}

#[test]
fn percent_agrees_with_float_formatting() {
    for lux in 0..20000u32 {
        let float = format!("{:.0}", f64::from(lux) / 338.0 * 100.0);
        assert_eq!(lux_percent(lux).to_string(), float, "lux {}", lux);
    }
    for lux in [u32::MAX, 4_000_000_000, 338, 169, 1] {
        let float = format!("{:.0}", f64::from(lux) / 338.0 * 100.0);
        assert_eq!(lux_percent(lux).to_string(), float);
    }
}

#[test]
fn percent_examples() {
    assert_eq!(lux_percent(0), 0);
    assert_eq!(lux_percent(MAX_ILLUMINANCE), 100);
    assert_eq!(lux_percent(5), 1);
    assert_eq!(lux_percent(101), 30);
}

#[test]
fn brighter_never_darker() {
    let mut last_light = false;
    for lux in 0..1000u32 {
        let light = color_mode(lux) == Some(ColorMode::Light);
        assert!(!last_light || light);
        last_light = light;
        assert!(lux_percent(lux) <= lux_percent(lux + 1));
    }
}

#[test]
fn texts_for_the_mode_daemon_and_status_bar() {
    assert_eq!(ColorMode::Dark.command(), "set dark");
    assert_eq!(ColorMode::Light.command(), "set light");
    assert_eq!(command_line(ColorMode::Dark), "set dark\n");
    assert_eq!(command_line(ColorMode::Light), "set light\n");
    assert_eq!(status_text(0), "0%");
    assert_eq!(status_text(35), "35%");
    assert_eq!(status_text(1270692262), "1270692262%");
    assert_eq!(socket_path("/run/user/1000"), "/run/user/1000/darkman/control.sock");
}

#[test]
fn events_lead_to_actions() {
    assert!(matches!(next_action(DaemonEvent::DbusLost), DaemonAction::Fail(m) if m == "lost D-Bus connection"));
    assert!(matches!(next_action(DaemonEvent::Interrupt), DaemonAction::Stop));
    assert!(matches!(next_action(DaemonEvent::Terminate), DaemonAction::Stop));
    assert!(matches!(next_action(DaemonEvent::Connected), DaemonAction::Subscribe));
    assert!(matches!(next_action(DaemonEvent::OtherPacket), DaemonAction::Nothing));
    assert!(matches!(next_action(DaemonEvent::Published(Reading::NoLux)), DaemonAction::Nothing));
    assert!(matches!(
        next_action(DaemonEvent::Published(Reading::Unreadable("expected value".to_string()))),
        DaemonAction::Warn(m) if m == "Could not parse payload: expected value"
    ));
    assert!(matches!(
        next_action(DaemonEvent::PollFailed("connection refused".to_string())),
        DaemonAction::Warn(m) if m == "connection refused"
    ));
    match next_action(DaemonEvent::Published(Reading::Lux(5))) {
        DaemonAction::Apply { mode, percent, status } => {
            assert_eq!(mode, Some(ColorMode::Dark));
            assert_eq!(percent, 1);
            assert_eq!(status, "1%");
        }
        _ => panic!("expected an update"),
    }
    match next_action(DaemonEvent::Published(Reading::Lux(110))) {
        DaemonAction::Apply { mode, percent, status } => {
            assert_eq!(mode, None);
            assert_eq!(percent, 33);
            assert_eq!(status, "33%");
        }
        _ => panic!("expected an update"),
    }
    match next_action(DaemonEvent::Published(Reading::Lux(300))) {
        DaemonAction::Apply { mode, percent, status } => {
            assert_eq!(mode, Some(ColorMode::Light));
            assert_eq!(percent, 89);
            assert_eq!(status, "89%");
        }
        _ => panic!("expected an update"),
    }
}

#[test]
fn cli_defaults() {
    let cli = Cli {
        hostname: DEFAULT_HOSTNAME.to_string(),
        port: DEFAULT_PORT,
        ha_username: "user".to_string(),
        ha_password: "SECRET-REDACTED".to_string(),
        ha_zigbee_lux_topic: "zigbee2mqtt/lux".to_string(),
        runtime_dir: "/run/user/1000".to_string(),
    };
    assert_eq!(cli.hostname, "homeassistant");
    assert_eq!(cli.port, 1883);
}
