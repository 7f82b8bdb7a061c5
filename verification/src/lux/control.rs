//! The decisions of the ambient-light daemon: which color mode a sensor reading asks for, what the
//! status bar shows, and what each event of the daemon's loop leads to.

use vstd::prelude::*;
use crate::text::{decimal, law_decimal_numeral, numeral_value, push_decimal};
use vstd::string::*;

verus! {

/// The largest raw illuminance this sensor has been seen to report.
pub const MAX_ILLUMINANCE: u32 = 338;

/// Below this share of the largest illuminance, in percent, the dark mode is asked for.
pub const DARK_THRESHOLD_PERCENT: u32 = 30;

/// Above this share of the largest illuminance, in percent, the light mode is asked for.
pub const LIGHT_THRESHOLD_PERCENT: u32 = 35;

/// The color modes the mode daemon can be told to set.
#[derive(Clone, Copy, Debug, PartialEq, Eq)]
pub enum ColorMode {
    Dark,
    Light,
}

/// `lux` is below the dark threshold: `lux / MAX_ILLUMINANCE < 0.30`, compared exactly.
pub open spec fn is_dark(lux: nat) -> bool {
    lux * 100 < DARK_THRESHOLD_PERCENT * MAX_ILLUMINANCE
}

/// `lux` is above the light threshold: `lux / MAX_ILLUMINANCE > 0.35`, compared exactly.
pub open spec fn is_light(lux: nat) -> bool {
    lux * 100 > LIGHT_THRESHOLD_PERCENT * MAX_ILLUMINANCE
}

/// The mode a reading asks for; none in the dead zone between the two thresholds, so that the
/// same command is not sent again and again while the light hovers near one threshold.
pub open spec fn mode_for(lux: nat) -> Option<ColorMode> {
    if is_dark(lux) {
        Some(ColorMode::Dark)
    } else if is_light(lux) {
        Some(ColorMode::Light)
    } else {
        None
    }
}

/// `p` is the share of the largest illuminance that `lux` is, in percent, rounded to the
/// nearest integer (no reading lies half-way between two integers).
pub open spec fn is_rounded_percent(lux: nat, p: int) -> bool {
    &&& p * MAX_ILLUMINANCE < lux * 100 + MAX_ILLUMINANCE / 2
    &&& lux * 100 < p * MAX_ILLUMINANCE + MAX_ILLUMINANCE / 2
}

/// The mode that the reading `lux` asks for, if any.
pub fn color_mode(lux: u32) -> (res: Option<ColorMode>)
    ensures
        res == mode_for(lux as nat),
{
    let scaled: u64 = lux as u64 * 100;
    let max = MAX_ILLUMINANCE as u64;
    let dark_limit: u64 = DARK_THRESHOLD_PERCENT as u64 * max;
    let light_limit: u64 = LIGHT_THRESHOLD_PERCENT as u64 * max;
    if scaled < dark_limit {
        Some(ColorMode::Dark)
    } else if scaled > light_limit {
        Some(ColorMode::Light)
    } else {
        None
    }
}

/// The reading as a percentage of the largest illuminance, rounded to the nearest integer: the
/// number the status bar shows. No reading lies half-way between two integers, so this is the
/// number that rounding the floating-point ratio prints too.
pub fn lux_percent(lux: u32) -> (p: u64)
    ensures
        is_rounded_percent(lux as nat, p as int),
{
    let max = MAX_ILLUMINANCE as u64;
    let scaled: u64 = lux as u64 * 100;
    let p = (scaled + max / 2) / max;
    proof {
        let s = scaled as int;
        let q = p as int;
        assert(max == 338);
        assert(q * 338 <= s + 169 < q * 338 + 338) by (nonlinear_arith)
            requires
                q == (s + 169) / 338,
                s >= 0,
        ;
        // The scaled reading is even and the half-way point is odd, so they never meet.
        assert(s + 169 != q * 338) by (nonlinear_arith)
            requires
                s == lux as int * 100,
        {
            assert((s + 169) % 2 == 1);
            assert((q * 338) % 2 == 0);
        }
    }
    p
}

/// A brighter reading never asks for the dark mode when a darker one does not, and never fails
/// to ask for the light mode when a darker one does.
pub proof fn law_mode_monotone(darker: nat, brighter: nat)
    requires
        darker <= brighter,
    ensures
        is_light(darker) ==> is_light(brighter),
        is_dark(brighter) ==> is_dark(darker),
{
    assert(darker * 100 <= brighter * 100) by (nonlinear_arith)
        requires
            darker <= brighter,
    ;
}

/// With the sensor's largest reading of 338, readings up to 101 ask for dark, 102 to 118 ask for
/// nothing, and from 119 on they ask for light: 101/338 is below 0.30, 102/338 above it, 118/338
/// below 0.35 and 119/338 above it.
pub proof fn law_mode_thresholds(lux: nat)
    ensures
        lux <= 101 ==> mode_for(lux) == Some(ColorMode::Dark),
        102 <= lux <= 118 ==> mode_for(lux) is None,
        119 <= lux ==> mode_for(lux) == Some(ColorMode::Light),
{
}

/// The rounded percentage is within half a point of `lux * 100 / 338`: twice the distance
/// between `lux * 100` and `p * 338` is less than 338. The largest reading shows as 100.
pub proof fn law_percent_is_nearest(lux: nat, p: int)
    requires
        is_rounded_percent(lux, p),
    ensures
        -338 < 2 * (lux * 100 - p * 338) < 338,
        lux == 338 ==> p == 100,
        lux == 0 ==> p == 0,
{
    if lux == 338 {
        assert(p * 338 < 33969 && 33631 < p * 338);
        assert(p == 100) by (nonlinear_arith)
            requires
                p * 338 < 33969,
                33631 < p * 338,
        ;
    }
    if lux == 0 {
        assert(p == 0) by (nonlinear_arith)
            requires
                p * 338 < 169,
                0 < p * 338 + 169,
        ;
    }
}

/// The dark command is `set dark` and the light command `set light`; they differ.
pub proof fn law_command_texts()
    ensures
        command_text(ColorMode::Dark) == seq!['s', 'e', 't', ' ', 'd', 'a', 'r', 'k'],
        command_text(ColorMode::Light) == seq!['s', 'e', 't', ' ', 'l', 'i', 'g', 'h', 't'],
{
    reveal_strlit("set dark");
    reveal_strlit("set light");
}

/// What each event leads to: losing the session bus stops the daemon with the error
/// `lost D-Bus connection`; either signal stops it cleanly; a connection acknowledgement
/// subscribes; a reading is applied with the mode its thresholds ask for, its rounded percentage,
/// and that percentage's decimal numeral followed by `%` as the status; an unreadable message
/// and a failed poll are reported, the former behind `Could not parse payload: `; the rest is
/// ignored.
pub proof fn law_event_actions(event: DaemonEvent, action: DaemonAction)
    requires
        action_for(event, action),
    ensures
        event is DbusLost ==> (action matches DaemonAction::Fail(m) && m@ == "lost D-Bus connection"@),
        event is Interrupt || event is Terminate ==> action is Stop,
        event is Connected ==> action is Subscribe,
        event matches DaemonEvent::Published(Reading::Lux(lux)) ==> action matches DaemonAction::Apply {
            mode,
            percent,
            status,
        } && mode == mode_for(lux as nat) && -338 < 2 * (lux * 100 - percent * 338) < 338
            && status@.len() >= 2 && status@.last() == '%' && numeral_value(status@.drop_last())
            == percent,
        event matches DaemonEvent::Published(Reading::Unreadable(e)) ==> action matches DaemonAction::Warn(m)
            && m@ == "Could not parse payload: "@ + e@,
        event matches DaemonEvent::PollFailed(e) ==> action matches DaemonAction::Warn(m) && m@ == e@,
        event is OtherPacket ==> action is Nothing,
        (event matches DaemonEvent::Published(Reading::NoLux)) ==> action is Nothing,
{
    reveal_strlit("%");
    if let DaemonEvent::Published(Reading::Lux(lux)) = event {
        if let DaemonAction::Apply { mode, percent, status } = action {
            law_percent_is_nearest(lux as nat, percent as int);
            law_decimal_numeral(percent as nat);
            assert(status@.drop_last() =~= decimal(percent as nat));
        }
    }
}

/// A reading has one rounded percentage only.
pub proof fn law_percent_unique(lux: nat, p: int, q: int)
    requires
        is_rounded_percent(lux, p),
        is_rounded_percent(lux, q),
    ensures
        p == q,
{
    assert(p * 338 < q * 338 + 338 && q * 338 < p * 338 + 338);
    assert(p == q) by (nonlinear_arith)
        requires
            p * 338 < q * 338 + 338,
            q * 338 < p * 338 + 338,
    ;
}

/// The rounded percentage never falls as the reading rises.
pub proof fn law_percent_monotone(darker: nat, brighter: nat, p: int, q: int)
    requires
        darker <= brighter,
        is_rounded_percent(darker, p),
        is_rounded_percent(brighter, q),
    ensures
        p <= q,
{
    assert(p * 338 < q * 338 + 338);
    assert(p <= q) by (nonlinear_arith)
        requires
            p * 338 < q * 338 + 338,
    ;
}

/// The mode daemon's command that sets `mode`.
pub open spec fn command_text(mode: ColorMode) -> Seq<char> {
    match mode {
        ColorMode::Dark => "set dark"@,
        ColorMode::Light => "set light"@,
    }
}

impl ColorMode {
    /// The command that sets this mode.
    pub fn command(&self) -> (cmd: &'static str)
        ensures
            cmd@ == command_text(*self),
    {
        match self {
            ColorMode::Dark => "set dark",
            ColorMode::Light => "set light",
        }
    }
}

/// The line written to the mode daemon's control socket for `mode`: the command and a newline.
pub fn command_line(mode: ColorMode) -> (line: String)
    ensures
        line@ == command_text(mode) + "\n"@,
{
    let mut line = mode.command().to_owned();
    line.append("\n");
    line
}

/// The text the status bar shows for a percentage: the number followed by `%`.
pub fn status_text(percent: u64) -> (text: String)
    ensures
        text@ == decimal(percent as nat) + "%"@,
{
    let mut text = String::new();
    push_decimal(&mut text, percent);
    text.append("%");
    text
}

/// The path of the mode daemon's control socket under the user's runtime directory.
pub fn socket_path(runtime_dir: &str) -> (path: String)
    ensures
        path@ == runtime_dir@ + "/darkman/control.sock"@,
{
    let mut path = runtime_dir.to_owned();
    path.append("/darkman/control.sock");
    path
}

/// What a sensor message said, once read as JSON.
pub enum Reading {
    /// The message carries an illuminance.
    Lux(u32),
    /// The message is well formed but carries no illuminance.
    NoLux,
    /// The message could not be read; the text says why.
    Unreadable(String),
}

/// What the daemon's loop can be woken by.
pub enum DaemonEvent {
    /// The connection to the session bus ended.
    DbusLost,
    /// An interrupt signal arrived.
    Interrupt,
    /// A termination signal arrived.
    Terminate,
    /// The broker acknowledged the connection.
    Connected,
    /// A message arrived on the sensor's topic.
    Published(Reading),
    /// Some other packet arrived.
    OtherPacket,
    /// Polling the broker failed; the text says why.
    PollFailed(String),
}

/// What the daemon does next.
pub enum DaemonAction {
    /// Stop with this error.
    Fail(String),
    /// Stop without error.
    Stop,
    /// Subscribe to the sensor's topic.
    Subscribe,
    /// Send the mode command if there is one, and show the status text.
    Apply { mode: Option<ColorMode>, percent: u64, status: String },
    /// Report this problem and go on.
    Warn(String),
    /// Go on.
    Nothing,
}

/// The action that `event` leads to.
pub open spec fn action_for(event: DaemonEvent, action: DaemonAction) -> bool {
    match event {
        DaemonEvent::DbusLost => action matches DaemonAction::Fail(m) && m@ == "lost D-Bus connection"@,
        DaemonEvent::Interrupt => action is Stop,
        DaemonEvent::Terminate => action is Stop,
        DaemonEvent::Connected => action is Subscribe,
        DaemonEvent::Published(Reading::Lux(lux)) => action matches DaemonAction::Apply {
            mode,
            percent,
            status,
        } && mode == mode_for(lux as nat) && is_rounded_percent(lux as nat, percent as int)
            && status@ == decimal(percent as nat) + "%"@,
        DaemonEvent::Published(Reading::NoLux) => action is Nothing,
        DaemonEvent::Published(Reading::Unreadable(e)) => action matches DaemonAction::Warn(m)
            && m@ == "Could not parse payload: "@ + e@,
        DaemonEvent::OtherPacket => action is Nothing,
        DaemonEvent::PollFailed(e) => action matches DaemonAction::Warn(m) && m@ == e@,
    }
}

/// The daemon's decision on one event of its loop.
pub fn next_action(event: DaemonEvent) -> (action: DaemonAction)
    ensures
        action_for(event, action),
{
    match event {
        DaemonEvent::DbusLost => DaemonAction::Fail("lost D-Bus connection".to_owned()),
        DaemonEvent::Interrupt => DaemonAction::Stop,
        DaemonEvent::Terminate => DaemonAction::Stop,
        DaemonEvent::Connected => DaemonAction::Subscribe,
        DaemonEvent::Published(Reading::Lux(lux)) => {
            let percent = lux_percent(lux);
            DaemonAction::Apply { mode: color_mode(lux), percent, status: status_text(percent) }
        },
        DaemonEvent::Published(Reading::NoLux) => DaemonAction::Nothing,
        DaemonEvent::Published(Reading::Unreadable(e)) => {
            let mut m = "Could not parse payload: ".to_owned();
            m.append(e.as_str());
            DaemonAction::Warn(m)
        },
        DaemonEvent::OtherPacket => DaemonAction::Nothing,
        DaemonEvent::PollFailed(e) => DaemonAction::Warn(e),
    }
}

} // verus!
