use vstd::prelude::*;

use crate::domain::{fault_text, robot_mode_name, FirmwareFault, RobotMode};

verus! {

/// Severity of a telemetry event.
#[derive(Debug, Clone, Copy, PartialEq, Eq, Structural)]
pub enum TelemetryLevel {
    Info,
    Warn,
    Error,
}

/// Lower-case name of a level as the panel log shows it.
pub open spec fn level_text(level: TelemetryLevel) -> Seq<char> {
    match level {
        TelemetryLevel::Info => "info"@,
        TelemetryLevel::Warn => "warn"@,
        TelemetryLevel::Error => "error"@,
    }
}

pub fn level_label(level: TelemetryLevel) -> (label: &'static str)
    ensures
        label@ == level_text(level),
{
    match level {
        TelemetryLevel::Info => "info",
        TelemetryLevel::Warn => "warn",
        TelemetryLevel::Error => "error",
    }
}

/// One telemetry event: severity, the component it concerns, what happened
/// and a detail text.
pub struct TelemetryRecord {
    pub level: TelemetryLevel,
    pub component: String,
    pub action: String,
    pub detail: String,
}

pub struct RecordView {
    pub level: TelemetryLevel,
    pub component: Seq<char>,
    pub action: Seq<char>,
    pub detail: Seq<char>,
}

impl View for TelemetryRecord {
    type V = RecordView;

    open spec fn view(&self) -> RecordView {
        RecordView {
            level: self.level,
            component: self.component@,
            action: self.action@,
            detail: self.detail@,
        }
    }
}

pub open spec fn record_view(
    level: TelemetryLevel,
    component: Seq<char>,
    action: Seq<char>,
    detail: Seq<char>,
) -> RecordView {
    RecordView { level, component, action, detail }
}

pub fn record(level: TelemetryLevel, component: &str, action: &str, detail: &str) -> (r:
    TelemetryRecord)
    ensures
        r@ == record_view(level, component@, action@, detail@),
{
    TelemetryRecord {
        level,
        component: String::from_str(component),
        action: String::from_str(action),
        detail: String::from_str(detail),
    }
}

/// A test started.
pub fn test_started_record(test_name: &str) -> (r: TelemetryRecord)
    ensures
        r@ == record_view(TelemetryLevel::Info, test_name@, "start"@, "test started"@),
{
    record(TelemetryLevel::Info, test_name, "start", "test started")
}

/// A test succeeded.
pub fn test_succeeded_record(test_name: &str, detail: &str) -> (r: TelemetryRecord)
    ensures
        r@ == record_view(TelemetryLevel::Info, test_name@, "success"@, detail@),
{
    record(TelemetryLevel::Info, test_name, "success", detail)
}

/// A test failed with `fault`.
pub fn test_failed_record(test_name: &str, fault: &FirmwareFault) -> (r: TelemetryRecord)
    ensures
        r@ == record_view(TelemetryLevel::Error, test_name@, "failure"@, fault_text(fault@)),
{
    let detail = fault.to_string();
    record(TelemetryLevel::Error, test_name, "failure", detail.as_str())
}

/// `mode=<mode> state=<state> emotion=<emotion>`.
pub open spec fn heartbeat_text(mode: RobotMode, state: Seq<char>, emotion: Seq<char>) -> Seq<char> {
    "mode="@ + robot_mode_name(mode) + " state="@ + state + " emotion="@ + emotion
}

pub fn heartbeat_detail(mode: RobotMode, state: &str, emotion: &str) -> (detail: String)
    ensures
        detail@ == heartbeat_text(mode, state@, emotion@),
{
    let mut detail = String::from_str("mode=");
    detail.append(mode.as_str());
    detail.append(" state=");
    detail.append(state);
    detail.append(" emotion=");
    detail.append(emotion);
    detail
}

/// The periodic heartbeat.
pub fn heartbeat_record(mode: RobotMode, state: &str, emotion: &str) -> (r: TelemetryRecord)
    ensures
        r@ == record_view(
            TelemetryLevel::Info,
            "app"@,
            "heartbeat"@,
            heartbeat_text(mode, state@, emotion@),
        ),
{
    let detail = heartbeat_detail(mode, state, emotion);
    record(TelemetryLevel::Info, "app", "heartbeat", detail.as_str())
}

/// The active fault.
pub fn fault_record(fault: &FirmwareFault) -> (r: TelemetryRecord)
    ensures
        r@ == record_view(TelemetryLevel::Error, "fault"@, "active"@, fault_text(fault@)),
{
    let detail = fault.to_string();
    record(TelemetryLevel::Error, "fault", "active", detail.as_str())
}

/// Where telemetry goes. Implementors provide `log_event`; the other
/// methods log the standard records.
pub trait TelemetryPort {
    fn log_event(&mut self, level: TelemetryLevel, component: &str, action: &str, detail: &str);

    fn log_record(&mut self, r: &TelemetryRecord) {
        self.log_event(r.level, r.component.as_str(), r.action.as_str(), r.detail.as_str());
    }

    fn log_test_started(&mut self, test_name: &str) {
        let r = test_started_record(test_name);
        self.log_record(&r);
    }

    fn log_test_succeeded(&mut self, test_name: &str, detail: &str) {
        let r = test_succeeded_record(test_name, detail);
        self.log_record(&r);
    }

    fn log_test_failed(&mut self, test_name: &str, fault: &FirmwareFault) {
        let r = test_failed_record(test_name, fault);
        self.log_record(&r);
    }

    fn log_heartbeat(&mut self, mode: RobotMode, state: &str, emotion: &str) {
        let r = heartbeat_record(mode, state, emotion);
        self.log_record(&r);
    }

    fn log_fault(&mut self, fault: &FirmwareFault) {
        let r = fault_record(fault);
        self.log_record(&r);
    }
}

/// The serial console sink: each event becomes one log line.
pub struct SerialTelemetry;

/// `component=<c> action=<a> detail="<d>"`.
pub open spec fn serial_line_text(component: Seq<char>, action: Seq<char>, detail: Seq<char>) -> Seq<
    char,
> {
    "component="@ + component + " action="@ + action + " detail=\""@ + detail + "\""@
}

impl SerialTelemetry {
    pub fn new() -> (t: Self) {
        SerialTelemetry
    }

    /// The line written to the serial log for an event.
    pub fn message_line(&self, component: &str, action: &str, detail: &str) -> (line: String)
        ensures
            line@ == serial_line_text(component@, action@, detail@),
    {
        let mut line = String::from_str("component=");
        line.append(component);
        line.append(" action=");
        line.append(action);
        line.append(" detail=\"");
        line.append(detail);
        line.append("\"");
        line
    }
}

} // verus!
