use vstd::prelude::*;

use crate::domain::{fault_text, FirmwareFault};
use crate::telemetry::{record, record_view, RecordView, TelemetryLevel, TelemetryRecord};

verus! {

/// Something that happened in the harness.
#[derive(Debug)]
pub enum AppEvent {
    BootCompleted,
    PetTouchTriggered,
    RecordTouchTriggered,
    DisplayTestCompleted,
    MotorTestCompleted,
    AudioInPlaceholderReady,
    AudioOutPlaceholderReady,
    FaultDetected(FirmwareFault),
}

/// The telemetry record an event is logged as; the audio events carry the
/// placeholders' readiness notes.
pub open spec fn event_record_view(e: AppEvent, audio_in_note: Seq<char>, audio_out_note: Seq<char>) -> RecordView {
    match e {
        AppEvent::BootCompleted => record_view(
            TelemetryLevel::Info,
            "app"@,
            "boot_completed"@,
            "orchestrator entered idle state"@,
        ),
        AppEvent::PetTouchTriggered => record_view(
            TelemetryLevel::Info,
            "touch"@,
            "pet_triggered"@,
            "dispatching display test"@,
        ),
        AppEvent::RecordTouchTriggered => record_view(
            TelemetryLevel::Info,
            "touch"@,
            "record_triggered"@,
            "dispatching motor test"@,
        ),
        AppEvent::DisplayTestCompleted => record_view(
            TelemetryLevel::Info,
            "display"@,
            "test_completed"@,
            "placeholder frame request completed"@,
        ),
        AppEvent::MotorTestCompleted => record_view(
            TelemetryLevel::Info,
            "motor"@,
            "test_completed"@,
            "sequence finished with explicit stops between steps"@,
        ),
        AppEvent::AudioInPlaceholderReady => record_view(
            TelemetryLevel::Warn,
            "audio_in"@,
            "placeholder_ready"@,
            audio_in_note,
        ),
        AppEvent::AudioOutPlaceholderReady => record_view(
            TelemetryLevel::Warn,
            "audio_out"@,
            "placeholder_ready"@,
            audio_out_note,
        ),
        AppEvent::FaultDetected(f) => record_view(
            TelemetryLevel::Error,
            "app"@,
            "fault_detected"@,
            fault_text(f@),
        ),
    }
}

/// The telemetry record for `event`.
pub fn event_record(event: &AppEvent, audio_in_note: &str, audio_out_note: &str) -> (r:
    TelemetryRecord)
    ensures
        r@ == event_record_view(*event, audio_in_note@, audio_out_note@),
{
    match event {
        AppEvent::BootCompleted => record(
            TelemetryLevel::Info,
            "app",
            "boot_completed",
            "orchestrator entered idle state",
        ),
        AppEvent::PetTouchTriggered => record(
            TelemetryLevel::Info,
            "touch",
            "pet_triggered",
            "dispatching display test",
        ),
        AppEvent::RecordTouchTriggered => record(
            TelemetryLevel::Info,
            "touch",
            "record_triggered",
            "dispatching motor test",
        ),
        AppEvent::DisplayTestCompleted => record(
            TelemetryLevel::Info,
            "display",
            "test_completed",
            "placeholder frame request completed",
        ),
        AppEvent::MotorTestCompleted => record(
            TelemetryLevel::Info,
            "motor",
            "test_completed",
            "sequence finished with explicit stops between steps",
        ),
        AppEvent::AudioInPlaceholderReady => record(
            TelemetryLevel::Warn,
            "audio_in",
            "placeholder_ready",
            audio_in_note,
        ),
        AppEvent::AudioOutPlaceholderReady => record(
            TelemetryLevel::Warn,
            "audio_out",
            "placeholder_ready",
            audio_out_note,
        ),
        AppEvent::FaultDetected(f) => {
            let detail = f.to_string();
            record(TelemetryLevel::Error, "app", "fault_detected", detail.as_str())
        },
    }
}

} // verus!
