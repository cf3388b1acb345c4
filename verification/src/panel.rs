use vstd::prelude::*;

use crate::model::{
    all_tests, test_at, test_label, texts, PinConnectionStatus, PinStatus, PinVerificationMethod,
    TestExecutionState, TestKind, TestReport,
};
use crate::text::{bool_level, decimal_text, level_name, push_decimal};

verus! {

/// Name of the SoftAP network the control panel runs on.
pub const CONTROL_PANEL_SSID: &'static str = "robot-panel-s3";

/// Password of the control panel network.
pub const CONTROL_PANEL_PASSWORD: &'static str = "robotpanel123";

/// Largest JSON request body the panel accepts, in bytes.
pub const MAX_JSON_BODY_LEN: usize = 2048;

/// Number of telemetry entries the panel keeps.
pub const TELEMETRY_LIMIT: usize = 128;

pub const TOUCH_SEEN_DETAIL: &'static str = "Bu hat mevcut oturumda en az bir kez HIGH olarak gözlendi; bağlantı yolu doğrulanmış kabul edilir.";

pub const TOUCH_UNSEEN_DETAIL: &'static str = "Canlı lojik seviye okunur; sensör tetiklenmedikçe kablo kopukluğu otomatik ayırt edilemez.";

pub const MOTOR_PIN_DETAIL: &'static str = "GPIO seviyesi canlıdır; sürücü giriş kablosu sürekliliği otomatik ölçülemez.";

pub const MANUAL_PIN_DETAIL: &'static str = "Bu hat placeholder aşamasında; fiziksel bağlantı otomatik ölçülemez.";

pub const LIMITATION_OLED: &'static str = "OLED için 0x3C I2C probu otomatik doğrulama yapar.";

pub const LIMITATION_TOUCH: &'static str = "Dokunmatik girişlerde anlık seviye ve oturum boyunca tetiklenme bilgisi izlenir.";

pub const LIMITATION_WIRING: &'static str = "Motor ve I2S kablolarında geri besleme hattı olmadığı için fiziksel bağlantı operatör onayı ister.";

pub const NOT_RUN_DETAIL: &'static str = "Henüz çalıştırılmadı";

/// Abstract value of a pin row.
pub struct PinView {
    pub key: Seq<char>,
    pub label: Seq<char>,
    pub gpio: u8,
    pub role: Seq<char>,
    pub direction: Seq<char>,
    pub signal: Seq<char>,
    pub connection_status: PinConnectionStatus,
    pub verification_method: PinVerificationMethod,
    pub detail: Seq<char>,
    pub required_by: Seq<Seq<char>>,
}

impl View for PinStatus {
    type V = PinView;

    open spec fn view(&self) -> PinView {
        PinView {
            key: self.key@,
            label: self.label@,
            gpio: self.gpio,
            role: self.role@,
            direction: self.direction@,
            signal: self.signal@,
            connection_status: self.connection_status,
            verification_method: self.verification_method,
            detail: self.detail@,
            required_by: texts(self.required_by@),
        }
    }
}

/// Row of a touch input: live level, and whether it was ever seen high.
pub open spec fn touch_pin_view(
    key: Seq<char>,
    label: Seq<char>,
    gpio: u8,
    current_high: bool,
    seen_high: bool,
) -> PinView {
    PinView {
        key,
        label,
        gpio,
        role: "Dijital giriş"@,
        direction: "input"@,
        signal: level_name(current_high),
        connection_status: if seen_high {
            PinConnectionStatus::Present
        } else {
            PinConnectionStatus::Unknown
        },
        verification_method: PinVerificationMethod::LiveSignal,
        detail: if seen_high {
            TOUCH_SEEN_DETAIL@
        } else {
            TOUCH_UNSEEN_DETAIL@
        },
        required_by: seq![test_label(TestKind::Touch), test_label(TestKind::FullHarness)],
    }
}

/// Row of an H-bridge input.
pub open spec fn motor_pin_view(
    key: Seq<char>,
    label: Seq<char>,
    gpio: u8,
    high: bool,
    status: PinConnectionStatus,
) -> PinView {
    PinView {
        key,
        label,
        gpio,
        role: "H-köprüsü dijital çıkışı"@,
        direction: "output"@,
        signal: level_name(high),
        connection_status: status,
        verification_method: PinVerificationMethod::ManualAck,
        detail: MOTOR_PIN_DETAIL@,
        required_by: seq![test_label(TestKind::Motor), test_label(TestKind::FullHarness)],
    }
}

/// Row of a reserved I2S line that only the operator can confirm.
pub open spec fn manual_pin_view(
    key: Seq<char>,
    label: Seq<char>,
    gpio: u8,
    role: Seq<char>,
    status: PinConnectionStatus,
    required: TestKind,
) -> PinView {
    PinView {
        key,
        label,
        gpio,
        role,
        direction: "bus"@,
        signal: "REZERVE"@,
        connection_status: status,
        verification_method: PinVerificationMethod::ManualAck,
        detail: MANUAL_PIN_DETAIL@,
        required_by: seq![test_label(required), test_label(TestKind::FullHarness)],
    }
}

/// A list of two labels.
pub fn two_labels(a: TestKind, b: TestKind) -> (v: Vec<String>)
    ensures
        texts(v@) == seq![test_label(a), test_label(b)],
{
    let mut v = Vec::new();
    v.push(String::from_str(a.label_tr()));
    v.push(String::from_str(b.label_tr()));
    assert(texts(v@) =~= seq![test_label(a), test_label(b)]);
    v
}

pub fn pin_from_touch(key: &str, label: &str, gpio: u8, current_high: bool, seen_high: bool) -> (pin:
    PinStatus)
    ensures
        pin@ == touch_pin_view(key@, label@, gpio, current_high, seen_high),
{
    let connection_status = if seen_high {
        PinConnectionStatus::Present
    } else {
        PinConnectionStatus::Unknown
    };
    let detail = if seen_high {
        TOUCH_SEEN_DETAIL
    } else {
        TOUCH_UNSEEN_DETAIL
    };
    PinStatus {
        key: String::from_str(key),
        label: String::from_str(label),
        gpio,
        role: String::from_str("Dijital giriş"),
        direction: String::from_str("input"),
        signal: String::from_str(bool_level(current_high)),
        connection_status,
        verification_method: PinVerificationMethod::LiveSignal,
        detail: String::from_str(detail),
        required_by: two_labels(TestKind::Touch, TestKind::FullHarness),
    }
}

pub fn pin_from_motor(
    key: &str,
    label: &str,
    gpio: u8,
    high: bool,
    connection_status: PinConnectionStatus,
) -> (pin: PinStatus)
    ensures
        pin@ == motor_pin_view(key@, label@, gpio, high, connection_status),
{
    PinStatus {
        key: String::from_str(key),
        label: String::from_str(label),
        gpio,
        role: String::from_str("H-köprüsü dijital çıkışı"),
        direction: String::from_str("output"),
        signal: String::from_str(bool_level(high)),
        connection_status,
        verification_method: PinVerificationMethod::ManualAck,
        detail: String::from_str(MOTOR_PIN_DETAIL),
        required_by: two_labels(TestKind::Motor, TestKind::FullHarness),
    }
}

pub fn pin_from_manual(
    key: &str,
    label: &str,
    gpio: u8,
    role: &str,
    connection_status: PinConnectionStatus,
    required_test: TestKind,
) -> (pin: PinStatus)
    ensures
        pin@ == manual_pin_view(key@, label@, gpio, role@, connection_status, required_test),
{
    PinStatus {
        key: String::from_str(key),
        label: String::from_str(label),
        gpio,
        role: String::from_str(role),
        direction: String::from_str("bus"),
        signal: String::from_str("REZERVE"),
        connection_status,
        verification_method: PinVerificationMethod::ManualAck,
        detail: String::from_str(MANUAL_PIN_DETAIL),
        required_by: two_labels(required_test, TestKind::FullHarness),
    }
}

/// What the inspection page states it cannot check automatically.
pub open spec fn limitation_texts() -> Seq<Seq<char>> {
    seq![LIMITATION_OLED@, LIMITATION_TOUCH@, LIMITATION_WIRING@]
}

pub fn default_limitations() -> (v: Vec<String>)
    ensures
        texts(v@) == limitation_texts(),
{
    let mut v = Vec::new();
    v.push(String::from_str(LIMITATION_OLED));
    v.push(String::from_str(LIMITATION_TOUCH));
    v.push(String::from_str(LIMITATION_WIRING));
    assert(texts(v@) =~= limitation_texts());
    v
}

/// One idle, never-run report per test, in panel order, stamped `now`.
pub fn default_test_reports(now: &str) -> (reports: Vec<TestReport>)
    ensures
        reports@.len() == 6,
        forall|i: int|
            0 <= i < 6 ==> {
                let r = #[trigger] reports@[i];
                &&& r.test == all_tests()[i]
                &&& r.state == TestExecutionState::Idle
                &&& !r.run_allowed
                &&& r.blocked_reason is None
                &&& r.last_detail@ == NOT_RUN_DETAIL@
                &&& r.last_updated@ == now@
            },
{
    let mut reports: Vec<TestReport> = Vec::new();
    let mut i: usize = 0;
    while i < 6
        invariant
            i <= 6,
            reports@.len() == i,
            forall|j: int|
                0 <= j < i ==> {
                    let r = #[trigger] reports@[j];
                    &&& r.test == all_tests()[j]
                    &&& r.state == TestExecutionState::Idle
                    &&& !r.run_allowed
                    &&& r.blocked_reason is None
                    &&& r.last_detail@ == NOT_RUN_DETAIL@
                    &&& r.last_updated@ == now@
                },
        decreases 6 - i,
    {
        reports.push(
            TestReport {
                test: test_at(i),
                state: TestExecutionState::Idle,
                run_allowed: false,
                blocked_reason: None,
                last_detail: String::from_str(NOT_RUN_DETAIL),
                last_updated: String::from_str(now),
            },
        );
        i = i + 1;
    }
    reports
}

/// Admits a request body of `len` bytes, or says why not.
pub fn check_body_len(len: usize) -> (r: Result<(), String>)
    ensures
        r is Ok <==> len <= MAX_JSON_BODY_LEN,
        r matches Err(e) ==> e@ == "request body too large: received "@ + decimal_text(len as nat)
            + " bytes, limit is 2048"@,
{
    if len > MAX_JSON_BODY_LEN {
        let mut e = String::from_str("request body too large: received ");
        push_decimal(&mut e, len as u64);
        e.append(" bytes, limit is 2048");
        Err(e)
    } else {
        Ok(())
    }
}

} // verus!
