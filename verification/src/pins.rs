use vstd::prelude::*;

use crate::text::{decimal_text, push_decimal};

verus! {

/// GPIO numbers of every signal the harness wires up.
#[derive(Debug, Clone, Copy)]
pub struct BoardPinMap {
    pub oled_scl: u8,
    pub oled_sda: u8,
    pub pet_touch: u8,
    pub record_touch: u8,
    pub mic_sck: u8,
    pub mic_ws: u8,
    pub mic_sd: u8,
    pub motor_in1: u8,
    pub motor_in2: u8,
    pub motor_in3: u8,
    pub motor_in4: u8,
    pub speaker_lrc: u8,
    pub speaker_bclk: u8,
    pub speaker_din: u8,
}

/// The board's wiring.
pub open spec fn board_pins() -> BoardPinMap {
    BoardPinMap {
        oled_scl: 9,
        oled_sda: 8,
        pet_touch: 5,
        record_touch: 6,
        mic_sck: 12,
        mic_ws: 13,
        mic_sd: 11,
        motor_in1: 1,
        motor_in2: 2,
        motor_in3: 41,
        motor_in4: 42,
        speaker_lrc: 14,
        speaker_bclk: 16,
        speaker_din: 15,
    }
}

/// The board's wiring.
pub fn pin_map() -> (map: BoardPinMap)
    ensures
        map == board_pins(),
{
    BoardPinMap {
        oled_scl: 9,
        oled_sda: 8,
        pet_touch: 5,
        record_touch: 6,
        mic_sck: 12,
        mic_ws: 13,
        mic_sd: 11,
        motor_in1: 1,
        motor_in2: 2,
        motor_in3: 41,
        motor_in4: 42,
        speaker_lrc: 14,
        speaker_bclk: 16,
        speaker_din: 15,
    }
}

/// I2C address of the SSD1306 OLED.
pub const OLED_I2C_ADDRESS: u8 = 0x3C;

/// I2C bus speed for the OLED.
pub const OLED_I2C_BAUDRATE_HZ: u32 = 400_000;

/// `GPIO<n>`.
pub open spec fn gpio_text(n: u8) -> Seq<char> {
    "GPIO"@ + decimal_text(n as nat)
}

/// The pin map as one line of text.
pub open spec fn pin_map_text(m: BoardPinMap) -> Seq<char> {
    "oled[scl="@ + gpio_text(m.oled_scl) + " sda="@ + gpio_text(m.oled_sda) + "] touch[pet="@
        + gpio_text(m.pet_touch) + " record="@ + gpio_text(m.record_touch) + "] mic[sck="@
        + gpio_text(m.mic_sck) + " ws="@ + gpio_text(m.mic_ws) + " sd="@ + gpio_text(m.mic_sd)
        + "] motor[in1="@ + gpio_text(m.motor_in1) + " in2="@ + gpio_text(m.motor_in2) + " in3="@
        + gpio_text(m.motor_in3) + " in4="@ + gpio_text(m.motor_in4) + "] speaker[lrc="@
        + gpio_text(m.speaker_lrc) + " bclk="@ + gpio_text(m.speaker_bclk) + " din="@
        + gpio_text(m.speaker_din) + "]"@
}

fn push_field(out: &mut String, name: &str, pin: u8)
    ensures
        final(out)@ == old(out)@ + name@ + gpio_text(pin),
{
    out.append(name);
    out.append("GPIO");
    push_decimal(out, pin as u64);
    assert(final(out)@ =~= old(out)@ + name@ + gpio_text(pin));
}

impl BoardPinMap {
    /// Renders the map as `oled[scl=GPIO9 sda=GPIO8] touch[...] ...`.
    pub fn to_string(&self) -> (text: String)
        ensures
            text@ == pin_map_text(*self),
    {
        let mut s = String::new();
        push_field(&mut s, "oled[scl=", self.oled_scl);
        push_field(&mut s, " sda=", self.oled_sda);
        push_field(&mut s, "] touch[pet=", self.pet_touch);
        push_field(&mut s, " record=", self.record_touch);
        push_field(&mut s, "] mic[sck=", self.mic_sck);
        push_field(&mut s, " ws=", self.mic_ws);
        push_field(&mut s, " sd=", self.mic_sd);
        push_field(&mut s, "] motor[in1=", self.motor_in1);
        push_field(&mut s, " in2=", self.motor_in2);
        push_field(&mut s, " in3=", self.motor_in3);
        push_field(&mut s, " in4=", self.motor_in4);
        push_field(&mut s, "] speaker[lrc=", self.speaker_lrc);
        push_field(&mut s, " bclk=", self.speaker_bclk);
        push_field(&mut s, " din=", self.speaker_din);
        s.append("]");
        assert(s@ =~= pin_map_text(*self));
        s
    }
}

/// Summary of the microphone pins: `sck=GPIO<a> ws=GPIO<b> sd=GPIO<c>`.
pub fn audio_in_summary(sck: u8, ws: u8, sd: u8) -> (text: String)
    ensures
        text@ == "sck="@ + gpio_text(sck) + " ws="@ + gpio_text(ws) + " sd="@ + gpio_text(sd),
{
    let mut s = String::new();
    push_field(&mut s, "sck=", sck);
    push_field(&mut s, " ws=", ws);
    push_field(&mut s, " sd=", sd);
    assert(s@ =~= "sck="@ + gpio_text(sck) + " ws="@ + gpio_text(ws) + " sd="@ + gpio_text(sd));
    s
}

/// Summary of the speaker pins: `lrc=GPIO<a> bclk=GPIO<b> din=GPIO<c>`.
pub fn audio_out_summary(lrc: u8, bclk: u8, din: u8) -> (text: String)
    ensures
        text@ == "lrc="@ + gpio_text(lrc) + " bclk="@ + gpio_text(bclk) + " din="@ + gpio_text(din),
{
    let mut s = String::new();
    push_field(&mut s, "lrc=", lrc);
    push_field(&mut s, " bclk=", bclk);
    push_field(&mut s, " din=", din);
    assert(s@ =~= "lrc="@ + gpio_text(lrc) + " bclk="@ + gpio_text(bclk) + " din="@ + gpio_text(din));
    s
}

} // verus!
