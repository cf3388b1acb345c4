use vstd::prelude::*;

use crate::text::{bool_str, bool_text};

verus! {

/// Levels of the two touch inputs at one instant.
#[derive(Debug, Default, Clone, Copy, PartialEq, Eq, Structural)]
pub struct TouchSnapshot {
    pub pet: bool,
    pub record: bool,
}

/// `pet=<b> record=<b>`.
pub open spec fn touch_text(s: TouchSnapshot) -> Seq<char> {
    "pet="@ + bool_text(s.pet) + " record="@ + bool_text(s.record)
}

impl TouchSnapshot {
    pub fn any_triggered(self) -> (any: bool)
        ensures
            any == (self.pet || self.record),
    {
        self.pet || self.record
    }

    pub fn describe(self) -> (text: String)
        ensures
            text@ == touch_text(self),
    {
        let mut text = String::from_str("pet=");
        text.append(bool_str(self.pet));
        text.append(" record=");
        text.append(bool_str(self.record));
        text
    }
}

/// The two touch inputs.
pub trait TouchPort {
    fn pet_triggered(&mut self) -> Result<bool, String>;

    fn record_triggered(&mut self) -> Result<bool, String>;

    /// Samples both inputs, the pet input first.
    fn read_snapshot(&mut self) -> Result<TouchSnapshot, String> {
        let pet = self.pet_triggered()?;
        let record = self.record_triggered()?;
        Ok(TouchSnapshot { pet, record })
    }
}

} // verus!
