//! ScalarWebAPI speaker wake: trigger names and the wake response.
use vstd::prelude::*;

verus! {

/// Wake on keyboard activity.
pub const KEYBOARD_TRIGGER: &'static str = "keyboard";

/// Wake on pointer activity.
pub const MOUSE_TRIGGER: &'static str = "mouse";

/// Wake when the attached Mac output is selected.
pub const OUTPUT_SELECTED_TRIGGER: &'static str = "output_selected";

/// Wake response of a ScalarWebAPI device.
#[derive(Debug)]
pub struct ScalarWebApiDeviceWakeResult {
    pub endpoint: String,
    pub status_code: u16,
    pub previous_status: Option<String>,
}

} // verus!
