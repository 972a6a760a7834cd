//! The screen that lists the connected devices.
use vstd::prelude::*;
use crate::models::DeviceInfo;
use crate::text::prefix_with;
use crate::ui::app::{AppState, LibraApp};

verus! {

/// What the list shows of one device; choosing it selects `udid`.
pub struct DeviceCard {
    pub name: String,
    pub model: String,
    pub ios_line: String,
    pub udid_line: String,
    pub connection_line: String,
    pub udid: String,
}

/// The device list screen: the last error, a note that no device is
/// connected, or one card per device.
pub enum DevicesScreen {
    Error(String),
    NoDevices,
    Cards(Vec<DeviceCard>),
}

/// Whether `c` is the card of `d`.
pub open spec fn is_card_of(c: DeviceCard, d: DeviceInfo) -> bool {
    &&& c.name@ == d.name@
    &&& c.model@ == d.model@
    &&& c.ios_line@ == "iOS: "@ + d.ios_version@
    &&& c.udid_line@ == "UDID: "@ + d.udid@
    &&& c.connection_line@ == "Connection: "@ + d.connection_type@
    &&& c.udid@ == d.udid@
}

/// Whether `r` is what the device list shows in the state `s`: an error
/// hides the list.
pub open spec fn is_devices_screen(s: AppState, r: DevicesScreen) -> bool {
    match s.error {
        Some(e) => r matches DevicesScreen::Error(t) && t@ == "Error: "@ + e,
        None => if s.devices.len() == 0 {
            r is NoDevices
        } else {
            r matches DevicesScreen::Cards(cards) && cards.len() == s.devices.len() && forall|i: int|
                0 <= i < cards.len() ==> is_card_of(#[trigger] cards@[i], s.devices[i])
        },
    }
}

fn card_of(d: &DeviceInfo) -> (c: DeviceCard)
    ensures
        is_card_of(c, *d),
{
    DeviceCard {
        name: d.name.clone(),
        model: d.model.clone(),
        ios_line: prefix_with("iOS: ", d.ios_version.as_str()),
        udid_line: prefix_with("UDID: ", d.udid.as_str()),
        connection_line: prefix_with("Connection: ", d.connection_type.as_str()),
        udid: d.udid.clone(),
    }
}

/// The device list screen of `app`.
pub fn view(app: &LibraApp) -> (r: DevicesScreen)
    ensures
        is_devices_screen(app.model(), r),
{
    if let Some(err) = &app.error {
        return DevicesScreen::Error(prefix_with("Error: ", err.as_str()));
    }
    if app.devices.len() == 0 {
        return DevicesScreen::NoDevices;
    }
    let mut cards: Vec<DeviceCard> = Vec::new();
    let mut i: usize = 0;
    while i < app.devices.len()
        invariant
            i <= app.devices.len(),
            cards.len() == i,
            forall|j: int| 0 <= j < i ==> is_card_of(#[trigger] cards@[j], app.devices@[j]),
        decreases app.devices.len() - i,
    {
        cards.push(card_of(&app.devices[i]));
        i = i + 1;
    }
    DevicesScreen::Cards(cards)
}

} // verus!

verus! {

/// The device list shows the error when there is one; otherwise a note
/// when no device is connected, or exactly one card per device, in the
/// order of the list, each with that device's name, model, iOS version,
/// udid and connection, and selecting that device's udid.
pub proof fn law_one_card_per_device(s: AppState, r: DevicesScreen)
    requires
        is_devices_screen(s, r),
    ensures
        s.error matches Some(e) ==> (r matches DevicesScreen::Error(t) && t@ == "Error: "@ + e),
        s.error is None && s.devices.len() == 0 ==> r is NoDevices,
        s.error is None && s.devices.len() > 0 ==> (r matches DevicesScreen::Cards(cards)
            && cards.len() == s.devices.len() && forall|i: int|
            0 <= i < cards.len() ==> {
                &&& (#[trigger] cards@[i]).name@ == s.devices[i].name@
                &&& cards@[i].model@ == s.devices[i].model@
                &&& cards@[i].ios_line@ == "iOS: "@ + s.devices[i].ios_version@
                &&& cards@[i].udid_line@ == "UDID: "@ + s.devices[i].udid@
                &&& cards@[i].connection_line@ == "Connection: "@ + s.devices[i].connection_type@
                &&& cards@[i].udid@ == s.devices[i].udid@
            }),
{
}

} // verus!
