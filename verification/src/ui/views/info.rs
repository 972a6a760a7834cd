//! The screen that shows the details of the selected device.
use vstd::prelude::*;
use crate::models::{DeviceInfo, device_position, position_of_udid};
use crate::text::prefix_with;
use crate::ui::app::{AppState, LibraApp};

verus! {

/// The details of one device: a title and one line per detail.
pub struct DeviceDetails {
    pub title: String,
    pub lines: Vec<String>,
}

/// The details screen: nothing selected yet, the selected device is no
/// longer connected, or its details.
pub enum InfoScreen {
    NoSelection,
    Disconnected,
    Device(DeviceDetails),
}

/// The detail lines of `d`, in the order shown.
pub open spec fn info_lines(d: DeviceInfo) -> Seq<Seq<char>> {
    seq![
        "UDID: "@ + d.udid@,
        "Model: "@ + d.model@ + " - "@ + d.product_type@,
        "iOS: "@ + d.ios_version@,
        "Connection: "@ + d.connection_type@,
        "Activation State: "@ + d.activation_state@,
        "CPU Architecture: "@ + d.cpu_architecture@,
        "Device Class: "@ + d.device_class@,
        "Hardware Model: "@ + d.hardware_model@,
        "Product Type: "@ + d.product_type@,
        "Region: "@ + d.region_info@,
        "Serial Number: "@ + d.serial_number@,
        "Raw Dump: "@ + d.raw_dump@,
    ]
}

/// Whether `x` holds the details of `d`.
pub open spec fn is_details_of(x: DeviceDetails, d: DeviceInfo) -> bool {
    &&& x.title@ == d.name@
    &&& x.lines.len() == info_lines(d).len()
    &&& forall|i: int| 0 <= i < x.lines.len() ==> (#[trigger] x.lines@[i])@ == info_lines(d)[i]
}

/// Whether `r` is what the details screen shows in the state `s`: the
/// first device with the selected udid, if any.
pub open spec fn is_info_screen(s: AppState, r: InfoScreen) -> bool {
    match s.selected_device_udid {
        None => r is NoSelection,
        Some(u) => match position_of_udid(s.devices, u) {
            None => r is Disconnected,
            Some(i) => r matches InfoScreen::Device(x) && is_details_of(x, s.devices[i]),
        },
    }
}

fn details_of(d: &DeviceInfo) -> (x: DeviceDetails)
    ensures
        is_details_of(x, *d),
{
    let mut lines: Vec<String> = Vec::new();
    lines.push(prefix_with("UDID: ", d.udid.as_str()));
    let mut model = prefix_with("Model: ", d.model.as_str());
    model.append(" - ");
    model.append(d.product_type.as_str());
    lines.push(model);
    lines.push(prefix_with("iOS: ", d.ios_version.as_str()));
    lines.push(prefix_with("Connection: ", d.connection_type.as_str()));
    lines.push(prefix_with("Activation State: ", d.activation_state.as_str()));
    lines.push(prefix_with("CPU Architecture: ", d.cpu_architecture.as_str()));
    lines.push(prefix_with("Device Class: ", d.device_class.as_str()));
    lines.push(prefix_with("Hardware Model: ", d.hardware_model.as_str()));
    lines.push(prefix_with("Product Type: ", d.product_type.as_str()));
    lines.push(prefix_with("Region: ", d.region_info.as_str()));
    lines.push(prefix_with("Serial Number: ", d.serial_number.as_str()));
    lines.push(prefix_with("Raw Dump: ", d.raw_dump.as_str()));
    let x = DeviceDetails { title: d.name.clone(), lines };
    assert forall|i: int| 0 <= i < x.lines.len() implies (#[trigger] x.lines@[i])@ == info_lines(
        *d,
    )[i] by {
        if i == 1 {
            assert(x.lines@[1]@ =~= info_lines(*d)[1]);
        }
    }
    x
}

/// The details screen of `app`.
pub fn view(app: &LibraApp) -> (r: InfoScreen)
    ensures
        is_info_screen(app.model(), r),
{
    match &app.selected_device_udid {
        Some(udid) => match device_position(&app.devices, udid) {
            Some(i) => InfoScreen::Device(details_of(&app.devices[i])),
            None => InfoScreen::Disconnected,
        },
        None => InfoScreen::NoSelection,
    }
}

} // verus!

verus! {

/// The details of a device are titled with its name and show, in order,
/// its whole udid, model and product type, iOS version, connection,
/// activation state, CPU architecture, device class, hardware model,
/// product type, region, serial number and raw dump, each after its label.
pub proof fn law_details_show_whole_values(x: DeviceDetails, d: DeviceInfo)
    requires
        is_details_of(x, d),
    ensures
        x.title@ == d.name@,
        x.lines.len() == 12,
        x.lines@[0]@ == "UDID: "@ + d.udid@,
        x.lines@[1]@ == "Model: "@ + d.model@ + " - "@ + d.product_type@,
        x.lines@[2]@ == "iOS: "@ + d.ios_version@,
        x.lines@[3]@ == "Connection: "@ + d.connection_type@,
        x.lines@[4]@ == "Activation State: "@ + d.activation_state@,
        x.lines@[5]@ == "CPU Architecture: "@ + d.cpu_architecture@,
        x.lines@[6]@ == "Device Class: "@ + d.device_class@,
        x.lines@[7]@ == "Hardware Model: "@ + d.hardware_model@,
        x.lines@[8]@ == "Product Type: "@ + d.product_type@,
        x.lines@[9]@ == "Region: "@ + d.region_info@,
        x.lines@[10]@ == "Serial Number: "@ + d.serial_number@,
        x.lines@[11]@ == "Raw Dump: "@ + d.raw_dump@,
{
    assert(x.lines@[0]@ == info_lines(d)[0]);
    assert(x.lines@[1]@ == info_lines(d)[1]);
    assert(x.lines@[2]@ == info_lines(d)[2]);
    assert(x.lines@[3]@ == info_lines(d)[3]);
    assert(x.lines@[4]@ == info_lines(d)[4]);
    assert(x.lines@[5]@ == info_lines(d)[5]);
    assert(x.lines@[6]@ == info_lines(d)[6]);
    assert(x.lines@[7]@ == info_lines(d)[7]);
    assert(x.lines@[8]@ == info_lines(d)[8]);
    assert(x.lines@[9]@ == info_lines(d)[9]);
    assert(x.lines@[10]@ == info_lines(d)[10]);
    assert(x.lines@[11]@ == info_lines(d)[11]);
}

} // verus!
