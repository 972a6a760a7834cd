//! The screens of the application and the messages that drive it.
use vstd::prelude::*;
use crate::models::{DeviceInfo, DeviceInfoState};

verus! {

/// The screen shown right of the sidebar.
#[derive(Debug, Clone, Copy, PartialEq, Eq, Structural)]
pub enum CurrentView {
    Devices,
    Info,
    Credits,
}

/// `Result::clone` clones the value it holds, `Ok` or `Err`.
pub assume_specification<T: Clone, E: Clone>[ <Result<T, E> as Clone>::clone ](
    r: &Result<T, E>,
) -> (res: Result<T, E>)
    ensures
        match *r {
            Ok(t) => res matches Ok(u) && cloned::<T>(t, u),
            Err(e) => res matches Err(f) && cloned::<E>(e, f),
        },
;

/// What can happen to the application.
#[derive(Debug, Clone)]
pub enum Message {
    /// Switch views
    SwitchView(CurrentView),
    /// Load Devices
    LoadDevices,
    /// Device Loaded Result
    DevicesLoaded(Result<Vec<DeviceInfo>, String>),
    /// Select Device
    SelectDevice(String),
    /// Open Url
    OpenUrl(String),
    /// Fresh storage, battery and wallpaper values of devices
    DeviceInfoStateRefreshed(Result<Vec<DeviceInfoState>, String>),
}

} // verus!
