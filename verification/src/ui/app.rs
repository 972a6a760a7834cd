//! The state of the application and how each message changes it.
use vstd::prelude::*;
use crate::message::{CurrentView, Message};
use crate::models::{DeviceInfo, DeviceInfoState, refresh_all, refresh_devices, position_of_udid, law_refresh_keeps_positions, law_refresh_all_idempotent};
use crate::ui::views::credits::{self, Credit, is_credits};
use crate::ui::views::devices::{self, DevicesScreen, is_devices_screen};
use crate::ui::views::info::{self, InfoScreen, is_info_screen, is_details_of};

verus! {

/// Work that the application asks its runtime to do after a message.
#[derive(Debug)]
pub enum Command {
    /// Nothing to do.
    Nothing,
    /// Read the list of connected devices and their lockdown values, and
    /// answer with `Message::DevicesLoaded`.
    FetchDevices,
    /// Open the given address in the system's browser.
    OpenUrl(String),
}

/// What the application watches while it runs.
#[derive(Debug)]
pub enum Watch {
    /// Devices being plugged in or out; each event answers with
    /// `Message::LoadDevices`.
    DeviceEvents,
    /// The storage, battery and wallpaper of the device with this udid,
    /// read every few seconds and answered with
    /// `Message::DeviceInfoStateRefreshed`.
    DeviceState(String),
}

/// One entry of the sidebar: its label, the screen it switches to, and
/// whether that screen is the one shown.
pub struct NavItem {
    pub label: String,
    pub target: CurrentView,
    pub active: bool,
}

/// What is shown right of the sidebar.
pub enum Content {
    Devices(DevicesScreen),
    Info(InfoScreen),
    Credits(Vec<Credit>),
}

/// Everything the window shows: the title over the sidebar, the sidebar
/// entries, and the current screen.
pub struct Screen {
    pub title: String,
    pub nav: Vec<NavItem>,
    pub content: Content,
}

/// Whether `n` is the sidebar entry with `label` for `target` while
/// `current` is shown.
pub open spec fn is_nav_item(n: NavItem, label: Seq<char>, target: CurrentView, current: CurrentView) -> bool {
    n.label@ == label && n.target == target && n.active == (target == current)
}

fn nav_button(label: &str, target: CurrentView, current: CurrentView) -> (n: NavItem)
    ensures
        is_nav_item(n, label@, target, current),
{
    NavItem { label: String::from_str(label), target, active: current == target }
}

/// The application's state.
pub struct LibraApp {
    pub devices: Vec<DeviceInfo>,
    pub error: Option<String>,
    pub selected_device_udid: Option<String>,
    pub current_view: CurrentView,
}

/// The state of the application as values.
pub struct AppState {
    pub devices: Seq<DeviceInfo>,
    pub error: Option<Seq<char>>,
    pub selected_device_udid: Option<Seq<char>>,
    pub current_view: CurrentView,
}

/// The characters of an optional string.
pub open spec fn opt_chars(o: Option<String>) -> Option<Seq<char>> {
    match o {
        Some(s) => Some(s@),
        None => None,
    }
}

impl LibraApp {
    /// The state as values.
    pub open spec fn model(&self) -> AppState {
        AppState {
            devices: self.devices@,
            error: opt_chars(self.error),
            selected_device_udid: opt_chars(self.selected_device_udid),
            current_view: self.current_view,
        }
    }
}

/// The state after `m`, from the state `s`.
pub open spec fn next_state(s: AppState, m: Message) -> AppState {
    match m {
        Message::SwitchView(v) => AppState { current_view: v, ..s },
        Message::LoadDevices => s,
        Message::DevicesLoaded(Ok(devices)) => AppState { devices: devices@, ..s },
        Message::DevicesLoaded(Err(e)) => AppState { error: Some(e@), ..s },
        Message::SelectDevice(udid) => AppState {
            selected_device_udid: Some(udid@),
            current_view: CurrentView::Info,
            ..s
        },
        Message::OpenUrl(_) => s,
        Message::DeviceInfoStateRefreshed(Ok(states)) => AppState {
            devices: refresh_all(s.devices, states@),
            ..s
        },
        Message::DeviceInfoStateRefreshed(Err(e)) => AppState { error: Some(e@), ..s },
    }
}

/// The work that `m` asks for.
pub open spec fn command_of(m: Message) -> Command {
    match m {
        Message::LoadDevices => Command::FetchDevices,
        Message::OpenUrl(url) => Command::OpenUrl(url),
        _ => Command::Nothing,
    }
}

/// The window title.
pub open spec fn app_title() -> Seq<char> {
    "Libra"@
}

impl LibraApp {
    /// The application at start: no devices, no error, nothing selected,
    /// the device list shown, and the devices to be read.
    pub fn new() -> (r: (LibraApp, Command))
        ensures
            r.0.model().devices.len() == 0,
            r.0.model().error is None,
            r.0.model().selected_device_udid is None,
            r.0.model().current_view == CurrentView::Devices,
            r.1 == Command::FetchDevices,
    {
        (
            LibraApp {
                devices: Vec::new(),
                error: None,
                selected_device_udid: None,
                current_view: CurrentView::Devices,
            },
            Command::FetchDevices,
        )
    }

    /// The window title.
    pub fn title(&self) -> (t: String)
        ensures
            t@ == app_title(),
    {
        String::from_str("Libra")
    }

    /// Handles one message: a loaded device list replaces the devices, a
    /// failed load or refresh records its error, selecting a device shows
    /// its details, fresh storage/battery/wallpaper values go to the first
    /// device with the same udid, and loading devices or opening an
    /// address is left to the runtime through the returned command.
    pub fn update(&mut self, message: Message) -> (c: Command)
        ensures
            final(self).model() == next_state(old(self).model(), message),
            c == command_of(message),
    {
        match message {
            Message::LoadDevices => Command::FetchDevices,
            Message::DevicesLoaded(Ok(devices)) => {
                self.devices = devices;
                Command::Nothing
            },
            Message::DevicesLoaded(Err(error)) => {
                self.error = Some(error);
                Command::Nothing
            },
            Message::SelectDevice(udid) => {
                self.selected_device_udid = Some(udid);
                self.current_view = CurrentView::Info;
                Command::Nothing
            },
            Message::SwitchView(view) => {
                self.current_view = view;
                Command::Nothing
            },
            Message::OpenUrl(url) => Command::OpenUrl(url),
            Message::DeviceInfoStateRefreshed(Ok(states)) => {
                refresh_devices(&mut self.devices, states);
                Command::Nothing
            },
            Message::DeviceInfoStateRefreshed(Err(error)) => {
                self.error = Some(error);
                Command::Nothing
            },
        }
    }

    /// The window's contents: the title, the three sidebar entries with the
    /// current screen's entry marked, and the current screen.
    pub fn view(&self) -> (r: Screen)
        ensures
            r.title@ == app_title(),
            r.nav.len() == 3,
            is_nav_item(r.nav@[0], "Devices"@, CurrentView::Devices, self.current_view),
            is_nav_item(r.nav@[1], "Info"@, CurrentView::Info, self.current_view),
            is_nav_item(r.nav@[2], "Credits"@, CurrentView::Credits, self.current_view),
            match self.current_view {
                CurrentView::Devices => r.content matches Content::Devices(d) && is_devices_screen(self.model(), d),
                CurrentView::Info => r.content matches Content::Info(i) && is_info_screen(self.model(), i),
                CurrentView::Credits => r.content matches Content::Credits(c) && is_credits(c@),
            },
    {
        let mut nav: Vec<NavItem> = Vec::new();
        nav.push(nav_button("Devices", CurrentView::Devices, self.current_view));
        nav.push(nav_button("Info", CurrentView::Info, self.current_view));
        nav.push(nav_button("Credits", CurrentView::Credits, self.current_view));
        let content = match self.current_view {
            CurrentView::Devices => Content::Devices(devices::view(self)),
            CurrentView::Info => Content::Info(info::view(self)),
            CurrentView::Credits => Content::Credits(credits::view()),
        };
        Screen { title: self.title(), nav, content }
    }

    /// One watch for device events, then one for the state of each device,
    /// in the order of the device list.
    pub fn subscription(&self) -> (r: Vec<Watch>)
        ensures
            r.len() == self.devices.len() + 1,
            r@[0] == Watch::DeviceEvents,
            forall|i: int|
                0 <= i < self.devices.len() ==> (#[trigger] r@[i + 1] matches Watch::DeviceState(u)
                    && u@ == self.devices@[i].udid@),
    {
        let mut subs: Vec<Watch> = Vec::new();
        subs.push(Watch::DeviceEvents);
        let mut i: usize = 0;
        while i < self.devices.len()
            invariant
                i <= self.devices.len(),
                subs.len() == i + 1,
                subs@[0] == Watch::DeviceEvents,
                forall|j: int|
                    0 <= j < i ==> (#[trigger] subs@[j + 1] matches Watch::DeviceState(u) && u@
                        == self.devices@[j].udid@),
            decreases self.devices.len() - i,
        {
            subs.push(Watch::DeviceState(self.devices[i].udid.clone()));
            i = i + 1;
        }
        subs
    }
}

} // verus!

verus! {

/// An error, once recorded, stays: no message clears it.
pub proof fn law_error_is_kept(s: AppState, m: Message)
    requires
        s.error is Some,
    ensures
        next_state(s, m).error is Some,
{
}

/// Only a loaded device list or fresh device values change the devices.
pub proof fn law_devices_change_only_by_load_or_refresh(s: AppState, m: Message)
    requires
        !(m is DevicesLoaded),
        !(m is DeviceInfoStateRefreshed),
    ensures
        next_state(s, m).devices == s.devices,
{
}

/// Selecting a device opens the details screen, which shows the first
/// listed device with that udid, or says that it is disconnected when no
/// listed device has it.
pub proof fn law_select_shows_details(s: AppState, udid: String, r: InfoScreen)
    requires
        is_info_screen(next_state(s, Message::SelectDevice(udid)), r),
    ensures
        next_state(s, Message::SelectDevice(udid)).current_view == CurrentView::Info,
        match position_of_udid(s.devices, udid@) {
            Some(i) => r matches InfoScreen::Device(x) && is_details_of(x, s.devices[i]),
            None => r is Disconnected,
        },
{
}

/// Fresh storage, battery and wallpaper values do not change which device
/// the details screen shows.
pub proof fn law_refresh_keeps_selection(s: AppState, states: Vec<DeviceInfoState>)
    ensures
        next_state(s, Message::DeviceInfoStateRefreshed(Ok(states))).selected_device_udid
            == s.selected_device_udid,
        next_state(s, Message::DeviceInfoStateRefreshed(Ok(states))).current_view
            == s.current_view,
        s.selected_device_udid matches Some(u) ==> position_of_udid(
            next_state(s, Message::DeviceInfoStateRefreshed(Ok(states))).devices,
            u,
        ) == position_of_udid(s.devices, u),
{
    if let Some(u) = s.selected_device_udid {
        law_refresh_keeps_positions(s.devices, states@, u);
    }
}

} // verus!

verus! {

/// Every message is idempotent: handling it a second time leaves the state
/// that handling it once left.
pub proof fn law_update_idempotent(s: AppState, m: Message)
    ensures
        next_state(next_state(s, m), m) == next_state(s, m),
{
    if let Message::DeviceInfoStateRefreshed(Ok(states)) = m {
        law_refresh_all_idempotent(s.devices, states@);
    }
}

} // verus!

verus! {

/// Switching screens from the sidebar shows the chosen screen, whichever
/// it is, and changes nothing else.
pub proof fn law_switch_view_shows_chosen_screen(s: AppState, v: CurrentView)
    ensures
        next_state(s, Message::SwitchView(v)).current_view == v,
        next_state(s, Message::SwitchView(v)).devices == s.devices,
        next_state(s, Message::SwitchView(v)).error == s.error,
        next_state(s, Message::SwitchView(v)).selected_device_udid == s.selected_device_udid,
        command_of(Message::SwitchView(v)) == Command::Nothing,
{
}

/// A loaded device list, empty or not, becomes the device list as it is,
/// and nothing else changes.
pub proof fn law_loaded_devices_replace_list(s: AppState, devices: Vec<DeviceInfo>)
    ensures
        next_state(s, Message::DevicesLoaded(Ok(devices))).devices == devices@,
        next_state(s, Message::DevicesLoaded(Ok(devices))).devices.len() == devices.len(),
        next_state(s, Message::DevicesLoaded(Ok(devices))).error == s.error,
        next_state(s, Message::DevicesLoaded(Ok(devices))).selected_device_udid
            == s.selected_device_udid,
        next_state(s, Message::DevicesLoaded(Ok(devices))).current_view == s.current_view,
{
}

/// A failed load or refresh records exactly its error and changes nothing
/// else.
pub proof fn law_failed_load_records_error(s: AppState, e: String)
    ensures
        next_state(s, Message::DevicesLoaded(Err(e))).error == Some(e@),
        next_state(s, Message::DevicesLoaded(Err(e))).devices == s.devices,
        next_state(s, Message::DeviceInfoStateRefreshed(Err(e))).error == Some(e@),
        next_state(s, Message::DeviceInfoStateRefreshed(Err(e))).devices == s.devices,
{
}

/// Selecting a device records exactly that udid and shows the details
/// screen, keeping the devices and the error.
pub proof fn law_select_records_udid(s: AppState, udid: String)
    ensures
        next_state(s, Message::SelectDevice(udid)).selected_device_udid == Some(udid@),
        next_state(s, Message::SelectDevice(udid)).current_view == CurrentView::Info,
        next_state(s, Message::SelectDevice(udid)).devices == s.devices,
        next_state(s, Message::SelectDevice(udid)).error == s.error,
{
}

} // verus!

verus! {

/// A sidebar entry carries its label and target, and is marked exactly
/// when its target is the screen shown.
pub proof fn law_nav_item_marks_current(n: NavItem, label: Seq<char>, target: CurrentView, current: CurrentView)
    requires
        is_nav_item(n, label, target, current),
    ensures
        n.label@ == label,
        n.target == target,
        n.active <==> target == current,
{
}

} // verus!
