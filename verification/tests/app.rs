use libra::message::{CurrentView, Message};
use libra::models::{DeviceInfo, DeviceInfoState};
use libra::ui::app::{Command, Content, LibraApp, Watch};
use libra::ui::views::devices::DevicesScreen;
use libra::ui::views::info::InfoScreen;
use libra::ui::views::{credits, devices, info};

fn s(x: &str) -> String {
    x.to_string()
}

fn device(udid: &str, name: &str) -> DeviceInfo {
    DeviceInfo {
        activation_state: s("Activated"),
        build_version: s("21A329"),
        connection_type: s("Usb"),
        cpu_architecture: s("arm64e"),
        device_class: s("iPhone"),
        hardware_model: s("D63AP"),
        imei: s("356789012345678"),
        ecid: s("0x1A"),
        ios_version: s("17.0"),
        model: s("iPhone 13 Pro"),
        model_number: s("A2483"),
        name: s(name),
        product_type: s("iPhone14,2"),
        region_info: s("LL/A"),
        serial_number: s("SN1"),
        storage_total: s("Unknown"),
        storage_free: s("Unknown"),
        udid: s(udid),
        raw_dump: s("{}"),
        wallpaper: None,
        battery_capacity: 0,
        battery_is_charging: false,
    }
}

fn state(udid: &str, total: &str, level: u8) -> DeviceInfoState {
    DeviceInfoState {
        udid: s(udid),
        storage_total: s(total),
        storage_free: s("10.00 GB"),
        battery_capacity: level,
        battery_is_charging: true,
        wallpaper: Some(vec![1, 2, 3]),
    }
}

fn app_with(devs: Vec<DeviceInfo>) -> LibraApp {
    let (mut app, _) = LibraApp::new();
    app.update(Message::DevicesLoaded(Ok(devs)));
    app
}

#[test]
fn new_app_starts_on_devices_and_fetches() {
    let (app, cmd) = LibraApp::new();
    assert!(app.devices.is_empty());
    assert!(app.error.is_none());
    assert!(app.selected_device_udid.is_none());
    assert_eq!(app.current_view, CurrentView::Devices);
    assert!(matches!(cmd, Command::FetchDevices));
    assert_eq!(app.title(), "Libra");
}

#[test]
fn load_devices_asks_for_a_fetch_and_changes_nothing() {
    let mut app = app_with(vec![device("a", "A")]);
    let cmd = app.update(Message::LoadDevices);
    assert!(matches!(cmd, Command::FetchDevices));
    assert_eq!(app.devices.len(), 1);
    assert_eq!(app.current_view, CurrentView::Devices);
}

#[test]
fn loaded_devices_replace_the_list() {
    let mut app = app_with(vec![device("a", "A"), device("b", "B")]);
    assert_eq!(app.devices.len(), 2);
    let cmd = app.update(Message::DevicesLoaded(Ok(vec![device("c", "C")])));
    assert!(matches!(cmd, Command::Nothing));
    assert_eq!(app.devices.len(), 1);
    assert_eq!(app.devices[0].udid, "c");
}

#[test]
fn failed_load_records_error_and_it_stays() {
    let mut app = app_with(vec![device("a", "A")]);
    app.update(Message::DevicesLoaded(Err(s("usbmuxd not running"))));
    assert_eq!(app.error.as_deref(), Some("usbmuxd not running"));
    assert_eq!(app.devices.len(), 1);
    app.update(Message::DevicesLoaded(Ok(vec![])));
    assert_eq!(app.error.as_deref(), Some("usbmuxd not running"));
    app.update(Message::DeviceInfoStateRefreshed(Err(s("later"))));
    assert_eq!(app.error.as_deref(), Some("later"));
}

#[test]
fn select_device_shows_its_details() {
    let mut app = app_with(vec![device("a", "Alpha"), device("b", "Beta")]);
    let cmd = app.update(Message::SelectDevice(s("b")));
    assert!(matches!(cmd, Command::Nothing));
    assert_eq!(app.selected_device_udid.as_deref(), Some("b"));
    assert_eq!(app.current_view, CurrentView::Info);
    match info::view(&app) {
        InfoScreen::Device(x) => {
            assert_eq!(x.title, "Beta");
            assert_eq!(x.lines.len(), 12);
            assert_eq!(x.lines[0], "UDID: b");
            assert_eq!(x.lines[1], "Model: iPhone 13 Pro - iPhone14,2");
            assert_eq!(x.lines[2], "iOS: 17.0");
            assert_eq!(x.lines[3], "Connection: Usb");
            assert_eq!(x.lines[4], "Activation State: Activated");
            assert_eq!(x.lines[5], "CPU Architecture: arm64e");
            assert_eq!(x.lines[6], "Device Class: iPhone");
            assert_eq!(x.lines[7], "Hardware Model: D63AP");
            assert_eq!(x.lines[8], "Product Type: iPhone14,2");
            assert_eq!(x.lines[9], "Region: LL/A");
            assert_eq!(x.lines[10], "Serial Number: SN1");
            assert_eq!(x.lines[11], "Raw Dump: {}");
        }
        _ => panic!("expected the device's details"),
    }
}

#[test]
fn info_screen_without_selection_or_device() {
    let mut app = app_with(vec![device("a", "A")]);
    assert!(matches!(info::view(&app), InfoScreen::NoSelection));
    app.update(Message::SelectDevice(s("gone")));
    assert!(matches!(info::view(&app), InfoScreen::Disconnected));
}

#[test]
fn switch_view_changes_only_the_view() {
    let mut app = app_with(vec![device("a", "A")]);
    let cmd = app.update(Message::SwitchView(CurrentView::Credits));
    assert!(matches!(cmd, Command::Nothing));
    assert_eq!(app.current_view, CurrentView::Credits);
    assert_eq!(app.devices.len(), 1);
    assert!(app.selected_device_udid.is_none());
}

#[test]
fn open_url_is_left_to_the_runtime() {
    let mut app = app_with(vec![]);
    let cmd = app.update(Message::OpenUrl(s("https://github.com/nyasami")));
    match cmd {
        Command::OpenUrl(u) => assert_eq!(u, "https://github.com/nyasami"),
        _ => panic!("expected an address to open"),
    }
    assert_eq!(app.current_view, CurrentView::Devices);
}

#[test]
fn refresh_updates_the_matching_device_only() {
    let mut app = app_with(vec![device("a", "A"), device("b", "B")]);
    let cmd = app.update(Message::DeviceInfoStateRefreshed(Ok(vec![state("b", "128.00 GB", 77)])));
    assert!(matches!(cmd, Command::Nothing));
    assert_eq!(app.devices[0].storage_total, "Unknown");
    assert_eq!(app.devices[0].battery_capacity, 0);
    assert_eq!(app.devices[1].storage_total, "128.00 GB");
    assert_eq!(app.devices[1].storage_free, "10.00 GB");
    assert_eq!(app.devices[1].battery_capacity, 77);
    assert!(app.devices[1].battery_is_charging);
    assert_eq!(app.devices[1].wallpaper, Some(vec![1, 2, 3]));
    assert_eq!(app.devices[1].name, "B");
    assert_eq!(app.devices[1].udid, "b");
}

#[test]
fn refresh_goes_to_the_first_device_with_the_udid() {
    let mut app = app_with(vec![device("a", "A1"), device("a", "A2")]);
    app.update(Message::DeviceInfoStateRefreshed(Ok(vec![state("a", "64.00 GB", 5)])));
    assert_eq!(app.devices[0].storage_total, "64.00 GB");
    assert_eq!(app.devices[1].storage_total, "Unknown");
}

#[test]
fn refresh_for_unknown_device_changes_nothing() {
    let mut app = app_with(vec![device("a", "A")]);
    app.update(Message::DeviceInfoStateRefreshed(Ok(vec![state("zz", "1.00 GB", 1)])));
    assert_eq!(app.devices.len(), 1);
    assert_eq!(app.devices[0].storage_total, "Unknown");
    assert_eq!(app.devices[0].battery_capacity, 0);
}

#[test]
fn refresh_twice_is_refresh_once() {
    let mut once = app_with(vec![device("a", "A"), device("b", "B")]);
    once.update(Message::DeviceInfoStateRefreshed(Ok(vec![state("a", "32.00 GB", 9)])));
    let mut twice = app_with(vec![device("a", "A"), device("b", "B")]);
    twice.update(Message::DeviceInfoStateRefreshed(Ok(vec![state("a", "32.00 GB", 9)])));
    twice.update(Message::DeviceInfoStateRefreshed(Ok(vec![state("a", "32.00 GB", 9)])));
    for i in 0..2 {
        assert_eq!(once.devices[i].storage_total, twice.devices[i].storage_total);
        assert_eq!(once.devices[i].battery_capacity, twice.devices[i].battery_capacity);
        assert_eq!(once.devices[i].wallpaper, twice.devices[i].wallpaper);
    }
}

#[test]
fn later_state_in_one_refresh_wins() {
    let mut app = app_with(vec![device("a", "A")]);
    app.update(Message::DeviceInfoStateRefreshed(Ok(vec![
        state("a", "1.00 GB", 1),
        state("a", "2.00 GB", 2),
    ])));
    assert_eq!(app.devices[0].storage_total, "2.00 GB");
    assert_eq!(app.devices[0].battery_capacity, 2);
}

#[test]
fn refresh_keeps_the_selected_device_shown() {
    let mut app = app_with(vec![device("a", "A"), device("b", "B")]);
    app.update(Message::SelectDevice(s("b")));
    app.update(Message::DeviceInfoStateRefreshed(Ok(vec![state("b", "8.00 GB", 50)])));
    assert_eq!(app.current_view, CurrentView::Info);
    match info::view(&app) {
        InfoScreen::Device(x) => assert_eq!(x.title, "B"),
        _ => panic!("expected the device's details"),
    }
}

#[test]
fn subscription_watches_every_device() {
    let app = app_with(vec![device("a", "A"), device("b", "B")]);
    let subs = app.subscription();
    assert_eq!(subs.len(), 3);
    assert!(matches!(subs[0], Watch::DeviceEvents));
    assert!(matches!(&subs[1], Watch::DeviceState(u) if u == "a"));
    assert!(matches!(&subs[2], Watch::DeviceState(u) if u == "b"));
    let (empty, _) = LibraApp::new();
    assert_eq!(empty.subscription().len(), 1);
}

#[test]
fn devices_screen_cases() {
    let mut app = app_with(vec![]);
    assert!(matches!(devices::view(&app), DevicesScreen::NoDevices));
    app.update(Message::DevicesLoaded(Ok(vec![device("a", "Alpha")])));
    match devices::view(&app) {
        DevicesScreen::Cards(cards) => {
            assert_eq!(cards.len(), 1);
            assert_eq!(cards[0].name, "Alpha");
            assert_eq!(cards[0].model, "iPhone 13 Pro");
            assert_eq!(cards[0].ios_line, "iOS: 17.0");
            assert_eq!(cards[0].udid_line, "UDID: a");
            assert_eq!(cards[0].connection_line, "Connection: Usb");
            assert_eq!(cards[0].udid, "a");
        }
        _ => panic!("expected cards"),
    }
    app.update(Message::DevicesLoaded(Err(s("boom"))));
    match devices::view(&app) {
        DevicesScreen::Error(t) => assert_eq!(t, "Error: boom"),
        _ => panic!("expected the error"),
    }
}

#[test]
fn credits_list() {
    let c = credits::view();
    assert_eq!(c.len(), 2);
    assert_eq!((c[0].name.as_str(), c[0].role.as_str(), c[0].url.as_str()), ("Nyasami", "Developer", "https://github.com/nyasami"));
    assert_eq!((c[1].name.as_str(), c[1].role.as_str(), c[1].url.as_str()), ("jkcoxson", "idevice", "https://github.com/jkcoxson"));
}

#[test]
fn window_shows_sidebar_and_current_screen() {
    let mut app = app_with(vec![device("a", "A")]);
    let screen = app.view();
    assert_eq!(screen.title, "Libra");
    let labels: Vec<&str> = screen.nav.iter().map(|n| n.label.as_str()).collect();
    assert_eq!(labels, vec!["Devices", "Info", "Credits"]);
    assert_eq!(screen.nav.iter().map(|n| n.active).collect::<Vec<_>>(), vec![true, false, false]);
    assert!(matches!(screen.content, Content::Devices(DevicesScreen::Cards(_))));
    app.update(Message::SwitchView(CurrentView::Credits));
    let screen = app.view();
    assert_eq!(screen.nav.iter().map(|n| n.active).collect::<Vec<_>>(), vec![false, false, true]);
    assert_eq!(screen.nav[2].target, CurrentView::Credits);
    assert!(matches!(screen.content, Content::Credits(ref c) if c.len() == 2));
    app.update(Message::SelectDevice(s("a")));
    assert!(matches!(app.view().content, Content::Info(InfoScreen::Device(_))));
}

#[test]
fn batch_refresh_twice_is_batch_refresh_once() {
    let batch = vec![state("a", "1.00 GB", 1), state("b", "2.00 GB", 2), state("a", "3.00 GB", 3)];
    let mut once = app_with(vec![device("a", "A"), device("b", "B"), device("c", "C")]);
    once.update(Message::DeviceInfoStateRefreshed(Ok(batch.clone())));
    let mut twice = app_with(vec![device("a", "A"), device("b", "B"), device("c", "C")]);
    let m = Message::DeviceInfoStateRefreshed(Ok(batch));
    twice.update(m.clone());
    twice.update(m);
    assert_eq!(once.devices.len(), twice.devices.len());
    for i in 0..3 {
        assert_eq!(once.devices[i].udid, twice.devices[i].udid);
        assert_eq!(once.devices[i].storage_total, twice.devices[i].storage_total);
        assert_eq!(once.devices[i].battery_capacity, twice.devices[i].battery_capacity);
    }
    assert_eq!(twice.devices[0].storage_total, "3.00 GB");
    assert_eq!(twice.devices[1].storage_total, "2.00 GB");
    assert_eq!(twice.devices[2].storage_total, "Unknown");
}

#[test]
fn every_message_applied_twice_equals_once() {
    let messages = vec![
        Message::SwitchView(CurrentView::Credits),
        Message::LoadDevices,
        Message::DevicesLoaded(Ok(vec![device("x", "X")])),
        Message::DevicesLoaded(Err(s("e1"))),
        Message::SelectDevice(s("a")),
        Message::OpenUrl(s("https://example.org")),
        Message::DeviceInfoStateRefreshed(Err(s("e2"))),
    ];
    for m in messages {
        let mut once = app_with(vec![device("a", "A")]);
        once.update(m.clone());
        let mut twice = app_with(vec![device("a", "A")]);
        twice.update(m.clone());
        twice.update(m);
        assert_eq!(once.current_view, twice.current_view);
        assert_eq!(once.error, twice.error);
        assert_eq!(once.selected_device_udid, twice.selected_device_udid);
        assert_eq!(once.devices.len(), twice.devices.len());
        for i in 0..once.devices.len() {
            assert_eq!(once.devices[i].udid, twice.devices[i].udid);
        }
    }
}

#[test]
fn cloned_message_keeps_its_contents() {
    let m = Message::DevicesLoaded(Err(s("unplugged")));
    match m.clone() {
        Message::DevicesLoaded(Err(e)) => assert_eq!(e, "unplugged"),
        _ => panic!("expected the same message"),
    }
    let m = Message::DeviceInfoStateRefreshed(Ok(vec![state("a", "5.00 GB", 4)]));
    match m.clone() {
        Message::DeviceInfoStateRefreshed(Ok(v)) => {
            assert_eq!(v.len(), 1);
            assert_eq!(v[0].storage_total, "5.00 GB");
        }
        _ => panic!("expected the same message"),
    }
}
