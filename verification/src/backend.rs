//! What the application makes of the values a device reports over
//! lockdown: the device record, the battery status, and the choice of the
//! device to watch.
use vstd::prelude::*;
use vstd::hash_map::StringHashMap;
use crate::hex::{format_hex_id, hex_upper};
use crate::models::DeviceInfo;
use crate::utils::{ModelTable, human_readable_model, model_name};

verus! {

/// A property-list value, as far as the application reads it.
#[derive(Debug, Clone)]
pub enum PlistValue {
    /// A string.
    String(String),
    /// An integer that fits in an unsigned 64-bit number.
    UnsignedInteger(u64),
    /// A boolean.
    Boolean(bool),
    /// Any other value (a dictionary, an array, data, a date, a negative
    /// integer, ...).
    Other,
}

/// A property-list dictionary: each key maps to at most one value.
pub struct LockdownDict {
    entries: StringHashMap<PlistValue>,
}

impl View for LockdownDict {
    type V = Map<Seq<char>, PlistValue>;

    closed spec fn view(&self) -> Map<Seq<char>, PlistValue> {
        self.entries@
    }
}

/// The string stored under `key` in `d`, if `d` holds one there.
pub open spec fn plist_str(d: Map<Seq<char>, PlistValue>, key: Seq<char>) -> Option<Seq<char>> {
    if d.contains_key(key) {
        match d[key] {
            PlistValue::String(s) => Some(s@),
            _ => None,
        }
    } else {
        None
    }
}

/// The unsigned integer stored under `key` in `d`, if `d` holds one there.
pub open spec fn plist_uint(d: Map<Seq<char>, PlistValue>, key: Seq<char>) -> Option<u64> {
    if d.contains_key(key) {
        match d[key] {
            PlistValue::UnsignedInteger(n) => Some(n),
            _ => None,
        }
    } else {
        None
    }
}

/// The boolean stored under `key` in `d`, if `d` holds one there.
pub open spec fn plist_bool(d: Map<Seq<char>, PlistValue>, key: Seq<char>) -> Option<bool> {
    if d.contains_key(key) {
        match d[key] {
            PlistValue::Boolean(b) => Some(b),
            _ => None,
        }
    } else {
        None
    }
}

impl LockdownDict {
    /// The dictionary without any entry.
    pub fn new() -> (d: LockdownDict)
        ensures
            d@ == Map::<Seq<char>, PlistValue>::empty(),
    {
        LockdownDict { entries: StringHashMap::new() }
    }

    /// Stores `value` under `key`, replacing what was stored there.
    pub fn insert(&mut self, key: String, value: PlistValue)
        ensures
            final(self)@ == old(self)@.insert(key@, value),
    {
        self.entries.insert(key, value);
    }

    /// The string stored under `key`, if any (`Value::as_string` of the entry).
    pub fn get_str(&self, key: &str) -> (r: Option<String>)
        ensures
            r matches Some(s) ==> plist_str(self@, key@) == Some(s@),
            r is None ==> plist_str(self@, key@) is None,
    {
        match self.entries.get(key) {
            Some(PlistValue::String(s)) => Some(s.clone()),
            _ => None,
        }
    }

    /// The unsigned integer stored under `key`, if any
    /// (`Value::as_unsigned_integer` of the entry).
    pub fn get_uint(&self, key: &str) -> (r: Option<u64>)
        ensures
            r == plist_uint(self@, key@),
    {
        match self.entries.get(key) {
            Some(PlistValue::UnsignedInteger(n)) => Some(*n),
            _ => None,
        }
    }

    /// The boolean stored under `key`, if any (`Value::as_boolean` of the entry).
    pub fn get_bool(&self, key: &str) -> (r: Option<bool>)
        ensures
            r == plist_bool(self@, key@),
    {
        match self.entries.get(key) {
            Some(PlistValue::Boolean(b)) => Some(*b),
            _ => None,
        }
    }
}

/// The answer to reading all lockdown values of a device: the values
/// as a dictionary (`None` when the answer was not a dictionary), and the
/// answer written out for display.
pub struct LockdownValues {
    pub dict: Option<LockdownDict>,
    pub dump: String,
}

/// What could be read from a device over lockdown. `values` is `None` when
/// the connection or the read failed; `regulatory_model_number` holds the
/// `RegulatoryModelNumber` value when it could be read as a string.
pub struct LockdownReport {
    pub values: Option<LockdownValues>,
    pub regulatory_model_number: Option<String>,
}

/// The dictionary of a report, if it has one.
pub open spec fn report_dict(r: &LockdownReport) -> Option<Map<Seq<char>, PlistValue>> {
    match r.values {
        Some(v) => match v.dict {
            Some(d) => Some(d@),
            None => None,
        },
        None => None,
    }
}

/// The string the report holds under `key`, if any.
pub open spec fn reported_str(r: &LockdownReport, key: Seq<char>) -> Option<Seq<char>> {
    match report_dict(r) {
        Some(d) => plist_str(d, key),
        None => None,
    }
}

/// The unsigned integer the report holds under `key`, if any.
pub open spec fn reported_uint(r: &LockdownReport, key: Seq<char>) -> Option<u64> {
    match report_dict(r) {
        Some(d) => plist_uint(d, key),
        None => None,
    }
}

/// The text shown for a value that could not be read.
pub open spec fn unknown() -> Seq<char> {
    "Unknown"@
}

/// `o`'s string, or `"Unknown"`.
pub open spec fn or_unknown(o: Option<Seq<char>>) -> Seq<char> {
    match o {
        Some(s) => s,
        None => unknown(),
    }
}

/// The string field `key` of the report, or `"Unknown"`.
pub open spec fn report_field(r: &LockdownReport, key: Seq<char>) -> Seq<char> {
    or_unknown(reported_str(r, key))
}

fn unknown_string() -> (s: String)
    ensures
        s@ == unknown(),
{
    String::from_str("Unknown")
}

fn dict_of(report: &LockdownReport) -> (r: Option<&LockdownDict>)
    ensures
        r matches Some(d) ==> report_dict(report) == Some(d@),
        r is None ==> report_dict(report) is None,
{
    match &report.values {
        Some(v) => match &v.dict {
            Some(d) => Some(d),
            None => None,
        },
        None => None,
    }
}

fn lookup_str(dict: Option<&LockdownDict>, key: &str) -> (r: Option<String>)
    ensures
        dict matches Some(d) ==> (r matches Some(s) ==> plist_str(d@, key@) == Some(s@)) && (r is None
            ==> plist_str(d@, key@) is None),
        dict is None ==> r is None,
{
    match dict {
        Some(d) => d.get_str(key),
        None => None,
    }
}

fn field_or_unknown(dict: Option<&LockdownDict>, key: &str) -> (r: String)
    ensures
        dict matches Some(d) ==> r@ == or_unknown(plist_str(d@, key@)),
        dict is None ==> r@ == unknown(),
{
    match lookup_str(dict, key) {
        Some(s) => s,
        None => unknown_string(),
    }
}

/// The record of a newly found device. `udid` and `connection_type` come
/// from the device list; every other field comes from the lockdown report
/// and holds `"Unknown"` where the report has no string for it. The model
/// is the marketing name of the product type, the ECID is written as
/// `0x` and upper-case hexadecimal digits, a separately read
/// `RegulatoryModelNumber` takes precedence over `RegulatoryModelNumbers`,
/// and storage, battery and wallpaper start out unknown, zero and absent.
pub fn device_info_from_lockdown(
    udid: String,
    connection_type: String,
    table: &ModelTable,
    report: &LockdownReport,
) -> (d: DeviceInfo)
    ensures
        d.udid == udid,
        d.connection_type == connection_type,
        d.activation_state@ == report_field(report, "ActivationState"@),
        d.build_version@ == report_field(report, "BuildVersion"@),
        d.cpu_architecture@ == report_field(report, "CPUArchitecture"@),
        d.device_class@ == report_field(report, "DeviceClass"@),
        d.name@ == report_field(report, "DeviceName"@),
        d.hardware_model@ == report_field(report, "HardwareModel"@),
        d.imei@ == report_field(report, "InternationalMobileEquipmentIdentity"@),
        d.ios_version@ == report_field(report, "ProductVersion"@),
        d.region_info@ == report_field(report, "RegionInfo"@),
        d.serial_number@ == report_field(report, "SerialNumber"@),
        d.product_type@ == report_field(report, "ProductType"@),
        d.model@ == match reported_str(report, "ProductType"@) {
            Some(p) => model_name(table@, p),
            None => unknown(),
        },
        d.ecid@ == match reported_uint(report, "UniqueChipID"@) {
            Some(n) => "0x"@ + hex_upper(n as nat),
            None => unknown(),
        },
        d.model_number@ == match report.regulatory_model_number {
            Some(m) => m@,
            None => report_field(report, "RegulatoryModelNumbers"@),
        },
        d.raw_dump@ == match report.values {
            Some(v) => v.dump@,
            None => "(Not available)"@,
        },
        d.storage_total@ == unknown(),
        d.storage_free@ == unknown(),
        d.battery_capacity == 0,
        !d.battery_is_charging,
        d.wallpaper is None,
{
    let dict = dict_of(report);
    let activation_state = field_or_unknown(dict, "ActivationState");
    let build_version = field_or_unknown(dict, "BuildVersion");
    let cpu_architecture = field_or_unknown(dict, "CPUArchitecture");
    let device_class = field_or_unknown(dict, "DeviceClass");
    let name = field_or_unknown(dict, "DeviceName");
    let hardware_model = field_or_unknown(dict, "HardwareModel");
    let imei = field_or_unknown(dict, "InternationalMobileEquipmentIdentity");
    let ios_version = field_or_unknown(dict, "ProductVersion");
    let region_info = field_or_unknown(dict, "RegionInfo");
    let serial_number = field_or_unknown(dict, "SerialNumber");
    let ecid = match dict {
        Some(dd) => match dd.get_uint("UniqueChipID") {
            Some(n) => format_hex_id(n),
            None => unknown_string(),
        },
        None => unknown_string(),
    };
    let (product_type, model) = match lookup_str(dict, "ProductType") {
        Some(p) => {
            let m = human_readable_model(table, p.as_str());
            (p, m)
        },
        None => (unknown_string(), unknown_string()),
    };
    let model_number = match &report.regulatory_model_number {
        Some(m) => m.clone(),
        None => field_or_unknown(dict, "RegulatoryModelNumbers"),
    };
    let raw_dump = match &report.values {
        Some(v) => v.dump.clone(),
        None => String::from_str("(Not available)"),
    };
    DeviceInfo {
        activation_state,
        build_version,
        connection_type,
        cpu_architecture,
        device_class,
        hardware_model,
        imei,
        ecid,
        ios_version,
        model,
        model_number,
        name,
        product_type,
        region_info,
        serial_number,
        storage_total: unknown_string(),
        storage_free: unknown_string(),
        udid,
        raw_dump,
        wallpaper: None,
        battery_capacity: 0,
        battery_is_charging: false,
    }
}

/// The battery level and charging flag from the battery domain of a
/// device (`None` when it could not be read as a dictionary). A missing
/// level counts as 0 and is cut to its low eight bits, as a `u8` cast
/// does; a missing flag counts as not charging.
pub fn battery_status(values: &Option<LockdownDict>) -> (r: (u8, bool))
    ensures
        r.0 as int == match values {
            Some(d) => match plist_uint(d@, "BatteryCurrentCapacity"@) {
                Some(n) => n as int,
                None => 0,
            },
            None => 0,
        } % 256,
        r.1 == match values {
            Some(d) => plist_bool(d@, "BatteryIsCharging"@) == Some(true),
            None => false,
        },
{
    match values {
        Some(d) => {
            let capacity = match d.get_uint("BatteryCurrentCapacity") {
                Some(n) => n,
                None => 0,
            };
            let is_charging = match d.get_bool("BatteryIsCharging") {
                Some(b) => b,
                None => false,
            };
            ((capacity % 256) as u8, is_charging)
        },
        None => (0, false),
    }
}

/// The first position in `udids` that holds `udid`.
pub fn udid_position(udids: &Vec<String>, udid: &String) -> (r: Option<usize>)
    ensures
        r matches Some(i) ==> i < udids.len() && udids@[i as int]@ == udid@ && forall|j: int|
            0 <= j < i ==> udids@[j]@ != udid@,
        r is None ==> forall|j: int| 0 <= j < udids.len() ==> udids@[j]@ != udid@,
{
    let mut i: usize = 0;
    while i < udids.len()
        invariant
            i <= udids.len(),
            forall|j: int| 0 <= j < i ==> udids@[j]@ != udid@,
        decreases udids.len() - i,
    {
        if udids[i] == *udid {
            return Some(i);
        }
        i = i + 1;
    }
    None
}

} // verus!

verus! {

/// Seconds to wait before connecting again after the connection to the
/// device multiplexer failed or ended.
pub const RECONNECT_DELAY_SECS: u64 = 2;

/// Seconds between two readings of a device's storage, battery and
/// wallpaper.
pub const POLL_INTERVAL_SECS: u64 = 5;

/// Where the watcher of device events stands.
#[derive(Debug, Clone, Copy, PartialEq, Eq, Structural)]
pub enum ListenerState {
    /// About to connect to the device multiplexer.
    Connecting,
    /// Connected, about to ask for device events.
    Subscribing,
    /// Receiving device events.
    Streaming,
    /// Done for good.
    Stopped,
}

/// What the runtime reports back to the watcher of device events.
#[derive(Debug, Clone, Copy, PartialEq, Eq, Structural)]
pub enum ListenerEvent {
    Connected,
    ConnectFailed,
    Subscribed,
    SubscribeFailed,
    DeviceEvent,
    StreamEnded,
    Delivered,
    DeliveryFailed,
    Waited,
}

/// What the watcher of device events asks the runtime to do next.
#[derive(Debug, Clone, Copy, PartialEq, Eq, Structural)]
pub enum ListenerAction {
    /// Connect to the device multiplexer.
    Connect,
    /// Ask the multiplexer for device events.
    Subscribe,
    /// Wait for the next device event.
    NextEvent,
    /// Send `Message::LoadDevices` to the application.
    Deliver,
    /// Sleep this many seconds, then report `Waited`.
    Wait(u64),
    /// Stop watching.
    Stop,
}

/// The next state and action of the watcher of device events. Every
/// failure of the multiplexer leads to a pause and a new connection; each
/// device event is passed on as a request to reload the devices; the
/// watcher stops when the application no longer takes messages.
pub open spec fn listener_next(s: ListenerState, e: ListenerEvent) -> (ListenerState, ListenerAction) {
    match (s, e) {
        (ListenerState::Connecting, ListenerEvent::Connected) => (ListenerState::Subscribing, ListenerAction::Subscribe),
        (ListenerState::Connecting, ListenerEvent::ConnectFailed) => (ListenerState::Connecting, ListenerAction::Wait(2)),
        (ListenerState::Connecting, ListenerEvent::Waited) => (ListenerState::Connecting, ListenerAction::Connect),
        (ListenerState::Subscribing, ListenerEvent::Subscribed) => (ListenerState::Streaming, ListenerAction::NextEvent),
        (ListenerState::Subscribing, ListenerEvent::SubscribeFailed) => (ListenerState::Connecting, ListenerAction::Wait(2)),
        (ListenerState::Streaming, ListenerEvent::DeviceEvent) => (ListenerState::Streaming, ListenerAction::Deliver),
        (ListenerState::Streaming, ListenerEvent::Delivered) => (ListenerState::Streaming, ListenerAction::NextEvent),
        (ListenerState::Streaming, ListenerEvent::StreamEnded) => (ListenerState::Connecting, ListenerAction::Wait(2)),
        _ => (ListenerState::Stopped, ListenerAction::Stop),
    }
}

impl ListenerState {
    /// The watcher at start, and its first action.
    pub fn start() -> (r: (ListenerState, ListenerAction))
        ensures
            r == (ListenerState::Connecting, ListenerAction::Connect),
    {
        (ListenerState::Connecting, ListenerAction::Connect)
    }

    /// One step of the watcher of device events (see `listener_next`).
    pub fn step(self, e: ListenerEvent) -> (r: (ListenerState, ListenerAction))
        ensures
            r == listener_next(self, e),
    {
        match (self, e) {
            (ListenerState::Connecting, ListenerEvent::Connected) => (ListenerState::Subscribing, ListenerAction::Subscribe),
            (ListenerState::Connecting, ListenerEvent::ConnectFailed) => (ListenerState::Connecting, ListenerAction::Wait(RECONNECT_DELAY_SECS)),
            (ListenerState::Connecting, ListenerEvent::Waited) => (ListenerState::Connecting, ListenerAction::Connect),
            (ListenerState::Subscribing, ListenerEvent::Subscribed) => (ListenerState::Streaming, ListenerAction::NextEvent),
            (ListenerState::Subscribing, ListenerEvent::SubscribeFailed) => (ListenerState::Connecting, ListenerAction::Wait(RECONNECT_DELAY_SECS)),
            (ListenerState::Streaming, ListenerEvent::DeviceEvent) => (ListenerState::Streaming, ListenerAction::Deliver),
            (ListenerState::Streaming, ListenerEvent::Delivered) => (ListenerState::Streaming, ListenerAction::NextEvent),
            (ListenerState::Streaming, ListenerEvent::StreamEnded) => (ListenerState::Connecting, ListenerAction::Wait(RECONNECT_DELAY_SECS)),
            _ => (ListenerState::Stopped, ListenerAction::Stop),
        }
    }
}

/// The watcher of device events never gives up on the multiplexer: it
/// stops only when a reload request cannot be delivered (or on an event
/// that its state does not expect), stays stopped, and after each failure
/// of the multiplexer it waits before connecting again.
pub proof fn law_listener_retries(s: ListenerState, e: ListenerEvent)
    ensures
        listener_next(s, e).1 == ListenerAction::Stop <==> listener_next(s, e).0 == ListenerState::Stopped,
        s == ListenerState::Stopped ==> listener_next(s, e) == (ListenerState::Stopped, ListenerAction::Stop),
        (e == ListenerEvent::ConnectFailed || e == ListenerEvent::SubscribeFailed || e == ListenerEvent::StreamEnded)
            && s != ListenerState::Stopped && listener_next(s, e).0 != ListenerState::Stopped
            ==> listener_next(s, e) == (ListenerState::Connecting, ListenerAction::Wait(2)),
        listener_next(s, e).1 == ListenerAction::Deliver ==> e == ListenerEvent::DeviceEvent,
{
}

/// Where the watcher of one device's changing values stands.
#[derive(Debug, Clone, Copy, PartialEq, Eq, Structural)]
pub enum PollerState {
    /// Looking for the device and opening its services.
    Starting,
    /// About to read the device's values.
    Reading,
    /// About to send the values read to the application.
    Sending,
    /// Waiting for the next reading.
    Pausing,
    /// Done for good.
    Stopped,
}

/// What the runtime reports back to the watcher of one device.
#[derive(Debug, Clone, Copy, PartialEq, Eq, Structural)]
pub enum PollerEvent {
    /// The device was found and its lockdown service opened.
    Ready,
    /// The device is gone or its lockdown service could not be opened.
    SetupFailed,
    /// Storage, battery and wallpaper were read (each may be unknown).
    ValuesRead,
    Sent,
    SendFailed,
    Waited,
}

/// What the watcher of one device asks the runtime to do next.
#[derive(Debug, Clone, Copy, PartialEq, Eq, Structural)]
pub enum PollerAction {
    /// Find the device, connect to its lockdown service and open its
    /// file and springboard services where possible.
    Setup,
    /// Read battery, storage and wallpaper.
    ReadValues,
    /// Send `Message::DeviceInfoStateRefreshed` with the values read.
    Send,
    /// Sleep this many seconds, then report `Waited`.
    Wait(u64),
    Stop,
}

/// The next state and action of the watcher of one device: it reads the
/// values, sends them, pauses, and starts over, until the device cannot
/// be set up or the application no longer takes messages.
pub open spec fn poller_next(s: PollerState, e: PollerEvent) -> (PollerState, PollerAction) {
    match (s, e) {
        (PollerState::Starting, PollerEvent::Ready) => (PollerState::Reading, PollerAction::ReadValues),
        (PollerState::Reading, PollerEvent::ValuesRead) => (PollerState::Sending, PollerAction::Send),
        (PollerState::Sending, PollerEvent::Sent) => (PollerState::Pausing, PollerAction::Wait(5)),
        (PollerState::Pausing, PollerEvent::Waited) => (PollerState::Reading, PollerAction::ReadValues),
        _ => (PollerState::Stopped, PollerAction::Stop),
    }
}

impl PollerState {
    /// The watcher of one device at start, and its first action.
    pub fn start() -> (r: (PollerState, PollerAction))
        ensures
            r == (PollerState::Starting, PollerAction::Setup),
    {
        (PollerState::Starting, PollerAction::Setup)
    }

    /// One step of the watcher of one device (see `poller_next`).
    pub fn step(self, e: PollerEvent) -> (r: (PollerState, PollerAction))
        ensures
            r == poller_next(self, e),
    {
        match (self, e) {
            (PollerState::Starting, PollerEvent::Ready) => (PollerState::Reading, PollerAction::ReadValues),
            (PollerState::Reading, PollerEvent::ValuesRead) => (PollerState::Sending, PollerAction::Send),
            (PollerState::Sending, PollerEvent::Sent) => (PollerState::Pausing, PollerAction::Wait(POLL_INTERVAL_SECS)),
            (PollerState::Pausing, PollerEvent::Waited) => (PollerState::Reading, PollerAction::ReadValues),
            _ => (PollerState::Stopped, PollerAction::Stop),
        }
    }
}

/// Every reading that was sent is followed by a pause of five seconds and
/// a new reading; the watcher stops only on a failed setup or a failed
/// send (or an unexpected event), and stays stopped.
pub proof fn law_poller_cycle(s: PollerState, e: PollerEvent)
    ensures
        s == PollerState::Sending && e == PollerEvent::Sent ==> poller_next(s, e) == (PollerState::Pausing, PollerAction::Wait(5)),
        s == PollerState::Pausing && e == PollerEvent::Waited ==> poller_next(s, e).1 == PollerAction::ReadValues,
        s == PollerState::Stopped ==> poller_next(s, e).0 == PollerState::Stopped,
        poller_next(s, e).1 == PollerAction::Stop <==> poller_next(s, e).0 == PollerState::Stopped,
{
}

} // verus!

verus! {

/// A string stored under a key is read back exactly, whatever its length
/// or contents.
pub proof fn law_stored_string_reads_back(d: Map<Seq<char>, PlistValue>, key: Seq<char>, s: String)
    requires
        d.contains_key(key),
        d[key] == PlistValue::String(s),
    ensures
        plist_str(d, key) == Some(s@),
        plist_uint(d, key) is None,
        plist_bool(d, key) is None,
{
}

/// An unsigned integer stored under a key is read back exactly.
pub proof fn law_stored_uint_reads_back(d: Map<Seq<char>, PlistValue>, key: Seq<char>, n: u64)
    requires
        d.contains_key(key),
        d[key] == PlistValue::UnsignedInteger(n),
    ensures
        plist_uint(d, key) == Some(n),
        plist_str(d, key) is None,
{
}

/// A boolean stored under a key is read back exactly.
pub proof fn law_stored_bool_reads_back(d: Map<Seq<char>, PlistValue>, key: Seq<char>, b: bool)
    requires
        d.contains_key(key),
        d[key] == PlistValue::Boolean(b),
    ensures
        plist_bool(d, key) == Some(b),
        plist_str(d, key) is None,
{
}

/// Nothing is read under a key the dictionary does not hold.
pub proof fn law_missing_key_reads_nothing(d: Map<Seq<char>, PlistValue>, key: Seq<char>)
    requires
        !d.contains_key(key),
    ensures
        plist_str(d, key) is None,
        plist_uint(d, key) is None,
        plist_bool(d, key) is None,
{
}

/// In a device record, a field whose key the lockdown dictionary holds as a
/// string is exactly that string, whatever its length.
pub proof fn law_record_field_is_stored_string(
    r: &LockdownReport,
    d: Map<Seq<char>, PlistValue>,
    key: Seq<char>,
    s: String,
)
    requires
        report_dict(r) == Some(d),
        d.contains_key(key),
        d[key] == PlistValue::String(s),
    ensures
        report_field(r, key) == s@,
        reported_str(r, key) == Some(s@),
{
}

/// A record field is `"Unknown"` when the lockdown values could not be read
/// as a dictionary, or the dictionary holds no string under its key.
pub proof fn law_record_field_unknown(r: &LockdownReport, key: Seq<char>)
    requires
        report_dict(r) is None || !report_dict(r).unwrap().contains_key(key) || !(report_dict(
            r,
        ).unwrap()[key] is String),
    ensures
        report_field(r, key) == "Unknown"@,
{
}

} // verus!
