//! The records the application shows: what is known of a connected device,
//! and the part of it that is read again every few seconds.
use vstd::prelude::*;

verus! {

/// Everything the application shows of one device. Fields that could not
/// be read hold `"Unknown"`.
#[derive(Debug, Clone)]
pub struct DeviceInfo {
    pub activation_state: String,
    pub build_version: String,
    pub connection_type: String,
    pub cpu_architecture: String,
    pub device_class: String,
    pub hardware_model: String,
    pub imei: String,
    pub ecid: String,
    pub ios_version: String,
    pub model: String,
    pub model_number: String,
    pub name: String,
    pub product_type: String,
    pub region_info: String,
    pub serial_number: String,
    pub storage_total: String,
    pub storage_free: String,
    pub udid: String,
    pub raw_dump: String,
    /// The home screen wallpaper preview, as PNG bytes.
    pub wallpaper: Option<Vec<u8>>,
    pub battery_capacity: u8,
    pub battery_is_charging: bool,
}

/// The values of a device that change while it is connected: storage,
/// battery and wallpaper, for the device with the given `udid`.
#[derive(Debug, Clone)]
pub struct DeviceInfoState {
    pub udid: String,
    pub storage_total: String,
    pub storage_free: String,
    pub battery_capacity: u8,
    pub battery_is_charging: bool,
    pub wallpaper: Option<Vec<u8>>,
}

/// `d` with the changing values taken from `st`.
pub open spec fn with_state(d: DeviceInfo, st: DeviceInfoState) -> DeviceInfo {
    DeviceInfo {
        storage_total: st.storage_total,
        storage_free: st.storage_free,
        battery_capacity: st.battery_capacity,
        battery_is_charging: st.battery_is_charging,
        wallpaper: st.wallpaper,
        ..d
    }
}

/// Whether `i` is the first position in `devices` of a device with `udid`.
pub open spec fn is_first_with_udid(devices: Seq<DeviceInfo>, udid: Seq<char>, i: int) -> bool {
    &&& 0 <= i < devices.len()
    &&& devices[i].udid@ == udid
    &&& forall|j: int| 0 <= j < i ==> devices[j].udid@ != udid
}

/// The first position in `devices` of a device with `udid`, if there is one.
pub open spec fn position_of_udid(devices: Seq<DeviceInfo>, udid: Seq<char>) -> Option<int> {
    if exists|i: int| is_first_with_udid(devices, udid, i) {
        Some(choose|i: int| is_first_with_udid(devices, udid, i))
    } else {
        None
    }
}

/// The first position is unique.
pub proof fn lemma_position_of_udid(devices: Seq<DeviceInfo>, udid: Seq<char>, i: int)
    requires
        is_first_with_udid(devices, udid, i),
    ensures
        position_of_udid(devices, udid) == Some(i),
{
    let c = choose|c: int| is_first_with_udid(devices, udid, c);
    assert(is_first_with_udid(devices, udid, c));
    if c < i {
        assert(devices[c].udid@ != udid);
    } else if c > i {
        assert(devices[i].udid@ != udid);
    }
}

/// The first position in `devices` of a device whose udid is `udid`.
pub fn device_position(devices: &Vec<DeviceInfo>, udid: &String) -> (r: Option<usize>)
    ensures
        r matches Some(i) ==> position_of_udid(devices@, udid@) == Some(i as int),
        r is None ==> position_of_udid(devices@, udid@) is None,
{
    let mut i: usize = 0;
    while i < devices.len()
        invariant
            i <= devices.len(),
            forall|j: int| 0 <= j < i ==> devices@[j].udid@ != udid@,
        decreases devices.len() - i,
    {
        if devices[i].udid == *udid {
            proof {
                lemma_position_of_udid(devices@, udid@, i as int);
            }
            return Some(i);
        }
        i = i + 1;
    }
    proof {
        assert forall|k: int| !is_first_with_udid(devices@, udid@, k) by {
            if is_first_with_udid(devices@, udid@, k) {
                assert(devices@[k].udid@ != udid@);
            }
        }
    }
    None
}

} // verus!

verus! {

/// `devices` after the values of `st` were given to the first device with
/// the same udid (unchanged when there is none).
pub open spec fn refresh_one(devices: Seq<DeviceInfo>, st: DeviceInfoState) -> Seq<DeviceInfo> {
    match position_of_udid(devices, st.udid@) {
        Some(i) => devices.update(i, with_state(devices[i], st)),
        None => devices,
    }
}

/// `devices` after each of `states` was applied in order.
pub open spec fn refresh_all(devices: Seq<DeviceInfo>, states: Seq<DeviceInfoState>) -> Seq<
    DeviceInfo,
>
    decreases states.len(),
{
    if states.len() == 0 {
        devices
    } else {
        refresh_one(refresh_all(devices, states.drop_last()), states.last())
    }
}

/// Gives the values of `st` to the first device with the same udid.
pub fn refresh_device(devices: &mut Vec<DeviceInfo>, st: DeviceInfoState)
    ensures
        final(devices)@ == refresh_one(old(devices)@, st),
{
    match device_position(devices, &st.udid) {
        Some(i) => {
            let ghost before = devices@;
            let mut d = devices.remove(i);
            let ghost d0 = d;
            d.storage_total = st.storage_total;
            d.storage_free = st.storage_free;
            d.battery_capacity = st.battery_capacity;
            d.battery_is_charging = st.battery_is_charging;
            d.wallpaper = st.wallpaper;
            assert(d == with_state(d0, st));
            devices.insert(i, d);
            assert(devices@ =~= before.update(i as int, with_state(before[i as int], st)));
        },
        None => {},
    }
}

/// Gives the values of each of `states`, in order, to the first device with
/// the same udid.
pub fn refresh_devices(devices: &mut Vec<DeviceInfo>, states: Vec<DeviceInfoState>)
    ensures
        final(devices)@ == refresh_all(old(devices)@, states@),
{
    let ghost all = states@;
    let ghost start = devices@;
    let mut states = states;
    let ghost mut k: int = 0;
    assert(all.take(0) =~= Seq::<DeviceInfoState>::empty());
    assert(all.skip(0) =~= all);
    while states.len() > 0
        invariant
            0 <= k <= all.len(),
            states@ == all.skip(k),
            devices@ == refresh_all(start, all.take(k)),
        decreases states.len(),
    {
        assert(k < all.len());
        let st = states.remove(0);
        assert(st == all[k]);
        refresh_device(devices, st);
        assert(all.take(k + 1).drop_last() =~= all.take(k));
        assert(all.skip(k + 1) =~= all.skip(k).drop_first());
        proof {
            k = k + 1;
        }
    }
    assert(all.take(k) =~= all);
}

} // verus!

verus! {

/// Whether `a` and `b` agree on everything but the values that are read
/// again while a device stays connected (storage, battery, wallpaper).
pub open spec fn same_identity(a: DeviceInfo, b: DeviceInfo) -> bool {
    &&& a.activation_state == b.activation_state
    &&& a.build_version == b.build_version
    &&& a.connection_type == b.connection_type
    &&& a.cpu_architecture == b.cpu_architecture
    &&& a.device_class == b.device_class
    &&& a.hardware_model == b.hardware_model
    &&& a.imei == b.imei
    &&& a.ecid == b.ecid
    &&& a.ios_version == b.ios_version
    &&& a.model == b.model
    &&& a.model_number == b.model_number
    &&& a.name == b.name
    &&& a.product_type == b.product_type
    &&& a.region_info == b.region_info
    &&& a.serial_number == b.serial_number
    &&& a.udid == b.udid
    &&& a.raw_dump == b.raw_dump
}

/// A refresh keeps the device list: the same number of devices, in the
/// same order, each with the same identity and details; only storage,
/// battery and wallpaper change.
pub proof fn law_refresh_keeps_devices(devices: Seq<DeviceInfo>, states: Seq<DeviceInfoState>)
    ensures
        refresh_all(devices, states).len() == devices.len(),
        forall|i: int|
            0 <= i < devices.len() ==> same_identity(
                #[trigger] refresh_all(devices, states)[i],
                devices[i],
            ),
    decreases states.len(),
{
    if states.len() > 0 {
        law_refresh_keeps_devices(devices, states.drop_last());
        let prev = refresh_all(devices, states.drop_last());
        let st = states.last();
        match position_of_udid(prev, st.udid@) {
            Some(k) => {
                let c = choose|c: int| is_first_with_udid(prev, st.udid@, c);
                assert(is_first_with_udid(prev, st.udid@, c));
                assert forall|i: int| 0 <= i < devices.len() implies same_identity(
                    #[trigger] refresh_all(devices, states)[i],
                    devices[i],
                ) by {
                    assert(same_identity(prev[i], devices[i]));
                }
            },
            None => {},
        }
    }
}

/// Values for a udid that no listed device has change nothing.
pub proof fn law_refresh_of_unknown_device(devices: Seq<DeviceInfo>, st: DeviceInfoState)
    requires
        forall|i: int| 0 <= i < devices.len() ==> (#[trigger] devices[i]).udid@ != st.udid@,
    ensures
        refresh_one(devices, st) == devices,
{
    assert forall|k: int| !is_first_with_udid(devices, st.udid@, k) by {
        if is_first_with_udid(devices, st.udid@, k) {
            assert(devices[k].udid@ != st.udid@);
        }
    }
}

/// Applying the same values twice is applying them once.
pub proof fn law_refresh_idempotent(devices: Seq<DeviceInfo>, st: DeviceInfoState)
    ensures
        refresh_one(refresh_one(devices, st), st) == refresh_one(devices, st),
{
    let once = refresh_one(devices, st);
    match position_of_udid(devices, st.udid@) {
        Some(k) => {
            let c = choose|c: int| is_first_with_udid(devices, st.udid@, c);
            assert(is_first_with_udid(devices, st.udid@, c));
            assert(is_first_with_udid(once, st.udid@, c));
            lemma_position_of_udid(once, st.udid@, c);
            assert(with_state(with_state(devices[c], st), st) == with_state(devices[c], st));
            assert(once.update(c, with_state(once[c], st)) =~= once);
        },
        None => {},
    }
}

/// After a refresh, the first device with the udid of the values holds
/// exactly those values.
pub proof fn law_refresh_stores_values(devices: Seq<DeviceInfo>, st: DeviceInfoState, i: int)
    requires
        is_first_with_udid(devices, st.udid@, i),
    ensures
        refresh_one(devices, st)[i].storage_total == st.storage_total,
        refresh_one(devices, st)[i].storage_free == st.storage_free,
        refresh_one(devices, st)[i].battery_capacity == st.battery_capacity,
        refresh_one(devices, st)[i].battery_is_charging == st.battery_is_charging,
        refresh_one(devices, st)[i].wallpaper == st.wallpaper,
        refresh_one(devices, st)[i].udid == devices[i].udid,
        refresh_one(devices, st)[i].name == devices[i].name,
        refresh_one(devices, st)[i].model == devices[i].model,
        refresh_one(devices, st)[i].serial_number == devices[i].serial_number,
        refresh_one(devices, st).len() == devices.len(),
        forall|j: int| 0 <= j < devices.len() && j != i ==> #[trigger] refresh_one(devices, st)[j] == devices[j],
{
    lemma_position_of_udid(devices, st.udid@, i);
}

} // verus!

verus! {

/// A refresh moves no device: every udid is found at the same position
/// before and after it, so a selected device stays selected.
pub proof fn law_refresh_keeps_positions(
    devices: Seq<DeviceInfo>,
    states: Seq<DeviceInfoState>,
    udid: Seq<char>,
)
    ensures
        position_of_udid(refresh_all(devices, states), udid) == position_of_udid(devices, udid),
{
    law_refresh_keeps_devices(devices, states);
    let after = refresh_all(devices, states);
    assert forall|i: int| 0 <= i < devices.len() implies (#[trigger] after[i]).udid == devices[i].udid by {
        assert(same_identity(after[i], devices[i]));
    }
    if exists|i: int| is_first_with_udid(devices, udid, i) {
        let i = choose|i: int| is_first_with_udid(devices, udid, i);
        assert(is_first_with_udid(after, udid, i));
        lemma_position_of_udid(after, udid, i);
        lemma_position_of_udid(devices, udid, i);
    } else {
        assert forall|k: int| !is_first_with_udid(after, udid, k) by {
            if is_first_with_udid(after, udid, k) {
                assert forall|j: int| 0 <= j < k implies devices[j].udid@ != udid by {
                    assert(after[j].udid == devices[j].udid);
                }
                assert(after[k].udid == devices[k].udid);
                assert(is_first_with_udid(devices, udid, k));
            }
        }
    }
}

} // verus!

verus! {

/// The last of `states` that goes to position `i` of `devices`, if any.
pub open spec fn last_state_for(devices: Seq<DeviceInfo>, states: Seq<DeviceInfoState>, i: int) -> Option<
    DeviceInfoState,
>
    decreases states.len(),
{
    if states.len() == 0 {
        None
    } else if position_of_udid(devices, states.last().udid@) == Some(i) {
        Some(states.last())
    } else {
        last_state_for(devices, states.drop_last(), i)
    }
}

/// Whether `a` and `b` list the same udids in the same order.
pub open spec fn same_udids(a: Seq<DeviceInfo>, b: Seq<DeviceInfo>) -> bool {
    a.len() == b.len() && forall|i: int| 0 <= i < a.len() ==> (#[trigger] a[i]).udid == b[i].udid
}

proof fn lemma_same_udids_positions(a: Seq<DeviceInfo>, b: Seq<DeviceInfo>, u: Seq<char>)
    requires
        same_udids(a, b),
    ensures
        position_of_udid(a, u) == position_of_udid(b, u),
{
    if exists|i: int| is_first_with_udid(a, u, i) {
        let i = choose|i: int| is_first_with_udid(a, u, i);
        assert forall|j: int| 0 <= j < i implies b[j].udid@ != u by {
            assert(a[j].udid == b[j].udid);
        }
        assert(a[i].udid == b[i].udid);
        assert(is_first_with_udid(b, u, i));
        lemma_position_of_udid(a, u, i);
        lemma_position_of_udid(b, u, i);
    } else {
        assert forall|k: int| !is_first_with_udid(b, u, k) by {
            if is_first_with_udid(b, u, k) {
                assert forall|j: int| 0 <= j < k implies a[j].udid@ != u by {
                    assert(a[j].udid == b[j].udid);
                }
                assert(a[k].udid == b[k].udid);
                assert(is_first_with_udid(a, u, k));
            }
        }
    }
}

proof fn lemma_same_udids_last_state(
    a: Seq<DeviceInfo>,
    b: Seq<DeviceInfo>,
    states: Seq<DeviceInfoState>,
    i: int,
)
    requires
        same_udids(a, b),
    ensures
        last_state_for(a, states, i) == last_state_for(b, states, i),
    decreases states.len(),
{
    if states.len() > 0 {
        lemma_same_udids_positions(a, b, states.last().udid@);
        lemma_same_udids_last_state(a, b, states.drop_last(), i);
    }
}

proof fn lemma_refresh_all_pointwise(devices: Seq<DeviceInfo>, states: Seq<DeviceInfoState>, i: int)
    requires
        0 <= i < devices.len(),
    ensures
        refresh_all(devices, states).len() == devices.len(),
        refresh_all(devices, states)[i] == match last_state_for(devices, states, i) {
            Some(st) => with_state(devices[i], st),
            None => devices[i],
        },
    decreases states.len(),
{
    law_refresh_keeps_devices(devices, states);
    if states.len() > 0 {
        let prev_states = states.drop_last();
        let st = states.last();
        let prev = refresh_all(devices, prev_states);
        lemma_refresh_all_pointwise(devices, prev_states, i);
        law_refresh_keeps_positions(devices, prev_states, st.udid@);
        match position_of_udid(prev, st.udid@) {
            Some(j) => {
                let c = choose|c: int| is_first_with_udid(prev, st.udid@, c);
                assert(is_first_with_udid(prev, st.udid@, c));
                if j == i {
                    assert(with_state(prev[i], st) == with_state(devices[i], st));
                }
            },
            None => {},
        }
    }
}

/// Applying the same batch of device values twice is applying it once.
pub proof fn law_refresh_all_idempotent(devices: Seq<DeviceInfo>, states: Seq<DeviceInfoState>)
    ensures
        refresh_all(refresh_all(devices, states), states) == refresh_all(devices, states),
{
    let once = refresh_all(devices, states);
    let twice = refresh_all(once, states);
    law_refresh_keeps_devices(devices, states);
    assert forall|i: int| 0 <= i < once.len() implies (#[trigger] once[i]).udid == devices[i].udid by {
        assert(same_identity(once[i], devices[i]));
    }
    assert(same_udids(once, devices));
    law_refresh_keeps_devices(once, states);
    assert forall|i: int| 0 <= i < once.len() implies #[trigger] twice[i] == once[i] by {
        lemma_refresh_all_pointwise(devices, states, i);
        lemma_refresh_all_pointwise(once, states, i);
        lemma_same_udids_last_state(once, devices, states, i);
        match last_state_for(devices, states, i) {
            Some(st) => {
                assert(with_state(with_state(devices[i], st), st) == with_state(devices[i], st));
            },
            None => {},
        }
    }
    assert(twice =~= once);
}

} // verus!
