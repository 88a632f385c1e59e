//! Turning one event of the Bluetooth central (the local adapter) into the
//! message to publish and the topic to publish it on.

use std::collections::HashMap;
use std::hash::Hash;

use vstd::prelude::*;
use vstd::std_specs::hash::obeys_key_model;

use crate::event::Event;
use crate::text::{
    hex_encode,
    hex_lower,
    is_absolute_path,
    join_path,
    join_path_spec,
    lemma_join_keeps_base,
    lemma_join_path_shape,
    lemma_replace_char_pointwise,
    lemma_replace_char_removes,
    replace_char,
    replace_char_spec,
};

verus! {

broadcast use {vstd::std_specs::hash::group_hash_axioms, vstd::string::group_string_axioms};

/// The power state of the central.
pub enum CentralState {
    Unknown,
    PoweredOn,
    PoweredOff,
}

impl CentralState {
    /// The name of the state as it is printed in topics.
    pub open spec fn name_spec(&self) -> Seq<char> {
        match self {
            CentralState::Unknown => "Unknown"@,
            CentralState::PoweredOn => "PoweredOn"@,
            CentralState::PoweredOff => "PoweredOff"@,
        }
    }

    /// The name of the state as it is printed in topics.
    pub fn name(&self) -> (r: String)
        ensures
            r@ == self.name_spec(),
    {
        match self {
            CentralState::Unknown => "Unknown".to_string(),
            CentralState::PoweredOn => "PoweredOn".to_string(),
            CentralState::PoweredOff => "PoweredOff".to_string(),
        }
    }
}

/// An event of the central. Devices are named by the text of their
/// peripheral identifier; service UUIDs are held as 128-bit integers.
pub enum CentralEvent {
    DeviceDiscovered(String),
    DeviceUpdated(String),
    DeviceConnected(String),
    DeviceDisconnected(String),
    ManufacturerDataAdvertisement { id: String, manufacturer_data: HashMap<u16, Vec<u8>> },
    ServiceDataAdvertisement { id: String, service_data: HashMap<u128, Vec<u8>> },
    ServicesAdvertisement { id: String, services: Vec<u128> },
    StateUpdate(CentralState),
}

/// What a peripheral reports about itself.
pub struct PeripheralProperties {
    pub local_name: Option<String>,
    pub address: String,
    pub rssi: Option<i16>,
}

/// The answer of the adapter when asked for a peripheral and its properties.
pub enum PeripheralLookup {
    /// The peripheral or its properties could not be read; the text says why.
    Failed(String),
    /// The peripheral was found at `address`, with the properties it reported, if any.
    Found { address: String, properties: Option<PeripheralProperties> },
}

/// Why an event could not be turned into a message.
pub enum EventError {
    /// The adapter could not give the peripheral or its properties.
    Peripheral(String),
}

/// The name, address and signal strength that a lookup gives for a device.
pub open spec fn device_properties_spec(lookup: PeripheralLookup) -> Result<
    (Option<String>, String, Option<i16>),
    EventError,
> {
    match lookup {
        PeripheralLookup::Failed(e) => Err(EventError::Peripheral(e)),
        PeripheralLookup::Found { address, properties } => match properties {
            Some(p) => Ok((p.local_name, p.address, p.rssi)),
            None => Ok((None, address, None)),
        },
    }
}

/// The name, address and signal strength of a device: those of its properties
/// when it reported any, else no name, the peripheral's address and no strength.
pub fn get_properties(lookup: &PeripheralLookup) -> (r: Result<
    (Option<String>, String, Option<i16>),
    EventError,
>)
    ensures
        r == device_properties_spec(*lookup),
{
    match lookup {
        PeripheralLookup::Failed(e) => Err(EventError::Peripheral(e.clone())),
        PeripheralLookup::Found { address, properties } => match properties {
            Some(p) => Ok((p.local_name.clone(), p.address.clone(), p.rssi)),
            None => Ok((None, address.clone(), None)),
        },
    }
}

/// The topic for an event of kind `kind` under the base topic `topic`: the
/// kind, then, for a device, its identifier with every `/` replaced by `_`,
/// then the device's name if it reported one; each joined as a path.
pub open spec fn topic_spec(
    kind: Seq<char>,
    topic: Seq<char>,
    lookup: PeripheralLookup,
    id: Option<Seq<char>>,
) -> Result<Seq<char>, EventError> {
    let base = join_path_spec(topic, kind);
    match id {
        None => Ok(base),
        Some(i) => {
            let with_id = join_path_spec(base, replace_char_spec(i, '/', '_'));
            match lookup {
                PeripheralLookup::Failed(e) => Err(EventError::Peripheral(e)),
                PeripheralLookup::Found { properties, .. } => match properties {
                    Some(p) => match p.local_name {
                        Some(name) => Ok(join_path_spec(with_id, name@)),
                        None => Ok(with_id),
                    },
                    None => Ok(with_id),
                },
            }
        },
    }
}

/// Builds the topic for an event (see [`topic_spec`]); `lookup` is consulted
/// only for a device.
pub fn format_topic(kind: &str, topic: &str, lookup: &PeripheralLookup, id: Option<&str>) -> (r: Result<
    String,
    EventError,
>)
    ensures
        match r {
            Ok(t) => topic_spec(kind@, topic@, *lookup, opt_str_view(id)) == Ok::<
                Seq<char>,
                EventError,
            >(t@),
            Err(e) => topic_spec(kind@, topic@, *lookup, opt_str_view(id)) == Err::<
                Seq<char>,
                EventError,
            >(e),
        },
{
    let base = join_path(topic, kind);
    match id {
        None => Ok(base),
        Some(i) => {
            let safe_id = replace_char(i, '/', '_');
            let with_id = join_path(base.as_str(), safe_id.as_str());
            match lookup {
                PeripheralLookup::Failed(e) => Err(EventError::Peripheral(e.clone())),
                PeripheralLookup::Found { properties, .. } => match properties {
                    Some(p) => match &p.local_name {
                        Some(name) => Ok(join_path(with_id.as_str(), name.as_str())),
                        None => Ok(with_id),
                    },
                    None => Ok(with_id),
                },
            }
        },
    }
}

/// The characters of an optional string.
pub open spec fn opt_str_view(s: Option<&str>) -> Option<Seq<char>> {
    match s {
        Some(t) => Some(t@),
        None => None,
    }
}

/// Whether `out` maps exactly the keys of `data`, each to the lowercase
/// hexadecimal encoding of its bytes.
pub open spec fn hex_encoded_map<K>(data: Map<K, Vec<u8>>, out: Map<K, String>) -> bool {
    &&& out.dom() == data.dom()
    &&& forall|k: K| #[trigger] out.contains_key(k) ==> out[k]@ == hex_lower(data[k]@)
}

/// Encodes every byte string of a map as lowercase hexadecimal text.
fn hex_values<K: Copy + Eq + Hash>(data: &HashMap<K, Vec<u8>>) -> (r: HashMap<K, String>)
    requires
        obeys_key_model::<K>(),
    ensures
        hex_encoded_map(data@, r@),
{
    let mut out: HashMap<K, String> = HashMap::new();
    for (k, v) in it: data.iter()
        invariant
            obeys_key_model::<K>(),
            forall|j: int|
                0 <= j < it.index() ==> #[trigger] out@.contains_key(*it.seq()[j].0),
            forall|key: K|
                #[trigger] out@.contains_key(key) ==> data@.contains_key(key) && out@[key]@
                    == hex_lower(data@[key]@),
            forall|key: K|
                #[trigger] data@.contains_key(key) ==> exists|j: int|
                    0 <= j < it.seq().len() && *(#[trigger] it.seq()[j]).0 == key,
            it.index() == it.seq().len() ==> forall|key: K|
                #[trigger] data@.contains_key(key) ==> out@.contains_key(key),
    {
        let e = hex_encode(v.as_slice());
        out.insert(*k, e);
        assert(forall|j: int|
            0 <= j < it.index() ==> #[trigger] out@.contains_key(*it.seq()[j].0));
    }
    assert(out@.dom() =~= data@.dom());
    out
}


/// The topic kind of an event: its variant name, and for a state update
/// `StateUpdate/` followed by the state's name.
pub open spec fn event_kind(ev: CentralEvent) -> Seq<char> {
    match ev {
        CentralEvent::DeviceDiscovered(_) => "DeviceDiscovered"@,
        CentralEvent::DeviceUpdated(_) => "DeviceUpdated"@,
        CentralEvent::DeviceConnected(_) => "DeviceConnected"@,
        CentralEvent::DeviceDisconnected(_) => "DeviceDisconnected"@,
        CentralEvent::ManufacturerDataAdvertisement { .. } => "ManufacturerDataAdvertisement"@,
        CentralEvent::ServiceDataAdvertisement { .. } => "ServiceDataAdvertisement"@,
        CentralEvent::ServicesAdvertisement { .. } => "ServicesAdvertisement"@,
        CentralEvent::StateUpdate(s) => "StateUpdate/"@ + s.name_spec(),
    }
}

/// The device that an event is about; a state update is about none.
pub open spec fn event_device(ev: CentralEvent) -> Option<String> {
    match ev {
        CentralEvent::DeviceDiscovered(id) => Some(id),
        CentralEvent::DeviceUpdated(id) => Some(id),
        CentralEvent::DeviceConnected(id) => Some(id),
        CentralEvent::DeviceDisconnected(id) => Some(id),
        CentralEvent::ManufacturerDataAdvertisement { id, .. } => Some(id),
        CentralEvent::ServiceDataAdvertisement { id, .. } => Some(id),
        CentralEvent::ServicesAdvertisement { id, .. } => Some(id),
        CentralEvent::StateUpdate(_) => None,
    }
}

/// Whether the payload fields of `e` carry what the advertisement `ev`
/// holds: its data with each byte string in hexadecimal, or its services.
pub open spec fn payload_matches(e: Event, ev: CentralEvent) -> bool {
    match ev {
        CentralEvent::ManufacturerDataAdvertisement { manufacturer_data, .. } => {
            &&& e.manufacturer_data matches Some(m) && hex_encoded_map(manufacturer_data@, m@)
            &&& e.service_data is None
            &&& e.services is None
        },
        CentralEvent::ServiceDataAdvertisement { service_data, .. } => {
            &&& e.manufacturer_data is None
            &&& e.service_data matches Some(m) && hex_encoded_map(service_data@, m@)
            &&& e.services is None
        },
        CentralEvent::ServicesAdvertisement { services, .. } => {
            &&& e.manufacturer_data is None
            &&& e.service_data is None
            &&& e.services == Some(services)
        },
        _ => {
            &&& e.manufacturer_data is None
            &&& e.service_data is None
            &&& e.services is None
        },
    }
}

/// What processing `ev` gives, with `lookup` the adapter's answer for the
/// device's properties and `topic_lookup` its answer when the topic is built.
/// A state update gives an event with empty identifier and address on the
/// topic `<topic>/StateUpdate/<state>`; a device event gives the device's
/// identifier, name, address and signal strength and the topic of
/// [`topic_spec`], or the first failed lookup.
pub open spec fn processed(
    topic_name: Seq<char>,
    ev: CentralEvent,
    lookup: PeripheralLookup,
    topic_lookup: PeripheralLookup,
    r: Result<(Event, String), EventError>,
) -> bool {
    match event_device(ev) {
        None => match r {
            Ok((e, t)) => {
                &&& t@ == join_path_spec(topic_name, event_kind(ev))
                &&& e.id@ == Seq::<char>::empty()
                &&& e.event@ == "StateUpdate"@
                &&& e.mac_address@ == Seq::<char>::empty()
                &&& e.local_name is None
                &&& e.rssi is None
                &&& payload_matches(e, ev)
            },
            Err(_) => false,
        },
        Some(id) => match device_properties_spec(lookup) {
            Err(err) => r == Err::<(Event, String), EventError>(err),
            Ok((name, address, rssi)) => match topic_spec(
                event_kind(ev),
                topic_name,
                topic_lookup,
                Some(id@),
            ) {
                Err(err) => r == Err::<(Event, String), EventError>(err),
                Ok(topic) => match r {
                    Ok((e, t)) => {
                        &&& t@ == topic
                        &&& e.id == id
                        &&& e.event@ == event_kind(ev)
                        &&& e.mac_address == address
                        &&& e.local_name == name
                        &&& e.rssi == rssi
                        &&& payload_matches(e, ev)
                    },
                    Err(_) => false,
                },
            },
        },
    }
}

/// The message and topic for a device event of kind `kind` (see [`processed`]).
fn device_event(
    topic_name: &str,
    kind: &str,
    id: String,
    lookup: &PeripheralLookup,
    topic_lookup: &PeripheralLookup,
    manufacturer_data: Option<HashMap<u16, String>>,
    service_data: Option<HashMap<u128, String>>,
    services: Option<Vec<u128>>,
) -> (r: Result<(Event, String), EventError>)
    ensures
        match device_properties_spec(*lookup) {
            Err(err) => r == Err::<(Event, String), EventError>(err),
            Ok((name, address, rssi)) => match topic_spec(kind@, topic_name@, *topic_lookup, Some(id@)) {
                Err(err) => r == Err::<(Event, String), EventError>(err),
                Ok(topic) => match r {
                    Ok((e, t)) => {
                        &&& t@ == topic
                        &&& e.id == id
                        &&& e.event@ == kind@
                        &&& e.mac_address == address
                        &&& e.local_name == name
                        &&& e.rssi == rssi
                        &&& e.manufacturer_data == manufacturer_data
                        &&& e.service_data == service_data
                        &&& e.services == services
                    },
                    Err(_) => false,
                },
            },
        },
{
    let (name, address, rssi) = get_properties(lookup)?;
    let topic = format_topic(kind, topic_name, topic_lookup, Some(id.as_str()))?;
    let e = Event::new(
        id,
        kind.to_string(),
        address,
        name,
        rssi,
        manufacturer_data,
        service_data,
        services,
    );
    Ok((e, topic))
}

/// Turns an event of the central into the message to publish and its topic
/// under the base topic `topic_name` (see [`processed`]). For a device,
/// `lookup` is what the adapter answered for its properties and
/// `topic_lookup` what it answered when the topic was built; a state update
/// uses neither.
pub fn process_central_event(
    topic_name: &str,
    event: CentralEvent,
    lookup: &PeripheralLookup,
    topic_lookup: &PeripheralLookup,
) -> (r: Result<(Event, String), EventError>)
    ensures
        processed(topic_name@, event, *lookup, *topic_lookup, r),
{
    let ghost ev = event;
    match event {
        CentralEvent::DeviceDiscovered(id) => device_event(
            topic_name,
            "DeviceDiscovered",
            id,
            lookup,
            topic_lookup,
            None,
            None,
            None,
        ),
        CentralEvent::DeviceUpdated(id) => device_event(
            topic_name,
            "DeviceUpdated",
            id,
            lookup,
            topic_lookup,
            None,
            None,
            None,
        ),
        CentralEvent::DeviceConnected(id) => device_event(
            topic_name,
            "DeviceConnected",
            id,
            lookup,
            topic_lookup,
            None,
            None,
            None,
        ),
        CentralEvent::DeviceDisconnected(id) => device_event(
            topic_name,
            "DeviceDisconnected",
            id,
            lookup,
            topic_lookup,
            None,
            None,
            None,
        ),
        CentralEvent::ManufacturerDataAdvertisement { id, manufacturer_data } => {
            let data = hex_values(&manufacturer_data);
            device_event(
                topic_name,
                "ManufacturerDataAdvertisement",
                id,
                lookup,
                topic_lookup,
                Some(data),
                None,
                None,
            )
        },
        CentralEvent::ServiceDataAdvertisement { id, service_data } => {
            let data = hex_values(&service_data);
            device_event(
                topic_name,
                "ServiceDataAdvertisement",
                id,
                lookup,
                topic_lookup,
                None,
                Some(data),
                None,
            )
        },
        CentralEvent::ServicesAdvertisement { id, services } => device_event(
            topic_name,
            "ServicesAdvertisement",
            id,
            lookup,
            topic_lookup,
            None,
            None,
            Some(services),
        ),
        CentralEvent::StateUpdate(state) => {
            let mut kind = "StateUpdate/".to_string();
            let state_name = state.name();
            kind.append(state_name.as_str());
            let topic = join_path(topic_name, kind.as_str());
            let e = Event::new(
                String::new(),
                "StateUpdate".to_string(),
                String::new(),
                None,
                None,
                None,
                None,
                None,
            );
            Ok((e, topic))
        },
    }
}


/// Every topic lies under the base topic, provided the kind is relative and
/// the device's name, if it reported one, is relative too (a name such as
/// `/x` replaces the whole path); the identifier part never holds a `/`.
pub proof fn lemma_topic_under_base(
    kind: Seq<char>,
    topic: Seq<char>,
    lookup: PeripheralLookup,
    id: Option<Seq<char>>,
)
    requires
        !is_absolute_path(kind),
        lookup matches PeripheralLookup::Found { properties: Some(p), .. } ==> (
        p.local_name matches Some(name) ==> !is_absolute_path(name@)),
    ensures
        topic_spec(kind, topic, lookup, id) matches Ok(t) ==> t.len() >= topic.len() && t.take(
            topic.len() as int,
        ) == topic,
        id matches Some(i) ==> !replace_char_spec(i, '/', '_').contains('/'),
{
    let base = join_path_spec(topic, kind);
    lemma_join_keeps_base(topic, kind);
    if let Some(i) = id {
        let safe = replace_char_spec(i, '/', '_');
        lemma_replace_char_removes(i, '/', '_');
        if safe.len() > 0 {
            assert(safe[0] != '/') by {
                assert(!safe.contains('/'));
                if safe[0] == '/' {
                    assert(safe.contains(safe[0]));
                }
            }
        }
        lemma_join_keeps_base(base, safe);
        let with_id = join_path_spec(base, safe);
        assert(with_id.take(topic.len() as int) =~= topic) by {
            assert(with_id.take(base.len() as int).take(topic.len() as int) =~= with_id.take(
                topic.len() as int,
            ));
        }
        match lookup {
            PeripheralLookup::Found { properties: Some(p), .. } => {
                if let Some(name) = p.local_name {
                    lemma_join_keeps_base(with_id, name@);
                    let full = join_path_spec(with_id, name@);
                    assert(full.take(topic.len() as int) =~= topic) by {
                        assert(full.take(with_id.len() as int).take(topic.len() as int)
                            =~= full.take(topic.len() as int));
                    }
                }
            },
            _ => {},
        }
    }
}

/// A device that reported properties is described by them alone (its name,
/// the address it reported and its signal strength, whether or not it has a
/// name); a device that reported none has no name and no signal strength
/// and the peripheral's own address; a failed lookup is the error.
pub proof fn lemma_device_properties(lookup: PeripheralLookup)
    ensures
        lookup matches PeripheralLookup::Found { properties: Some(p), .. } ==> device_properties_spec(
            lookup,
        ) == Ok::<(Option<String>, String, Option<i16>), EventError>((p.local_name, p.address, p.rssi)),
        lookup matches PeripheralLookup::Found { address, properties: None } ==> device_properties_spec(
            lookup,
        ) == Ok::<(Option<String>, String, Option<i16>), EventError>((None, address, None)),
        lookup matches PeripheralLookup::Failed(e) ==> device_properties_spec(lookup) == Err::<
            (Option<String>, String, Option<i16>),
            EventError,
        >(EventError::Peripheral(e)),
{
}

/// The message published for a device event carries the device's identifier
/// and, when the properties lookup found properties, exactly the name,
/// address and signal strength they report.
pub proof fn lemma_message_describes_device(
    topic_name: Seq<char>,
    ev: CentralEvent,
    lookup: PeripheralLookup,
    topic_lookup: PeripheralLookup,
    e: Event,
    t: String,
)
    requires
        processed(topic_name, ev, lookup, topic_lookup, Ok((e, t))),
    ensures
        event_device(ev) matches Some(id) ==> e.id == id,
        event_device(ev) is Some ==> (lookup matches PeripheralLookup::Found {
            properties: Some(p),
            ..
        } ==> e.local_name == p.local_name && e.mac_address == p.address && e.rssi == p.rssi),
        event_device(ev) is Some ==> (lookup matches PeripheralLookup::Found {
            address,
            properties: None,
        } ==> e.local_name is None && e.mac_address == address && e.rssi is None),
        event_device(ev) is Some ==> lookup !is Failed && topic_lookup !is Failed,
{
    lemma_device_properties(lookup);
}

/// The topic of a device ends with the name the device reported, unchanged,
/// when it reported one; otherwise it ends with the device identifier in
/// which each `/` is replaced by `_` and every other character is kept.
pub proof fn lemma_topic_ends_with_device(
    kind: Seq<char>,
    topic: Seq<char>,
    lookup: PeripheralLookup,
    id: Seq<char>,
)
    ensures
        ({
            let safe = replace_char_spec(id, '/', '_');
            &&& safe.len() == id.len()
            &&& forall|i: int|
                0 <= i < id.len() ==> (id[i] == '/' ==> #[trigger] safe[i] == '_') && (id[i] != '/'
                    ==> safe[i] == id[i])
            &&& topic_spec(kind, topic, lookup, Some(id)) matches Ok(t) ==> match lookup {
                PeripheralLookup::Found { properties: Some(p), .. } => match p.local_name {
                    Some(n) => t.len() >= n@.len() && t.subrange(t.len() - n@.len(), t.len() as int)
                        == n@,
                    None => t.len() >= safe.len() && t.subrange(t.len() - safe.len(), t.len() as int)
                        == safe,
                },
                _ => t.len() >= safe.len() && t.subrange(t.len() - safe.len(), t.len() as int)
                    == safe,
            }
        }),
{
    let safe = replace_char_spec(id, '/', '_');
    lemma_replace_char_pointwise(id, '/', '_');
    let base = join_path_spec(topic, kind);
    let with_id = join_path_spec(base, safe);
    lemma_join_path_shape(base, safe);
    match lookup {
        PeripheralLookup::Found { properties: Some(p), .. } => {
            if let Some(n) = p.local_name {
                lemma_join_path_shape(with_id, n@);
            }
        },
        _ => {},
    }
}

} // verus!
