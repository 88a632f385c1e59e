//! Typed event envelopes: a common header (event name, device name, signal
//! strength, identifier) around a payload of any type.

use std::collections::HashMap;

use vstd::prelude::*;

verus! {

broadcast use vstd::string::group_string_axioms;

/// An event header with its payload `data`.
pub struct Event<T> {
    pub event: String,
    pub local_name: Option<String>,
    pub rssi: Option<i16>,
    pub id: String,
    pub data: T,
}

impl<T> Event<T> {
    /// Assembles an envelope from its fields.
    pub fn new(event: String, local_name: Option<String>, rssi: Option<i16>, id: String, data: T) -> (r: Self)
        ensures
            r.event == event,
            r.local_name == local_name,
            r.rssi == rssi,
            r.id == id,
            r.data == data,
    {
        Event { event, local_name, rssi, id, data }
    }
}

impl Event<Option<String>> {
    /// An envelope without payload.
    pub fn new_simple(event: String, local_name: Option<String>, rssi: Option<i16>, id: String) -> (r: Self)
        ensures
            r.event == event,
            r.local_name == local_name,
            r.rssi == rssi,
            r.id == id,
            r.data is None,
    {
        Event { event, local_name, rssi, id, data: None }
    }
}

/// Payload of a manufacturer data advertisement: company identifier to data.
pub struct ManufacturerDataAdvertisementEvent {
    pub manufacturer_data: HashMap<u16, String>,
}

impl ManufacturerDataAdvertisementEvent {
    /// The envelope named `ManufacturerDataAdvertisementEvent` around the data.
    pub fn new(
        local_name: Option<String>,
        rssi: Option<i16>,
        id: String,
        manufacturer_data: HashMap<u16, String>,
    ) -> (r: Event<Self>)
        ensures
            r.event@ == "ManufacturerDataAdvertisementEvent"@,
            r.local_name == local_name,
            r.rssi == rssi,
            r.id == id,
            r.data.manufacturer_data == manufacturer_data,
    {
        Event::new(
            "ManufacturerDataAdvertisementEvent".to_string(),
            local_name,
            rssi,
            id,
            ManufacturerDataAdvertisementEvent { manufacturer_data },
        )
    }
}

/// Payload of a service data advertisement: service UUID to data.
pub struct ServiceDataAdvertisementEvent {
    pub service_data: HashMap<u128, String>,
}

impl ServiceDataAdvertisementEvent {
    /// The envelope named `ServiceDataAdvertisementEvent` around the data.
    pub fn new(
        local_name: Option<String>,
        rssi: Option<i16>,
        id: String,
        service_data: HashMap<u128, String>,
    ) -> (r: Event<Self>)
        ensures
            r.event@ == "ServiceDataAdvertisementEvent"@,
            r.local_name == local_name,
            r.rssi == rssi,
            r.id == id,
            r.data.service_data == service_data,
    {
        Event::new(
            "ServiceDataAdvertisementEvent".to_string(),
            local_name,
            rssi,
            id,
            ServiceDataAdvertisementEvent { service_data },
        )
    }
}

/// Payload of a services advertisement: the advertised service UUIDs.
pub struct ServicesAdvertisementEvent {
    pub services: Vec<u128>,
}

impl ServicesAdvertisementEvent {
    /// The envelope named `ServicesAdvertisement` around the services.
    pub fn new(local_name: Option<String>, rssi: Option<i16>, id: String, services: Vec<u128>) -> (r: Event<
        Self,
    >)
        ensures
            r.event@ == "ServicesAdvertisement"@,
            r.local_name == local_name,
            r.rssi == rssi,
            r.id == id,
            r.data.services == services,
    {
        Event::new(
            "ServicesAdvertisement".to_string(),
            local_name,
            rssi,
            id,
            ServicesAdvertisementEvent { services },
        )
    }
}

} // verus!
