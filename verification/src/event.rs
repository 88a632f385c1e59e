//! The message that the bridge publishes for each Bluetooth event.

use std::collections::HashMap;

use vstd::prelude::*;

verus! {

/// One published event. Service identifiers are 128-bit UUIDs held as
/// integers; byte payloads are held as lowercase hexadecimal text.
pub struct Event {
    pub id: String,
    pub event: String,
    pub mac_address: String,
    pub local_name: Option<String>,
    pub rssi: Option<i16>,
    pub manufacturer_data: Option<HashMap<u16, String>>,
    pub service_data: Option<HashMap<u128, String>>,
    pub services: Option<Vec<u128>>,
}

impl Event {
    /// Assembles an event from its fields.
    pub fn new(
        id: String,
        event: String,
        mac_address: String,
        local_name: Option<String>,
        rssi: Option<i16>,
        manufacturer_data: Option<HashMap<u16, String>>,
        service_data: Option<HashMap<u128, String>>,
        services: Option<Vec<u128>>,
    ) -> (r: Self)
        ensures
            r.id == id,
            r.event == event,
            r.mac_address == mac_address,
            r.local_name == local_name,
            r.rssi == rssi,
            r.manufacturer_data == manufacturer_data,
            r.service_data == service_data,
            r.services == services,
    {
        Event {
            id,
            event,
            mac_address,
            local_name,
            rssi,
            manufacturer_data,
            service_data,
            services,
        }
    }
}

} // verus!
