use vstd::prelude::*;

verus! {

/// The 16-bit id of the toggle service.
pub const SERVICE_ID: u16 = 0x1234;

/// The 16-bit id of the toggle characteristic.
pub const TOGGLE_ID: u16 = 0x2A3D;

/// The 16-bit id of the auxiliary characteristic.
pub const AUXILIARY_ID: u16 = 0x1209;

/// The 16-bit id of the configuration descriptor on the toggle.
pub const CONFIG_DESCRIPTOR_ID: u16 = 0x2A13;

/// What a characteristic lets a remote party do.
#[derive(Clone, Copy, Debug, PartialEq, Eq)]
pub enum Property {
    Read,
    Write,
    Notify,
}

/// What a remote party is permitted on an attribute.
#[derive(Clone, Copy, Debug, PartialEq, Eq)]
pub enum Permission {
    Readable,
    Writeable,
}

/// The schema of the service that carries the toggle: one primary service
/// holding the toggle characteristic, with its capabilities, its
/// permissions and one configuration descriptor, and an auxiliary
/// characteristic left in the peripheral stack's default configuration.
/// Ids are 16-bit short ids on the Bluetooth base id.
pub struct ServiceDescriptor {
    pub service_id: u16,
    pub primary: bool,
    pub toggle_id: u16,
    pub properties: Vec<Property>,
    pub permissions: Vec<Permission>,
    pub descriptor_id: u16,
    pub descriptor_value: Vec<u8>,
    pub auxiliary_id: u16,
}

/// The name under which the service is advertised.
pub fn advertised_name() -> (r: &'static str)
    ensures
        r@ == seq!['R', 'u', 's', 't', 'B', 'L', 'E'],
{
    proof {
        reveal_strlit("RustBLE");
    }
    "RustBLE"
}

impl ServiceDescriptor {
    /// The toggle service: a primary service whose toggle can be read,
    /// written and subscribed to, is readable and writeable, and carries a
    /// descriptor with the two bytes `0, 1`.
    pub fn toggle_service() -> (r: ServiceDescriptor)
        ensures
            r.service_id == SERVICE_ID,
            r.primary,
            r.toggle_id == TOGGLE_ID,
            r.properties@ == seq![Property::Read, Property::Write, Property::Notify],
            r.permissions@ == seq![Permission::Readable, Permission::Writeable],
            r.descriptor_id == CONFIG_DESCRIPTOR_ID,
            r.descriptor_value@ == seq![0u8, 1u8],
            r.auxiliary_id == AUXILIARY_ID,
    {
        ServiceDescriptor {
            service_id: SERVICE_ID,
            primary: true,
            toggle_id: TOGGLE_ID,
            properties: vec![Property::Read, Property::Write, Property::Notify],
            permissions: vec![Permission::Readable, Permission::Writeable],
            descriptor_id: CONFIG_DESCRIPTOR_ID,
            descriptor_value: vec![0u8, 1u8],
            auxiliary_id: AUXILIARY_ID,
        }
    }

    /// The ids to advertise: the service's own id alone.
    pub fn advertised_ids(&self) -> (r: Vec<u16>)
        ensures
            r@ == seq![self.service_id],
    {
        vec![self.service_id]
    }
}

} // verus!
