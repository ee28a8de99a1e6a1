//! Inventory records and their decoding from the service's JSON.

use vstd::prelude::*;
use vstd::string::*;

use crate::error::ClientError;
use crate::json::{copy_number, find_member, member, member_from, JsonNumber, JsonValue};

verus! {

/// A managed network device as the inventory endpoint reports it. Every field
/// is optional: partial records from degraded devices are kept as they come.
#[derive(Debug, Clone, PartialEq)]
pub struct Device {
    /// Hardware model. Wire name `modelName`.
    pub model_name: Option<String>,
    /// Internal software version. Wire name `internalVersion`.
    pub internal_version: Option<String>,
    /// System MAC address. Wire name `systemMacAddress`.
    pub system_mac_address: Option<String>,
    /// Total memory. Wire name `memTotal`.
    pub mem_total: Option<u64>,
    /// Free memory. Wire name `memFree`.
    pub mem_free: Option<u64>,
    /// Time of the last boot, as the service wrote it. Wire name `bootupTimestamp`.
    pub bootup_timestamp: Option<JsonNumber>,
    /// Software version. Wire name `version`.
    pub version: Option<String>,
    /// CPU architecture. Wire name `architecture`.
    pub architecture: Option<String>,
    /// Internal build identifier. Wire name `internalBuild`.
    pub internal_build: Option<String>,
    /// Hardware revision. Wire name `hardwareRevision`.
    pub hardware_revision: Option<String>,
    /// DNS domain. Wire name `domainName`.
    pub domain_name: Option<String>,
    /// Host name. Wire name `hostname`.
    pub hostname: Option<String>,
    /// Fully qualified domain name. Wire name `fqdn`.
    pub fqdn: Option<String>,
    /// Serial number. Wire name `serialNumber`.
    pub serial_number: Option<String>,
    /// Whether DANZ monitoring is on. Wire name `danzEnabled`.
    pub danz_enabled: Option<bool>,
    /// Whether MLAG is on. Wire name `mlagEnabled`.
    pub mlag_enabled: Option<bool>,
    /// Key of the container that holds the device. Wire name `parentContainerKey`.
    pub parent_container_key: Option<String>,
    /// Reported status. Wire name `status`.
    pub status: Option<String>,
    /// Compliance code. Wire name `complianceCode`.
    pub compliance_code: Option<String>,
    /// Compliance indication. Wire name `complianceIndiciation`.
    pub compliance_indication: Option<String>,
    /// Whether the device is in zero-touch provisioning mode. Wire name `ztpMode`.
    pub ztp_mode: Option<bool>,
    /// Whether the device is unauthorized. Wire name `unauthorized`.
    pub unauthorized: Option<bool>,
    /// Management IP address. Wire name `ipAddress`.
    pub ip_address: Option<String>,
}

/// The characters of an optional string.
pub open spec fn text_view(o: Option<String>) -> Option<Seq<char>> {
    match o {
        Some(s) => Some(s@),
        None => None,
    }
}

/// How an optional string field decodes from a member: `Some(None)` when it is
/// absent or null, `None` when it has another type than string.
pub open spec fn text_member(v: Option<JsonValue>) -> Option<Option<Seq<char>>> {
    match v {
        None => Some(None),
        Some(JsonValue::Null) => Some(None),
        Some(JsonValue::Str(s)) => Some(Some(s@)),
        Some(_) => None,
    }
}

/// How an optional `u64` field decodes from a member: a number must be a
/// non-negative integer that fits in `u64`.
pub open spec fn unsigned_member(v: Option<JsonValue>) -> Option<Option<u64>> {
    match v {
        None => Some(None),
        Some(JsonValue::Null) => Some(None),
        Some(JsonValue::Number(n)) => match n.unsigned {
            Some(x) => Some(Some(x)),
            None => None,
        },
        Some(_) => None,
    }
}

/// How an optional number field decodes from a member: any number is taken.
pub open spec fn number_member(v: Option<JsonValue>) -> Option<Option<JsonNumber>> {
    match v {
        None => Some(None),
        Some(JsonValue::Null) => Some(None),
        Some(JsonValue::Number(n)) => Some(Some(n)),
        Some(_) => None,
    }
}

/// How an optional boolean field decodes from a member.
pub open spec fn flag_member(v: Option<JsonValue>) -> Option<Option<bool>> {
    match v {
        None => Some(None),
        Some(JsonValue::Null) => Some(None),
        Some(JsonValue::Bool(b)) => Some(Some(b)),
        Some(_) => None,
    }
}

/// `d` is the record that the JSON value `v` describes: `v` is an object, and
/// each field of `d` is what the member of its wire name decodes to. Members
/// with other names are ignored.
pub open spec fn decodes_to(v: JsonValue, d: Device) -> bool {
    match v {
        JsonValue::Object(m) => {
            &&& text_member(member(m@, "modelName"@)) == Some(text_view(d.model_name))
            &&& text_member(member(m@, "internalVersion"@)) == Some(text_view(d.internal_version))
            &&& text_member(member(m@, "systemMacAddress"@)) == Some(text_view(d.system_mac_address))
            &&& unsigned_member(member(m@, "memTotal"@)) == Some(d.mem_total)
            &&& unsigned_member(member(m@, "memFree"@)) == Some(d.mem_free)
            &&& number_member(member(m@, "bootupTimestamp"@)) == Some(d.bootup_timestamp)
            &&& text_member(member(m@, "version"@)) == Some(text_view(d.version))
            &&& text_member(member(m@, "architecture"@)) == Some(text_view(d.architecture))
            &&& text_member(member(m@, "internalBuild"@)) == Some(text_view(d.internal_build))
            &&& text_member(member(m@, "hardwareRevision"@)) == Some(text_view(d.hardware_revision))
            &&& text_member(member(m@, "domainName"@)) == Some(text_view(d.domain_name))
            &&& text_member(member(m@, "hostname"@)) == Some(text_view(d.hostname))
            &&& text_member(member(m@, "fqdn"@)) == Some(text_view(d.fqdn))
            &&& text_member(member(m@, "serialNumber"@)) == Some(text_view(d.serial_number))
            &&& flag_member(member(m@, "danzEnabled"@)) == Some(d.danz_enabled)
            &&& flag_member(member(m@, "mlagEnabled"@)) == Some(d.mlag_enabled)
            &&& text_member(member(m@, "parentContainerKey"@)) == Some(text_view(d.parent_container_key))
            &&& text_member(member(m@, "status"@)) == Some(text_view(d.status))
            &&& text_member(member(m@, "complianceCode"@)) == Some(text_view(d.compliance_code))
            &&& text_member(member(m@, "complianceIndiciation"@)) == Some(text_view(d.compliance_indication))
            &&& flag_member(member(m@, "ztpMode"@)) == Some(d.ztp_mode)
            &&& flag_member(member(m@, "unauthorized"@)) == Some(d.unauthorized)
            &&& text_member(member(m@, "ipAddress"@)) == Some(text_view(d.ip_address))
        },
        _ => false,
    }
}

/// Some record decodes from `v`.
pub open spec fn device_decodable(v: JsonValue) -> bool {
    exists|d: Device| decodes_to(v, d)
}

/// Every element of `v`, an array, decodes to a record.
pub open spec fn inventory_decodable(v: JsonValue) -> bool {
    match v {
        JsonValue::Array(items) => forall|i: int| 0 <= i < items@.len() ==> device_decodable(#[trigger] items@[i]),
        _ => false,
    }
}

fn field_error(key: &str) -> (e: ClientError)
    ensures
        e is Decode,
{
    let mut msg = String::from_str("invalid type for field ");
    msg.append(key);
    ClientError::Decode(msg)
}

fn text_at(m: &Vec<(String, JsonValue)>, key: &str) -> (r: Result<Option<String>, ClientError>)
    ensures
        match r {
            Ok(o) => text_member(member(m@, key@)) == Some(text_view(o)),
            Err(e) => text_member(member(m@, key@)) is None && e is Decode,
        },
{
    match find_member(m, key) {
        None => Ok(None),
        Some(i) => match &m[i].1 {
            JsonValue::Null => Ok(None),
            JsonValue::Str(s) => Ok(Some(s.clone())),
            _ => Err(field_error(key)),
        },
    }
}

fn unsigned_at(m: &Vec<(String, JsonValue)>, key: &str) -> (r: Result<Option<u64>, ClientError>)
    ensures
        match r {
            Ok(o) => unsigned_member(member(m@, key@)) == Some(o),
            Err(e) => unsigned_member(member(m@, key@)) is None && e is Decode,
        },
{
    match find_member(m, key) {
        None => Ok(None),
        Some(i) => match &m[i].1 {
            JsonValue::Null => Ok(None),
            JsonValue::Number(n) => match n.unsigned {
                Some(x) => Ok(Some(x)),
                None => Err(field_error(key)),
            },
            _ => Err(field_error(key)),
        },
    }
}

fn number_at(m: &Vec<(String, JsonValue)>, key: &str) -> (r: Result<Option<JsonNumber>, ClientError>)
    ensures
        match r {
            Ok(o) => number_member(member(m@, key@)) == Some(o),
            Err(e) => number_member(member(m@, key@)) is None && e is Decode,
        },
{
    match find_member(m, key) {
        None => Ok(None),
        Some(i) => match &m[i].1 {
            JsonValue::Null => Ok(None),
            JsonValue::Number(n) => Ok(Some(copy_number(n))),
            _ => Err(field_error(key)),
        },
    }
}

fn flag_at(m: &Vec<(String, JsonValue)>, key: &str) -> (r: Result<Option<bool>, ClientError>)
    ensures
        match r {
            Ok(o) => flag_member(member(m@, key@)) == Some(o),
            Err(e) => flag_member(member(m@, key@)) is None && e is Decode,
        },
{
    match find_member(m, key) {
        None => Ok(None),
        Some(i) => match &m[i].1 {
            JsonValue::Null => Ok(None),
            JsonValue::Bool(b) => Ok(Some(*b)),
            _ => Err(field_error(key)),
        },
    }
}

impl Device {
    /// Decodes one inventory record from a JSON object. Absent and null
    /// members give absent fields; a member of the wrong type is an error.
    pub fn from_json(v: &JsonValue) -> (r: Result<Device, ClientError>)
        ensures
            match r {
                Ok(d) => decodes_to(*v, d),
                Err(e) => e is Decode && !device_decodable(*v),
            },
    {
        match v {
            JsonValue::Object(m) => {
                let model_name = match text_at(m, "modelName") {
                    Ok(x) => x,
                    Err(e) => return Err(e),
                };
                let internal_version = match text_at(m, "internalVersion") {
                    Ok(x) => x,
                    Err(e) => return Err(e),
                };
                let system_mac_address = match text_at(m, "systemMacAddress") {
                    Ok(x) => x,
                    Err(e) => return Err(e),
                };
                let mem_total = match unsigned_at(m, "memTotal") {
                    Ok(x) => x,
                    Err(e) => return Err(e),
                };
                let mem_free = match unsigned_at(m, "memFree") {
                    Ok(x) => x,
                    Err(e) => return Err(e),
                };
                let bootup_timestamp = match number_at(m, "bootupTimestamp") {
                    Ok(x) => x,
                    Err(e) => return Err(e),
                };
                let version = match text_at(m, "version") {
                    Ok(x) => x,
                    Err(e) => return Err(e),
                };
                let architecture = match text_at(m, "architecture") {
                    Ok(x) => x,
                    Err(e) => return Err(e),
                };
                let internal_build = match text_at(m, "internalBuild") {
                    Ok(x) => x,
                    Err(e) => return Err(e),
                };
                let hardware_revision = match text_at(m, "hardwareRevision") {
                    Ok(x) => x,
                    Err(e) => return Err(e),
                };
                let domain_name = match text_at(m, "domainName") {
                    Ok(x) => x,
                    Err(e) => return Err(e),
                };
                let hostname = match text_at(m, "hostname") {
                    Ok(x) => x,
                    Err(e) => return Err(e),
                };
                let fqdn = match text_at(m, "fqdn") {
                    Ok(x) => x,
                    Err(e) => return Err(e),
                };
                let serial_number = match text_at(m, "serialNumber") {
                    Ok(x) => x,
                    Err(e) => return Err(e),
                };
                let danz_enabled = match flag_at(m, "danzEnabled") {
                    Ok(x) => x,
                    Err(e) => return Err(e),
                };
                let mlag_enabled = match flag_at(m, "mlagEnabled") {
                    Ok(x) => x,
                    Err(e) => return Err(e),
                };
                let parent_container_key = match text_at(m, "parentContainerKey") {
                    Ok(x) => x,
                    Err(e) => return Err(e),
                };
                let status = match text_at(m, "status") {
                    Ok(x) => x,
                    Err(e) => return Err(e),
                };
                let compliance_code = match text_at(m, "complianceCode") {
                    Ok(x) => x,
                    Err(e) => return Err(e),
                };
                let compliance_indication = match text_at(m, "complianceIndiciation") {
                    Ok(x) => x,
                    Err(e) => return Err(e),
                };
                let ztp_mode = match flag_at(m, "ztpMode") {
                    Ok(x) => x,
                    Err(e) => return Err(e),
                };
                let unauthorized = match flag_at(m, "unauthorized") {
                    Ok(x) => x,
                    Err(e) => return Err(e),
                };
                let ip_address = match text_at(m, "ipAddress") {
                    Ok(x) => x,
                    Err(e) => return Err(e),
                };
                Ok(Device {
                    model_name,
                    internal_version,
                    system_mac_address,
                    mem_total,
                    mem_free,
                    bootup_timestamp,
                    version,
                    architecture,
                    internal_build,
                    hardware_revision,
                    domain_name,
                    hostname,
                    fqdn,
                    serial_number,
                    danz_enabled,
                    mlag_enabled,
                    parent_container_key,
                    status,
                    compliance_code,
                    compliance_indication,
                    ztp_mode,
                    unauthorized,
                    ip_address,
                })
            },
            _ => Err(ClientError::Decode(String::from_str("expected a JSON object"))),
        }
    }
}

/// The record with every field absent.
pub open spec fn absent_device() -> Device {
    Device {
        model_name: None,
        internal_version: None,
        system_mac_address: None,
        mem_total: None,
        mem_free: None,
        bootup_timestamp: None,
        version: None,
        architecture: None,
        internal_build: None,
        hardware_revision: None,
        domain_name: None,
        hostname: None,
        fqdn: None,
        serial_number: None,
        danz_enabled: None,
        mlag_enabled: None,
        parent_container_key: None,
        status: None,
        compliance_code: None,
        compliance_indication: None,
        ztp_mode: None,
        unauthorized: None,
        ip_address: None,
    }
}

/// `ds` is the list of records that `v` describes: `v` is an array and each
/// element decodes to the record at the same position.
pub open spec fn inventory_decodes_to(v: JsonValue, ds: Seq<Device>) -> bool {
    match v {
        JsonValue::Array(items) => ds.len() == items@.len() && forall|i: int|
            0 <= i < ds.len() ==> decodes_to(items@[i], #[trigger] ds[i]),
        _ => false,
    }
}

/// Decodes the inventory endpoint's body, an array of records, keeping their
/// order. It succeeds exactly when every element decodes.
pub fn decode_inventory(v: &JsonValue) -> (r: Result<Vec<Device>, ClientError>)
    ensures
        match r {
            Ok(ds) => inventory_decodes_to(*v, ds@),
            Err(e) => e is Decode && !inventory_decodable(*v),
        },
{
    match v {
        JsonValue::Array(items) => {
            let mut ds: Vec<Device> = Vec::new();
            let mut i: usize = 0;
            while i < items.len()
                invariant
                    *v == JsonValue::Array(*items),
                    i <= items@.len(),
                    ds@.len() == i,
                    forall|j: int| 0 <= j < i ==> decodes_to(items@[j], #[trigger] ds@[j]),
                decreases items@.len() - i,
            {
                match Device::from_json(&items[i]) {
                    Ok(d) => ds.push(d),
                    Err(e) => {
                        assert(!inventory_decodable(*v)) by {
                            if inventory_decodable(*v) {
                                assert(device_decodable(v->Array_0@[i as int]));
                            }
                        }
                        return Err(e);
                    },
                }
                i = i + 1;
            }
            Ok(ds)
        },
        _ => Err(ClientError::Decode(String::from_str("expected a JSON array"))),
    }
}

proof fn lemma_member_of_nulls(m: Seq<(String, JsonValue)>, key: Seq<char>, i: int)
    requires
        forall|j: int| 0 <= j < m.len() ==> (#[trigger] m[j]).1 is Null,
    ensures
        match member_from(m, key, i) {
            Some(x) => x is Null,
            None => true,
        },
    decreases m.len() - i,
{
    if 0 <= i < m.len() && m[i].0@ != key {
        lemma_member_of_nulls(m, key, i + 1);
    }
}

/// An object whose members are all null, or that has no members, decodes,
/// and only to the record with every field absent.
pub proof fn lemma_null_members_decode_to_absent(v: JsonValue)
    requires
        match v {
            JsonValue::Object(m) => forall|j: int| 0 <= j < m@.len() ==> (#[trigger] m@[j]).1 is Null,
            _ => false,
        },
    ensures
        device_decodable(v),
        forall|d: Device| decodes_to(v, d) ==> d == absent_device(),
{
    let m = v->Object_0;
    lemma_member_of_nulls(m@, "modelName"@, 0);
    lemma_member_of_nulls(m@, "internalVersion"@, 0);
    lemma_member_of_nulls(m@, "systemMacAddress"@, 0);
    lemma_member_of_nulls(m@, "memTotal"@, 0);
    lemma_member_of_nulls(m@, "memFree"@, 0);
    lemma_member_of_nulls(m@, "bootupTimestamp"@, 0);
    lemma_member_of_nulls(m@, "version"@, 0);
    lemma_member_of_nulls(m@, "architecture"@, 0);
    lemma_member_of_nulls(m@, "internalBuild"@, 0);
    lemma_member_of_nulls(m@, "hardwareRevision"@, 0);
    lemma_member_of_nulls(m@, "domainName"@, 0);
    lemma_member_of_nulls(m@, "hostname"@, 0);
    lemma_member_of_nulls(m@, "fqdn"@, 0);
    lemma_member_of_nulls(m@, "serialNumber"@, 0);
    lemma_member_of_nulls(m@, "danzEnabled"@, 0);
    lemma_member_of_nulls(m@, "mlagEnabled"@, 0);
    lemma_member_of_nulls(m@, "parentContainerKey"@, 0);
    lemma_member_of_nulls(m@, "status"@, 0);
    lemma_member_of_nulls(m@, "complianceCode"@, 0);
    lemma_member_of_nulls(m@, "complianceIndiciation"@, 0);
    lemma_member_of_nulls(m@, "ztpMode"@, 0);
    lemma_member_of_nulls(m@, "unauthorized"@, 0);
    lemma_member_of_nulls(m@, "ipAddress"@, 0);
    assert(decodes_to(v, absent_device()));
}

} // verus!
