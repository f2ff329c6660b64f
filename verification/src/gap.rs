//! Plain-value GAP types: scan and role-count configuration, peer
//! addresses, and the classification of the address-type, transmit-power
//! and set-id codes that advertisement reports carry. The native stack
//! that produces those codes lives outside this crate; here they are plain
//! bytes with a total, verified classification.

use vstd::prelude::*;
use crate::Error;

verus! {

/// A six-byte Bluetooth device address.
pub type BluetoothAddress = [u8; 6];

/// Address-type code of a public device address.
pub const GAP_ADDR_TYPE_PUBLIC: u8 = 0;
/// Address-type code of a random static address.
pub const GAP_ADDR_TYPE_RANDOM_STATIC: u8 = 1;
/// Address-type code of a random private resolvable address.
pub const GAP_ADDR_TYPE_RANDOM_PRIVATE_RESOLVABLE: u8 = 2;
/// Address-type code of a random private non-resolvable address.
pub const GAP_ADDR_TYPE_RANDOM_PRIVATE_NON_RESOLVABLE: u8 = 3;
/// Address-type code of an anonymous advertiser.
pub const GAP_ADDR_TYPE_ANONYMOUS: u8 = 0x7F;

/// Transmit-power value reported when no power level is available.
pub const GAP_POWER_LEVEL_INVALID: i8 = 127;

/// Set-id value reported when no advertising set id is available.
pub const GAP_ADV_REPORT_SET_ID_NOT_AVAILABLE: u8 = 0xFF;

/// The kind of a peer address, classified from its address-type code.
/// Unlisted codes are kept, never rejected.
#[derive(Debug, Clone, Copy, PartialEq, Eq, Structural)]
pub enum GapAddressType {
    Public,
    RandomStatic,
    PrivateResolvable,
    PrivateNonResolvable,
    Anonymous,
    Unknown(u8),
}

/// The address kind that an address-type code stands for.
pub open spec fn spec_gap_address_type(code: u8) -> GapAddressType {
    if code == GAP_ADDR_TYPE_PUBLIC {
        GapAddressType::Public
    } else if code == GAP_ADDR_TYPE_RANDOM_STATIC {
        GapAddressType::RandomStatic
    } else if code == GAP_ADDR_TYPE_RANDOM_PRIVATE_RESOLVABLE {
        GapAddressType::PrivateResolvable
    } else if code == GAP_ADDR_TYPE_RANDOM_PRIVATE_NON_RESOLVABLE {
        GapAddressType::PrivateNonResolvable
    } else if code == GAP_ADDR_TYPE_ANONYMOUS {
        GapAddressType::Anonymous
    } else {
        GapAddressType::Unknown(code)
    }
}

impl From<u8> for GapAddressType {
    /// Total classification of an address-type code.
    fn from(code: u8) -> (r: Self) {
        if code == GAP_ADDR_TYPE_PUBLIC {
            GapAddressType::Public
        } else if code == GAP_ADDR_TYPE_RANDOM_STATIC {
            GapAddressType::RandomStatic
        } else if code == GAP_ADDR_TYPE_RANDOM_PRIVATE_RESOLVABLE {
            GapAddressType::PrivateResolvable
        } else if code == GAP_ADDR_TYPE_RANDOM_PRIVATE_NON_RESOLVABLE {
            GapAddressType::PrivateNonResolvable
        } else if code == GAP_ADDR_TYPE_ANONYMOUS {
            GapAddressType::Anonymous
        } else {
            GapAddressType::Unknown(code)
        }
    }
}

impl vstd::std_specs::convert::FromSpecImpl<u8> for GapAddressType {
    open spec fn obeys_from_spec() -> bool {
        true
    }

    open spec fn from_spec(code: u8) -> Self {
        spec_gap_address_type(code)
    }
}

/// A classified peer address.
#[derive(Debug, Clone, Copy)]
pub struct GapAddress {
    pub address_id_peer: bool,
    pub address_type: GapAddressType,
    pub address: BluetoothAddress,
}

impl GapAddress {
    /// Builds a classified address from the plain fields of a native
    /// address record: the id-peer flag, the address-type code, and the
    /// six address bytes.
    pub fn from_parts(address_id_peer: bool, address_type: u8, address: BluetoothAddress) -> (r:
        GapAddress)
        ensures
            r.address_id_peer == address_id_peer,
            r.address_type == spec_gap_address_type(address_type),
            r.address == address,
    {
        GapAddress {
            address_id_peer,
            address_type: GapAddressType::from(address_type),
            address,
        }
    }
}

/// A reported transmit-power level: a signed decibel value, or invalid
/// when the report carries the reserved out-of-range code.
#[derive(Debug, Clone, Copy, PartialEq, Eq, Structural)]
pub enum TxPowerLevel {
    Value(i8),
    Invalid,
}

/// The transmit-power level that a reported value stands for.
pub open spec fn spec_tx_power_level(raw: i8) -> TxPowerLevel {
    if raw == GAP_POWER_LEVEL_INVALID {
        TxPowerLevel::Invalid
    } else {
        TxPowerLevel::Value(raw)
    }
}

impl From<i8> for TxPowerLevel {
    /// Total classification of a reported transmit-power value.
    fn from(raw: i8) -> (r: Self) {
        if raw == GAP_POWER_LEVEL_INVALID {
            TxPowerLevel::Invalid
        } else {
            TxPowerLevel::Value(raw)
        }
    }
}

impl vstd::std_specs::convert::FromSpecImpl<i8> for TxPowerLevel {
    open spec fn obeys_from_spec() -> bool {
        true
    }

    open spec fn from_spec(raw: i8) -> Self {
        spec_tx_power_level(raw)
    }
}

/// An advertising set id: a value, or not available when the report
/// carries the reserved code.
#[derive(Debug, Clone, Copy, PartialEq, Eq, Structural)]
pub enum GapSetId {
    Value(u8),
    NotAvailable,
}

/// The set id that a reported value stands for.
pub open spec fn spec_gap_set_id(raw: u8) -> GapSetId {
    if raw == GAP_ADV_REPORT_SET_ID_NOT_AVAILABLE {
        GapSetId::NotAvailable
    } else {
        GapSetId::Value(raw)
    }
}

impl From<u8> for GapSetId {
    /// Total classification of a reported set-id value.
    fn from(raw: u8) -> (r: Self) {
        if raw == GAP_ADV_REPORT_SET_ID_NOT_AVAILABLE {
            GapSetId::NotAvailable
        } else {
            GapSetId::Value(raw)
        }
    }
}

impl vstd::std_specs::convert::FromSpecImpl<u8> for GapSetId {
    open spec fn obeys_from_spec() -> bool {
        true
    }

    open spec fn from_spec(raw: u8) -> Self {
        spec_gap_set_id(raw)
    }
}

/// Role-count configuration: how many advertising sets and concurrent
/// connections the stack is asked to support.
#[derive(Debug, Clone, Copy)]
pub struct GapConfigRoleCount {
    /// Maximum number of advertising sets. Default value is 1.
    pub advertising_set_count: u8,
    /// Maximum number of connections concurrently acting as a peripheral. Default value is 1.
    pub peripheral_role_count: u8,
    /// Maximum number of connections concurrently acting as a central. Default value is 3.
    pub central_role_count: u8,
    pub central_security_count: u8,
    pub qos_channel_survey_role_available: u8,
}

impl GapConfigRoleCount {
    pub fn new(
        advertising_set_count: u8,
        peripheral_role_count: u8,
        central_role_count: u8,
        central_security_count: u8,
        qos_channel_survey_role_available: u8,
    ) -> (r: GapConfigRoleCount)
        ensures
            r.advertising_set_count == advertising_set_count,
            r.peripheral_role_count == peripheral_role_count,
            r.central_role_count == central_role_count,
            r.central_security_count == central_security_count,
            r.qos_channel_survey_role_available == qos_channel_survey_role_available,
    {
        GapConfigRoleCount {
            advertising_set_count,
            peripheral_role_count,
            central_role_count,
            central_security_count,
            qos_channel_survey_role_available,
        }
    }
}

impl Default for GapConfigRoleCount {
    /// One advertising set, one peripheral and three central connections,
    /// one central security count, no channel-survey role.
    fn default() -> (r: Self)
        ensures
            r.advertising_set_count == 1,
            r.peripheral_role_count == 1,
            r.central_role_count == 3,
            r.central_security_count == 1,
            r.qos_channel_survey_role_available == 0,
    {
        GapConfigRoleCount {
            advertising_set_count: 1,
            peripheral_role_count: 1,
            central_role_count: 3,
            central_security_count: 1,
            qos_channel_survey_role_available: 0,
        }
    }
}

/// Scan-window configuration handed to the stack when scanning starts.
#[derive(Debug, Clone, Copy)]
pub struct GapScanParameters {
    /// If 1, the scanner will accept extended advertising packets.
    /// If set to 0, the scanner will not receive advertising packets
    /// on secondary advertising channels, and will not be able
    /// to receive long advertising PDUs.
    pub extended: u8,
    pub active: u8,
    pub filter_policy: u8,
    pub scan_phys: u8,
    pub interval: u16,
    pub window: u16,
    pub timeout: u16,
    pub channel_mask: [u8; 5],
}

impl GapScanParameters {
    pub fn new(
        extended: u8,
        active: u8,
        filter_policy: u8,
        scan_phys: u8,
        interval: u16,
        window: u16,
        timeout: u16,
        channel_mask: [u8; 5],
    ) -> (r: GapScanParameters)
        ensures
            r.extended == extended,
            r.active == active,
            r.filter_policy == filter_policy,
            r.scan_phys == scan_phys,
            r.interval == interval,
            r.window == window,
            r.timeout == timeout,
            r.channel_mask == channel_mask,
    {
        GapScanParameters {
            extended,
            active,
            filter_policy,
            scan_phys,
            interval,
            window,
            timeout,
            channel_mask,
        }
    }
}

impl Default for GapScanParameters {
    /// Extended active scanning on all channels, accepting all
    /// advertisers, with an interval of 0xa0 slots and a window of 50.
    fn default() -> (r: Self)
        ensures
            r.extended == 1,
            r.active == 1,
            r.filter_policy == 0,
            r.scan_phys == 0,
            r.interval == 0xa0,
            r.window == 50,
            r.timeout == 0,
            forall|i: int| 0 <= i < 5 ==> r.channel_mask@[i] == 0,
    {
        GapScanParameters {
            extended: 1,
            active: 1,
            filter_policy: 0,
            scan_phys: 0,
            interval: 0xa0,
            window: 50,
            timeout: 0,
            channel_mask: [0, 0, 0, 0, 0],
        }
    }
}

/// The GAP calls a driver offers; an implementation forwards them to a
/// native stack outside this crate.
pub trait GapApi {
    fn gap_connection_config(&self);

    fn gap_scan_start(&self, scan_parameters: &GapScanParameters) -> Result<(), Error>;
}

} // verus!
