//! The exmebus wire vocabulary: the data-signal type tags, message types,
//! signal groups and sample types, the all-public record variant of the
//! own-data-signal packet, and the resource packet header.

use vstd::prelude::*;

verus! {

/// Largest payload a resource packet can carry.
pub const MAX_EXMEBUS_PKG_SIZE: usize = 1000;

/// The data types a signal value can be declared with.
#[allow(non_camel_case_types)]
#[derive(Debug, Copy, Clone, PartialEq, Eq, PartialOrd, Ord)]
pub enum SignalDataType {
    V_VOID,
    V_BIT,
    V_SIGNED_CHAR,
    V_SIGNED_SHORT,
    V_SIGNED_LONG,
    V_UNSIGNED_CHAR,
    V_UNSIGNED_SHORT,
    V_UNSIGNED_LONG,
    V_FLOAT,
    V_STRING,
    V_HEX,
    V_BINARY,
    V_BE_SIGNED_SHORT,
    V_BE_SIGNED_LONG,
    V_BE_UNSIGNED_SHORT,
    V_BE_UNSIGNED_LONG,
    V_UNIX_TIME,
    V_TWO_BIT,
    V_SIGNED_LONG_LONG,
    V_UNSIGNED_LONG_LONG,
    V_DOUBLE,
    V_IP_ADDRESS_NETWORK,
    V_IP_ADDRESS_HOST,
    V_STRUCT,
}

impl SignalDataType {
    /// The numeric tag of the data type on the wire; the struct type sits
    /// apart from the dense range.
    pub open spec fn spec_tag(self) -> u8 {
        match self {
            SignalDataType::V_VOID => 0,
            SignalDataType::V_BIT => 1,
            SignalDataType::V_SIGNED_CHAR => 2,
            SignalDataType::V_SIGNED_SHORT => 3,
            SignalDataType::V_SIGNED_LONG => 4,
            SignalDataType::V_UNSIGNED_CHAR => 5,
            SignalDataType::V_UNSIGNED_SHORT => 6,
            SignalDataType::V_UNSIGNED_LONG => 7,
            SignalDataType::V_FLOAT => 8,
            SignalDataType::V_STRING => 9,
            SignalDataType::V_HEX => 10,
            SignalDataType::V_BINARY => 11,
            SignalDataType::V_BE_SIGNED_SHORT => 12,
            SignalDataType::V_BE_SIGNED_LONG => 13,
            SignalDataType::V_BE_UNSIGNED_SHORT => 14,
            SignalDataType::V_BE_UNSIGNED_LONG => 15,
            SignalDataType::V_UNIX_TIME => 16,
            SignalDataType::V_TWO_BIT => 17,
            SignalDataType::V_SIGNED_LONG_LONG => 18,
            SignalDataType::V_UNSIGNED_LONG_LONG => 19,
            SignalDataType::V_DOUBLE => 20,
            SignalDataType::V_IP_ADDRESS_NETWORK => 21,
            SignalDataType::V_IP_ADDRESS_HOST => 22,
            SignalDataType::V_STRUCT => 101,
        }
    }

    pub fn tag(self) -> (r: u8)
        ensures
            r == self.spec_tag(),
    {
        match self {
            SignalDataType::V_VOID => 0,
            SignalDataType::V_BIT => 1,
            SignalDataType::V_SIGNED_CHAR => 2,
            SignalDataType::V_SIGNED_SHORT => 3,
            SignalDataType::V_SIGNED_LONG => 4,
            SignalDataType::V_UNSIGNED_CHAR => 5,
            SignalDataType::V_UNSIGNED_SHORT => 6,
            SignalDataType::V_UNSIGNED_LONG => 7,
            SignalDataType::V_FLOAT => 8,
            SignalDataType::V_STRING => 9,
            SignalDataType::V_HEX => 10,
            SignalDataType::V_BINARY => 11,
            SignalDataType::V_BE_SIGNED_SHORT => 12,
            SignalDataType::V_BE_SIGNED_LONG => 13,
            SignalDataType::V_BE_UNSIGNED_SHORT => 14,
            SignalDataType::V_BE_UNSIGNED_LONG => 15,
            SignalDataType::V_UNIX_TIME => 16,
            SignalDataType::V_TWO_BIT => 17,
            SignalDataType::V_SIGNED_LONG_LONG => 18,
            SignalDataType::V_UNSIGNED_LONG_LONG => 19,
            SignalDataType::V_DOUBLE => 20,
            SignalDataType::V_IP_ADDRESS_NETWORK => 21,
            SignalDataType::V_IP_ADDRESS_HOST => 22,
            SignalDataType::V_STRUCT => 101,
        }
    }
}

/// The packet types of the exmebus protocol, in wire order.
#[allow(non_camel_case_types)]
#[derive(Debug, Copy, Clone, PartialEq, Eq, PartialOrd, Ord)]
pub enum ExmebusMessageType {
    EMT_CAN_MESSAGE,
    EMT_CONTROL_PACKET,
    EMT_LOG_MESSAGE,
    EMT_ALARM_MESSAGE,
    EMT_SYSTEM_COMMAND,
    EMT_RESOURCE_MESSAGE,
    EMT_AUTHENTICATION,
    EMT_HEARTBEAT,
    EMT_IO_MESSAGE,
    EMT_SYNC_MESSAGE,
    EMT_REMOTE_CONTROL,
    EMT_GUI_STATUS,
    EMT_LOGICAL_IO_SIGNAL_PROPERTY,
    EMT_IOMUX_IDENTIFICATION,
    EMT_FILTER_MESSAGE,
    EMT_MODULE_INFO_MESSAGE,
    EMT_FILE_TRANSFER_MESSAGE,
    EMT_DATA_SIGNAL_MESSAGE,
    EMT_DATA_COLLECTION_TABLE_MESSAGE,
    EMT_DATA_SIGNAL_DEFINITION_MESSAGE,
    EMT_OWN_DATA_SIGNAL_MESSAGE,
    EMT_TIMESTAMP,
    EMT_SIGNED_MESSAGE,
    EMT_TOTAL,
}

impl ExmebusMessageType {
    /// The numeric packet type tag on the wire.
    pub open spec fn spec_tag(self) -> u16 {
        match self {
            ExmebusMessageType::EMT_CAN_MESSAGE => 0,
            ExmebusMessageType::EMT_CONTROL_PACKET => 1,
            ExmebusMessageType::EMT_LOG_MESSAGE => 2,
            ExmebusMessageType::EMT_ALARM_MESSAGE => 3,
            ExmebusMessageType::EMT_SYSTEM_COMMAND => 4,
            ExmebusMessageType::EMT_RESOURCE_MESSAGE => 5,
            ExmebusMessageType::EMT_AUTHENTICATION => 6,
            ExmebusMessageType::EMT_HEARTBEAT => 7,
            ExmebusMessageType::EMT_IO_MESSAGE => 8,
            ExmebusMessageType::EMT_SYNC_MESSAGE => 9,
            ExmebusMessageType::EMT_REMOTE_CONTROL => 10,
            ExmebusMessageType::EMT_GUI_STATUS => 11,
            ExmebusMessageType::EMT_LOGICAL_IO_SIGNAL_PROPERTY => 12,
            ExmebusMessageType::EMT_IOMUX_IDENTIFICATION => 13,
            ExmebusMessageType::EMT_FILTER_MESSAGE => 14,
            ExmebusMessageType::EMT_MODULE_INFO_MESSAGE => 15,
            ExmebusMessageType::EMT_FILE_TRANSFER_MESSAGE => 16,
            ExmebusMessageType::EMT_DATA_SIGNAL_MESSAGE => 17,
            ExmebusMessageType::EMT_DATA_COLLECTION_TABLE_MESSAGE => 18,
            ExmebusMessageType::EMT_DATA_SIGNAL_DEFINITION_MESSAGE => 19,
            ExmebusMessageType::EMT_OWN_DATA_SIGNAL_MESSAGE => 20,
            ExmebusMessageType::EMT_TIMESTAMP => 21,
            ExmebusMessageType::EMT_SIGNED_MESSAGE => 22,
            ExmebusMessageType::EMT_TOTAL => 23,
        }
    }

    pub fn tag(self) -> (r: u16)
        ensures
            r == self.spec_tag(),
    {
        match self {
            ExmebusMessageType::EMT_CAN_MESSAGE => 0,
            ExmebusMessageType::EMT_CONTROL_PACKET => 1,
            ExmebusMessageType::EMT_LOG_MESSAGE => 2,
            ExmebusMessageType::EMT_ALARM_MESSAGE => 3,
            ExmebusMessageType::EMT_SYSTEM_COMMAND => 4,
            ExmebusMessageType::EMT_RESOURCE_MESSAGE => 5,
            ExmebusMessageType::EMT_AUTHENTICATION => 6,
            ExmebusMessageType::EMT_HEARTBEAT => 7,
            ExmebusMessageType::EMT_IO_MESSAGE => 8,
            ExmebusMessageType::EMT_SYNC_MESSAGE => 9,
            ExmebusMessageType::EMT_REMOTE_CONTROL => 10,
            ExmebusMessageType::EMT_GUI_STATUS => 11,
            ExmebusMessageType::EMT_LOGICAL_IO_SIGNAL_PROPERTY => 12,
            ExmebusMessageType::EMT_IOMUX_IDENTIFICATION => 13,
            ExmebusMessageType::EMT_FILTER_MESSAGE => 14,
            ExmebusMessageType::EMT_MODULE_INFO_MESSAGE => 15,
            ExmebusMessageType::EMT_FILE_TRANSFER_MESSAGE => 16,
            ExmebusMessageType::EMT_DATA_SIGNAL_MESSAGE => 17,
            ExmebusMessageType::EMT_DATA_COLLECTION_TABLE_MESSAGE => 18,
            ExmebusMessageType::EMT_DATA_SIGNAL_DEFINITION_MESSAGE => 19,
            ExmebusMessageType::EMT_OWN_DATA_SIGNAL_MESSAGE => 20,
            ExmebusMessageType::EMT_TIMESTAMP => 21,
            ExmebusMessageType::EMT_SIGNED_MESSAGE => 22,
            ExmebusMessageType::EMT_TOTAL => 23,
        }
    }
}

/// Defines the group where the sent data should go into.
#[allow(non_camel_case_types)]
#[derive(Debug, Copy, Clone, PartialEq, Eq, PartialOrd, Ord)]
pub enum DataSignalGroups {
    /// Signal metadata sent by the redi server.
    DSG_INFO,
    /// Common for all projects, defined in the model database.
    DSG_COMMON,
    /// J1939 SPNs.
    DSG_SPN,
    /// Global metadata sent from the modules.
    DSG_SYSTEM_INFO,
    /// Company-specific signals, defined on the machine.
    DSG_APPLICATION_VERSION,
    /// Product-specific signals, defined in the project database.
    DSG_USER,
}

impl DataSignalGroups {
    /// The numeric group code on the wire; the user group sits apart from
    /// the dense range.
    pub open spec fn spec_code(self) -> u16 {
        match self {
            DataSignalGroups::DSG_INFO => 0,
            DataSignalGroups::DSG_COMMON => 1,
            DataSignalGroups::DSG_SPN => 2,
            DataSignalGroups::DSG_SYSTEM_INFO => 3,
            DataSignalGroups::DSG_APPLICATION_VERSION => 4,
            DataSignalGroups::DSG_USER => 100,
        }
    }

    pub fn code(self) -> (r: u16)
        ensures
            r == self.spec_code(),
    {
        match self {
            DataSignalGroups::DSG_INFO => 0,
            DataSignalGroups::DSG_COMMON => 1,
            DataSignalGroups::DSG_SPN => 2,
            DataSignalGroups::DSG_SYSTEM_INFO => 3,
            DataSignalGroups::DSG_APPLICATION_VERSION => 4,
            DataSignalGroups::DSG_USER => 100,
        }
    }
}

/// Defines the signal sample type.
#[allow(non_camel_case_types)]
#[derive(Debug, Copy, Clone, PartialEq, Eq, PartialOrd, Ord)]
pub enum SignalSampleType {
    /// Latest value of the signal.
    SST_CURRENTVALUE,
    /// Average value of the samples in the current time window.
    SST_AVERAGE,
    /// Smallest value in the current time window.
    SST_MINIMUM,
    /// Biggest value in the current time window.
    SST_MAXIMUM,
    /// How many times the value has changed during the current time window.
    SST_CHANGE_COUNT,
    /// How many times the value went from zero to nonzero in the window.
    SST_ENABLE_COUNT,
    /// How many times the value went from nonzero to zero in the window.
    SST_DISABLE_COUNT,
    /// How many valid samples were received in the window.
    SST_VALID_SAMPLE_COUNT,
}

impl SignalSampleType {
    /// The numeric sample type code on the wire.
    pub open spec fn spec_code(self) -> u8 {
        match self {
            SignalSampleType::SST_CURRENTVALUE => 0,
            SignalSampleType::SST_AVERAGE => 1,
            SignalSampleType::SST_MINIMUM => 2,
            SignalSampleType::SST_MAXIMUM => 3,
            SignalSampleType::SST_CHANGE_COUNT => 4,
            SignalSampleType::SST_ENABLE_COUNT => 5,
            SignalSampleType::SST_DISABLE_COUNT => 6,
            SignalSampleType::SST_VALID_SAMPLE_COUNT => 7,
        }
    }

    pub fn code(self) -> (r: u8)
        ensures
            r == self.spec_code(),
    {
        match self {
            SignalSampleType::SST_CURRENTVALUE => 0,
            SignalSampleType::SST_AVERAGE => 1,
            SignalSampleType::SST_MINIMUM => 2,
            SignalSampleType::SST_MAXIMUM => 3,
            SignalSampleType::SST_CHANGE_COUNT => 4,
            SignalSampleType::SST_ENABLE_COUNT => 5,
            SignalSampleType::SST_DISABLE_COUNT => 6,
            SignalSampleType::SST_VALID_SAMPLE_COUNT => 7,
        }
    }
}

/// The fixed-layout record for one data signal sample, with every field
/// in the open; the timestamp counts milliseconds since the protocol's
/// fixed epoch.
#[derive(Debug, Clone)]
pub struct OwnDataSignalPacket {
    pub packet_length: u16,
    pub packet_id: u16,
    pub sample_packet_length: u16,
    pub signal_sample_type: u8,
    pub signal_view_type: u8,
    pub signal_number: u16,
    pub signal_group: u16,
    pub milliseconds: i64,
    pub data: Vec<u8>,
}

impl Default for OwnDataSignalPacket {
    /// A fresh record: zero lengths, the own-data-signal packet type, the
    /// current-value sample type and the user group.
    fn default() -> (r: OwnDataSignalPacket)
        ensures
            r.packet_length == 0,
            r.packet_id == 21,
            r.sample_packet_length == 0,
            r.signal_sample_type == SignalSampleType::SST_CURRENTVALUE.spec_code(),
            r.signal_view_type == 0,
            r.signal_number == 0,
            r.signal_group == DataSignalGroups::DSG_USER.spec_code(),
            r.milliseconds == 0,
            r.data@ == Seq::<u8>::empty(),
    {
        OwnDataSignalPacket {
            packet_length: 0,
            packet_id: 21,
            sample_packet_length: 0,
            signal_sample_type: 0,
            signal_view_type: 0,
            signal_number: 0,
            signal_group: 100,
            milliseconds: 0,
            data: Vec::new(),
        }
    }
}

/// The header every resource packet starts with; the command data region
/// is a raw byte run that the commands overlay with their own layouts.
#[allow(non_camel_case_types)]
pub struct ResourcePacketHeader {
    pub packet_length: u16,
    pub packet_id: u16,
    pub source_server_uuid: [i8; 16],
    pub source_client_id: i32,
    pub source_resource_id: i32,
    pub source_resource_type: i32,
    pub reserved: i32,
    pub destination_server_uuid: [i8; 16],
    pub destination_client_id: i32,
    pub destination_resource_id: i32,
    pub destination_resource_type: i32,
    pub reserved2: i32,
    pub command: i32,
    pub command_data: [u8; MAX_EXMEBUS_PKG_SIZE],
}

} // verus!
