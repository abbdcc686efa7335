use vstd::prelude::*;

use crate::text::{decode_lossy, lossy_utf8, nul_prefix, nul_prefix_spec};

verus! {

/// The plain fields of one board's native enumeration record.
#[derive(Debug, Clone, Copy)]
pub struct RawBoardInfo {
    pub board_id: u8,
    pub board_revision_id: u8,
    pub serial_number: [u8; 9],
    pub user_readable_name: [u8; 64],
    pub mac_addr: [u8; 6],
    pub rx_ch_cnt: u8,
    pub tx_ch_cnt: u8,
}

/// The plain fields of the clock part of a native enumeration record.
#[derive(Debug, Clone, Copy)]
pub struct RawClockInfo {
    pub dcs_clk: u64,
}

/// The plain fields of one device's native enumeration record.
#[derive(Debug, Clone, Copy)]
pub struct RawHwInfo {
    pub protocol_version: u32,
    pub motherboard: RawBoardInfo,
    pub daughterboard: [RawBoardInfo; 2],
    pub clock: RawClockInfo,
}

/// Identity of one board: ids, serial, decoded name, MAC address and channel counts.
#[derive(Debug, Clone)]
pub struct BoardInfo {
    pub id: u8,
    pub revision: u8,
    pub serial: [u8; 9],
    pub name: String,
    pub mac_addr: Option<[u8; 6]>,
    pub channel_counts: ChannelCounts,
}

/// The clock descriptor of a discovered device.
#[derive(Debug, Clone, Copy)]
pub struct ClockInfo {
    pub dcs_clk: u64,
}

/// Receive and transmit channel counts of one board.
#[derive(Debug, Clone, Copy)]
pub struct ChannelCounts {
    pub rx: u8,
    pub tx: u8,
}

/// Descriptor of one discovered device: protocol version, motherboard, up to
/// two daughterboards, and the clock.
#[derive(Debug, Clone)]
pub struct HwInfo {
    pub protocol_version: u32,
    pub motherboard: BoardInfo,
    pub daughterboards: [Option<BoardInfo>; 2],
    pub clock_info: ClockInfo,
}

/// `b` is the converted form of the native board record `raw`: fields are
/// carried over and the name is the zero-terminated text, decoded lossily.
pub open spec fn board_matches(b: BoardInfo, raw: RawBoardInfo) -> bool {
    &&& b.id == raw.board_id
    &&& b.revision == raw.board_revision_id
    &&& b.serial == raw.serial_number
    &&& b.name@ == lossy_utf8(nul_prefix_spec(raw.user_readable_name@))
    &&& b.mac_addr == Some(raw.mac_addr)
    &&& b.channel_counts.rx == raw.rx_ch_cnt
    &&& b.channel_counts.tx == raw.tx_ch_cnt
}

/// `h` is the converted form of the native device record `raw`; a
/// daughterboard slot whose board id is zero converts to no board.
pub open spec fn hw_matches(h: HwInfo, raw: RawHwInfo) -> bool {
    &&& h.protocol_version == raw.protocol_version
    &&& board_matches(h.motherboard, raw.motherboard)
    &&& forall|i: int|
        0 <= i < 2 ==> (if raw.daughterboard@[i].board_id == 0 {
            h.daughterboards@[i] is None
        } else {
            h.daughterboards@[i] matches Some(b) && board_matches(b, raw.daughterboard@[i])
        })
    &&& h.clock_info.dcs_clk == raw.clock.dcs_clk
}

impl BoardInfo {
    /// Convert one native board record into its identity record.
    pub fn from_raw(raw: &RawBoardInfo) -> (r: BoardInfo)
        ensures
            board_matches(r, *raw),
    {
        let prefix = nul_prefix(raw.user_readable_name.as_slice());
        let name = decode_lossy(prefix.as_slice());
        BoardInfo {
            id: raw.board_id,
            revision: raw.board_revision_id,
            serial: raw.serial_number,
            name,
            mac_addr: Some(raw.mac_addr),
            channel_counts: ChannelCounts { rx: raw.rx_ch_cnt, tx: raw.tx_ch_cnt },
        }
    }
}

impl HwInfo {
    /// Convert one native device record, dropping daughterboard slots whose
    /// board id is zero.
    pub fn from_raw(raw: &RawHwInfo) -> (r: HwInfo)
        ensures
            hw_matches(r, *raw),
    {
        let db0 = if raw.daughterboard[0].board_id == 0 {
            None
        } else {
            Some(BoardInfo::from_raw(&raw.daughterboard[0]))
        };
        let db1 = if raw.daughterboard[1].board_id == 0 {
            None
        } else {
            Some(BoardInfo::from_raw(&raw.daughterboard[1]))
        };
        HwInfo {
            protocol_version: raw.protocol_version,
            motherboard: BoardInfo::from_raw(&raw.motherboard),
            daughterboards: [db0, db1],
            clock_info: ClockInfo { dcs_clk: raw.clock.dcs_clk },
        }
    }
}

} // verus!
