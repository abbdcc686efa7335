use rfnm::convert_discovered;
use rfnm::hwinfo::{BoardInfo, HwInfo, RawBoardInfo, RawClockInfo, RawHwInfo};

fn raw_board(id: u8, name: &[u8]) -> RawBoardInfo {
    let mut name_buf = [0u8; 64];
    name_buf[..name.len()].copy_from_slice(name);
    RawBoardInfo {
        board_id: id,
        board_revision_id: 2,
        serial_number: [9, 8, 7, 6, 5, 4, 3, 2, 1],
        user_readable_name: name_buf,
        mac_addr: [0xaa, 0xbb, 0xcc, 0xdd, 0xee, 0xff],
        rx_ch_cnt: 4,
        tx_ch_cnt: 1,
    }
}

fn raw_hw(db0_id: u8, db1_id: u8) -> RawHwInfo {
    RawHwInfo {
        protocol_version: 1,
        motherboard: raw_board(3, b"RFNM motherboard"),
        daughterboard: [raw_board(db0_id, b"granita"), raw_board(db1_id, b"lime")],
        clock: RawClockInfo { dcs_clk: 122_880_000 },
    }
}

#[test]
fn board_conversion_carries_identity_over() {
    let b = BoardInfo::from_raw(&raw_board(3, b"RFNM motherboard"));
    assert_eq!(b.id, 3);
    assert_eq!(b.revision, 2);
    assert_eq!(b.serial, [9, 8, 7, 6, 5, 4, 3, 2, 1]);
    assert_eq!(b.name, "RFNM motherboard");
    assert_eq!(b.mac_addr, Some([0xaa, 0xbb, 0xcc, 0xdd, 0xee, 0xff]));
    assert_eq!(b.channel_counts.rx, 4);
    assert_eq!(b.channel_counts.tx, 1);
}

#[test]
fn board_name_stops_at_first_zero_byte() {
    let mut raw = raw_board(1, b"short");
    raw.user_readable_name[6] = b'x';
    let b = BoardInfo::from_raw(&raw);
    assert_eq!(b.name, "short");
}

#[test]
fn zero_board_id_means_no_daughterboard() {
    let h = HwInfo::from_raw(&raw_hw(0, 5));
    assert!(h.daughterboards[0].is_none());
    let db1 = h.daughterboards[1].as_ref().expect("second slot populated");
    assert_eq!(db1.id, 5);
    assert_eq!(db1.name, "lime");
    assert_eq!(h.protocol_version, 1);
    assert_eq!(h.clock_info.dcs_clk, 122_880_000);
    assert_eq!(h.motherboard.name, "RFNM motherboard");
}

#[test]
fn discovery_converts_only_the_populated_count() {
    let raws = vec![raw_hw(1, 0), raw_hw(2, 0), raw_hw(3, 0)];
    let converted = convert_discovered(&raws, 1);
    assert_eq!(converted.len(), 1);
    assert_eq!(converted[0].daughterboards[0].as_ref().unwrap().id, 1);
}

#[test]
fn discovery_never_reads_past_the_records_it_has() {
    let raws = vec![raw_hw(1, 0), raw_hw(2, 0)];
    let converted = convert_discovered(&raws, 5);
    assert_eq!(converted.len(), 2);
}

#[test]
fn discovery_of_nothing_is_empty() {
    let raws: Vec<RawHwInfo> = Vec::new();
    assert!(convert_discovered(&raws, 0).is_empty());
    let one = vec![raw_hw(1, 0)];
    assert!(convert_discovered(&one, 0).is_empty());
}
