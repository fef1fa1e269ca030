use udperf::cmsg::build_gso_cmsg;
use udperf::cmsg::parse_gro_size;

fn gro_record(value: u32, data_len: u64) -> Vec<u8> {
    let mut record = Vec::new();
    record.extend_from_slice(&(16 + data_len).to_le_bytes()); // cmsg length
    record.extend_from_slice(&17u32.to_le_bytes()); // level SOL_UDP
    record.extend_from_slice(&104u32.to_le_bytes()); // type UDP_GRO
    record.extend_from_slice(&value.to_le_bytes());
    while record.len() % 8 != 0 {
        record.push(0);
    }
    record
}

#[test]
fn build_gso_cmsg_exact_bytes() {
    let record = build_gso_cmsg(1472);
    assert_eq!(record.len(), 24);
    assert_eq!(&record[0..8], &18u64.to_le_bytes()); // 16-byte header + 2 data bytes
    assert_eq!(&record[8..12], &17u32.to_le_bytes());
    assert_eq!(&record[12..16], &103u32.to_le_bytes());
    assert_eq!(&record[16..18], &1472u16.to_le_bytes());
    assert_eq!(&record[18..24], &[0u8; 6]);
}

#[test]
fn parse_gro_size_finds_the_record() {
    let control = gro_record(1472, 4);
    assert_eq!(parse_gro_size(&control), Some(1472));
}

#[test]
fn parse_gro_size_walks_past_other_records() {
    // a first record of another level and type, 8 data bytes
    let mut control = Vec::new();
    control.extend_from_slice(&24u64.to_le_bytes());
    control.extend_from_slice(&0u32.to_le_bytes());
    control.extend_from_slice(&1u32.to_le_bytes());
    control.extend_from_slice(&[0u8; 8]);
    control.extend_from_slice(&gro_record(65507, 4));
    assert_eq!(parse_gro_size(&control), Some(65507));
}

#[test]
fn parse_gro_size_reports_nothing_without_the_record() {
    assert_eq!(parse_gro_size(&[]), None);
    // only a foreign record
    let mut control = Vec::new();
    control.extend_from_slice(&16u64.to_le_bytes());
    control.extend_from_slice(&0u32.to_le_bytes());
    control.extend_from_slice(&1u32.to_le_bytes());
    assert_eq!(parse_gro_size(&control), None);
}

#[test]
fn parse_gro_size_rejects_malformed_records() {
    // a record length below the header size stops the walk
    let mut control = Vec::new();
    control.extend_from_slice(&8u64.to_le_bytes());
    control.extend_from_slice(&17u32.to_le_bytes());
    control.extend_from_slice(&104u32.to_le_bytes());
    assert_eq!(parse_gro_size(&control), None);
    // a GRO record whose data is cut off
    let mut cut = gro_record(1472, 4);
    cut.truncate(18);
    assert_eq!(parse_gro_size(&cut), None);
}

#[test]
fn gso_record_is_not_mistaken_for_gro() {
    let record = build_gso_cmsg(1472);
    assert_eq!(parse_gro_size(&record), None);
}
