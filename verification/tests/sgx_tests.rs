use lcp::errors::TypeError;
use lcp::sgx::{
    count_tcs_entries, read_u16, read_u32, read_u64, EnclaveMetadata, Mrenclave, GROUP_FLAG, LAYOUT_ENTRY_SIZE,
    LAYOUT_ID_TCS_DYN, PAGE_ATTR_EADD, PAGE_ATTR_POST_ADD, SI_FLAGS_TCS, TCS_POLICY_BIND, TCS_POLICY_UNBIND,
};
use sgx_types::metadata::{LAYOUT_ID_TCS, LAYOUT_ID_THREAD_GROUP};

fn write_u16(output: &mut [u8], offset: usize, value: u16) {
    output[offset..offset + 2].copy_from_slice(&value.to_le_bytes());
}

fn write_u32(output: &mut [u8], offset: usize, value: u32) {
    output[offset..offset + 4].copy_from_slice(&value.to_le_bytes());
}

fn write_u64(output: &mut [u8], offset: usize, value: u64) {
    output[offset..offset + 8].copy_from_slice(&value.to_le_bytes());
}

fn write_tcs_entry(output: &mut [u8], index: usize) {
    let offset = index * LAYOUT_ENTRY_SIZE;
    write_u16(output, offset, LAYOUT_ID_TCS as u16);
    write_u16(output, offset + 2, PAGE_ATTR_EADD as u16);
    write_u32(output, offset + 20, 1);
    write_u64(output, offset + 24, SI_FLAGS_TCS);
}

fn write_thread_group(output: &mut [u8], index: usize, entry_count: u16, load_times: u32) {
    let offset = index * LAYOUT_ENTRY_SIZE;
    write_u16(output, offset, LAYOUT_ID_THREAD_GROUP as u16);
    write_u16(output, offset + 2, entry_count);
    write_u32(output, offset + 4, load_times);
}

/// Metadata whose raw bytes hold the layout table at a fixed offset.
fn metadata_with_layout(layout: &[u8]) -> EnclaveMetadata {
    let offset = 1000;
    let mut bytes = vec![0u8; offset + 4096];
    bytes[offset..offset + layout.len()].copy_from_slice(layout);
    EnclaveMetadata {
        bytes,
        layout_offset: offset as u32,
        layout_size: layout.len() as u32,
        tcs_policy: 0,
        enclave_hash: [0u8; 32],
    }
}

#[test]
fn tcs_num_counts_tcs_layout_entries() {
    let mut layout = [0u8; LAYOUT_ENTRY_SIZE * 2];
    write_tcs_entry(&mut layout, 0);
    write_tcs_entry(&mut layout, 1);

    assert_eq!(metadata_with_layout(&layout).tcs_num(), Some(2));
}

#[test]
fn tcs_num_counts_group_repetitions_like_sgx_runtime() {
    let mut layout = [0u8; LAYOUT_ENTRY_SIZE * 2];
    write_tcs_entry(&mut layout, 0);
    write_thread_group(&mut layout, 1, 1, 3);

    assert_eq!(metadata_with_layout(&layout).tcs_num(), Some(4));
}

#[test]
fn tcs_num_returns_none_when_layout_is_absent() {
    let metadata = EnclaveMetadata {
        bytes: vec![0u8; 4096],
        layout_offset: 0,
        layout_size: 0,
        tcs_policy: 0,
        enclave_hash: [0u8; 32],
    };
    assert_eq!(metadata.tcs_num(), None);
}

#[test]
fn tcs_num_handles_dynamic_tcs_and_bad_layouts() {
    let mut layout = [0u8; LAYOUT_ENTRY_SIZE * 3];
    write_u16(&mut layout, 0, LAYOUT_ID_TCS_DYN as u16);
    write_u16(&mut layout, 2, PAGE_ATTR_POST_ADD);
    write_tcs_entry(&mut layout, 1);
    // a group that claims more entries than precede it is ignored
    write_thread_group(&mut layout, 2, 5, 3);
    assert_eq!(metadata_with_layout(&layout).tcs_num(), Some(2));
    assert_eq!(count_tcs_entries(&layout, 1, 2), 1);

    // a layout past the end of the metadata
    let mut m = metadata_with_layout(&layout);
    m.layout_offset = u32::MAX;
    assert_eq!(m.tcs_num(), None);
    // a layout without TCS entries
    assert_eq!(metadata_with_layout(&[0u8; 64]).tcs_num(), None);
    // a layout shorter than one entry
    assert_eq!(metadata_with_layout(&[0u8; 16]).tcs_num(), None);
}

#[test]
fn group_counts_saturate() {
    let mut layout = [0u8; LAYOUT_ENTRY_SIZE * 3];
    write_tcs_entry(&mut layout, 0);
    write_thread_group(&mut layout, 1, 1, u32::MAX);
    write_thread_group(&mut layout, 2, 2, u32::MAX);
    assert_eq!(count_tcs_entries(&layout, 0, 3), usize::MAX);
}

#[test]
fn layout_constants_match_sgx_types() {
    assert_eq!(GROUP_FLAG, sgx_types::metadata::GROUP_FLAG);
    assert_eq!(LAYOUT_ID_TCS_DYN, sgx_types::metadata::LAYOUT_ID_TCS_DYN);
    assert_eq!(PAGE_ATTR_EADD, sgx_types::metadata::PAGE_ATTR_EADD);
    assert_eq!(PAGE_ATTR_POST_ADD, sgx_types::metadata::PAGE_ATTR_POST_ADD);
    assert_eq!(SI_FLAGS_TCS, sgx_types::metadata::SI_FLAGS_TCS);
    assert_eq!(TCS_POLICY_BIND, sgx_types::metadata::TCS_POLICY_BIND);
    assert_eq!(TCS_POLICY_UNBIND, sgx_types::metadata::TCS_POLICY_UNBIND);
}

#[test]
fn little_endian_reads() {
    let b = [1u8, 2, 3, 4, 5, 6, 7, 8, 9];
    assert_eq!(read_u16(&b, 0), Some(0x0201));
    assert_eq!(read_u32(&b, 1), Some(0x05040302));
    assert_eq!(read_u64(&b, 1), Some(0x0908070605040302));
    assert_eq!(read_u64(&b, 2), None);
    assert_eq!(read_u16(&b, usize::MAX), None);
}

#[test]
fn tcs_policy_flags() {
    let mut m = metadata_with_layout(&[]);
    m.tcs_policy = TCS_POLICY_UNBIND;
    assert!(m.tcs_policy_is_unbind());
    assert!(!m.tcs_policy_is_bind());
    m.tcs_policy = TCS_POLICY_BIND;
    assert!(m.tcs_policy_is_bind());
    m.enclave_hash = [7u8; 32];
    assert_eq!(m.mrenclave(), Mrenclave::new([7u8; 32]));
}

#[test]
fn mrenclave_hex_roundtrip() {
    let mut bytes = [0u8; 32];
    for (i, b) in bytes.iter_mut().enumerate() {
        *b = (i as u8) * 7;
    }
    let m = Mrenclave::new(bytes);
    let s = m.to_hex_string();
    assert_eq!(s, format!("0x{}", hex::encode(bytes)));
    assert_eq!(Mrenclave::from_hex_string(&s).unwrap(), m);
    assert_eq!(Mrenclave::from_hex_string(&s[2..]).unwrap(), m);
    assert_eq!(Mrenclave::from_hex_string(&s.to_uppercase()[2..]).unwrap(), m);
    assert!(matches!(Mrenclave::from_hex_string("0x12"), Err(TypeError::HexParseError)));
    assert!(Mrenclave::from_hex_string(&format!("0x{}", "g".repeat(64))).is_err());

    assert_eq!(Mrenclave::try_from_vec(bytes.to_vec()).unwrap(), m);
    match Mrenclave::try_from_vec(vec![1, 2, 3]) {
        Err(TypeError::MrenclaveBytesConversion { bz }) => assert_eq!(bz, vec![1, 2, 3]),
        _ => panic!("a short vector must be refused"),
    }
}
