use initrd_shim::device_path;
use initrd_shim::envelope::{initrd_location, extract_payload, ByteRange};
use initrd_shim::firmware::{Firmware, Handle};
use initrd_shim::loader::InitrdLoader;
use initrd_shim::status::{Error, LoadStatus};

/// The exact descriptor bytes from the external contract.
const DESCRIPTOR: [u8; 24] = [
    0x04, 0x03, 0x14, 0x00, 0x27, 0xe4, 0x68, 0x55, 0xfc, 0x68, 0x3d, 0x4f, 0xac, 0x74, 0xca,
    0x55, 0x52, 0x31, 0xcc, 0x68, 0x7f, 0xff, 0x04, 0x00,
];

/// Builds a minimal envelope: legacy header, `PE\0\0` signature, one
/// section-table entry carrying `name`, raw data at offset 0x80.
fn envelope_with(name: [u8; 8], payload: &[u8]) -> Vec<u8> {
    let mut v = vec![0u8; 0x40];
    v[0] = 0x4d; // 'M'
    v[1] = 0x5a; // 'Z'
    v[0x3c] = 0x40; // offset of the modern header
    v.extend_from_slice(&[0x50, 0x45, 0x00, 0x00]); // "PE\0\0"
    v.extend_from_slice(&0x8664u16.to_le_bytes()); // machine
    v.extend_from_slice(&1u16.to_le_bytes()); // one section
    v.extend_from_slice(&0u32.to_le_bytes()); // timestamp
    v.extend_from_slice(&0u32.to_le_bytes()); // symbol table
    v.extend_from_slice(&0u32.to_le_bytes()); // symbol count
    v.extend_from_slice(&0u16.to_le_bytes()); // optional header size
    v.extend_from_slice(&0u16.to_le_bytes()); // characteristics
    assert_eq!(v.len(), 0x58);
    v.extend_from_slice(&name);
    v.extend_from_slice(&(payload.len() as u32).to_le_bytes()); // virtual size
    v.extend_from_slice(&0u32.to_le_bytes()); // virtual address
    v.extend_from_slice(&(payload.len() as u32).to_le_bytes()); // raw data size
    v.extend_from_slice(&0x80u32.to_le_bytes()); // raw data offset
    v.extend_from_slice(&[0u8; 16]); // relocations, line numbers, flags
    assert_eq!(v.len(), 0x80);
    v.extend_from_slice(payload);
    v
}

fn hello_envelope() -> Vec<u8> {
    envelope_with(*b".initrd\0", b"hello\n")
}

#[test]
fn descriptor_is_exact_bytes() {
    assert_eq!(device_path::descriptor(), DESCRIPTOR.to_vec());
}

#[test]
fn locates_initrd_section() {
    let env = hello_envelope();
    let range = initrd_location(&env).unwrap();
    assert_eq!(range, ByteRange { start: 0x80, end: 0x86 });
    assert_eq!(&env[range.start..range.end], b"hello\n");
}

#[test]
fn rejects_short_buffer() {
    let env = vec![0x4d, 0x5a, 0x00];
    assert_eq!(initrd_location(&env), Err(Error::InvalidEnvelope));
}

#[test]
fn rejects_bad_magic() {
    let mut env = hello_envelope();
    env[0] = 0x00;
    assert_eq!(initrd_location(&env), Err(Error::InvalidEnvelope));
}

#[test]
fn rejects_bad_signature() {
    let mut env = hello_envelope();
    env[0x41] = 0x00;
    assert_eq!(initrd_location(&env), Err(Error::InvalidEnvelope));
}

#[test]
fn rejects_out_of_bounds_section() {
    let mut env = hello_envelope();
    // Declare a raw-data size far past the end of the buffer.
    let size_field = 0x58 + 16;
    env[size_field..size_field + 4].copy_from_slice(&0x1000u32.to_le_bytes());
    assert_eq!(initrd_location(&env), Err(Error::InvalidEnvelope));
}

#[test]
fn reports_missing_payload() {
    let env = envelope_with(*b".text\0\0\0", b"hello\n");
    assert_eq!(initrd_location(&env), Err(Error::PayloadMissing));
}

#[test]
fn extract_payload_compacts_in_place() {
    let mut data = hello_envelope();
    extract_payload(&mut data, ByteRange { start: 0x80, end: 0x86 });
    assert_eq!(data, b"hello\n".to_vec());
}

#[test]
fn matches_reference_pe_parser() {
    let env = hello_envelope();
    let pe = goblin::pe::PE::parse(&env).expect("reference parser accepts the envelope");
    let section = pe
        .sections
        .iter()
        .find(|s| s.name().unwrap() == ".initrd")
        .expect("reference parser sees the .initrd section");
    let start = section.pointer_to_raw_data as usize;
    let end = start + section.size_of_raw_data as usize;
    let range = initrd_location(&env).unwrap();
    assert_eq!((range.start, range.end), (start, end));
}

#[test]
fn create_serves_payload() {
    let mut fw = Firmware::new(true, false);
    let mut loader = InitrdLoader::new(&mut fw, Handle { id: 1 }, hello_envelope()).unwrap();
    assert!(loader.is_registered());
    assert_eq!(loader.handle(), Handle { id: 1 });
    assert!(fw.dp_installed);
    assert!(fw.lf_installed);
    assert_eq!(fw.dp_bytes, DESCRIPTOR.to_vec());
    assert_eq!(loader.payload_len(), 6);

    let mut size: usize = 6;
    let mut buffer = vec![0u8; 6];
    let st = loader.load_file(true, &mut size, &mut buffer);
    assert_eq!(st, LoadStatus::Success);
    assert_eq!(size, 6);
    assert_eq!(buffer, b"hello\n".to_vec());

    loader.uninstall(&mut fw).unwrap();
    loader.destroy();
}

#[test]
fn load_with_short_buffer() {
    let mut fw = Firmware::new(true, false);
    let mut loader = InitrdLoader::new(&mut fw, Handle { id: 2 }, hello_envelope()).unwrap();
    let mut size: usize = 3;
    let mut buffer = vec![7u8, 7, 7];
    let st = loader.load_file(true, &mut size, &mut buffer);
    assert_eq!(st, LoadStatus::BufferTooSmall);
    assert_eq!(size, 6);
    assert_eq!(buffer, vec![7u8, 7, 7]);
    loader.uninstall(&mut fw).unwrap();
    loader.destroy();
}

#[test]
fn load_with_null_buffer() {
    let mut fw = Firmware::new(true, false);
    let mut loader = InitrdLoader::new(&mut fw, Handle { id: 3 }, hello_envelope()).unwrap();
    let mut size: usize = 1000;
    let mut buffer: Vec<u8> = Vec::new();
    let st = loader.load_file(false, &mut size, &mut buffer);
    assert_eq!(st, LoadStatus::BufferTooSmall);
    assert_eq!(size, 6);
    assert!(buffer.is_empty());
    loader.uninstall(&mut fw).unwrap();
    loader.destroy();
}

#[test]
fn create_payload_missing_leaves_handle_clean() {
    let mut fw = Firmware::new(true, false);
    let env = envelope_with(*b".text\0\0\0", b"hello\n");
    let r = InitrdLoader::new(&mut fw, Handle { id: 4 }, env);
    assert_eq!(r.err(), Some(Error::PayloadMissing));
    assert!(!fw.dp_installed);
    assert!(!fw.lf_installed);
}

#[test]
fn create_invalid_envelope_leaves_handle_clean() {
    let mut fw = Firmware::new(true, false);
    let r = InitrdLoader::new(&mut fw, Handle { id: 5 }, vec![0u8; 4]);
    assert_eq!(r.err(), Some(Error::InvalidEnvelope));
    assert!(!fw.dp_installed);
    assert!(!fw.lf_installed);
}

#[test]
fn create_authentication_failure_leaves_no_trace() {
    let mut fw = Firmware::new(false, false);
    let r = InitrdLoader::new(&mut fw, Handle { id: 6 }, hello_envelope());
    assert_eq!(r.err(), Some(Error::AuthenticationFailed));
    assert!(!fw.dp_installed);
    assert!(!fw.lf_installed);
}

#[test]
fn create_resource_failure_leaves_no_trace() {
    let mut fw = Firmware::new(true, true);
    let r = InitrdLoader::new(&mut fw, Handle { id: 7 }, hello_envelope());
    assert_eq!(r.err(), Some(Error::FirmwareResource));
    assert!(!fw.dp_installed);
    assert!(!fw.lf_installed);
}

#[test]
fn create_uninstall_destroy_lifecycle() {
    let mut fw = Firmware::new(true, false);
    let mut loader = InitrdLoader::new(&mut fw, Handle { id: 8 }, hello_envelope()).unwrap();
    assert!(fw.dp_installed && fw.lf_installed);
    loader.uninstall(&mut fw).unwrap();
    assert!(!loader.is_registered());
    // create then uninstall is the identity on the handle's protocol set
    assert!(!fw.dp_installed);
    assert!(!fw.lf_installed);
    loader.destroy();
}

#[test]
fn round_trip_payload() {
    let env = hello_envelope();
    let range = initrd_location(&env).unwrap();
    let expected = env[range.start..range.end].to_vec();

    let mut fw = Firmware::new(true, false);
    let mut loader = InitrdLoader::new(&mut fw, Handle { id: 9 }, env).unwrap();
    let mut size: usize = loader.payload_len();
    let mut buffer = vec![0u8; size];
    assert_eq!(loader.load_file(true, &mut size, &mut buffer), LoadStatus::Success);
    assert_eq!(buffer, expected);
    loader.uninstall(&mut fw).unwrap();
    loader.destroy();
}

#[test]
fn empty_payload_round_trip() {
    let env = envelope_with(*b".initrd\0", b"");
    let mut fw = Firmware::new(true, false);
    let mut loader = InitrdLoader::new(&mut fw, Handle { id: 10 }, env).unwrap();
    assert_eq!(loader.payload_len(), 0);
    let mut size: usize = 0;
    let mut buffer: Vec<u8> = Vec::new();
    assert_eq!(loader.load_file(true, &mut size, &mut buffer), LoadStatus::Success);
    assert_eq!(size, 0);
    loader.uninstall(&mut fw).unwrap();
    loader.destroy();
}
