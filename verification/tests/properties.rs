use dma_rs::decode_c_string;
use dma_rs::embedded::get_vmm_dll_path;
use dma_rs::scatter::read_captured;
use dma_rs::DmaError;
use dma_rs::FixedLayout;

#[test]
fn test_u8_round_trip() {
    let v: u8 = 0xA7;
    let bytes = <u8 as FixedLayout>::to_le_bytes(&v);
    assert_eq!(bytes, vec![0xA7]);
    assert_eq!(<u8 as FixedLayout>::from_le_bytes(&bytes), v);
}

#[test]
fn test_u16_round_trip() {
    let v: u16 = 0x1234;
    let bytes = <u16 as FixedLayout>::to_le_bytes(&v);
    assert_eq!(bytes, vec![0x34, 0x12]);
    assert_eq!(<u16 as FixedLayout>::from_le_bytes(&bytes), v);
}

#[test]
fn test_u32_round_trip() {
    let v: u32 = 0xDEAD_BEEF;
    let bytes = <u32 as FixedLayout>::to_le_bytes(&v);
    assert_eq!(bytes, vec![0xEF, 0xBE, 0xAD, 0xDE]);
    assert_eq!(<u32 as FixedLayout>::from_le_bytes(&bytes), v);
}

#[test]
fn test_u64_round_trip() {
    let v: u64 = 0x0102_0304_0506_0708;
    let bytes = <u64 as FixedLayout>::to_le_bytes(&v);
    assert_eq!(bytes, vec![0x08, 0x07, 0x06, 0x05, 0x04, 0x03, 0x02, 0x01]);
    assert_eq!(<u64 as FixedLayout>::from_le_bytes(&bytes), v);
}

#[test]
fn test_byte_sizes() {
    assert_eq!(<u8 as FixedLayout>::byte_size(), 1);
    assert_eq!(<u16 as FixedLayout>::byte_size(), 2);
    assert_eq!(<u32 as FixedLayout>::byte_size(), 4);
    assert_eq!(<u64 as FixedLayout>::byte_size(), 8);
}

#[test]
fn test_module_header_magic_value() {
    // The two header bytes of a well-formed executable image, "MZ", read
    // back as the low 16 bits of a little-endian u32.
    let header = [0x4D, 0x5A, 0x90, 0x00];
    let value = <u32 as FixedLayout>::from_le_bytes(&header);
    assert_eq!(value & 0xFFFF, 0x5A4D);
}

#[test]
fn test_decode_c_string_truncates_at_null() {
    let bytes = [b't', b'a', b'r', b'g', b'e', b't', 0, b'j', b'u', b'n', b'k'];
    let s = decode_c_string(&bytes).unwrap();
    assert_eq!(s, "target");
}

#[test]
fn test_decode_c_string_without_null() {
    let bytes = [b'a', b'b', b'c'];
    let s = decode_c_string(&bytes).unwrap();
    assert_eq!(s, "abc");
}

#[test]
fn test_decode_c_string_empty() {
    let bytes: [u8; 0] = [];
    assert_eq!(decode_c_string(&bytes).unwrap(), "");
}

#[test]
fn test_decode_c_string_leading_null() {
    let bytes = [0, b'x', b'y'];
    assert_eq!(decode_c_string(&bytes).unwrap(), "");
}

#[test]
fn test_decode_c_string_invalid_utf8() {
    let bytes = [0xFF, 0xFE, 0xFD];
    let e = decode_c_string(&bytes).unwrap_err();
    assert!(matches!(e, DmaError::DecodingError(_)));
}

#[test]
fn test_decode_c_string_invalid_bytes_after_null() {
    // Bytes past the first null are cut off before UTF-8 validation.
    let bytes = [b'o', b'k', 0, 0xFF];
    assert_eq!(decode_c_string(&bytes).unwrap(), "ok");
}

#[test]
fn test_get_vmm_dll_path() {
    assert_eq!(get_vmm_dll_path("/opt/backend"), "/opt/backend/vmm.dll");
    assert_eq!(get_vmm_dll_path("libs"), "libs/vmm.dll");
}

#[test]
fn test_error_messages() {
    assert_eq!(DmaError::InitFailed("a".to_string()).message(), "a");
    assert_eq!(DmaError::ProcessError("b".to_string()).message(), "b");
    assert_eq!(DmaError::MemoryError("c".to_string()).message(), "c");
    assert_eq!(DmaError::ModuleError("d".to_string()).message(), "d");
    assert_eq!(DmaError::DecodingError("e".to_string()).message(), "e");
}

#[test]
fn test_hex_rendering() {
    assert_eq!(dma_rs::text::hex_string(0), "0");
    assert_eq!(dma_rs::text::hex_string(0xF), "F");
    assert_eq!(dma_rs::text::hex_string(0x10), "10");
    assert_eq!(dma_rs::text::hex_string(0xDEAD_BEEF), "DEADBEEF");
    assert_eq!(dma_rs::text::hex_string(u64::MAX), "FFFFFFFFFFFFFFFF");
}

#[test]
fn test_dec_rendering() {
    assert_eq!(dma_rs::text::dec_string(0), "0");
    assert_eq!(dma_rs::text::dec_string(7), "7");
    assert_eq!(dma_rs::text::dec_string(1234), "1234");
    assert_eq!(dma_rs::text::dec_string(u64::MAX), "18446744073709551615");
}

#[test]
fn test_assemble_process_info_fixes_every_field() {
    let with_path = dma_rs::assemble_process_info(
        7,
        "svc".to_string(),
        1,
        Ok("C:/svc.exe".to_string()),
    );
    assert_eq!(with_path.pid, 7);
    assert_eq!(with_path.name, "svc");
    assert_eq!(with_path.ppid, 1);
    assert_eq!(with_path.path, "C:/svc.exe");
    let without_path = dma_rs::assemble_process_info(
        8,
        "bin".to_string(),
        7,
        Err("no path".to_string()),
    );
    assert_eq!(without_path.pid, 8);
    assert_eq!(without_path.path, "");
}

#[test]
fn test_modules_from_entries_copies_records() {
    let entries: Vec<(String, u64, u32, u64, String)> = vec![
        ("a.dll".to_string(), 0x1000, 0x2000, 0x1100, "C:/a.dll".to_string()),
        ("b.dll".to_string(), 0x9000, 0x400, 0x9010, "C:/b.dll".to_string()),
    ];
    let modules = dma_rs::modules_from_entries(&entries);
    assert_eq!(modules.len(), 2);
    assert_eq!(modules[0].name, "a.dll");
    assert_eq!(modules[0].base, 0x1000);
    assert_eq!(modules[0].size, 0x2000);
    assert_eq!(modules[0].entry, 0x1100);
    assert_eq!(modules[0].path, "C:/a.dll");
    assert_eq!(modules[1].name, "b.dll");
    assert_eq!(modules[1].base, 0x9000);
}

#[test]
fn test_retrieval_serves_captured_bytes() {
    let entries: Vec<(u64, Option<Vec<u8>>)> =
        vec![(0x1000, Some(vec![1, 2, 3, 4, 5, 6, 7, 8]))];
    assert_eq!(
        read_captured(&entries, 0x1000, 8).unwrap(),
        vec![1, 2, 3, 4, 5, 6, 7, 8]
    );
    // A shorter retrieval takes the leading bytes of the same capture.
    assert_eq!(read_captured(&entries, 0x1000, 4).unwrap(), vec![1, 2, 3, 4]);
}

#[test]
fn test_retrieval_unprepared_address_fails() {
    let entries: Vec<(u64, Option<Vec<u8>>)> = vec![(0x1000, Some(vec![0; 8]))];
    let e = read_captured(&entries, 0x2000, 8).unwrap_err();
    assert!(matches!(e, DmaError::MemoryError(_)));
}

#[test]
fn test_retrieval_oversized_request_fails() {
    let entries: Vec<(u64, Option<Vec<u8>>)> = vec![(0x1000, Some(vec![0; 8]))];
    assert!(read_captured(&entries, 0x1000, 9).is_err());
}

#[test]
fn test_retrieval_from_empty_capture_fails() {
    let entries: Vec<(u64, Option<Vec<u8>>)> = Vec::new();
    assert!(read_captured(&entries, 0x1000, 8).is_err());
}

#[test]
fn test_retrieval_idempotent() {
    // Retrieval never touches the device, so asking again returns the same
    // bytes.
    let entries: Vec<(u64, Option<Vec<u8>>)> =
        vec![(0x4000, Some(vec![9, 9, 2, 0, 0, 0, 0, 1])), (0x5000, None)];
    let first = read_captured(&entries, 0x4000, 8).unwrap();
    let second = read_captured(&entries, 0x4000, 8).unwrap();
    assert_eq!(first, second);
    assert!(read_captured(&entries, 0x5000, 8).is_err());
    assert!(read_captured(&entries, 0x5000, 8).is_err());
}

#[test]
fn test_retrieval_duplicate_addresses_serve_first_capture() {
    let entries: Vec<(u64, Option<Vec<u8>>)> =
        vec![(0x1000, Some(vec![1, 1, 1, 1])), (0x1000, Some(vec![2, 2, 2, 2]))];
    assert_eq!(read_captured(&entries, 0x1000, 4).unwrap(), vec![1, 1, 1, 1]);
}

#[test]
fn test_partial_failure_isolation() {
    // A batch of 1000 entries in which exactly one failed: retrieval fails
    // for that entry alone and serves the other 999.
    let mut entries: Vec<(u64, Option<Vec<u8>>)> = Vec::new();
    for i in 0..1000u64 {
        let address = 0x10000 + i * 0x1000;
        if i == 500 {
            entries.push((address, None));
        } else {
            entries.push((address, Some(vec![i as u8; 8])));
        }
    }
    let mut ok_count: u32 = 0;
    let mut err_count: u32 = 0;
    for i in 0..1000u64 {
        let address = 0x10000 + i * 0x1000;
        match read_captured(&entries, address, 8) {
            Ok(bytes) => {
                assert_eq!(bytes, vec![i as u8; 8]);
                ok_count += 1;
            }
            Err(e) => {
                assert!(matches!(e, DmaError::MemoryError(_)));
                assert_eq!(i, 500);
                err_count += 1;
            }
        }
    }
    assert_eq!(ok_count, 999);
    assert_eq!(err_count, 1);
}
