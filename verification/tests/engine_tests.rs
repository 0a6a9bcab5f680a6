use bindump::engine::{dump_object, print};

/// Builds one ar member header: name, then fixed-width numeric fields.
fn ar_header(name: &str, size: usize) -> Vec<u8> {
    let mut h = Vec::new();
    h.extend_from_slice(format!("{:<16}", name).as_bytes());
    h.extend_from_slice(format!("{:<12}", 0).as_bytes());
    h.extend_from_slice(format!("{:<6}", 0).as_bytes());
    h.extend_from_slice(format!("{:<6}", 0).as_bytes());
    h.extend_from_slice(format!("{:<8}", 644).as_bytes());
    h.extend_from_slice(format!("{:<10}", size).as_bytes());
    h.extend_from_slice(b"`\n");
    h
}

/// A two-member GNU-style archive holding the given member payloads.
fn two_member_archive(a: &[u8], b: &[u8]) -> Vec<u8> {
    let mut ar = Vec::new();
    ar.extend_from_slice(b"!<arch>\n");
    ar.extend_from_slice(&ar_header("a.o/", a.len()));
    ar.extend_from_slice(a);
    if a.len() % 2 == 1 {
        ar.push(b'\n');
    }
    ar.extend_from_slice(&ar_header("b.o/", b.len()));
    ar.extend_from_slice(b);
    if b.len() % 2 == 1 {
        ar.push(b'\n');
    }
    ar
}

/// A COFF short-import payload: x86-64, ordinal 7, code import.
fn short_import_bytes() -> Vec<u8> {
    let mut v = Vec::new();
    v.extend_from_slice(&[0x00, 0x00, 0xff, 0xff]); // sig1, sig2
    v.extend_from_slice(&[0x00, 0x00]); // version
    v.extend_from_slice(&[0x64, 0x86]); // machine: x86-64
    v.extend_from_slice(&[0x00, 0x00, 0x00, 0x00]); // time
    v.extend_from_slice(&[0x08, 0x00, 0x00, 0x00]); // string size
    v.extend_from_slice(&[0x07, 0x00]); // ordinal
    v.extend_from_slice(&[0x00, 0x00]); // flags: ordinal, code
    v.extend_from_slice(b"sym\0dll\0");
    v
}

/// A 32-bit fat binary with one in-range slice (of unparsable bytes) and
/// one slice whose byte range lies outside the file.
fn fat32_one_bad_slice() -> Vec<u8> {
    let mut v = Vec::new();
    v.extend_from_slice(&0xcafebabeu32.to_be_bytes());
    v.extend_from_slice(&2u32.to_be_bytes()); // two slices
    // cputype 7 (x86), subtype 3, offset 48, size 4, align 2
    v.extend_from_slice(&7u32.to_be_bytes());
    v.extend_from_slice(&3u32.to_be_bytes());
    v.extend_from_slice(&48u32.to_be_bytes());
    v.extend_from_slice(&4u32.to_be_bytes());
    v.extend_from_slice(&2u32.to_be_bytes());
    // cputype 0x0100000c (arm64), subtype 0, offset far out of range
    v.extend_from_slice(&0x0100000cu32.to_be_bytes());
    v.extend_from_slice(&0u32.to_be_bytes());
    v.extend_from_slice(&0x10000u32.to_be_bytes());
    v.extend_from_slice(&16u32.to_be_bytes());
    v.extend_from_slice(&2u32.to_be_bytes());
    v.extend_from_slice(&[1, 2, 3, 4]); // slice one's bytes
    v
}

#[test]
fn fallback_plain_object_on_garbage() {
    let data = b"this is not a binary at all";
    let extras: Vec<Vec<u8>> = Vec::new();
    let (out, diag) = print(data, &extras, Vec::new());
    let mut out2 = String::new();
    let mut diag2 = String::new();
    dump_object(data, &mut out2, &mut diag2);
    assert_eq!(out, out2);
    assert_eq!(diag, diag2);
    assert!(out.is_empty());
    assert!(diag.starts_with("Failed to parse file: "));
}

#[test]
fn same_input_twice_gives_identical_output() {
    let data = two_member_archive(b"1234", b"5678");
    let extras: Vec<Vec<u8>> = Vec::new();
    let names = vec![b"b.o".to_vec()];
    let (out1, diag1) = print(&data, &extras, names.clone());
    let (out2, diag2) = print(&data, &extras, names);
    assert_eq!(out1, out2);
    assert_eq!(diag1, diag2);
}

#[test]
fn archive_filter_selects_and_reports_missing() {
    let data = two_member_archive(b"1234", b"5678");
    let extras: Vec<Vec<u8>> = Vec::new();
    let names = vec![b"b.o".to_vec(), b"c.o".to_vec()];
    let (out, diag) = print(&data, &extras, names);
    assert!(out.starts_with("Format: Archive"));
    assert!(out.contains("\nb.o:\n"));
    assert!(!out.contains("\na.o:\n"));
    assert_eq!(diag.matches("Failed to find member 'c.o\n").count(), 1);
    assert!(!diag.contains("Failed to find member 'b.o"));
}

#[test]
fn archive_empty_filter_visits_every_member() {
    let data = two_member_archive(b"1234", b"5678");
    let extras: Vec<Vec<u8>> = Vec::new();
    let (out, diag) = print(&data, &extras, Vec::new());
    assert!(out.contains("\na.o:\n"));
    assert!(out.contains("\nb.o:\n"));
    assert!(!diag.contains("Failed to find member"));
}

#[test]
fn short_import_member_rendered_by_content() {
    // The member is stored under a name that looks like an ordinary object
    // file; its bytes alone decide the short-import rendering.
    let data = two_member_archive(&short_import_bytes(), b"5678");
    let extras: Vec<Vec<u8>> = Vec::new();
    let (out, _diag) = print(&data, &extras, vec![b"a.o".to_vec()]);
    assert!(out.contains("\na.o:\n"));
    assert!(out.contains("Format: Short Import File\n"));
    assert!(out.contains("Import: Ordinal(7)\n"));
}

#[test]
fn fat32_bad_slice_is_isolated() {
    let data = fat32_one_bad_slice();
    let extras: Vec<Vec<u8>> = Vec::new();
    let (out, diag) = print(&data, &extras, Vec::new());
    assert!(out.starts_with("Format: Mach-O Fat 32\n"));
    assert_eq!(out.matches("\nFat Arch: ").count(), 2);
    assert_eq!(diag.matches("Failed to parse Fat 32 data: ").count(), 1);
    // slice one's bytes are in range but not a parsable object
    assert_eq!(diag.matches("Failed to parse file: ").count(), 1);
}

#[test]
fn minimal_elf_report_header() {
    // A bare 64-byte little-endian ELF64 relocatable header.
    let mut elf = vec![0u8; 64];
    elf[0..4].copy_from_slice(&[0x7f, b'E', b'L', b'F']);
    elf[4] = 2; // 64-bit
    elf[5] = 1; // little-endian
    elf[6] = 1; // version
    elf[16] = 1; // e_type: relocatable
    elf[18] = 62; // e_machine: x86-64
    elf[20] = 1; // e_version
    elf[52] = 64; // e_ehsize
    let mut out = String::new();
    let mut diag = String::new();
    dump_object(&elf, &mut out, &mut diag);
    assert!(
        out.starts_with("Format: Elf Little-endian 64-bit\n"),
        "unexpected report start: {out}"
    );
    assert!(out.contains("Kind: Relocatable\n"));
    assert!(out.contains("\nSymbol map\n"));
    assert!(diag.is_empty());
}

#[test]
fn unparsable_short_import_is_diagnosed() {
    // Sniffs as a short import (the right magic) but is too short to parse.
    let mut stub = vec![0u8; 16];
    stub[2] = 0xff;
    stub[3] = 0xff;
    let data = two_member_archive(&stub, b"5678");
    let extras: Vec<Vec<u8>> = Vec::new();
    let (out, diag) = print(&data, &extras, vec![b"a.o".to_vec()]);
    assert!(out.contains("\na.o:\n"));
    assert!(!out.contains("Format: Short Import File"));
    assert_eq!(diag.matches("Failed to parse short import: ").count(), 1);
}

#[test]
fn fat64_slices_are_enumerated() {
    let mut v = Vec::new();
    v.extend_from_slice(&0xcafebabfu32.to_be_bytes());
    v.extend_from_slice(&1u32.to_be_bytes()); // one slice
    // cputype 0x0100000c (arm64), subtype 0, offset and size out of range
    v.extend_from_slice(&0x0100000cu32.to_be_bytes());
    v.extend_from_slice(&0u32.to_be_bytes());
    v.extend_from_slice(&0x10000u64.to_be_bytes());
    v.extend_from_slice(&16u64.to_be_bytes());
    v.extend_from_slice(&2u32.to_be_bytes());
    v.extend_from_slice(&0u32.to_be_bytes());
    let extras: Vec<Vec<u8>> = Vec::new();
    let (out, diag) = print(&v, &extras, Vec::new());
    assert!(out.starts_with("Format: Mach-O Fat 64\n"));
    assert_eq!(out.matches("\nFat Arch: ").count(), 1);
    assert_eq!(diag.matches("Failed to parse Fat 64 data: ").count(), 1);
}

#[test]
fn empty_input_falls_back_to_plain_object() {
    let extras: Vec<Vec<u8>> = Vec::new();
    let (out, diag) = print(b"", &extras, Vec::new());
    assert!(out.is_empty());
    assert!(diag.starts_with("Failed to parse file: "));
}
