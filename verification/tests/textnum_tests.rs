use bindump::textnum::{push_dec_u64, push_hex_u32_pad8, push_hex_u64};

#[test]
fn hex_rendering() {
    let mut s = String::new();
    push_hex_u64(&mut s, 0);
    assert_eq!(s, "0");
    let mut s = String::new();
    push_hex_u64(&mut s, 255);
    assert_eq!(s, "ff");
    let mut s = String::new();
    push_hex_u64(&mut s, 0xdead_beef_0123);
    assert_eq!(s, "deadbeef0123");
    let mut s = String::new();
    push_hex_u64(&mut s, u64::MAX);
    assert_eq!(s, "ffffffffffffffff");
}

#[test]
fn hex_padded_to_eight() {
    let mut s = String::new();
    push_hex_u32_pad8(&mut s, 0x1234);
    assert_eq!(s, "00001234");
    let mut s = String::new();
    push_hex_u32_pad8(&mut s, 0);
    assert_eq!(s, "00000000");
    let mut s = String::new();
    push_hex_u32_pad8(&mut s, 0xdeadbeef);
    assert_eq!(s, "deadbeef");
}

#[test]
fn dec_rendering() {
    let mut s = String::new();
    push_dec_u64(&mut s, 0);
    assert_eq!(s, "0");
    let mut s = String::new();
    push_dec_u64(&mut s, 10);
    assert_eq!(s, "10");
    let mut s = String::new();
    push_dec_u64(&mut s, 90210);
    assert_eq!(s, "90210");
}
