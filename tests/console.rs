use htif::controller::{Access, Fault, FromHost, ToHost, HTIF, PACING_LOADS};
use htif::protocol::{decode_char, encode_read_char, encode_write_char};

fn stores(h: &HTIF) -> Vec<u64> {
    h.accesses()
        .iter()
        .filter_map(|a| match a {
            Access::StoreToHost(w) => Some(*w),
            _ => None,
        })
        .collect()
}

fn request(word: u64) -> Vec<Access> {
    let mut v = vec![Access::StoreToHost(word)];
    for _ in 0..PACING_LOADS {
        v.push(Access::LoadToHost);
    }
    v
}

#[test]
fn it_works() {
    assert_eq!(2 + 2, 4);
}

#[test]
fn create_succeeds_and_spans_sixteen_bytes() {
    let h = HTIF::new().unwrap();
    assert_eq!(h.size(), 16);
    assert!(h.accesses().is_empty());
    assert_eq!(h.peek_to_host(), 0);
    assert_eq!(h.peek_from_host(), 0);
}

#[test]
fn send_byte_stores_one_request() {
    let mut h = HTIF::new().unwrap();
    assert_eq!(h.send_byte(0x41), Ok(()));
    assert_eq!(stores(&h), vec![0x0101000000000041]);
    assert_eq!(h.accesses(), &request(0x0101000000000041));
    assert_eq!(h.peek_to_host(), 0x0101000000000041);
}

#[test]
fn read_byte_requests_then_loads_response() {
    let mut h = HTIF::with_registers(ToHost::holding(0), FromHost::holding(0x0000000000000058));
    assert_eq!(h.read_byte(), Ok(0x58));
    let mut expected = request(0x0100000000000000);
    expected.push(Access::LoadFromHost(0x58));
    assert_eq!(h.accesses(), &expected);
    assert_eq!(h.peek_to_host(), 0x0100000000000000);
}

#[test]
fn send_byte_keeps_all_low_bits() {
    let mut h = HTIF::new().unwrap();
    assert_eq!(h.send_byte(0xFF), Ok(()));
    assert_eq!(stores(&h), vec![0x01010000000000FF]);
}

#[test]
fn send_byte_encodes_every_byte() {
    for b in 0..=255u8 {
        let mut h = HTIF::new().unwrap();
        assert_eq!(h.send_byte(b), Ok(()));
        assert_eq!(stores(&h), vec![(1u64 << 56) | (1u64 << 48) | b as u64]);
    }
}

#[test]
fn read_byte_ignores_high_bits() {
    let mut h = HTIF::with_registers(ToHost::holding(7), FromHost::holding(0xABCD_EF12_3456_7858));
    assert_eq!(h.read_byte(), Ok(0x58));
    assert_eq!(h.accesses().last(), Some(&Access::LoadFromHost(0xABCD_EF12_3456_7858)));
}

#[test]
fn successive_calls_are_independent() {
    let mut h = HTIF::with_registers(ToHost::holding(0), FromHost::holding(0x61));
    assert_eq!(h.send_byte(0x41), Ok(()));
    assert_eq!(h.read_byte(), Ok(0x61));
    h.host_reply(0x162);
    assert_eq!(h.read_byte(), Ok(0x62));
    assert_eq!(h.send_byte(0x41), Ok(()));
    let mut expected = request(0x0101000000000041);
    expected.extend(request(0x0100000000000000));
    expected.push(Access::LoadFromHost(0x61));
    expected.extend(request(0x0100000000000000));
    expected.push(Access::LoadFromHost(0x162));
    expected.extend(request(0x0101000000000041));
    assert_eq!(h.accesses(), &expected);
    assert_eq!(h.peek_from_host(), 0x162);
}

#[test]
fn request_words_and_response_decoding() {
    assert_eq!(encode_write_char(0), 0x0101000000000000);
    assert_eq!(encode_write_char(0x0A), 0x010100000000000A);
    assert_eq!(encode_read_char(), 0x0100000000000000);
    assert_eq!(decode_char(0xFFFF_FFFF_FFFF_FF00), 0);
    assert_eq!(decode_char(u64::MAX), 0xFF);
}

#[test]
fn fault_has_one_kind() {
    assert_eq!(Fault::Success, Fault::Success);
}
