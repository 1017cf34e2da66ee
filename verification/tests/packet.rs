use mania::packet::{
    PacketBuilder, PacketReader, PREFIX_LENGTH_ONLY, PREFIX_NONE, PREFIX_U16, PREFIX_U32,
    PREFIX_U8, PREFIX_WITH,
};

#[test]
fn builder_writes_big_endian_values() {
    let out = PacketBuilder::new()
        .u8(1)
        .u16(0x0203)
        .u32(0x0405_0607)
        .u64(0x0809_0a0b_0c0d_0e0f)
        .build();
    assert_eq!(out, (1u8..=0x0f).collect::<Vec<u8>>());
}

#[test]
fn builder_writes_signed_values_as_twos_complement() {
    let out = PacketBuilder::new().i8(-1).i16(-2).i32(-3).i64(1).build();
    assert_eq!(
        out,
        vec![0xff, 0xff, 0xfe, 0xff, 0xff, 0xff, 0xfd, 0, 0, 0, 0, 0, 0, 0, 1]
    );
}

#[test]
fn builder_writes_bytes_and_strings() {
    let out = PacketBuilder::new().bytes(&[9, 8]).string("ab").string("é").build();
    assert_eq!(out, vec![9, 8, 0x61, 0x62, 0xc3, 0xa9]);
}

#[test]
fn section_counts_its_length_field() {
    let out = PacketBuilder::new().u8(0xaa).section(|p| p.bytes(&[1, 2, 3])).build();
    assert_eq!(out, vec![0xaa, 0, 0, 0, 7, 1, 2, 3]);
}

#[test]
fn section_with_addition_zero_counts_content_only() {
    let out = PacketBuilder::new()
        .section_with_addition(0, |p| p.bytes(&[1, 2, 3]))
        .build();
    assert_eq!(out, vec![0, 0, 0, 3, 1, 2, 3]);
}

#[test]
fn empty_section_holds_four() {
    let out = PacketBuilder::new().section(|p| p).build();
    assert_eq!(out, vec![0, 0, 0, 4]);
}

#[test]
fn section_16_counts_its_length_field() {
    let out = PacketBuilder::new().section_16(|p| p.bytes(&[1, 2, 3])).build();
    assert_eq!(out, vec![0, 5, 1, 2, 3]);
    let out = PacketBuilder::new()
        .section_16_with_addition(0, |p| p.bytes(&[1, 2, 3]))
        .build();
    assert_eq!(out, vec![0, 3, 1, 2, 3]);
}

#[test]
fn write_with_length_by_prefix() {
    let f = |p: PacketBuilder| p.bytes(&[1, 2, 3]);
    let none = PacketBuilder::new().write_with_length(PREFIX_NONE, 0, f).build();
    assert_eq!(none, vec![1, 2, 3]);
    let u8_only = PacketBuilder::new()
        .write_with_length(PREFIX_U8 | PREFIX_LENGTH_ONLY, 0, f)
        .build();
    assert_eq!(u8_only, vec![3, 1, 2, 3]);
    let u16_with = PacketBuilder::new()
        .write_with_length(PREFIX_U16 | PREFIX_WITH, 1, f)
        .build();
    assert_eq!(u16_with, vec![0, 6, 1, 2, 3]);
    let u32_with = PacketBuilder::new()
        .write_with_length(PREFIX_U32 | PREFIX_WITH, 0, f)
        .build();
    assert_eq!(u32_with, vec![0, 0, 0, 7, 1, 2, 3]);
}

#[test]
fn write_with_length_truncates_to_the_field() {
    let content = vec![0u8; 300];
    let out = PacketBuilder::new()
        .write_with_length(PREFIX_U8, 0, |p| p.bytes(&content))
        .build();
    assert_eq!(out[0], (300 % 256) as u8);
    assert_eq!(out.len(), 301);
}

#[test]
fn packet_hands_the_builder_over() {
    let out = PacketBuilder::new().packet(|p| p.u8(7).u8(8)).build();
    assert_eq!(out, vec![7, 8]);
}

#[test]
fn section_of_equals_section() {
    let a = PacketBuilder::new().section_of(&[5, 6]).section_16_of(&[7]).build();
    let b = PacketBuilder::new()
        .section(|p| p.bytes(&[5, 6]))
        .section_16(|p| p.bytes(&[7]))
        .build();
    assert_eq!(a, b);
}

#[test]
fn reader_reads_back_what_builder_wrote() {
    let out = PacketBuilder::new()
        .u8(0x12)
        .u16(0xbeef)
        .u32(0xdead_beef)
        .u64(u64::MAX - 5)
        .i8(-7)
        .i16(-300)
        .i32(-70000)
        .i64(i64::MIN)
        .build();
    let mut r = PacketReader::new(out);
    assert_eq!(r.u8(), 0x12);
    assert_eq!(r.u16(), 0xbeef);
    assert_eq!(r.u32(), 0xdead_beef);
    assert_eq!(r.u64(), u64::MAX - 5);
    assert_eq!(r.i8(), -7);
    assert_eq!(r.i16(), -300);
    assert_eq!(r.i32(), -70000);
    assert_eq!(r.i64(), i64::MIN);
    assert_eq!(r.remaining(), 0);
}

#[test]
fn reader_reads_sections_back() {
    let out = PacketBuilder::new()
        .section(|p| p.string("hello"))
        .section_16(|p| p.bytes(&[1, 2]))
        .section_with_addition(0, |p| p.u8(3))
        .section_16_with_addition(0, |p| p.u8(4))
        .u8(9)
        .build();
    let mut r = PacketReader::new(out);
    assert_eq!(r.section().string(), "hello");
    assert_eq!(r.section_16().bytes(), vec![1, 2]);
    assert_eq!(r.section_with_addition(0).bytes(), vec![3]);
    assert_eq!(r.section_16_with_addition(0).bytes(), vec![4]);
    assert_eq!(r.bytes(), vec![9]);
    assert_eq!(r.remaining(), 0);
}

#[test]
fn reader_read_with_length() {
    let mut r = PacketReader::new(vec![0, 4, 7, 8, 9]);
    let mut sub = r.read_with_length(PREFIX_U16 | PREFIX_WITH);
    assert_eq!(sub.bytes(), vec![7, 8]);
    assert_eq!(r.bytes(), vec![9]);

    let mut r = PacketReader::new(vec![2, 7, 8, 9]);
    assert_eq!(r.read_with_length(PREFIX_U8).bytes(), vec![7, 8]);
    assert_eq!(r.remaining(), 1);

    let mut r = PacketReader::new(vec![7, 8]);
    assert_eq!(r.read_with_length(PREFIX_NONE).bytes(), Vec::<u8>::new());
    assert_eq!(r.remaining(), 2);
}

#[test]
fn reader_skip_and_read_packet() {
    let mut r = PacketReader::new(vec![1, 2, 3, 4, 5]);
    r.skip(2);
    let p = r.read_packet(2);
    assert_eq!(p.0, vec![3, 4]);
    assert_eq!(r.u8(), 5);
}

#[test]
fn reader_string_replaces_invalid_utf8() {
    let mut r = PacketReader::new(vec![0x61, 0xff, 0x62]);
    assert_eq!(r.string(), "a\u{fffd}b");
}

#[test]
fn length_prefixed_helpers() {
    let out = PacketBuilder::new()
        .bytes_with_length(&[1, 2])
        .string_with_length("xy")
        .tlv(0x106, |p| p.bytes(&[5]))
        .build();
    assert_eq!(out, vec![0, 2, 1, 2, 0, 2, 0x78, 0x79, 0x01, 0x06, 0, 1, 5]);
}

#[test]
fn builder_operations_only_append() {
    let start = PacketBuilder::new().u8(1).u16(2).build();
    let b = PacketBuilder::new().u8(1).u16(2);
    let out = b.section(|p| p.bytes(&[7, 7]).section_16(|q| q.u8(9))).u32(5).build();
    assert_eq!(&out[..start.len()], &start[..]);
    assert_eq!(out.len(), start.len() + 4 + 2 + 2 + 1 + 4);
}

#[test]
fn builder_operations_keep_earlier_bytes() {
    let start = PacketBuilder::new().u16(0xbeef).bytes(&[1, 2, 3]);
    let old = start.len();
    let before = PacketBuilder::new().u16(0xbeef).bytes(&[1, 2, 3]).build();
    let after = start
        .u8(9)
        .i32(-1)
        .string("x")
        .section(|p| p.u32(7))
        .section_16(|p| p.bytes(&[5]))
        .write_with_length(PREFIX_U8 | PREFIX_WITH, 0, |p| p.u8(1))
        .packet(|p| p.u64(3))
        .build();
    assert_eq!(old, before.len());
    assert!(after.starts_with(&before));
}
