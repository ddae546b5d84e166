use fontations_bridge::table::copy_table_range;
use fontations_bridge::tag::tag_bytes;
use fontations_bridge::{make_font_ref, table_data};

const MAXP: u32 = 0x6D61_7870;
const GLYF: u32 = 0x676C_7966;
const NAME: u32 = 0x6E61_6D65;

#[test]
fn tag_bytes_are_big_endian() {
    assert_eq!(tag_bytes(GLYF), *b"glyf");
    assert_eq!(tag_bytes(0x4F53_2F32), *b"OS/2");
    assert_eq!(tag_bytes(0), [0, 0, 0, 0]);
    assert_eq!(tag_bytes(0x0102_03FF), [1, 2, 3, 255]);
    assert_eq!(tag_bytes(u32::MAX), [255, 255, 255, 255]);
}

#[test]
fn empty_destination_reports_table_length() {
    let handle = make_font_ref(font_test_data::SIMPLE_GLYF, 0);
    let mut empty: [u8; 0] = [];
    assert_eq!(table_data(&handle, MAXP, 0, &mut empty), 32);
    assert_eq!(table_data(&handle, GLYF, 0, &mut empty), 68);
    assert_eq!(table_data(&handle, GLYF, 60, &mut empty), 8);
    assert_eq!(table_data(&handle, GLYF, 68, &mut empty), 0);
    assert_eq!(table_data(&handle, GLYF, 69, &mut empty), 0);
    assert_eq!(table_data(&handle, GLYF, usize::MAX, &mut empty), 0);
}

#[test]
fn offset_at_table_length_reads_nothing() {
    let handle = make_font_ref(font_test_data::SIMPLE_GLYF, 0);
    let mut data = [0xAAu8; 16];
    assert_eq!(table_data(&handle, MAXP, 32, &mut data), 0);
    assert_eq!(data, [0xAAu8; 16]);
    assert_eq!(table_data(&handle, MAXP, 1000, &mut data), 0);
    assert_eq!(table_data(&handle, MAXP, usize::MAX, &mut data), 0);
    assert_eq!(data, [0xAAu8; 16]);
}

#[test]
fn full_read_reproduces_the_table() {
    let font = font_test_data::SIMPLE_GLYF;
    let handle = make_font_ref(font, 0);
    let mut data = vec![0u8; 68];
    assert_eq!(table_data(&handle, GLYF, 0, &mut data), 68);
    assert_eq!(&data[..], &font[388..388 + 68]);
    let mut data = vec![0u8; 32];
    assert_eq!(table_data(&handle, MAXP, 0, &mut data), 32);
    assert_eq!(&data[..], &font[180..180 + 32]);
}

#[test]
fn short_destination_truncates() {
    let font = font_test_data::SIMPLE_GLYF;
    let handle = make_font_ref(font, 0);
    let mut data = [0u8; 10];
    assert_eq!(table_data(&handle, GLYF, 0, &mut data), 10);
    assert_eq!(&data[..], &font[388..398]);
    assert_eq!(table_data(&handle, GLYF, 20, &mut data), 10);
    assert_eq!(&data[..], &font[408..418]);
    let mut one = [0u8; 1];
    assert_eq!(table_data(&handle, GLYF, 67, &mut one), 1);
    assert_eq!(one[0], font[388 + 67]);
}

#[test]
fn long_destination_keeps_its_tail() {
    let font = font_test_data::SIMPLE_GLYF;
    let handle = make_font_ref(font, 0);
    let mut data = [0x55u8; 40];
    assert_eq!(table_data(&handle, MAXP, 0, &mut data), 32);
    assert_eq!(&data[..32], &font[180..212]);
    assert_eq!(&data[32..], &[0x55u8; 8]);
    let mut data = [0x55u8; 40];
    assert_eq!(table_data(&handle, MAXP, 30, &mut data), 2);
    assert_eq!(&data[..2], &font[210..212]);
    assert_eq!(&data[2..], &[0x55u8; 38]);
}

#[test]
fn missing_table_and_invalid_handle_read_nothing() {
    let handle = make_font_ref(font_test_data::SIMPLE_GLYF, 0);
    let mut empty: [u8; 0] = [];
    let mut data = [7u8; 4];
    assert_eq!(table_data(&handle, NAME, 0, &mut empty), 0);
    assert_eq!(table_data(&handle, NAME, 0, &mut data), 0);
    assert_eq!(table_data(&handle, 0, 0, &mut data), 0);
    assert_eq!(data, [7u8; 4]);
    let invalid = make_font_ref(&[0u8, 1, 2], 0);
    assert_eq!(table_data(&invalid, MAXP, 0, &mut empty), 0);
    assert_eq!(table_data(&invalid, MAXP, 0, &mut data), 0);
    assert_eq!(table_data(&invalid, MAXP, 2, &mut data), 0);
    assert_eq!(data, [7u8; 4]);
}

#[test]
fn count_never_exceeds_a_non_empty_destination() {
    let handle = make_font_ref(font_test_data::VAZIRMATN_VAR, 0);
    for capacity in 1usize..40 {
        for offset in [0usize, 1, 31, 32, 33, 191, 192, 193] {
            let mut data = vec![0u8; capacity];
            let copied = table_data(&handle, 0x6776_6172, offset, &mut data);
            assert!(copied <= capacity);
            assert_eq!(copied, 192usize.saturating_sub(offset).min(capacity));
        }
    }
}

#[test]
fn collection_member_tables_are_read() {
    let font = font_test_data::ttc::TTC;
    let handle = make_font_ref(font, 1);
    let mut data = vec![0u8; 32];
    assert_eq!(table_data(&handle, MAXP, 0, &mut data), 32);
    assert_eq!(&data[..], &font[1392..1392 + 32]);
}

#[test]
fn copy_table_range_copies_from_the_offset() {
    let table = [1u8, 2, 3, 4, 5];
    let mut data = [9u8; 3];
    assert_eq!(copy_table_range(&table, 1, &mut data), 3);
    assert_eq!(data, [2, 3, 4]);
    let mut data = [9u8; 8];
    assert_eq!(copy_table_range(&table, 3, &mut data), 2);
    assert_eq!(data, [4, 5, 9, 9, 9, 9, 9, 9]);
    assert_eq!(copy_table_range(&table, 5, &mut data), 0);
    assert_eq!(copy_table_range(&table, 6, &mut data), 0);
    assert_eq!(data, [4, 5, 9, 9, 9, 9, 9, 9]);
    let mut empty: [u8; 0] = [];
    assert_eq!(copy_table_range(&table, 0, &mut empty), 5);
    assert_eq!(copy_table_range(&table, 2, &mut empty), 3);
    assert_eq!(copy_table_range(&table, 7, &mut empty), 0);
    assert_eq!(copy_table_range(&[], 0, &mut data), 0);
}
