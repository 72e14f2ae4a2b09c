use timed_transfer::field::{bit, bits, read_bit_field, write_bit_field};

#[test]
fn bit_is_bits_of_one() {
    for n in 0..32usize {
        let a = bit(n);
        let b = bits(n, n);
        assert_eq!(a.offset, b.offset);
        assert_eq!(a.mask, b.mask);
        assert_eq!(a.mask, 1u32 << n);
    }
}

#[test]
fn bits_masks() {
    assert_eq!(bits(31, 24).mask, 0xFF00_0000);
    assert_eq!(bits(31, 24).offset, 24);
    assert_eq!(bits(23, 12).mask, 0x00FF_F000);
    assert_eq!(bits(5, 0).mask, 0x3F);
    assert_eq!(bits(31, 0).mask, 0xFFFF_FFFF);
    assert_eq!(bit(0).mask, 1);
}

#[test]
fn field_round_trip() {
    let words = [0u32, 0xFFFF_FFFF, 0xDEAD_BEEF, 0x1234_5678];
    let fields = [(31usize, 24usize), (23, 12), (6, 0), (7, 7), (31, 0), (20, 16)];
    for &w in &words {
        for &(end, start) in &fields {
            let f = bits(end, start);
            let width = end - start + 1;
            let max: u64 = (1u64 << width) - 1;
            for &v in &[0u64, 1, max / 2, max] {
                let mut dst = w;
                write_bit_field(&mut dst, f, v as u32);
                assert_eq!(read_bit_field(dst, f) as u64, v);
                assert_eq!(dst & !f.mask, w & !f.mask);
            }
        }
    }
}

#[test]
fn read_field_value() {
    assert_eq!(read_bit_field(0x5a00_0016, bits(31, 24)), 0x5a);
    assert_eq!(read_bit_field(0x5a00_0016, bits(3, 0)), 6);
    assert_eq!(read_bit_field(0x5a00_0016, bit(4)), 1);
    assert_eq!(read_bit_field(0x5a00_0016, bit(7)), 0);
}

#[test]
fn write_field_value() {
    let mut w: u32 = 0xFFFF_FFFF;
    write_bit_field(&mut w, bits(11, 8), 0x5);
    assert_eq!(w, 0xFFFF_F5FF);
    let mut z: u32 = 0;
    write_bit_field(&mut z, bit(31), 1);
    assert_eq!(z, 0x8000_0000);
}
