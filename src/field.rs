use vstd::prelude::*;

verus! {

/// A contiguous run of bits inside a 32-bit register: the lowest bit of the
/// run (`offset`) and the run itself, in place (`mask`).
#[derive(Clone, Copy, Debug)]
pub struct Field<T> {
    pub offset: usize,
    pub mask: T,
}

/// The mask of bits `start..=end` of a 32-bit word.
pub open spec fn mask_of(end: usize, start: usize) -> u32 {
    ((((1u64 << ((end - start + 1) as u64)) - 1) as u64) << (start as u64)) as u32
}

/// The field made of bits `start..=end`.
pub open spec fn field_of(end: usize, start: usize) -> Field<u32> {
    Field { offset: start, mask: mask_of(end, start) }
}

/// The value held in `field` of the register word `src`.
pub open spec fn read_field(src: u32, field: Field<u32>) -> u32 {
    (src & field.mask) >> (field.offset as u32)
}

/// `dst` with `field` cleared and `value` placed at the field's offset.
pub open spec fn write_field(dst: u32, field: Field<u32>, value: u32) -> u32 {
    (dst & !field.mask) | (value << (field.offset as u32))
}

/// Whether `value` fits in the `end - start + 1` bits of the field `start..=end`.
pub open spec fn fits(value: u32, end: usize, start: usize) -> bool {
    (value as u64) < (1u64 << ((end - start + 1) as u64))
}

/// The field of the single bit `n`.
pub fn bit(n: usize) -> (r: Field<u32>)
    requires
        n < 32,
    ensures
        r == field_of(n, n),
{
    bits(n, n)
}

/// The field of bits `start..=end`.
pub fn bits(end: usize, start: usize) -> (r: Field<u32>)
    requires
        start <= end < 32,
    ensures
        r == field_of(end, start),
{
    let width = (end - start + 1) as u64;
    let one_past: u64 = 1u64 << width;
    proof {
        assert(one_past >= 1) by (bit_vector)
            requires
                width <= 32,
                one_past == 1u64 << width,
        ;
    }
    let low: u64 = one_past - 1;
    let mask = (low << (start as u64)) as u32;
    Field { offset: start, mask }
}

/// The value held in `field` of the register word `src`.
pub fn read_bit_field(src: u32, field: Field<u32>) -> (r: u32)
    requires
        field.offset < 32,
    ensures
        r == read_field(src, field),
{
    (src & field.mask) >> (field.offset as u32)
}

/// Replaces the bits of `field` in `dst` by `value`; the other bits stay.
pub fn write_bit_field(dst: &mut u32, field: Field<u32>, value: u32)
    requires
        field.offset < 32,
    ensures
        *final(dst) == write_field(*old(dst), field, value),
{
    *dst = (*dst & !field.mask) | (value << (field.offset as u32));
}

/// Writing a value that fits into a field and reading the field back gives
/// the value, and the bits outside the field are those of the original word.
pub proof fn lemma_field_round_trip(dst: u32, end: usize, start: usize, value: u32)
    requires
        start <= end < 32,
        fits(value, end, start),
    ensures
        read_field(write_field(dst, field_of(end, start), value), field_of(end, start)) == value,
        write_field(dst, field_of(end, start), value) & !mask_of(end, start) == dst & !mask_of(
            end,
            start,
        ),
{
    let s = start as u32;
    let e = end as u32;
    assert(start as u32 == s && (start as u64) == s as u64 && ((end - start + 1) as u64) == (e - s
        + 1) as u64);
    assert({
        let m = ((((1u64 << ((e - s + 1) as u64)) - 1) as u64) << (s as u64)) as u32;
        let w = (dst & !m) | (value << s);
        &&& ((w & m) >> s) == value
        &&& w & !m == dst & !m
    }) by (bit_vector)
        requires
            s <= e < 32,
            (value as u64) < (1u64 << ((e - s + 1) as u64)),
    ;
}

/// A one-bit field is the bit at its offset.
pub proof fn lemma_bit_mask(n: usize)
    requires
        n < 32,
    ensures
        field_of(n, n) == (Field { offset: n, mask: 1u32 << (n as u32) }),
{
    let k = n as u32;
    assert(((((1u64 << ((k - k + 1) as u64)) - 1) as u64) << (k as u64)) as u32 == 1u32 << k)
        by (bit_vector)
        requires
            k < 32,
    ;
    assert((n - n + 1) as u64 == (k - k + 1) as u64);
}

} // verus!
