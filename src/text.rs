//! UTF-16 encoding of display text and fixed-width text buffers.
use vstd::prelude::*;

verus! {

/// The UTF-16 code units that encode one character.
pub open spec fn char_units(c: char) -> Seq<u16> {
    let v = c as u32;
    if v < 0x10000 {
        seq![v as u16]
    } else {
        let w = v - 0x10000;
        seq![(0xD800 + w / 0x400) as u16, (0xDC00 + w % 0x400) as u16]
    }
}

/// The UTF-16 encoding of a character sequence.
pub open spec fn utf16_of(s: Seq<char>) -> Seq<u16>
    decreases s.len(),
{
    if s.len() == 0 {
        seq![]
    } else {
        utf16_of(s.drop_last()) + char_units(s.last())
    }
}

/// Encodes `s` as UTF-16 code units.
pub fn encode_utf16(s: &str) -> (units: Vec<u16>)
    ensures
        units@ == utf16_of(s@),
{
    let mut units: Vec<u16> = Vec::new();
    for c in it: s.chars()
        invariant
            it.seq() == s@,
            units@ == utf16_of(s@.subrange(0, it.index() as int)),
    {
        let ghost done = s@.subrange(0, it.index() as int);
        let v = c as u32;
        if v < 0x10000 {
            units.push(v as u16);
        } else {
            let w = v - 0x10000;
            units.push(#[verifier::truncate] ((0xD800 + w / 0x400) as u16));
            units.push(#[verifier::truncate] ((0xDC00 + w % 0x400) as u16));
        }
        assert(s@.subrange(0, it.index() + 1).drop_last() == done);
    }
    assert(s@.subrange(0, s@.len() as int) == s@);
    units
}

/// A buffer of exactly `capacity` units: as many leading units of `units`
/// as fit, then zeros.
pub open spec fn fixed_buffer(units: Seq<u16>, capacity: nat) -> Seq<u16> {
    Seq::new(capacity, |i: int| if i < units.len() { units[i] } else { 0u16 })
}

/// Units that fit in the buffer are kept whole, and zeros follow them.
pub proof fn lemma_fixed_buffer_fits(units: Seq<u16>, capacity: nat)
    requires
        units.len() <= capacity,
    ensures
        fixed_buffer(units, capacity).subrange(0, units.len() as int) == units,
        forall|i: int|
            units.len() <= i < capacity ==> #[trigger] fixed_buffer(units, capacity)[i] == 0,
{
    assert(fixed_buffer(units, capacity).subrange(0, units.len() as int) =~= units);
}

/// Units that do not fit are cut: the buffer holds exactly the first
/// `capacity` of them.
pub proof fn lemma_fixed_buffer_truncates(units: Seq<u16>, capacity: nat)
    requires
        units.len() > capacity,
    ensures
        fixed_buffer(units, capacity) == units.subrange(0, capacity as int),
{
    assert(fixed_buffer(units, capacity) =~= units.subrange(0, capacity as int));
}

/// Copies `units` into a zeroed buffer of `capacity` units, dropping the
/// units that do not fit.
pub fn fill_buffer(units: &Vec<u16>, capacity: usize) -> (buf: Vec<u16>)
    ensures
        buf@ == fixed_buffer(units@, capacity as nat),
{
    let mut buf: Vec<u16> = Vec::new();
    let mut i: usize = 0;
    while i < capacity
        invariant
            i <= capacity,
            buf@ == fixed_buffer(units@, capacity as nat).subrange(0, i as int),
        decreases capacity - i,
    {
        if i < units.len() {
            buf.push(units[i]);
        } else {
            buf.push(0u16);
        }
        i = i + 1;
    }
    buf
}

/// Encodes `s` as UTF-16 into a zeroed buffer of `capacity` units, keeping
/// the leading units that fit.
pub fn encode_fixed(s: &str, capacity: usize) -> (buf: Vec<u16>)
    ensures
        buf@ == fixed_buffer(utf16_of(s@), capacity as nat),
{
    let units = encode_utf16(s);
    fill_buffer(&units, capacity)
}

} // verus!
