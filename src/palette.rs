//! Stable colours for whiteboard authors.
use vstd::prelude::*;
use vstd::string::StringSliceAdditionalSpecFns;

verus! {

/// Number of colours in the palette.
pub const PALETTE_LEN: u64 = 20;

/// The palette, by position.
pub open spec fn palette_color(i: u64) -> Seq<char> {
    match i {
        0 => "#e6194b"@,
        1 => "#3cb44b"@,
        2 => "#ffe119"@,
        3 => "#4363d8"@,
        4 => "#f58231"@,
        5 => "#911eb4"@,
        6 => "#46f0f0"@,
        7 => "#f032e6"@,
        8 => "#bcf60c"@,
        9 => "#fabebe"@,
        10 => "#008080"@,
        11 => "#e6beff"@,
        12 => "#9a6324"@,
        13 => "#fffac8"@,
        14 => "#800000"@,
        15 => "#aaffc3"@,
        16 => "#808000"@,
        17 => "#ffd8b1"@,
        18 => "#000075"@,
        _ => "#808080"@,
    }
}

fn palette_entry(i: u64) -> (r: &'static str)
    requires
        i < PALETTE_LEN,
    ensures
        r@ == palette_color(i),
{
    match i {
        0 => "#e6194b",
        1 => "#3cb44b",
        2 => "#ffe119",
        3 => "#4363d8",
        4 => "#f58231",
        5 => "#911eb4",
        6 => "#46f0f0",
        7 => "#f032e6",
        8 => "#bcf60c",
        9 => "#fabebe",
        10 => "#008080",
        11 => "#e6beff",
        12 => "#9a6324",
        13 => "#fffac8",
        14 => "#800000",
        15 => "#aaffc3",
        16 => "#808000",
        17 => "#ffd8b1",
        18 => "#000075",
        _ => "#808080",
    }
}

/// Polynomial hash of bytes, base 31, wrapping at 64 bits.
pub open spec fn name_hash(bytes: Seq<u8>) -> u64
    decreases bytes.len(),
{
    if bytes.len() == 0 {
        0
    } else {
        name_hash(bytes.drop_last()).wrapping_mul(31).wrapping_add(bytes.last() as u64)
    }
}

/// The colour of an author, picked from the palette by a hash of the
/// author's id, so that each author keeps one colour on every client.
pub fn color_for_user(user_id: &str) -> (r: String)
    ensures
        r@ == palette_color(name_hash(user_id.spec_bytes()) % PALETTE_LEN),
{
    let bytes = user_id.as_bytes();
    let mut hash: u64 = 0;
    let mut i: usize = 0;
    while i < bytes.len()
        invariant
            i <= bytes@.len(),
            bytes@ == user_id.spec_bytes(),
            hash == name_hash(bytes@.take(i as int)),
        decreases bytes.len() - i,
    {
        proof {
            assert(bytes@.take(i + 1).drop_last() =~= bytes@.take(i as int));
        }
        hash = hash.wrapping_mul(31).wrapping_add(bytes[i] as u64);
        i = i + 1;
    }
    assert(bytes@.take(bytes@.len() as int) =~= bytes@);
    String::from_str(palette_entry(hash % PALETTE_LEN))
}

} // verus!
