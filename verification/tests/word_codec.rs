use enum_ptr::codec::{compact, extract, PtrRepr, UnitRepr};

#[test]
fn encode_is_bitwise_or() {
    assert_eq!(compact(PtrRepr(3, 0x40)), 0x43);
    assert_eq!(compact(PtrRepr(0, 0x88)), 0x88);
    assert_eq!(compact(PtrRepr(1, 0)), 1);
}

#[test]
fn decode_splits_with_mask() {
    assert_eq!(extract(0x43, 3), PtrRepr(3, 0x40));
    assert_eq!(extract(0x88, 7), PtrRepr(0, 0x88));
    // decoding is total: any word splits, even one no encode produced
    assert_eq!(extract(usize::MAX, 1), PtrRepr(1, usize::MAX - 1));
}

#[test]
fn unit_word_is_tag_alone() {
    // strategy for payload-less variants: the compact word is the tag
    let unit = UnitRepr(5);
    let word = compact(PtrRepr(unit.0, 0));
    assert_eq!(word, 5);
    assert_eq!(extract(word, 7), PtrRepr(5, 0));
}

#[test]
fn round_trip_at_word_level() {
    let cases: [(usize, usize, usize); 4] = [
        (0, 0, 1),
        (1, 0x10, 1),
        (3, 0xdead_bee0 & !3usize, 3),
        (7, 0x1000, 7),
    ];
    for &(tag, payload, mask) in cases.iter() {
        let word = compact(PtrRepr(tag, payload));
        assert_eq!(extract(word, mask), PtrRepr(tag, payload));
    }
}
