//! Tests for phoneme symbols.

use sound::builders::SegmentBuilder;
use sound::phoneme::Phoneme::Disegment;
use sound::phoneme::Phoneme::Monosegment;

#[test]
fn test_symbol_monosegment() {
    let m = Monosegment(SegmentBuilder::segment(&[], 'p'));
    assert_eq!(m.symbol(), "p")
}

#[test]
fn test_symbol_disegment() {
    let m = Disegment(
        SegmentBuilder::segment(&[], 't'),
        SegmentBuilder::segment(&[], 'ʃ'),
    );
    assert_eq!(m.symbol(), "t͡ʃ")
}
