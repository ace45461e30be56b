//! Tests for stress levels.

use sound::stress::BinaryStress;
use sound::stress::Stress;

#[test]
// the two low levels reduce to unstressed, the two high levels to
// stressed
fn test_to_binary_stress() {
    assert_eq!(
        Stress::ReducedStress.to_binary_stress(),
        BinaryStress::Unstressed
    );
    assert_eq!(
        Stress::Unstressed.to_binary_stress(),
        BinaryStress::Unstressed
    );
    assert_eq!(
        Stress::SecondaryStress.to_binary_stress(),
        BinaryStress::Stressed
    );
    assert_eq!(Stress::Stressed.to_binary_stress(), BinaryStress::Stressed);
}

#[test]
// only the two high levels carry an IPA mark
fn test_stress_symbol() {
    assert_eq!(Stress::ReducedStress.symbol(), None);
    assert_eq!(Stress::Unstressed.symbol(), None);
    assert_eq!(Stress::SecondaryStress.symbol(), Some('ˌ'));
    assert_eq!(Stress::Stressed.symbol(), Some('ˈ'));
}

#[test]
// the four levels are ordered from reduced up to stressed
fn test_stress_order() {
    assert!(Stress::ReducedStress < Stress::Unstressed);
    assert!(Stress::Unstressed < Stress::SecondaryStress);
    assert!(Stress::SecondaryStress < Stress::Stressed);
}
