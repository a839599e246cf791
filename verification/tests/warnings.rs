use fortress::warnings::{ResourceLevels, ResourcesWarnings, Warning};

#[test]
fn warnings_are_given_once_in_order() {
    let mut w = ResourcesWarnings::new();
    let levels = ResourceLevels { low_bullets: true, low_gasoline: true, no_bullets: true, no_gasoline: false };
    assert_eq!(w.check(levels), vec![Warning::LowBullets, Warning::LowGasoline, Warning::NoBullets]);
    assert!(w.check(levels).is_empty());
    assert_eq!(w, ResourcesWarnings { low_bullets: true, no_bullets: true, low_gasoline: true, no_gasoline: false });
}

#[test]
fn a_refilled_stock_can_warn_again() {
    let mut w = ResourcesWarnings::new();
    let empty = ResourceLevels { low_bullets: false, low_gasoline: false, no_bullets: true, no_gasoline: false };
    assert_eq!(w.check(empty), vec![Warning::NoBullets]);
    w.no_bullets = false;
    assert_eq!(w.check(empty), vec![Warning::NoBullets]);
    let fine = ResourceLevels { low_bullets: false, low_gasoline: false, no_bullets: false, no_gasoline: false };
    assert!(ResourcesWarnings::new().check(fine).is_empty());
}
