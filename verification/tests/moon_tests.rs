use nimbus::moon::{moon_phase, moon_phase_checked};

#[test]
fn check_moon_phase_icons() {
    assert_eq!(moon_phase(0), '\u{f095}'); // new moon
    assert_eq!(moon_phase(1), '\u{f096}');
    assert_eq!(moon_phase(2), '\u{f097}');
    assert_eq!(moon_phase(3), '\u{f098}');
    assert_eq!(moon_phase(4), '\u{f099}');
    assert_eq!(moon_phase(5), '\u{f09a}');
    assert_eq!(moon_phase(6), '\u{f09b}');
    assert_eq!(moon_phase(7), '\u{f09c}'); // first quarter moon
    assert_eq!(moon_phase(8), '\u{f09d}');
    assert_eq!(moon_phase(9), '\u{f09e}');
    assert_eq!(moon_phase(10), '\u{f09f}');
    assert_eq!(moon_phase(11), '\u{f0a0}');
    assert_eq!(moon_phase(12), '\u{f0a1}');
    assert_eq!(moon_phase(13), '\u{f0a2}');
    assert_eq!(moon_phase(14), '\u{f0a3}'); // full moon
    assert_eq!(moon_phase(15), '\u{f0a4}');
    assert_eq!(moon_phase(16), '\u{f0a5}');
    assert_eq!(moon_phase(17), '\u{f0a6}');
    assert_eq!(moon_phase(18), '\u{f0a7}');
    assert_eq!(moon_phase(19), '\u{f0a8}');
    assert_eq!(moon_phase(20), '\u{f0a9}');
    assert_eq!(moon_phase(21), '\u{f0aa}'); // last quarter moon
    assert_eq!(moon_phase(22), '\u{f0ab}');
    assert_eq!(moon_phase(23), '\u{f0ac}');
    assert_eq!(moon_phase(24), '\u{f0ad}');
    assert_eq!(moon_phase(25), '\u{f0ae}');
    assert_eq!(moon_phase(26), '\u{f0af}');
    assert_eq!(moon_phase(27), '\u{f0b0}');
    assert_eq!(moon_phase(28), '\u{f095}'); // back to new moon
}

#[test]
fn moon_phase_out_of_range() {
    assert_eq!(moon_phase_checked(28), Some('\u{f095}'));
    assert_eq!(moon_phase_checked(29), None);
    assert_eq!(moon_phase_checked(255), None);
}
