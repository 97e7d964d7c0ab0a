use minautomata::colour::Colour;

#[test]
pub fn test_colours() {
    let red = Colour::new(255, 0, 0);
    assert_eq!(255 << 16, red.as_i());
}

#[test]
fn test_as_uarr_is_opaque_rgba() {
    let c = Colour::new(12, 34, 56);
    assert_eq!([12, 34, 56, 255], c.as_uarr());
}

#[test]
fn test_i_eq() {
    let c = Colour::new(1, 2, 3);
    assert!(c.i_eq((1 << 16) + (2 << 8) + 3));
    assert!(!c.i_eq(0));
}
