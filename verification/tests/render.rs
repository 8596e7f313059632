use counter_contract::render::{render_even_odd, render_int};

#[test]
fn renders_decimal_integers() {
    assert_eq!("0", render_int(0));
    assert_eq!("7", render_int(7));
    assert_eq!("-1", render_int(-1));
    assert_eq!("42", render_int(42));
    assert_eq!("-100", render_int(-100));
    assert_eq!("90210", render_int(90210));
    assert_eq!("2147483647", render_int(i32::MAX));
    assert_eq!("-2147483648", render_int(i32::MIN));
}

#[test]
fn renders_parity_answers() {
    assert_eq!("Even Number: 0", render_even_odd(0));
    assert_eq!("Odd Number: 1", render_even_odd(1));
    assert_eq!("Odd Number: -1", render_even_odd(-1));
    assert_eq!("Even Number: -2", render_even_odd(-2));
    assert_eq!("Odd Number: 1999", render_even_odd(1999));
}
