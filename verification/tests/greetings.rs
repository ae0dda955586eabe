use qb_backend::greeting::{greeting, page_hits_message, render_decimal, render_signed_decimal};

#[test]
fn hello_greets_by_name() {
    assert_eq!(greeting("ferris"), "Hello ferris!");
    assert_eq!(greeting(""), "Hello !");
}

#[test]
fn page_hits_text() {
    assert_eq!(page_hits_message(1), "Hello, World! Page hits: 1");
    assert_eq!(page_hits_message(1024), "Hello, World! Page hits: 1024");
    assert_eq!(page_hits_message(-7), "Hello, World! Page hits: -7");
}

#[test]
fn decimal_rendering_matches_display() {
    for n in [0u32, 9, 10, 99, 100, 4294967295] {
        assert_eq!(render_decimal(n), n.to_string());
    }
    for n in [0i32, -1, 10, -10, 2147483647, -2147483648] {
        assert_eq!(render_signed_decimal(n), n.to_string());
    }
}
