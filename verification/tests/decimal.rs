use lib::decimal::append_decimal;

fn render(n: i32) -> String {
    let mut s = String::from("x=");
    append_decimal(&mut s, n);
    s
}

#[test]
fn appends_after_existing_text() {
    assert_eq!(render(0), "x=0");
    assert_eq!(render(7), "x=7");
    assert_eq!(render(10), "x=10");
    assert_eq!(render(-5), "x=-5");
}

#[test]
fn extremes_of_i32() {
    assert_eq!(render(i32::MAX), "x=2147483647");
    assert_eq!(render(i32::MIN), "x=-2147483648");
}

#[test]
fn agrees_with_std_on_a_range() {
    for n in (-20_000..20_000).step_by(7) {
        assert_eq!(render(n), format!("x={}", n));
    }
}

#[test]
fn distinct_numbers_render_distinctly() {
    let a: Vec<String> = (-300..300).map(render).collect();
    let mut b = a.clone();
    b.sort();
    b.dedup();
    assert_eq!(a.len(), b.len());
}
