use lars::notation::write_triple;

#[test]
fn writes_components_in_order_between_brackets() {
    assert_eq!(write_triple("1", "2", "3"), "(1, 2, 3)");
}

#[test]
fn keeps_each_component_as_given() {
    assert_eq!(write_triple("-2.5", "1e-7", "0"), "(-2.5, 1e-7, 0)");
}

#[test]
fn empty_components_leave_only_the_frame() {
    assert_eq!(write_triple("", "", ""), "(, , )");
}

#[test]
fn writes_floats_rendered_by_the_caller() {
    let x = format!("{}", 1.0_f64);
    let y = format!("{}", -0.5_f64);
    let z = format!("{}", 12.25_f64);
    assert_eq!(write_triple(&x, &y, &z), "(1, -0.5, 12.25)");
}

#[test]
fn writes_values_that_are_not_numbers() {
    let x = format!("{}", f64::NAN);
    let y = format!("{}", f64::INFINITY);
    let z = format!("{}", f64::NEG_INFINITY);
    assert_eq!(write_triple(&x, &y, &z), "(NaN, inf, -inf)");
}

#[test]
fn components_are_not_reordered_or_merged() {
    let out = write_triple("a", "b", "c");
    assert_ne!(out, write_triple("c", "b", "a"));
    assert_eq!(out.len(), 9);
}

#[test]
fn keeps_characters_outside_ascii() {
    assert_eq!(write_triple("α", "β", "γ"), "(α, β, γ)");
}
