use oca::board::classify;
use oca::board::CellKind;
use oca::render::cells_to_percentage;
use oca::text::dec_string;

#[test]
fn interior_cells_not_divisible_are_normal() {
    for i in 1..=62i16 {
        if i % 5 != 0 && i % 7 != 0 {
            let (kind, label) = classify(i);
            assert_eq!(kind, CellKind::Normal);
            assert_eq!(label, format!("{}", i));
        }
    }
}

#[test]
fn start_cell_precedes_setback() {
    assert_eq!(0 % 5, 0);
    let (kind, label) = classify(0);
    assert_eq!(kind, CellKind::Start);
    assert_eq!(label, "0-Inicio");
}

#[test]
fn setback_precedes_bonus_on_cell_35() {
    assert_eq!(35 % 5, 0);
    assert_eq!(35 % 7, 0);
    let (kind, label) = classify(35);
    assert_eq!(kind, CellKind::Setback);
    assert_eq!(label, "35-Castigo");
}

#[test]
fn end_cell_is_end() {
    let (kind, label) = classify(63);
    assert_eq!(kind, CellKind::End);
    assert_eq!(label, "63-Fin");
}

#[test]
fn bonus_cell_label() {
    let (kind, label) = classify(7);
    assert_eq!(kind, CellKind::Bonus);
    assert_eq!(label, "7-Suerte");
}

#[test]
fn classify_is_pure() {
    for i in 0..=63i16 {
        let first = classify(i);
        let second = classify(i);
        assert_eq!(first.0, second.0);
        assert_eq!(first.1, second.1);
    }
}

#[test]
fn decimal_strings_exact() {
    assert_eq!(dec_string(0), "0");
    assert_eq!(dec_string(7), "7");
    assert_eq!(dec_string(10), "10");
    assert_eq!(dec_string(63), "63");
}

#[test]
fn layout_fractions_for_eight_cells() {
    let v = cells_to_percentage(8);
    assert_eq!(v.len(), 9);
    for p in v {
        assert_eq!(p, 12);
    }
}
