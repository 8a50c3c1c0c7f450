use gel_fivetran::naming::{decimal_string, group_name, new_group_name};
use gel_fivetran::validate::{assert_eq as compare, result_to_text};

#[test]
fn group_name_from_fixed_time() {
    assert_eq!(group_name(2024, 12, 1, 15, 43, 9), "test_2024_12_01T15_43_09");
    assert_eq!(group_name(987, 1, 2, 3, 4, 5), "test_0987_01_02T03_04_05");
    assert_eq!(group_name(12345, 10, 31, 23, 59, 59), "test_12345_10_31T23_59_59");
    assert_eq!(group_name(-5, 1, 1, 0, 0, 0), "test_-005_01_01T00_00_00");
    assert_eq!(group_name(2024, 12, 1, 15, 43, 9), format!("test_{:04}_{:02}_{:02}T{:02}_{:02}_{:02}", 2024, 12, 1, 15, 43, 9));
}

#[test]
fn group_name_now_has_the_shape() {
    let n = new_group_name();
    assert!(n.starts_with("test_"));
    assert_eq!(n.len(), "test_2024_12_01T15_43_09".len());
    assert_eq!(&n[15..16], "T");
}

#[test]
fn decimal_digits() {
    assert_eq!(decimal_string(0), "0");
    assert_eq!(decimal_string(907), "907");
    assert_eq!(decimal_string(u32::MAX), "4294967295");
}

#[test]
fn comparison_ignores_surrounding_space() {
    assert!(compare("\na, b\n1, 2\n".to_string(), "\n  a, b\n1, 2\n   ").is_ok());
    let e = compare("a, b\n".to_string(), "a, c").unwrap_err();
    assert_eq!(e.found, "a, b\n");
    assert_eq!(e.expected, "a, c");
    assert!(compare(String::new(), "   \n").is_ok());
}

#[test]
fn query_result_text() {
    let cols = vec!["title".to_string(), "pages".to_string()];
    let rows = vec![
        vec![Some("Hunger Games".to_string()), Some("374".to_string())],
        vec![Some("Untitled".to_string()), None],
    ];
    assert_eq!(result_to_text(&cols, &rows), "title, pages\nHunger Games, 374\nUntitled, NULL\n");
    assert_eq!(result_to_text(&cols, &vec![]), "<empty>");
    assert_eq!(result_to_text(&vec!["x".to_string()], &vec![vec![None]]), "x\nNULL\n");
}
