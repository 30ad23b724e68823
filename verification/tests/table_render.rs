use energiapro::{display_width, render_row, render_table};

#[test]
fn renders_simple_table() {
    let output = render_table(
        &["id", "city"],
        &[
            vec!["INSTALLATION_ID_1".to_owned(), "CITY_1".to_owned()],
            vec!["INSTALLATION_ID_2".to_owned(), "CITY_2".to_owned()],
        ],
    );

    assert!(output.contains("id                 city"));
    assert!(output.contains("INSTALLATION_ID_1  CITY_1"));
    assert!(output.contains("INSTALLATION_ID_2  CITY_2"));
}

#[test]
fn renders_no_results_message() {
    let output = render_table(&["id"], &[]);

    assert!(output.contains("id"));
    assert!(output.contains("No results."));
}

#[test]
fn renders_exact_table_text() {
    let output = render_table(
        &["id", "city"],
        &[vec!["A1".to_owned(), "Lausanne".to_owned()]],
    );

    assert_eq!(output, "id  city    \n--  --------\nA1  Lausanne\n");
}

#[test]
fn pads_short_rows_with_empty_cells() {
    let output = render_row(&["only".to_owned()], &[4, 3]);
    assert_eq!(output, "only     ");
}

#[test]
fn display_width_counts_characters() {
    assert_eq!(display_width(""), 0);
    assert_eq!(display_width("abc"), 3);
    assert_eq!(display_width("héhé"), 4);
}
