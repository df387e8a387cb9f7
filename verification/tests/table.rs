use temperature_converter::table::{common_table, row, table_text, COLUMN_WIDTH, TABLE_ROWS};

#[test]
fn the_table_has_fifteen_rows() {
    assert_eq!(TABLE_ROWS, 15);
    assert_eq!(common_table().len(), 15);
}

#[test]
fn the_table_begins_and_ends_where_it_should() {
    let table = common_table();
    assert_eq!(table[0], (-40, -40));
    assert_eq!(table[14], (100, 212));
}

#[test]
fn the_table_steps_by_ten_degrees_celsius() {
    let table = common_table();
    for i in 1..table.len() {
        assert_eq!(table[i].0, table[i - 1].0 + 10);
        assert!(table[i].0 > table[i - 1].0);
    }
}

#[test]
fn the_table_holds_the_known_points() {
    let table = common_table();
    assert_eq!(table[4], (0, 32));
    assert_eq!(table[1], (-30, -22));
    assert_eq!(table[7], (30, 86));
    assert_eq!(
        table,
        vec![
            (-40, -40),
            (-30, -22),
            (-20, -4),
            (-10, 14),
            (0, 32),
            (10, 50),
            (20, 68),
            (30, 86),
            (40, 104),
            (50, 122),
            (60, 140),
            (70, 158),
            (80, 176),
            (90, 194),
            (100, 212)
        ]
    );
}

#[test]
fn the_table_agrees_with_the_formula_on_real_numbers() {
    for (celsius, fahrenheit) in common_table() {
        let converted: f64 = celsius as f64 * (9.0 / 5.0) + 32.0;
        assert_eq!(converted, fahrenheit as f64);
        let back: f64 = (fahrenheit as f64 - 32.0) * (5.0 / 9.0);
        assert!((back - celsius as f64).abs() < 1e-9);
    }
}

#[test]
fn a_row_is_laid_out_in_two_columns() {
    assert_eq!(COLUMN_WIDTH, 7);
    assert_eq!(row(-40, -40), " -40.00\u{970}C =  -40.00\u{970}F\n");
    assert_eq!(row(0, 32), "   0.00\u{970}C =   32.00\u{970}F\n");
    assert_eq!(row(100, 212), " 100.00\u{970}C =  212.00\u{970}F\n");
}

#[test]
fn a_row_agrees_with_the_standard_formatting() {
    for (celsius, fahrenheit) in common_table() {
        let expected = format!("{:7.2}\u{970}C = {:7.2}\u{970}F\n", celsius as f64, fahrenheit as f64);
        assert_eq!(row(celsius, fahrenheit), expected);
    }
    for (celsius, fahrenheit) in [(-273, -459), (1000, 1832), (123456, 222253), (i32::MIN, i32::MAX)] {
        let expected = format!("{:7.2}\u{970}C = {:7.2}\u{970}F\n", celsius as f64, fahrenheit as f64);
        assert_eq!(row(celsius, fahrenheit), expected);
    }
}

#[test]
fn the_table_text_is_its_rows_and_an_empty_line() {
    let mut expected = String::new();
    for (celsius, fahrenheit) in common_table() {
        expected.push_str(&row(celsius, fahrenheit));
    }
    expected.push('\n');
    let text = table_text();
    assert_eq!(text, expected);
    assert_eq!(text.lines().count(), 16);
    assert!(text.starts_with(" -40.00\u{970}C =  -40.00\u{970}F\n -30.00\u{970}C =  -22.00\u{970}F\n"));
    assert!(text.ends_with(" 100.00\u{970}C =  212.00\u{970}F\n\n"));
}
