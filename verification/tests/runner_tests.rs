use isbuild::runner::relay_lines;

#[test]
fn relay_forwards_every_decoded_line_in_order() {
    let lines = vec![
        Some(String::from("first")),
        Some(String::from("second")),
        Some(String::from("third")),
    ];
    assert_eq!(relay_lines(lines), vec!["first", "second", "third"]);
}

#[test]
fn relay_drops_undecodable_lines_and_keeps_the_rest_in_order() {
    let lines = vec![
        None,
        Some(String::from("kept")),
        None,
        Some(String::from("also kept")),
        None,
    ];
    assert_eq!(relay_lines(lines), vec!["kept", "also kept"]);
}

#[test]
fn relay_of_nothing_is_nothing() {
    assert_eq!(relay_lines(Vec::new()), Vec::<String>::new());
}
