use multi_sgb_async::devices::serials_missing_from;

fn s(list: &[&str]) -> Vec<String> {
    list.iter().map(|x| x.to_string()).collect()
}

#[test]
fn new_boards_are_found() {
    let managed = s(&["A1", "B2"]);
    let detected = s(&["B2", "C3", "C3", "D4"]);
    assert_eq!(serials_missing_from(&detected, &managed), s(&["C3", "D4"]));
}

#[test]
fn departed_boards_are_found() {
    let managed = s(&["A1", "B2"]);
    let detected = s(&["B2", "C3"]);
    assert_eq!(serials_missing_from(&managed, &detected), s(&["A1"]));
}

#[test]
fn nothing_changes() {
    let managed = s(&["A1", "B2"]);
    assert!(serials_missing_from(&managed, &managed).is_empty());
    assert!(serials_missing_from(&Vec::new(), &managed).is_empty());
    assert_eq!(serials_missing_from(&managed, &Vec::new()), managed);
}
