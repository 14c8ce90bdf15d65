use tg_frontend::text::{chars_of, find_first, lower_ascii, same_ignoring_ascii_case, slice};

#[test]
fn chars_of_keeps_order() {
    assert_eq!(chars_of("aé b"), vec!['a', 'é', ' ', 'b']);
    assert_eq!(chars_of(""), Vec::<char>::new());
}

#[test]
fn find_first_gives_first_position() {
    let v = chars_of("a b c");
    assert_eq!(find_first(&v, ' '), Some(1));
    assert_eq!(find_first(&v, 'z'), None);
    assert_eq!(slice(&v, 2, 5), vec!['b', ' ', 'c']);
}

#[test]
fn ascii_case_folding() {
    assert_eq!(lower_ascii('Q'), 'q');
    assert_eq!(lower_ascii('q'), 'q');
    assert_eq!(lower_ascii('É'), 'É');
    assert!(same_ignoring_ascii_case(&chars_of("/ExIt"), &chars_of("/exit")));
    assert!(!same_ignoring_ascii_case(&chars_of("/exits"), &chars_of("/exit")));
    assert!(!same_ignoring_ascii_case(&chars_of("É"), &chars_of("é")));
}
