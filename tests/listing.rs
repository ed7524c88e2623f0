use image_resizer::enumerate::get_file_paths;

fn names(v: &[Option<&str>]) -> Vec<Option<String>> {
    v.iter().map(|n| n.map(|s| s.to_string())).collect()
}

#[test]
fn no_exclusion_keeps_every_readable_entry() {
    let entries = names(&[Some("a.jpg"), Some("b.png"), Some("notes.txt")]);
    assert_eq!(get_file_paths(&entries, None), vec![0, 1, 2]);
}

#[test]
fn excluded_name_is_left_out() {
    let entries = names(&[Some("a.jpg"), Some("skip.jpg")]);
    assert_eq!(get_file_paths(&entries, Some("skip.jpg")), vec![0]);
}

#[test]
fn exclusion_is_exact() {
    let entries = names(&[Some("skip.jpg"), Some("Skip.jpg"), Some("skip.jpg.png"), Some("skip")]);
    assert_eq!(get_file_paths(&entries, Some("skip.jpg")), vec![1, 2, 3]);
}

#[test]
fn every_entry_with_the_excluded_name_is_left_out() {
    let entries = names(&[Some("x"), Some("a.png"), Some("x")]);
    assert_eq!(get_file_paths(&entries, Some("x")), vec![1]);
}

#[test]
fn unreadable_entries_are_dropped_silently() {
    let entries = names(&[None, Some("a.jpg"), None, Some("b.png")]);
    assert_eq!(get_file_paths(&entries, None), vec![1, 3]);
    assert_eq!(get_file_paths(&entries, Some("b.png")), vec![1]);
}

#[test]
fn empty_listing_gives_nothing() {
    assert_eq!(get_file_paths(&Vec::new(), Some("a.jpg")), Vec::<usize>::new());
    assert_eq!(get_file_paths(&names(&[None, None]), None), Vec::<usize>::new());
}
