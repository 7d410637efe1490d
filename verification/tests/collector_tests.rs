use io_proxy::collector::Collector;

fn chars(s: &str) -> Vec<char> {
    s.chars().collect()
}

fn patterns(ps: &[&str]) -> Vec<Vec<char>> {
    ps.iter().map(|p| chars(p)).collect()
}

fn string_of(v: &Vec<char>) -> String {
    v.iter().collect()
}

#[test]
fn collector_drops_ignored_lines() {
    let mut c = Collector::new(patterns(&["DEBUG"]));
    c.offer_line(&chars("DEBUG: tick\n"));
    c.offer_line(&chars("READY\n"));
    let batch = c.take_batch().expect("one kept line must be emitted");
    assert_eq!(string_of(&batch), "READY\n");
}

#[test]
fn collector_keeps_lines_verbatim_and_in_order() {
    let mut c = Collector::new(patterns(&[]));
    c.offer_line(&chars("hello\n"));
    c.offer_line(&chars("world\n"));
    let batch = c.take_batch().expect("kept lines must be emitted");
    assert_eq!(string_of(&batch), "hello\nworld\n");
}

#[test]
fn empty_window_emits_no_batch() {
    let mut c = Collector::new(patterns(&["DEBUG"]));
    assert_eq!(c.take_batch(), None);
}

#[test]
fn fully_filtered_window_emits_no_batch() {
    let mut c = Collector::new(patterns(&["DEBUG"]));
    c.offer_line(&chars("DEBUG: a\n"));
    c.offer_line(&chars("DEBUG: b\n"));
    assert_eq!(c.take_batch(), None);
}

#[test]
fn taking_a_batch_starts_a_new_window() {
    let mut c = Collector::new(patterns(&[]));
    c.offer_line(&chars("first\n"));
    assert!(c.take_batch().is_some());
    assert_eq!(c.take_batch(), None);
    c.offer_line(&chars("second\n"));
    let batch = c.take_batch().expect("the new window has one line");
    assert_eq!(string_of(&batch), "second\n");
}

#[test]
fn ignore_matching_is_substring_containment() {
    let mut c = Collector::new(patterns(&["tick"]));
    c.offer_line(&chars("DEBUG: tick\n"));
    c.offer_line(&chars("ticket booked\n"));
    c.offer_line(&chars("all good\n"));
    let batch = c.take_batch().expect("one kept line must be emitted");
    assert_eq!(string_of(&batch), "all good\n");
}
