use io_proxy::pacer::{Pacer, PacerAction};

fn chars(s: &str) -> Vec<char> {
    s.chars().collect()
}

fn string_of(v: &Vec<char>) -> String {
    v.iter().collect()
}

#[test]
fn chunks_are_sent_in_order_with_a_pause_after_each() {
    let mut p = Pacer::new(vec![chars("hello\nwor"), chars("ld\n")]);
    let mut sent: Vec<String> = Vec::new();
    let mut pauses: usize = 0;
    loop {
        match p.next_action() {
            PacerAction::SendNext => {
                sent.push(string_of(p.chunk_to_send()));
                p.record_sent();
            }
            PacerAction::Pause => {
                pauses += 1;
                p.record_pause_elapsed();
            }
            PacerAction::Done => break,
        }
    }
    assert_eq!(sent, vec!["hello\nwor".to_string(), "ld\n".to_string()]);
    assert_eq!(pauses, 2);
}

#[test]
fn a_failed_send_abandons_the_rest_of_the_batch() {
    let mut p = Pacer::new(vec![chars("first"), chars("second")]);
    assert_eq!(p.next_action(), PacerAction::SendNext);
    assert_eq!(string_of(p.chunk_to_send()), "first");
    p.record_send_failed();
    assert_eq!(p.next_action(), PacerAction::Done);
    assert_eq!(p.sent, 0);
}

#[test]
fn a_failure_mid_batch_keeps_what_was_delivered() {
    let mut p = Pacer::new(vec![chars("first"), chars("second"), chars("third")]);
    p.record_sent();
    p.record_pause_elapsed();
    p.record_send_failed();
    assert_eq!(p.next_action(), PacerAction::Done);
    assert_eq!(p.sent, 1);
}

#[test]
fn an_empty_batch_is_done_at_once() {
    let p = Pacer::new(Vec::new());
    assert_eq!(p.next_action(), PacerAction::Done);
}
