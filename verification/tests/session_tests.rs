use io_proxy::collector::Collector;
use io_proxy::pacer::{Pacer, PacerAction};
use io_proxy::session::Service;

fn chars(s: &str) -> Vec<char> {
    s.chars().collect()
}

fn patterns(ps: &[&str]) -> Vec<Vec<char>> {
    ps.iter().map(|p| chars(p)).collect()
}

fn string_of(v: &Vec<char>) -> String {
    v.iter().collect()
}

#[test]
fn service_holds_its_configuration() {
    let s = Service::new(7, 2000, 2000, 4096, '#', patterns(&["DEBUG"]));
    assert_eq!(s.master_chat_id, 7);
    assert_eq!(s.window_ms, 2000);
    assert_eq!(s.pause_ms, 2000);
    assert_eq!(s.message_limit, 4096);
    assert_eq!(s.comment_marker, '#');
    assert_eq!(s.filter_dictionary, patterns(&["DEBUG"]));
}

#[test]
fn service_routes_only_the_master_chat() {
    let s = Service::new(7, 2000, 2000, 4096, '#', Vec::new());
    let accepted = s.route(7, &chars("run\n"));
    assert_eq!(accepted.len(), 1);
    assert_eq!(string_of(&accepted[0]), "run\n");
    let rejected = s.route(8, &chars("run\n"));
    assert!(rejected.is_empty());
}

#[test]
fn one_window_flows_through_collector_chunker_and_pacer() {
    // Window of 2 seconds, message limit of 10 characters: the process
    // writes "hello\nworld\n" (twelve characters) within the window; one
    // batch is collected, split greedily in two chunks and delivered in
    // order, a pause after each send.
    let service = Service::new(7, 2000, 2000, 10, '#', Vec::new());
    let mut collector = Collector::new(Vec::new());
    collector.offer_line(&chars("hello\n"));
    collector.offer_line(&chars("world\n"));
    let batch = collector.take_batch().expect("the window collected text");
    assert_eq!(string_of(&batch), "hello\nworld\n");

    let chunks = service.chunk_batch(&batch);
    let mut pacer = Pacer::new(chunks);
    let mut sent: Vec<String> = Vec::new();
    let mut pauses: usize = 0;
    loop {
        match pacer.next_action() {
            PacerAction::SendNext => {
                sent.push(string_of(pacer.chunk_to_send()));
                pacer.record_sent();
            }
            PacerAction::Pause => {
                pauses += 1;
                pacer.record_pause_elapsed();
            }
            PacerAction::Done => break,
        }
    }
    assert_eq!(sent, vec!["hello\nworl".to_string(), "d\n".to_string()]);
    assert_eq!(pauses, 2);
}
