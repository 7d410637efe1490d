use io_proxy::router::{route_message, split_lines, write_commands};

fn chars(s: &str) -> Vec<char> {
    s.chars().collect()
}

fn string_of(v: &Vec<char>) -> String {
    v.iter().collect()
}

fn strings_of(vs: &Vec<Vec<char>>) -> Vec<String> {
    vs.iter().map(string_of).collect()
}

const MASTER: i64 = 42;

#[test]
fn comment_lines_are_never_written() {
    let cmds = route_message(MASTER, MASTER, &chars("#comment\ndo-thing\n"), '#');
    assert_eq!(strings_of(&cmds), vec!["do-thing\n".to_string()]);
}

#[test]
fn unauthorized_sender_yields_no_commands() {
    let cmds = route_message(MASTER, MASTER + 1, &chars("#comment\ndo-thing\n"), '#');
    assert!(cmds.is_empty());
}

#[test]
fn non_comment_lines_keep_their_order() {
    let cmds = route_message(MASTER, MASTER, &chars("alpha\n#skip\nbeta"), '#');
    assert_eq!(
        strings_of(&cmds),
        vec!["alpha\n".to_string(), "beta\n".to_string()]
    );
}

#[test]
fn empty_message_yields_no_commands() {
    let cmds = route_message(MASTER, MASTER, &chars(""), '#');
    assert!(cmds.is_empty());
}

#[test]
fn blank_line_is_not_a_comment() {
    let cmds = route_message(MASTER, MASTER, &chars("a\n\nb"), '#');
    assert_eq!(
        strings_of(&cmds),
        vec!["a\n".to_string(), "\n".to_string(), "b\n".to_string()]
    );
}

#[test]
fn split_lines_handles_crlf_endings() {
    let lines = split_lines(&chars("a\r\nb\r\n"));
    assert_eq!(strings_of(&lines), vec!["a".to_string(), "b".to_string()]);
}

#[test]
fn split_lines_keeps_a_lone_trailing_carriage_return() {
    let lines = split_lines(&chars("a\r"));
    assert_eq!(strings_of(&lines), vec!["a\r".to_string()]);
}

#[test]
fn split_lines_drops_only_the_final_line_ending() {
    let lines = split_lines(&chars("a\nb\n"));
    assert_eq!(strings_of(&lines), vec!["a".to_string(), "b".to_string()]);
    let lines = split_lines(&chars("a\nb"));
    assert_eq!(strings_of(&lines), vec!["a".to_string(), "b".to_string()]);
    let lines = split_lines(&chars("a\n\nb"));
    assert_eq!(
        strings_of(&lines),
        vec!["a".to_string(), "".to_string(), "b".to_string()]
    );
}

#[test]
fn messages_written_in_sequence_form_contiguous_blocks() {
    let first = route_message(MASTER, MASTER, &chars("one\ntwo\n"), '#');
    let second = route_message(MASTER, MASTER, &chars("three\n"), '#');
    let mut sink: Vec<char> = chars("earlier\n");
    write_commands(&mut sink, &first);
    write_commands(&mut sink, &second);
    assert_eq!(string_of(&sink), "earlier\none\ntwo\nthree\n");
    // Each message's lines stand as one contiguous block, in write order.
    let text = string_of(&sink);
    assert_eq!(&text[8..16], "one\ntwo\n");
    assert_eq!(&text[16..], "three\n");
}
