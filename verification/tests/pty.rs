use tos_dream::pty::{PtyEvent, PtyParser};

#[test]
fn test_pty_parser_osc() {
    let data = "normal text\x1b]1337;CurrentDir=/home/user\x07more text";
    let events = PtyParser::parse_data(data);
    assert!(events.iter().any(|e| matches!(e, PtyEvent::DirectoryChanged(ref d) if d == "/home/user")));
    assert!(events.iter().any(|e| matches!(e, PtyEvent::Output(ref o) if o == data)));
}

#[test]
fn test_pty_parser_no_osc() {
    let data = "just some text";
    let events = PtyParser::parse_data(data);
    assert_eq!(events.len(), 1);
    assert_eq!(events[0], PtyEvent::Output(data.to_string()));
}

#[test]
fn pty_parser_reads_every_directory_in_order() {
    let data = "\x1b]1337;CurrentDir=/a\x1b\\x\x1b]1337;Other=1\x07\x1b]1337;CurrentDir=/b\x07";
    let events = PtyParser::parse_data(data);
    assert_eq!(
        events,
        vec![
            PtyEvent::DirectoryChanged("/a".to_string()),
            PtyEvent::DirectoryChanged("/b".to_string()),
            PtyEvent::Output(data.to_string()),
        ]
    );
}

#[test]
fn unterminated_directory_is_ignored() {
    let data = "\x1b]1337;CurrentDir=/nowhere";
    let events = PtyParser::parse_data(data);
    assert_eq!(events, vec![PtyEvent::Output(data.to_string())]);
}
