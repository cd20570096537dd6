use node_cluster::session::{Console, ConsoleInteractor, SessionError};

fn interactor() -> ConsoleInteractor {
    ConsoleInteractor::new(Console::new(String::from("test")))
}

#[test]
fn command_mode_trimming() {
    // input bounded by the sentinel yields exactly the quoted payload
    let mut itr = interactor();
    itr.console.feed(b"  \"0xABC\"\n>");
    let resp = itr.send_with_resp(b"eth.accounts[0]").unwrap();
    assert_eq!(resp, "0xABC");
}

#[test]
fn send_appends_line_terminator() {
    let mut itr = interactor();
    itr.send(b"miner.start()");
    assert_eq!(itr.console.take_output(), b"miner.start()\n".to_vec());
    assert_eq!(itr.console.take_output(), Vec::<u8>::new());
}

#[test]
fn recv_strips_sentinel_and_keeps_rest() {
    let mut itr = interactor();
    itr.console.feed(b"hello>rest");
    let mut buf = Vec::new();
    let n = itr.recv(&mut buf).unwrap();
    assert_eq!(n, 5);
    assert_eq!(buf, b"hello".to_vec());
    assert_eq!(itr.console.incoming, b"rest".to_vec());
}

#[test]
fn recv_without_sentinel_fails_and_consumes_nothing() {
    let mut itr = interactor();
    itr.console.feed(b"no prompt here");
    let mut buf = Vec::new();
    assert_eq!(itr.recv(&mut buf), Err(SessionError::PromptMissing));
    assert!(buf.is_empty());
    assert_eq!(itr.console.incoming, b"no prompt here".to_vec());
}

#[test]
fn non_ascii_response_is_bad_encoding() {
    let mut itr = interactor();
    itr.console.feed(&[0xFFu8, b'>']);
    assert_eq!(itr.send_with_resp(b"q"), Err(SessionError::BadEncoding));
}

#[test]
fn send_on_prompt_waits_then_sends() {
    let mut itr = interactor();
    itr.console.feed(b"Please specify a network name >");
    itr.send_on_prompt(b"auto_test").unwrap();
    assert_eq!(itr.console.take_output(), b"auto_test\n".to_vec());
    assert!(itr.console.incoming.is_empty());
    // without a prompt the exchange fails and nothing is sent
    assert_eq!(itr.send_on_prompt(b"2"), Err(SessionError::PromptMissing));
    assert_eq!(itr.console.take_output(), Vec::<u8>::new());
}

#[test]
fn delimeter_can_be_changed() {
    let mut itr = interactor();
    assert_eq!(itr._delimeter(), b'>');
    itr._set_delimeter(b'$');
    assert_eq!(itr._delimeter(), b'$');
    itr.console.feed(b"ok$");
    let resp = itr.send_with_resp(b"x").unwrap();
    assert_eq!(resp, "ok");
}

#[test]
fn trimming_removes_whitespace_and_quotes_only_at_ends() {
    let mut itr = interactor();
    itr.console.feed(b"\t \"a \"b\" c\" \r\n>");
    let resp = itr.send_with_resp(b"q").unwrap();
    assert_eq!(resp, "a \"b\" c");
}
