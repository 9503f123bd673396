use eng_session::handshake::{
    echo_reply, handle_handshake_logic, relay_handshake, response_tag, MyEditorService, Responder,
};

fn messages(list: &[&str]) -> Vec<Result<String, String>> {
    list.iter().map(|m| Ok(m.to_string())).collect()
}

#[test]
fn test_handshake_server_logic() {
    let client_messages = vec!["Hello".to_string(), "World".to_string()];
    let request_stream: Vec<Result<String, String>> =
        client_messages.iter().cloned().map(Ok).collect();

    let response_stream = handle_handshake_logic(&request_stream);
    let mut responses = response_stream.iter();

    let first_response = responses.next().unwrap();
    assert_eq!(*first_response, "Echo: Hello".to_string());

    let second_response = responses.next().unwrap();
    assert_eq!(*second_response, "Echo: World".to_string());

    assert!(responses.next().is_none());
}

#[test]
fn broker_answers_under_its_own_tag() {
    let out = relay_handshake(Responder::Broker, &messages(&["Hello from GUI!", "x"]));
    assert_eq!(out, vec!["Agent Proxy: Hello from GUI!", "Agent Proxy: x"]);
    assert_eq!(response_tag(Responder::Broker), "Agent Proxy: ");
    assert_eq!(response_tag(Responder::ContentServer), "Echo: ");
}

#[test]
fn answers_keep_the_order_of_arrival() {
    let input: Vec<String> = (0..50).map(|i| format!("m{}", i)).collect();
    let stream: Vec<Result<String, String>> = input.iter().cloned().map(Ok).collect();
    let out = handle_handshake_logic(&stream);
    assert_eq!(out.len(), 50);
    for (i, reply) in out.iter().enumerate() {
        assert_eq!(*reply, format!("Echo: m{}", i));
    }
}

#[test]
fn empty_stream_gets_no_answer() {
    assert!(handle_handshake_logic(&Vec::new()).is_empty());
}

#[test]
fn a_failure_ends_the_exchange() {
    let stream = vec![
        Ok("a".to_string()),
        Ok("b".to_string()),
        Err("stream reset".to_string()),
        Ok("c".to_string()),
    ];
    assert_eq!(handle_handshake_logic(&stream), vec!["Echo: a", "Echo: b"]);
    let stream = vec![Err("at once".to_string()), Ok("c".to_string())];
    assert!(relay_handshake(Responder::Broker, &stream).is_empty());
}

#[test]
fn answers_to_a_longer_stream_extend_the_answers_so_far() {
    let whole = messages(&["a", "b", "c", "d"]);
    let all = handle_handshake_logic(&whole);
    for k in 0..=whole.len() {
        let head: Vec<Result<String, String>> = whole[..k].to_vec();
        assert_eq!(handle_handshake_logic(&head), all[..k].to_vec());
    }
}

#[test]
fn echo_reply_puts_the_tag_in_front() {
    assert_eq!(echo_reply(Responder::ContentServer, ""), "Echo: ");
    assert_eq!(echo_reply(Responder::ContentServer, "Echo: x"), "Echo: Echo: x");
    assert_eq!(echo_reply(Responder::Broker, "日本"), "Agent Proxy: 日本");
}

#[test]
fn service_answers_like_the_free_function() {
    let service = MyEditorService::default();
    let stream = messages(&["Hello", "World"]);
    assert_eq!(service.handshake(&stream), handle_handshake_logic(&stream));
}
