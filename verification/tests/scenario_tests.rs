use cipher_echo::address::HostAddress;
use cipher_echo::cipher::encode;
use cipher_echo::client::{ClientAction, ClientSession};
use cipher_echo::framing::decode_frame;
use cipher_echo::networking_util::{
    check_valid_ip, client_arg_validation, client_response_handler, client_startup, format_send,
};
use cipher_echo::server::{
    split_payload, ConnectionTask, Listener, ListenerAction, ListenerState, TaskAction, TaskState,
};
use cipher_echo::shutdown::ShutdownFlag;
use cipher_echo::transport::{Outcome, EXIT_OK};

fn args(items: &[&str]) -> Vec<String> {
    items.iter().map(|s| s.to_string()).collect()
}

fn reply_of(action: TaskAction) -> Vec<u8> {
    match action {
        TaskAction::Reply(bytes) => bytes,
        other => panic!("no reply: {:?}", other),
    }
}

#[test]
fn one_exchange_from_command_line_to_reply() {
    let command_line = args(&["client", "hello", "abc", "127.0.0.1", "8080"]);
    assert_eq!(client_arg_validation(&command_line), Ok(()));

    // The client frames key and message.
    let frame = format_send(command_line).unwrap();
    assert_eq!(frame, b"abc|hello".to_vec());
    assert_eq!(frame.len(), 9);
    let mut session = ClientSession::new(frame.len(), 1, 0);
    assert_eq!(session.step(Outcome::Done(0)).next, ClientAction::Send { wait_ms: 0 });
    assert_eq!(session.step(Outcome::Done(frame.len())).next, ClientAction::AwaitReply);

    // The server reads the frame into its buffer, splits it and replies.
    let mut server_buffer = [0u8; 1024];
    server_buffer[..frame.len()].copy_from_slice(&frame);
    assert_eq!(
        decode_frame(&server_buffer, frame.len()),
        Ok((b"abc".to_vec(), b"hello".to_vec()))
    );
    let mut task = ConnectionTask::new();
    let reply = reply_of(task.step(&server_buffer, Outcome::Done(frame.len())));
    assert_eq!(reply, b"abc|hdjln".to_vec());

    // The client gets the reply as it was sent.
    let mut client_buffer = [0u8; 1024];
    client_buffer[..reply.len()].copy_from_slice(&reply);
    let received = client_response_handler(&client_buffer, Some(reply.len()));
    assert_eq!(received, Some(reply.clone()));
    assert_eq!(session.step(Outcome::Done(reply.len())).next, ClientAction::Exit { status: EXIT_OK });

    // And can read the message back out of it.
    let (key, text) = decode_frame(&client_buffer, reply.len()).unwrap();
    assert_eq!(encode(&key, &text), Ok(b"hello".to_vec()));
}

#[test]
fn two_concurrent_sessions_do_not_mix() {
    let alone_cat = split_payload(b"cat|meow", 8).unwrap();
    let alone_dog = split_payload(b"dog|woof", 8).unwrap();
    assert_eq!(alone_cat, b"cat|kevu".to_vec());
    assert_eq!(alone_dog, b"dog|taic".to_vec());

    let mut cat = ConnectionTask::new();
    let mut dog = ConnectionTask::new();
    let mut cat_buffer = [0u8; 1024];
    let mut dog_buffer = [0u8; 1024];
    for round in 0..4 {
        cat_buffer[..8].copy_from_slice(b"cat|meow");
        dog_buffer[..8].copy_from_slice(b"dog|woof");
        // The two tasks take turns in a different order every round.
        let (cat_reply, dog_reply) = if round % 2 == 0 {
            let c = reply_of(cat.step(&cat_buffer, Outcome::Done(8)));
            let d = reply_of(dog.step(&dog_buffer, Outcome::Done(8)));
            assert!(matches!(dog.step(&dog_buffer, Outcome::Done(8)), TaskAction::Read));
            assert!(matches!(cat.step(&cat_buffer, Outcome::Done(8)), TaskAction::Read));
            (c, d)
        } else {
            let d = reply_of(dog.step(&dog_buffer, Outcome::Done(8)));
            assert!(matches!(dog.step(&dog_buffer, Outcome::Done(8)), TaskAction::Read));
            let c = reply_of(cat.step(&cat_buffer, Outcome::Done(8)));
            assert!(matches!(cat.step(&cat_buffer, Outcome::Done(8)), TaskAction::Read));
            (c, d)
        };
        assert_eq!(cat_reply, alone_cat);
        assert_eq!(dog_reply, alone_dog);
        assert_eq!(&cat_buffer[..8], b"cat|meow");
        assert_eq!(&dog_buffer[..8], b"dog|woof");
    }

    // One task failing leaves the other as it was.
    assert!(matches!(dog.step(b"garbage", Outcome::Done(7)), TaskAction::Abort(_)));
    assert_eq!(dog.state(), TaskState::Finished);
    assert_eq!(cat.state(), TaskState::Reading);
    assert_eq!(reply_of(cat.step(&cat_buffer, Outcome::Done(8))), alone_cat);
}

#[test]
fn shutdown_while_idle_stops_the_loop_and_spares_the_sessions() {
    let mut flag = ShutdownFlag::new();
    let mut listener = Listener::new();

    // One connection is accepted just before the signal.
    assert_eq!(listener.poll(&flag), ListenerAction::Accept);
    assert_eq!(listener.accepted(true), ListenerAction::Spawn);
    let mut task = ConnectionTask::new();
    assert_eq!(reply_of(task.step(b"abc|hello", Outcome::Done(9))), b"abc|hdjln".to_vec());

    // The signal arrives while the loop is idle; the next poll ends it.
    assert!(flag.request_stop());
    assert_eq!(listener.state(), ListenerState::Listening);
    assert_eq!(listener.poll(&flag), ListenerAction::Exit { status: EXIT_OK });
    assert_eq!(EXIT_OK, 0);
    assert_eq!(listener.state(), ListenerState::Stopped);

    // The session that was accepted goes on until its peer closes.
    assert!(matches!(task.step(b"abc|hello", Outcome::Done(9)), TaskAction::Read));
    assert_eq!(reply_of(task.step(b"abc|world", Outcome::Done(9))), b"abc|wnplc".to_vec());
    assert!(matches!(task.step(b"abc|world", Outcome::Done(9)), TaskAction::Read));
    assert!(matches!(task.step(b"abc|world", Outcome::Done(0)), TaskAction::Close));
    assert_eq!(task.state(), TaskState::Finished);
}

#[test]
fn unspecified_address_fails_before_any_connection() {
    let command_line = args(&["client", "hello", "abc", "0.0.0.0", "8080"]);
    assert_eq!(client_arg_validation(&command_line), Ok(()));
    // `0.0.0.0` parses to the address of four zero octets.
    let parsed = Some(HostAddress::V4([0, 0, 0, 0]));
    assert_eq!(check_valid_ip(parsed), Err("IP address not allowed for use".to_string()));
    // So the startup ends without an endpoint to connect to.
    assert_eq!(
        client_startup(&command_line, parsed),
        Err("Ip address error: IP address not allowed for use".to_string())
    );
}
