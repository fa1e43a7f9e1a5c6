use ddos_protection_task::challenge::error::ParseResponseErr;
use ddos_protection_task::challenge::server::Processor;
use ddos_protection_task::challenge::{Request, Response};
use ddos_protection_task::common::SocketV4;
use ddos_protection_task::engine::Engine;
use ddos_protection_task::handshake::{
    on_challenge, on_confirmation, start_handshake, udp_handshake, Action, Event, Failure,
    Handshake,
};
use ddos_protection_task::hashcash::Hashcash;
use ddos_protection_task::resolver::Resolver;

const PEER: SocketV4 = SocketV4 { address: 0x7f00_0001, port: 40000 };

const CHALLENGE_FRAME: [u8; 15] = [0x01, 0x7f, 0, 0, 1, 0x9c, 0x40, 1, 2, 3, 4, 5, 6, 7, 8];

fn from_server(data: &[u8]) -> Event {
    Event::Datagram { from_server: true, data: data.to_vec() }
}

#[test]
fn handshake_opens_with_a_challenge_request() {
    let (state, frame) = start_handshake();
    assert_eq!(state, Handshake::AwaitChallenge);
    assert_eq!(frame, vec![0x00]);
    assert_eq!(state.expected_len(), 15);
    assert_eq!(Handshake::AwaitConfirmation { uniq_key: PEER }.expected_len(), 2);
}

#[test]
fn client_and_server_complete_a_handshake() {
    let resolver = Resolver::new(8);
    let mut processor = Processor::new(Engine::new(8));
    let (state, frame) = start_handshake();
    let response = processor.process_datagram(&frame, PEER).expect("a challenge");
    let (state, action) = udp_handshake(&resolver, state, from_server(&response.encode()));
    assert_eq!(state, Handshake::AwaitConfirmation { uniq_key: PEER });
    let solution = match action {
        Action::Send(frame) => frame,
        other => panic!("no solution: {:?}", other),
    };
    let response = processor.process_datagram(&solution, PEER).expect("a confirmation");
    assert_eq!(response, Response::Confirmation(true));
    let (state, action) = udp_handshake(&resolver, state, from_server(&response.encode()));
    assert_eq!(state, Handshake::Closed);
    assert_eq!(action, Action::Connect(PEER));
}

#[test]
fn challenge_is_answered_with_its_lowest_solution() {
    let resolver = Resolver::new(8);
    let (state, action) = on_challenge(&resolver, &CHALLENGE_FRAME);
    assert_eq!(state, Handshake::AwaitConfirmation { uniq_key: PEER });
    let frame = match action {
        Action::Send(frame) => frame,
        other => panic!("no solution: {:?}", other),
    };
    let prefix = vec![1, 2, 3, 4, 5, 6, 7, 8, 0x7f, 0, 0, 1, 0x9c, 0x40];
    let (hash, nonce) = Hashcash::new(prefix).compute(8).expect("a nonce");
    assert_eq!(Request::decode(&frame), Ok(Request::Solution { hash, nonce }));
    assert_eq!(frame.len(), 41);
}

#[test]
fn events_that_are_not_the_servers_are_passed_over() {
    let resolver = Resolver::new(8);
    for state in [
        Handshake::AwaitChallenge,
        Handshake::AwaitConfirmation { uniq_key: PEER },
        Handshake::Closed,
    ] {
        assert_eq!(udp_handshake(&resolver, state, Event::ReceiveFailed), (state, Action::Wait));
        let stranger = Event::Datagram { from_server: false, data: CHALLENGE_FRAME.to_vec() };
        assert_eq!(udp_handshake(&resolver, state, stranger), (state, Action::Wait));
        let stranger = Event::Datagram { from_server: false, data: vec![0x03, 0x01] };
        assert_eq!(udp_handshake(&resolver, state, stranger), (state, Action::Wait));
    }
    assert_eq!(
        udp_handshake(&resolver, Handshake::Closed, from_server(&[0x03, 0x01])),
        (Handshake::Closed, Action::Wait)
    );
}

#[test]
fn wrong_size_closes_the_handshake() {
    let resolver = Resolver::new(8);
    assert_eq!(
        udp_handshake(&resolver, Handshake::AwaitChallenge, from_server(&CHALLENGE_FRAME[..14])),
        (Handshake::Closed, Action::Abort(Failure::WrongSize { expected: 15, actual: 14 }))
    );
    assert_eq!(
        udp_handshake(&resolver, Handshake::AwaitChallenge, from_server(&[0x03, 0x01])),
        (Handshake::Closed, Action::Abort(Failure::WrongSize { expected: 15, actual: 2 }))
    );
    let state = Handshake::AwaitConfirmation { uniq_key: PEER };
    assert_eq!(
        udp_handshake(&resolver, state, from_server(&[0x03])),
        (Handshake::Closed, Action::Abort(Failure::WrongSize { expected: 2, actual: 1 }))
    );
    assert_eq!(
        udp_handshake(&resolver, state, from_server(&[])),
        (Handshake::Closed, Action::Abort(Failure::WrongSize { expected: 2, actual: 0 }))
    );
}

#[test]
fn unexpected_response_closes_the_handshake() {
    let resolver = Resolver::new(8);
    let mut confirmation = [0u8; 15];
    confirmation[0] = 0x03;
    confirmation[1] = 0x01;
    assert_eq!(
        udp_handshake(&resolver, Handshake::AwaitChallenge, from_server(&confirmation)),
        (Handshake::Closed, Action::Abort(Failure::UnexpectedResponse))
    );
    assert_eq!(
        on_confirmation(PEER, &[0x01, 0x02]),
        Action::Abort(Failure::Parse(ParseResponseErr::BadResponse))
    );
}

#[test]
fn unreadable_response_closes_the_handshake() {
    let resolver = Resolver::new(8);
    assert_eq!(
        udp_handshake(&resolver, Handshake::AwaitChallenge, from_server(&[0xff; 15])),
        (
            Handshake::Closed,
            Action::Abort(Failure::Parse(ParseResponseErr::UnknownResponseType(0xff)))
        )
    );
    assert_eq!(
        on_confirmation(PEER, &[0x00, 0x01]),
        Action::Abort(Failure::Parse(ParseResponseErr::UnknownResponseType(0x00)))
    );
}

#[test]
fn refused_solution_closes_the_handshake() {
    assert_eq!(on_confirmation(PEER, &[0x03, 0x00]), Action::Abort(Failure::SolvedWrong));
    assert_eq!(on_confirmation(PEER, &[0x03, 0x01]), Action::Connect(PEER));
    assert_eq!(on_confirmation(PEER, &[0x03, 0x80]), Action::Connect(PEER));
}
