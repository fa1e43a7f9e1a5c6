use bytes::Bytes;
use ddos_protection_task::challenge::client::Client;
use ddos_protection_task::challenge::error::{ParseRequestErr, ParseResponseErr};
use ddos_protection_task::challenge::helper::ClientHelper;
use ddos_protection_task::challenge::{Request, RequestType, Response, ResponseType};
use ddos_protection_task::common::SocketV4;
use ddos_protection_task::resolver::Resolver;

fn sample_hash() -> [u8; 32] {
    let mut hash = [0u8; 32];
    for (i, byte) in hash.iter_mut().enumerate() {
        *byte = 0xa0 + i as u8;
    }
    hash
}

fn solution_frame() -> Vec<u8> {
    let mut frame = vec![0x02];
    frame.extend_from_slice(&sample_hash());
    frame.extend_from_slice(&[0x01, 0x23, 0x45, 0x67, 0x89, 0xab, 0xcd, 0xef]);
    frame
}

#[test]
fn challenge_request_is_one_zero_byte() {
    assert_eq!(Request::Challenge.encode(), vec![0x00]);
    assert_eq!(Request::Challenge.to_bytes().as_ref(), &[0x00][..]);
}

#[test]
fn solution_request_layout() {
    let request = Request::Solution { hash: sample_hash(), nonce: 0x0123_4567_89ab_cdef };
    let frame = request.encode();
    assert_eq!(frame.len(), 41);
    assert_eq!(frame, solution_frame());
    assert_eq!(request.to_bytes().as_ref(), &solution_frame()[..]);
}

#[test]
fn request_round_trip() {
    let requests = [
        Request::Challenge,
        Request::Solution { hash: sample_hash(), nonce: 0 },
        Request::Solution { hash: [0; 32], nonce: u64::MAX },
        Request::Solution { hash: [0xff; 32], nonce: 0x0102_0304_0506_0708 },
    ];
    for request in requests {
        assert_eq!(Request::decode(&request.encode()), Ok(request));
        assert_eq!(Request::try_from(request.to_bytes()), Ok(request));
    }
}

#[test]
fn send_challenge_layout() {
    let response: Response<[u8; 8], SocketV4> = Response::SendChallenge {
        challenge: [1, 2, 3, 4, 5, 6, 7, 8],
        uniq_key: SocketV4::new(0x7f00_0001, 40000),
    };
    let expected = vec![0x01, 0x7f, 0x00, 0x00, 0x01, 0x9c, 0x40, 1, 2, 3, 4, 5, 6, 7, 8];
    assert_eq!(response.encode(), expected);
    assert_eq!(response.to_bytes().as_ref(), &expected[..]);
}

#[test]
fn confirmation_layout() {
    let yes: Response<[u8; 8], SocketV4> = Response::Confirmation(true);
    let no: Response<[u8; 8], SocketV4> = Response::Confirmation(false);
    assert_eq!(yes.encode(), vec![0x03, 0x01]);
    assert_eq!(no.encode(), vec![0x03, 0x00]);
    assert_eq!(yes.to_bytes().as_ref(), &[0x03, 0x01][..]);
}

#[test]
fn response_round_trip() {
    let keys = [
        SocketV4::new(0, 0),
        SocketV4::new(0x7f00_0001, 40000),
        SocketV4::new(u32::MAX, u16::MAX),
        SocketV4::new(0xc0a8_0102, 0x00ff),
    ];
    for uniq_key in keys {
        let challenge = [9, 8, 7, 6, 5, 4, 3, 2];
        let sent: Response<[u8; 8], SocketV4> = Response::SendChallenge { challenge, uniq_key };
        let expected = Response::SendChallenge { challenge: challenge.to_vec(), uniq_key };
        assert_eq!(Response::decode(&sent.encode()), Ok(expected.clone()));
        assert_eq!(Response::try_from(sent.to_bytes()), Ok(expected));
    }
    for successful in [true, false] {
        let sent: Response<[u8; 8], SocketV4> = Response::Confirmation(successful);
        assert_eq!(Response::decode(&sent.encode()), Ok(Response::Confirmation(successful)));
    }
}

#[test]
fn any_nonzero_byte_confirms() {
    assert_eq!(Response::decode(&[0x03, 0x07]), Ok(Response::Confirmation(true)));
    assert_eq!(Response::decode(&[0x03, 0xff]), Ok(Response::Confirmation(true)));
    assert_eq!(Response::decode(&[0x03, 0x00]), Ok(Response::Confirmation(false)));
}

#[test]
fn empty_datagram_is_rejected() {
    assert_eq!(Request::decode(&[]), Err(ParseRequestErr::EmptyRequest));
    assert_eq!(Response::decode(&[]), Err(ParseResponseErr::EmptyResponse));
    assert_eq!(Request::try_from(Bytes::new()), Err(ParseRequestErr::EmptyRequest));
    assert_eq!(Response::try_from(Bytes::new()), Err(ParseResponseErr::EmptyResponse));
}

#[test]
fn unknown_type_is_rejected() {
    assert_eq!(Request::decode(&[0xff]), Err(ParseRequestErr::UnknownRequestType(0xff)));
    assert_eq!(Request::decode(&[0x01]), Err(ParseRequestErr::UnknownRequestType(0x01)));
    assert_eq!(Request::decode(&[0x03, 0x01]), Err(ParseRequestErr::UnknownRequestType(0x03)));
    assert_eq!(Response::decode(&[0x00]), Err(ParseResponseErr::UnknownResponseType(0x00)));
    assert_eq!(Response::decode(&[0x02; 41]), Err(ParseResponseErr::UnknownResponseType(0x02)));
    assert_eq!(Response::decode(&[0x04, 0x01]), Err(ParseResponseErr::UnknownResponseType(0x04)));
}

#[test]
fn short_frame_is_rejected() {
    let frame = solution_frame();
    for len in 1..41 {
        assert_eq!(Request::decode(&frame[..len]), Err(ParseRequestErr::BadRequest));
    }
    let challenge = [0x01, 127, 0, 0, 1, 0x9c, 0x40, 1, 2, 3, 4, 5, 6, 7, 8];
    for len in 1..15 {
        assert_eq!(Response::decode(&challenge[..len]), Err(ParseResponseErr::BadResponse));
    }
    assert_eq!(Response::decode(&[0x03]), Err(ParseResponseErr::BadResponse));
}

#[test]
fn trailing_bytes_are_ignored() {
    assert_eq!(Request::decode(&[0x00, 0xaa, 0xbb]), Ok(Request::Challenge));
    let mut frame = solution_frame();
    frame.extend_from_slice(&[0xde, 0xad]);
    assert_eq!(
        Request::decode(&frame),
        Ok(Request::Solution { hash: sample_hash(), nonce: 0x0123_4567_89ab_cdef })
    );
    let long = [0x01, 10, 0, 0, 2, 0x00, 0x50, 1, 2, 3, 4, 5, 6, 7, 8, 0xee, 0xee];
    assert_eq!(
        Response::decode(&long),
        Ok(Response::SendChallenge {
            challenge: vec![1, 2, 3, 4, 5, 6, 7, 8],
            uniq_key: SocketV4::new(0x0a00_0002, 80),
        })
    );
    assert_eq!(Response::decode(&[0x03, 0x01, 0x00]), Ok(Response::Confirmation(true)));
}

#[test]
fn arbitrary_bytes_never_crash_the_decoder() {
    let mut state: u64 = 0x9e37_79b9_7f4a_7c15;
    for _ in 0..2000 {
        state = state.wrapping_mul(6364136223846793005).wrapping_add(1442695040888963407);
        let len = (state >> 58) as usize;
        let mut data = Vec::with_capacity(len);
        for _ in 0..len {
            state = state.wrapping_mul(6364136223846793005).wrapping_add(1442695040888963407);
            data.push((state >> 56) as u8);
        }
        let parsed = Request::decode(&data);
        match data.first() {
            None => assert_eq!(parsed, Err(ParseRequestErr::EmptyRequest)),
            Some(0) => assert_eq!(parsed, Ok(Request::Challenge)),
            Some(2) if data.len() >= 41 => assert!(matches!(parsed, Ok(Request::Solution { .. }))),
            Some(2) => assert_eq!(parsed, Err(ParseRequestErr::BadRequest)),
            Some(&other) => assert_eq!(parsed, Err(ParseRequestErr::UnknownRequestType(other))),
        }
        assert_eq!(Request::try_from(Bytes::copy_from_slice(&data)), parsed);
        let response = Response::decode(&data);
        assert_eq!(Response::try_from(Bytes::copy_from_slice(&data)), response);
    }
}

#[test]
fn type_bytes() {
    assert_eq!(RequestType::RequestChallenge.code(), 0x00);
    assert_eq!(ResponseType::SendChallenge.code(), 0x01);
    assert_eq!(RequestType::Solution.code(), 0x02);
    assert_eq!(ResponseType::Confirmation.code(), 0x03);
    assert_eq!(RequestType::try_from(0), Ok(RequestType::RequestChallenge));
    assert_eq!(RequestType::try_from(2), Ok(RequestType::Solution));
    assert_eq!(RequestType::try_from(1), Err(ParseRequestErr::UnknownRequestType(1)));
    assert_eq!(ResponseType::try_from(1), Ok(ResponseType::SendChallenge));
    assert_eq!(ResponseType::try_from(3), Ok(ResponseType::Confirmation));
    assert_eq!(ResponseType::try_from(0), Err(ParseResponseErr::UnknownResponseType(0)));
    assert_eq!(RequestType::from(&Request::Challenge), RequestType::RequestChallenge);
    assert_eq!(
        RequestType::from(&Request::Solution { hash: [0; 32], nonce: 1 }),
        RequestType::Solution
    );
    let confirmation: Response<Vec<u8>, SocketV4> = Response::Confirmation(true);
    assert_eq!(ResponseType::from(&confirmation), ResponseType::Confirmation);
}

#[test]
fn client_helper_frames() {
    assert_eq!(ClientHelper::challenge_request().as_ref(), &[0x00][..]);
    assert_eq!(
        ClientHelper::solution_request(&sample_hash(), 0x0123_4567_89ab_cdef).as_ref(),
        &solution_frame()[..]
    );
    assert_eq!(
        ClientHelper::decode_response(Bytes::copy_from_slice(&[0x03, 0x01])),
        Ok(Response::Confirmation(true))
    );
    assert_eq!(
        ClientHelper::decode_response(Bytes::copy_from_slice(&[0x09])),
        Err(ParseResponseErr::UnknownResponseType(0x09))
    );
}

#[test]
fn client_frames() {
    let _client: Client<Resolver> = Client::new();
    assert_eq!(Client::<Resolver>::challenge_request().as_ref(), &[0x00][..]);
    assert_eq!(
        Client::<Resolver>::solution_request(&sample_hash(), 0x0123_4567_89ab_cdef).as_ref(),
        &solution_frame()[..]
    );
    assert_eq!(
        Client::<Resolver>::decode_response(Bytes::copy_from_slice(&[
            0x01, 1, 2, 3, 4, 0x12, 0x34, 8, 7, 6, 5, 4, 3, 2, 1
        ])),
        Ok(Response::SendChallenge {
            challenge: vec![8, 7, 6, 5, 4, 3, 2, 1],
            uniq_key: SocketV4::new(0x0102_0304, 0x1234),
        })
    );
}
