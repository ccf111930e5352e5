use netpod_sqlite::decode::DecodeError;
use netpod_sqlite::framing::FrameStep;
use netpod_sqlite::framing::Framer;
use netpod_sqlite::protocol::Op;
use netpod_sqlite::protocol::Request;

fn feed_bytewise(message: &[u8]) -> (usize, Option<Request>) {
    let mut framer = Framer::new();
    let mut fed: usize = 0;
    for byte in message {
        fed += 1;
        match framer.feed(&[*byte]) {
            FrameStep::NeedMore(next) => framer = next,
            FrameStep::Complete(request) => return (fed, Some(request)),
            FrameStep::Failed(e) => panic!("failed: {:?}", e),
        }
    }
    (fed, None)
}

#[test]
fn describe_arrives_with_its_last_byte() {
    let message = b"d2:op8:describee";
    let (fed, request) = feed_bytewise(message);
    assert_eq!(fed, message.len());
    assert_eq!(request, Some(Request { op: Op::Describe, id: None, var: None, args: None }));
}

#[test]
fn invoke_arrives_with_its_last_byte() {
    let message =
        b"d4:args27:[\"select 1 as e, 'e' as e\"]2:id1:e2:op6:invoke3:var27:netpod.jlabath.sqlite/querye";
    let (fed, request) = feed_bytewise(message);
    assert_eq!(fed, message.len());
    assert_eq!(
        request,
        Some(Request {
            op: Op::Invoke,
            id: Some("e".to_string()),
            var: Some("netpod.jlabath.sqlite/query".to_string()),
            args: Some("[\"select 1 as e, 'e' as e\"]".to_string()),
        })
    );
}

#[test]
fn unfinished_message_keeps_the_framer_waiting() {
    let message = b"d2:op8:describe";
    let (fed, request) = feed_bytewise(message);
    assert_eq!(fed, message.len());
    assert_eq!(request, None);
}

#[test]
fn message_in_one_chunk() {
    match Framer::new().feed(b"d2:op8:describee") {
        FrameStep::Complete(request) => assert_eq!(request.op, Op::Describe),
        _ => panic!("not complete"),
    }
}

#[test]
fn message_in_two_chunks() {
    let framer = match Framer::new().feed(b"d2:op8:descr") {
        FrameStep::NeedMore(framer) => framer,
        _ => panic!("should wait"),
    };
    assert_eq!(framer.buffered(), b"d2:op8:descr");
    match framer.feed(b"ibee") {
        FrameStep::Complete(request) => assert_eq!(request.op, Op::Describe),
        _ => panic!("not complete"),
    }
}

#[test]
fn chunk_that_ends_on_the_terminator_inside_a_string_waits() {
    let framer = match Framer::new().feed(b"d2:op8:describe") {
        FrameStep::NeedMore(framer) => framer,
        _ => panic!("should wait"),
    };
    match framer.feed(b"e") {
        FrameStep::Complete(request) => assert_eq!(request.op, Op::Describe),
        _ => panic!("not complete"),
    }
}

#[test]
fn malformed_chunk_keeps_the_framer_waiting() {
    match Framer::new().feed(b"xe") {
        FrameStep::NeedMore(framer) => assert_eq!(framer.buffered(), b"xe"),
        _ => panic!("should wait"),
    }
}

#[test]
fn close_on_nothing_fails() {
    match Framer::new().feed(b"") {
        FrameStep::Failed(e) => assert_eq!(e, DecodeError::Incomplete),
        _ => panic!("should fail"),
    }
}

#[test]
fn close_on_unfinished_message_fails() {
    let framer = match Framer::new().feed(b"d2:op8:descr") {
        FrameStep::NeedMore(framer) => framer,
        _ => panic!("should wait"),
    };
    match framer.feed(b"") {
        FrameStep::Failed(DecodeError::Malformed(_)) => {}
        _ => panic!("should fail as malformed"),
    }
}

#[test]
fn close_decodes_whatever_the_last_byte() {
    let framer = match Framer::new().feed(b"d2:op6:invokee\n") {
        FrameStep::NeedMore(framer) => framer,
        _ => panic!("should wait"),
    };
    assert_eq!(framer.buffered(), b"d2:op6:invokee\n");
    match framer.feed(b"") {
        FrameStep::Failed(e) => assert_eq!(e, DecodeError::TrailingData),
        _ => panic!("should fail"),
    }
}

#[test]
fn close_on_a_message_that_did_not_decode_before_decodes_it() {
    let framer = match Framer::new().feed(b"d2:op8:descr") {
        FrameStep::NeedMore(framer) => framer,
        _ => panic!("should wait"),
    };
    let framer = match framer.feed(b"ibe") {
        FrameStep::NeedMore(framer) => framer,
        _ => panic!("should wait"),
    };
    match framer.feed(b"") {
        FrameStep::Failed(DecodeError::Malformed(_)) => {}
        _ => panic!("should fail as malformed"),
    }
}

#[test]
fn close_on_malformed_message_fails_with_the_complaint() {
    let framer = match Framer::new().feed(b"d2:op8:describe") {
        FrameStep::NeedMore(framer) => framer,
        _ => panic!("should wait"),
    };
    match framer.feed(b"") {
        FrameStep::Failed(DecodeError::Malformed(_)) => {}
        _ => panic!("should fail as malformed"),
    }
}

#[test]
fn message_is_cut_at_its_first_prefix_that_decodes() {
    let (fed, request) = feed_bytewise(b"d2:op8:describeed2:op6:invokee");
    assert_eq!(fed, 16);
    assert_eq!(request, Some(Request { op: Op::Describe, id: None, var: None, args: None }));
}

#[test]
fn two_messages_in_one_chunk_are_no_message() {
    let framer = match Framer::new().feed(b"d2:op8:describeed2:op6:invokee") {
        FrameStep::NeedMore(framer) => framer,
        _ => panic!("should wait"),
    };
    match framer.feed(b"") {
        FrameStep::Failed(e) => assert_eq!(e, DecodeError::TrailingData),
        _ => panic!("should fail"),
    }
}
