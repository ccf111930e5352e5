use bendy::decoding::Decoder;
use bendy::decoding::Object;
use bendy::encoding::AsString;
use bendy::encoding::Encoder;
use netpod_sqlite::dispatch::handle_describe;
use netpod_sqlite::protocol::err_response;
use netpod_sqlite::protocol::invoke_response;
use netpod_sqlite::protocol::ErrorResponse;
use netpod_sqlite::protocol::InvokeResponse;
use netpod_sqlite::protocol::Response;
use netpod_sqlite::protocol::Status;

#[test]
fn invoke_response_on_the_wire() {
    let response = invoke_response("1".to_string(), b"[[1,\"a\"]]".to_vec());
    let bytes = response.to_bencode().unwrap();
    assert_eq!(bytes, b"d2:id1:16:status4:done5:value9:[[1,\"a\"]]e".to_vec());
}

#[test]
fn invoke_response_round_trips_through_a_bencode_reader() {
    let value = b"[[1,\"a\"]]".to_vec();
    let response = invoke_response("1".to_string(), value.clone());
    let bytes = response.to_bencode().unwrap();

    let mut decoder = Decoder::new(&bytes);
    let object = decoder.next_object().unwrap().unwrap();
    let mut dict = object.try_into_dictionary().unwrap();
    let mut id: Option<Vec<u8>> = None;
    let mut status: Option<Vec<u8>> = None;
    let mut read_value: Option<Vec<u8>> = None;
    let mut keys: Vec<Vec<u8>> = Vec::new();
    while let Some((key, item)) = dict.next_pair().unwrap() {
        keys.push(key.to_vec());
        let bytes = item.try_into_bytes().unwrap().to_vec();
        if key == b"id" {
            id = Some(bytes);
        } else if key == b"status" {
            status = Some(bytes);
        } else if key == b"value" {
            read_value = Some(bytes);
        }
    }
    assert_eq!(keys, vec![b"id".to_vec(), b"status".to_vec(), b"value".to_vec()]);
    assert_eq!(id, Some(b"1".to_vec()));
    assert_eq!(status, Some(b"done".to_vec()));
    assert_eq!(read_value, Some(value));
}

#[test]
fn describe_response_on_the_wire() {
    let bytes = handle_describe().to_bencode().unwrap();
    let expected = "d6:format4:json2:nsld4:name21:netpod.jlabath.sqlite4:varsl\
d4:name5:queryed4:name4:execed4:name6:appendeeeee";
    assert_eq!(String::from_utf8(bytes).unwrap(), expected);
}

#[test]
fn describe_response_is_valid_bencode() {
    let bytes = handle_describe().to_bencode().unwrap();
    let mut count: usize = 0;
    for token in Decoder::new(&bytes).tokens() {
        assert!(token.is_ok());
        count += 1;
    }
    assert_eq!(count, 26);
}

#[test]
fn error_response_with_id_on_the_wire() {
    let response = err_response(Some("42".to_string()), "boom".to_string());
    let bytes = response.to_bencode().unwrap();
    assert_eq!(bytes, b"d10:ex-message4:boom2:id2:426:status5:errore".to_vec());
}

#[test]
fn error_response_without_id_on_the_wire() {
    let response = err_response(None, "boom".to_string());
    let bytes = response.to_bencode().unwrap();
    assert_eq!(bytes, b"d10:ex-message4:boom6:status5:errore".to_vec());
}

#[test]
fn status_is_written_as_the_response_holds_it() {
    let response = InvokeResponse { id: "a".to_string(), status: Status::Error, value: Vec::new() };
    assert_eq!(response.to_bencode().unwrap(), b"d2:id1:a6:status5:error5:value0:e".to_vec());
    let response = ErrorResponse { id: None, status: Status::Done, ex_message: String::new() };
    assert_eq!(response.to_bencode().unwrap(), b"d10:ex-message0:6:status4:donee".to_vec());
}

#[test]
fn lengths_are_decimal_and_count_bytes() {
    let value: Vec<u8> = vec![0u8; 1234];
    let response = invoke_response("é".to_string(), value.clone());
    let bytes = response.to_bencode().unwrap();
    let mut expected: Vec<u8> = Vec::new();
    expected.extend_from_slice(b"d2:id2:");
    expected.extend_from_slice("é".as_bytes());
    expected.extend_from_slice(b"6:status4:done5:value1234:");
    expected.extend_from_slice(&value);
    expected.push(b'e');
    assert_eq!(bytes, expected);
}

#[test]
fn invoke_response_matches_the_bencode_writer() {
    let id = "request-17".to_string();
    let value = b"[[null,-3,\"x\"],[]]".to_vec();
    let ours = invoke_response(id.clone(), value.clone()).to_bencode().unwrap();

    let mut encoder = Encoder::new();
    encoder
        .emit_dict(|mut e| {
            e.emit_pair(b"id", &id)?;
            e.emit_pair(b"status", "done")?;
            e.emit_pair(b"value", AsString(&value))
        })
        .unwrap();
    let theirs = encoder.get_output().unwrap();
    assert_eq!(ours, theirs);
}

#[test]
fn error_response_matches_the_bencode_writer() {
    let ours = err_response(Some("9".to_string()), "no such table: t".to_string())
        .to_bencode()
        .unwrap();
    let mut encoder = Encoder::new();
    encoder
        .emit_dict(|mut e| {
            e.emit_pair(b"ex-message", "no such table: t")?;
            e.emit_pair(b"id", "9")?;
            e.emit_pair(b"status", "error")
        })
        .unwrap();
    let theirs = encoder.get_output().unwrap();
    assert_eq!(ours, theirs);
}

#[test]
fn every_response_is_one_dictionary() {
    let responses: Vec<Response> = vec![
        handle_describe(),
        invoke_response(String::new(), Vec::new()),
        err_response(None, String::new()),
    ];
    for response in responses {
        let bytes = response.to_bencode().unwrap();
        assert_eq!(bytes[0], b'd');
        assert_eq!(bytes[bytes.len() - 1], b'e');
        let mut decoder = Decoder::new(&bytes);
        match decoder.next_object().unwrap() {
            Some(Object::Dict(mut dict)) => dict.consume_all().unwrap(),
            _ => panic!("not a dictionary"),
        }
        assert!(decoder.next_object().unwrap().is_none());
    }
}
