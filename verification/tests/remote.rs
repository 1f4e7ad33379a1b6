use savefile::abi::connection::{AbiErrorMsg, RawAbiCallResult};
use savefile::abi::remote::ServerBuilder;
use savefile::abi::server::{
    answer_call, dropped_reply, methods_reply, read_call_reply, read_create_reply, read_drop_reply, read_request, version_reply,
    ServerAction, ServerContext,
};
use savefile::abi::wire::{RemoteCallResult, RemoteRequest};
use savefile::error::SavefileError;
use savefile::interfaces::adder::AdderImplementation;
use savefile::save::bare_serialize;

fn context() -> ServerContext {
    let builder = ServerBuilder::new().add_primary_trait::<AdderImplementation>();
    ServerContext::new(builder.trait_names()).unwrap()
}

fn request_bytes(r: &RemoteRequest) -> Vec<u8> {
    bare_serialize(0, r).unwrap()
}

fn message(e: SavefileError) -> String {
    match e {
        SavefileError::GeneralError { msg } => msg,
        other => panic!("unexpected error {:?}", other),
    }
}

#[test]
fn requests_are_read_back() {
    let req = RemoteRequest::CallInstanceMethod { object: (3, 4), method_number: 2, args: vec![9, 8, 7] };
    let mut bytes = request_bytes(&req);
    assert_eq!(bytes[0], 0);
    assert_eq!(bytes.len(), 1 + 16 + 2 + 8 + 3);
    bytes.extend_from_slice(&[1, 2, 3]);
    let (back, used) = read_request(&bytes).unwrap();
    assert_eq!(used, 30);
    match back {
        RemoteRequest::CallInstanceMethod { object, method_number, args } => {
            assert_eq!(object, (3, 4));
            assert_eq!(method_number, 2);
            assert_eq!(args, vec![9, 8, 7]);
        },
        other => panic!("unexpected {:?}", other),
    }
    let stop = request_bytes(&RemoteRequest::StopListener);
    assert_eq!(stop, vec![6]);
    assert_eq!(request_bytes(&RemoteRequest::Close), vec![7]);
    let create = request_bytes(&RemoteRequest::CreateInstance { trait_name: "AdderInterface".to_string() });
    assert_eq!(create[0], 4);
}

#[test]
fn unknown_and_short_requests_are_refused() {
    assert!(matches!(read_request(&[]), Err(SavefileError::ShortRead)));
    assert_eq!(message(read_request(&[2]).unwrap_err()), "Unsupported command: 2");
    assert_eq!(message(read_request(&[200, 1]).unwrap_err()), "Unsupported command: 200");
    assert!(matches!(read_request(&[5, 1, 0, 0]), Err(SavefileError::ShortRead)));
}

#[test]
fn server_makes_calls_and_drops_objects() {
    let mut ctx = context();
    let action = ctx.decide(RemoteRequest::CreateInstance { trait_name: "AdderInterface".to_string() });
    assert!(matches!(action, ServerAction::CreateInstance { type_index: 0 }));
    let reply = ctx.created(0, &String::new(), (11, 12));
    let mut expected = vec![1u8];
    expected.extend_from_slice(&11u64.to_le_bytes());
    expected.extend_from_slice(&12u64.to_le_bytes());
    assert_eq!(reply, expected);
    assert_eq!(read_create_reply(&reply).unwrap().unwrap(), (11, 12));

    let action = ctx.decide(RemoteRequest::CallInstanceMethod { object: (11, 12), method_number: 1, args: vec![5] });
    match action {
        ServerAction::CallInstanceMethod { type_index, object, method_number, args } => {
            assert_eq!((type_index, object, method_number, args), (0, (11, 12), 1, vec![5]));
        },
        other => panic!("unexpected {:?}", other),
    }
    let action = ctx.decide(RemoteRequest::DropInstance { object: (11, 12) });
    assert!(matches!(action, ServerAction::DropInstance { type_index: 0, object: (11, 12) }));
    assert_eq!(dropped_reply(), vec![0u8; 8]);
    assert!(read_drop_reply(&dropped_reply()).is_ok());
    assert!(matches!(ctx.decide(RemoteRequest::Close), ServerAction::Finish));
    assert!(matches!(ctx.decide(RemoteRequest::StopListener), ServerAction::Finish));
}

#[test]
fn server_refuses_unknown_interfaces_and_objects() {
    let mut ctx = context();
    match ctx.decide(RemoteRequest::CreateInstance { trait_name: "Nope".to_string() }) {
        ServerAction::Fail(e) => assert_eq!(message(e), "Unsupported trait 'Nope'"),
        other => panic!("unexpected {:?}", other),
    }
    match ctx.decide(RemoteRequest::InterrogateVersion { trait_name: "Nope".to_string() }) {
        ServerAction::Fail(e) => assert_eq!(message(e), "Unknown object[1] 'TraitName(\"Nope\")'"),
        other => panic!("unexpected {:?}", other),
    }
    match ctx.decide(RemoteRequest::CallInstanceMethod { object: (9, 10), method_number: 0, args: vec![] }) {
        ServerAction::Fail(e) => assert_eq!(message(e), "Unknown object[0]: TraitKey((9, 10))"),
        other => panic!("unexpected {:?}", other),
    }
    match ctx.decide(RemoteRequest::DropInstance { object: (9, 10) }) {
        ServerAction::Fail(e) => assert_eq!(message(e), "Unknown object[5]: TraitKey((9, 10))"),
        other => panic!("unexpected {:?}", other),
    }
    let reply = ctx.created(0, &"cannot".to_string(), (1, 1));
    assert_eq!(reply[0], 0);
    assert_eq!(read_create_reply(&reply).unwrap().unwrap_err(), "cannot");
    match ctx.decide(RemoteRequest::DropInstance { object: (1, 1) }) {
        ServerAction::Fail(_) => {},
        other => panic!("unexpected {:?}", other),
    }
    match ctx.decide(RemoteRequest::InterrogateMethods {
        trait_name: "AdderInterface".to_string(),
        schema_version_required: 1,
        callee_schema_version_interrogated: 2,
    }) {
        ServerAction::InterrogateMethods { type_index, schema_version_required, callee_schema_version_interrogated } => {
            assert_eq!((type_index, schema_version_required, callee_schema_version_interrogated), (0, 1, 2));
        },
        other => panic!("unexpected {:?}", other),
    }
}

#[test]
fn duplicate_interface_names_are_refused() {
    assert!(ServerContext::new(vec!["A".to_string(), "B".to_string(), "A".to_string()]).is_none());
    assert!(ServerContext::new(vec!["A".to_string(), "B".to_string()]).is_some());
}

#[test]
fn replies_have_their_layout() {
    assert_eq!(version_reply(1, 2), vec![1, 0, 2, 0, 0, 0]);
    assert_eq!(methods_reply(3, &[7, 7]), vec![3, 0, 2, 0, 0, 0, 0, 0, 0, 0, 7, 7]);
    let mut err = vec![5u8, 0, 0, 0, 0, 0, 0, 0];
    err.extend_from_slice(b"oops!");
    match read_drop_reply(&err) {
        Err(SavefileError::GeneralError { msg }) => assert_eq!(msg, "oops!"),
        other => panic!("unexpected {:?}", other),
    }
    let panic_reply = bare_serialize(0, &RemoteCallResult::Panic("boom".to_string())).unwrap();
    match read_call_reply(&panic_reply).unwrap() {
        RawAbiCallResult::AbiError(m) => assert_eq!(m.error_msg_utf8, b"boom".to_vec()),
        _ => panic!("a panic is reported as an error"),
    }
    let ok_reply = bare_serialize(0, &RemoteCallResult::Success(vec![1, 2])).unwrap();
    match read_call_reply(&ok_reply).unwrap() {
        RawAbiCallResult::Success { data } => assert_eq!(data, vec![1, 2]),
        _ => panic!("success expected"),
    }
}

#[test]
fn call_outcomes_are_answered_as_text() {
    let panicked = RawAbiCallResult::Panic(AbiErrorMsg { error_msg_utf8: vec![0x66, 0xff, 0x67] });
    assert_eq!(answer_call(&panicked), RemoteCallResult::Panic("f\u{FFFD}g".to_string()));
    let refused = RawAbiCallResult::AbiError(AbiErrorMsg { error_msg_utf8: b"no".to_vec() });
    assert_eq!(answer_call(&refused), RemoteCallResult::AbiError("no".to_string()));
    let ok = RawAbiCallResult::Success { data: vec![4, 5] };
    assert_eq!(answer_call(&ok), RemoteCallResult::Success(vec![4, 5]));
}
