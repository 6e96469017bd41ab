use anchor_lang::{AnchorDeserialize, AnchorSerialize};
use solana_bootcamp::operation::{
    decode_operation, encode_operation, Operation, INITIALIZE_DISCRIMINATOR, UPDATE_DISCRIMINATOR,
};
use solana_bootcamp::program::Error;
use solana_bootcamp::wire::{put_text, take_text};

fn initialize(name: &str, age: u8) -> Operation {
    Operation::Initialize { name: name.to_string(), age }
}

fn update(name: Option<&str>, age: Option<u8>) -> Operation {
    Operation::Update { name: name.map(|n| n.to_string()), age }
}

#[test]
fn discriminators_are_the_first_bytes_of_the_operation_hashes() {
    let initialize = solana_sdk::hash::hash(b"global:initialize").to_bytes();
    let update = solana_sdk::hash::hash(b"global:update").to_bytes();
    assert_eq!(INITIALIZE_DISCRIMINATOR, initialize[..8]);
    assert_eq!(UPDATE_DISCRIMINATOR, update[..8]);
}

#[test]
fn initialize_payload_has_the_exact_layout() {
    let payload = encode_operation(&initialize("Alice", 30)).unwrap();
    assert_eq!(
        payload,
        vec![175, 175, 109, 31, 13, 152, 155, 237, 5, 0, 0, 0, b'A', b'l', b'i', b'c', b'e', 30]
    );
}

#[test]
fn update_payload_has_presence_flags() {
    assert_eq!(
        encode_operation(&update(None, None)).unwrap(),
        vec![219, 200, 88, 176, 158, 63, 253, 127, 0, 0]
    );
    assert_eq!(
        encode_operation(&update(Some("Bo"), None)).unwrap(),
        vec![219, 200, 88, 176, 158, 63, 253, 127, 1, 2, 0, 0, 0, b'B', b'o', 0]
    );
    assert_eq!(
        encode_operation(&update(None, Some(7))).unwrap(),
        vec![219, 200, 88, 176, 158, 63, 253, 127, 0, 1, 7]
    );
    assert_eq!(
        encode_operation(&update(Some(""), Some(0))).unwrap(),
        vec![219, 200, 88, 176, 158, 63, 253, 127, 1, 0, 0, 0, 0, 1, 0]
    );
}

#[test]
fn arguments_are_encoded_as_the_program_framework_does() {
    let payload = encode_operation(&initialize("Zoë", 200)).unwrap();
    let mut expected = INITIALIZE_DISCRIMINATOR.to_vec();
    expected.extend("Zoë".to_string().try_to_vec().unwrap());
    expected.extend(200u8.try_to_vec().unwrap());
    assert_eq!(payload, expected);
    let payload = encode_operation(&update(Some("Zoë"), Some(1))).unwrap();
    let mut expected = UPDATE_DISCRIMINATOR.to_vec();
    expected.extend(Some("Zoë".to_string()).try_to_vec().unwrap());
    expected.extend(Some(1u8).try_to_vec().unwrap());
    assert_eq!(payload, expected);
    let mut rest = &payload[8..];
    assert_eq!(Option::<String>::deserialize(&mut rest).unwrap(), Some("Zoë".to_string()));
    assert_eq!(Option::<u8>::deserialize(&mut rest).unwrap(), Some(1));
    assert!(rest.is_empty());
}

#[test]
fn encode_refuses_a_name_of_101_bytes() {
    assert_eq!(encode_operation(&initialize(&"a".repeat(101), 1)), Err(Error::NameTooLong));
    assert_eq!(encode_operation(&update(Some(&"a".repeat(101)), None)), Err(Error::NameTooLong));
    assert!(encode_operation(&initialize(&"a".repeat(100), 1)).is_ok());
    assert!(encode_operation(&update(Some(&"a".repeat(100)), None)).is_ok());
    assert!(encode_operation(&initialize("", 1)).is_ok());
}

#[test]
fn what_is_encoded_is_decoded() {
    let operations = vec![
        initialize("Alice", 30),
        initialize("", 0),
        initialize(&"€".repeat(33), 255),
        update(None, None),
        update(Some("Bob"), None),
        update(None, Some(9)),
        update(Some(""), Some(255)),
    ];
    for op in operations {
        let mut payload = encode_operation(&op).unwrap();
        assert_eq!(decode_operation(&payload), Some(initialize_or(&op)));
        payload.extend_from_slice(&[1, 2, 3]);
        assert_eq!(decode_operation(&payload), Some(op));
    }
}

fn initialize_or(op: &Operation) -> Operation {
    match op {
        Operation::Initialize { name, age } => Operation::Initialize { name: name.clone(), age: *age },
        Operation::Update { name, age } => Operation::Update { name: name.clone(), age: *age },
    }
}

#[test]
fn decode_accepts_a_name_over_the_bound() {
    let mut payload = INITIALIZE_DISCRIMINATOR.to_vec();
    payload.extend_from_slice(&[101, 0, 0, 0]);
    payload.extend_from_slice(&[b'x'; 101]);
    payload.push(4);
    assert_eq!(decode_operation(&payload), Some(initialize(&"x".repeat(101), 4)));
}

#[test]
fn decode_refuses_what_is_no_operation() {
    assert_eq!(decode_operation(&[]), None);
    assert_eq!(decode_operation(&[175, 175, 109, 31, 13, 152, 155]), None);
    assert_eq!(decode_operation(&[0, 0, 0, 0, 0, 0, 0, 0, 0, 0, 0, 0, 0]), None);
    let mut near = INITIALIZE_DISCRIMINATOR.to_vec();
    near[7] = 0;
    near.extend_from_slice(&[0, 0, 0, 0, 1]);
    assert_eq!(decode_operation(&near), None);
}

#[test]
fn decode_refuses_missing_or_malformed_arguments() {
    let start = INITIALIZE_DISCRIMINATOR.to_vec();
    let with = |tail: &[u8]| {
        let mut payload = start.clone();
        payload.extend_from_slice(tail);
        payload
    };
    assert_eq!(decode_operation(&with(&[])), None);
    assert_eq!(decode_operation(&with(&[1, 0, 0])), None);
    assert_eq!(decode_operation(&with(&[2, 0, 0, 0, b'a'])), None);
    assert_eq!(decode_operation(&with(&[1, 0, 0, 0, b'a'])), None);
    assert_eq!(decode_operation(&with(&[1, 0, 0, 0, 0xff, 3])), None);
    assert_eq!(decode_operation(&with(&[255, 255, 255, 255, b'a', 3])), None);
    assert_eq!(decode_operation(&with(&[1, 0, 0, 0, b'a', 3])), Some(initialize("a", 3)));
    let start = UPDATE_DISCRIMINATOR.to_vec();
    let with = |tail: &[u8]| {
        let mut payload = start.clone();
        payload.extend_from_slice(tail);
        payload
    };
    assert_eq!(decode_operation(&with(&[])), None);
    assert_eq!(decode_operation(&with(&[0])), None);
    assert_eq!(decode_operation(&with(&[2, 0])), None);
    assert_eq!(decode_operation(&with(&[0, 2])), None);
    assert_eq!(decode_operation(&with(&[0, 1])), None);
    assert_eq!(decode_operation(&with(&[1, 1, 0, 0, 0, 0xc0, 0])), None);
    assert_eq!(decode_operation(&with(&[1, 1, 0, 0, 0])), None);
    assert_eq!(decode_operation(&with(&[0, 0])), Some(update(None, None)));
}

#[test]
fn text_is_written_with_its_length_in_bytes() {
    let mut out = vec![9];
    put_text(&mut out, "héllo");
    assert_eq!(out, vec![9, 6, 0, 0, 0, b'h', 0xc3, 0xa9, b'l', b'l', b'o']);
    assert_eq!(take_text(&out[1..]), Some(("héllo".to_string(), 10)));
    assert_eq!(take_text(&[0, 0, 0, 0]), Some((String::new(), 4)));
    assert_eq!(take_text(&[0, 0, 0]), None);
    let long = "x".repeat(300);
    let mut out = Vec::new();
    put_text(&mut out, &long);
    assert_eq!(&out[..4], &[44, 1, 0, 0]);
    assert_eq!(take_text(&out), Some((long, 304)));
}
