use solana_bootcamp::address::Address;
use solana_bootcamp::program::{
    initialize, update, Error, Store, Update, UserData, ACCOUNT_SPACE, INIT_SPACE,
};

fn store() -> Store {
    Store {
        user_data: UserData::new(),
        user: Address([7; 32]),
        system_program: Address([0; 32]),
    }
}

#[test]
fn initialize_writes_name_and_age() {
    let mut ctx = store();
    assert_eq!(initialize(&mut ctx, "Alice".to_string(), 30), Ok(()));
    assert_eq!(ctx.user_data.name(), "Alice");
    assert_eq!(ctx.user_data.age(), 30);
    assert_eq!(ctx.user, Address([7; 32]));
}

#[test]
fn initialize_accepts_a_name_of_exactly_100_bytes() {
    let mut ctx = store();
    let name = "a".repeat(100);
    assert_eq!(initialize(&mut ctx, name.clone(), 1), Ok(()));
    assert_eq!(ctx.user_data.name(), name);
}

#[test]
fn initialize_refuses_a_name_of_101_bytes() {
    let mut ctx = store();
    assert_eq!(initialize(&mut ctx, "a".repeat(101), 1), Err(Error::NameTooLong));
    assert_eq!(ctx.user_data.name(), "");
    assert_eq!(ctx.user_data.age(), 0);
}

#[test]
fn initialize_accepts_an_empty_name() {
    let mut ctx = store();
    assert_eq!(initialize(&mut ctx, String::new(), 255), Ok(()));
    assert_eq!(ctx.user_data.name(), "");
    assert_eq!(ctx.user_data.age(), 255);
}

#[test]
fn name_length_is_counted_in_bytes() {
    let mut ctx = store();
    // 34 characters of three bytes each: 102 bytes.
    assert_eq!(initialize(&mut ctx, "€".repeat(34), 1), Err(Error::NameTooLong));
    // 33 characters of three bytes each and one of one byte: 100 bytes.
    let name = format!("{}a", "€".repeat(33));
    assert_eq!(initialize(&mut ctx, name.clone(), 1), Ok(()));
    assert_eq!(ctx.user_data.name(), name);
}

fn initialized(name: &str, age: u8) -> Update {
    let mut ctx = store();
    assert_eq!(initialize(&mut ctx, name.to_string(), age), Ok(()));
    Update { user_data: ctx.user_data }
}

#[test]
fn update_changes_the_fields_that_are_present() {
    let mut ctx = initialized("Alice", 30);
    assert_eq!(update(&mut ctx, Some("Bob".to_string()), None), Ok(()));
    assert_eq!(ctx.user_data.name(), "Bob");
    assert_eq!(ctx.user_data.age(), 30);
    assert_eq!(update(&mut ctx, None, Some(31)), Ok(()));
    assert_eq!(ctx.user_data.name(), "Bob");
    assert_eq!(ctx.user_data.age(), 31);
    assert_eq!(update(&mut ctx, Some("Carol".to_string()), Some(40)), Ok(()));
    assert_eq!(ctx.user_data.name(), "Carol");
    assert_eq!(ctx.user_data.age(), 40);
}

#[test]
fn update_with_nothing_present_changes_nothing() {
    let mut ctx = initialized("Alice", 30);
    assert_eq!(update(&mut ctx, None, None), Ok(()));
    assert_eq!(ctx.user_data.name(), "Alice");
    assert_eq!(ctx.user_data.age(), 30);
}

#[test]
fn update_accepts_a_name_of_exactly_100_bytes() {
    let mut ctx = initialized("Alice", 30);
    assert_eq!(update(&mut ctx, Some("b".repeat(100)), None), Ok(()));
    assert_eq!(ctx.user_data.name(), "b".repeat(100));
}

#[test]
fn update_accepts_an_empty_name() {
    let mut ctx = initialized("Alice", 30);
    assert_eq!(update(&mut ctx, Some(String::new()), None), Ok(()));
    assert_eq!(ctx.user_data.name(), "");
}

#[test]
fn update_refuses_a_name_of_101_bytes_and_keeps_the_record() {
    let mut ctx = initialized("Alice", 30);
    assert_eq!(update(&mut ctx, Some("b".repeat(101)), Some(99)), Err(Error::NameTooLong));
    assert_eq!(ctx.user_data.name(), "Alice");
    assert_eq!(ctx.user_data.age(), 30);
}

#[test]
fn set_name_keeps_the_age() {
    let mut record = UserData::new();
    record.set_age(12);
    assert_eq!(record.set_name("Dora".to_string()), Ok(()));
    assert_eq!(record.age(), 12);
    assert_eq!(record.set_name("d".repeat(101)), Err(Error::NameTooLong));
    assert_eq!(record.name(), "Dora");
}

#[test]
fn record_is_written_as_length_name_age() {
    let mut ctx = store();
    assert_eq!(initialize(&mut ctx, "Alice".to_string(), 30), Ok(()));
    assert_eq!(
        ctx.user_data.serialize(),
        vec![5, 0, 0, 0, b'A', b'l', b'i', b'c', b'e', 30]
    );
}

#[test]
fn longest_record_fills_the_reserved_space() {
    let mut ctx = store();
    assert_eq!(initialize(&mut ctx, "z".repeat(100), 9), Ok(()));
    let bytes = ctx.user_data.serialize();
    assert_eq!(bytes.len(), INIT_SPACE);
    assert_eq!(INIT_SPACE, 105);
    assert_eq!(ACCOUNT_SPACE, 113);
    assert_eq!(&bytes[..4], &[100, 0, 0, 0]);
    assert_eq!(bytes[104], 9);
}

#[test]
fn error_reports_its_code_and_message() {
    assert_eq!(Error::NameTooLong.code(), 6000);
    assert_eq!(Error::NameTooLong.message(), "Name is too long");
}

#[test]
fn record_is_read_back_from_its_bytes() {
    let mut ctx = store();
    assert_eq!(initialize(&mut ctx, "Zoë".to_string(), 41), Ok(()));
    let mut bytes = ctx.user_data.serialize();
    let record = UserData::deserialize(&bytes).unwrap();
    assert_eq!((record.name(), record.age()), ("Zoë", 41));
    bytes.extend_from_slice(&[0; 90]);
    let record = UserData::deserialize(&bytes).unwrap();
    assert_eq!((record.name(), record.age()), ("Zoë", 41));
}

#[test]
fn deserialize_refuses_what_is_no_record() {
    assert!(UserData::deserialize(&[]).is_none());
    assert!(UserData::deserialize(&[0, 0, 0, 0]).is_none());
    assert!(UserData::deserialize(&[1, 0, 0, 0, b'a']).is_none());
    assert!(UserData::deserialize(&[2, 0, 0, 0, b'a', 7]).is_none());
    assert!(UserData::deserialize(&[1, 0, 0, 0, 0x80, 7]).is_none());
    let mut long = vec![101, 0, 0, 0];
    long.extend_from_slice(&[b'a'; 101]);
    long.push(7);
    assert!(UserData::deserialize(&long).is_none());
    long[0] = 100;
    let record = UserData::deserialize(&long).unwrap();
    assert_eq!((record.name(), record.age()), ("a".repeat(100).as_str(), b'a'));
    let empty = UserData::deserialize(&[0, 0, 0, 0, 9]).unwrap();
    assert_eq!((empty.name(), empty.age()), ("", 9));
}

#[test]
fn load_checks_the_bound() {
    let record = UserData::load("b".repeat(100), 3).unwrap();
    assert_eq!((record.name(), record.age()), ("b".repeat(100).as_str(), 3));
    assert_eq!(UserData::load("b".repeat(101), 3).err(), Some(Error::NameTooLong));
}
