//! The on-chain account-state program: one record with a bounded name and an age, written by
//! `initialize` and changed by `update`.

use vstd::prelude::*;
use vstd::string::StringExecFns;
use vstd::utf8::encode_utf8;
use crate::address::Address;
use crate::wire::{
    lemma_text_is_read_back, lemma_text_read_was_written, put_text, take_text, text_at_front,
    text_bytes,
};

verus! {

/// Most bytes in the name of a record.
pub const MAX_NAME_LEN: usize = 100;

/// Bytes that every account of the program reserves in front of its record.
pub const DISCRIMINATOR_LEN: usize = 8;

/// Most bytes that a record takes when written out: the length prefix of the name, the name
/// and the age.
pub const INIT_SPACE: usize = 4 + MAX_NAME_LEN + 1;

/// Bytes reserved for an account of the program when it is created.
pub const ACCOUNT_SPACE: usize = DISCRIMINATOR_LEN + INIT_SPACE;

/// The number under which the ledger reports the program's first error.
pub const ERROR_CODE_OFFSET: u32 = 6000;

/// Why an operation of the program was refused.
#[derive(Clone, Copy, Debug, PartialEq, Eq, Structural)]
pub enum Error {
    /// The name is longer than 100 bytes.
    NameTooLong,
}

impl Error {
    /// The number under which the ledger reports this error.
    pub fn code(&self) -> (code: u32)
        ensures
            code == ERROR_CODE_OFFSET,
    {
        ERROR_CODE_OFFSET
    }

    /// The message that accompanies this error.
    pub fn message(&self) -> (message: String)
        ensures
            message@ == "Name is too long"@,
    {
        String::from_str("Name is too long")
    }
}

/// Mathematical model of a record.
pub struct UserDataView {
    pub name: Seq<char>,
    pub age: u8,
}

/// The bytes of a name.
pub open spec fn name_bytes(name: Seq<char>) -> Seq<u8> {
    encode_utf8(name)
}

/// Whether a name is within the bound of the record.
pub open spec fn name_fits(name: Seq<char>) -> bool {
    name_bytes(name).len() <= MAX_NAME_LEN
}

/// A record written out: the name as a text with its length in front, then the age.
pub open spec fn record_bytes(record: UserDataView) -> Seq<u8> {
    text_bytes(record.name) + seq![record.age]
}

/// The record at the front of `bytes`, or `None` where `bytes` do not begin with a whole
/// record or its name is over the bound. Bytes after the record are not read.
pub open spec fn record_at_front(bytes: Seq<u8>) -> Option<UserDataView> {
    match text_at_front(bytes) {
        Some((name, taken)) => if taken < bytes.len() && name_fits(name) {
            Some(UserDataView { name, age: bytes[taken] })
        } else {
            None
        },
        None => None,
    }
}

/// Whether a name is within the bound of the record.
pub fn name_within_bound(name: &str) -> (fits: bool)
    ensures
        fits == name_fits(name@),
{
    name.as_bytes().len() <= MAX_NAME_LEN
}

/// The persistent record of one user. Its name never exceeds 100 bytes.
#[derive(Debug)]
pub struct UserData {
    name: String,
    age: u8,
}

impl View for UserData {
    type V = UserDataView;

    closed spec fn view(&self) -> UserDataView {
        UserDataView { name: self.name@, age: self.age }
    }
}

impl UserData {
    #[verifier::type_invariant]
    closed spec fn name_is_bounded(&self) -> bool {
        name_fits(self.name@)
    }

    /// The record of an account that was created and not yet written: no name, age 0.
    pub fn new() -> (record: UserData)
        ensures
            record@ == (UserDataView { name: Seq::empty(), age: 0 }),
    {
        let name = String::new();
        assert(name_bytes(name@) =~= Seq::<u8>::empty()) by {
            reveal_with_fuel(encode_utf8, 1);
        }
        UserData { name, age: 0 }
    }

    /// A record read back from its account. Refuses a name longer than 100 bytes.
    pub fn load(name: String, age: u8) -> (record: Result<UserData, Error>)
        ensures
            record is Ok <==> name_fits(name@),
            record matches Ok(r) ==> r@ == (UserDataView { name: name@, age }),
            record matches Err(e) ==> e == Error::NameTooLong,
    {
        if !name_within_bound(name.as_str()) {
            return Err(Error::NameTooLong);
        }
        Ok(UserData { name, age })
    }

    /// The name.
    pub fn name(&self) -> (name: &str)
        ensures
            name@ == self@.name,
            name_fits(self@.name),
    {
        proof {
            use_type_invariant(self);
        }
        self.name.as_str()
    }

    /// The age.
    pub fn age(&self) -> (age: u8)
        ensures
            age == self@.age,
    {
        self.age
    }

    /// Replaces the name, unless the new one is longer than 100 bytes: then the record is
    /// left as it was.
    pub fn set_name(&mut self, name: String) -> (done: Result<(), Error>)
        ensures
            done is Ok <==> name_fits(name@),
            done is Ok ==> final(self)@ == (UserDataView { name: name@, age: old(self)@.age }),
            done is Err ==> *final(self) == *old(self),
            done matches Err(e) ==> e == Error::NameTooLong,
    {
        if !name_within_bound(name.as_str()) {
            return Err(Error::NameTooLong);
        }
        self.name = name;
        Ok(())
    }

    /// Replaces the age.
    pub fn set_age(&mut self, age: u8)
        ensures
            final(self)@ == (UserDataView { name: old(self)@.name, age }),
    {
        proof {
            use_type_invariant(&*self);
        }
        self.age = age;
    }

    /// Writes the record out. The result never exceeds the space reserved for a record.
    pub fn serialize(&self) -> (bytes: Vec<u8>)
        ensures
            bytes@ == record_bytes(self@),
            bytes@.len() <= INIT_SPACE,
    {
        proof {
            use_type_invariant(self);
            lemma_record_fits(self@);
        }
        let mut bytes: Vec<u8> = Vec::new();
        put_text(&mut bytes, self.name.as_str());
        bytes.push(self.age);
        bytes
    }

    /// Reads a record back from the bytes of its account. Bytes after the record are not
    /// read. Refuses bytes that do not begin with a whole record, and a name longer than 100
    /// bytes.
    pub fn deserialize(bytes: &[u8]) -> (record: Option<UserData>)
        ensures
            record_view(record) == record_at_front(bytes@),
    {
        match take_text(bytes) {
            Some((name, taken)) => {
                if taken < bytes.len() && name_within_bound(name.as_str()) {
                    Some(UserData { name, age: bytes[taken] })
                } else {
                    None
                }
            },
            None => None,
        }
    }
}

/// The model of a record that was read.
pub open spec fn record_view(record: Option<UserData>) -> Option<UserDataView> {
    match record {
        Some(r) => Some(r@),
        None => None,
    }
}

/// A record that was written is read back, whatever follows it.
pub proof fn lemma_record_is_read_back(record: UserDataView, tail: Seq<u8>)
    requires
        name_fits(record.name),
    ensures
        record_at_front(record_bytes(record) + tail) == Some(record),
{
    let rest = seq![record.age] + tail;
    lemma_text_is_read_back(record.name, rest);
    assert(record_bytes(record) + tail =~= text_bytes(record.name) + rest);
    assert(rest[0] == record.age);
}

/// Bytes from which a record is read begin with exactly what writing that record gives.
pub proof fn lemma_record_read_was_written(bytes: Seq<u8>)
    requires
        record_at_front(bytes) is Some,
    ensures
        record_bytes(record_at_front(bytes)->0).is_prefix_of(bytes),
{
    lemma_text_read_was_written(bytes);
    let (_, taken) = text_at_front(bytes)->0;
    assert(record_bytes(record_at_front(bytes)->0) =~= bytes.take(taken + 1));
}

/// A record whose name is within the bound takes no more than the space reserved for it, and
/// with the discriminator in front no more than the space reserved for its account.
pub proof fn lemma_record_fits(record: UserDataView)
    requires
        name_fits(record.name),
    ensures
        record_bytes(record).len() == 4 + name_bytes(record.name).len() + 1,
        record_bytes(record).len() <= INIT_SPACE,
        DISCRIMINATOR_LEN + record_bytes(record).len() <= ACCOUNT_SPACE,
{
    lemma_text_is_read_back(record.name, Seq::empty());
}

/// The accounts of `initialize`: the record to write, the user who pays for its account and
/// the system program that creates it.
#[derive(Debug)]
pub struct Store {
    pub user_data: UserData,
    pub user: Address,
    pub system_program: Address,
}

/// The accounts of `update`: the record to change.
#[derive(Debug)]
pub struct Update {
    pub user_data: UserData,
}

/// Writes the first name and age of a record. Refuses a name longer than 100 bytes and then
/// leaves the record as it was.
pub fn initialize(ctx: &mut Store, name: String, age: u8) -> (done: Result<(), Error>)
    ensures
        done is Ok <==> name_fits(name@),
        done is Ok ==> final(ctx).user_data@ == (UserDataView { name: name@, age }),
        done is Err ==> final(ctx).user_data == old(ctx).user_data,
        done matches Err(e) ==> e == Error::NameTooLong,
        final(ctx).user == old(ctx).user,
        final(ctx).system_program == old(ctx).system_program,
{
    if !name_within_bound(name.as_str()) {
        return Err(Error::NameTooLong);
    }
    match ctx.user_data.set_name(name) {
        Ok(()) => {},
        Err(e) => {
            return Err(e);
        },
    }
    ctx.user_data.set_age(age);
    Ok(())
}

/// The record after an update of the fields that are present.
pub open spec fn updated(
    record: UserDataView,
    name: Option<Seq<char>>,
    age: Option<u8>,
) -> UserDataView {
    UserDataView {
        name: match name {
            Some(n) => n,
            None => record.name,
        },
        age: match age {
            Some(a) => a,
            None => record.age,
        },
    }
}

/// The model of an optional text.
pub open spec fn optional_text(text: Option<String>) -> Option<Seq<char>> {
    match text {
        Some(t) => Some(t@),
        None => None,
    }
}

/// Changes the fields of a record that are present and leaves the others. Refuses a name
/// longer than 100 bytes and then leaves the whole record as it was.
pub fn update(ctx: &mut Update, name: Option<String>, age: Option<u8>) -> (done: Result<(), Error>)
    ensures
        done is Ok <==> (name matches Some(n) ==> name_fits(n@)),
        done is Ok ==> final(ctx).user_data@ == updated(
            old(ctx).user_data@,
            optional_text(name),
            age,
        ),
        done is Err ==> final(ctx).user_data == old(ctx).user_data,
        done matches Err(e) ==> e == Error::NameTooLong,
{
    if let Some(name) = name {
        match ctx.user_data.set_name(name) {
            Ok(()) => {},
            Err(e) => {
                return Err(e);
            },
        }
    }
    if let Some(age) = age {
        ctx.user_data.set_age(age);
    }
    Ok(())
}

} // verus!
