//! The payloads of the account-state program's instructions: eight bytes that say which
//! operation is meant, then its arguments.

use vstd::prelude::*;
use vstd::slice::{slice_subrange, slice_to_vec};
use crate::program::{name_fits, name_within_bound, Error};
use crate::wire::{
    lemma_text_is_read_back, lemma_text_read_was_written, put_text, take_text, text_at_front,
    text_bytes, text_fits,
};

verus! {

/// The first eight bytes of an `initialize` payload.
pub const INITIALIZE_DISCRIMINATOR: [u8; 8] = [175, 175, 109, 31, 13, 152, 155, 237];

/// The first eight bytes of an `update` payload.
pub const UPDATE_DISCRIMINATOR: [u8; 8] = [219, 200, 88, 176, 158, 63, 253, 127];

/// Mathematical model of an operation with its arguments.
#[allow(inconsistent_fields)]
pub enum OperationView {
    Initialize { name: Seq<char>, age: u8 },
    Update { name: Option<Seq<char>>, age: Option<u8> },
}

/// An operation of the account-state program with its arguments.
#[derive(Debug, PartialEq, Eq)]
#[allow(inconsistent_fields)]
pub enum Operation {
    /// Write the first name and age.
    Initialize { name: String, age: u8 },
    /// Change the fields that are present.
    Update { name: Option<String>, age: Option<u8> },
}

impl View for Operation {
    type V = OperationView;

    open spec fn view(&self) -> OperationView {
        match self {
            Operation::Initialize { name, age } => OperationView::Initialize {
                name: name@,
                age: *age,
            },
            Operation::Update { name, age } => OperationView::Update {
                name: match name {
                    Some(n) => Some(n@),
                    None => None,
                },
                age: *age,
            },
        }
    }
}

/// An optional text on the wire: a presence byte, then the text if there is one.
pub open spec fn optional_text_bytes(text: Option<Seq<char>>) -> Seq<u8> {
    match text {
        Some(t) => seq![1u8] + text_bytes(t),
        None => seq![0u8],
    }
}

/// An optional byte on the wire: a presence byte, then the byte if there is one.
pub open spec fn optional_byte_bytes(byte: Option<u8>) -> Seq<u8> {
    match byte {
        Some(b) => seq![1u8, b],
        None => seq![0u8],
    }
}

/// The payload of an operation.
pub open spec fn operation_bytes(op: OperationView) -> Seq<u8> {
    match op {
        OperationView::Initialize { name, age } => INITIALIZE_DISCRIMINATOR@ + text_bytes(name)
            + seq![age],
        OperationView::Update { name, age } => UPDATE_DISCRIMINATOR@ + optional_text_bytes(name)
            + optional_byte_bytes(age),
    }
}

/// Whether the name that an operation carries, if any, is within the bound of the record.
pub open spec fn operation_name_fits(op: OperationView) -> bool {
    match op {
        OperationView::Initialize { name, .. } => name_fits(name),
        OperationView::Update { name: Some(name), .. } => name_fits(name),
        OperationView::Update { name: None, .. } => true,
    }
}

/// Whether the name that an operation carries, if any, is short enough for its length prefix.
pub open spec fn operation_text_fits(op: OperationView) -> bool {
    match op {
        OperationView::Initialize { name, .. } => text_fits(name),
        OperationView::Update { name: Some(name), .. } => text_fits(name),
        OperationView::Update { name: None, .. } => true,
    }
}

/// The optional text at the front of `bytes`, with the number of bytes it takes.
pub open spec fn optional_text_at_front(bytes: Seq<u8>) -> Option<(Option<Seq<char>>, int)> {
    if bytes.len() < 1 {
        None
    } else if bytes[0] == 0u8 {
        Some((None, 1))
    } else if bytes[0] == 1u8 {
        match text_at_front(bytes.skip(1)) {
            Some((text, taken)) => Some((Some(text), 1 + taken)),
            None => None,
        }
    } else {
        None
    }
}

/// The optional byte at the front of `bytes`.
pub open spec fn optional_byte_at_front(bytes: Seq<u8>) -> Option<Option<u8>> {
    if bytes.len() < 1 {
        None
    } else if bytes[0] == 0u8 {
        Some(None)
    } else if bytes[0] == 1u8 && bytes.len() >= 2 {
        Some(Some(bytes[1]))
    } else {
        None
    }
}

/// The arguments of `initialize` at the front of `bytes`: a text and a byte.
pub open spec fn initialize_at_front(bytes: Seq<u8>) -> Option<OperationView> {
    match text_at_front(bytes) {
        Some((name, taken)) => if taken < bytes.len() {
            Some(OperationView::Initialize { name, age: bytes[taken] })
        } else {
            None
        },
        None => None,
    }
}

/// The arguments of `update` at the front of `bytes`: an optional text and an optional byte.
pub open spec fn update_at_front(bytes: Seq<u8>) -> Option<OperationView> {
    match optional_text_at_front(bytes) {
        Some((name, taken)) => match optional_byte_at_front(bytes.skip(taken)) {
            Some(age) => Some(OperationView::Update { name, age }),
            None => None,
        },
        None => None,
    }
}

/// The operation that a payload begins with, or `None` where the payload names no operation
/// or does not hold all its arguments. Bytes after the arguments are not read.
pub open spec fn operation_at_front(data: Seq<u8>) -> Option<OperationView> {
    if data.len() < 8 {
        None
    } else if data.take(8) == INITIALIZE_DISCRIMINATOR@ {
        initialize_at_front(data.skip(8))
    } else if data.take(8) == UPDATE_DISCRIMINATOR@ {
        update_at_front(data.skip(8))
    } else {
        None
    }
}

/// The two discriminators are different and eight bytes long.
proof fn lemma_discriminators_differ()
    ensures
        INITIALIZE_DISCRIMINATOR@ != UPDATE_DISCRIMINATOR@,
        INITIALIZE_DISCRIMINATOR@.len() == 8,
        UPDATE_DISCRIMINATOR@.len() == 8,
{
    assert(INITIALIZE_DISCRIMINATOR@[0] == 175);
    assert(UPDATE_DISCRIMINATOR@[0] == 219);
}

/// An operation that was written is read back, whatever follows it.
pub proof fn lemma_operation_is_read_back(op: OperationView, tail: Seq<u8>)
    requires
        operation_text_fits(op),
    ensures
        operation_at_front(operation_bytes(op) + tail) == Some(op),
{
    lemma_discriminators_differ();
    let data = operation_bytes(op) + tail;
    match op {
        OperationView::Initialize { name, age } => {
            let rest = text_bytes(name) + (seq![age] + tail);
            lemma_text_is_read_back(name, seq![age] + tail);
            assert(data.take(8) =~= INITIALIZE_DISCRIMINATOR@);
            assert(data.skip(8) =~= rest);
            assert(rest[text_bytes(name).len() as int] == age);
        },
        OperationView::Update { name, age } => {
            let after = optional_byte_bytes(age) + tail;
            let rest = optional_text_bytes(name) + after;
            assert(data.take(8) =~= UPDATE_DISCRIMINATOR@);
            assert(data.skip(8) =~= rest);
            match name {
                Some(n) => {
                    lemma_text_is_read_back(n, after);
                    assert(rest.skip(1) =~= text_bytes(n) + after);
                    assert(rest.skip(1 + text_bytes(n).len() as int) =~= after);
                },
                None => {
                    assert(rest.skip(1) =~= after);
                },
            }
        },
    }
}

/// A payload from which an operation is read begins with exactly what writing that operation
/// gives.
pub proof fn lemma_operation_read_was_written(data: Seq<u8>)
    requires
        operation_at_front(data) is Some,
    ensures
        operation_text_fits(operation_at_front(data)->0),
        operation_bytes(operation_at_front(data)->0).is_prefix_of(data),
{
    lemma_discriminators_differ();
    let op = operation_at_front(data)->0;
    let rest = data.skip(8);
    match op {
        OperationView::Initialize { name, age } => {
            lemma_text_read_was_written(rest);
            let (_, taken) = text_at_front(rest)->0;
            assert(rest.take(taken) == text_bytes(name));
            assert(operation_bytes(op) =~= data.take(8 + taken + 1));
        },
        OperationView::Update { name, age } => {
            let (_, taken) = optional_text_at_front(rest)->0;
            let after = rest.skip(taken);
            match name {
                Some(n) => {
                    lemma_text_read_was_written(rest.skip(1));
                    assert(rest.skip(1).take(taken - 1) == text_bytes(n));
                    assert(optional_text_bytes(name) =~= rest.take(taken));
                },
                None => {
                    assert(optional_text_bytes(name) =~= rest.take(taken));
                },
            }
            let width: int = if age is Some { 2 } else { 1 };
            assert(optional_byte_bytes(age) =~= after.take(width));
            assert(operation_bytes(op) =~= data.take(8 + taken + width));
        },
    }
}

/// Writes `bytes` at the end of `out`.
fn put_bytes(out: &mut Vec<u8>, bytes: &[u8])
    ensures
        final(out)@ == old(out)@ + bytes@,
{
    let mut copy = slice_to_vec(bytes);
    out.append(&mut copy);
}

/// Writes the payload of an operation. Refuses a name longer than 100 bytes before anything
/// is written.
pub fn encode_operation(op: &Operation) -> (payload: Result<Vec<u8>, Error>)
    ensures
        payload is Ok <==> operation_name_fits(op@),
        payload matches Ok(bytes) ==> bytes@ == operation_bytes(op@),
        payload matches Err(e) ==> e == Error::NameTooLong,
{
    let mut out: Vec<u8> = Vec::new();
    match op {
        Operation::Initialize { name, age } => {
            if !name_within_bound(name.as_str()) {
                return Err(Error::NameTooLong);
            }
            put_bytes(&mut out, INITIALIZE_DISCRIMINATOR.as_slice());
            put_text(&mut out, name.as_str());
            out.push(*age);
            assert(out@ =~= operation_bytes(op@));
        },
        Operation::Update { name, age } => {
            put_bytes(&mut out, UPDATE_DISCRIMINATOR.as_slice());
            match name {
                Some(n) => {
                    if !name_within_bound(n.as_str()) {
                        return Err(Error::NameTooLong);
                    }
                    out.push(1);
                    put_text(&mut out, n.as_str());
                },
                None => {
                    out.push(0);
                },
            }
            match age {
                Some(a) => {
                    out.push(1);
                    out.push(*a);
                },
                None => {
                    out.push(0);
                },
            }
            assert(out@ =~= operation_bytes(op@));
        },
    }
    Ok(out)
}

/// The model of an operation that was read.
pub open spec fn decoded_view(op: Option<Operation>) -> Option<OperationView> {
    match op {
        Some(o) => Some(o@),
        None => None,
    }
}

/// Whether the first eight bytes of `data` are `tag`.
fn starts_with(data: &[u8], tag: &[u8; 8]) -> (same: bool)
    requires
        data@.len() >= 8,
    ensures
        same == (data@.take(8) == tag@),
{
    let mut i: usize = 0;
    while i < 8
        invariant
            i <= 8,
            data@.len() >= 8,
            forall|k: int| 0 <= k < i ==> data@[k] == tag@[k],
        decreases 8 - i,
    {
        if data[i] != tag[i] {
            assert(data@.take(8)[i as int] != tag@[i as int]);
            return false;
        }
        i += 1;
    }
    assert(data@.take(8) =~= tag@);
    true
}

/// Reads the arguments of `initialize`.
fn decode_initialize(bytes: &[u8]) -> (op: Option<Operation>)
    ensures
        decoded_view(op) == initialize_at_front(bytes@),
{
    match take_text(bytes) {
        Some((name, taken)) => {
            if taken < bytes.len() {
                Some(Operation::Initialize { name, age: bytes[taken] })
            } else {
                None
            }
        },
        None => None,
    }
}

/// Reads the arguments of `update`.
fn decode_update(bytes: &[u8]) -> (op: Option<Operation>)
    ensures
        decoded_view(op) == update_at_front(bytes@),
{
    if bytes.len() < 1 {
        return None;
    }
    let (name, taken): (Option<String>, usize) = if bytes[0] == 0 {
        (None, 1)
    } else if bytes[0] == 1 {
        let after = slice_subrange(bytes, 1, bytes.len());
        assert(after@ =~= bytes@.skip(1));
        match take_text(after) {
            Some((text, n)) => {
                proof {
                    lemma_text_read_was_written(after@);
                }
                (Some(text), 1 + n)
            },
            None => {
                return None;
            },
        }
    } else {
        return None;
    };
    let rest = slice_subrange(bytes, taken, bytes.len());
    assert(rest@ =~= bytes@.skip(taken as int));
    if rest.len() < 1 {
        None
    } else if rest[0] == 0 {
        Some(Operation::Update { name, age: None })
    } else if rest[0] == 1 && rest.len() >= 2 {
        Some(Operation::Update { name, age: Some(rest[1]) })
    } else {
        None
    }
}

/// Reads the operation that a payload begins with. Bytes after the arguments are not read.
pub fn decode_operation(data: &[u8]) -> (op: Option<Operation>)
    ensures
        decoded_view(op) == operation_at_front(data@),
{
    if data.len() < 8 {
        return None;
    }
    let rest = slice_subrange(data, 8, data.len());
    assert(rest@ =~= data@.skip(8));
    if starts_with(data, &INITIALIZE_DISCRIMINATOR) {
        decode_initialize(rest)
    } else if starts_with(data, &UPDATE_DISCRIMINATOR) {
        decode_update(rest)
    } else {
        None
    }
}

} // verus!
