//! The payload schema of the host boundary, and its validation.
//!
//! The host delivers every request as a dynamically shaped value. Before a
//! kernel runs, that value must be checked against the expected shape: a
//! sequence of numbers, or a record with unsigned 32-bit `start` and `end`
//! fields. A payload of any other shape is rejected with [`InvalidPayload`];
//! the caller aborts the call on that error and computes nothing.

use vstd::prelude::*;

verus! {

/// A value received from the host, reduced to plain data.
///
/// The library never reinterprets a number's bit pattern, so the boundary
/// supplies both readings of each number up front: `bits` is the IEEE-754
/// pattern of the 64-bit value, and `uint` is its reading as an unsigned
/// 32-bit integer, present exactly when the number is a whole number in
/// that range.
pub enum Payload {
    /// A number, in both of its readings.
    Num { bits: u64, uint: Option<u32> },
    /// An ordered sequence of values.
    List(Vec<Payload>),
    /// A record of named fields, in the order the host delivered them.
    Record(Vec<(String, Payload)>),
    /// A value of any other shape (text, boolean, null, ...).
    Other,
}

/// A half-open interval `[start, end)` of unsigned 32-bit integers.
/// `end <= start` denotes the empty interval; that is not an error.
#[derive(Clone, Copy, Debug, PartialEq, Eq, Structural)]
pub struct RangePayload {
    pub start: u32,
    pub end: u32,
}

/// The single error of the boundary: the payload does not have the shape
/// the kernel expects. The call carries no further diagnostic.
#[derive(Clone, Copy, Debug, PartialEq, Eq, Structural)]
pub struct InvalidPayload;

/// A payload is a numeric sequence when it is a list whose every element
/// is a number.
pub open spec fn is_numeric_sequence(p: Payload) -> bool {
    match p {
        Payload::List(items) => forall|i: int| 0 <= i < items@.len() ==> items@[i] is Num,
        _ => false,
    }
}

/// The bit patterns of a numeric sequence's elements, in order.
pub open spec fn sequence_bits(p: Payload) -> Seq<u64>
    recommends
        is_numeric_sequence(p),
{
    match p {
        Payload::List(items) => items@.map(|i: int, q: Payload| q->bits),
        _ => Seq::empty(),
    }
}

/// Validates a numeric-sequence payload and extracts its elements' bit
/// patterns, in order. Fails exactly on payloads that are not a list of
/// numbers.
pub fn decode_sequence(p: &Payload) -> (r: Result<Vec<u64>, InvalidPayload>)
    ensures
        r is Ok <==> is_numeric_sequence(*p),
        r matches Ok(v) ==> v@ == sequence_bits(*p),
{
    match p {
        Payload::List(items) => {
            let mut out: Vec<u64> = Vec::new();
            let mut i: usize = 0;
            while i < items.len()
                invariant
                    *p matches Payload::List(its) && its@ == items@,
                    i <= items@.len(),
                    out@.len() == i,
                    forall|j: int| 0 <= j < i ==> items@[j] is Num,
                    forall|j: int| 0 <= j < i ==> out@[j] == items@[j]->bits,
                decreases items@.len() - i,
            {
                match &items[i] {
                    Payload::Num { bits, .. } => {
                        out.push(*bits);
                    },
                    _ => {
                        proof {
                            assert(!is_numeric_sequence(*p)) by {
                                assert(items@[i as int] !is Num);
                            }
                        }
                        return Err(InvalidPayload);
                    },
                }
                i += 1;
            }
            proof {
                assert(out@ =~= sequence_bits(*p));
            }
            Ok(out)
        },
        _ => Err(InvalidPayload),
    }
}

/// The value of the first field named `name` among `entries`, if any.
pub open spec fn find_field(entries: Seq<(String, Payload)>, name: Seq<char>) -> Option<Payload>
    decreases entries.len(),
{
    if entries.len() == 0 {
        None
    } else if entries[0].0@ == name {
        Some(entries[0].1)
    } else {
        find_field(entries.drop_first(), name)
    }
}

/// The unsigned 32-bit reading of the field named `name`, present exactly
/// when the field exists, is a number, and that number is a whole number
/// in unsigned 32-bit range.
pub open spec fn field_as_uint(entries: Seq<(String, Payload)>, name: Seq<char>) -> Option<u32> {
    match find_field(entries, name) {
        Some(Payload::Num { uint, .. }) => uint,
        _ => None,
    }
}

/// The range a payload denotes: present exactly when the payload is a
/// record whose `start` and `end` fields both carry unsigned 32-bit
/// numbers. Any further fields are ignored.
pub open spec fn parsed_range(p: Payload) -> Option<RangePayload> {
    match p {
        Payload::Record(entries) => match (
            field_as_uint(entries@, "start"@),
            field_as_uint(entries@, "end"@),
        ) {
            (Some(s), Some(e)) => Some(RangePayload { start: s, end: e }),
            _ => None,
        },
        _ => None,
    }
}

/// Skipping entries that do not carry `name` leaves the lookup unchanged.
proof fn lemma_find_field_skip(entries: Seq<(String, Payload)>, name: Seq<char>, i: int)
    requires
        0 <= i <= entries.len(),
        forall|j: int| 0 <= j < i ==> entries[j].0@ != name,
    ensures
        find_field(entries, name) == find_field(entries.skip(i), name),
    decreases i,
{
    if i > 0 {
        lemma_find_field_skip(entries, name, i - 1);
        assert(entries.skip(i - 1)[0] == entries[i - 1]);
        assert(entries.skip(i - 1).drop_first() =~= entries.skip(i));
    } else {
        assert(entries.skip(0) =~= entries);
    }
}

/// The position of the first field named `name`, if any.
fn find_entry(entries: &Vec<(String, Payload)>, name: &String) -> (r: Option<usize>)
    ensures
        match r {
            Some(i) => i < entries@.len() && entries@[i as int].0@ == name@
                && find_field(entries@, name@) == Some(entries@[i as int].1),
            None => find_field(entries@, name@) is None,
        },
{
    let mut i: usize = 0;
    while i < entries.len()
        invariant
            i <= entries@.len(),
            forall|j: int| 0 <= j < i ==> entries@[j].0@ != name@,
        decreases entries@.len() - i,
    {
        if entries[i].0 == *name {
            proof {
                lemma_find_field_skip(entries@, name@, i as int);
                assert(entries@.skip(i as int)[0] == entries@[i as int]);
            }
            return Some(i);
        }
        i += 1;
    }
    proof {
        lemma_find_field_skip(entries@, name@, entries@.len() as int);
    }
    None
}

/// Validates a range payload: a record whose `start` and `end` fields both
/// carry unsigned 32-bit numbers. Fails exactly on payloads of any other
/// shape; an empty or inverted range is not an error.
pub fn decode_range(p: &Payload) -> (r: Result<RangePayload, InvalidPayload>)
    ensures
        r is Ok <==> parsed_range(*p) is Some,
        r matches Ok(rp) ==> parsed_range(*p) == Some(rp),
{
    match p {
        Payload::Record(entries) => {
            let start_name: String = "start".to_owned();
            let end_name: String = "end".to_owned();
            let start = match find_entry(entries, &start_name) {
                Some(i) => match &entries[i].1 {
                    Payload::Num { uint: Some(u), .. } => *u,
                    _ => {
                        return Err(InvalidPayload);
                    },
                },
                None => {
                    return Err(InvalidPayload);
                },
            };
            let end = match find_entry(entries, &end_name) {
                Some(i) => match &entries[i].1 {
                    Payload::Num { uint: Some(u), .. } => *u,
                    _ => {
                        return Err(InvalidPayload);
                    },
                },
                None => {
                    return Err(InvalidPayload);
                },
            };
            Ok(RangePayload { start, end })
        },
        _ => Err(InvalidPayload),
    }
}

} // verus!
