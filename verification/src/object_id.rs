//! ObjectIds: identifiers of twelve bytes, written as 24 hexadecimal digits.
use vstd::prelude::*;
use crate::error::MustyError;
use crate::id::{GeneratedIdGuard, Id, IdGuard};
use crate::model::Model;

verus! {

/// Whether `c` is a hexadecimal digit, in either case.
pub open spec fn is_hex_digit(c: char) -> bool {
    ('0' <= c <= '9') || ('a' <= c <= 'f') || ('A' <= c <= 'F')
}

/// The value of the hexadecimal digit `c`.
pub open spec fn hex_value(c: char) -> int {
    if '0' <= c <= '9' {
        c as int - '0' as int
    } else if 'a' <= c <= 'f' {
        c as int - 'a' as int + 10
    } else {
        c as int - 'A' as int + 10
    }
}

/// The lowercase hexadecimal digit of the value `v`.
pub open spec fn hex_digit(v: int) -> char {
    if v < 10 {
        (('0' as u8) + v) as char
    } else {
        (('a' as u8) + (v - 10)) as char
    }
}

/// Whether `s` is the notation of an ObjectId: 24 hexadecimal digits.
pub open spec fn is_object_id_hex(s: Seq<char>) -> bool {
    &&& s.len() == 24
    &&& forall|i: int| 0 <= i < 24 ==> is_hex_digit(#[trigger] s[i])
}

/// The twelve bytes that the 24 hexadecimal digits `s` stand for.
pub open spec fn parsed_bytes(s: Seq<char>) -> Seq<u8> {
    Seq::new(12, |i: int| (16 * hex_value(s[2 * i]) + hex_value(s[2 * i + 1])) as u8)
}

/// The notation of `bytes`: two lowercase hexadecimal digits for each byte.
pub open spec fn hex_of(bytes: Seq<u8>) -> Seq<char> {
    Seq::new(
        2 * bytes.len(),
        |i: int|
            hex_digit(
                if i % 2 == 0 {
                    bytes[i / 2] as int / 16
                } else {
                    bytes[i / 2] as int % 16
                },
            ),
    )
}

/// `bson::oid::ObjectId::parse_str`, with the bytes of the ObjectId that it
/// gives: it accepts exactly the strings of 24 hexadecimal digits, and each
/// pair of digits gives one byte.
#[verifier::external_body]
fn parse_hex(s: &str) -> (r: Result<[u8; 12], bson::oid::Error>)
    ensures
        r is Ok <==> is_object_id_hex(s@),
        r matches Ok(bytes) ==> bytes@ == parsed_bytes(s@),
{
    match bson::oid::ObjectId::parse_str(s) {
        Ok(id) => Ok(id.bytes()),
        Err(e) => Err(e),
    }
}

/// `bson::oid::ObjectId::to_hex`, of the ObjectId of the given bytes: two
/// lowercase hexadecimal digits for each byte.
#[verifier::external_body]
fn to_hex_string(bytes: [u8; 12]) -> (s: String)
    ensures
        s@ == hex_of(bytes@),
{
    bson::oid::ObjectId::from_bytes(bytes).to_hex()
}

/// An ObjectId, as its twelve bytes.
#[derive(Debug, Clone, Copy, PartialEq, Eq, Hash)]
pub struct ObjectId {
    pub bytes: [u8; 12],
}

impl ObjectId {
    /// The ObjectId that the 24 hexadecimal digits `s` stand for.
    pub fn parse_str(s: &str) -> (r: Result<ObjectId, MustyError>)
        ensures
            r is Ok <==> is_object_id_hex(s@),
            r matches Ok(id) ==> id.bytes@ == parsed_bytes(s@),
            r matches Err(e) ==> e is ObjectId,
    {
        match parse_hex(s) {
            Ok(bytes) => Ok(ObjectId { bytes }),
            Err(e) => Err(MustyError::ObjectId(e)),
        }
    }

    /// The notation of the ObjectId: 24 lowercase hexadecimal digits.
    pub fn to_hex(&self) -> (s: String)
        ensures
            s@ == hex_of(self.bytes@),
    {
        to_hex_string(self.bytes)
    }

    /// The ObjectId that the identifier `id` stands for: the one that the
    /// canonical string form of its value is the notation of.
    pub fn from_id<M: Model, I: IdGuard>(id: &Id<M, I>) -> (r: Result<ObjectId, MustyError>)
        ensures
            match id.inner {
                Some(i) => exists|s: String|
                    call_ensures(I::to_canonical, (&i,), s) && (r is Ok <==> is_object_id_hex(s@))
                        && (r matches Ok(o) ==> o.bytes@ == parsed_bytes(s@)) && (r matches Err(e)
                        ==> e is ObjectId),
                None => r matches Err(e) && e is Other,
            },
    {
        match &id.inner {
            Some(i) => {
                let s = i.to_canonical();
                let r = ObjectId::parse_str(s.as_str());
                assert(call_ensures(I::to_canonical, (i,), s) && (r is Ok <==> is_object_id_hex(s@)));
                r
            },
            None => Err(MustyError::other("Id is None")),
        }
    }
}

impl IdGuard for ObjectId {
    /// The notation of the ObjectId.
    fn to_canonical(&self) -> (s: String)
        ensures
            s@ == hex_of(self.bytes@),
    {
        self.to_hex()
    }
}

impl GeneratedIdGuard for ObjectId {

}

/// The notation of an ObjectId is the notation of that ObjectId: parsing
/// what `to_hex` gives hands back the same twelve bytes.
pub proof fn lemma_hex_round_trip(bytes: Seq<u8>)
    requires
        bytes.len() == 12,
    ensures
        is_object_id_hex(hex_of(bytes)),
        parsed_bytes(hex_of(bytes)) == bytes,
{
    let s = hex_of(bytes);
    assert forall|i: int| 0 <= i < 24 implies is_hex_digit(#[trigger] s[i]) by {
        let v = if i % 2 == 0 {
            bytes[i / 2] as int / 16
        } else {
            bytes[i / 2] as int % 16
        };
        assert(0 <= v < 16);
    }
    assert forall|k: int| 0 <= k < 12 implies parsed_bytes(s)[k] == bytes[k] by {
        let hi = bytes[k] as int / 16;
        let lo = bytes[k] as int % 16;
        assert(s[2 * k] == hex_digit(hi));
        assert(s[2 * k + 1] == hex_digit(lo));
        assert(hex_value(hex_digit(hi)) == hi);
        assert(hex_value(hex_digit(lo)) == lo);
    }
    assert(parsed_bytes(s) =~= bytes);
}

} // verus!
