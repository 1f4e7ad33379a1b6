//! Encodings of integers, booleans, characters and the unit type.
use vstd::prelude::*;

use crate::error::SavefileError;
use crate::le::{le_bytes, le_value, lemma_le_roundtrip, lemma_le_value_bound, pow256};
use crate::serializer::{Deserializer, Serializer};
use crate::traits::{Deserialize, Model, Roundtrip, Serialize};

verus! {

impl Model for u8 {
    type M = u8;

    open spec fn model(&self) -> u8 {
        *self
    }
}

impl Serialize for u8 {
    open spec fn valid(version: u32, m: u8) -> bool {
        true
    }

    /// 1 byte(s), least significant first.
    open spec fn encode(version: u32, m: u8) -> Seq<u8> {
        le_bytes(m as nat, 1)
    }

    fn serialize(&self, serializer: &mut Serializer) -> (r: Result<(), SavefileError>) {
        serializer.write_u8(*self);
        Ok(())
    }
}

impl Deserialize for u8 {
    open spec fn decode(version: u32, s: Seq<u8>) -> Option<(u8, nat)> {
        if s.len() >= 1 {
            Some((le_value(s.take(1)) as u8, 1))
        } else {
            None
        }
    }

    fn deserialize(deserializer: &mut Deserializer) -> (r: Result<u8, SavefileError>) {
        match deserializer.read_uint(1) {
            Ok(v) => Ok(v as u8),
            Err(e) => Err(e),
        }
    }
}

impl Roundtrip for u8 {
    open spec fn read_back(version: u32, m: u8) -> u8 {
        m
    }

    proof fn lemma_roundtrip(version: u32, m: u8, rest: Seq<u8>) {
        reveal_with_fuel(pow256, 2);
        lemma_le_roundtrip(m as nat, 1);
        assert((le_bytes(m as nat, 1) + rest).take(1) =~= le_bytes(m as nat, 1));
    }
}

impl Model for u16 {
    type M = u16;

    open spec fn model(&self) -> u16 {
        *self
    }
}

impl Serialize for u16 {
    open spec fn valid(version: u32, m: u16) -> bool {
        true
    }

    /// 2 byte(s), least significant first.
    open spec fn encode(version: u32, m: u16) -> Seq<u8> {
        le_bytes(m as nat, 2)
    }

    fn serialize(&self, serializer: &mut Serializer) -> (r: Result<(), SavefileError>) {
        serializer.write_u16(*self);
        Ok(())
    }
}

impl Deserialize for u16 {
    open spec fn decode(version: u32, s: Seq<u8>) -> Option<(u16, nat)> {
        if s.len() >= 2 {
            Some((le_value(s.take(2)) as u16, 2))
        } else {
            None
        }
    }

    fn deserialize(deserializer: &mut Deserializer) -> (r: Result<u16, SavefileError>) {
        match deserializer.read_uint(2) {
            Ok(v) => Ok(v as u16),
            Err(e) => Err(e),
        }
    }
}

impl Roundtrip for u16 {
    open spec fn read_back(version: u32, m: u16) -> u16 {
        m
    }

    proof fn lemma_roundtrip(version: u32, m: u16, rest: Seq<u8>) {
        reveal_with_fuel(pow256, 3);
        lemma_le_roundtrip(m as nat, 2);
        assert((le_bytes(m as nat, 2) + rest).take(2) =~= le_bytes(m as nat, 2));
    }
}

impl Model for u32 {
    type M = u32;

    open spec fn model(&self) -> u32 {
        *self
    }
}

impl Serialize for u32 {
    open spec fn valid(version: u32, m: u32) -> bool {
        true
    }

    /// 4 byte(s), least significant first.
    open spec fn encode(version: u32, m: u32) -> Seq<u8> {
        le_bytes(m as nat, 4)
    }

    fn serialize(&self, serializer: &mut Serializer) -> (r: Result<(), SavefileError>) {
        serializer.write_u32(*self);
        Ok(())
    }
}

impl Deserialize for u32 {
    open spec fn decode(version: u32, s: Seq<u8>) -> Option<(u32, nat)> {
        if s.len() >= 4 {
            Some((le_value(s.take(4)) as u32, 4))
        } else {
            None
        }
    }

    fn deserialize(deserializer: &mut Deserializer) -> (r: Result<u32, SavefileError>) {
        match deserializer.read_uint(4) {
            Ok(v) => Ok(v as u32),
            Err(e) => Err(e),
        }
    }
}

impl Roundtrip for u32 {
    open spec fn read_back(version: u32, m: u32) -> u32 {
        m
    }

    proof fn lemma_roundtrip(version: u32, m: u32, rest: Seq<u8>) {
        reveal_with_fuel(pow256, 5);
        lemma_le_roundtrip(m as nat, 4);
        assert((le_bytes(m as nat, 4) + rest).take(4) =~= le_bytes(m as nat, 4));
    }
}

impl Model for u64 {
    type M = u64;

    open spec fn model(&self) -> u64 {
        *self
    }
}

impl Serialize for u64 {
    open spec fn valid(version: u32, m: u64) -> bool {
        true
    }

    /// 8 byte(s), least significant first.
    open spec fn encode(version: u32, m: u64) -> Seq<u8> {
        le_bytes(m as nat, 8)
    }

    fn serialize(&self, serializer: &mut Serializer) -> (r: Result<(), SavefileError>) {
        serializer.write_u64(*self);
        Ok(())
    }
}

impl Deserialize for u64 {
    open spec fn decode(version: u32, s: Seq<u8>) -> Option<(u64, nat)> {
        if s.len() >= 8 {
            Some((le_value(s.take(8)) as u64, 8))
        } else {
            None
        }
    }

    fn deserialize(deserializer: &mut Deserializer) -> (r: Result<u64, SavefileError>) {
        match deserializer.read_uint(8) {
            Ok(v) => Ok(v as u64),
            Err(e) => Err(e),
        }
    }
}

impl Roundtrip for u64 {
    open spec fn read_back(version: u32, m: u64) -> u64 {
        m
    }

    proof fn lemma_roundtrip(version: u32, m: u64, rest: Seq<u8>) {
        reveal_with_fuel(pow256, 9);
        lemma_le_roundtrip(m as nat, 8);
        assert((le_bytes(m as nat, 8) + rest).take(8) =~= le_bytes(m as nat, 8));
    }
}

impl Model for i8 {
    type M = i8;

    open spec fn model(&self) -> i8 {
        *self
    }
}

impl Serialize for i8 {
    open spec fn valid(version: u32, m: i8) -> bool {
        true
    }

    /// The two's complement bits, 1 byte(s), least significant first.
    open spec fn encode(version: u32, m: i8) -> Seq<u8> {
        le_bytes((m as u8) as nat, 1)
    }

    fn serialize(&self, serializer: &mut Serializer) -> (r: Result<(), SavefileError>) {
        serializer.write_u8(*self as u8);
        Ok(())
    }
}

impl Deserialize for i8 {
    open spec fn decode(version: u32, s: Seq<u8>) -> Option<(i8, nat)> {
        if s.len() >= 1 {
            Some(((le_value(s.take(1)) as u8) as i8, 1))
        } else {
            None
        }
    }

    fn deserialize(deserializer: &mut Deserializer) -> (r: Result<i8, SavefileError>) {
        match deserializer.read_uint(1) {
            Ok(v) => Ok((v as u8) as i8),
            Err(e) => Err(e),
        }
    }
}

impl Roundtrip for i8 {
    open spec fn read_back(version: u32, m: i8) -> i8 {
        m
    }

    proof fn lemma_roundtrip(version: u32, m: i8, rest: Seq<u8>) {
        reveal_with_fuel(pow256, 2);
        let u = m as u8;
        lemma_le_roundtrip(u as nat, 1);
        assert((le_bytes(u as nat, 1) + rest).take(1) =~= le_bytes(u as nat, 1));
        assert(((m as u8) as i8) == m) by (bit_vector);
    }
}

impl Model for i16 {
    type M = i16;

    open spec fn model(&self) -> i16 {
        *self
    }
}

impl Serialize for i16 {
    open spec fn valid(version: u32, m: i16) -> bool {
        true
    }

    /// The two's complement bits, 2 byte(s), least significant first.
    open spec fn encode(version: u32, m: i16) -> Seq<u8> {
        le_bytes((m as u16) as nat, 2)
    }

    fn serialize(&self, serializer: &mut Serializer) -> (r: Result<(), SavefileError>) {
        serializer.write_u16(*self as u16);
        Ok(())
    }
}

impl Deserialize for i16 {
    open spec fn decode(version: u32, s: Seq<u8>) -> Option<(i16, nat)> {
        if s.len() >= 2 {
            Some(((le_value(s.take(2)) as u16) as i16, 2))
        } else {
            None
        }
    }

    fn deserialize(deserializer: &mut Deserializer) -> (r: Result<i16, SavefileError>) {
        match deserializer.read_uint(2) {
            Ok(v) => Ok((v as u16) as i16),
            Err(e) => Err(e),
        }
    }
}

impl Roundtrip for i16 {
    open spec fn read_back(version: u32, m: i16) -> i16 {
        m
    }

    proof fn lemma_roundtrip(version: u32, m: i16, rest: Seq<u8>) {
        reveal_with_fuel(pow256, 3);
        let u = m as u16;
        lemma_le_roundtrip(u as nat, 2);
        assert((le_bytes(u as nat, 2) + rest).take(2) =~= le_bytes(u as nat, 2));
        assert(((m as u16) as i16) == m) by (bit_vector);
    }
}

impl Model for i32 {
    type M = i32;

    open spec fn model(&self) -> i32 {
        *self
    }
}

impl Serialize for i32 {
    open spec fn valid(version: u32, m: i32) -> bool {
        true
    }

    /// The two's complement bits, 4 byte(s), least significant first.
    open spec fn encode(version: u32, m: i32) -> Seq<u8> {
        le_bytes((m as u32) as nat, 4)
    }

    fn serialize(&self, serializer: &mut Serializer) -> (r: Result<(), SavefileError>) {
        serializer.write_u32(*self as u32);
        Ok(())
    }
}

impl Deserialize for i32 {
    open spec fn decode(version: u32, s: Seq<u8>) -> Option<(i32, nat)> {
        if s.len() >= 4 {
            Some(((le_value(s.take(4)) as u32) as i32, 4))
        } else {
            None
        }
    }

    fn deserialize(deserializer: &mut Deserializer) -> (r: Result<i32, SavefileError>) {
        match deserializer.read_uint(4) {
            Ok(v) => Ok((v as u32) as i32),
            Err(e) => Err(e),
        }
    }
}

impl Roundtrip for i32 {
    open spec fn read_back(version: u32, m: i32) -> i32 {
        m
    }

    proof fn lemma_roundtrip(version: u32, m: i32, rest: Seq<u8>) {
        reveal_with_fuel(pow256, 5);
        let u = m as u32;
        lemma_le_roundtrip(u as nat, 4);
        assert((le_bytes(u as nat, 4) + rest).take(4) =~= le_bytes(u as nat, 4));
        assert(((m as u32) as i32) == m) by (bit_vector);
    }
}

impl Model for i64 {
    type M = i64;

    open spec fn model(&self) -> i64 {
        *self
    }
}

impl Serialize for i64 {
    open spec fn valid(version: u32, m: i64) -> bool {
        true
    }

    /// The two's complement bits, 8 byte(s), least significant first.
    open spec fn encode(version: u32, m: i64) -> Seq<u8> {
        le_bytes((m as u64) as nat, 8)
    }

    fn serialize(&self, serializer: &mut Serializer) -> (r: Result<(), SavefileError>) {
        serializer.write_u64(*self as u64);
        Ok(())
    }
}

impl Deserialize for i64 {
    open spec fn decode(version: u32, s: Seq<u8>) -> Option<(i64, nat)> {
        if s.len() >= 8 {
            Some(((le_value(s.take(8)) as u64) as i64, 8))
        } else {
            None
        }
    }

    fn deserialize(deserializer: &mut Deserializer) -> (r: Result<i64, SavefileError>) {
        match deserializer.read_uint(8) {
            Ok(v) => Ok((v as u64) as i64),
            Err(e) => Err(e),
        }
    }
}

impl Roundtrip for i64 {
    open spec fn read_back(version: u32, m: i64) -> i64 {
        m
    }

    proof fn lemma_roundtrip(version: u32, m: i64, rest: Seq<u8>) {
        reveal_with_fuel(pow256, 9);
        let u = m as u64;
        lemma_le_roundtrip(u as nat, 8);
        assert((le_bytes(u as nat, 8) + rest).take(8) =~= le_bytes(u as nat, 8));
        assert(((m as u64) as i64) == m) by (bit_vector);
    }
}

impl Model for usize {
    type M = usize;

    open spec fn model(&self) -> usize {
        *self
    }
}

impl Serialize for usize {
    open spec fn valid(version: u32, m: usize) -> bool {
        true
    }

    /// Always eight bytes, least significant first, whatever the platform.
    open spec fn encode(version: u32, m: usize) -> Seq<u8> {
        le_bytes(m as nat, 8)
    }

    fn serialize(&self, serializer: &mut Serializer) -> (r: Result<(), SavefileError>) {
        serializer.write_usize(*self);
        Ok(())
    }
}

impl Deserialize for usize {
    /// Values that do not fit in this platform's `usize` are refused.
    open spec fn decode(version: u32, s: Seq<u8>) -> Option<(usize, nat)> {
        if s.len() >= 8 && le_value(s.take(8)) <= usize::MAX {
            Some((le_value(s.take(8)) as usize, 8))
        } else {
            None
        }
    }

    fn deserialize(deserializer: &mut Deserializer) -> (r: Result<usize, SavefileError>) {
        match deserializer.read_uint(8) {
            Ok(v) => {
                if v as u128 > usize::MAX as u128 {
                    Err(SavefileError::GeneralError { msg: String::from_str("value does not fit in usize") })
                } else {
                    Ok(v as usize)
                }
            },
            Err(e) => Err(e),
        }
    }
}

impl Roundtrip for usize {
    open spec fn read_back(version: u32, m: usize) -> usize {
        m
    }

    proof fn lemma_roundtrip(version: u32, m: usize, rest: Seq<u8>) {
        reveal_with_fuel(pow256, 9);
        lemma_le_roundtrip(m as nat, 8);
        assert((le_bytes(m as nat, 8) + rest).take(8) =~= le_bytes(m as nat, 8));
    }
}

impl Model for isize {
    type M = isize;

    open spec fn model(&self) -> isize {
        *self
    }
}

impl Serialize for isize {
    open spec fn valid(version: u32, m: isize) -> bool {
        true
    }

    /// The 64-bit two's complement bits, least significant first, whatever the platform.
    open spec fn encode(version: u32, m: isize) -> Seq<u8> {
        le_bytes(((m as i64) as u64) as nat, 8)
    }

    fn serialize(&self, serializer: &mut Serializer) -> (r: Result<(), SavefileError>) {
        serializer.write_u64((*self as i64) as u64);
        Ok(())
    }
}

impl Deserialize for isize {
    /// Values that do not fit in this platform's `isize` are refused.
    open spec fn decode(version: u32, s: Seq<u8>) -> Option<(isize, nat)> {
        let x = (le_value(s.take(8)) as u64) as i64;
        if s.len() >= 8 && isize::MIN <= x <= isize::MAX {
            Some((x as isize, 8))
        } else {
            None
        }
    }

    fn deserialize(deserializer: &mut Deserializer) -> (r: Result<isize, SavefileError>) {
        match deserializer.read_uint(8) {
            Ok(v) => {
                let x = v as i64;
                if (x as i128) < (isize::MIN as i128) || (x as i128) > (isize::MAX as i128) {
                    Err(SavefileError::GeneralError { msg: String::from_str("value does not fit in isize") })
                } else {
                    Ok(x as isize)
                }
            },
            Err(e) => Err(e),
        }
    }
}

impl Roundtrip for isize {
    open spec fn read_back(version: u32, m: isize) -> isize {
        m
    }

    proof fn lemma_roundtrip(version: u32, m: isize, rest: Seq<u8>) {
        reveal_with_fuel(pow256, 9);
        let x = m as i64;
        let u = x as u64;
        lemma_le_roundtrip(u as nat, 8);
        assert((le_bytes(u as nat, 8) + rest).take(8) =~= le_bytes(u as nat, 8));
        assert(((x as u64) as i64) == x) by (bit_vector);
    }
}

impl Model for bool {
    type M = bool;

    open spec fn model(&self) -> bool {
        *self
    }
}

impl Serialize for bool {
    open spec fn valid(version: u32, m: bool) -> bool {
        true
    }

    /// One byte, 1 for true and 0 for false.
    open spec fn encode(version: u32, m: bool) -> Seq<u8> {
        seq![if m { 1u8 } else { 0u8 }]
    }

    fn serialize(&self, serializer: &mut Serializer) -> (r: Result<(), SavefileError>) {
        serializer.writer.push(if *self { 1u8 } else { 0u8 });
        Ok(())
    }
}

impl Deserialize for bool {
    /// Any byte but 0 and 1 is refused.
    open spec fn decode(version: u32, s: Seq<u8>) -> Option<(bool, nat)> {
        if s.len() >= 1 && s[0] == 0 {
            Some((false, 1))
        } else if s.len() >= 1 && s[0] == 1 {
            Some((true, 1))
        } else {
            None
        }
    }

    fn deserialize(deserializer: &mut Deserializer) -> (r: Result<bool, SavefileError>) {
        if deserializer.pos >= deserializer.reader.len() {
            return Err(SavefileError::ShortRead);
        }
        let b = deserializer.reader[deserializer.pos];
        if b == 0 {
            deserializer.pos = deserializer.pos + 1;
            Ok(false)
        } else if b == 1 {
            deserializer.pos = deserializer.pos + 1;
            Ok(true)
        } else {
            Err(SavefileError::BadDiscriminant)
        }
    }
}

impl Roundtrip for bool {
    open spec fn read_back(version: u32, m: bool) -> bool {
        m
    }

    proof fn lemma_roundtrip(version: u32, m: bool, rest: Seq<u8>) {
        assert((Self::encode(version, m) + rest)[0] == Self::encode(version, m)[0]);
    }
}

impl Model for () {
    type M = ();

    open spec fn model(&self) -> () {
        ()
    }
}

impl Serialize for () {
    open spec fn valid(version: u32, m: ()) -> bool {
        true
    }

    /// Nothing at all.
    open spec fn encode(version: u32, m: ()) -> Seq<u8> {
        Seq::empty()
    }

    fn serialize(&self, serializer: &mut Serializer) -> (r: Result<(), SavefileError>) {
        assert(serializer.writer@ + Seq::<u8>::empty() =~= serializer.writer@);
        Ok(())
    }
}

impl Deserialize for () {
    open spec fn decode(version: u32, s: Seq<u8>) -> Option<((), nat)> {
        Some(((), 0))
    }

    fn deserialize(deserializer: &mut Deserializer) -> (r: Result<(), SavefileError>) {
        Ok(())
    }
}

impl Roundtrip for () {
    open spec fn read_back(version: u32, m: ()) -> () {
        m
    }

    proof fn lemma_roundtrip(version: u32, m: (), rest: Seq<u8>) {
    }
}

/// Converts a number to the character with that code, if there is one.
#[verifier::external_body]
fn char_from_u32(v: u32) -> (r: Option<char>)
    ensures
        r is Some <==> vstd::utf8::is_scalar(v),
        r matches Some(c) ==> c as u32 == v,
{
    char::from_u32(v)
}

impl Model for char {
    type M = char;

    open spec fn model(&self) -> char {
        *self
    }
}

impl Serialize for char {
    open spec fn valid(version: u32, m: char) -> bool {
        true
    }

    /// The code point, four bytes, least significant first.
    open spec fn encode(version: u32, m: char) -> Seq<u8> {
        le_bytes((m as u32) as nat, 4)
    }

    fn serialize(&self, serializer: &mut Serializer) -> (r: Result<(), SavefileError>) {
        serializer.write_u32(*self as u32);
        Ok(())
    }
}

impl Deserialize for char {
    /// Numbers that are not Unicode scalar values are refused.
    open spec fn decode(version: u32, s: Seq<u8>) -> Option<(char, nat)> {
        if s.len() >= 4 && vstd::utf8::is_scalar(le_value(s.take(4)) as u32) {
            Some(((le_value(s.take(4)) as u32) as char, 4))
        } else {
            None
        }
    }

    fn deserialize(deserializer: &mut Deserializer) -> (r: Result<char, SavefileError>) {
        match deserializer.read_uint(4) {
            Ok(v) => {
                match char_from_u32(v as u32) {
                    Some(c) => {
                        proof { vstd::utf8::char_u32_cast(c, v as u32); }
                        Ok(c)
                    },
                    None => Err(SavefileError::InvalidChar),
                }
            },
            Err(e) => Err(e),
        }
    }
}

impl Roundtrip for char {
    open spec fn read_back(version: u32, m: char) -> char {
        m
    }

    proof fn lemma_roundtrip(version: u32, m: char, rest: Seq<u8>) {
        reveal_with_fuel(pow256, 5);
        let u = m as u32;
        lemma_le_roundtrip(u as nat, 4);
        assert((le_bytes(u as nat, 4) + rest).take(4) =~= le_bytes(u as nat, 4));
        vstd::utf8::char_is_scalar(m);
        vstd::utf8::char_u32_cast(m, u);
    }
}

} // verus!
