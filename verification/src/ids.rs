//! Document identifiers: 12-byte object ids, written on the wire as 24
//! hexadecimal digits.
use vstd::prelude::*;
use crate::text::{chars_of, push_char};
use crate::errors::{ApiError, validation};

verus! {

/// A 12-byte object id, held as the big-endian number it spells.
#[derive(Debug, Clone, Copy, PartialEq, Eq, Structural, Hash, PartialOrd, Ord)]
pub struct Oid {
    pub value: u128,
}

/// `16^n`.
pub open spec fn pow16(n: nat) -> nat
    decreases n,
{
    if n == 0 {
        1
    } else {
        16 * pow16((n - 1) as nat)
    }
}

/// The number of values a 12-byte id can take, `2^96 = 16^24`.
pub open spec fn oid_bound() -> nat {
    pow16(24)
}

impl Oid {
    /// An id that fits in 12 bytes, as every id a store hands out does.
    pub open spec fn is_valid(self) -> bool {
        self.value < oid_bound()
    }
}

/// The lowercase hexadecimal digit for `d < 16`.
pub open spec fn hex_char(d: nat) -> char {
    if d < 10 {
        ((48 + d) as u8) as char
    } else {
        ((87 + d) as u8) as char
    }
}

/// The last `n` hexadecimal digits of `v`, most significant first.
pub open spec fn hex_of(v: nat, n: nat) -> Seq<char>
    decreases n,
{
    if n == 0 {
        seq![]
    } else {
        hex_of(v / 16, (n - 1) as nat).push(hex_char(v % 16))
    }
}

/// The value of a hexadecimal digit of either case, or -1 for any other
/// character.
pub open spec fn hex_digit_value(c: char) -> int {
    let u = c as u32;
    if 48 <= u <= 57 {
        u - 48
    } else if 97 <= u <= 102 {
        u - 87
    } else if 65 <= u <= 70 {
        u - 55
    } else {
        -1
    }
}

/// The number a string of hexadecimal digits spells.
pub open spec fn hex_value(s: Seq<char>) -> int
    decreases s.len(),
{
    if s.len() == 0 {
        0
    } else {
        hex_value(s.drop_last()) * 16 + hex_digit_value(s.last())
    }
}

/// Text that names an object id: exactly 24 hexadecimal digits, of either case.
pub open spec fn is_oid_text(s: Seq<char>) -> bool {
    &&& s.len() == 24
    &&& forall|i: int| 0 <= i < s.len() ==> hex_digit_value(#[trigger] s[i]) >= 0
}

pub(crate) fn hex_digit(d: u128) -> (c: char)
    requires
        d < 16,
    ensures
        c == hex_char(d as nat),
{
    if d < 10 {
        ((48 + d) as u8) as char
    } else {
        ((87 + d) as u8) as char
    }
}

fn push_hex(s: &mut String, v: u128, n: usize)
    ensures
        final(s)@ == old(s)@ + hex_of(v as nat, n as nat),
    decreases n,
{
    if n == 0 {
        assert(old(s)@ + Seq::<char>::empty() == old(s)@);
    } else {
        push_hex(s, v / 16, n - 1);
        push_char(s, hex_digit(v % 16));
        assert(hex_of(v as nat, n as nat) == hex_of((v / 16) as nat, (n - 1) as nat).push(
            hex_char((v % 16) as nat),
        ));
    }
}

fn digit_value(c: char) -> (d: i32)
    ensures
        d == hex_digit_value(c),
{
    let u = c as u32;
    if 48 <= u && u <= 57 {
        (u - 48) as i32
    } else if 97 <= u && u <= 102 {
        (u - 87) as i32
    } else if 65 <= u && u <= 70 {
        (u - 55) as i32
    } else {
        -1
    }
}

proof fn lemma_pow16_monotone(i: nat, j: nat)
    requires
        i <= j,
    ensures
        pow16(i) <= pow16(j),
    decreases j,
{
    if i < j {
        lemma_pow16_monotone(i, (j - 1) as nat);
    }
}

proof fn lemma_pow16_24()
    ensures
        pow16(24) == 0x1000000000000000000000000,
{
    reveal_with_fuel(pow16, 25);
}

impl Oid {
    /// The id's 24 lowercase hexadecimal digits.
    pub fn to_hex(&self) -> (s: String)
        ensures
            s@ == hex_of(self.value as nat, 24),
    {
        let mut s = String::new();
        push_hex(&mut s, self.value, 24);
        assert(Seq::<char>::empty() + hex_of(self.value as nat, 24) == hex_of(
            self.value as nat,
            24,
        ));
        s
    }

    /// The id `v`, if it fits in 12 bytes.
    pub fn from_u128(v: u128) -> (r: Option<Oid>)
        ensures
            r is Some <==> v < oid_bound(),
            r matches Some(o) ==> o.value == v,
    {
        proof {
            lemma_pow16_24();
        }
        if v < 0x1000000000000000000000000u128 {
            Some(Oid { value: v })
        } else {
            None
        }
    }
}

/// Reads an object id from its text form: 24 hexadecimal digits, upper or
/// lower case; anything else is rejected.
pub fn parse_oid(s: &str) -> (r: Option<Oid>)
    ensures
        r is Some <==> is_oid_text(s@),
        r matches Some(o) ==> o.value == hex_value(s@) && o.is_valid(),
{
    let v = chars_of(s);
    if v.len() != 24 {
        return None;
    }
    let mut acc: u128 = 0;
    let mut i: usize = 0;
    proof {
        lemma_pow16_24();
        assert(v@.take(0) =~= Seq::<char>::empty());
    }
    while i < 24
        invariant
            i <= 24 == v@.len(),
            v@ == s@,
            acc == hex_value(v@.take(i as int)),
            acc < pow16(i as nat),
            forall|j: int| 0 <= j < i ==> hex_digit_value(#[trigger] v@[j]) >= 0,
            pow16(24) == 0x1000000000000000000000000,
        decreases 24 - i,
    {
        let d = digit_value(v[i]);
        if d < 0 {
            assert(hex_digit_value(v@[i as int]) < 0);
            return None;
        }
        proof {
            assert(v@.take(i + 1).drop_last() == v@.take(i as int));
            assert(v@.take(i + 1).last() == v@[i as int]);
            lemma_pow16_monotone((i + 1) as nat, 24);
        }
        acc = acc * 16 + (d as u128);
        i = i + 1;
    }
    proof {
        assert(v@.take(24) == v@);
    }
    Some(Oid { value: acc })
}

/// `parse_oid`, with the error the API reports for a malformed id.
pub fn parse_id(raw: &str) -> (r: Result<Oid, ApiError>)
    ensures
        r is Ok <==> is_oid_text(raw@),
        r matches Ok(o) ==> o.value == hex_value(raw@),
        r matches Err(e) ==> e.is_validation("invalid id"@),
{
    match parse_oid(raw) {
        Some(o) => Ok(o),
        None => Err(validation("invalid id")),
    }
}

proof fn lemma_hex_of_digits(v: nat, n: nat)
    ensures
        hex_of(v, n).len() == n,
        forall|i: int| 0 <= i < n ==> 0 <= #[trigger] hex_digit_value(hex_of(v, n)[i]) < 16,
    decreases n,
{
    if n > 0 {
        lemma_hex_of_digits(v / 16, (n - 1) as nat);
        let d = v % 16;
        assert(0 <= hex_digit_value(hex_char(d)) < 16);
    }
}

proof fn lemma_hex_value_of_hex_of(v: nat, n: nat)
    requires
        v < pow16(n),
    ensures
        hex_value(hex_of(v, n)) == v,
    decreases n,
{
    if n > 0 {
        lemma_hex_value_of_hex_of(v / 16, (n - 1) as nat);
        let t = hex_of(v, n);
        assert(t.drop_last() == hex_of(v / 16, (n - 1) as nat));
        assert(hex_digit_value(hex_char(v % 16)) == v % 16);
    }
}

/// An id written out by `to_hex` reads back as the same id: the text form
/// is 24 hexadecimal digits and `parse_oid` recovers the value exactly.
pub proof fn law_oid_hex_round_trip(o: Oid)
    requires
        o.is_valid(),
    ensures
        is_oid_text(hex_of(o.value as nat, 24)),
        hex_value(hex_of(o.value as nat, 24)) == o.value,
{
    lemma_hex_of_digits(o.value as nat, 24);
    lemma_hex_value_of_hex_of(o.value as nat, 24);
}

} // verus!
