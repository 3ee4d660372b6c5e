//! Text and byte strings as they cross the boundary to the engine: decimal
//! numerals, colon-joined database lists, the search for a nul byte, and the
//! decoding of what the engine answers.

use vstd::prelude::*;
use vstd::utf8::*;

verus! {

/// The byte that separates the names of a database list.
pub const SEPARATOR: u8 = 58;

/// `String::push` appends one character to the string and leaves the rest
/// as it was.
pub assume_specification[ String::push ](text: &mut String, c: char)
    ensures
        final(text)@ == old(text)@.push(c),
;

/// The text that a lossy decoding of `bytes` as UTF-8 gives: invalid
/// sequences are replaced by U+FFFD.
pub uninterp spec fn utf8_lossy(bytes: Seq<u8>) -> Seq<char>;

/// `String::from_utf8_lossy`, copied into an owned string. The result is a
/// function of the bytes alone; on valid UTF-8 it is the text that the
/// bytes encode.
#[verifier::external_body]
pub(crate) fn decode_lossy(bytes: &[u8]) -> (text: String)
    ensures
        text@ == utf8_lossy(bytes@),
        valid_utf8(bytes@) ==> text@ == decode_utf8(bytes@),
{
    String::from_utf8_lossy(bytes).into_owned()
}

/// The character of the decimal digit `d`.
pub open spec fn digit(d: nat) -> char
    recommends
        d < 10,
{
    ((48 + d) as u8) as char
}

/// The decimal numeral of `n`, without leading zeros.
pub open spec fn decimal(n: nat) -> Seq<char>
    decreases n,
{
    if n < 10 {
        seq![digit(n)]
    } else {
        decimal(n / 10).push(digit(n % 10))
    }
}

/// The decimal numeral of `n`, with a minus sign before a negative number.
pub open spec fn signed_decimal(n: int) -> Seq<char> {
    if n < 0 {
        seq!['-'] + decimal((-n) as nat)
    } else {
        decimal(n as nat)
    }
}

/// The numerals of `bytes`, separated by a comma and a space.
pub open spec fn byte_list(bytes: Seq<u8>) -> Seq<char>
    decreases bytes.len(),
{
    if bytes.len() == 0 {
        Seq::empty()
    } else if bytes.len() == 1 {
        decimal(bytes[0] as nat)
    } else {
        byte_list(bytes.drop_last()) + seq![',', ' '] + decimal(bytes.last() as nat)
    }
}

/// The parts in their order, with a separator between each two neighbours.
pub open spec fn joined(parts: Seq<Seq<u8>>) -> Seq<u8>
    decreases parts.len(),
{
    if parts.len() == 0 {
        Seq::empty()
    } else if parts.len() == 1 {
        parts[0]
    } else {
        joined(parts.drop_last()) + seq![SEPARATOR] + parts.last()
    }
}

/// The UTF-8 bytes of each name.
pub open spec fn names_bytes(names: Seq<&str>) -> Seq<Seq<u8>> {
    Seq::new(names.len(), |i: int| encode_utf8(names[i]@))
}

/// Whether `at` is the place of the first nul byte of `bytes`.
pub open spec fn first_nul(bytes: Seq<u8>, at: int) -> bool {
    &&& 0 <= at < bytes.len()
    &&& bytes[at] == 0
    &&& forall|i: int| 0 <= i < at ==> bytes[i] != 0
}

/// Whether `bytes` holds a nul byte.
pub open spec fn has_nul(bytes: Seq<u8>) -> bool {
    exists|at: int| 0 <= at < bytes.len() && bytes[at] == 0
}

/// The place of the first nul byte of `bytes`, where it has one.
pub open spec fn nul_position(bytes: Seq<u8>) -> int {
    choose|at: int| first_nul(bytes, at)
}

/// The first nul byte is in one place only: whichever place meets
/// `first_nul` is `nul_position`.
pub proof fn first_nul_is_unique(bytes: Seq<u8>, at: int)
    requires
        first_nul(bytes, at),
    ensures
        has_nul(bytes),
        nul_position(bytes) == at,
{
    let p = nul_position(bytes);
    assert(first_nul(bytes, p));
    if p < at {
        assert(bytes[p] != 0);
    } else if at < p {
        assert(bytes[at] != 0);
    }
}

/// Appends the decimal numeral of `n` to `text`.
pub fn push_decimal(text: &mut String, n: u64)
    ensures
        final(text)@ == old(text)@ + decimal(n as nat),
    decreases n,
{
    if n >= 10 {
        push_decimal(text, n / 10);
    }
    let d: u8 = (n % 10) as u8;
    text.push((48u8 + d) as char);
    proof {
        if n >= 10 {
            assert(final(text)@ =~= old(text)@ + decimal((n / 10) as nat).push(digit((n % 10) as nat)));
        } else {
            assert(final(text)@ =~= old(text)@ + seq![digit(n as nat)]);
        }
    }
}

/// Appends the decimal numeral of `n` to `text`, with its sign if it is
/// negative.
pub fn push_signed_decimal(text: &mut String, n: i32)
    ensures
        final(text)@ == old(text)@ + signed_decimal(n as int),
{
    if n < 0 {
        let wide: i64 = n as i64;
        text.push('-');
        push_decimal(text, (-wide) as u64);
        assert(final(text)@ =~= old(text)@ + (seq!['-'] + decimal((-n) as nat)));
    } else {
        push_decimal(text, n as u64);
    }
}

/// Appends the numerals of `bytes` to `text`, separated by a comma and a
/// space.
pub fn push_byte_list(text: &mut String, bytes: &[u8])
    ensures
        final(text)@ == old(text)@ + byte_list(bytes@),
{
    let mut i: usize = 0;
    assert(text@ =~= old(text)@ + byte_list(bytes@.take(0)));
    while i < bytes.len()
        invariant
            0 <= i <= bytes@.len(),
            text@ == old(text)@ + byte_list(bytes@.take(i as int)),
        decreases bytes@.len() - i,
    {
        let ghost before = text@;
        if i > 0 {
            text.push(',');
            text.push(' ');
        }
        push_decimal(text, bytes[i] as u64);
        proof {
            let next = bytes@.take(i + 1);
            assert(next.drop_last() =~= bytes@.take(i as int));
            assert(next.last() == bytes@[i as int]);
            if i > 0 {
                assert(text@ =~= before + seq![',', ' '] + decimal(bytes@[i as int] as nat));
            } else {
                assert(byte_list(bytes@.take(0)) =~= Seq::<char>::empty());
                assert(text@ =~= old(text)@ + decimal(bytes@[i as int] as nat));
            }
            assert(text@ =~= old(text)@ + byte_list(next));
        }
        i = i + 1;
    }
    assert(bytes@.take(i as int) =~= bytes@);
}

/// The place of the first nul byte of `bytes`, if it has one.
pub fn find_nul(bytes: &[u8]) -> (found: Option<usize>)
    ensures
        match found {
            Some(at) => first_nul(bytes@, at as int),
            None => !has_nul(bytes@),
        },
{
    let mut i: usize = 0;
    while i < bytes.len()
        invariant
            0 <= i <= bytes@.len(),
            forall|k: int| 0 <= k < i ==> bytes@[k] != 0,
        decreases bytes@.len() - i,
    {
        if bytes[i] == 0 {
            return Some(i);
        }
        i = i + 1;
    }
    None
}

/// The names of a database list as one byte string: the UTF-8 bytes of each
/// name in its order, with a colon between each two neighbours.
pub fn join_names(names: &[&str]) -> (bytes: Vec<u8>)
    ensures
        bytes@ == joined(names_bytes(names@)),
{
    let mut bytes: Vec<u8> = Vec::new();
    let mut i: usize = 0;
    assert(names_bytes(names@).take(0) =~= Seq::<Seq<u8>>::empty());
    while i < names.len()
        invariant
            0 <= i <= names@.len(),
            bytes@ == joined(names_bytes(names@).take(i as int)),
        decreases names@.len() - i,
    {
        let ghost before = bytes@;
        if i > 0 {
            bytes.push(SEPARATOR);
        }
        let name: &str = names[i];
        bytes.extend_from_slice(name.as_bytes());
        proof {
            let parts = names_bytes(names@);
            let next = parts.take(i + 1);
            assert(next.drop_last() =~= parts.take(i as int));
            assert(next.last() == encode_utf8(names@[i as int]@));
            if i > 0 {
                assert(bytes@ =~= before + seq![SEPARATOR] + next.last());
            } else {
                assert(before =~= Seq::<u8>::empty());
                assert(bytes@ =~= next.last());
            }
            assert(bytes@ == joined(next));
        }
        i = i + 1;
    }
    assert(names_bytes(names@).take(i as int) =~= names_bytes(names@));
    bytes
}

} // verus!
