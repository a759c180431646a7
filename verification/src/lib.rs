//! Generation of random serials: fixed-length strings of ASCII letters and
//! digits, produced in batches of a caller-chosen size.

use rand::Rng;
use vstd::prelude::*;
use vstd::std_specs::iter::IteratorSpec;

verus! {

broadcast use vstd::string::axiom_spec_iter, vstd::string::next_postcondition;

/// Length of every serial, in characters.
pub const SERIAL_LEN: usize = 10;

/// A character allowed in a serial: one of the 62 ASCII alphanumeric
/// characters (a-z, A-Z, 0-9).
pub open spec fn is_serial_char(c: char) -> bool {
    ||| ('a' as u32) <= (c as u32) && (c as u32) <= ('z' as u32)
    ||| ('A' as u32) <= (c as u32) && (c as u32) <= ('Z' as u32)
    ||| ('0' as u32) <= (c as u32) && (c as u32) <= ('9' as u32)
}

/// A serial: exactly `SERIAL_LEN` characters, every one alphanumeric.
pub open spec fn is_serial(s: Seq<char>) -> bool {
    &&& s.len() == SERIAL_LEN
    &&& forall|i: int| 0 <= i < s.len() ==> is_serial_char(s[i])
}

/// `String::push` appends the given character to the end of the string.
pub assume_specification[ String::push ](s: &mut String, ch: char)
    ensures
        final(s)@ == old(s)@.push(ch),
;

/// Relies on rand's `Alphanumeric` distribution: every sample drawn from it
/// is one of the 62 ASCII alphanumeric bytes (a-z, A-Z, 0-9), taken here
/// from the thread-local generator.
#[verifier::external_body]
fn sample_serial_char() -> (c: char)
    ensures
        is_serial_char(c),
{
    char::from(rand::thread_rng().sample(rand::distributions::Alphanumeric))
}

/// Produce one serial: a fresh string of `SERIAL_LEN` characters, each
/// independently sampled from the alphanumeric alphabet.
pub fn generate_serial() -> (r: String)
    ensures
        is_serial(r@),
{
    let mut serial = String::new();
    let mut i: usize = 0;
    while i < SERIAL_LEN
        invariant
            i <= SERIAL_LEN,
            serial@.len() == i,
            forall|j: int| 0 <= j < serial@.len() ==> is_serial_char(serial@[j]),
        decreases SERIAL_LEN - i,
    {
        let c = sample_serial_char();
        serial.push(c);
        i = i + 1;
    }
    serial
}

/// Produce `count` serials, in generation order. Every returned string is a
/// serial; a count of zero yields the empty sequence.
pub fn generate_serials(count: u32) -> (r: Vec<String>)
    ensures
        r@.len() == count as int,
        forall|i: int| 0 <= i < r@.len() ==> is_serial(#[trigger] r@[i]@),
        count == 0 ==> r@ =~= Seq::<String>::empty(),
{
    let mut serials: Vec<String> = Vec::new();
    let mut n: u32 = 0;
    while n < count
        invariant
            n <= count,
            serials@.len() == n as int,
            forall|i: int| 0 <= i < serials@.len() ==> is_serial(#[trigger] serials@[i]@),
        decreases count - n,
    {
        serials.push(generate_serial());
        n = n + 1;
    }
    serials
}

/// Decide whether a string is a serial: exactly `SERIAL_LEN` characters,
/// every one alphanumeric.
pub fn is_serial_str(s: &str) -> (r: bool)
    ensures
        r == is_serial(s@),
{
    let mut it = s.chars();
    let mut seen: usize = 0;
    loop
        invariant
            seen <= s@.len(),
            seen <= SERIAL_LEN,
            it.remaining() =~= s@.skip(seen as int),
            forall|j: int| 0 <= j < seen ==> is_serial_char(s@[j]),
        decreases s@.len() - seen,
    {
        match it.next() {
            Some(c) => {
                if seen >= SERIAL_LEN {
                    return false;
                }
                proof {
                    assert(s@.skip(seen as int).drop_first() =~= s@.skip(seen as int + 1));
                }
                let v = c as u32;
                let ok = (('a' as u32) <= v && v <= ('z' as u32)) || (('A' as u32) <= v && v
                    <= ('Z' as u32)) || (('0' as u32) <= v && v <= ('9' as u32));
                if !ok {
                    return false;
                }
                seen = seen + 1;
            },
            None => {
                return seen == SERIAL_LEN;
            },
        }
    }
}

} // verus!
