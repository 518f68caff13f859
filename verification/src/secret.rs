//! The session-signing secret: random bytes from the system, written in
//! lower-case hexadecimal.

use crate::failure::{ErrorKind, Failure};
use vstd::prelude::*;
use vstd::string::*;

verus! {

/// Number of random bytes in a session secret.
pub const SECRET_BYTES: usize = 32;

/// Number of characters in a session secret.
pub const SECRET_LENGTH: usize = 64;

/// The sixteen hexadecimal digits, in order of value.
pub open spec fn hex_digits() -> Seq<char> {
    "0123456789abcdef"@
}

/// The digit that stands at position `index` of a byte string's hexadecimal
/// form: the high half of byte `index / 2` at even positions, the low half
/// at odd ones.
pub open spec fn hex_digit_at(bytes: Seq<u8>, index: int) -> char {
    if index % 2 == 0 {
        hex_digits()[bytes[index / 2] as int / 16]
    } else {
        hex_digits()[bytes[index / 2] as int % 16]
    }
}

/// A byte string in hexadecimal: two digits per byte, high half first.
pub open spec fn hex_text(bytes: Seq<u8>) -> Seq<char> {
    Seq::new(2 * bytes.len(), |index: int| hex_digit_at(bytes, index))
}

/// A text that is the hexadecimal form of `SECRET_BYTES` bytes.
pub open spec fn is_session_secret(text: Seq<char>) -> bool {
    exists|seed: Seq<u8>| seed.len() == SECRET_BYTES && text == #[trigger] hex_text(seed)
}

/// The error of `getrandom::fill`, carried through unread.
#[verifier::external_type_specification]
#[verifier::external_body]
pub struct ExEntropyError(getrandom::Error);

/// Calls `getrandom::fill` on a buffer of `SECRET_BYTES` bytes and hands the
/// buffer out when the call succeeded. The contract claims nothing.
#[verifier::external_body]
fn random_seed() -> (seed: Result<[u8; SECRET_BYTES], getrandom::Error>) {
    let mut buffer = [0u8; SECRET_BYTES];
    getrandom::fill(&mut buffer)?;
    Ok(buffer)
}

/// The hexadecimal form has two characters per byte, and each of them is
/// one of the sixteen digits.
pub proof fn lemma_hex_text_shape(bytes: Seq<u8>)
    ensures
        hex_text(bytes).len() == 2 * bytes.len(),
        forall|index: int|
            0 <= index < hex_text(bytes).len() ==> hex_digits().contains(
                #[trigger] hex_text(bytes)[index],
            ),
{
    reveal_strlit("0123456789abcdef");
    assert forall|index: int| 0 <= index < hex_text(bytes).len() implies hex_digits().contains(
        #[trigger] hex_text(bytes)[index],
    ) by {
        let byte = bytes[index / 2] as int;
        let value = if index % 2 == 0 {
            byte / 16
        } else {
            byte % 16
        };
        assert(0 <= value < 16);
        assert(hex_text(bytes)[index] == hex_digits()[value]);
    }
}

/// Two byte strings with the same hexadecimal form are the same byte string.
pub proof fn lemma_hex_text_injective(first: Seq<u8>, second: Seq<u8>)
    requires
        hex_text(first) == hex_text(second),
    ensures
        first == second,
{
    reveal_strlit("0123456789abcdef");
    assert(hex_text(first).len() == 2 * first.len());
    assert(hex_text(second).len() == 2 * second.len());
    assert forall|at: int| 0 <= at < first.len() implies first[at] == second[at] by {
        let x = first[at] as int;
        let y = second[at] as int;
        assert(hex_text(first)[2 * at] == hex_digits()[x / 16]);
        assert(hex_text(second)[2 * at] == hex_digits()[y / 16]);
        assert(hex_text(first)[2 * at + 1] == hex_digits()[x % 16]);
        assert(hex_text(second)[2 * at + 1] == hex_digits()[y % 16]);
        assert(x / 16 == y / 16);
        assert(x % 16 == y % 16);
    }
    assert(first =~= second);
}

/// A session secret has `SECRET_LENGTH` characters, so it is never empty,
/// and all of them are hexadecimal digits.
pub proof fn lemma_session_secret_shape(text: Seq<char>)
    requires
        is_session_secret(text),
    ensures
        text.len() == SECRET_LENGTH,
        text.len() > 0,
        forall|index: int| 0 <= index < text.len() ==> hex_digits().contains(#[trigger] text[index]),
{
    let seed = choose|seed: Seq<u8>| seed.len() == SECRET_BYTES && text == #[trigger] hex_text(seed);
    lemma_hex_text_shape(seed);
}

/// The one-character text of a hexadecimal digit.
fn hex_piece(value: u8) -> (piece: &'static str)
    requires
        value < 16,
    ensures
        piece@ == seq![hex_digits()[value as int]],
{
    proof {
        reveal_strlit("0123456789abcdef");
    }
    let digits = "0123456789abcdef";
    let piece = digits.substring_ascii(value as usize, value as usize + 1);
    assert(piece@ =~= seq![hex_digits()[value as int]]);
    piece
}

/// Writes a seed in hexadecimal.
pub fn session_secret(seed: &[u8]) -> (secret: String)
    ensures
        secret@ == hex_text(seed@),
{
    let mut secret = String::new();
    let mut done: usize = 0;
    while done < seed.len()
        invariant
            done <= seed@.len(),
            secret@ == hex_text(seed@.take(done as int)),
        decreases seed@.len() - done,
    {
        let byte: u8 = seed[done];
        let ghost before = secret@;
        secret.append(hex_piece(byte / 16));
        secret.append(hex_piece(byte % 16));
        proof {
            let longer = seed@.take(done + 1);
            let shorter = seed@.take(done as int);
            assert(secret@.len() == 2 * (done + 1));
            assert forall|index: int| 0 <= index < secret@.len() implies secret@[index]
                == hex_digit_at(longer, index) by {
                if index < 2 * done {
                    assert(secret@[index] == before[index]);
                    assert(before[index] == hex_digit_at(shorter, index));
                    assert(shorter[index / 2] == longer[index / 2]);
                } else if index == 2 * done {
                    assert(longer[index / 2] == byte);
                } else {
                    assert(index == 2 * done + 1);
                    assert(longer[index / 2] == byte);
                }
            }
            assert(secret@ =~= hex_text(longer));
        }
        done = done + 1;
    }
    assert(seed@.take(done as int) =~= seed@);
    secret
}

/// Makes a fresh session secret from the system's random source.
///
/// Whatever the source gives, a secret that comes back is the hexadecimal
/// form of `SECRET_BYTES` bytes; when the source fails, so does this.
pub fn fresh_session_secret() -> (secret: Result<String, Failure>)
    ensures
        secret matches Ok(text) ==> is_session_secret(text@),
        secret matches Err(failure) ==> failure.kind == ErrorKind::NoEntropy,
{
    match random_seed() {
        Ok(seed) => {
            let text = session_secret(seed.as_slice());
            assert(text@ == hex_text(seed@));
            Ok(text)
        },
        Err(_) => Err(Failure::new(ErrorKind::NoEntropy, "the system's random source is unavailable")),
    }
}

} // verus!
