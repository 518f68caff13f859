//! Reading the server's output: which lines announce readiness, which a
//! port conflict, and which mean nothing to the supervisor.
//!
//! Lines are bytes, exactly as the child wrote them. Every marker is ASCII,
//! so no decoding is needed to look for it.

use vstd::prelude::*;
use vstd::string::*;

verus! {

/// What one line of the server's output means to the supervisor.
#[derive(Clone, Copy, Debug, PartialEq, Eq, Structural)]
pub enum LineClass {
    /// The server says it accepts connections.
    Ready,
    /// The server could not bind its port: something else holds it.
    PortConflict,
    /// Anything else; passed on to diagnostics and not acted on.
    Ignored,
}

/// The bytes of a text made of ASCII characters only.
pub open spec fn ascii(text: Seq<char>) -> Seq<u8> {
    Seq::new(text.len(), |i: int| text[i] as u8)
}

/// A byte with the ASCII capitals `A` to `Z` turned into `a` to `z`.
pub open spec fn fold_case(b: u8) -> u8 {
    if 65 <= b <= 90 {
        (b + 32) as u8
    } else {
        b
    }
}

/// A byte string with every byte case-folded.
pub open spec fn folded(s: Seq<u8>) -> Seq<u8> {
    Seq::new(s.len(), |i: int| fold_case(s[i]))
}

/// `needle` stands in `hay` at offset `at`.
pub open spec fn occurs_at(needle: Seq<u8>, hay: Seq<u8>, at: int) -> bool {
    &&& 0 <= at
    &&& at + needle.len() <= hay.len()
    &&& hay.subrange(at, at + needle.len()) == needle
}

/// `needle` stands somewhere in `hay`.
pub open spec fn occurs_in(needle: Seq<u8>, hay: Seq<u8>) -> bool {
    exists|at: int| occurs_at(needle, hay, at)
}

/// The line carries the readiness marker, in any mix of upper and lower case.
pub open spec fn mentions_ready(line: Seq<u8>) -> bool {
    occurs_in(ascii("ready"@), folded(line))
}

/// The line carries one of the address-in-use markers, spelled exactly.
pub open spec fn mentions_port_conflict(line: Seq<u8>) -> bool {
    occurs_in(ascii("EADDRINUSE"@), line) || occurs_in(ascii("address already in use"@), line)
}

/// The class of a line. A line that carries both kinds of marker is a port
/// conflict: the conflict ends the monitoring, and what it triggers includes
/// the notification that readiness alone would have triggered. The phrase
/// "address already in use" is such a line by itself, for "already" ends in
/// the readiness marker.
pub open spec fn classification(line: Seq<u8>) -> LineClass {
    if mentions_port_conflict(line) {
        LineClass::PortConflict
    } else if mentions_ready(line) {
        LineClass::Ready
    } else {
        LineClass::Ignored
    }
}

/// Case-folds one byte.
pub fn fold_byte(b: u8) -> (r: u8)
    ensures
        r == fold_case(b),
{
    if b >= 65 && b <= 90 {
        b + 32
    } else {
        b
    }
}

/// The byte string that `occurs` searches: the text itself, or its case-folded form.
pub open spec fn searched(hay: Seq<u8>, ignore_case: bool) -> Seq<u8> {
    if ignore_case {
        folded(hay)
    } else {
        hay
    }
}

/// The byte at `index` of the string that `occurs` searches.
fn searched_byte(hay: &[u8], index: usize, ignore_case: bool) -> (b: u8)
    requires
        index < hay@.len(),
    ensures
        b == searched(hay@, ignore_case)[index as int],
{
    if ignore_case {
        fold_byte(hay[index])
    } else {
        hay[index]
    }
}

/// Tells whether `needle` stands somewhere in `hay`. With `ignore_case`,
/// `hay` is case-folded before the comparison; `needle` is taken as given.
pub fn occurs(needle: &[u8], hay: &[u8], ignore_case: bool) -> (found: bool)
    ensures
        found == occurs_in(needle@, searched(hay@, ignore_case)),
{
    let n: usize = needle.len();
    let h: usize = hay.len();
    let ghost text = searched(hay@, ignore_case);
    if n > h {
        assert(forall|at: int| !occurs_at(needle@, text, at));
        return false;
    }
    let last: usize = h - n;
    let mut at: usize = 0;
    while at <= last
        invariant
            n == needle@.len(),
            h == hay@.len(),
            last == h - n,
            at <= last + 1,
            text == searched(hay@, ignore_case),
            text.len() == h,
            forall|k: int| 0 <= k < at ==> !occurs_at(needle@, text, k),
        decreases last + 1 - at,
    {
        let mut j: usize = 0;
        while j < n && searched_byte(hay, at + j, ignore_case) == needle[j]
            invariant
                n == needle@.len(),
                h == hay@.len(),
                last == h - n,
                at <= last,
                j <= n,
                text == searched(hay@, ignore_case),
                text.len() == h,
                forall|i: int| 0 <= i < j ==> text[at + i] == needle@[i],
            decreases n - j,
        {
            j = j + 1;
        }
        if j == n {
            assert(text.subrange(at as int, at + n) =~= needle@);
            assert(occurs_at(needle@, text, at as int));
            return true;
        }
        assert(!occurs_at(needle@, text, at as int)) by {
            if occurs_at(needle@, text, at as int) {
                assert(text.subrange(at as int, at + n)[j as int] == needle@[j as int]);
            }
        }
        at = at + 1;
    }
    assert(forall|k: int| !occurs_at(needle@, text, k));
    false
}

/// The bytes of an ASCII text, for use as a search marker.
fn marker(text: &str) -> (bytes: &[u8])
    requires
        is_ascii(text),
    ensures
        bytes@ == ascii(text@),
{
    broadcast use is_ascii_spec_bytes;

    let bytes = text.as_bytes();
    assert(bytes@ =~= ascii(text@));
    bytes
}

/// Classifies one line of the server's output.
pub fn classify_line(line: &[u8]) -> (class: LineClass)
    ensures
        class == classification(line@),
{
    proof {
        reveal_strlit("ready");
        reveal_strlit("EADDRINUSE");
        reveal_strlit("address already in use");
    }
    if occurs(marker("EADDRINUSE"), line, false) || occurs(
        marker("address already in use"),
        line,
        false,
    ) {
        LineClass::PortConflict
    } else if occurs(marker("ready"), line, true) {
        LineClass::Ready
    } else {
        LineClass::Ignored
    }
}

} // verus!
