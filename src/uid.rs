//! Task identifiers: sixteen bytes, written as lowercase hyphenated hex.

use vstd::prelude::*;

verus! {

/// The character of a hex digit `n` (below 16), in lowercase.
pub open spec fn hex_char(n: int) -> char {
    if n < 10 {
        (('0' as int) + n) as char
    } else {
        (('a' as int) + n - 10) as char
    }
}

/// The 32 hex digits of `b`, two per byte, high nibble first.
pub open spec fn simple_hex(b: Seq<u8>) -> Seq<char> {
    Seq::new(32, |i: int| if i % 2 == 0 {
        hex_char(b[i / 2] as int / 16)
    } else {
        hex_char(b[i / 2] as int % 16)
    })
}

/// The hyphenated text of an identifier: its hex digits in groups of
/// 8, 4, 4, 4 and 12, separated by `-`.
pub open spec fn hyphenated(b: Seq<u8>) -> Seq<char> {
    let s = simple_hex(b);
    s.subrange(0, 8) + seq!['-'] + s.subrange(8, 12) + seq!['-'] + s.subrange(12, 16)
        + seq!['-'] + s.subrange(16, 20) + seq!['-'] + s.subrange(20, 32)
}

/// Whether `b` has the version and variant bits of a random identifier:
/// version 4 in the high nibble of byte 6, the bits `10` on top of byte 8.
pub open spec fn is_random_uid(b: Seq<u8>) -> bool {
    &&& b.len() == 16
    &&& b[6] as int / 16 == 4
    &&& b[8] as int / 64 == 2
}

/// Whether `s` is the text of some random identifier.
pub open spec fn is_random_uid_text(s: Seq<char>) -> bool {
    exists|b: Seq<u8>| is_random_uid(b) && s == #[trigger] hyphenated(b)
}

proof fn lemma_hex_char_injective(x: int, y: int)
    requires
        0 <= x < 16,
        0 <= y < 16,
        hex_char(x) == hex_char(y),
    ensures
        x == y,
{
}

/// Two identifiers with the same text are the same identifier, so a task
/// stored under the text of an identifier is found by that identifier alone.
pub proof fn lemma_text_determines_uid(a: Seq<u8>, b: Seq<u8>)
    requires
        a.len() == 16,
        b.len() == 16,
        hyphenated(a) == hyphenated(b),
    ensures
        a == b,
{
    let sa = simple_hex(a);
    let sb = simple_hex(b);
    let ha = hyphenated(a);
    assert(ha.subrange(0, 8) =~= sa.subrange(0, 8));
    assert(ha.subrange(9, 13) =~= sa.subrange(8, 12));
    assert(ha.subrange(14, 18) =~= sa.subrange(12, 16));
    assert(ha.subrange(19, 23) =~= sa.subrange(16, 20));
    assert(ha.subrange(24, 36) =~= sa.subrange(20, 32));
    let hb = hyphenated(b);
    assert(hb.subrange(0, 8) =~= sb.subrange(0, 8));
    assert(hb.subrange(9, 13) =~= sb.subrange(8, 12));
    assert(hb.subrange(14, 18) =~= sb.subrange(12, 16));
    assert(hb.subrange(19, 23) =~= sb.subrange(16, 20));
    assert(hb.subrange(24, 36) =~= sb.subrange(20, 32));
    assert forall|i: int| 0 <= i < 32 implies sa[i] == sb[i] by {
        if i < 8 {
            assert(sa[i] == sa.subrange(0, 8)[i]);
            assert(sb[i] == sb.subrange(0, 8)[i]);
        } else if i < 12 {
            assert(sa[i] == sa.subrange(8, 12)[i - 8]);
            assert(sb[i] == sb.subrange(8, 12)[i - 8]);
        } else if i < 16 {
            assert(sa[i] == sa.subrange(12, 16)[i - 12]);
            assert(sb[i] == sb.subrange(12, 16)[i - 12]);
        } else if i < 20 {
            assert(sa[i] == sa.subrange(16, 20)[i - 16]);
            assert(sb[i] == sb.subrange(16, 20)[i - 16]);
        } else {
            assert(sa[i] == sa.subrange(20, 32)[i - 20]);
            assert(sb[i] == sb.subrange(20, 32)[i - 20]);
        }
    }
    assert forall|j: int| 0 <= j < 16 implies a[j] == b[j] by {
        assert(sa[2 * j] == sb[2 * j]);
        assert(sa[2 * j + 1] == sb[2 * j + 1]);
        assert((2 * j) / 2 == j);
        assert((2 * j + 1) / 2 == j);
        assert((2 * j + 1) % 2 == 1);
        lemma_hex_char_injective(a[j] as int / 16, b[j] as int / 16);
        lemma_hex_char_injective(a[j] as int % 16, b[j] as int % 16);
    }
    assert(a =~= b);
}

/// Relies on `uuid::Uuid::from_bytes` and uuid's `Display`, which writes the
/// bytes as lowercase hyphenated hex.
#[verifier::external_body]
fn hyphenated_text(bytes: [u8; 16]) -> (r: String)
    ensures
        r@ == hyphenated(bytes@),
{
    uuid::Uuid::from_bytes(bytes).to_string()
}

/// Relies on `uuid::Uuid::new_v4`: random bytes with the version and variant
/// bits of a random identifier set. It draws from the system's random source.
#[verifier::external_body]
fn random_uid_bytes() -> (r: [u8; 16])
    ensures
        is_random_uid(r@),
{
    *uuid::Uuid::new_v4().as_bytes()
}

/// The identifier of a task.
#[derive(Clone, Copy, Debug)]
pub struct TaskUid {
    pub bytes: [u8; 16],
}

impl TaskUid {
    /// An identifier from its sixteen bytes.
    pub fn from_bytes(bytes: [u8; 16]) -> (r: TaskUid)
        ensures
            r.bytes@ == bytes@,
    {
        TaskUid { bytes }
    }

    /// A fresh random identifier.
    pub fn new_random() -> (r: TaskUid)
        ensures
            is_random_uid(r.bytes@),
    {
        TaskUid { bytes: random_uid_bytes() }
    }

    /// The text of the identifier, under which its task is stored.
    pub fn to_text(&self) -> (r: String)
        ensures
            r@ == hyphenated(self.bytes@),
    {
        hyphenated_text(self.bytes)
    }
}

} // verus!
