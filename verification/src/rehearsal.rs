//! A rehearsal seed as the desktop identifies it: the SHA-256 of the seed's bytes, in
//! lower-case hexadecimal, and the label the picture carries while it plays.
//!
//! The seed's hash goes on the record with the rehearsal, so a reader can tell which seed
//! was played; a rehearsal runs only on the embedded backend, never against a node.

use vstd::prelude::*;
use crate::text::{push_char, push_str};

verus! {

/// SHA-256 of a sequence of bytes, as `sha2` computes it.
pub uninterp spec fn sha256(bytes: Seq<u8>) -> Seq<u8>;

/// `sha2::Sha256::digest`: the 32-byte SHA-256 of `bytes`. The contract names the digest
/// and states its length; it does not restate the algorithm.
#[verifier::external_body]
fn sha256_digest(bytes: &[u8]) -> (d: Vec<u8>)
    ensures
        d@ == sha256(bytes@),
        d@.len() == 32,
{
    <sha2::Sha256 as sha2::Digest>::digest(bytes).to_vec()
}

/// The lower-case hexadecimal digit for `d`, below sixteen.
pub open spec fn lower_hex_digit(d: nat) -> char {
    if d < 10 { crate::text::digit_char(d) }
    else if d == 10 { 'a' }
    else if d == 11 { 'b' }
    else if d == 12 { 'c' }
    else if d == 13 { 'd' }
    else if d == 14 { 'e' }
    else { 'f' }
}

/// Bytes in lower-case hexadecimal: two digits per byte, the high half first.
pub open spec fn lower_hex(bytes: Seq<u8>) -> Seq<char>
    decreases bytes.len(),
{
    if bytes.len() == 0 {
        Seq::empty()
    } else {
        let b = bytes.last();
        lower_hex(bytes.drop_last()).push(lower_hex_digit((b / 16) as nat)).push(lower_hex_digit((b % 16) as nat))
    }
}

fn hex_digit(d: u8) -> (c: char)
    requires
        d < 16,
    ensures
        c == lower_hex_digit(d as nat),
{
    match d {
        0 => '0',
        1 => '1',
        2 => '2',
        3 => '3',
        4 => '4',
        5 => '5',
        6 => '6',
        7 => '7',
        8 => '8',
        9 => '9',
        10 => 'a',
        11 => 'b',
        12 => 'c',
        13 => 'd',
        14 => 'e',
        _ => 'f',
    }
}

proof fn lower_hex_len(bytes: Seq<u8>)
    ensures
        lower_hex(bytes).len() == 2 * bytes.len(),
    decreases bytes.len(),
{
    if bytes.len() > 0 {
        lower_hex_len(bytes.drop_last());
    }
}

/// Bytes in lower-case hexadecimal.
pub fn to_lower_hex(bytes: &[u8]) -> (s: String)
    ensures
        s@ == lower_hex(bytes@),
        s@.len() == 2 * bytes@.len(),
{
    let mut s = String::new();
    let mut i: usize = 0;
    while i < bytes.len()
        invariant
            i <= bytes@.len(),
            s@ == lower_hex(bytes@.take(i as int)),
        decreases bytes@.len() - i,
    {
        proof {
            assert(bytes@.take(i + 1).drop_last() =~= bytes@.take(i as int));
            assert(bytes@.take(i + 1).last() == bytes@[i as int]);
        }
        let b = bytes[i];
        push_char(&mut s, hex_digit(b / 16));
        push_char(&mut s, hex_digit(b % 16));
        i = i + 1;
    }
    proof {
        assert(bytes@.take(bytes@.len() as int) =~= bytes@);
        lower_hex_len(bytes@);
    }
    s
}

/// The seed's identity on the record: the SHA-256 of its bytes, in lower-case
/// hexadecimal.
pub fn seed_hash(bytes: &[u8]) -> (hash: String)
    ensures
        hash@ == lower_hex(sha256(bytes@)),
        hash@.len() == 64,
{
    let digest = sha256_digest(bytes);
    to_lower_hex(digest.as_slice())
}

/// Whether every character of `s` is ASCII.
pub open spec fn ascii(s: Seq<char>) -> bool {
    forall|k: int| 0 <= k < s.len() ==> (#[trigger] s[k] as u32) < 128
}

/// The label the picture carries while a rehearsal plays: the seed's name and the first
/// twelve characters of its hash.
pub fn label(name: &str, seed_hash: &str) -> (l: String)
    requires
        seed_hash@.len() >= 12,
    ensures
        l@ == "rehearsal: "@ + name@ + " ("@ + seed_hash@.take(12) + ")"@,
{
    let mut l = String::from_str("rehearsal: ");
    push_str(&mut l, name);
    push_str(&mut l, " (");
    let cs = crate::text::chars_of(seed_hash);
    let mut i: usize = 0;
    let ghost start = l@;
    while i < 12
        invariant
            i <= 12,
            cs@ == seed_hash@,
            cs@.len() >= 12,
            l@ == start + cs@.take(i as int),
        decreases 12 - i,
    {
        push_char(&mut l, cs[i]);
        assert(l@ =~= start + cs@.take(i + 1));
        i = i + 1;
    }
    push_str(&mut l, ")");
    l
}

/// Why a rehearsal could not be installed.
#[derive(Debug, Clone, PartialEq, Eq)]
pub enum RehearsalError {
    Unreadable { path: String, reason: String },
    Malformed { path: String, reason: String },
    NotEmbedded,
}

impl RehearsalError {
    /// The sentence the operator is shown.
    pub fn message(&self) -> (m: String)
        ensures
            m@ == match *self {
                RehearsalError::Unreadable { path, reason } => "cannot read the seed "@ + path@ + ": "@ + reason@,
                RehearsalError::Malformed { path, reason } => "the seed "@ + path@ + " is not a rehearsal seed: "@ + reason@,
                RehearsalError::NotEmbedded => "a rehearsal runs only against the embedded backend; this baseline names a node"@,
            },
    {
        match self {
            RehearsalError::Unreadable { path, reason } => {
                let mut m = String::from_str("cannot read the seed ");
                push_str(&mut m, path.as_str());
                push_str(&mut m, ": ");
                push_str(&mut m, reason.as_str());
                m
            },
            RehearsalError::Malformed { path, reason } => {
                let mut m = String::from_str("the seed ");
                push_str(&mut m, path.as_str());
                push_str(&mut m, " is not a rehearsal seed: ");
                push_str(&mut m, reason.as_str());
                m
            },
            RehearsalError::NotEmbedded => String::from_str(
                "a rehearsal runs only against the embedded backend; this baseline names a node",
            ),
        }
    }
}

/// Whether a rehearsal may be installed: only on the embedded backend.
pub fn install_check(embedded: bool) -> (r: Result<(), RehearsalError>)
    ensures
        embedded <==> r is Ok,
        !embedded ==> r == Err::<(), RehearsalError>(RehearsalError::NotEmbedded),
{
    if embedded { Ok(()) } else { Err(RehearsalError::NotEmbedded) }
}

} // verus!
