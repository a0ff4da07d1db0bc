//! Password hashing: a SHA-256 digest rendered as lowercase hex, so the
//! same plaintext always yields the same stored string and credential
//! lookups can filter by plain equality.

use vstd::prelude::*;
use vstd::string::StringExecFns;

verus! {

/// The SHA-256 digest of a sequence of characters (of their UTF-8 bytes).
pub uninterp spec fn sha256_of(s: Seq<char>) -> Seq<u8>;

/// Relies on sha2's SHA-256 implementation: the digest is a function of
/// the input characters alone and is always 32 bytes long.
#[verifier::external_body]
fn sha256_str(s: &str) -> (r: Vec<u8>)
    ensures
        r@ == sha256_of(s@),
        r@.len() == 32,
{
    <sha2::Sha256 as sha2::Digest>::digest(s.as_bytes()).to_vec()
}

/// The lowercase hex character for one value below 16.
pub open spec fn hex_digit(n: u8) -> char
    recommends
        n < 16,
{
    if n == 0 { '0' } else if n == 1 { '1' } else if n == 2 { '2' } else if n == 3 { '3' }
    else if n == 4 { '4' } else if n == 5 { '5' } else if n == 6 { '6' } else if n == 7 { '7' }
    else if n == 8 { '8' } else if n == 9 { '9' } else if n == 10 { 'a' } else if n == 11 { 'b' }
    else if n == 12 { 'c' } else if n == 13 { 'd' } else if n == 14 { 'e' } else { 'f' }
}

/// The lowercase hex rendering of a byte sequence: two digits per byte,
/// high nibble first.
pub open spec fn hex_of(b: Seq<u8>) -> Seq<char>
    decreases b.len(),
{
    if b.len() == 0 {
        Seq::empty()
    } else {
        hex_of(b.drop_last()) + seq![hex_digit(b.last() / 16), hex_digit(b.last() % 16)]
    }
}

/// The stored form of a password: the hex rendering of its SHA-256 digest.
pub open spec fn hash_of(s: Seq<char>) -> Seq<char> {
    hex_of(sha256_of(s))
}

proof fn lemma_hex_of_len(b: Seq<u8>)
    ensures
        hex_of(b).len() == 2 * b.len(),
    decreases b.len(),
{
    if b.len() > 0 {
        lemma_hex_of_len(b.drop_last());
    }
}

fn push_hex(s: &mut String, n: u8)
    requires
        n < 16,
    ensures
        final(s)@ == old(s)@ + seq![hex_digit(n)],
{
    match n {
        0 => {
            proof { reveal_strlit("0"); assert("0"@ =~= seq![hex_digit(n)]); }
            s.append("0");
        }
        1 => {
            proof { reveal_strlit("1"); assert("1"@ =~= seq![hex_digit(n)]); }
            s.append("1");
        }
        2 => {
            proof { reveal_strlit("2"); assert("2"@ =~= seq![hex_digit(n)]); }
            s.append("2");
        }
        3 => {
            proof { reveal_strlit("3"); assert("3"@ =~= seq![hex_digit(n)]); }
            s.append("3");
        }
        4 => {
            proof { reveal_strlit("4"); assert("4"@ =~= seq![hex_digit(n)]); }
            s.append("4");
        }
        5 => {
            proof { reveal_strlit("5"); assert("5"@ =~= seq![hex_digit(n)]); }
            s.append("5");
        }
        6 => {
            proof { reveal_strlit("6"); assert("6"@ =~= seq![hex_digit(n)]); }
            s.append("6");
        }
        7 => {
            proof { reveal_strlit("7"); assert("7"@ =~= seq![hex_digit(n)]); }
            s.append("7");
        }
        8 => {
            proof { reveal_strlit("8"); assert("8"@ =~= seq![hex_digit(n)]); }
            s.append("8");
        }
        9 => {
            proof { reveal_strlit("9"); assert("9"@ =~= seq![hex_digit(n)]); }
            s.append("9");
        }
        10 => {
            proof { reveal_strlit("a"); assert("a"@ =~= seq![hex_digit(n)]); }
            s.append("a");
        }
        11 => {
            proof { reveal_strlit("b"); assert("b"@ =~= seq![hex_digit(n)]); }
            s.append("b");
        }
        12 => {
            proof { reveal_strlit("c"); assert("c"@ =~= seq![hex_digit(n)]); }
            s.append("c");
        }
        13 => {
            proof { reveal_strlit("d"); assert("d"@ =~= seq![hex_digit(n)]); }
            s.append("d");
        }
        14 => {
            proof { reveal_strlit("e"); assert("e"@ =~= seq![hex_digit(n)]); }
            s.append("e");
        }
        _ => {
            proof { reveal_strlit("f"); assert("f"@ =~= seq![hex_digit(n)]); }
            s.append("f");
        }
    }
}

/// Render a byte sequence as lowercase hex, two digits per byte.
fn to_hex(bytes: &Vec<u8>) -> (r: String)
    ensures
        r@ == hex_of(bytes@),
{
    let mut r = String::new();
    let mut i: usize = 0;
    while i < bytes.len()
        invariant
            i <= bytes.len(),
            r@ == hex_of(bytes@.subrange(0, i as int)),
        decreases bytes.len() - i,
    {
        let b = bytes[i];
        push_hex(&mut r, b / 16);
        push_hex(&mut r, b % 16);
        proof {
            let pre = bytes@.subrange(0, i as int);
            let cur = bytes@.subrange(0, i + 1 as int);
            assert(cur.drop_last() =~= pre);
            assert(cur.last() == bytes@[i as int]);
            assert(hex_of(pre) + seq![hex_digit(b / 16)] + seq![hex_digit(b % 16)]
                =~= hex_of(pre) + seq![hex_digit(b / 16), hex_digit(b % 16)]);
        }
        i = i + 1;
    }
    proof {
        assert(bytes@.subrange(0, bytes@.len() as int) =~= bytes@);
    }
    r
}

/// One-way transform of a plaintext password into its stored form.
/// Deterministic, so a credential lookup can compare by equality.
pub fn hash(plaintext: &str) -> (r: String)
    ensures
        r@ == hash_of(plaintext@),
        r@.len() == 64,
        plaintext@.len() != 64 ==> r@ != plaintext@,
{
    let digest = sha256_str(plaintext);
    let r = to_hex(&digest);
    proof {
        lemma_hex_of_len(digest@);
    }
    r
}

} // verus!
