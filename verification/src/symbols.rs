//! Deterministic, linker-safe function symbols.
//!
//! Each source function name is hashed with Whirlpool and the 512-bit
//! digest rendered as padded Base64.  The result is a valid, fixed-length,
//! collision-resistant linker symbol whatever the length or character set
//! of the source identifier, and the same name always yields the same
//! symbol, which is what lets call sites reference functions before they
//! are translated.

use vstd::prelude::*;

verus! {

use vstd::utf8::encode_utf8;

/// The 512-bit Whirlpool digest of `data`, as 64 bytes.
pub uninterp spec fn whirlpool_of(data: Seq<u8>) -> Seq<u8>;

/// A character of the padded standard Base64 alphabet — what makes the
/// rendered digest a linker-safe symbol whatever the source identifier
/// held.
pub open spec fn base64_char(c: char) -> bool {
    ||| 'A' <= c && c <= 'Z'
    ||| 'a' <= c && c <= 'z'
    ||| '0' <= c && c <= '9'
    ||| c == '+'
    ||| c == '/'
    ||| c == '='
}

/// The character standing for the six-bit value `v` in the standard
/// Base64 alphabet: `A`-`Z`, `a`-`z`, `0`-`9`, `+`, `/`.
pub open spec fn base64_digit(v: int) -> char {
    if 0 <= v < 26 {
        ((('A' as int) + v) as u32) as char
    } else if 26 <= v < 52 {
        ((('a' as int) + (v - 26)) as u32) as char
    } else if 52 <= v < 62 {
        ((('0' as int) + (v - 52)) as u32) as char
    } else if v == 62 {
        '+'
    } else {
        '/'
    }
}

/// The padded standard Base64 rendering of `data`: each three-byte group
/// packs into four six-bit digits, high bits first, and a trailing group
/// of one or two bytes is completed with `=` padding.
pub open spec fn base64_of(data: Seq<u8>) -> Seq<char>
    decreases data.len(),
{
    if data.len() == 0 {
        Seq::empty()
    } else if data.len() == 1 {
        let b0 = data[0] as int;
        seq![base64_digit(b0 / 4), base64_digit((b0 % 4) * 16), '=', '=']
    } else if data.len() == 2 {
        let b0 = data[0] as int;
        let b1 = data[1] as int;
        seq![
            base64_digit(b0 / 4),
            base64_digit((b0 % 4) * 16 + b1 / 16),
            base64_digit((b1 % 16) * 4),
            '=',
        ]
    } else {
        let b0 = data[0] as int;
        let b1 = data[1] as int;
        let b2 = data[2] as int;
        seq![
            base64_digit(b0 / 4),
            base64_digit((b0 % 4) * 16 + b1 / 16),
            base64_digit((b1 % 16) * 4 + b2 / 64),
            base64_digit(b2 % 64),
        ] + base64_of(data.skip(3))
    }
}

/// Four characters for every three input bytes, rounded up.
pub proof fn lemma_base64_len(data: Seq<u8>)
    ensures
        base64_of(data).len() == 4 * ((data.len() + 2) / 3),
    decreases data.len(),
{
    if data.len() >= 3 {
        lemma_base64_len(data.skip(3));
    }
}

/// A six-bit digit is drawn from the alphabet.
proof fn lemma_base64_digit_char(v: int)
    requires
        0 <= v < 64,
    ensures
        base64_char(base64_digit(v)),
{
}

/// Every rendered character is Base64-safe.
pub proof fn lemma_base64_chars(data: Seq<u8>)
    ensures
        forall|i: int|
            0 <= i < base64_of(data).len() ==> base64_char(#[trigger] base64_of(data)[i]),
    decreases data.len(),
{
    if data.len() == 0 {
    } else if data.len() == 1 {
        let b0 = data[0] as int;
        lemma_base64_digit_char(b0 / 4);
        lemma_base64_digit_char((b0 % 4) * 16);
    } else if data.len() == 2 {
        let b0 = data[0] as int;
        let b1 = data[1] as int;
        lemma_base64_digit_char(b0 / 4);
        lemma_base64_digit_char((b0 % 4) * 16 + b1 / 16);
        lemma_base64_digit_char((b1 % 16) * 4);
    } else {
        let b0 = data[0] as int;
        let b1 = data[1] as int;
        let b2 = data[2] as int;
        lemma_base64_digit_char(b0 / 4);
        lemma_base64_digit_char((b0 % 4) * 16 + b1 / 16);
        lemma_base64_digit_char((b1 % 16) * 4 + b2 / 64);
        lemma_base64_digit_char(b2 % 64);
        lemma_base64_chars(data.skip(3));
        let head = seq![
            base64_digit(b0 / 4),
            base64_digit((b0 % 4) * 16 + b1 / 16),
            base64_digit((b1 % 16) * 4 + b2 / 64),
            base64_digit(b2 % 64),
        ];
        assert forall|i: int|
            0 <= i < base64_of(data).len() implies base64_char(
            #[trigger] base64_of(data)[i],
        ) by {
            if i < 4 {
                assert(base64_of(data)[i] == head[i]);
            } else {
                assert(base64_of(data)[i] == base64_of(data.skip(3))[i - 4]);
            }
        }
    }
}

/// Relies on whirlpool::Whirlpool through digest::Digest: the digest
/// depends on the input bytes alone, and Whirlpool's output is 64 bytes.
#[verifier::external_body]
fn whirlpool_digest(data: &[u8]) -> (r: Vec<u8>)
    ensures
        r@ == whirlpool_of(data@),
        r@.len() == 64,
{
    let mut hasher = <whirlpool::Whirlpool as whirlpool::Digest>::new();
    whirlpool::Digest::update(&mut hasher, data);
    whirlpool::Digest::finalize(hasher).to_vec()
}

/// Relies on base64ct::Base64::encode: padded standard Base64 of the
/// input bytes, computed exactly as [`base64_of`] states — three-byte
/// groups packed high bits first into the standard alphabet, a trailing
/// group completed with `=`.
#[verifier::external_body]
fn base64_encode_digest(data: &[u8]) -> (r: String)
    requires
        data@.len() == 64,
    ensures
        r@ == base64_of(data@),
{
    let mut dst = vec![0u8; 88];
    let encoded = <base64ct::Base64 as base64ct::Encoding>::encode(data, &mut dst)
        .expect("a 64-byte digest always fits its 88-character rendering");
    encoded.to_owned()
}

/// The symbol derived from the source name `name`: the Base64 rendering of
/// the name's Whirlpool digest.
pub open spec fn symbol_spec(name: Seq<char>) -> Seq<char> {
    base64_of(whirlpool_of(encode_utf8(name)))
}

/// Hash a source function name into its linker symbol: fixed-length, and
/// drawn from the Base64 alphabet whatever the source name held.
pub fn symbol_of(name: &str) -> (r: String)
    ensures
        r@ == symbol_spec(name@),
        r@.len() == 88,
        forall|i: int| 0 <= i < r@.len() ==> base64_char(#[trigger] r@[i]),
{
    let digest = whirlpool_digest(name.as_bytes());
    proof {
        lemma_base64_len(digest@);
        lemma_base64_chars(digest@);
    }
    base64_encode_digest(digest.as_slice())
}

/// Symbol determinism: the symbol is a function of the source name alone,
/// so hashing the same name twice — in one compilation or in different
/// runs — yields the same registry key.
pub proof fn lemma_symbol_deterministic(a: Seq<char>, b: Seq<char>)
    requires
        a == b,
    ensures
        symbol_spec(a) == symbol_spec(b),
{
}

} // verus!
