//! Secret tokens for server agents, and the hash under which a token is stored.

use base64::Engine;
use sha2::Digest;
use vstd::prelude::*;

verus! {

/// The number of characters of a server token.
pub const TOKEN_LENGTH: usize = 16;

/// A character that a token may hold: printable ASCII other than the space.
pub open spec fn is_token_char(c: char) -> bool {
    '!' <= c <= '~'
}

pub open spec fn is_digit(c: char) -> bool {
    '0' <= c <= '9'
}

pub open spec fn is_lowercase(c: char) -> bool {
    'a' <= c <= 'z'
}

pub open spec fn is_uppercase(c: char) -> bool {
    'A' <= c <= 'Z'
}

/// A printable ASCII character that is neither a digit nor a letter.
pub open spec fn is_symbol(c: char) -> bool {
    is_token_char(c) && !is_digit(c) && !is_lowercase(c) && !is_uppercase(c)
}

/// A well-formed server token: `TOKEN_LENGTH` printable characters, with at
/// least one digit, one lowercase letter, one uppercase letter and one symbol.
pub open spec fn is_server_token(t: Seq<char>) -> bool {
    &&& t.len() == TOKEN_LENGTH
    &&& forall|i: int| 0 <= i < t.len() ==> is_token_char(#[trigger] t[i])
    &&& exists|i: int| 0 <= i < t.len() && is_digit(#[trigger] t[i])
    &&& exists|i: int| 0 <= i < t.len() && is_lowercase(#[trigger] t[i])
    &&& exists|i: int| 0 <= i < t.len() && is_uppercase(#[trigger] t[i])
    &&& exists|i: int| 0 <= i < t.len() && is_symbol(#[trigger] t[i])
}

/// The SHA-512 digest of `data`.
pub uninterp spec fn sha512_digest(data: Seq<u8>) -> Seq<u8>;

/// The character of the standard base64 alphabet for the six-bit value `v`.
pub open spec fn base64_char(v: u8) -> char {
    if v < 26 {
        (('A' as u8) + v) as char
    } else if v < 52 {
        (('a' as u8) + (v - 26)) as char
    } else if v < 62 {
        (('0' as u8) + (v - 52)) as char
    } else if v == 62 {
        '+'
    } else {
        '/'
    }
}

/// Standard base64 (RFC 4648 alphabet) without padding: every three bytes
/// become four characters, a final one or two bytes become two or three.
pub open spec fn base64_no_pad(b: Seq<u8>) -> Seq<char>
    decreases b.len(),
{
    if b.len() == 0 {
        seq![]
    } else if b.len() == 1 {
        seq![base64_char(b[0] >> 2u8), base64_char((b[0] & 3u8) << 4u8)]
    } else if b.len() == 2 {
        seq![
            base64_char(b[0] >> 2u8),
            base64_char(((b[0] & 3u8) << 4u8) | (b[1] >> 4u8)),
            base64_char((b[1] & 15u8) << 2u8),
        ]
    } else {
        seq![
            base64_char(b[0] >> 2u8),
            base64_char(((b[0] & 3u8) << 4u8) | (b[1] >> 4u8)),
            base64_char(((b[1] & 15u8) << 2u8) | (b[2] >> 6u8)),
            base64_char(b[2] & 63u8),
        ] + base64_no_pad(b.skip(3))
    }
}

/// Unpadded base64 turns `n` bytes into `ceil(4n / 3)` characters.
pub proof fn lemma_base64_no_pad_len(b: Seq<u8>)
    ensures
        base64_no_pad(b).len() == (4 * b.len() + 2) / 3,
    decreases b.len(),
{
    if b.len() >= 3 {
        lemma_base64_no_pad_len(b.skip(3));
    }
}

/// The stored form of a token: its SHA-512 digest in unpadded base64.
pub open spec fn token_hash_of(token: Seq<char>) -> Seq<char> {
    base64_no_pad(sha512_digest(vstd::utf8::encode_utf8(token)))
}

/// The rules of a password generator: the length, the kinds of character
/// that a password may hold, and whether it must hold each of them.
pub struct PasswordRules {
    pub length: usize,
    pub numbers: bool,
    pub lowercase_letters: bool,
    pub uppercase_letters: bool,
    pub symbols: bool,
    pub strict: bool,
}

impl PasswordRules {
    /// The number of kinds of character that the rules enable.
    pub open spec fn kinds(self) -> nat {
        (if self.numbers { 1nat } else { 0nat }) + (if self.lowercase_letters { 1nat } else { 0nat })
            + (if self.uppercase_letters { 1nat } else { 0nat }) + (if self.symbols { 1nat } else { 0nat })
    }

    /// The rules can be met: a positive length, at least one kind of
    /// character, and under strict rules room for one character of each kind.
    pub open spec fn satisfiable(self) -> bool {
        &&& self.length > 0
        &&& self.kinds() > 0
        &&& self.strict ==> self.length >= self.kinds()
    }

    /// `c` belongs to a kind of character that the rules enable.
    pub open spec fn allows(self, c: char) -> bool {
        ||| self.numbers && is_digit(c)
        ||| self.lowercase_letters && is_lowercase(c)
        ||| self.uppercase_letters && is_uppercase(c)
        ||| self.symbols && is_symbol(c)
    }

    /// `t` is a password that the rules admit: of the given length, made of
    /// enabled characters, and under strict rules holding each enabled kind.
    pub open spec fn admits(self, t: Seq<char>) -> bool {
        &&& t.len() == self.length
        &&& forall|i: int| 0 <= i < t.len() ==> self.allows(#[trigger] t[i])
        &&& self.strict && self.numbers ==> exists|i: int| 0 <= i < t.len() && is_digit(#[trigger] t[i])
        &&& self.strict && self.lowercase_letters ==> exists|i: int|
            0 <= i < t.len() && is_lowercase(#[trigger] t[i])
        &&& self.strict && self.uppercase_letters ==> exists|i: int|
            0 <= i < t.len() && is_uppercase(#[trigger] t[i])
        &&& self.strict && self.symbols ==> exists|i: int| 0 <= i < t.len() && is_symbol(#[trigger] t[i])
    }
}

/// A random password from `passwords::PasswordGenerator::generate_one`,
/// with spaces off and similar characters not excluded. The crate's source
/// (`try_iter`) shows that it fails exactly when the rules cannot be met,
/// that it draws every character from the enabled pools (digits, letters,
/// the 32 ASCII symbols), and that strict rules make it draw again until
/// each enabled kind occurs. Which password comes out is left unsaid: it is random.
#[verifier::external_body]
fn generate_password(rules: &PasswordRules) -> (r: Option<String>)
    ensures
        r is Some <==> rules.satisfiable(),
        r is Some ==> rules.admits(r.unwrap()@),
{
    passwords::PasswordGenerator {
        length: rules.length,
        numbers: rules.numbers,
        lowercase_letters: rules.lowercase_letters,
        uppercase_letters: rules.uppercase_letters,
        symbols: rules.symbols,
        spaces: false,
        exclude_similar_characters: false,
        strict: rules.strict,
    }.generate_one().ok()
}

/// `<sha2::Sha512 as sha2::Digest>::digest`: the 64-byte SHA-512 digest of
/// `data`, named `sha512_digest`.
#[verifier::external_body]
fn sha512(data: &[u8]) -> (r: Vec<u8>)
    ensures
        r@ == sha512_digest(data@),
        r@.len() == 64,
{
    sha2::Sha512::digest(data).to_vec()
}

/// `base64::engine::general_purpose::STANDARD_NO_PAD.encode`: standard
/// alphabet, no padding. It panics when the encoded length overflows `usize`,
/// which `requires` leaves out.
#[verifier::external_body]
fn base64_encode_no_pad(data: &[u8]) -> (r: String)
    requires
        data@.len() / 3 * 4 + 4 <= usize::MAX,
    ensures
        r@ == base64_no_pad(data@),
{
    base64::engine::general_purpose::STANDARD_NO_PAD.encode(data)
}

/// A fresh token for a server agent.
pub fn generate_server_token() -> (r: String)
    ensures
        is_server_token(r@),
{
    let rules = PasswordRules {
        length: TOKEN_LENGTH,
        numbers: true,
        lowercase_letters: true,
        uppercase_letters: true,
        symbols: true,
        strict: true,
    };
    let token = generate_password(&rules).unwrap();
    proof {
        assert forall|i: int| 0 <= i < token@.len() implies is_token_char(#[trigger] token@[i]) by {
            assert(rules.allows(token@[i]));
        }
    }
    token
}

/// The hash under which a server's token is stored: SHA-512 of the token's
/// UTF-8 bytes, in unpadded standard base64 (always 86 characters).
pub fn token_hash(token: &str) -> (r: String)
    ensures
        r@ == token_hash_of(token@),
        r@.len() == 86,
{
    let digest = sha512(token.as_bytes());
    let r = base64_encode_no_pad(digest.as_slice());
    proof {
        lemma_base64_no_pad_len(digest@);
    }
    r
}

/// A new token for a server together with the hash to store for it.
pub fn issue_server_token() -> (r: (String, String))
    ensures
        is_server_token(r.0@),
        r.1@ == token_hash_of(r.0@),
        r.1@.len() == 86,
{
    let token = generate_server_token();
    let hash = token_hash(token.as_str());
    (token, hash)
}

} // verus!
