use sha2::Digest;
use vstd::prelude::*;
use vstd::utf8::encode_utf8;

verus! {

/// How many characters a generated token or salt has.
pub const SECRET_LENGTH: usize = 32;

/// The character that parts the salt from the hash in an account record,
/// and from the password in what is hashed.
pub const SEPARATOR: char = '|';

/// The SHA-512 digest of a sequence of bytes.
pub uninterp spec fn sha512_digest(data: Seq<u8>) -> Seq<u8>;

/// Computes the SHA-512 digest with `Sha512::digest` of the sha2 crate,
/// which hashes the whole input in one go. The digest depends on the bytes
/// alone; nothing more is claimed of it.
#[verifier::external_body]
fn sha512(data: &[u8]) -> (digest: Vec<u8>)
    ensures
        digest@ == sha512_digest(data@),
{
    sha2::Sha512::digest(data).to_vec()
}

/// A letter of the Latin alphabet or a digit.
pub open spec fn alphanumeric(c: char) -> bool {
    ('0' <= c && c <= '9') || ('a' <= c && c <= 'z') || ('A' <= c && c <= 'Z')
}

/// The shape of a generated secret: letters and digits, of the given
/// length.
pub open spec fn secret_text(s: Seq<char>, len: nat) -> bool {
    s.len() == len && forall|i: int| 0 <= i < s.len() ==> alphanumeric(#[trigger] s[i])
}

/// Draws a random text with `Alphanumeric.sample_string` of the rand
/// crate, from the thread's generator, which is seeded by the operating
/// system and fit for secrets. The text has the length asked for and
/// holds letters and digits only; which ones is left open.
#[verifier::external_body]
pub(crate) fn random_secret(len: usize) -> (secret: String)
    ensures
        secret_text(secret@, len as nat),
{
    rand::distributions::DistString::sample_string(
        &rand::distributions::Alphanumeric,
        &mut rand::thread_rng(),
        len,
    )
}

/// The lower-case hexadecimal digit of a number below 16.
pub open spec fn hex_digit(n: u8) -> char {
    "0123456789abcdef"@[n as int]
}

/// The bytes in lower-case hexadecimal, two digits each.
pub open spec fn hex_chars(bytes: Seq<u8>) -> Seq<char>
    decreases bytes.len(),
{
    if bytes.len() == 0 {
        Seq::empty()
    } else {
        hex_chars(bytes.drop_last()) + seq![hex_digit(bytes.last() / 16), hex_digit(bytes.last() % 16)]
    }
}

/// Writes the bytes in lower-case hexadecimal, two digits each.
pub fn hex(bytes: &[u8]) -> (text: String)
    ensures
        text@ == hex_chars(bytes@),
{
    let digits: &'static str = "0123456789abcdef";
    proof {
        reveal_strlit("0123456789abcdef");
    }
    assert(digits.is_ascii());
    let mut text = String::new();
    let mut i: usize = 0;
    while i < bytes.len()
        invariant
            i <= bytes@.len(),
            digits@ == "0123456789abcdef"@,
            digits@.len() == 16,
            digits.is_ascii(),
            text@ == hex_chars(bytes@.take(i as int)),
        decreases bytes@.len() - i,
    {
        let byte: u8 = bytes[i];
        let high: usize = (byte / 16) as usize;
        let low: usize = (byte % 16) as usize;
        text.append(digits.substring_ascii(high, high + 1));
        text.append(digits.substring_ascii(low, low + 1));
        proof {
            let next = bytes@.take(i + 1);
            assert(next.drop_last() =~= bytes@.take(i as int));
            assert(next.last() == byte);
            assert(text@ =~= hex_chars(next.drop_last()) + seq![hex_digit(byte / 16), hex_digit(byte % 16)]);
        }
        i += 1;
    }
    assert(bytes@.take(i as int) =~= bytes@);
    text
}

/// The digest that stands for a password under a salt: the SHA-512 digest
/// of salt, separator and password, as UTF-8.
pub open spec fn salted_digest_of(salt: Seq<char>, password: Seq<char>) -> Seq<u8> {
    sha512_digest(encode_utf8(salt + seq![SEPARATOR] + password))
}

/// The hash that an account record stores for a password under a salt:
/// its salted digest in hexadecimal.
pub open spec fn password_hash(salt: Seq<char>, password: Seq<char>) -> Seq<char> {
    hex_chars(salted_digest_of(salt, password))
}

/// Computes the digest that stands for a password under a salt.
pub fn salted_digest(salt: &str, password: &str) -> (digest: Vec<u8>)
    ensures
        digest@ == salted_digest_of(salt@, password@),
{
    let mut text = String::from_str(salt);
    text.append("|");
    text.append(password);
    proof {
        reveal_strlit("|");
        assert(text@ =~= salt@ + seq![SEPARATOR] + password@);
    }
    sha512(text.as_str().as_bytes())
}

/// Computes the hash that an account record stores for a password under
/// a salt.
pub fn hash_password(salt: &str, password: &str) -> (hash: String)
    ensures
        hash@ == password_hash(salt@, password@),
{
    let digest = salted_digest(salt, password);
    hex(digest.as_slice())
}

/// Whether a stored hash is the hexadecimal form of a digest: exact
/// equality.
pub fn hash_matches(stored: &str, digest: &[u8]) -> (equal: bool)
    ensures
        equal == (stored@ == hex_chars(digest@)),
{
    String::from_str(stored) == hex(digest)
}

/// The account record of a password under a salt: salt, separator, hash.
pub open spec fn account_record(salt: Seq<char>, password: Seq<char>) -> Seq<char> {
    salt + seq![SEPARATOR] + password_hash(salt, password)
}

/// Builds the account record of a password under a salt.
pub fn account_record_for(salt: &str, password: &str) -> (record: String)
    ensures
        record@ == account_record(salt@, password@),
{
    let hash = hash_password(salt, password);
    let mut record = String::from_str(salt);
    record.append("|");
    record.append(hash.as_str());
    proof {
        reveal_strlit("|");
        assert(record@ =~= salt@ + seq![SEPARATOR] + hash@);
    }
    record
}

/// The place of the first separator at or after `from`, or the length of
/// the text where there is none.
pub open spec fn separator_at(s: Seq<char>, from: int) -> int
    decreases s.len() - from,
{
    if from < 0 || from >= s.len() {
        s.len() as int
    } else if s[from] == SEPARATOR {
        from
    } else {
        separator_at(s, from + 1)
    }
}

/// The salt and the hash of an account record: what stands before the
/// first separator, and what stands between it and the next one or the
/// end. A record without a separator has neither.
pub open spec fn record_parts(s: Seq<char>) -> Option<(Seq<char>, Seq<char>)> {
    let first = separator_at(s, 0);
    if first >= s.len() {
        None
    } else {
        Some((s.subrange(0, first), s.subrange(first + 1, separator_at(s, first + 1))))
    }
}

fn find_separator(text: &str, from: usize, len: usize) -> (at: usize)
    requires
        from <= len,
        len == text@.len(),
    ensures
        at == separator_at(text@, from as int),
        from <= at <= len,
{
    let mut i: usize = from;
    while i < len
        invariant
            from <= i <= len,
            len == text@.len(),
            separator_at(text@, from as int) == separator_at(text@, i as int),
        decreases len - i,
    {
        if text.get_char(i) == SEPARATOR {
            return i;
        }
        i += 1;
    }
    i
}

/// Parts an account record into salt and hash.
pub fn split_record(record: &str) -> (parts: Option<(String, String)>)
    ensures
        match parts {
            Some((salt, hash)) => record_parts(record@) == Some((salt@, hash@)),
            None => record_parts(record@) is None,
        },
{
    let len = record.unicode_len();
    let first = find_separator(record, 0, len);
    if first >= len {
        return None;
    }
    let second = find_separator(record, first + 1, len);
    let salt = String::from_str(record.substring_char(0, first));
    let hash = String::from_str(record.substring_char(first + 1, second));
    Some((salt, hash))
}

/// No hexadecimal digit is the separator.
pub proof fn lemma_hex_without_separator(bytes: Seq<u8>)
    ensures
        forall|i: int| 0 <= i < hex_chars(bytes).len() ==> #[trigger] hex_chars(bytes)[i] != SEPARATOR,
    decreases bytes.len(),
{
    reveal_strlit("0123456789abcdef");
    if bytes.len() > 0 {
        lemma_hex_without_separator(bytes.drop_last());
        let high = bytes.last() / 16;
        let low = bytes.last() % 16;
        assert(hex_digit(high) != SEPARATOR);
        assert(hex_digit(low) != SEPARATOR);
        let front = hex_chars(bytes.drop_last());
        let all = hex_chars(bytes);
        assert(all == front + seq![hex_digit(high), hex_digit(low)]);
        assert forall|i: int| 0 <= i < all.len() implies #[trigger] all[i] != SEPARATOR by {
            if i < front.len() {
                assert(all[i] == front[i]);
            } else if i == front.len() {
                assert(all[i] == hex_digit(high));
            } else {
                assert(all[i] == hex_digit(low));
            }
        }
    }
}

/// The search for a separator passes over a stretch that holds none.
pub proof fn lemma_separator_skips(s: Seq<char>, from: int, to: int)
    requires
        0 <= from <= to <= s.len(),
        forall|i: int| from <= i < to ==> #[trigger] s[i] != SEPARATOR,
    ensures
        separator_at(s, from) == separator_at(s, to),
    decreases to - from,
{
    if from < to {
        lemma_separator_skips(s, from + 1, to);
    }
}

/// A salt and a hash that hold no separator are what their joined record
/// parts into.
pub proof fn record_parts_of_joined(salt: Seq<char>, hash: Seq<char>)
    requires
        forall|i: int| 0 <= i < salt.len() ==> #[trigger] salt[i] != SEPARATOR,
        forall|i: int| 0 <= i < hash.len() ==> #[trigger] hash[i] != SEPARATOR,
    ensures
        record_parts(salt + seq![SEPARATOR] + hash) == Some((salt, hash)),
{
    let record = salt + seq![SEPARATOR] + hash;
    let first = salt.len() as int;
    assert(record[first] == SEPARATOR);
    assert forall|i: int| 0 <= i < first implies #[trigger] record[i] != SEPARATOR by {
        assert(record[i] == salt[i]);
    }
    lemma_separator_skips(record, 0, first);
    assert forall|i: int| first + 1 <= i < record.len() implies #[trigger] record[i] != SEPARATOR by {
        assert(record[i] == hash[i - first - 1]);
    }
    lemma_separator_skips(record, first + 1, record.len() as int);
    assert(record.subrange(0, first) =~= salt);
    assert(record.subrange(first + 1, record.len() as int) =~= hash);
}

} // verus!
