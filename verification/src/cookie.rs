//! How cookies appear in logs and file names.
//!
//! A cookie identifies a session, so logs show a hash of it unless the full value was asked for.
use crate::table::Table;
use vstd::prelude::*;
use vstd::utf8::encode_utf8;

verus! {

/// Where the FNV-1a hash of 64 bits starts.
pub const FNV_OFFSET: u64 = 0xcbf29ce484222325;

/// What the FNV-1a hash of 64 bits multiplies by.
pub const FNV_PRIME: u64 = 0x100000001b3;

/// The digits of base sixteen.
pub const HEX_DIGITS: &'static str = "0123456789abcdef";

/// The FNV-1a hash of 64 bits: each byte is added by exclusive or, then the hash is multiplied
/// by the prime, modulo two to the power of 64.
pub open spec fn fnv1a(bytes: Seq<u8>) -> u64
    decreases bytes.len(),
{
    if bytes.len() == 0 {
        FNV_OFFSET
    } else {
        (((fnv1a(bytes.drop_last()) ^ (bytes.last() as u64)) * FNV_PRIME)
            % 0x1_0000_0000_0000_0000) as u64
    }
}

/// Four bits of `h`: those of the digit at position `i` when `h` is written with 16 digits.
pub open spec fn nibble(h: u64, i: int) -> u64 {
    (h >> ((60 - 4 * i) as u64)) & 0xf
}

/// `h` in base sixteen, with 16 digits.
pub open spec fn hex16(h: u64) -> Seq<char> {
    Seq::new(16, |i: int| HEX_DIGITS@[nibble(h, i) as int])
}

/// The hash of a text, in base sixteen.
pub open spec fn hash_text(s: Seq<char>) -> Seq<char> {
    hex16(fnv1a(encode_utf8(s)))
}

/// The FNV-1a hash of the text, as 16 digits in base sixteen.
pub fn fnv1a_hex(s: &str) -> (hex: String)
    ensures
        hex@ == hash_text(s@),
{
    let bytes = s.as_bytes();
    let n = bytes.len();
    let mut h: u64 = FNV_OFFSET;
    assert(bytes@.take(0) =~= Seq::<u8>::empty());
    for i in 0..n
        invariant
            n == bytes@.len(),
            h == fnv1a(bytes@.take(i as int)),
    {
        proof {
            assert(bytes@.take(i + 1).drop_last() =~= bytes@.take(i as int));
            assert(bytes@.take(i + 1).last() == bytes@[i as int]);
        }
        h = (h ^ (bytes[i] as u64)).wrapping_mul(FNV_PRIME);
    }
    assert(bytes@.take(n as int) =~= bytes@);
    let mut hex = String::new();
    for i in 0..16usize
        invariant
            hex@ == hex16(h).take(i as int),
    {
        let shift: u64 = 60 - 4 * (i as u64);
        let digit: u64 = (h >> shift) & 0xf;
        assert((h >> shift) & 0xf < 16) by (bit_vector);
        proof {
            reveal_strlit("0123456789abcdef");
            assert(nibble(h, i as int) == digit);
        }
        hex.push(HEX_DIGITS.get_char(digit as usize));
        assert(hex@ =~= hex16(h).take(i + 1));
    }
    assert(hex16(h).take(16) =~= hex16(h));
    hex
}

/// How cookies are written to logs, and the hashes that are known already.
#[derive(Debug)]
pub struct CookieLog {
    full: bool,
    known: Table<String>,
}

impl CookieLog {
    /// Whether cookies are logged as they are.
    pub closed spec fn full(&self) -> bool {
        self.full
    }

    /// The hashes that are remembered are those of their cookies.
    pub closed spec fn wf(&self) -> bool {
        &&& self.known.wf()
        &&& forall|c: Seq<char>| #[trigger]
            self.known@.dom().contains(c) ==> self.known@[c]@ == hash_text(c)
    }

    /// Logs full cookies if `full`, otherwise their hashes.
    pub fn new(full: bool) -> (log: CookieLog)
        ensures
            log.full() == full,
            log.wf(),
    {
        CookieLog { full, known: Table::new() }
    }
}

/// What stands for a cookie in a log.
pub open spec fn logged(full: bool, cookie: Seq<char>) -> Seq<char> {
    if full {
        cookie
    } else {
        hash_text(cookie)
    }
}

/// What stands for `cookie` in the log. A hash is computed once and remembered.
pub fn log_cookie(log: &mut CookieLog, cookie: &str) -> (text: String)
    requires
        old(log).wf(),
    ensures
        text@ == logged(old(log).full(), cookie@),
        final(log).wf(),
        final(log).full() == old(log).full(),
{
    if log.full {
        return cookie.to_owned();
    }
    match log.known.get(cookie) {
        Some(hex) => {
            return hex.clone();
        },
        None => {},
    }
    let hex = fnv1a_hex(cookie);
    log.known.insert(cookie.to_owned(), hex.clone());
    hex
}

/// A hash is always written with 16 digits.
pub proof fn law_hash_has_16_digits(s: Seq<char>)
    ensures
        hash_text(s).len() == 16,
        forall|i: int| 0 <= i < 16 ==> HEX_DIGITS@.contains(#[trigger] hash_text(s)[i]),
{
    reveal_strlit("0123456789abcdef");
    let h = fnv1a(encode_utf8(s));
    assert forall|i: int| 0 <= i < 16 implies HEX_DIGITS@.contains(#[trigger] hash_text(s)[i]) by {
        let shift = (60 - 4 * i) as u64;
        assert((h >> shift) & 0xf < 16) by (bit_vector);
        assert(hash_text(s)[i] == HEX_DIGITS@[nibble(h, i) as int]);
    }
}

/// What the digit `c` of base sixteen stands for.
pub open spec fn digit_value(c: char) -> int {
    if '0' <= c <= '9' {
        c as int - '0' as int
    } else {
        c as int - 'a' as int + 10
    }
}

/// The number that digits of base sixteen write.
pub open spec fn read_hex(digits: Seq<char>) -> int
    decreases digits.len(),
{
    if digits.len() == 0 {
        0
    } else {
        16 * read_hex(digits.drop_last()) + digit_value(digits.last())
    }
}

/// The first digits of a number write its upper bits.
proof fn lemma_upper_digits(h: u64, k: int)
    requires
        1 <= k <= 16,
    ensures
        read_hex(hex16(h).take(k)) == h >> ((64 - 4 * k) as u64),
    decreases k,
{
    reveal_strlit("0123456789abcdef");
    let digits = hex16(h).take(k);
    let i = k - 1;
    let shift = (60 - 4 * i) as u64;
    assert((h >> shift) & 0xf < 16) by (bit_vector);
    let n = nibble(h, i);
    assert(n < 16);
    assert(digits.last() == HEX_DIGITS@[n as int]);
    assert(digit_value(HEX_DIGITS@[n as int]) == n);
    assert(digits.drop_last() =~= hex16(h).take(i));
    if i == 0 {
        assert(hex16(h).take(0).len() == 0);
        assert(read_hex(hex16(h).take(0)) == 0);
        assert((h >> 60) & 0xf == h >> 60) by (bit_vector);
    } else {
        lemma_upper_digits(h, i);
        let above = (64 - 4 * i) as u64;
        assert(above == shift + 4);
        assert((h >> shift) == 16 * (h >> above) + ((h >> shift) & 0xf)) by (bit_vector)
            requires
                shift <= 56,
                above == shift + 4,
        ;
    }
}

/// The hash that is written is the FNV-1a hash of the whole text: read back, its digits give the
/// hash, the hash of nothing is the offset, and each further byte is taken in by exclusive or and a
/// multiplication.
pub proof fn law_hash_of_every_byte(text: Seq<char>, bytes: Seq<u8>, byte: u8)
    ensures
        read_hex(hash_text(text)) == fnv1a(encode_utf8(text)),
        fnv1a(Seq::empty()) == 0xcbf29ce484222325u64,
        fnv1a(bytes.push(byte)) == ((fnv1a(bytes) ^ (byte as u64)) * 0x100000001b3)
            % 0x1_0000_0000_0000_0000,
{
    let h = fnv1a(encode_utf8(text));
    lemma_upper_digits(h, 16);
    assert(hex16(h).take(16) =~= hex16(h));
    assert(h >> 0 == h) by (bit_vector);
    assert(bytes.push(byte).drop_last() =~= bytes);
}

/// In a log a cookie is itself or its hash, as was asked for.
pub proof fn law_what_is_logged(cookie: Seq<char>)
    ensures
        logged(true, cookie) == cookie,
        logged(false, cookie) == hash_text(cookie),
{
}

/// What the calls about cookies give.
pub proof fn law_calls_about_cookies()
    ensures
        forall|s: &str, hex: String| #[trigger]
            call_ensures(fnv1a_hex, (s,), hex) ==> hex@ == hash_text(s@),
        forall|full: bool, log: CookieLog| #[trigger]
            call_ensures(CookieLog::new, (full,), log) ==> log.full() == full,
        forall|m: &mut CookieLog, cookie: &str, text: String| #[trigger]
            call_ensures(log_cookie, (m, cookie), text) ==> text@ == logged((*m).full(), cookie@)
                && final(m).full() == (*m).full(),
{
}

} // verus!
