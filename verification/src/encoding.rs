use vstd::prelude::*;

verus! {

// ---------------------------------------------------------------------------
// Lowercase hex, the canonical text form of keys and signatures at the
// storage boundary: every byte becomes exactly two lowercase digits.
// ---------------------------------------------------------------------------

/// The lowercase hex digit standing for a nibble value.
pub open spec fn nibble_char(n: u8) -> char
    recommends
        n < 16,
{
    if n == 0 {
        '0'
    } else if n == 1 {
        '1'
    } else if n == 2 {
        '2'
    } else if n == 3 {
        '3'
    } else if n == 4 {
        '4'
    } else if n == 5 {
        '5'
    } else if n == 6 {
        '6'
    } else if n == 7 {
        '7'
    } else if n == 8 {
        '8'
    } else if n == 9 {
        '9'
    } else if n == 10 {
        'a'
    } else if n == 11 {
        'b'
    } else if n == 12 {
        'c'
    } else if n == 13 {
        'd'
    } else if n == 14 {
        'e'
    } else {
        'f'
    }
}

/// Lowercase hex of a byte string, high nibble first.
pub open spec fn hex_of(b: Seq<u8>) -> Seq<char>
    decreases b.len(),
{
    if b.len() == 0 {
        Seq::empty()
    } else {
        hex_of(b.drop_last()) + seq![nibble_char(b.last() / 16), nibble_char(b.last() % 16)]
    }
}

/// A character that may stand in a hex string, either case.
pub open spec fn is_hex_digit(c: char) -> bool {
    ('0' <= c && c <= '9') || ('a' <= c && c <= 'f') || ('A' <= c && c <= 'F')
}

/// The nibble value of a hex digit.
pub open spec fn hex_val(c: char) -> u8
    recommends
        is_hex_digit(c),
{
    if '0' <= c && c <= '9' {
        (c as u32 - '0' as u32) as u8
    } else if 'a' <= c && c <= 'f' {
        (c as u32 - 'a' as u32 + 10) as u8
    } else {
        (c as u32 - 'A' as u32 + 10) as u8
    }
}

/// A well-formed hex string: even length, hex digits throughout.
pub open spec fn valid_hex(s: Seq<char>) -> bool {
    s.len() % 2 == 0 && forall|i: int| 0 <= i < s.len() ==> is_hex_digit(#[trigger] s[i])
}

/// The bytes a hex string stands for, one byte per digit pair.
pub open spec fn bytes_of_hex(s: Seq<char>) -> Seq<u8>
    recommends
        valid_hex(s),
    decreases s.len(),
{
    if s.len() < 2 {
        Seq::empty()
    } else {
        bytes_of_hex(s.drop_last().drop_last()).push(
            (hex_val(s[s.len() - 2]) * 16 + hex_val(s[s.len() - 1])) as u8,
        )
    }
}

/// A nibble's digit is a digit, and reads back as the same nibble.
pub proof fn lemma_nibble_char_val(n: u8)
    requires
        n < 16,
    ensures
        is_hex_digit(nibble_char(n)),
        hex_val(nibble_char(n)) == n,
{
}

/// Law: encoding is lossless. The hex text of any byte string is
/// well-formed, twice as long, and decodes back to the same bytes.
pub proof fn lemma_hex_round_trip(b: Seq<u8>)
    ensures
        valid_hex(hex_of(b)),
        hex_of(b).len() == 2 * b.len(),
        bytes_of_hex(hex_of(b)) == b,
    decreases b.len(),
{
    if b.len() == 0 {
        assert(bytes_of_hex(hex_of(b)) =~= b);
    } else {
        let prefix = b.drop_last();
        lemma_hex_round_trip(prefix);
        let h = hex_of(b);
        let hi = b.last() / 16;
        let lo = b.last() % 16;
        lemma_nibble_char_val(hi);
        lemma_nibble_char_val(lo);
        assert(h == hex_of(prefix) + seq![nibble_char(hi), nibble_char(lo)]);
        assert(h.drop_last().drop_last() =~= hex_of(prefix));
        assert(h[h.len() - 2] == nibble_char(hi) && h[h.len() - 1] == nibble_char(lo));
        assert(hi * 16 + lo == b.last()) by {
            assert(b.last() / 16 * 16 + b.last() % 16 == b.last());
        }
        assert(bytes_of_hex(h) == bytes_of_hex(hex_of(prefix)).push(b.last()));
        assert(bytes_of_hex(h) =~= b);
    }
}

/// The single-character string for a nibble's hex digit.
fn nibble_str(n: u8) -> (r: &'static str)
    requires
        n < 16,
    ensures
        r@ =~= seq![nibble_char(n)],
{
    proof {
        reveal_strlit("0");
        reveal_strlit("1");
        reveal_strlit("2");
        reveal_strlit("3");
        reveal_strlit("4");
        reveal_strlit("5");
        reveal_strlit("6");
        reveal_strlit("7");
        reveal_strlit("8");
        reveal_strlit("9");
        reveal_strlit("a");
        reveal_strlit("b");
        reveal_strlit("c");
        reveal_strlit("d");
        reveal_strlit("e");
        reveal_strlit("f");
    }
    match n {
        0 => "0",
        1 => "1",
        2 => "2",
        3 => "3",
        4 => "4",
        5 => "5",
        6 => "6",
        7 => "7",
        8 => "8",
        9 => "9",
        10 => "a",
        11 => "b",
        12 => "c",
        13 => "d",
        14 => "e",
        _ => "f",
    }
}

/// Encodes bytes as lowercase hex text.
pub fn hex_encode(b: &[u8]) -> (r: String)
    ensures
        r@ == hex_of(b@),
{
    let mut r = String::new();
    let mut i: usize = 0;
    while i < b.len()
        invariant
            0 <= i <= b@.len(),
            r@ == hex_of(b@.take(i as int)),
        decreases b@.len() - i,
    {
        let byte = b[i];
        r.append(nibble_str(byte / 16));
        r.append(nibble_str(byte % 16));
        proof {
            let t = b@.take(i + 1 as int);
            assert(t.drop_last() =~= b@.take(i as int));
            assert(t.last() == b@[i as int]);
        }
        i += 1;
    }
    proof {
        assert(b@.take(b@.len() as int) =~= b@);
    }
    r
}

/// The nibble value of a hex digit character, if it is one.
fn hex_digit_val(c: char) -> (r: Option<u8>)
    ensures
        match r {
            Some(v) => is_hex_digit(c) && v == hex_val(c) && v < 16,
            None => !is_hex_digit(c),
        },
{
    let u = c as u32;
    if u >= 48 && u <= 57 {
        proof {
            assert('0' <= c && c <= '9');
        }
        Some((u - 48) as u8)
    } else if u >= 97 && u <= 102 {
        proof {
            assert('a' <= c && c <= 'f');
        }
        Some((u - 97 + 10) as u8)
    } else if u >= 65 && u <= 70 {
        proof {
            assert('A' <= c && c <= 'F');
        }
        Some((u - 65 + 10) as u8)
    } else {
        proof {
            assert(!('0' <= c && c <= '9'));
            assert(!('a' <= c && c <= 'f'));
            assert(!('A' <= c && c <= 'F'));
        }
        None
    }
}

/// Decodes a hex string to bytes; `None` exactly on malformed hex
/// (odd length or a non-digit character).
pub fn hex_decode(s: &str) -> (r: Option<Vec<u8>>)
    ensures
        match r {
            Some(b) => valid_hex(s@) && b@ == bytes_of_hex(s@) && b@.len() * 2 == s@.len(),
            None => !valid_hex(s@),
        },
{
    let n = s.unicode_len();
    if n % 2 != 0 {
        return None;
    }
    let mut out: Vec<u8> = Vec::new();
    let mut i: usize = 0;
    while i < n
        invariant
            0 <= i <= n,
            i % 2 == 0,
            n % 2 == 0,
            n == s@.len(),
            forall|j: int| 0 <= j < i ==> is_hex_digit(#[trigger] s@[j]),
            out@ == bytes_of_hex(s@.take(i as int)),
            out@.len() * 2 == i,
        decreases n - i,
    {
        let c_hi = s.get_char(i);
        let c_lo = s.get_char(i + 1);
        let hi = match hex_digit_val(c_hi) {
            Some(v) => v,
            None => {
                return None;
            },
        };
        let lo = match hex_digit_val(c_lo) {
            Some(v) => v,
            None => {
                return None;
            },
        };
        out.push(hi * 16 + lo);
        proof {
            let t = s@.take(i + 2 as int);
            assert(t.drop_last().drop_last() =~= s@.take(i as int));
            assert(t[t.len() - 2] == s@[i as int]);
            assert(t[t.len() - 1] == s@[i as int + 1]);
        }
        i += 2;
    }
    proof {
        assert(s@.take(n as int) =~= s@);
    }
    Some(out)
}

// ---------------------------------------------------------------------------
// Base-58, the address encoding of the Edwards-curve scheme. The digit
// juggling lives in the bs58 crate; only the result is named here.
// ---------------------------------------------------------------------------

/// The base-58 text of a byte string, as bs58 produces it with the
/// Bitcoin alphabet. The result depends on the bytes alone.
pub uninterp spec fn base58_of(b: Seq<u8>) -> Seq<char>;

/// Relies on bs58::encode with the default (Bitcoin) alphabet: a
/// deterministic base-58 rendering of the bytes.
#[verifier::external_body]
pub(crate) fn base58_encode(b: &[u8]) -> (r: String)
    ensures
        r@ == base58_of(b@),
{
    bs58::encode(b).into_string()
}

} // verus!
