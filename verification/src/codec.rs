//! Descriptor codec: renders raw descriptor buffers as lowercase hex strings,
//! decodes such strings back to bytes, trims terminator characters off text
//! descriptors, and validates the length prefix of a raw descriptor buffer.

use vstd::prelude::*;

verus! {

/// The lowercase hex digit character for one nibble.
pub open spec fn hex_digit_of(n: u8) -> char
    recommends
        n < 16,
{
    if n == 0 {
        '0'
    } else if n == 1 {
        '1'
    } else if n == 2 {
        '2'
    } else if n == 3 {
        '3'
    } else if n == 4 {
        '4'
    } else if n == 5 {
        '5'
    } else if n == 6 {
        '6'
    } else if n == 7 {
        '7'
    } else if n == 8 {
        '8'
    } else if n == 9 {
        '9'
    } else if n == 10 {
        'a'
    } else if n == 11 {
        'b'
    } else if n == 12 {
        'c'
    } else if n == 13 {
        'd'
    } else if n == 14 {
        'e'
    } else {
        'f'
    }
}

/// The two hex digit characters of one byte, high nibble first.
pub open spec fn hex_byte_seq(b: u8) -> Seq<char> {
    seq![hex_digit_of(b / 16), hex_digit_of(b % 16)]
}

/// The hex rendering of a byte sequence: two lowercase digits per byte,
/// concatenated, no separators.
pub open spec fn hex_of(bs: Seq<u8>) -> Seq<char>
    decreases bs.len(),
{
    if bs.len() == 0 {
        Seq::empty()
    } else {
        hex_of(bs.drop_last()) + hex_byte_seq(bs.last())
    }
}

/// Whether a character is a lowercase hex digit.
pub open spec fn is_hex_digit(c: char) -> bool {
    c == '0' || c == '1' || c == '2' || c == '3' || c == '4' || c == '5' || c == '6' || c == '7'
        || c == '8' || c == '9' || c == 'a' || c == 'b' || c == 'c' || c == 'd' || c == 'e'
        || c == 'f'
}

/// Whether every character of a sequence is a lowercase hex digit.
pub open spec fn all_hex(s: Seq<char>) -> bool {
    forall|i: int| 0 <= i < s.len() ==> is_hex_digit(#[trigger] s[i])
}

/// The nibble value of a lowercase hex digit character.
pub open spec fn hex_val(c: char) -> u8
    recommends
        is_hex_digit(c),
{
    if c == '0' {
        0
    } else if c == '1' {
        1
    } else if c == '2' {
        2
    } else if c == '3' {
        3
    } else if c == '4' {
        4
    } else if c == '5' {
        5
    } else if c == '6' {
        6
    } else if c == '7' {
        7
    } else if c == '8' {
        8
    } else if c == '9' {
        9
    } else if c == 'a' {
        10
    } else if c == 'b' {
        11
    } else if c == 'c' {
        12
    } else if c == 'd' {
        13
    } else if c == 'e' {
        14
    } else {
        15
    }
}

/// The byte sequence denoted by an even-length sequence of hex digit pairs.
pub open spec fn hex_pairs_val(s: Seq<char>) -> Seq<u8>
    recommends
        s.len() % 2 == 0,
    decreases s.len(),
{
    if s.len() < 2 {
        Seq::empty()
    } else {
        hex_pairs_val(s.drop_last().drop_last()) + seq![
            (hex_val(s[s.len() - 2]) * 16 + hex_val(s.last())) as u8,
        ]
    }
}

/// A text string with every trailing NUL character removed.
pub open spec fn trim_nul(s: Seq<char>) -> Seq<char>
    decreases s.len(),
{
    if s.len() == 0 || s.last() != '\0' {
        s
    } else {
        trim_nul(s.drop_last())
    }
}

/// Whether a raw descriptor buffer is internally consistent: nonempty, with
/// its first byte equal to the number of bytes actually transferred (the
/// buffer's own length, reduced modulo 256 as the one-byte field demands).
pub open spec fn descriptor_len_ok(bs: Seq<u8>) -> bool {
    bs.len() > 0 && bs[0] as nat == bs.len() % 256
}

fn hex_digit_str(n: u8) -> (r: &'static str)
    requires
        n < 16,
    ensures
        r@ == seq![hex_digit_of(n)],
{
    if n == 0 {
        proof {
            reveal_strlit("0");
            assert("0"@ =~= seq![hex_digit_of(0u8)]);
        }
        "0"
    } else if n == 1 {
        proof {
            reveal_strlit("1");
            assert("1"@ =~= seq![hex_digit_of(1u8)]);
        }
        "1"
    } else if n == 2 {
        proof {
            reveal_strlit("2");
            assert("2"@ =~= seq![hex_digit_of(2u8)]);
        }
        "2"
    } else if n == 3 {
        proof {
            reveal_strlit("3");
            assert("3"@ =~= seq![hex_digit_of(3u8)]);
        }
        "3"
    } else if n == 4 {
        proof {
            reveal_strlit("4");
            assert("4"@ =~= seq![hex_digit_of(4u8)]);
        }
        "4"
    } else if n == 5 {
        proof {
            reveal_strlit("5");
            assert("5"@ =~= seq![hex_digit_of(5u8)]);
        }
        "5"
    } else if n == 6 {
        proof {
            reveal_strlit("6");
            assert("6"@ =~= seq![hex_digit_of(6u8)]);
        }
        "6"
    } else if n == 7 {
        proof {
            reveal_strlit("7");
            assert("7"@ =~= seq![hex_digit_of(7u8)]);
        }
        "7"
    } else if n == 8 {
        proof {
            reveal_strlit("8");
            assert("8"@ =~= seq![hex_digit_of(8u8)]);
        }
        "8"
    } else if n == 9 {
        proof {
            reveal_strlit("9");
            assert("9"@ =~= seq![hex_digit_of(9u8)]);
        }
        "9"
    } else if n == 10 {
        proof {
            reveal_strlit("a");
            assert("a"@ =~= seq![hex_digit_of(10u8)]);
        }
        "a"
    } else if n == 11 {
        proof {
            reveal_strlit("b");
            assert("b"@ =~= seq![hex_digit_of(11u8)]);
        }
        "b"
    } else if n == 12 {
        proof {
            reveal_strlit("c");
            assert("c"@ =~= seq![hex_digit_of(12u8)]);
        }
        "c"
    } else if n == 13 {
        proof {
            reveal_strlit("d");
            assert("d"@ =~= seq![hex_digit_of(13u8)]);
        }
        "d"
    } else if n == 14 {
        proof {
            reveal_strlit("e");
            assert("e"@ =~= seq![hex_digit_of(14u8)]);
        }
        "e"
    } else {
        proof {
            reveal_strlit("f");
            assert("f"@ =~= seq![hex_digit_of(15u8)]);
        }
        "f"
    }
}

/// Render a byte buffer as its hex string: two lowercase digits per byte.
pub fn bytestring(s: &[u8]) -> (r: String)
    ensures
        r@ == hex_of(s@),
{
    let mut out = String::new();
    let mut i: usize = 0;
    while i < s.len()
        invariant
            i <= s@.len(),
            out@ == hex_of(s@.take(i as int)),
        decreases s@.len() - i,
    {
        let b = s[i];
        let hi = hex_digit_str(b / 16);
        let lo = hex_digit_str(b % 16);
        out.append(hi);
        out.append(lo);
        proof {
            let pre = s@.take(i as int + 1);
            assert(pre.drop_last() =~= s@.take(i as int));
            assert(pre.last() == s@[i as int]);
            assert(out@ =~= hex_of(s@.take(i as int + 1)));
        }
        i = i + 1;
    }
    proof {
        assert(s@.take(s@.len() as int) =~= s@);
    }
    out
}

fn is_hex_digit_exec(c: char) -> (r: bool)
    ensures
        r == is_hex_digit(c),
{
    c == '0' || c == '1' || c == '2' || c == '3' || c == '4' || c == '5' || c == '6' || c == '7'
        || c == '8' || c == '9' || c == 'a' || c == 'b' || c == 'c' || c == 'd' || c == 'e'
        || c == 'f'
}

fn hex_val_exec(c: char) -> (r: u8)
    requires
        is_hex_digit(c),
    ensures
        r == hex_val(c),
        r < 16,
{
    if c == '0' {
        0
    } else if c == '1' {
        1
    } else if c == '2' {
        2
    } else if c == '3' {
        3
    } else if c == '4' {
        4
    } else if c == '5' {
        5
    } else if c == '6' {
        6
    } else if c == '7' {
        7
    } else if c == '8' {
        8
    } else if c == '9' {
        9
    } else if c == 'a' {
        10
    } else if c == 'b' {
        11
    } else if c == 'c' {
        12
    } else if c == 'd' {
        13
    } else if c == 'e' {
        14
    } else {
        15
    }
}

/// Decode a lowercase hex string back into the bytes it denotes. Returns
/// `None` exactly when the string has odd length or holds a character that is
/// not a lowercase hex digit.
pub fn decode_hex(s: &str) -> (r: Option<Vec<u8>>)
    ensures
        match r {
            Some(v) => s@.len() % 2 == 0 && all_hex(s@) && v@ == hex_pairs_val(s@),
            None => !(s@.len() % 2 == 0 && all_hex(s@)),
        },
{
    let len = s.unicode_len();
    if len % 2 != 0 {
        return None;
    }
    let mut out: Vec<u8> = Vec::new();
    let mut i: usize = 0;
    while i < len
        invariant
            len == s@.len(),
            i <= len,
            i % 2 == 0,
            len % 2 == 0,
            forall|j: int| 0 <= j < i ==> is_hex_digit(#[trigger] s@[j]),
            out@ == hex_pairs_val(s@.take(i as int)),
        decreases len - i,
    {
        let c1 = s.get_char(i);
        let c2 = s.get_char(i + 1);
        if !is_hex_digit_exec(c1) || !is_hex_digit_exec(c2) {
            proof {
                if !is_hex_digit(c1) {
                    assert(!is_hex_digit(s@[i as int]));
                } else {
                    assert(!is_hex_digit(s@[i as int + 1]));
                }
            }
            return None;
        }
        let b = hex_val_exec(c1) * 16 + hex_val_exec(c2);
        out.push(b);
        proof {
            let pre = s@.take(i as int + 2);
            assert(pre.drop_last().drop_last() =~= s@.take(i as int));
            assert(pre[pre.len() - 2] == s@[i as int]);
            assert(pre.last() == s@[i as int + 1]);
            assert(out@ =~= hex_pairs_val(s@.take(i as int + 2)));
        }
        i = i + 2;
    }
    proof {
        assert(s@.take(len as int) =~= s@);
    }
    Some(out)
}

/// Strip every trailing NUL character off a text descriptor's string.
pub fn trim_trailing_nul(s: &str) -> (r: String)
    ensures
        r@ == trim_nul(s@),
{
    let len = s.unicode_len();
    let mut n: usize = len;
    proof {
        assert(s@.take(len as int) =~= s@);
    }
    while n > 0 && s.get_char(n - 1) == '\0'
        invariant
            n <= len,
            len == s@.len(),
            trim_nul(s@) == trim_nul(s@.take(n as int)),
        decreases n,
    {
        proof {
            assert(s@.take(n as int).last() == '\0');
            assert(s@.take(n as int).drop_last() =~= s@.take(n as int - 1));
        }
        n = n - 1;
    }
    proof {
        let pre = s@.take(n as int);
        if n > 0 {
            assert(pre.last() == s@[n as int - 1]);
        }
        assert(trim_nul(pre) == pre);
    }
    let r = s.substring_char(0, n);
    proof {
        assert(r@ =~= s@.take(n as int));
    }
    r.to_owned()
}

/// Check a raw descriptor buffer's length prefix: its first byte must equal
/// the number of bytes received, as the reference driver demands.
pub fn check_descriptor_len(bs: &[u8]) -> (r: bool)
    ensures
        r == descriptor_len_ok(bs@),
{
    bs.len() > 0 && bs[0] == (bs.len() % 256) as u8
}

/// The hex rendering of a buffer is exactly twice as long as the buffer.
pub proof fn lemma_hex_of_len(bs: Seq<u8>)
    ensures
        hex_of(bs).len() == 2 * bs.len(),
    decreases bs.len(),
{
    if bs.len() > 0 {
        lemma_hex_of_len(bs.drop_last());
    }
}

proof fn lemma_hex_digit_round_trip(n: u8)
    requires
        n < 16,
    ensures
        is_hex_digit(hex_digit_of(n)),
        hex_val(hex_digit_of(n)) == n,
{
}

/// Round trip: decoding the hex rendering of any byte buffer yields the
/// buffer back, unchanged.
pub proof fn lemma_hex_round_trip(bs: Seq<u8>)
    ensures
        hex_of(bs).len() % 2 == 0,
        all_hex(hex_of(bs)),
        hex_pairs_val(hex_of(bs)) == bs,
    decreases bs.len(),
{
    lemma_hex_of_len(bs);
    if bs.len() == 0 {
        assert(hex_pairs_val(hex_of(bs)) =~= bs);
    } else {
        let h = hex_of(bs);
        let hp = hex_of(bs.drop_last());
        lemma_hex_round_trip(bs.drop_last());
        lemma_hex_of_len(bs.drop_last());
        let b = bs.last();
        lemma_hex_digit_round_trip(b / 16);
        lemma_hex_digit_round_trip(b % 16);
        assert(h.drop_last().drop_last() =~= hp);
        assert(h[h.len() - 2] == hex_digit_of(b / 16));
        assert(h.last() == hex_digit_of(b % 16));
        assert((hex_val(h[h.len() - 2]) * 16 + hex_val(h.last())) as u8 == b);
        assert(hex_pairs_val(h) =~= bs);
        assert forall|i: int| 0 <= i < h.len() implies is_hex_digit(#[trigger] h[i]) by {
            if i < hp.len() {
                assert(h[i] == hp[i]);
            }
        }
    }
}

} // verus!
