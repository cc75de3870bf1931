use vstd::prelude::*;
use vstd::string::StringExecFns;

verus! {

/// The lower-case hex digit for a value below sixteen.
pub open spec fn hex_digit_char(n: u8) -> char {
    if n == 0 {
        '0'
    } else if n == 1 {
        '1'
    } else if n == 2 {
        '2'
    } else if n == 3 {
        '3'
    } else if n == 4 {
        '4'
    } else if n == 5 {
        '5'
    } else if n == 6 {
        '6'
    } else if n == 7 {
        '7'
    } else if n == 8 {
        '8'
    } else if n == 9 {
        '9'
    } else if n == 10 {
        'a'
    } else if n == 11 {
        'b'
    } else if n == 12 {
        'c'
    } else if n == 13 {
        'd'
    } else if n == 14 {
        'e'
    } else {
        'f'
    }
}

/// The value of one hex digit; both letter cases are read, as stored data may
/// carry either.
pub open spec fn hex_digit_val(c: char) -> Option<u8> {
    if c == '0' {
        Some(0u8)
    } else if c == '1' {
        Some(1u8)
    } else if c == '2' {
        Some(2u8)
    } else if c == '3' {
        Some(3u8)
    } else if c == '4' {
        Some(4u8)
    } else if c == '5' {
        Some(5u8)
    } else if c == '6' {
        Some(6u8)
    } else if c == '7' {
        Some(7u8)
    } else if c == '8' {
        Some(8u8)
    } else if c == '9' {
        Some(9u8)
    } else if c == 'a' || c == 'A' {
        Some(10u8)
    } else if c == 'b' || c == 'B' {
        Some(11u8)
    } else if c == 'c' || c == 'C' {
        Some(12u8)
    } else if c == 'd' || c == 'D' {
        Some(13u8)
    } else if c == 'e' || c == 'E' {
        Some(14u8)
    } else if c == 'f' || c == 'F' {
        Some(15u8)
    } else {
        None
    }
}

/// The lower-case hex spelling of a byte sequence: two digits per byte, high
/// nibble first.
pub open spec fn hex_of(bs: Seq<u8>) -> Seq<char>
    decreases bs.len(),
{
    if bs.len() == 0 {
        Seq::<char>::empty()
    } else {
        seq![hex_digit_char(bs.first() / 16), hex_digit_char(bs.first() % 16)] + hex_of(
            bs.drop_first(),
        )
    }
}

/// The bytes a character sequence spells in hex, or `None` when the sequence
/// has odd length or holds a character that is no hex digit.
pub open spec fn unhex(s: Seq<char>) -> Option<Seq<u8>>
    decreases s.len(),
{
    if s.len() == 0 {
        Some(Seq::<u8>::empty())
    } else if s.len() == 1 {
        None
    } else {
        match (hex_digit_val(s[0]), hex_digit_val(s[1]), unhex(s.skip(2))) {
            (Some(h), Some(l), Some(rest)) => Some(seq![(h * 16 + l) as u8] + rest),
            _ => None,
        }
    }
}

/// A hex spelling is twice as long as the bytes it spells.
pub proof fn lemma_hex_of_len(bs: Seq<u8>)
    ensures
        hex_of(bs).len() == 2 * bs.len(),
    decreases bs.len(),
{
    if bs.len() > 0 {
        lemma_hex_of_len(bs.drop_first());
    }
}

/// Reading back a hex spelling returns the bytes it was made from.
pub proof fn lemma_unhex_hex_of(bs: Seq<u8>)
    ensures
        unhex(hex_of(bs)) == Some(bs),
    decreases bs.len(),
{
    if bs.len() == 0 {
        assert(hex_of(bs).len() == 0);
        assert(unhex(hex_of(bs)) == Some(Seq::<u8>::empty()));
        assert(bs =~= Seq::<u8>::empty());
    } else {
        let b = bs.first();
        let pair = seq![hex_digit_char(b / 16), hex_digit_char(b % 16)];
        let rest = hex_of(bs.drop_first());
        assert(hex_of(bs) == pair + rest);
        lemma_unhex_hex_of(bs.drop_first());
        assert((pair + rest).skip(2) =~= rest);
        assert((pair + rest)[0] == hex_digit_char(b / 16));
        assert((pair + rest)[1] == hex_digit_char(b % 16));
        assert(hex_digit_val(hex_digit_char(b / 16)) == Some((b / 16) as u8));
        assert(hex_digit_val(hex_digit_char(b % 16)) == Some((b % 16) as u8));
        assert((b / 16) * 16 + (b % 16) == b) by (bit_vector);
        assert(unhex(hex_of(bs)) == Some(seq![b] + bs.drop_first()));
        assert(seq![b] + bs.drop_first() =~= bs);
    }
}

/// The one-character string for a hex digit value.
pub(crate) fn nibble_str(n: u8) -> (s: &'static str)
    requires
        n < 16,
    ensures
        s@ =~= seq![hex_digit_char(n)],
{
    proof {
        reveal_strlit("0");
        reveal_strlit("1");
        reveal_strlit("2");
        reveal_strlit("3");
        reveal_strlit("4");
        reveal_strlit("5");
        reveal_strlit("6");
        reveal_strlit("7");
        reveal_strlit("8");
        reveal_strlit("9");
        reveal_strlit("a");
        reveal_strlit("b");
        reveal_strlit("c");
        reveal_strlit("d");
        reveal_strlit("e");
        reveal_strlit("f");
    }
    match n {
        0 => "0",
        1 => "1",
        2 => "2",
        3 => "3",
        4 => "4",
        5 => "5",
        6 => "6",
        7 => "7",
        8 => "8",
        9 => "9",
        10 => "a",
        11 => "b",
        12 => "c",
        13 => "d",
        14 => "e",
        _ => "f",
    }
}

/// Spell a byte sequence as lower-case hex text.
pub fn hex_encode(bytes: &[u8]) -> (r: String)
    ensures
        r@ == hex_of(bytes@),
{
    let mut r = String::new();
    let n = bytes.len();
    assert(bytes@.skip(0) =~= bytes@);
    for i in 0..n
        invariant
            n == bytes@.len(),
            hex_of(bytes@) =~= r@ + hex_of(bytes@.skip(i as int)),
    {
        let b = bytes[i];
        r.append(nibble_str(b / 16));
        r.append(nibble_str(b % 16));
        proof {
            assert(bytes@.skip(i as int).drop_first() =~= bytes@.skip(i + 1));
        }
    }
    proof {
        assert(bytes@.skip(n as int) =~= Seq::<u8>::empty());
        assert(r@ + Seq::<char>::empty() =~= r@);
    }
    r
}

/// The value of one hex digit character, or `None` for any other character.
fn digit_val(c: char) -> (r: Option<u8>)
    ensures
        r == hex_digit_val(c),
{
    match c {
        '0' => Some(0),
        '1' => Some(1),
        '2' => Some(2),
        '3' => Some(3),
        '4' => Some(4),
        '5' => Some(5),
        '6' => Some(6),
        '7' => Some(7),
        '8' => Some(8),
        '9' => Some(9),
        'a' | 'A' => Some(10),
        'b' | 'B' => Some(11),
        'c' | 'C' => Some(12),
        'd' | 'D' => Some(13),
        'e' | 'E' => Some(14),
        'f' | 'F' => Some(15),
        _ => None,
    }
}

/// Read hex text back into bytes; `None` exactly when the text is no hex
/// spelling.
pub fn hex_decode(s: &str) -> (r: Option<Vec<u8>>)
    ensures
        match r {
            Some(v) => unhex(s@) == Some(v@),
            None => unhex(s@) is None,
        },
{
    let n = s.unicode_len();
    if n % 2 != 0 {
        proof {
            lemma_unhex_odd(s@);
        }
        return None;
    }
    let mut acc: Vec<u8> = Vec::new();
    let mut i: usize = 0;
    assert(s@.skip(0) =~= s@);
    while i < n
        invariant
            n == s@.len(),
            n % 2 == 0,
            i % 2 == 0,
            i <= n,
            unhex(s@) == match unhex(s@.skip(i as int)) {
                Some(rest) => Some(acc@ + rest),
                None => None::<Seq<u8>>,
            },
        decreases n - i,
    {
        let c1 = s.get_char(i);
        let c2 = s.get_char(i + 1);
        proof {
            assert(s@.skip(i as int).len() >= 2);
            assert(s@.skip(i as int)[0] == s@[i as int]);
            assert(s@.skip(i as int)[1] == s@[i as int + 1]);
            assert(s@.skip(i as int).skip(2) =~= s@.skip(i as int + 2));
        }
        let h = match digit_val(c1) {
            Some(h) => h,
            None => {
                return None;
            },
        };
        let l = match digit_val(c2) {
            Some(l) => l,
            None => {
                return None;
            },
        };
        acc.push(h * 16 + l);
        proof {
            let rest_full = unhex(s@.skip(i as int));
            let rest_next = unhex(s@.skip(i as int + 2));
            assert(rest_full == match rest_next {
                Some(rest) => Some(seq![(h * 16 + l) as u8] + rest),
                None => None::<Seq<u8>>,
            });
            if rest_next is Some {
                assert(acc@ =~= acc@.drop_last() + seq![(h * 16 + l) as u8]);
                assert(acc@.drop_last() + (seq![(h * 16 + l) as u8] + rest_next.unwrap()) =~= acc@
                    + rest_next.unwrap());
            }
        }
        i = i + 2;
    }
    proof {
        assert(s@.skip(n as int) =~= Seq::<char>::empty());
        assert(acc@ + Seq::<u8>::empty() =~= acc@);
    }
    Some(acc)
}

/// Hex text always has even length.
proof fn lemma_unhex_odd(s: Seq<char>)
    ensures
        s.len() % 2 == 1 ==> unhex(s) is None,
    decreases s.len(),
{
    if s.len() % 2 == 1 && s.len() > 1 {
        lemma_unhex_odd(s.skip(2));
    }
}

} // verus!
