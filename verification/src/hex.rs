//! Lowercase hexadecimal rendering of a 64-bit digest.
//!
//! A digest is compared and surfaced to callers as a lowercase hexadecimal
//! string with no leading zeroes (the value zero renders as "0").

use vstd::prelude::*;

verus! {

/// Lowercase hexadecimal digit for a nibble value.
pub open spec fn hex_digit_char(d: nat) -> char {
    if d == 0 {
        '0'
    } else if d == 1 {
        '1'
    } else if d == 2 {
        '2'
    } else if d == 3 {
        '3'
    } else if d == 4 {
        '4'
    } else if d == 5 {
        '5'
    } else if d == 6 {
        '6'
    } else if d == 7 {
        '7'
    } else if d == 8 {
        '8'
    } else if d == 9 {
        '9'
    } else if d == 10 {
        'a'
    } else if d == 11 {
        'b'
    } else if d == 12 {
        'c'
    } else if d == 13 {
        'd'
    } else if d == 14 {
        'e'
    } else {
        'f'
    }
}

/// Lowercase hexadecimal rendering of `n`, most significant digit first,
/// without leading zeroes.
pub open spec fn hex_of(n: nat) -> Seq<char>
    decreases n,
{
    if n < 16 {
        seq![hex_digit_char(n)]
    } else {
        hex_of(n / 16).push(hex_digit_char(n % 16))
    }
}

/// The single-character string for one nibble.
fn hex_digit_str(d: u8) -> (s: &'static str)
    requires
        d < 16,
    ensures
        s@ == seq![hex_digit_char(d as nat)],
{
    proof {
        reveal_strlit("0");
        reveal_strlit("1");
        reveal_strlit("2");
        reveal_strlit("3");
        reveal_strlit("4");
        reveal_strlit("5");
        reveal_strlit("6");
        reveal_strlit("7");
        reveal_strlit("8");
        reveal_strlit("9");
        reveal_strlit("a");
        reveal_strlit("b");
        reveal_strlit("c");
        reveal_strlit("d");
        reveal_strlit("e");
        reveal_strlit("f");
    }
    let s = match d {
        0 => "0",
        1 => "1",
        2 => "2",
        3 => "3",
        4 => "4",
        5 => "5",
        6 => "6",
        7 => "7",
        8 => "8",
        9 => "9",
        10 => "a",
        11 => "b",
        12 => "c",
        13 => "d",
        14 => "e",
        _ => "f",
    };
    proof {
        assert(s@ =~= seq![hex_digit_char(d as nat)]);
    }
    s
}

/// Renders `n` as the lowercase hexadecimal string that callers see.
pub fn digest_hex(n: u64) -> (s: String)
    ensures
        s@ == hex_of(n as nat),
    decreases n,
{
    if n < 16 {
        hex_digit_str(n as u8).to_owned()
    } else {
        let mut s = digest_hex(n / 16);
        s.append(hex_digit_str((n % 16) as u8));
        proof {
            assert(s@ =~= hex_of(n as nat));
        }
        s
    }
}

/// A hexadecimal rendering is never empty.
pub proof fn lemma_hex_of_nonempty(n: nat)
    ensures
        hex_of(n).len() >= 1,
    decreases n,
{
    if n >= 16 {
        lemma_hex_of_nonempty(n / 16);
    }
}

/// Distinct nibble values render to distinct digit characters.
proof fn lemma_hex_digit_injective(a: nat, b: nat)
    requires
        a < 16,
        b < 16,
        hex_digit_char(a) == hex_digit_char(b),
    ensures
        a == b,
{
}

/// Two numbers render to the same hexadecimal string only if they are equal,
/// so comparing renderings compares the digests themselves.
pub proof fn lemma_hex_of_injective(a: nat, b: nat)
    requires
        hex_of(a) == hex_of(b),
    ensures
        a == b,
    decreases a,
{
    if a < 16 && b < 16 {
        assert(hex_of(a)[0] == hex_digit_char(a));
        assert(hex_of(b)[0] == hex_digit_char(b));
        lemma_hex_digit_injective(a, b);
    } else if a < 16 && b >= 16 {
        lemma_hex_of_nonempty(b / 16);
        assert(hex_of(a).len() == 1);
        assert(hex_of(b).len() == hex_of(b / 16).len() + 1);
    } else if a >= 16 && b < 16 {
        lemma_hex_of_nonempty(a / 16);
        assert(hex_of(b).len() == 1);
        assert(hex_of(a).len() == hex_of(a / 16).len() + 1);
    } else {
        let la = hex_of(a);
        let lb = hex_of(b);
        assert(la.last() == hex_digit_char(a % 16));
        assert(lb.last() == hex_digit_char(b % 16));
        lemma_hex_digit_injective(a % 16, b % 16);
        assert(la.drop_last() =~= hex_of(a / 16));
        assert(lb.drop_last() =~= hex_of(b / 16));
        lemma_hex_of_injective(a / 16, b / 16);
        assert(a == 16 * (a / 16) + a % 16);
        assert(b == 16 * (b / 16) + b % 16);
    }
}

} // verus!
