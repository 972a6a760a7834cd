//! Upper-case hexadecimal numerals, as `format!("{:X}", n)` writes them.
use vstd::prelude::*;
use crate::text::push_char;

verus! {

/// The hexadecimal digit for `d` (`0`..`9`, `A`..`F`).
pub open spec fn hex_digit(d: nat) -> char {
    if d < 10 {
        (48 + d) as char
    } else {
        (55 + d) as char
    }
}

/// The value of a hexadecimal digit, or -1 for any other character.
pub open spec fn digit_value(c: char) -> int {
    let n = c as int;
    if 48 <= n <= 57 {
        n - 48
    } else if 65 <= n <= 70 {
        n - 55
    } else {
        -1
    }
}

/// The upper-case hexadecimal numeral of `n`, without leading zeros
/// (`"0"` for zero).
pub open spec fn hex_upper(n: nat) -> Seq<char>
    decreases n,
{
    if n < 16 {
        seq![hex_digit(n)]
    } else {
        hex_upper(n / 16).push(hex_digit(n % 16))
    }
}

/// The number that a sequence of hexadecimal digits denotes.
pub open spec fn hex_value(s: Seq<char>) -> int
    decreases s.len(),
{
    if s.len() == 0 {
        0
    } else {
        hex_value(s.drop_last()) * 16 + digit_value(s.last())
    }
}

fn digit_char(d: u64) -> (c: char)
    requires
        d < 16,
    ensures
        c == hex_digit(d as nat),
{
    if d < 10 {
        ((48 + d) as u8) as char
    } else {
        ((55 + d) as u8) as char
    }
}

/// Appends the upper-case hexadecimal numeral of `n` to `s`.
fn push_hex(s: &mut String, n: u64)
    ensures
        final(s)@ == old(s)@ + hex_upper(n as nat),
    decreases n,
{
    if n < 16 {
        push_char(s, digit_char(n));
        assert(hex_upper(n as nat) =~= seq![hex_digit(n as nat)]);
    } else {
        push_hex(s, n / 16);
        push_char(s, digit_char(n % 16));
        assert(hex_upper(n as nat) == hex_upper((n / 16) as nat).push(hex_digit((n % 16) as nat)));
    }
}

/// `"0x"` followed by the upper-case hexadecimal numeral of `n`, as
/// `format!("0x{:X}", n)` writes it.
pub fn format_hex_id(n: u64) -> (s: String)
    ensures
        s@ == "0x"@ + hex_upper(n as nat),
{
    let mut s = String::from_str("0x");
    push_hex(&mut s, n);
    s
}

proof fn lemma_digit(d: nat)
    requires
        d < 16,
    ensures
        digit_value(hex_digit(d)) == d,
        d != 0 ==> hex_digit(d) != '0',
{
    if d < 10 {
        assert(((48 + d) as char) as int == 48 + d);
    } else {
        assert(((55 + d) as char) as int == 55 + d);
    }
}

/// Every character of the numeral is a hexadecimal digit, and the numeral
/// denotes `n` again: reading back what `format_hex_id` wrote gives the
/// number that was written.
pub proof fn law_hex_round_trip(n: nat)
    ensures
        forall|i: int| 0 <= i < hex_upper(n).len() ==> 0 <= #[trigger] digit_value(hex_upper(n)[i]) < 16,
        hex_value(hex_upper(n)) == n,
        hex_upper(n).len() >= 1,
        n >= 16 ==> hex_upper(n).len() > 1,
        hex_upper(n).len() > 1 ==> hex_upper(n)[0] != '0',
    decreases n,
{
    if n < 16 {
        lemma_digit(n);
        assert(hex_upper(n) =~= seq![hex_digit(n)]);
        assert(hex_upper(n).drop_last() =~= Seq::<char>::empty());
        assert(hex_value(hex_upper(n)) == hex_value(Seq::<char>::empty()) * 16 + digit_value(hex_digit(n)));
    } else {
        law_hex_round_trip(n / 16);
        lemma_digit(n % 16);
        let h = hex_upper(n / 16);
        assert(hex_upper(n).drop_last() =~= h);
        assert forall|i: int| 0 <= i < hex_upper(n).len() implies 0 <= #[trigger] digit_value(
            hex_upper(n)[i],
        ) < 16 by {
            if i < h.len() {
                assert(hex_upper(n)[i] == h[i]);
            }
        }
        assert(hex_upper(n)[0] == h[0]);
        assert(hex_value(hex_upper(n)) == hex_value(h) * 16 + digit_value(hex_digit(n % 16)));
        if n / 16 < 16 {
            lemma_digit(n / 16);
            assert(h =~= seq![hex_digit(n / 16)]);
        }
    }
}

} // verus!
