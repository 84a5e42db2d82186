//! Small verified building blocks for text: appending characters, decimal
//! numerals, and dropping a character from a string.

use vstd::prelude::*;
use vstd::string::*;

verus! {

/// `String::push` appends the given character to the end of the string.
pub assume_specification[ String::push ](s: &mut String, c: char)
    ensures
        final(s)@ == old(s)@.push(c),
;

/// The text with every occurrence of `c` left out, the rest in order.
pub open spec fn without_char(text: Seq<char>, c: char) -> Seq<char>
    decreases text.len(),
{
    if text.len() == 0 {
        text
    } else if text.last() == c {
        without_char(text.drop_last(), c)
    } else {
        without_char(text.drop_last(), c).push(text.last())
    }
}

/// What is left after removing `c` holds no `c`, and every other character
/// of the text is still there.
pub proof fn lemma_without_char(text: Seq<char>, c: char)
    ensures
        !without_char(text, c).contains(c),
        without_char(text, c).len() <= text.len(),
        forall|x: char|
            x != c ==> (#[trigger] text.contains(x) <==> without_char(text, c).contains(x)),
        !text.contains(c) ==> without_char(text, c) == text,
    decreases text.len(),
{
    if text.len() > 0 {
        let head = text.drop_last();
        let last = text.last();
        let kept = without_char(head, c);
        let out = without_char(text, c);
        lemma_without_char(head, c);
        assert(text == head.push(last));
        assert forall|x: char| x != c implies (#[trigger] text.contains(x) <==> out.contains(
            x,
        )) by {
            assert(head.contains(x) <==> kept.contains(x));
            assert(text.contains(x) <==> head.contains(x) || last == x) by {
                lemma_contains_push(head, last, x);
            }
            if last == c {
                assert(out == kept);
            } else {
                assert(out == kept.push(last));
                lemma_contains_push(kept, last, x);
            }
        }
        if last != c {
            lemma_contains_push(kept, last, c);
        }
        if !text.contains(c) {
            lemma_contains_push(head, last, c);
            assert(out == text);
        }
    }
}

/// A sequence with one more element at its end contains exactly what it
/// contained before and that element.
pub proof fn lemma_contains_push(s: Seq<char>, last: char, x: char)
    ensures
        s.push(last).contains(x) <==> s.contains(x) || last == x,
{
    let t = s.push(last);
    if s.contains(x) {
        let i = choose|i: int| 0 <= i < s.len() && s[i] == x;
        assert(t[i] == x);
    }
    if last == x {
        assert(t[s.len() as int] == x);
    }
    if t.contains(x) {
        let i = choose|i: int| 0 <= i < t.len() && t[i] == x;
        if i < s.len() {
            assert(s[i] == x);
        }
    }
}

/// Copies `text`, leaving out every occurrence of `c`.
pub fn remove_char(text: &str, c: char) -> (out: String)
    ensures
        out@ == without_char(text@, c),
        !out@.contains(c),
{
    let mut out = String::new();
    let n = text.unicode_len();
    let mut i: usize = 0;
    while i < n
        invariant
            n == text@.len(),
            i <= n,
            out@ == without_char(text@.take(i as int), c),
        decreases n - i,
    {
        let x = text.get_char(i);
        proof {
            let next = text@.take(i as int + 1);
            assert(next.drop_last() == text@.take(i as int));
            assert(next.last() == x);
        }
        if x != c {
            out.push(x);
        }
        i = i + 1;
    }
    proof {
        assert(text@.take(n as int) == text@);
        lemma_without_char(text@, c);
    }
    out
}

/// The character that writes a single decimal digit.
pub open spec fn digit_char(d: nat) -> char {
    if d == 0 {
        '0'
    } else if d == 1 {
        '1'
    } else if d == 2 {
        '2'
    } else if d == 3 {
        '3'
    } else if d == 4 {
        '4'
    } else if d == 5 {
        '5'
    } else if d == 6 {
        '6'
    } else if d == 7 {
        '7'
    } else if d == 8 {
        '8'
    } else {
        '9'
    }
}

/// The decimal numeral of `n`: most significant digit first, no sign, no
/// leading zero (zero itself is written `0`).
pub open spec fn decimal(n: nat) -> Seq<char>
    decreases n,
{
    if n < 10 {
        seq![digit_char(n)]
    } else {
        decimal(n / 10).push(digit_char(n % 10))
    }
}

/// A numeral is never empty, and starts with `0` only when it is zero.
pub proof fn lemma_decimal_shape(n: nat)
    ensures
        decimal(n).len() >= 1,
        decimal(n)[0] == '0' <==> n == 0,
        forall|i: int|
            0 <= i < decimal(n).len() ==> '0' <= #[trigger] decimal(n)[i] && decimal(n)[i] <= '9',
    decreases n,
{
    if n >= 10 {
        lemma_decimal_shape(n / 10);
    }
}

/// Different numbers have different numerals.
pub proof fn lemma_decimal_injective(a: nat, b: nat)
    requires
        decimal(a) == decimal(b),
    ensures
        a == b,
    decreases a,
{
    lemma_decimal_shape(a);
    lemma_decimal_shape(b);
    if a >= 10 {
        lemma_decimal_shape(a / 10);
        assert(decimal(a).len() >= 2);
        if b < 10 {
            assert(decimal(b).len() == 1);
        } else {
            assert(decimal(a).drop_last() == decimal(a / 10));
            assert(decimal(b).drop_last() == decimal(b / 10));
            lemma_decimal_injective(a / 10, b / 10);
            assert(decimal(a).last() == digit_char(a % 10));
            assert(decimal(b).last() == digit_char(b % 10));
        }
    } else {
        if b >= 10 {
            lemma_decimal_shape(b / 10);
            assert(decimal(b).len() >= 2);
        } else {
            assert(decimal(a)[0] == digit_char(a));
            assert(decimal(b)[0] == digit_char(b));
        }
    }
}

fn digit(d: u128) -> (c: char)
    requires
        d < 10,
    ensures
        c == digit_char(d as nat),
{
    if d == 0 {
        '0'
    } else if d == 1 {
        '1'
    } else if d == 2 {
        '2'
    } else if d == 3 {
        '3'
    } else if d == 4 {
        '4'
    } else if d == 5 {
        '5'
    } else if d == 6 {
        '6'
    } else if d == 7 {
        '7'
    } else if d == 8 {
        '8'
    } else {
        '9'
    }
}

/// Appends the decimal numeral of `n` to `out`.
pub fn push_decimal(out: &mut String, n: u128)
    ensures
        final(out)@ == old(out)@ + decimal(n as nat),
    decreases n,
{
    if n >= 10 {
        push_decimal(out, n / 10);
    }
    out.push(digit(n % 10));
}

/// Whether two strings hold the same characters.
pub fn same_text(a: &str, b: &str) -> (same: bool)
    ensures
        same == (a@ == b@),
{
    let x = String::from_str(a);
    let y = String::from_str(b);
    x == y
}

} // verus!
