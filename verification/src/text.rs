//! Plain text building blocks: decimal numbers, zero padding, runs of
//! spaces and joined lists.

use vstd::prelude::*;
use vstd::string::*;

verus! {

/// The character of one decimal digit; `'0'` for anything above nine.
pub open spec fn digit_char(d: nat) -> char {
    if d == 1 {
        '1'
    } else if d == 2 {
        '2'
    } else if d == 3 {
        '3'
    } else if d == 4 {
        '4'
    } else if d == 5 {
        '5'
    } else if d == 6 {
        '6'
    } else if d == 7 {
        '7'
    } else if d == 8 {
        '8'
    } else if d == 9 {
        '9'
    } else {
        '0'
    }
}

/// The decimal notation of `n`, most significant digit first, without
/// leading zeros.
pub open spec fn decimal_text(n: nat) -> Seq<char>
    decreases n,
{
    if n < 10 {
        seq![digit_char(n)]
    } else {
        decimal_text(n / 10).push(digit_char(n % 10))
    }
}

/// `n` copies of `c`.
pub open spec fn repeated(c: char, n: nat) -> Seq<char> {
    Seq::new(n, |i: int| c)
}

/// The decimal notation of `n`, filled with zeros on the left up to `width`
/// characters. A number that needs more than `width` digits keeps them all.
pub open spec fn zero_padded_text(n: nat, width: nat) -> Seq<char> {
    let digits = decimal_text(n);
    if digits.len() >= width {
        digits
    } else {
        repeated('0', (width - digits.len()) as nat) + digits
    }
}

/// The items of `items`, in order, with `sep` between each two neighbours.
pub open spec fn joined_text(items: Seq<Seq<char>>, sep: Seq<char>) -> Seq<char>
    decreases items.len(),
{
    if items.len() == 0 {
        Seq::empty()
    } else if items.len() == 1 {
        items[0]
    } else {
        joined_text(items.drop_last(), sep) + sep + items.last()
    }
}

/// Whether `c` does not occur in `s`.
pub open spec fn free_of(s: Seq<char>, c: char) -> bool {
    forall|i: int| 0 <= i < s.len() ==> s[i] != c
}

/// Whether `c` is one of the ten decimal digits.
pub open spec fn is_digit(c: char) -> bool {
    '0' <= c && c <= '9'
}

/// What occurs in neither of two texts does not occur in the two in a row.
pub proof fn lemma_free_of_append(a: Seq<char>, b: Seq<char>, c: char)
    requires
        free_of(a, c),
        free_of(b, c),
    ensures
        free_of(a + b, c),
{
    assert forall|i: int| 0 <= i < (a + b).len() implies (a + b)[i] != c by {
        if i < a.len() {
            assert((a + b)[i] == a[i]);
        } else {
            assert((a + b)[i] == b[i - a.len()]);
        }
    }
}

/// A number in decimal notation holds digits only.
pub proof fn lemma_decimal_free_of(n: nat, c: char)
    requires
        !is_digit(c),
    ensures
        free_of(decimal_text(n), c),
    decreases n,
{
    if n >= 10 {
        lemma_decimal_free_of(n / 10, c);
        let front = decimal_text(n / 10);
        assert forall|i: int| 0 <= i < decimal_text(n).len() implies decimal_text(n)[i] != c by {
            if i < front.len() {
                assert(decimal_text(n)[i] == front[i]);
            }
        }
    }
}

/// A zero-padded number holds digits only.
pub proof fn lemma_zero_padded_free_of(n: nat, width: nat, c: char)
    requires
        !is_digit(c),
    ensures
        free_of(zero_padded_text(n, width), c),
{
    lemma_decimal_free_of(n, c);
    let digits = decimal_text(n);
    if digits.len() < width {
        lemma_free_of_append(repeated('0', (width - digits.len()) as nat), digits, c);
    }
}

/// The texts that a list of strings holds.
pub open spec fn views_of(items: Seq<String>) -> Seq<Seq<char>> {
    Seq::new(items.len(), |i: int| items[i]@)
}

fn digit_str(d: u64) -> (out: &'static str)
    requires
        d < 10,
    ensures
        out@ == seq![digit_char(d as nat)],
{
    proof {
        reveal_strlit("0");
        reveal_strlit("1");
        reveal_strlit("2");
        reveal_strlit("3");
        reveal_strlit("4");
        reveal_strlit("5");
        reveal_strlit("6");
        reveal_strlit("7");
        reveal_strlit("8");
        reveal_strlit("9");
    }
    let out: &'static str = if d == 0 {
        "0"
    } else if d == 1 {
        "1"
    } else if d == 2 {
        "2"
    } else if d == 3 {
        "3"
    } else if d == 4 {
        "4"
    } else if d == 5 {
        "5"
    } else if d == 6 {
        "6"
    } else if d == 7 {
        "7"
    } else if d == 8 {
        "8"
    } else {
        "9"
    };
    assert(out@ =~= seq![digit_char(d as nat)]);
    out
}

/// Writes `n` in decimal notation.
pub fn decimal(n: u64) -> (out: String)
    ensures
        out@ == decimal_text(n as nat),
    decreases n,
{
    if n < 10 {
        String::from_str(digit_str(n))
    } else {
        let mut out = decimal(n / 10);
        out.append(digit_str(n % 10));
        assert(out@ =~= decimal_text(n as nat));
        out
    }
}

/// A run of `n` spaces.
pub fn spaces(n: usize) -> (out: String)
    ensures
        out@ == repeated(' ', n as nat),
{
    let mut out = String::new();
    let mut i: usize = 0;
    while i < n
        invariant
            i <= n,
            out@ == repeated(' ', i as nat),
        decreases n - i,
    {
        out.append(" ");
        proof {
            reveal_strlit(" ");
            assert(out@ =~= repeated(' ', (i + 1) as nat));
        }
        i = i + 1;
    }
    out
}

/// Writes `n` in decimal notation, at least `width` characters wide, with
/// zeros in front of a shorter number.
pub fn zero_padded(n: u64, width: usize) -> (out: String)
    ensures
        out@ == zero_padded_text(n as nat, width as nat),
{
    let digits = decimal(n);
    let len: usize = digits.as_str().unicode_len();
    if len >= width {
        digits
    } else {
        let mut out = String::new();
        let mut i: usize = 0;
        while i < width - len
            invariant
                len < width,
                i <= width - len,
                out@ == repeated('0', i as nat),
            decreases width - len - i,
        {
            out.append("0");
            proof {
                reveal_strlit("0");
                assert(out@ =~= repeated('0', (i + 1) as nat));
            }
            i = i + 1;
        }
        out.append(digits.as_str());
        out
    }
}

/// Writes the items one after the other, with `sep` between each two
/// neighbours.
pub fn join(items: &Vec<String>, sep: &str) -> (out: String)
    ensures
        out@ == joined_text(views_of(items@), sep@),
{
    let ghost texts = views_of(items@);
    let mut out = String::new();
    let mut i: usize = 0;
    while i < items.len()
        invariant
            i <= items.len(),
            texts == views_of(items@),
            out@ == joined_text(texts.take(i as int), sep@),
        decreases items.len() - i,
    {
        proof {
            let next = texts.take(i + 1);
            assert(next.drop_last() =~= texts.take(i as int));
            assert(next.last() == items[i as int]@);
        }
        if i > 0 {
            out.append(sep);
        }
        out.append(items[i].as_str());
        proof {
            assert(out@ =~= joined_text(texts.take(i + 1), sep@));
        }
        i = i + 1;
    }
    proof {
        assert(texts.take(i as int) =~= texts);
    }
    out
}

} // verus!
