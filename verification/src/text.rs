//! Text building blocks shared by the renderers and the report lines.

use vstd::prelude::*;

verus! {

/// The character that stands for the digit `d`.
pub open spec fn digit_char(d: nat) -> char {
    if d == 0 {
        '0'
    } else if d == 1 {
        '1'
    } else if d == 2 {
        '2'
    } else if d == 3 {
        '3'
    } else if d == 4 {
        '4'
    } else if d == 5 {
        '5'
    } else if d == 6 {
        '6'
    } else if d == 7 {
        '7'
    } else if d == 8 {
        '8'
    } else {
        '9'
    }
}

/// Decimal notation of `n`, most significant digit first, without padding.
pub open spec fn decimal_digits(n: nat) -> Seq<char>
    decreases n,
{
    if n < 10 {
        seq![digit_char(n)]
    } else {
        decimal_digits(n / 10).push(digit_char(n % 10))
    }
}

/// The texts held by a vector of strings, in order.
pub open spec fn names_of(names: Seq<String>) -> Seq<Seq<char>> {
    names.map_values(|name: String| name@)
}

/// The view of an optional text.
pub open spec fn text_of(text: Option<String>) -> Option<Seq<char>> {
    match text {
        Some(s) => Some(s@),
        None => None,
    }
}

/// `count` blanks.
pub open spec fn spaces(count: nat) -> Seq<char> {
    Seq::new(count, |i: int| ' ')
}

/// `text` followed by as many blanks as it takes to reach `width`
/// characters; unchanged when it is already that long.
pub open spec fn padded(text: Seq<char>, width: nat) -> Seq<char> {
    if text.len() < width {
        text + spaces((width - text.len()) as nat)
    } else {
        text
    }
}

/// The first `limit` characters of `text`, or all of it when there is no
/// limit or the text is shorter.
pub open spec fn clipped(text: Seq<char>, limit: Option<usize>) -> Seq<char> {
    match limit {
        Some(m) => if m < text.len() {
            text.take(m as int)
        } else {
            text
        },
        None => text,
    }
}

/// Clipping keeps a prefix of the text, no longer than the limit.
pub proof fn clipped_is_a_prefix_within_the_limit(text: Seq<char>, limit: Option<usize>)
    ensures
        clipped(text, limit).is_prefix_of(text),
        limit matches Some(m) ==> clipped(text, limit).len() <= m,
        limit matches Some(m) ==> (clipped(text, limit) == text <==> text.len() <= m),
        limit is None ==> clipped(text, limit) == text,
{
}

/// Every decimal notation has at least one character and consists of
/// digits only.
pub proof fn decimal_digits_shape(n: nat)
    ensures
        decimal_digits(n).len() >= 1,
        forall|i: int|
            0 <= i < decimal_digits(n).len() ==> '0' <= #[trigger] decimal_digits(n)[i] <= '9',
        n < 10 <==> decimal_digits(n).len() == 1,
        decimal_digits(n)[0] == '0' <==> n == 0,
    decreases n,
{
    if n >= 10 {
        decimal_digits_shape(n / 10);
    }
}

fn digit_str(d: usize) -> (s: &'static str)
    requires
        d < 10,
    ensures
        s@ == seq![digit_char(d as nat)],
{
    proof {
        reveal_strlit("0");
        reveal_strlit("1");
        reveal_strlit("2");
        reveal_strlit("3");
        reveal_strlit("4");
        reveal_strlit("5");
        reveal_strlit("6");
        reveal_strlit("7");
        reveal_strlit("8");
        reveal_strlit("9");
    }
    let s = if d == 0 {
        "0"
    } else if d == 1 {
        "1"
    } else if d == 2 {
        "2"
    } else if d == 3 {
        "3"
    } else if d == 4 {
        "4"
    } else if d == 5 {
        "5"
    } else if d == 6 {
        "6"
    } else if d == 7 {
        "7"
    } else if d == 8 {
        "8"
    } else {
        "9"
    };
    assert(s@ =~= seq![digit_char(d as nat)]);
    s
}

/// Writes `n` in decimal.
pub fn decimal(n: usize) -> (out: String)
    ensures
        out@ == decimal_digits(n as nat),
    decreases n,
{
    if n < 10 {
        String::from_str(digit_str(n))
    } else {
        let mut out = decimal(n / 10);
        out.append(digit_str(n % 10));
        assert(out@ =~= decimal_digits((n / 10) as nat).push(digit_char((n % 10) as nat)));
        out
    }
}

/// Pads `text` with blanks on the right up to `width` characters.
pub fn pad_right(text: &str, width: usize) -> (out: String)
    ensures
        out@ == padded(text@, width as nat),
{
    let len = text.unicode_len();
    let mut out = String::from_str(text);
    let mut n: usize = len;
    while n < width
        invariant
            len == text@.len(),
            len <= n,
            n <= width || n == len,
            out@ == text@ + spaces((n - len) as nat),
        decreases width - n,
    {
        proof {
            reveal_strlit(" ");
        }
        out.append(" ");
        n = n + 1;
        assert(out@ =~= text@ + spaces((n - len) as nat));
    }
    assert(out@ =~= padded(text@, width as nat));
    out
}

/// Cuts `text` down to `limit` characters where a limit is given.
pub fn clip(text: &str, limit: Option<usize>) -> (out: String)
    ensures
        out@ == clipped(text@, limit),
{
    match limit {
        Some(m) => {
            if m < text.unicode_len() {
                let head = text.substring_char(0, m);
                assert(head@ =~= text@.take(m as int));
                String::from_str(head)
            } else {
                String::from_str(text)
            }
        },
        None => String::from_str(text),
    }
}

} // verus!
