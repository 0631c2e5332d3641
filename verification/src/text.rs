//! Text that plans and messages are made of: decimal numerals, lists with a
//! separator, string literals, and the reading of integers.
use vstd::prelude::*;
use vstd::string::*;

verus! {

/// Whether two texts are the same.
pub fn text_eq(a: &str, b: &str) -> (same: bool)
    ensures
        same == (a@ == b@),
{
    a.to_owned() == b.to_owned()
}

/// The characters of a text, in order.
pub fn chars_of(text: &str) -> (chars: Vec<char>)
    ensures
        chars@ == text@,
{
    let n: usize = text.unicode_len();
    let mut chars: Vec<char> = Vec::new();
    let mut i: usize = 0;
    while i < n
        invariant
            i <= n,
            n == text@.len(),
            chars@ == text@.take(i as int),
        decreases n - i,
    {
        chars.push(text.get_char(i));
        i = i + 1;
        assert(text@.take(i as int) =~= text@.take(i - 1).push(text@[i - 1]));
    }
    assert(text@.take(n as int) =~= text@);
    chars
}

/// What follows a prefix, where the text begins with it.
pub open spec fn after_prefix(text: Seq<char>, prefix: Seq<char>) -> Option<Seq<char>> {
    if prefix.is_prefix_of(text) {
        Some(text.skip(prefix.len() as int))
    } else {
        None
    }
}

/// What follows a prefix, where the text begins with it.
pub fn strip_prefix(text: &str, prefix: &str) -> (rest: Option<String>)
    ensures
        match rest {
            Some(rest) => after_prefix(text@, prefix@) == Some(rest@),
            None => after_prefix(text@, prefix@) is None,
        },
{
    let n: usize = text.unicode_len();
    let m: usize = prefix.unicode_len();
    if m > n {
        return None;
    }
    if text_eq(text.substring_char(0, m), prefix) {
        assert(prefix@ =~= text@.take(m as int));
        let rest = text.substring_char(m, n).to_owned();
        assert(rest@ =~= text@.skip(m as int));
        Some(rest)
    } else {
        assert(prefix@.is_prefix_of(text@) ==> prefix@ =~= text@.subrange(0, m as int));
        None
    }
}

// Numerals.

/// The character of a decimal digit.
pub open spec fn digit_char(d: nat) -> char {
    (48 + d) as char
}

/// The decimal numeral of a natural number, without leading zeros.
pub open spec fn decimal(n: nat) -> Seq<char>
    decreases n,
{
    if n < 10 {
        seq![digit_char(n)]
    } else {
        decimal(n / 10).push(digit_char(n % 10))
    }
}

/// The decimal numeral of an integer, with a minus sign where it is negative.
pub open spec fn signed_decimal(i: int) -> Seq<char> {
    if i < 0 {
        "-"@ + decimal((-i) as nat)
    } else {
        decimal(i as nat)
    }
}

fn digit_text(d: u64) -> (text: &'static str)
    requires
        d < 10,
    ensures
        text@ == seq![digit_char(d as nat)],
{
    proof {
        reveal_strlit("0");
        reveal_strlit("1");
        reveal_strlit("2");
        reveal_strlit("3");
        reveal_strlit("4");
        reveal_strlit("5");
        reveal_strlit("6");
        reveal_strlit("7");
        reveal_strlit("8");
        reveal_strlit("9");
    }
    match d {
        0 => "0",
        1 => "1",
        2 => "2",
        3 => "3",
        4 => "4",
        5 => "5",
        6 => "6",
        7 => "7",
        8 => "8",
        _ => "9",
    }
}

/// Writes a natural number in decimal.
pub fn u64_text(n: u64) -> (text: String)
    ensures
        text@ == decimal(n as nat),
    decreases n,
{
    if n < 10 {
        digit_text(n).to_owned()
    } else {
        let text = u64_text(n / 10).concat(digit_text(n % 10));
        assert(text@ =~= decimal(n as nat));
        text
    }
}

/// Writes a length or a position in decimal.
pub fn usize_text(n: usize) -> (text: String)
    ensures
        text@ == decimal(n as nat),
{
    u64_text(n as u64)
}

/// Writes an integer in decimal.
pub fn i64_text(i: i64) -> (text: String)
    ensures
        text@ == signed_decimal(i as int),
{
    if i < 0 {
        let magnitude: u64 = (-(i as i128)) as u64;
        "-".to_owned().concat(u64_text(magnitude).as_str())
    } else {
        u64_text(i as u64)
    }
}

/// Two numbers with the same decimal numeral are the same number.
pub proof fn decimal_is_injective(a: nat, b: nat)
    requires
        decimal(a) == decimal(b),
    ensures
        a == b,
    decreases a,
{
    if a < 10 {
        if b >= 10 {
            lemma_decimal_nonempty(b / 10);
        }
        assert(decimal(a).last() == digit_char(a));
    } else {
        lemma_decimal_nonempty(a / 10);
        if b < 10 {
        } else {
            assert(decimal(a).last() == digit_char(a % 10));
            assert(decimal(b).last() == digit_char(b % 10));
            assert(decimal(a).drop_last() =~= decimal(a / 10));
            assert(decimal(b).drop_last() =~= decimal(b / 10));
            decimal_is_injective(a / 10, b / 10);
        }
    }
}

/// The decimal numeral of a number is made of digits, and begins with a zero
/// only where the number is zero.
pub proof fn numerals_are_digits(n: nat)
    ensures
        decimal(n).len() >= 1,
        forall|i: int| 0 <= i < decimal(n).len() ==> '0' <= #[trigger] decimal(n)[i] <= '9',
        decimal(n)[0] == '0' <==> n == 0,
        n == 0 ==> decimal(n).len() == 1,
    decreases n,
{
    if n >= 10 {
        numerals_are_digits(n / 10);
        assert(decimal(n)[0] == decimal(n / 10)[0]);
    }
}

proof fn lemma_decimal_nonempty(n: nat)
    ensures
        decimal(n).len() >= 1,
    decreases n,
{
    if n >= 10 {
        lemma_decimal_nonempty(n / 10);
    }
}

// Lists.

/// The parts one after the other, with `separator` between each two.
pub open spec fn joined(parts: Seq<Seq<char>>, separator: Seq<char>) -> Seq<char>
    decreases parts.len(),
{
    if parts.len() == 0 {
        Seq::empty()
    } else if parts.len() == 1 {
        parts[0]
    } else {
        joined(parts.drop_last(), separator) + separator + parts.last()
    }
}

/// The contents of a list of texts.
pub open spec fn texts(list: Seq<String>) -> Seq<Seq<char>> {
    list.map_values(|s: String| s@)
}

/// Joins texts with a separator.
pub fn join(parts: &Vec<String>, separator: &str) -> (text: String)
    ensures
        text@ == joined(texts(parts@), separator@),
{
    let mut text = String::new();
    let mut i: usize = 0;
    while i < parts.len()
        invariant
            i <= parts.len(),
            text@ == joined(texts(parts@).take(i as int), separator@),
        decreases parts.len() - i,
    {
        let ghost before = texts(parts@).take(i as int);
        let ghost after = texts(parts@).take(i + 1);
        assert(after.drop_last() =~= before);
        if i == 0 {
            text = parts[i].clone();
        } else {
            text = text.concat(separator).concat(parts[i].as_str());
        }
        i = i + 1;
    }
    assert(texts(parts@).take(parts.len() as int) =~= texts(parts@));
    text
}

// String literals.

/// The text with every single quote doubled.
pub open spec fn quotes_doubled(text: Seq<char>) -> Seq<char>
    decreases text.len(),
{
    if text.len() == 0 {
        Seq::empty()
    } else if text.last() == '\'' {
        quotes_doubled(text.drop_last()) + seq!['\'', '\'']
    } else {
        quotes_doubled(text.drop_last()).push(text.last())
    }
}

/// The SQL string literal that stands for a text.
pub open spec fn literal(text: Seq<char>) -> Seq<char> {
    seq!['\''] + quotes_doubled(text) + seq!['\'']
}

/// Writes a text as a SQL string literal.
pub fn quote_literal(text: &str) -> (quoted: String)
    ensures
        quoted@ == literal(text@),
{
    proof {
        reveal_strlit("'");
        reveal_strlit("''");
    }
    let n: usize = text.unicode_len();
    let mut inner = String::new();
    let mut i: usize = 0;
    while i < n
        invariant
            i <= n,
            n == text@.len(),
            inner@ == quotes_doubled(text@.take(i as int)),
            "''"@ =~= seq!['\'', '\''],
        decreases n - i,
    {
        let c = text.get_char(i);
        let ghost before = text@.take(i as int);
        let ghost after = text@.take(i + 1);
        assert(after.drop_last() =~= before);
        assert(after.last() == c);
        if c == '\'' {
            inner = inner.concat("''");
        } else {
            let piece = text.substring_char(i, i + 1);
            assert(piece@ =~= seq![c]);
            inner = inner.concat(piece);
            assert(inner@ =~= quotes_doubled(after));
        }
        i = i + 1;
    }
    assert(text@.take(n as int) =~= text@);
    assert("'"@ =~= seq!['\'']);
    "'".to_owned().concat(inner.as_str()).concat("'")
}

/// Reads back what stands between the quotes of a string literal: a pair of
/// quotes is one quote, and a quote on its own ends the literal. The result is
/// the text and how many characters were read, the closing quote not counted.
pub open spec fn read_literal(inner: Seq<char>) -> (Seq<char>, nat)
    decreases inner.len(),
{
    if inner.len() == 0 {
        (Seq::empty(), 0)
    } else if inner[0] != '\'' {
        let rest = read_literal(inner.drop_first());
        (seq![inner[0]] + rest.0, rest.1 + 1)
    } else if inner.len() >= 2 && inner[1] == '\'' {
        let rest = read_literal(inner.skip(2));
        (seq!['\''] + rest.0, rest.1 + 2)
    } else {
        (Seq::empty(), 0)
    }
}

/// A text quoted as a literal is read back unchanged, and the literal ends only
/// at its own closing quote, whatever the text holds and whatever follows.
pub proof fn literals_read_back(text: Seq<char>, after: Seq<char>)
    requires
        after.len() == 0 || after[0] != '\'',
    ensures
        read_literal((literal(text) + after).drop_first()) == (text, quotes_doubled(text).len()),
{
    let closing = seq!['\''] + after;
    assert((literal(text) + after).drop_first() =~= quotes_doubled(text) + closing);
    lemma_read_after(text, closing);
}

/// Reading `quotes_doubled(text)` from its front, one character of `text` at a time.
proof fn lemma_read_after(text: Seq<char>, closing: Seq<char>)
    requires
        closing.len() >= 1,
        closing[0] == '\'',
        closing.len() == 1 || closing[1] != '\'',
    ensures
        read_literal(quotes_doubled(text) + closing) == (text, quotes_doubled(text).len()),
    decreases text.len(),
{
    if text.len() == 0 {
        assert(quotes_doubled(text) + closing =~= closing);
        assert(read_literal(closing) == (Seq::<char>::empty(), 0nat));
        assert(text =~= Seq::<char>::empty());
    } else {
        let rest = text.drop_first();
        lemma_doubled_front(text);
        lemma_read_after(rest, closing);
        let whole = quotes_doubled(text) + closing;
        let tail = quotes_doubled(rest) + closing;
        if text[0] == '\'' {
            assert(whole.skip(2) =~= tail);
            assert(seq!['\''] + rest =~= text);
        } else {
            assert(whole.drop_first() =~= tail);
            assert(seq![text[0]] + rest =~= text);
        }
    }
}

proof fn lemma_doubled_front(text: Seq<char>)
    requires
        text.len() >= 1,
    ensures
        quotes_doubled(text) == (if text[0] == '\'' {
            seq!['\'', '\'']
        } else {
            seq![text[0]]
        }) + quotes_doubled(text.drop_first()),
    decreases text.len(),
{
    if text.len() == 1 {
        assert(text.drop_last() =~= Seq::<char>::empty());
        assert(text.drop_first() =~= Seq::<char>::empty());
        assert(quotes_doubled(Seq::<char>::empty()) =~= Seq::<char>::empty());
        if text[0] == '\'' {
            assert(quotes_doubled(text) =~= seq!['\'', '\''] + Seq::<char>::empty());
        } else {
            assert(quotes_doubled(text) =~= seq![text[0]] + Seq::<char>::empty());
        }
    } else {
        lemma_doubled_front(text.drop_last());
        assert(text.drop_last().drop_first() =~= text.drop_first().drop_last());
        let front = if text[0] == '\'' {
            seq!['\'', '\'']
        } else {
            seq![text[0]]
        };
        assert(quotes_doubled(text) =~= front + quotes_doubled(text.drop_first()));
    }
}

} // verus!
