//! Texts as sequences of characters.
use vstd::prelude::*;

verus! {

/// Tells whether two texts are the same.
pub fn same(a: &str, b: &str) -> (r: bool)
    ensures
        r == (a@ == b@),
{
    let x: &[u8] = a.as_bytes();
    let y: &[u8] = b.as_bytes();
    proof {
        vstd::utf8::encode_utf8_decode_utf8(a@);
        vstd::utf8::encode_utf8_decode_utf8(b@);
    }
    if x.len() != y.len() {
        return false;
    }
    let mut i: usize = 0;
    while i < x.len()
        invariant
            i <= x.len(),
            x.len() == y.len(),
            x@ == vstd::utf8::encode_utf8(a@),
            y@ == vstd::utf8::encode_utf8(b@),
            forall|j: int| 0 <= j < i ==> x@[j] == y@[j],
        decreases x.len() - i,
    {
        if x[i] != y[i] {
            assert(x@ != y@);
            return false;
        }
        i = i + 1;
    }
    assert(x@ =~= y@);
    true
}

/// A character of the Unicode property `White_Space`.
pub open spec fn white_space(c: char) -> bool {
    let code = c as u32;
    ||| 0x9 <= code <= 0xd
    ||| code == 0x20
    ||| code == 0x85
    ||| code == 0xa0
    ||| code == 0x1680
    ||| 0x2000 <= code <= 0x200a
    ||| code == 0x2028
    ||| code == 0x2029
    ||| code == 0x202f
    ||| code == 0x205f
    ||| code == 0x3000
}

/// A text of white space alone; the empty text is one.
pub open spec fn blank(text: Seq<char>) -> bool {
    forall|i: int| 0 <= i < text.len() ==> white_space(#[trigger] text[i])
}

/// Tells whether a text is empty or holds white space alone.
pub fn is_blank(text: &str) -> (r: bool)
    ensures
        r == blank(text@),
{
    let count: usize = text.unicode_len();
    let mut i: usize = 0;
    while i < count
        invariant
            i <= count,
            count == text@.len(),
            forall|j: int| 0 <= j < i ==> white_space(#[trigger] text@[j]),
        decreases count - i,
    {
        let code: u32 = text.get_char(i) as u32;
        let white: bool = (0x9 <= code && code <= 0xd) || code == 0x20 || code == 0x85 || code
            == 0xa0 || code == 0x1680 || (0x2000 <= code && code <= 0x200a) || code == 0x2028
            || code == 0x2029 || code == 0x202f || code == 0x205f || code == 0x3000;
        if !white {
            assert(!white_space(text@[i as int]));
            return false;
        }
        i = i + 1;
    }
    true
}

/// The text with every `part` of it, from the left, changed for `by`.
pub open spec fn replaced(text: Seq<char>, part: Seq<char>, by: Seq<char>) -> Seq<char>
    decreases text.len(),
{
    if part.len() == 0 || text.len() < part.len() {
        text
    } else if part.is_prefix_of(text) {
        by + replaced(text.skip(part.len() as int), part, by)
    } else {
        seq![text[0]] + replaced(text.skip(1), part, by)
    }
}

/// Tells whether `part` stands in `text` from the character `at` on.
fn stands_at(text: &str, at: usize, part: &str) -> (r: bool)
    requires
        at + part@.len() <= text@.len() <= usize::MAX,
    ensures
        r == part@.is_prefix_of(text@.skip(at as int)),
{
    let here: &str = text.substring_char(at, at + part.unicode_len());
    let r: bool = same(here, part);
    proof {
        let rest = text@.skip(at as int);
        assert(rest.subrange(0, part@.len() as int) =~= here@);
    }
    r
}

/// Changes every `part` of a text, from the left, for `by`.
pub fn replace(text: &str, part: &str, by: &str) -> (r: String)
    ensures
        r@ == replaced(text@, part@, by@),
{
    let size: usize = part.unicode_len();
    let count: usize = text.unicode_len();
    if size == 0 {
        return text.to_owned();
    }
    let mut out: String = String::new();
    let mut i: usize = 0;
    assert(out@ + replaced(text@.skip(0), part@, by@) =~= replaced(text@, part@, by@)) by {
        assert(text@.skip(0) =~= text@);
    }
    while count - i >= size
        invariant
            i <= count,
            count == text@.len(),
            size == part@.len(),
            size > 0,
            out@ + replaced(text@.skip(i as int), part@, by@) == replaced(text@, part@, by@),
        decreases count - i,
    {
        let ghost rest = text@.skip(i as int);
        let ghost before = out@;
        if stands_at(text, i, part) {
            out.append(by);
            i = i + size;
            assert(rest.skip(size as int) =~= text@.skip(i as int));
            assert(before + (by@ + replaced(text@.skip(i as int), part@, by@)) =~= (before + by@)
                + replaced(text@.skip(i as int), part@, by@));
        } else {
            let one: &str = text.substring_char(i, i + 1);
            out.append(one);
            i = i + 1;
            assert(one@ =~= seq![rest[0]]);
            assert(rest.skip(1) =~= text@.skip(i as int));
            assert(before + (one@ + replaced(text@.skip(i as int), part@, by@)) =~= (before
                + one@) + replaced(text@.skip(i as int), part@, by@));
        }
    }
    out.append(text.substring_char(i, count));
    assert(text@.subrange(i as int, count as int) =~= text@.skip(i as int));
    out
}

/// The character of a decimal digit.
pub open spec fn digit(n: nat) -> char {
    (48 + n) as char
}

/// The decimal form of a number.
pub open spec fn decimal(n: nat) -> Seq<char>
    decreases n,
{
    if n < 10 {
        seq![digit(n)]
    } else {
        decimal(n / 10).push(digit(n % 10))
    }
}

/// The decimal form of a number, with a minus sign where it is below zero.
pub open spec fn signed_decimal(n: int) -> Seq<char> {
    if n < 0 {
        seq!['-'] + decimal((-n) as nat)
    } else {
        decimal(n as nat)
    }
}

/// The text of a decimal digit.
fn digit_text(n: u64) -> (r: &'static str)
    requires
        n < 10,
    ensures
        r@ == seq![digit(n as nat)],
{
    proof {
        reveal_strlit("0");
        reveal_strlit("1");
        reveal_strlit("2");
        reveal_strlit("3");
        reveal_strlit("4");
        reveal_strlit("5");
        reveal_strlit("6");
        reveal_strlit("7");
        reveal_strlit("8");
        reveal_strlit("9");
    }
    let r: &'static str = if n == 0 {
        "0"
    } else if n == 1 {
        "1"
    } else if n == 2 {
        "2"
    } else if n == 3 {
        "3"
    } else if n == 4 {
        "4"
    } else if n == 5 {
        "5"
    } else if n == 6 {
        "6"
    } else if n == 7 {
        "7"
    } else if n == 8 {
        "8"
    } else {
        "9"
    };
    assert(r@ =~= seq![digit(n as nat)]);
    r
}

/// Writes a number in decimal.
pub fn decimal_text(n: u64) -> (r: String)
    ensures
        r@ == decimal(n as nat),
    decreases n,
{
    if n < 10 {
        digit_text(n).to_owned()
    } else {
        let mut r: String = decimal_text(n / 10);
        r.append(digit_text(n % 10));
        assert(r@ =~= decimal(n as nat));
        r
    }
}

/// A text of decimal digits, at least one.
pub open spec fn is_digits(text: Seq<char>) -> bool {
    &&& text.len() > 0
    &&& forall|i: int| 0 <= i < text.len() ==> '0' <= #[trigger] text[i] <= '9'
}

/// The number that decimal digits write.
pub open spec fn digits_value(text: Seq<char>) -> int
    decreases text.len(),
{
    if text.len() == 0 {
        0
    } else {
        digits_value(text.drop_last()) * 10 + (text.last() as int - 48)
    }
}

/// The whole number that a text writes: decimal digits, after a plus or minus sign or none.
pub open spec fn whole_number(text: Seq<char>) -> Option<int> {
    if is_digits(text) {
        Some(digits_value(text))
    } else if text.len() > 0 && text[0] == '+' && is_digits(text.skip(1)) {
        Some(digits_value(text.skip(1)))
    } else if text.len() > 0 && text[0] == '-' && is_digits(text.skip(1)) {
        Some(-digits_value(text.skip(1)))
    } else {
        None
    }
}

/// The decimal form of a number reads back as the number.
pub proof fn lemma_decimal_reads_back(n: nat)
    ensures
        is_digits(decimal(n)),
        digits_value(decimal(n)) == n,
    decreases n,
{
    if n < 10 {
        assert(decimal(n).drop_last() =~= Seq::<char>::empty());
        assert(digits_value(Seq::<char>::empty()) == 0);
    } else {
        lemma_decimal_reads_back(n / 10);
        assert(decimal(n).drop_last() =~= decimal(n / 10));
    }
}

/// The signed decimal form of a number reads back as the number.
pub proof fn lemma_signed_decimal_reads_back(n: int)
    ensures
        whole_number(signed_decimal(n)) == Some(n),
{
    if n < 0 {
        lemma_decimal_reads_back((-n) as nat);
        assert(signed_decimal(n).skip(1) =~= decimal((-n) as nat));
        assert(signed_decimal(n)[0] == '-');
    } else {
        lemma_decimal_reads_back(n as nat);
    }
}

} // verus!
