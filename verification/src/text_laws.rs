//! What holds of texts and numbers.
use vstd::prelude::*;

use crate::double::finite;
use crate::double::told;
use crate::i18n::naming;
use crate::i18n::naming_cause;
use crate::json::element_not_an_object;
use crate::json::not_an_object;
use crate::json::not_json;
use crate::text::blank;
use crate::text::decimal;
use crate::text::replaced;
use crate::text::white_space;
use crate::value::NumberKind;
use crate::value::of_signed;
use crate::value::signed;
use crate::value::unsigned;
use crate::value::valid_number;

verus! {

/// A character is white space exactly when Unicode says so: the controls from tab to carriage
/// return, the spaces, the next line and the separators.
pub proof fn law_white_space(c: char)
    ensures
        white_space(c) <==> {
            ||| '\u{9}' <= c <= '\u{d}'
            ||| c == ' '
            ||| c == '\u{85}'
            ||| c == '\u{a0}'
            ||| c == '\u{1680}'
            ||| '\u{2000}' <= c <= '\u{200a}'
            ||| c == '\u{2028}'
            ||| c == '\u{2029}'
            ||| c == '\u{202f}'
            ||| c == '\u{205f}'
            ||| c == '\u{3000}'
        },
{
    assert(' ' as u32 == 0x20);
}

/// A text is blank exactly when every character of it is white space.
pub proof fn law_blank_texts_hold_white_space_alone(text: Seq<char>)
    ensures
        blank(text) <==> forall|i: int| 0 <= i < text.len() ==> white_space(#[trigger] text[i]),
{
}

/// A text without the first character of a part stays as it is.
pub proof fn law_what_is_no_part_stays(text: Seq<char>, part: Seq<char>, by: Seq<char>)
    requires
        part.len() > 0,
        forall|i: int| 0 <= i < text.len() ==> #[trigger] text[i] != part[0],
    ensures
        replaced(text, part, by) == text,
    decreases text.len(),
{
    if text.len() >= part.len() {
        if part.is_prefix_of(text) {
            assert(text[0] == part[0]);
        }
        assert forall|i: int| 0 <= i < text.skip(1).len() implies #[trigger] text.skip(1)[i]
            != part[0] by {
            assert(text[i + 1] != part[0]);
        }
        law_what_is_no_part_stays(text.skip(1), part, by);
        assert(seq![text[0]] + text.skip(1) =~= text);
    }
}

/// A part is changed for what is given, where it first stands, and what stands before it stays.
pub proof fn law_parts_are_replaced(
    before: Seq<char>,
    part: Seq<char>,
    after: Seq<char>,
    by: Seq<char>,
)
    requires
        part.len() > 0,
        forall|i: int| 0 <= i < before.len() ==> #[trigger] before[i] != part[0],
    ensures
        replaced(before + part + after, part, by) == before + by + replaced(after, part, by),
    decreases before.len(),
{
    let text = before + part + after;
    if before.len() == 0 {
        assert(text =~= part + after);
        assert(part.is_prefix_of(text)) by {
            assert(text.subrange(0, part.len() as int) =~= part);
        }
        assert(text.skip(part.len() as int) =~= after);
        assert(before + by + replaced(after, part, by) =~= by + replaced(after, part, by));
    } else {
        let rest = before.skip(1);
        assert forall|i: int| 0 <= i < rest.len() implies #[trigger] rest[i] != part[0] by {
            assert(before[i + 1] != part[0]);
        }
        if part.is_prefix_of(text) {
            assert(text[0] == part[0]);
            assert(text[0] == before[0]);
        }
        assert(text.skip(1) =~= rest + part + after);
        assert(text[0] == before[0]);
        law_parts_are_replaced(rest, part, after, by);
        assert(seq![before[0]] + (rest + by + replaced(after, part, by)) =~= before + by + replaced(
            after,
            part,
            by,
        ));
    }
}

/// A message that names a field and ends with a cause.
proof fn lemma_named_cause(
    template: Seq<char>,
    before: Seq<char>,
    between: Seq<char>,
    key: Seq<char>,
    cause: Seq<char>,
)
    requires
        template == before + "{key}"@ + (between + "{err}"@),
        forall|i: int| 0 <= i < before.len() ==> #[trigger] before[i] != '{',
        forall|i: int| 0 <= i < between.len() ==> #[trigger] between[i] != '{',
        forall|i: int| 0 <= i < key.len() ==> #[trigger] key[i] != '{',
    ensures
        naming_cause(template, key, cause) == before + key + between + cause,
{
    reveal_strlit("{key}");
    reveal_strlit("{err}");
    let tail = between + "{err}"@;
    law_parts_are_replaced(before, "{key}"@, tail, key);
    lemma_no_key(between, key);
    let named = before + key + tail;
    assert(naming(template, key) == named);
    let front = before + key + between;
    assert(named =~= front + "{err}"@ + Seq::<char>::empty());
    assert forall|i: int| 0 <= i < front.len() implies #[trigger] front[i] != '{' by {
        if i < before.len() {
            assert(front[i] == before[i]);
        } else if i < before.len() + key.len() {
            assert(front[i] == key[i - before.len()]);
        } else {
            assert(front[i] == between[i - before.len() - key.len()]);
        }
    }
    law_parts_are_replaced(front, "{err}"@, Seq::empty(), cause);
    assert(front + cause + Seq::<char>::empty() =~= before + key + between + cause);
}

/// The name of a field is not set in for a cause.
proof fn lemma_no_key(between: Seq<char>, key: Seq<char>)
    requires
        forall|i: int| 0 <= i < between.len() ==> #[trigger] between[i] != '{',
    ensures
        replaced(between + "{err}"@, "{key}"@, key) == between + "{err}"@,
    decreases between.len(),
{
    reveal_strlit("{key}");
    reveal_strlit("{err}");
    let text = between + "{err}"@;
    if between.len() == 0 {
        assert(text =~= "{err}"@);
        assert(text[1] != "{key}"@[1]);
        assert(!"{key}"@.is_prefix_of(text));
        let rest = text.skip(1);
        assert(replaced(rest, "{key}"@, key) == rest);
        assert(seq![text[0]] + rest =~= text);
    } else {
        let rest = between.skip(1);
        assert forall|i: int| 0 <= i < rest.len() implies #[trigger] rest[i] != '{' by {
            assert(between[i + 1] != '{');
        }
        lemma_no_key(rest, key);
        assert(text.skip(1) =~= rest + "{err}"@);
        assert(text[0] == between[0]);
        assert(!"{key}"@.is_prefix_of(text)) by {
            assert("{key}"@[0] == '{');
        }
        assert(seq![text[0]] + (rest + "{err}"@) =~= text);
    }
}

/// A field that is no document is refused by its name.
pub proof fn law_refused_documents_are_named(key: Seq<char>)
    ensures
        not_an_object(key, true) == "字段 "@ + key + " 必须是 JSON 文本或对象"@,
        not_an_object(key, false) == "field "@ + key + " must be a JSON text or object"@,
{
    reveal_strlit("{key}");
    reveal_strlit("字段 {key} 必须是 JSON 文本或对象");
    reveal_strlit("字段 ");
    reveal_strlit(" 必须是 JSON 文本或对象");
    assert("字段 {key} 必须是 JSON 文本或对象"@ =~= "字段 "@ + "{key}"@ + " 必须是 JSON 文本或对象"@);
    law_parts_are_replaced("字段 "@, "{key}"@, " 必须是 JSON 文本或对象"@, key);
    law_what_is_no_part_stays(" 必须是 JSON 文本或对象"@, "{key}"@, key);
    reveal_strlit("field {key} must be a JSON text or object");
    reveal_strlit("field ");
    reveal_strlit(" must be a JSON text or object");
    assert("field {key} must be a JSON text or object"@ =~= "field "@ + "{key}"@ + " must be a JSON text or object"@);
    law_parts_are_replaced("field "@, "{key}"@, " must be a JSON text or object"@, key);
    law_what_is_no_part_stays(" must be a JSON text or object"@, "{key}"@, key);
}

/// An element that is no document is refused by the name of its field.
pub proof fn law_refused_elements_are_named(key: Seq<char>)
    ensures
        element_not_an_object(key, true) == "字段 "@ + key + " 的数组元素必须是 JSON 对象"@,
        element_not_an_object(key, false) == "field "@ + key + " array elements must be JSON objects"@,
{
    reveal_strlit("{key}");
    reveal_strlit("字段 {key} 的数组元素必须是 JSON 对象");
    reveal_strlit("字段 ");
    reveal_strlit(" 的数组元素必须是 JSON 对象");
    assert("字段 {key} 的数组元素必须是 JSON 对象"@ =~= "字段 "@ + "{key}"@ + " 的数组元素必须是 JSON 对象"@);
    law_parts_are_replaced("字段 "@, "{key}"@, " 的数组元素必须是 JSON 对象"@, key);
    law_what_is_no_part_stays(" 的数组元素必须是 JSON 对象"@, "{key}"@, key);
    reveal_strlit("field {key} array elements must be JSON objects");
    reveal_strlit("field ");
    reveal_strlit(" array elements must be JSON objects");
    assert("field {key} array elements must be JSON objects"@ =~= "field "@ + "{key}"@ + " array elements must be JSON objects"@);
    law_parts_are_replaced("field "@, "{key}"@, " array elements must be JSON objects"@, key);
    law_what_is_no_part_stays(" array elements must be JSON objects"@, "{key}"@, key);
}

/// A text that is no JSON is refused by the name of its field, with what the reader says of it.
pub proof fn law_refused_texts_are_named(key: Seq<char>, cause: Seq<char>)
    requires
        forall|i: int| 0 <= i < key.len() ==> #[trigger] key[i] != '{',
    ensures
        not_json(key, cause, true) == "字段 "@ + key + " 不是合法 JSON: "@ + cause,
        not_json(key, cause, false) == "field "@ + key + " is not valid JSON: "@ + cause,
{
    reveal_strlit("{key}");
    reveal_strlit("{err}");
    reveal_strlit("字段 {key} 不是合法 JSON: {err}");
    reveal_strlit("字段 ");
    reveal_strlit(" 不是合法 JSON: ");
    reveal_strlit(" 不是合法 JSON: {err}");
    assert("字段 {key} 不是合法 JSON: {err}"@ =~= "字段 "@ + "{key}"@ + " 不是合法 JSON: {err}"@);
    assert(" 不是合法 JSON: {err}"@ =~= " 不是合法 JSON: "@ + "{err}"@);
    lemma_named_cause("字段 {key} 不是合法 JSON: {err}"@, "字段 "@, " 不是合法 JSON: "@, key, cause);
    reveal_strlit("field {key} is not valid JSON: {err}");
    reveal_strlit("field ");
    reveal_strlit(" is not valid JSON: ");
    reveal_strlit(" is not valid JSON: {err}");
    assert("field {key} is not valid JSON: {err}"@ =~= "field "@ + "{key}"@ + " is not valid JSON: {err}"@);
    assert(" is not valid JSON: {err}"@ =~= " is not valid JSON: "@ + "{err}"@);
    lemma_named_cause("field {key} is not valid JSON: {err}"@, "field "@, " is not valid JSON: "@, key, cause);
}

/// A number in decimal has no zero in front, but for the number zero itself.
pub proof fn law_decimals_start_with_no_zero(n: nat)
    ensures
        decimal(n).len() > 0,
        n > 0 ==> decimal(n)[0] != '0',
        n == 0 ==> decimal(n) == seq!['0'],
    decreases n,
{
    if n >= 10 {
        law_decimals_start_with_no_zero(n / 10);
    }
}

/// A double is finite unless all bits of its exponent are set; what is not a number, and nothing
/// else, is told by one form of bits.
pub proof fn law_doubles_are_told_by_their_bits(bits: u64)
    ensures
        finite(bits) <==> bits & 0x7ff0000000000000 != 0x7ff0000000000000,
        finite(bits) || bits & 0x000fffffffffffff == 0 ==> told(bits) == bits,
        !finite(bits) && bits & 0x000fffffffffffff != 0 ==> told(bits) == 0x7ff8000000000000,
{
    assert((bits / 4503599627370496) % 2048 != 2047 <==> bits & 0x7ff0000000000000
        != 0x7ff0000000000000) by (bit_vector);
    assert(bits % 4503599627370496 == bits & 0x000fffffffffffff) by (bit_vector);
}

/// A whole number is read as the integer of its value, signed or unsigned, where one has it, and a
/// signed integer is written as the number of its value.
pub proof fn law_whole_numbers_are_read(kind: NumberKind, n: i64)
    ensures
        match kind {
            NumberKind::PosInt(up) => {
                &&& unsigned(kind) == Some(up)
                &&& up <= 9223372036854775807 ==> (signed(kind) matches Some(m) && m == up)
                &&& up > 9223372036854775807 ==> signed(kind) is None
            },
            NumberKind::NegInt(down) => unsigned(kind) is None && signed(kind) == Some(down),
            NumberKind::Float(_) => unsigned(kind) is None && signed(kind) is None,
        },
        signed(of_signed(n)) == Some(n),
        n >= 0 ==> of_signed(n) == NumberKind::PosInt(n as u64),
        valid_number(of_signed(n)),
        match kind {
            NumberKind::PosInt(_) => valid_number(kind),
            NumberKind::NegInt(down) => valid_number(kind) <==> down < 0,
            NumberKind::Float(bits) => valid_number(kind) <==> finite(bits),
        },
        n < 0 ==> of_signed(n) == NumberKind::NegInt(n),
{
}

} // verus!
