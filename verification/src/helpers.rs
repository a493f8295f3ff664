//! Text helpers shared by the configuration model: comparison of strings by
//! their characters, the environment-variable naming rule, decimal rendering
//! and joining.

use vstd::prelude::*;
use vstd::string::{StringExecFns, StringSliceAdditionalSpecFns};

verus! {

/// Whether two string slices hold the same characters.
pub fn same_text(a: &str, b: &str) -> (same: bool)
    ensures
        same == (a@ == b@),
{
    let left = a.as_bytes();
    let right = b.as_bytes();
    proof {
        // Equal encodings decode to equal texts, so bytes decide equality.
        vstd::utf8::encode_utf8_decode_utf8(a@);
        vstd::utf8::encode_utf8_decode_utf8(b@);
    }
    if left.len() != right.len() {
        return false;
    }
    let mut i: usize = 0;
    while i < left.len()
        invariant
            0 <= i <= left.len(),
            left.len() == right.len(),
            left@ == a.spec_bytes(),
            right@ == b.spec_bytes(),
            forall|j: int| 0 <= j < i ==> left@[j] == right@[j],
        decreases left.len() - i,
    {
        if left[i] != right[i] {
            return false;
        }
        i += 1;
    }
    assert(left@ =~= right@);
    true
}

/// Whether `char::is_alphabetic` holds of a character.
pub uninterp spec fn char_is_alphabetic(c: char) -> bool;

/// Whether `char::is_uppercase` holds of a character.
pub uninterp spec fn char_is_uppercase(c: char) -> bool;

/// Calls `char::is_alphabetic`. The contract names what the call returns and
/// claims nothing else of it: the result is a function of the character
/// alone.
#[verifier::external_body]
fn is_alphabetic(c: char) -> (alphabetic: bool)
    ensures
        alphabetic == char_is_alphabetic(c),
{
    c.is_alphabetic()
}

/// Calls `char::is_uppercase`. The contract names what the call returns and
/// claims nothing else of it: the result is a function of the character
/// alone.
#[verifier::external_body]
fn is_uppercase(c: char) -> (uppercase: bool)
    ensures
        uppercase == char_is_uppercase(c),
{
    c.is_uppercase()
}

/// Whether a character does not stand against a text being all in capitals:
/// it is no letter, or it is an uppercase one.
pub open spec fn counts_as_caps(alphabetic: bool, uppercase: bool) -> bool {
    !alphabetic || uppercase
}

/// Whether a character of which it is known if it is a letter and if it is
/// uppercase does not stand against a text being all in capitals.
pub fn is_caps_or_no_letter(alphabetic: bool, uppercase: bool) -> (caps: bool)
    ensures
        caps == counts_as_caps(alphabetic, uppercase),
{
    !alphabetic || uppercase
}

/// Whether every letter of `text` is an uppercase one.
pub fn is_all_caps(text: &str) -> (caps: bool)
    ensures
        caps == (forall|i: int|
            0 <= i < text@.len() ==> counts_as_caps(
                char_is_alphabetic(#[trigger] text@[i]),
                char_is_uppercase(text@[i]),
            )),
{
    let mut caps: bool = true;
    for c in chars: text.chars()
        invariant
            chars.seq() == text@,
            caps == (forall|i: int|
                0 <= i < chars.index() ==> counts_as_caps(
                    char_is_alphabetic(#[trigger] text@[i]),
                    char_is_uppercase(text@[i]),
                )),
    {
        if !is_caps_or_no_letter(is_alphabetic(c), is_uppercase(c)) {
            caps = false;
        }
    }
    caps
}

/// An uppercase ASCII letter.
pub open spec fn is_upper_ascii(c: char) -> bool {
    'A' <= c && c <= 'Z'
}

/// A character allowed after the first one of an environment-variable name:
/// an uppercase ASCII letter, an ASCII digit or an underscore.
pub open spec fn is_env_name_char(c: char) -> bool {
    is_upper_ascii(c) || ('0' <= c && c <= '9') || c == '_'
}

/// The naming rule for environment variables: the name is not empty, starts
/// with an uppercase ASCII letter and goes on with uppercase ASCII letters,
/// ASCII digits and underscores only.
pub open spec fn valid_env_var_name(name: Seq<char>) -> bool {
    &&& name.len() > 0
    &&& is_upper_ascii(name[0])
    &&& forall|i: int| 1 <= i < name.len() ==> is_env_name_char(#[trigger] name[i])
}

/// Decides whether `name` obeys the naming rule for environment variables.
pub fn is_valid_env_var_name(name: &str) -> (valid: bool)
    ensures
        valid == valid_env_var_name(name@),
{
    let mut empty: bool = true;
    let mut valid: bool = true;
    for c in chars: name.chars()
        invariant
            chars.seq() == name@,
            empty == (chars.index() == 0),
            valid == (empty || (is_upper_ascii(name@[0]) && forall|i: int|
                1 <= i < chars.index() ==> is_env_name_char(#[trigger] name@[i]))),
    {
        if empty {
            valid = c >= 'A' && c <= 'Z';
            empty = false;
        } else {
            let allowed = (c >= 'A' && c <= 'Z') || (c >= '0' && c <= '9') || c == '_';
            valid = valid && allowed;
        }
    }
    valid && !empty
}

/// The texts of `items` in order, with `separator` between each two.
pub open spec fn joined(items: Seq<Seq<char>>, separator: Seq<char>) -> Seq<char>
    decreases items.len(),
{
    if items.len() == 0 {
        Seq::empty()
    } else if items.len() == 1 {
        items[0]
    } else {
        joined(items.drop_last(), separator) + separator + items.last()
    }
}

/// Joins the strings of `items` in order, with `separator` between each two.
pub fn join(items: &Vec<String>, separator: &str) -> (text: String)
    ensures
        text@ == joined(items@.map_values(|item: String| item@), separator@),
{
    let ghost texts = items@.map_values(|item: String| item@);
    let mut text = String::new();
    let mut i: usize = 0;
    while i < items.len()
        invariant
            0 <= i <= items@.len(),
            texts == items@.map_values(|item: String| item@),
            text@ == joined(texts.take(i as int), separator@),
        decreases items@.len() - i,
    {
        proof {
            let next = texts.take(i + 1);
            assert(next.drop_last() =~= texts.take(i as int));
            assert(next.last() == items@[i as int]@);
            if i == 0 {
                assert(joined(texts.take(0), separator@) =~= Seq::<char>::empty());
            }
        }
        if i > 0 {
            text.append(separator);
        }
        text.append(items[i].as_str());
        proof {
            let next = texts.take(i + 1);
            if i == 0 {
                assert(text@ =~= items@[0]@);
            }
            assert(text@ =~= joined(next, separator@));
        }
        i += 1;
    }
    assert(texts.take(items@.len() as int) =~= texts);
    text
}

/// The character of a decimal digit.
pub open spec fn digit_char(digit: nat) -> char {
    if digit == 0 {
        '0'
    } else if digit == 1 {
        '1'
    } else if digit == 2 {
        '2'
    } else if digit == 3 {
        '3'
    } else if digit == 4 {
        '4'
    } else if digit == 5 {
        '5'
    } else if digit == 6 {
        '6'
    } else if digit == 7 {
        '7'
    } else if digit == 8 {
        '8'
    } else {
        '9'
    }
}

/// The decimal numeral of `number`, without leading zeros.
pub open spec fn decimal(number: nat) -> Seq<char>
    decreases number,
{
    if number < 10 {
        seq![digit_char(number)]
    } else {
        decimal(number / 10).push(digit_char(number % 10))
    }
}

/// A numeral has at least one digit.
pub proof fn lemma_decimal_not_empty(number: nat)
    ensures
        decimal(number).len() >= 1,
    decreases number,
{
    if number >= 10 {
        lemma_decimal_not_empty(number / 10);
    }
}

/// Different numbers have different numerals.
pub proof fn lemma_decimal_injective(a: nat, b: nat)
    requires
        decimal(a) == decimal(b),
    ensures
        a == b,
    decreases a,
{
    if a < 10 && b < 10 {
        assert(decimal(a)[0] == digit_char(a));
        assert(decimal(b)[0] == digit_char(b));
        lemma_digit_char_injective(a, b);
    } else if a < 10 {
        lemma_decimal_not_empty(b / 10);
        assert(decimal(b).len() >= 2);
    } else if b < 10 {
        lemma_decimal_not_empty(a / 10);
        assert(decimal(a).len() >= 2);
    } else {
        let front_a = decimal(a / 10);
        let front_b = decimal(b / 10);
        assert(decimal(a).drop_last() =~= front_a);
        assert(decimal(b).drop_last() =~= front_b);
        assert(decimal(a).last() == digit_char(a % 10));
        assert(decimal(b).last() == digit_char(b % 10));
        lemma_decimal_injective(a / 10, b / 10);
        lemma_digit_char_injective(a % 10, b % 10);
        assert(a == 10 * (a / 10) + a % 10);
        assert(b == 10 * (b / 10) + b % 10);
    }
}

/// Different digits have different characters.
pub proof fn lemma_digit_char_injective(a: nat, b: nat)
    requires
        a < 10,
        b < 10,
        digit_char(a) == digit_char(b),
    ensures
        a == b,
{
}

/// The numeral of one decimal digit.
fn digit_text(digit: u64) -> (text: &'static str)
    requires
        digit < 10,
    ensures
        text@ == seq![digit_char(digit as nat)],
{
    proof {
        reveal_strlit("0");
        reveal_strlit("1");
        reveal_strlit("2");
        reveal_strlit("3");
        reveal_strlit("4");
        reveal_strlit("5");
        reveal_strlit("6");
        reveal_strlit("7");
        reveal_strlit("8");
        reveal_strlit("9");
    }
    let text = if digit == 0 {
        "0"
    } else if digit == 1 {
        "1"
    } else if digit == 2 {
        "2"
    } else if digit == 3 {
        "3"
    } else if digit == 4 {
        "4"
    } else if digit == 5 {
        "5"
    } else if digit == 6 {
        "6"
    } else if digit == 7 {
        "7"
    } else if digit == 8 {
        "8"
    } else {
        "9"
    };
    assert(text@ =~= seq![digit_char(digit as nat)]);
    text
}

/// Writes `number` as a decimal numeral, without leading zeros.
pub fn decimal_string(number: u64) -> (text: String)
    ensures
        text@ == decimal(number as nat),
    decreases number,
{
    if number < 10 {
        String::from_str(digit_text(number))
    } else {
        let mut text = decimal_string(number / 10);
        text.append(digit_text(number % 10));
        assert(text@ =~= decimal(number as nat));
        text
    }
}

} // verus!
