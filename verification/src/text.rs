//! Numbers and lines as text.
use vstd::prelude::*;

verus! {

/// Whether `c` is an ASCII decimal digit.
pub open spec fn is_digit(c: char) -> bool {
    '0' <= c <= '9'
}

/// The number that a sequence of decimal digits denotes, most significant digit first.
pub open spec fn digits_value(digits: Seq<char>) -> nat
    decreases digits.len(),
{
    if digits.len() == 0 {
        0
    } else {
        10 * digits_value(digits.drop_last()) + (digits.last() as nat - '0' as nat) as nat
    }
}

/// The decimal digits of `n`, without leading zeros.
pub open spec fn decimal(n: nat) -> Seq<char>
    decreases n,
{
    let digit = ('0' as nat + n % 10) as char;
    if n < 10 {
        seq![digit]
    } else {
        decimal(n / 10).push(digit)
    }
}

/// Whether `text` consists of decimal digits only.
pub open spec fn all_digits(text: Seq<char>) -> bool {
    forall|i: int| 0 <= i < text.len() ==> is_digit(#[trigger] text[i])
}

/// The `u64` that `digits` spell: decimal digits only, at least one of them, whose value a `u64`
/// can hold. `None` for anything else.
pub open spec fn u64_of_digits(digits: Seq<char>) -> Option<u64> {
    if digits.len() > 0 && all_digits(digits) && digits_value(digits) <= u64::MAX {
        Some(digits_value(digits) as u64)
    } else {
        None
    }
}

/// The `u64` that `text` spells: an optional plus sign and then the digits of a `u64`. `None` for
/// any other text.
pub open spec fn u64_of_text(text: Seq<char>) -> Option<u64> {
    if text.len() > 0 && text[0] == '+' {
        u64_of_digits(text.skip(1))
    } else {
        u64_of_digits(text)
    }
}

/// The error of parsing an integer out of a text that spells none.
#[verifier::external_type_specification]
#[verifier::external_body]
pub struct ExParseIntError(std::num::ParseIntError);

/// The error that `str::parse::<u64>` gives for a text that spells no `u64`.
pub uninterp spec fn u64_parse_error(text: Seq<char>) -> std::num::ParseIntError;

/// Calls `str::parse::<u64>`, which accepts an optional plus sign followed by decimal digits
/// only, and rejects everything else as well as values over `u64::MAX`. The error depends on
/// the text alone; which error it is for which text is left unsaid.
#[verifier::external_body]
pub(crate) fn parse_u64(text: &str) -> (parsed: Result<u64, std::num::ParseIntError>)
    ensures
        parsed == match u64_of_text(text@) {
            Some(value) => Ok::<u64, std::num::ParseIntError>(value),
            None => Err(u64_parse_error(text@)),
        },
{
    text.parse::<u64>()
}

/// The text of one decimal digit.
fn digit_text(digit: u64) -> (text: &'static str)
    requires
        digit < 10,
    ensures
        text@ == decimal(digit as nat),
{
    proof {
        reveal_strlit("0");
        reveal_strlit("1");
        reveal_strlit("2");
        reveal_strlit("3");
        reveal_strlit("4");
        reveal_strlit("5");
        reveal_strlit("6");
        reveal_strlit("7");
        reveal_strlit("8");
        reveal_strlit("9");
    }
    match digit {
        0 => "0",
        1 => "1",
        2 => "2",
        3 => "3",
        4 => "4",
        5 => "5",
        6 => "6",
        7 => "7",
        8 => "8",
        _ => "9",
    }
}

/// Writes `n` in decimal.
pub fn decimal_text(n: u64) -> (text: String)
    ensures
        text@ == decimal(n as nat),
    decreases n,
{
    let mut text = if n < 10 {
        String::new()
    } else {
        decimal_text(n / 10)
    };
    text.append(digit_text(n % 10));
    text
}

/// `decimal` writes one or more digits, whose value is the number that was written.
pub(crate) proof fn lemma_decimal(n: nat)
    ensures
        decimal(n).len() > 0,
        all_digits(decimal(n)),
        digits_value(decimal(n)) == n,
    decreases n,
{
    let digit = ('0' as nat + n % 10) as char;
    assert(is_digit(digit));
    if n < 10 {
        assert(decimal(n).drop_last() =~= seq![]);
        assert(digits_value(seq![]) == 0);
    } else {
        lemma_decimal(n / 10);
        assert(decimal(n).drop_last() =~= decimal(n / 10));
    }
}

/// What is written in decimal reads back as the same number.
pub proof fn law_decimal_reads_back(n: u64)
    ensures
        u64_of_text(decimal(n as nat)) == Some(n),
{
    lemma_decimal(n as nat);
    assert(is_digit(decimal(n as nat)[0]));
}

/// How many characters stand before the first line feed of `text`, or in all of it.
pub open spec fn first_line_len(text: Seq<char>) -> nat
    decreases text.len(),
{
    if text.len() == 0 || text[0] == '\n' {
        0
    } else {
        1 + first_line_len(text.skip(1))
    }
}

/// `line` without the carriage return at its end, if it has one.
pub open spec fn without_carriage_return(line: Seq<char>) -> Seq<char> {
    if line.len() > 0 && line.last() == '\r' {
        line.drop_last()
    } else {
        line
    }
}

/// The lines of `text`. A line ends in a line feed, or in a carriage return and a line feed,
/// neither of which belongs to it; the last line may lack that ending.
pub open spec fn lines(text: Seq<char>) -> Seq<Seq<char>>
    decreases text.len(),
{
    let end = first_line_len(text) as int;
    if text.len() == 0 {
        seq![]
    } else if end >= text.len() {
        seq![text]
    } else {
        seq![without_carriage_return(text.take(end))] + lines(text.skip(end + 1))
    }
}

/// Whether `word` stands in `text` at `at`.
pub open spec fn occurs_at(text: Seq<char>, word: Seq<char>, at: int) -> bool {
    0 <= at && at + word.len() <= text.len() && text.subrange(at, at + word.len()) == word
}

/// Whether `word` stands somewhere in `text`.
pub open spec fn occurs(text: Seq<char>, word: Seq<char>) -> bool {
    exists|at: int| occurs_at(text, word, at)
}

/// Whether a word is one that no line ending can be part of.
pub open spec fn is_word(word: Seq<char>) -> bool {
    word.len() > 0 && !word.contains('\n') && !word.contains('\r')
}

/// The first line is as long as its text, or ends at a line feed and holds no other.
pub(crate) proof fn lemma_first_line(text: Seq<char>)
    ensures
        first_line_len(text) <= text.len(),
        first_line_len(text) < text.len() ==> text[first_line_len(text) as int] == '\n',
        forall|i: int| 0 <= i < first_line_len(text) ==> #[trigger] text[i] != '\n',
    decreases text.len(),
{
    if text.len() > 0 && text[0] != '\n' {
        let rest = text.skip(1);
        lemma_first_line(rest);
        assert forall|i: int| 0 <= i < first_line_len(text) implies #[trigger] text[i] != '\n' by {
            if i > 0 {
                assert(rest[i - 1] == text[i]);
            }
        }
    }
}

/// A word stands in a text exactly when it stands in one of the text's lines.
pub(crate) proof fn lemma_word_in_lines(text: Seq<char>, word: Seq<char>)
    requires
        is_word(word),
    ensures
        occurs(text, word) <==> exists|i: int|
            0 <= i < lines(text).len() && occurs(#[trigger] lines(text)[i], word),
    decreases text.len(),
{
    let all = lines(text);
    let end = first_line_len(text) as int;
    lemma_first_line(text);
    if text.len() == 0 {
        assert forall|at: int| !occurs_at(text, word, at) by {}
    } else if end >= text.len() {
        assert(all =~= seq![text]);
        if occurs(text, word) {
            assert(occurs(all[0], word));
        }
    } else {
        let head = text.take(end);
        let first = without_carriage_return(head);
        let rest = text.skip(end + 1);
        lemma_word_in_lines(rest, word);
        assert(all =~= seq![first] + lines(rest));
        if occurs(text, word) {
            let at = choose|at: int| occurs_at(text, word, at);
            if at > end {
                assert(rest.subrange(at - end - 1, at - end - 1 + word.len()) =~= word);
                assert(occurs_at(rest, word, at - end - 1));
                let j = choose|j: int|
                    0 <= j < lines(rest).len() && occurs(#[trigger] lines(rest)[j], word);
                assert(all[j + 1] == lines(rest)[j]);
            } else {
                if at + word.len() > end {
                    assert(word[end - at] == text[end]);
                    assert(word.contains('\n'));
                }
                if at + word.len() > first.len() {
                    assert(word[end - 1 - at] == text[end - 1]);
                    assert(word.contains('\r'));
                }
                assert(first.subrange(at, at + word.len()) =~= word);
                assert(occurs_at(first, word, at));
                assert(all[0] == first);
            }
        }
        if exists|i: int| 0 <= i < all.len() && occurs(#[trigger] all[i], word) {
            let i = choose|i: int| 0 <= i < all.len() && occurs(#[trigger] all[i], word);
            if i == 0 {
                let at = choose|at: int| occurs_at(first, word, at);
                assert(text.subrange(at, at + word.len()) =~= word);
                assert(occurs_at(text, word, at));
            } else {
                assert(all[i] == lines(rest)[i - 1]);
                let at = choose|at: int| occurs_at(rest, word, at);
                assert(text.subrange(at + end + 1, at + end + 1 + word.len()) =~= word);
                assert(occurs_at(text, word, at + end + 1));
            }
        }
    }
}

/// A word stands in a line after the first exactly when it stands in what follows the first
/// line feed.
pub(crate) proof fn lemma_word_after_first_line(text: Seq<char>, word: Seq<char>)
    requires
        is_word(word),
    ensures
        (exists|i: int| 1 <= i < lines(text).len() && occurs(#[trigger] lines(text)[i], word))
            <==> first_line_len(text) < text.len() && occurs(
            text.skip(first_line_len(text) as int + 1),
            word,
        ),
{
    let all = lines(text);
    let end = first_line_len(text) as int;
    lemma_first_line(text);
    if end < text.len() {
        let rest = text.skip(end + 1);
        lemma_word_in_lines(rest, word);
        assert(all =~= seq![without_carriage_return(text.take(end))] + lines(rest));
        if exists|i: int| 1 <= i < all.len() && occurs(#[trigger] all[i], word) {
            let i = choose|i: int| 1 <= i < all.len() && occurs(#[trigger] all[i], word);
            assert(all[i] == lines(rest)[i - 1]);
        }
        if occurs(rest, word) {
            let j = choose|j: int|
                0 <= j < lines(rest).len() && occurs(#[trigger] lines(rest)[j], word);
            assert(all[j + 1] == lines(rest)[j]);
        }
    }
}

/// The characters of `text`.
pub(crate) fn characters(text: &str) -> (found: Vec<char>)
    ensures
        found@ == text@,
{
    let mut found: Vec<char> = Vec::new();
    for c in iter: text.chars()
        invariant
            iter.seq() == text@,
            found@ == text@.take(iter.index() as int),
    {
        found.push(c);
    }
    assert(text@.take(text@.len() as int) =~= text@);
    found
}

/// A number in decimal is written with the digits 0 to 9 alone, at least one of them, and with no
/// zero in front of others. Its last digit is its remainder by ten, and the others are its tenth.
pub proof fn law_decimal_digits(n: nat)
    ensures
        decimal(n).len() > 0,
        forall|i: int| 0 <= i < decimal(n).len() ==> '0' <= #[trigger] decimal(n)[i] <= '9',
        decimal(n).len() > 1 ==> decimal(n)[0] != '0',
        decimal(n).last() as int == '0' as int + n % 10,
        n < 10 <==> decimal(n).len() == 1,
        n >= 10 ==> decimal(n).drop_last() == decimal(n / 10),
        n > 0 ==> decimal(n)[0] != '0',
    decreases n,
{
    lemma_decimal(n);
    assert forall|i: int| 0 <= i < decimal(n).len() implies '0' <= #[trigger] decimal(n)[i]
        <= '9' by {
        assert(is_digit(decimal(n)[i]));
    }
    if n >= 10 {
        law_decimal_digits(n / 10);
        assert(decimal(n).drop_last() =~= decimal(n / 10));
        assert(decimal(n)[0] == decimal(n / 10)[0]);
    }
}

/// No text spells no number, and one character spells one exactly if it is a digit from 0 to 9.
pub proof fn law_one_digit(c: char)
    ensures
        u64_of_text(seq![]) is None,
        u64_of_text(seq![c]) == if '0' <= c <= '9' {
            Some((c as int - '0' as int) as u64)
        } else {
            None
        },
{
    let text = seq![c];
    assert(text.drop_last() =~= seq![]);
    assert(digits_value(text.drop_last()) == 0);
    assert(text.skip(1) =~= seq![]);
    assert(all_digits(text) <==> is_digit(text[0]));
}

/// One more digit makes ten times the number and that digit, as far as a `u64` goes; anything
/// else that follows a number makes it none.
pub proof fn law_one_more_digit(text: Seq<char>, c: char)
    requires
        text.len() > 1 || text.len() == 1 && text[0] != '+',
    ensures
        u64_of_text(text.push(c)) == match u64_of_text(text) {
            Some(value) => if '0' <= c <= '9' && 10 * value + (c as int - '0' as int) <= u64::MAX {
                Some((10 * value + (c as int - '0' as int)) as u64)
            } else {
                None
            },
            None => None,
        },
{
    let digits = if text[0] == '+' {
        text.skip(1)
    } else {
        text
    };
    let more = digits.push(c);
    if text[0] == '+' {
        assert(text.push(c).skip(1) =~= more);
    }
    assert(u64_of_text(text) == u64_of_digits(digits));
    assert(u64_of_text(text.push(c)) == u64_of_digits(more));
    assert(more.drop_last() =~= digits);
    assert(more.last() == c);
    if all_digits(more) {
        assert forall|i: int| 0 <= i < digits.len() implies is_digit(#[trigger] digits[i]) by {
            assert(is_digit(more[i]));
        }
        assert(is_digit(more[digits.len() as int]));
    }
    if all_digits(digits) && is_digit(c) {
        assert forall|i: int| 0 <= i < more.len() implies is_digit(#[trigger] more[i]) by {
            if i < digits.len() {
                assert(is_digit(digits[i]));
            }
        }
    }
}

/// A plus sign in front changes no number; a second one makes it none.
pub proof fn law_plus_sign(text: Seq<char>)
    ensures
        u64_of_text(seq!['+'] + text) == if text.len() > 0 && text[0] == '+' {
            None
        } else {
            u64_of_text(text)
        },
{
    let signed = seq!['+'] + text;
    assert(signed.skip(1) =~= text);
    if text.len() > 0 && text[0] == '+' {
        assert(!is_digit(text[0]));
    }
}

} // verus!
