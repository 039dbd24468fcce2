//! Small pieces of text handling that the generated operations rest on: numbers written in
//! decimal, and words looked up in a list that white space separates.

use vstd::prelude::*;
use vstd::string::*;

verus! {

/// The digit that stands for `d`, for `d` below ten.
pub open spec fn digit(d: nat) -> char {
    if d == 0 {
        '0'
    } else if d == 1 {
        '1'
    } else if d == 2 {
        '2'
    } else if d == 3 {
        '3'
    } else if d == 4 {
        '4'
    } else if d == 5 {
        '5'
    } else if d == 6 {
        '6'
    } else if d == 7 {
        '7'
    } else if d == 8 {
        '8'
    } else {
        '9'
    }
}

/// `n` written in decimal, without leading zeros.
pub open spec fn spec_decimal(n: nat) -> Seq<char>
    decreases n,
{
    if n < 10 {
        seq![digit(n)]
    } else {
        spec_decimal(n / 10).push(digit(n % 10))
    }
}

fn digit_text(d: u64) -> (r: &'static str)
    requires
        d < 10,
    ensures
        r@ == seq![digit(d as nat)],
{
    proof {
        reveal_strlit("0");
        reveal_strlit("1");
        reveal_strlit("2");
        reveal_strlit("3");
        reveal_strlit("4");
        reveal_strlit("5");
        reveal_strlit("6");
        reveal_strlit("7");
        reveal_strlit("8");
        reveal_strlit("9");
    }
    let r = if d == 0 {
        "0"
    } else if d == 1 {
        "1"
    } else if d == 2 {
        "2"
    } else if d == 3 {
        "3"
    } else if d == 4 {
        "4"
    } else if d == 5 {
        "5"
    } else if d == 6 {
        "6"
    } else if d == 7 {
        "7"
    } else if d == 8 {
        "8"
    } else {
        "9"
    };
    assert(r@ =~= seq![digit(d as nat)]);
    r
}

/// Writes `n` in decimal, without leading zeros.
pub fn decimal(n: u64) -> (r: String)
    ensures
        r@ == spec_decimal(n as nat),
    decreases n,
{
    if n < 10 {
        String::from_str(digit_text(n))
    } else {
        let mut text = decimal(n / 10);
        text.append(digit_text(n % 10));
        proof {
            assert(spec_decimal((n / 10) as nat) + seq![digit((n % 10) as nat)]
                =~= spec_decimal((n / 10) as nat).push(digit((n % 10) as nat)));
        }
        text
    }
}

/// White space: the characters at which a list of words is cut.
pub open spec fn is_white_space(c: char) -> bool {
    let code = c as u32;
    (0x09 <= code && code <= 0x0d) || code == 0x20 || code == 0x85 || code == 0xa0 || code
        == 0x1680 || (0x2000 <= code && code <= 0x200a) || code == 0x2028 || code == 0x2029
        || code == 0x202f || code == 0x205f || code == 0x3000
}

fn white_space(c: char) -> (b: bool)
    ensures
        b == is_white_space(c),
{
    let code = c as u32;
    (0x09 <= code && code <= 0x0d) || code == 0x20 || code == 0x85 || code == 0xa0 || code
        == 0x1680 || (0x2000 <= code && code <= 0x200a) || code == 0x2028 || code == 0x2029
        || code == 0x202f || code == 0x205f || code == 0x3000
}

/// Whether `text[from..to]` is a word of `text`: a run of characters other than white
/// space, as long as it can be.
pub open spec fn is_word_at(text: Seq<char>, from: int, to: int) -> bool {
    &&& 0 <= from < to <= text.len()
    &&& forall|i: int| from <= i < to ==> !is_white_space(text[i])
    &&& from == 0 || is_white_space(text[from - 1])
    &&& to == text.len() || is_white_space(text[to])
}

/// Whether `word` is one of the words of `text`.
pub open spec fn has_word(text: Seq<char>, word: Seq<char>) -> bool {
    exists|from: int, to: int| is_word_at(text, from, to) && #[trigger] text.subrange(from, to) == word
}

/// The characters of a text, one by one.
pub(crate) fn characters(text: &str) -> (r: Vec<char>)
    ensures
        r@ == text@,
{
    let mut out: Vec<char> = Vec::new();
    for c in it: text.chars()
        invariant
            out@ == it.seq().take(it.index() as int),
    {
        out.push(c);
    }
    out
}

/// Whether `chars[from..to]` reads as `word`.
fn reads_as(chars: &Vec<char>, from: usize, to: usize, word: &Vec<char>) -> (b: bool)
    requires
        from <= to <= chars.len(),
    ensures
        b == (chars@.subrange(from as int, to as int) == word@),
{
    let ghost piece = chars@.subrange(from as int, to as int);
    if to - from != word.len() {
        return false;
    }
    let mut i: usize = 0;
    while i < word.len()
        invariant
            from <= to <= chars.len(),
            to - from == word.len(),
            i <= word.len(),
            piece == chars@.subrange(from as int, to as int),
            forall|j: int| 0 <= j < i ==> piece[j] == word@[j],
        decreases word.len() - i,
    {
        if chars[from + i] != word[i] {
            assert(piece[i as int] == chars@[from + i]);
            return false;
        }
        assert(piece[i as int] == chars@[from + i]);
        i += 1;
    }
    assert(piece =~= word@);
    true
}

/// Whether `word` is one of the words of `text`, the words being what white space
/// separates.
pub fn contains_word(text: &str, word: &str) -> (b: bool)
    ensures
        b == has_word(text@, word@),
{
    let chars = characters(text);
    let wanted = characters(word);
    let count: usize = chars.len();
    let mut i: usize = 0;
    while i < count
        invariant
            i <= count,
            count == chars.len(),
            chars@ == text@,
            wanted@ == word@,
            i == 0 || i == count || is_white_space(chars@[i - 1]),
            forall|from: int, to: int|
                is_word_at(chars@, from, to) && from < i ==> #[trigger] chars@.subrange(from, to)
                    != wanted@,
        decreases count - i,
    {
        if white_space(chars[i]) {
            i += 1;
        } else {
            let mut end: usize = i + 1;
            while end < count && !white_space(chars[end])
                invariant
                    i < end <= count,
                    count == chars.len(),
                    forall|k: int| i <= k < end ==> !is_white_space(chars@[k]),
                decreases count - end,
            {
                end += 1;
            }
            proof {
                assert(is_word_at(chars@, i as int, end as int));
            }
            if reads_as(&chars, i, end, &wanted) {
                return true;
            }
            proof {
                assert forall|from: int, to: int|
                    is_word_at(chars@, from, to) && from <= end implies #[trigger] chars@.subrange(
                        from,
                        to,
                    ) != wanted@ by {
                    if from == i {
                        if to < end {
                            assert(!is_white_space(chars@[to]));
                        } else if to > end {
                            assert(is_white_space(chars@[end as int]));
                        }
                    } else if from > i {
                        if from < end {
                            assert(!is_white_space(chars@[from - 1]));
                        } else if from == end {
                            assert(!is_white_space(chars@[from - 1]));
                        }
                    }
                }
            }
            if end < count {
                i = end + 1;
            } else {
                i = count;
            }
        }
    }
    proof {
        assert forall|from: int, to: int| is_word_at(chars@, from, to) implies #[trigger] chars@.subrange(
            from,
            to,
        ) != wanted@ by {}
    }
    false
}

} // verus!
