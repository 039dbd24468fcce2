//! The grammar of action lists. A field names the actions that it requests in one of two
//! forms: a parenthesized list of bare names, with or without the keyword `methods` before
//! it, as in `methods(click, enter_keys)`; or the same names as plain text, separated by
//! commas, as in `click, enter_keys`. Blanks around names are ignored and one comma may
//! follow the last name. Both forms yield the names in the order in which they are written.

use crate::model::texts;
use crate::text::characters;
use vstd::prelude::*;
use vstd::string::*;

verus! {

/// A blank: a space, a tab or a line break.
pub open spec fn is_blank(c: char) -> bool {
    c == ' ' || c == '\t' || c == '\n' || c == '\r'
}

/// A character that can start a name: an ASCII letter or an underscore.
pub open spec fn is_name_start(c: char) -> bool {
    ('a' <= c && c <= 'z') || ('A' <= c && c <= 'Z') || c == '_'
}

/// A character that can stand in a name: an ASCII letter, an ASCII digit or an underscore.
pub open spec fn is_name_part(c: char) -> bool {
    is_name_start(c) || ('0' <= c && c <= '9')
}

/// A bare name: a start character followed by any number of name characters.
pub open spec fn is_identifier(s: Seq<char>) -> bool {
    s.len() > 0 && is_name_start(s[0]) && forall|i: int| 0 <= i < s.len() ==> is_name_part(s[i])
}

/// `s` without the blanks at its start.
pub open spec fn trim_start(s: Seq<char>) -> Seq<char>
    decreases s.len(),
{
    if s.len() > 0 && is_blank(s[0]) {
        trim_start(s.skip(1))
    } else {
        s
    }
}

/// `s` without the blanks at its end.
pub open spec fn trim_end(s: Seq<char>) -> Seq<char>
    decreases s.len(),
{
    if s.len() > 0 && is_blank(s.last()) {
        trim_end(s.drop_last())
    } else {
        s
    }
}

/// `s` without the blanks at its start and at its end.
pub open spec fn trim(s: Seq<char>) -> Seq<char> {
    trim_end(trim_start(s))
}

/// The pieces into which the commas of `s` cut it: one more than it has commas, none of
/// them holding a comma.
pub open spec fn segments(s: Seq<char>) -> Seq<Seq<char>>
    decreases s.len(),
{
    if s.len() == 0 {
        seq![Seq::empty()]
    } else {
        let before = segments(s.drop_last());
        if s.last() == ',' {
            before.push(Seq::empty())
        } else {
            before.drop_last().push(before.last().push(s.last()))
        }
    }
}

/// Each piece without the blanks around it.
pub open spec fn trim_all(pieces: Seq<Seq<char>>) -> Seq<Seq<char>> {
    pieces.map_values(|piece: Seq<char>| trim(piece))
}

/// Whether every one of `names` is a bare name.
pub open spec fn all_identifiers(names: Seq<Seq<char>>) -> bool {
    forall|i: int| 0 <= i < names.len() ==> is_identifier(#[trigger] names[i])
}

/// The pieces that count as names: all of them, but for a last one that is empty.
pub open spec fn named_pieces(pieces: Seq<Seq<char>>) -> Seq<Seq<char>> {
    if pieces.len() > 0 && pieces.last().len() == 0 {
        pieces.drop_last()
    } else {
        pieces
    }
}

/// The names that a comma-separated list holds: its pieces without the blanks around them,
/// the last piece left out where it is empty. `None` where one of them is not a bare name.
pub open spec fn list_items(s: Seq<char>) -> Option<Seq<Seq<char>>> {
    let names = named_pieces(trim_all(segments(s)));
    if all_identifiers(names) {
        Some(names)
    } else {
        None
    }
}

/// `t` without the keyword `methods` and the blanks after it, where an opening parenthesis
/// follows them; `t` itself otherwise.
pub open spec fn strip_keyword(t: Seq<char>) -> Seq<char> {
    let rest = trim_start(t.skip(7));
    if t.len() >= 7 && t.take(7) == "methods"@ && rest.len() > 0 && rest[0] == '(' {
        rest
    } else {
        t
    }
}

/// Whether `u` starts with an opening parenthesis and ends with a closing one.
pub open spec fn is_parenthesized(u: Seq<char>) -> bool {
    u.len() >= 2 && u[0] == '(' && u.last() == ')'
}

/// The names that an action list holds, in the order in which they are written; `None`
/// where the text is not an action list.
pub open spec fn spec_parse(s: Seq<char>) -> Option<Seq<Seq<char>>> {
    let u = strip_keyword(trim(s));
    if is_parenthesized(u) {
        list_items(u.subrange(1, u.len() - 1))
    } else {
        list_items(s)
    }
}

/// The names of the actions that one attribute requests.
#[derive(Clone, Debug, PartialEq, Eq)]
pub struct ElementMethods {
    pub methods: Vec<String>,
}

impl View for ElementMethods {
    type V = Seq<Seq<char>>;

    open spec fn view(&self) -> Seq<Seq<char>> {
        texts(self.methods@)
    }
}

/// Where the blanks at the start of `s` end, `trim_start` begins.
proof fn lemma_trim_start_skips(s: Seq<char>, k: int)
    requires
        0 <= k <= s.len(),
        forall|i: int| 0 <= i < k ==> is_blank(s[i]),
        k == s.len() || !is_blank(s[k]),
    ensures
        trim_start(s) == s.skip(k),
    decreases k,
{
    if k == 0 {
        assert(s.skip(0) =~= s);
    } else {
        lemma_trim_start_skips(s.skip(1), k - 1);
        assert(s.skip(1).skip(k - 1) =~= s.skip(k));
    }
}

/// Where the blanks at the end of `s` begin, `trim_end` ends.
proof fn lemma_trim_end_takes(s: Seq<char>, k: int)
    requires
        0 <= k <= s.len(),
        forall|i: int| k <= i < s.len() ==> is_blank(s[i]),
        k == 0 || !is_blank(s[k - 1]),
    ensures
        trim_end(s) == s.take(k),
    decreases s.len() - k,
{
    if k == s.len() {
        assert(s.take(k) =~= s);
    } else {
        lemma_trim_end_takes(s.drop_last(), k);
        assert(s.drop_last().take(k) =~= s.take(k));
    }
}

fn blank(c: char) -> (b: bool)
    ensures
        b == is_blank(c),
{
    c == ' ' || c == '\t' || c == '\n' || c == '\r'
}

fn name_start(c: char) -> (b: bool)
    ensures
        b == is_name_start(c),
{
    ('a' <= c && c <= 'z') || ('A' <= c && c <= 'Z') || c == '_'
}

fn name_part(c: char) -> (b: bool)
    ensures
        b == is_name_part(c),
{
    name_start(c) || ('0' <= c && c <= '9')
}

/// The first position from `from` on, before `to`, that holds no blank.
fn skip_blanks(chars: &Vec<char>, from: usize, to: usize) -> (r: usize)
    requires
        from <= to <= chars.len(),
    ensures
        from <= r <= to,
        chars@.subrange(r as int, to as int) == trim_start(chars@.subrange(from as int, to as int)),
{
    let mut r: usize = from;
    while r < to && blank(chars[r])
        invariant
            from <= r <= to <= chars.len(),
            forall|i: int| from <= i < r ==> is_blank(chars@[i]),
        decreases to - r,
    {
        r += 1;
    }
    proof {
        let s = chars@.subrange(from as int, to as int);
        lemma_trim_start_skips(s, r - from);
        assert(s.skip(r - from) =~= chars@.subrange(r as int, to as int));
    }
    r
}

/// The position after the last one before `to`, from `from` on, that holds no blank.
fn drop_blanks(chars: &Vec<char>, from: usize, to: usize) -> (r: usize)
    requires
        from <= to <= chars.len(),
    ensures
        from <= r <= to,
        chars@.subrange(from as int, r as int) == trim_end(chars@.subrange(from as int, to as int)),
{
    let mut r: usize = to;
    while r > from && blank(chars[r - 1])
        invariant
            from <= r <= to <= chars.len(),
            forall|i: int| r <= i < to ==> is_blank(chars@[i]),
        decreases r - from,
    {
        r -= 1;
    }
    proof {
        let s = chars@.subrange(from as int, to as int);
        lemma_trim_end_takes(s, r - from);
        assert(s.take(r - from) =~= chars@.subrange(from as int, r as int));
    }
    r
}

/// The span of `chars[from..to]` without the blanks at its start and at its end.
fn trim_span(chars: &Vec<char>, from: usize, to: usize) -> (r: (usize, usize))
    requires
        from <= to <= chars.len(),
    ensures
        from <= r.0 <= r.1 <= to,
        chars@.subrange(r.0 as int, r.1 as int) == trim(chars@.subrange(from as int, to as int)),
{
    let a = skip_blanks(chars, from, to);
    let b = drop_blanks(chars, a, to);
    (a, b)
}

/// Whether `chars[from..to]` is a bare name.
fn identifier_span(chars: &Vec<char>, from: usize, to: usize) -> (b: bool)
    requires
        from <= to <= chars.len(),
    ensures
        b == is_identifier(chars@.subrange(from as int, to as int)),
{
    let ghost s = chars@.subrange(from as int, to as int);
    if from == to {
        return false;
    }
    if !name_start(chars[from]) {
        assert(s[0] == chars@[from as int]);
        return false;
    }
    let mut i: usize = from;
    while i < to
        invariant
            from <= i <= to <= chars.len(),
            s == chars@.subrange(from as int, to as int),
            forall|j: int| 0 <= j < i - from ==> is_name_part(s[j]),
        decreases to - i,
    {
        if !name_part(chars[i]) {
            assert(s[i - from] == chars@[i as int]);
            return false;
        }
        assert(s[i - from] == chars@[i as int]);
        i += 1;
    }
    assert(s[0] == chars@[from as int]);
    true
}

/// Whether `chars[from..to]` starts with the keyword `methods`.
fn keyword_span(chars: &Vec<char>, from: usize, to: usize) -> (b: bool)
    requires
        from <= to <= chars.len(),
    ensures
        b == (to - from >= 7 && chars@.subrange(from as int, to as int).take(7) == "methods"@),
{
    proof {
        reveal_strlit("methods");
    }
    let ghost head = chars@.subrange(from as int, to as int).take(7);
    if to - from < 7 {
        return false;
    }
    let found = chars[from] == 'm' && chars[from + 1] == 'e' && chars[from + 2] == 't' && chars[from
        + 3] == 'h' && chars[from + 4] == 'o' && chars[from + 5] == 'd' && chars[from + 6] == 's';
    proof {
        assert(head[0] == chars@[from as int]);
        assert(head[1] == chars@[from + 1]);
        assert(head[2] == chars@[from + 2]);
        assert(head[3] == chars@[from + 3]);
        assert(head[4] == chars@[from + 4]);
        assert(head[5] == chars@[from + 5]);
        assert(head[6] == chars@[from + 6]);
        if found {
            assert(head =~= "methods"@);
        }
    }
    found
}

/// The names of the comma-separated list `chars[from..to]`, taken out of `text`.
#[verifier::rlimit(50)]
fn items_span(text: &str, chars: &Vec<char>, from: usize, to: usize) -> (r: Option<Vec<String>>)
    requires
        chars@ == text@,
        from <= to <= chars.len(),
    ensures
        match r {
            Some(names) => list_items(chars@.subrange(from as int, to as int)) == Some(
                texts(names@),
            ),
            None => list_items(chars@.subrange(from as int, to as int)) is None,
        },
{
    let ghost body = chars@.subrange(from as int, to as int);
    let ghost mut done: Seq<Seq<char>> = Seq::empty();
    let mut names: Vec<String> = Vec::new();
    let mut good = true;
    let mut start: usize = from;
    let mut i: usize = from;
    proof {
        assert(body.take(0) =~= Seq::<char>::empty());
        assert(body.subrange(0, 0) =~= Seq::<char>::empty());
        assert(segments(body.take(0)) =~= done.push(body.subrange(0, 0)));
    }
    while i < to
        invariant
            from <= start <= i <= to <= chars.len(),
            chars@ == text@,
            body == chars@.subrange(from as int, to as int),
            segments(body.take(i - from)) == done.push(body.subrange(start - from, i - from)),
            good ==> texts(names@) == trim_all(done),
            good ==> forall|k: int| 0 <= k < done.len() ==> is_identifier(trim(#[trigger] done[k])),
            !good ==> exists|k: int| 0 <= k < done.len() && !is_identifier(trim(#[trigger] done[k])),
        decreases to - i,
    {
        let ghost piece = body.subrange(start - from, i - from);
        proof {
            assert(body.take(i + 1 - from).drop_last() =~= body.take(i - from));
            assert(body.take(i + 1 - from).last() == chars@[i as int]);
        }
        if chars[i] == ',' {
            let (a, b) = trim_span(chars, start, i);
            proof {
                assert(chars@.subrange(start as int, i as int) =~= piece);
            }
            if good && identifier_span(chars, a, b) {
                let name = String::from_str(text.substring_char(a, b));
                let ghost names_before = names@;
                names.push(name);
                proof {
                    assert(texts(names@) =~= texts(names_before).push(trim(piece)));
                    assert(trim_all(done.push(piece))
                        =~= trim_all(done).push(trim(piece)));
                }
            } else {
                proof {
                    if good {
                        assert(done.push(piece)[done.len() as int] == piece);
                    } else {
                        let k = choose|k: int|
                            0 <= k < done.len() && !is_identifier(trim(#[trigger] done[k]));
                        assert(done.push(piece)[k] == done[k]);
                    }
                }
                good = false;
            }
            proof {
                done = done.push(piece);
                assert(body.subrange(i + 1 - from, i + 1 - from) =~= Seq::<char>::empty());
            }
            start = i + 1;
        } else {
            proof {
                assert(body.subrange(start - from, i + 1 - from) =~= piece.push(chars@[i as int]));
                assert(done.push(piece).drop_last() =~= done);
            }
        }
        i += 1;
    }
    let ghost last = body.subrange(start - from, to - from);
    let ghost trimmed = trim_all(done);
    let ghost pieces = trim_all(done.push(last));
    proof {
        assert(body.take(to - from) =~= body);
        assert(chars@.subrange(start as int, to as int) =~= last);
        assert(pieces =~= trimmed.push(trim(last)));
        assert(pieces.drop_last() =~= trimmed);
        assert(pieces.last() == trim(last));
        assert(forall|k: int| 0 <= k < done.len() ==> #[trigger] trimmed[k] == trim(done[k]));
    }
    let (a, b) = trim_span(chars, start, to);
    if !good {
        proof {
            let k = choose|k: int| 0 <= k < done.len() && !is_identifier(trim(#[trigger] done[k]));
            assert(trimmed[k] == trim(done[k]));
            assert(pieces[k] == trimmed[k]);
            assert(!is_identifier(pieces[k]));
            assert(!is_identifier(pieces.drop_last()[k]));
            assert(!is_identifier(named_pieces(pieces)[k]));
        }
        None
    } else if a == b {
        proof {
            assert(forall|k: int| 0 <= k < trimmed.len() ==> is_identifier(#[trigger] trimmed[k]));
        }
        Some(names)
    } else if identifier_span(chars, a, b) {
        let name = String::from_str(text.substring_char(a, b));
        let ghost names_before = names@;
        names.push(name);
        proof {
            assert(texts(names@) =~= texts(names_before).push(trim(last)));
            assert(forall|k: int| 0 <= k < trimmed.len() ==> is_identifier(#[trigger] trimmed[k]));
            assert forall|k: int| 0 <= k < pieces.len() implies is_identifier(
                #[trigger] pieces[k],
            ) by {
                if k < trimmed.len() {
                    assert(pieces[k] == trimmed[k]);
                }
            }
        }
        Some(names)
    } else {
        proof {
            assert(pieces[done.len() as int] == trim(last));
            assert(!is_identifier(pieces[done.len() as int]));
            assert(!is_identifier(named_pieces(pieces)[done.len() as int]));
        }
        None
    }
}

/// Where the list of `chars[from..to]` opens: after the keyword `methods` and the blanks
/// that follow it, where an opening parenthesis comes next; at `from` otherwise.
fn opening(chars: &Vec<char>, from: usize, to: usize) -> (r: usize)
    requires
        from <= to <= chars.len(),
    ensures
        from <= r <= to,
        chars@.subrange(r as int, to as int) == strip_keyword(
            chars@.subrange(from as int, to as int),
        ),
{
    let ghost t = chars@.subrange(from as int, to as int);
    if keyword_span(chars, from, to) {
        let rest = skip_blanks(chars, from + 7, to);
        proof {
            assert(t.skip(7) =~= chars@.subrange(from + 7, to as int));
            if rest < to {
                assert(chars@.subrange(rest as int, to as int)[0] == chars@[rest as int]);
            }
        }
        if rest < to && chars[rest] == '(' {
            return rest;
        }
    }
    from
}

/// Whether `chars[from..to]` stands between parentheses.
fn parenthesized_span(chars: &Vec<char>, from: usize, to: usize) -> (b: bool)
    requires
        from <= to <= chars.len(),
    ensures
        b == is_parenthesized(chars@.subrange(from as int, to as int)),
        b ==> from + 2 <= to,
{
    let ghost u = chars@.subrange(from as int, to as int);
    if to - from < 2 {
        return false;
    }
    proof {
        assert(u[0] == chars@[from as int]);
        assert(u.last() == chars@[to - 1]);
    }
    chars[from] == '(' && chars[to - 1] == ')'
}

impl ElementMethods {
    /// Reads an action list. Returns the names in the order in which they are written, or
    /// `None` where the text is not an action list.
    pub fn parse(input: &str) -> (r: Option<ElementMethods>)
        ensures
            match r {
                Some(parsed) => spec_parse(input@) == Some(parsed@),
                None => spec_parse(input@) is None,
            },
    {
        let chars = characters(input);
        let count: usize = chars.len();
        let (lo, hi) = trim_span(&chars, 0, count);
        proof {
            assert(chars@.subrange(0, count as int) =~= input@);
        }
        let open = opening(&chars, lo, hi);
        let found = if parenthesized_span(&chars, open, hi) {
            proof {
                let u = chars@.subrange(open as int, hi as int);
                assert(u.subrange(1, u.len() - 1) =~= chars@.subrange(open + 1, hi - 1));
            }
            items_span(input, &chars, open + 1, hi - 1)
        } else {
            items_span(input, &chars, 0, count)
        };
        match found {
            Some(methods) => Some(ElementMethods { methods }),
            None => None,
        }
    }
}

} // verus!
