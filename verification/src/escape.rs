//! HTML-safe rendering of strings.
//!
//! Two encodings are offered. [`html_escape`] makes a string safe as HTML text
//! content by turning `&`, `<` and `>` into character references.
//! [`html_attr`] additionally turns `"` into a character reference, which makes
//! the result safe inside a double-quoted attribute value.
//!
//! Neither encoding is idempotent: encoding a string twice encodes the
//! ampersands of the first pass again. A value is encoded exactly once, at the
//! place where it is put into markup.

use vstd::prelude::*;

verus! {

/// On `String::push` of the standard library: afterwards the string holds the
/// characters it held before, followed by `c`.
pub assume_specification[ String::push ](s: &mut String, c: char)
    ensures
        final(s)@ == old(s)@.push(c),
;

/// The character reference `&amp;`.
pub open spec fn amp_entity() -> Seq<char> {
    seq!['&', 'a', 'm', 'p', ';']
}

/// The character reference `&lt;`.
pub open spec fn lt_entity() -> Seq<char> {
    seq!['&', 'l', 't', ';']
}

/// The character reference `&gt;`.
pub open spec fn gt_entity() -> Seq<char> {
    seq!['&', 'g', 't', ';']
}

/// The character reference `&quot;`.
pub open spec fn quot_entity() -> Seq<char> {
    seq!['&', 'q', 'u', 'o', 't', ';']
}

/// What one character becomes when it is encoded. With `quotes` set the
/// double quote is guarded too.
pub open spec fn entity(c: char, quotes: bool) -> Seq<char> {
    if c == '&' {
        amp_entity()
    } else if c == '<' {
        lt_entity()
    } else if c == '>' {
        gt_entity()
    } else if quotes && c == '"' {
        quot_entity()
    } else {
        seq![c]
    }
}

/// The encoding of `s`: the encodings of its characters, in order.
pub open spec fn escape(s: Seq<char>, quotes: bool) -> Seq<char>
    decreases s.len(),
{
    if s.len() == 0 {
        Seq::empty()
    } else {
        escape(s.drop_last(), quotes) + entity(s.last(), quotes)
    }
}

/// `s` encoded for use as HTML text content.
pub open spec fn escape_text(s: Seq<char>) -> Seq<char> {
    escape(s, false)
}

/// `s` encoded for use inside a double-quoted HTML attribute value.
pub open spec fn escape_attribute(s: Seq<char>) -> Seq<char> {
    escape(s, true)
}

/// `s` with every occurrence of `from` replaced by `to`.
pub open spec fn replaced(s: Seq<char>, from: char, to: Seq<char>) -> Seq<char>
    decreases s.len(),
{
    if s.len() == 0 {
        Seq::empty()
    } else {
        replaced(s.drop_last(), from, to) + (if s.last() == from {
            to
        } else {
            seq![s.last()]
        })
    }
}

/// Whether the sequence `e` stands in `t` at position `i`.
pub open spec fn occurs_at(t: Seq<char>, i: int, e: Seq<char>) -> bool {
    0 <= i && i + e.len() <= t.len() && t.subrange(i, i + e.len()) == e
}

/// Whether one of the character references that the encoding produces starts
/// at position `i` of `t`.
pub open spec fn entity_at(t: Seq<char>, i: int, quotes: bool) -> bool {
    ||| occurs_at(t, i, amp_entity())
    ||| occurs_at(t, i, lt_entity())
    ||| occurs_at(t, i, gt_entity())
    ||| quotes && occurs_at(t, i, quot_entity())
}

/// The text that encoded text `t` stands for: each of the four character
/// references is turned back into its character, from left to right; all
/// other characters stay.
pub open spec fn decode(t: Seq<char>) -> Seq<char>
    decreases t.len(),
{
    if t.len() == 0 {
        Seq::empty()
    } else if occurs_at(t, 0, amp_entity()) {
        seq!['&'] + decode(t.skip(5))
    } else if occurs_at(t, 0, lt_entity()) {
        seq!['<'] + decode(t.skip(4))
    } else if occurs_at(t, 0, gt_entity()) {
        seq!['>'] + decode(t.skip(4))
    } else if occurs_at(t, 0, quot_entity()) {
        seq!['"'] + decode(t.skip(6))
    } else {
        seq![t[0]] + decode(t.skip(1))
    }
}

/// Replacing distributes over concatenation.
pub proof fn lemma_replaced_concat(a: Seq<char>, b: Seq<char>, from: char, to: Seq<char>)
    ensures
        replaced(a + b, from, to) == replaced(a, from, to) + replaced(b, from, to),
    decreases b.len(),
{
    if b.len() == 0 {
        assert(a + b == a);
    } else {
        assert((a + b).drop_last() == a + b.drop_last());
        lemma_replaced_concat(a, b.drop_last(), from, to);
    }
}

/// Replacing a character that does not occur changes nothing.
pub proof fn lemma_replaced_absent(s: Seq<char>, from: char, to: Seq<char>)
    requires
        forall|i: int| 0 <= i < s.len() ==> s[i] != from,
    ensures
        replaced(s, from, to) == s,
    decreases s.len(),
{
    if s.len() > 0 {
        lemma_replaced_absent(s.drop_last(), from, to);
        assert(s.drop_last() + seq![s.last()] == s);
    }
}

/// Replacing in a sequence of one character.
pub proof fn lemma_replaced_single(c: char, from: char, to: Seq<char>)
    ensures
        replaced(seq![c], from, to) == if c == from {
            to
        } else {
            seq![c]
        },
{
    let s = seq![c];
    assert(replaced(s.drop_last(), from, to) == Seq::<char>::empty());
    assert(Seq::<char>::empty() + to == to);
    assert(Seq::<char>::empty() + s == s);
}

/// The encoding distributes over concatenation.
pub proof fn lemma_escape_concat(a: Seq<char>, b: Seq<char>, quotes: bool)
    ensures
        escape(a + b, quotes) == escape(a, quotes) + escape(b, quotes),
    decreases b.len(),
{
    if b.len() == 0 {
        assert(a + b == a);
    } else {
        assert((a + b).drop_last() == a + b.drop_last());
        lemma_escape_concat(a, b.drop_last(), quotes);
    }
}

/// The text encoding is what three replacements give when they are made one
/// after the other: first `&`, then `<`, then `>`. The ampersand goes first, so
/// that the ampersands which the other two bring in are not encoded again.
pub proof fn lemma_escape_text_as_replacements(s: Seq<char>)
    ensures
        escape_text(s) == replaced(
            replaced(replaced(s, '&', amp_entity()), '<', lt_entity()),
            '>',
            gt_entity(),
        ),
    decreases s.len(),
{
    if s.len() > 0 {
        let c = s.last();
        lemma_escape_text_as_replacements(s.drop_last());
        let first = replaced(s.drop_last(), '&', amp_entity());
        let e1 = if c == '&' {
            amp_entity()
        } else {
            seq![c]
        };
        lemma_replaced_concat(first, e1, '<', lt_entity());
        let second = replaced(first, '<', lt_entity());
        let e2 = replaced(e1, '<', lt_entity());
        lemma_replaced_concat(second, e2, '>', gt_entity());
        if c == '&' {
            lemma_replaced_absent(amp_entity(), '<', lt_entity());
            lemma_replaced_absent(amp_entity(), '>', gt_entity());
        } else if c == '<' {
            lemma_replaced_single(c, '<', lt_entity());
            lemma_replaced_absent(lt_entity(), '>', gt_entity());
        } else {
            lemma_replaced_single(c, '<', lt_entity());
            lemma_replaced_single(c, '>', gt_entity());
        }
    }
}

/// The attribute encoding is the text encoding followed by the replacement of
/// the double quote.
pub proof fn lemma_escape_attribute_from_text(s: Seq<char>)
    ensures
        escape_attribute(s) == replaced(escape_text(s), '"', quot_entity()),
    decreases s.len(),
{
    if s.len() > 0 {
        let c = s.last();
        lemma_escape_attribute_from_text(s.drop_last());
        lemma_replaced_concat(
            escape_text(s.drop_last()),
            entity(c, false),
            '"',
            quot_entity(),
        );
        if c == '&' || c == '<' || c == '>' {
            lemma_replaced_absent(entity(c, false), '"', quot_entity());
        } else {
            lemma_replaced_single(c, '"', quot_entity());
        }
    }
}

/// Encoded text holds neither `<` nor `>`, and with `quotes` set no `"`.
pub proof fn lemma_escape_guards(s: Seq<char>, quotes: bool)
    ensures
        forall|i: int|
            0 <= i < escape(s, quotes).len() ==> {
                &&& #[trigger] escape(s, quotes)[i] != '<'
                &&& escape(s, quotes)[i] != '>'
                &&& quotes ==> escape(s, quotes)[i] != '"'
            },
    decreases s.len(),
{
    if s.len() > 0 {
        let head = escape(s.drop_last(), quotes);
        let e = entity(s.last(), quotes);
        let t = escape(s, quotes);
        lemma_escape_guards(s.drop_last(), quotes);
        assert forall|i: int| 0 <= i < t.len() implies {
            &&& #[trigger] t[i] != '<'
            &&& t[i] != '>'
            &&& quotes ==> t[i] != '"'
        } by {
            if i < head.len() {
                assert(t[i] == head[i]);
            } else {
                assert(t[i] == e[i - head.len()]);
            }
        }
    }
}

/// In encoded text every `&` is the first character of a character reference
/// that the encoding produced.
pub proof fn lemma_escape_ampersands(s: Seq<char>, quotes: bool)
    ensures
        forall|i: int|
            0 <= i < escape(s, quotes).len() && #[trigger] escape(s, quotes)[i] == '&'
                ==> entity_at(escape(s, quotes), i, quotes),
    decreases s.len(),
{
    if s.len() > 0 {
        let head = escape(s.drop_last(), quotes);
        let e = entity(s.last(), quotes);
        let t = escape(s, quotes);
        lemma_escape_ampersands(s.drop_last(), quotes);
        assert forall|i: int| 0 <= i < t.len() && #[trigger] t[i] == '&' implies entity_at(
            t,
            i,
            quotes,
        ) by {
            if i < head.len() {
                assert(head[i] == '&');
                assert(entity_at(head, i, quotes));
                assert forall|x: Seq<char>| occurs_at(head, i, x) implies occurs_at(t, i, x) by {
                    assert(t.subrange(i, i + x.len()) == head.subrange(i, i + x.len()));
                }
            } else {
                assert(t[i] == e[i - head.len()]);
                assert(i == head.len());
                assert(t.subrange(i, i + e.len()) == e);
                assert(occurs_at(t, i, e));
            }
        }
    }
}

/// Decoding takes the encoding of one character off the front.
proof fn lemma_decode_entity(c: char, rest: Seq<char>, quotes: bool)
    ensures
        decode(entity(c, quotes) + rest) == seq![c] + decode(rest),
{
    let e = entity(c, quotes);
    let t = e + rest;
    assert(t.subrange(0, e.len() as int) == e);
    assert(t.skip(e.len() as int) == rest);
    assert(t[0] == e[0]);
    if c == '&' {
        assert(occurs_at(t, 0, amp_entity()));
    } else if c == '<' {
        assert(!occurs_at(t, 0, amp_entity())) by {
            if occurs_at(t, 0, amp_entity()) {
                assert(t.subrange(0, 5)[1] == 'a');
                assert(t[1] == e[1]);
            }
        }
        assert(occurs_at(t, 0, lt_entity()));
    } else if c == '>' {
        assert(!occurs_at(t, 0, amp_entity())) by {
            if occurs_at(t, 0, amp_entity()) {
                assert(t.subrange(0, 5)[1] == 'a');
                assert(t[1] == e[1]);
            }
        }
        assert(!occurs_at(t, 0, lt_entity())) by {
            if occurs_at(t, 0, lt_entity()) {
                assert(t.subrange(0, 4)[1] == 'l');
                assert(t[1] == e[1]);
            }
        }
        assert(occurs_at(t, 0, gt_entity()));
    } else if quotes && c == '"' {
        assert(!occurs_at(t, 0, amp_entity())) by {
            if occurs_at(t, 0, amp_entity()) {
                assert(t.subrange(0, 5)[1] == 'a');
                assert(t[1] == e[1]);
            }
        }
        assert(!occurs_at(t, 0, lt_entity())) by {
            if occurs_at(t, 0, lt_entity()) {
                assert(t.subrange(0, 4)[1] == 'l');
                assert(t[1] == e[1]);
            }
        }
        assert(!occurs_at(t, 0, gt_entity())) by {
            if occurs_at(t, 0, gt_entity()) {
                assert(t.subrange(0, 4)[1] == 'g');
                assert(t[1] == e[1]);
            }
        }
        assert(occurs_at(t, 0, quot_entity()));
    } else {
        assert(t[0] == c);
        assert forall|x: Seq<char>| x.len() > 0 && x[0] == '&' implies !occurs_at(t, 0, x) by {
            if occurs_at(t, 0, x) {
                assert(t.subrange(0, x.len() as int)[0] == '&');
            }
        }
        assert(amp_entity()[0] == '&');
        assert(lt_entity()[0] == '&');
        assert(gt_entity()[0] == '&');
        assert(quot_entity()[0] == '&');
    }
}

/// Decoding undoes the encoding, for every string and for both encodings.
pub proof fn lemma_decode_escape(s: Seq<char>, quotes: bool)
    ensures
        decode(escape(s, quotes)) == s,
    decreases s.len(),
{
    if s.len() > 0 {
        let c = s[0];
        let rest = s.drop_first();
        assert(seq![c] + rest == s);
        lemma_escape_concat(seq![c], rest, quotes);
        assert(escape(seq![c], quotes) == entity(c, quotes)) by {
            assert(escape(seq![c].drop_last(), quotes) == Seq::<char>::empty());
            assert(Seq::<char>::empty() + entity(c, quotes) == entity(c, quotes));
        }
        lemma_decode_escape(rest, quotes);
        lemma_decode_entity(c, escape(rest, quotes), quotes);
    }
}

/// The encoding loses nothing: two strings with the same encoding are the
/// same string.
pub proof fn lemma_escape_injective(a: Seq<char>, b: Seq<char>, quotes: bool)
    requires
        escape(a, quotes) == escape(b, quotes),
    ensures
        a == b,
{
    lemma_decode_escape(a, quotes);
    lemma_decode_escape(b, quotes);
}

/// Returns `s` with every occurrence of the character `from` replaced by the
/// string `to`.
pub fn replace_all(s: &str, from: char, to: &str) -> (out: String)
    ensures
        out@ == replaced(s@, from, to@),
{
    let mut out = String::new();
    for c in it: s.chars()
        invariant
            it.seq() == s@,
            out@ == replaced(s@.take(it.index()), from, to@),
    {
        proof {
            let k = it.index();
            assert(s@.take(k + 1).drop_last() == s@.take(k));
            assert(s@.take(k + 1).last() == c);
        }
        if c == from {
            out.append(to);
        } else {
            out.push(c);
        }
    }
    proof {
        assert(s@.take(s@.len() as int) == s@);
    }
    out
}

/// Encodes `s` for use as HTML text content: `&` becomes `&amp;`, `<` becomes
/// `&lt;` and `>` becomes `&gt;`, in that order.
pub fn html_escape(s: &str) -> (out: String)
    ensures
        out@ == escape_text(s@),
{
    let first = replace_all(s, '&', "&amp;");
    let second = replace_all(first.as_str(), '<', "&lt;");
    let third = replace_all(second.as_str(), '>', "&gt;");
    proof {
        reveal_strlit("&amp;");
        reveal_strlit("&lt;");
        reveal_strlit("&gt;");
        assert("&amp;"@ == amp_entity());
        assert("&lt;"@ == lt_entity());
        assert("&gt;"@ == gt_entity());
        lemma_escape_text_as_replacements(s@);
    }
    third
}

/// Encodes `s` for use inside a double-quoted HTML attribute value: the text
/// encoding, and then `"` becomes `&quot;`.
pub fn html_attr(s: &str) -> (out: String)
    ensures
        out@ == escape_attribute(s@),
{
    let text = html_escape(s);
    let out = replace_all(text.as_str(), '"', "&quot;");
    proof {
        reveal_strlit("&quot;");
        assert("&quot;"@ == quot_entity());
        lemma_escape_attribute_from_text(s@);
    }
    out
}

} // verus!
