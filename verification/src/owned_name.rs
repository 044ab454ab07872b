//! Distinguished names as a caller writes them: pairs of a key and a value,
//! read from and shown as text.

use core::str::FromStr;
use vstd::prelude::*;
use vstd::string::*;
use vstd::utf8::*;

use crate::context::Context;
use crate::error::X509Error;
use crate::name::{name_of_pairs, owned_pair_bytes, Name};
use crate::name_parser::{
    all_tokens, cut, lemma_pair_at, lemma_rendered_name_parses_back, lemma_run_end, pair_at,
    pairs_after, parse_name, parse_spans, render, render_pair, render_rest, run_end, spans_of,
    ByteClass, NameParseError, Span, COMMA, EQUALS,
};
use vstd::slice::{slice_subrange, slice_to_vec};

verus! {

/// `String::from_utf8`: the string whose UTF-8 encoding the bytes are, if
/// they are one.
#[verifier::external_body]
fn string_from_utf8(bytes: Vec<u8>) -> (r: Option<String>)
    ensures
        r is Some <==> valid_utf8(bytes@),
        r is Some ==> r.unwrap()@ == decode_utf8(bytes@),
{
    String::from_utf8(bytes).ok()
}

/// A range of a text whose neighbours, where it has any, are ASCII bytes.
pub open spec fn clean_cut(s: Seq<u8>, start: int, end: int) -> bool {
    &&& 0 <= start <= end <= s.len()
    &&& (start == 0 || s[start - 1] < 0x80)
    &&& (end == s.len() || s[end] < 0x80)
}

/// A range of valid UTF-8 whose neighbours are ASCII bytes is valid UTF-8.
pub proof fn lemma_clean_cut_is_utf8(s: Seq<u8>, start: int, end: int)
    requires
        valid_utf8(s),
        clean_cut(s, start, end),
    ensures
        valid_utf8(s.subrange(start, end)),
{
    if end < s.len() {
        is_char_boundary_iff_not_is_continuation_byte(s, end);
    } else {
        is_char_boundary_start_end_of_seq(s);
    }
    valid_utf8_split(s, end);
    let front = s.subrange(0, end);
    if start == 0 {
        assert(front == s.subrange(start, end));
    } else {
        is_char_boundary_iff_not_is_continuation_byte(front, start - 1);
        valid_utf8_split(front, start - 1);
        let tail = front.subrange(start - 1, end);
        assert(tail.len() > 0);
        assert(tail[0] == s[start - 1]);
        assert(length_of_first_scalar(tail) == 1);
        assert(pop_first_scalar(tail) =~= s.subrange(start, end));
        assert(valid_utf8(tail));
        assert(valid_utf8(pop_first_scalar(tail))) by {
            reveal_with_fuel(valid_utf8, 2);
        }
    }
}

/// The key and the value of a span are clean cuts.
pub open spec fn span_clean(s: Seq<u8>, span: Span) -> bool {
    &&& clean_cut(s, span.key_start as int, span.key_end as int)
    &&& clean_cut(s, span.value_start as int, span.value_end as int)
}

/// The key and the value of a pair that starts after an ASCII byte, or at the
/// start of the text, are clean cuts.
pub proof fn lemma_pair_clean(s: Seq<u8>, i: int)
    requires
        0 <= i <= s.len() <= usize::MAX,
        i == 0 || s[i - 1] < 0x80,
    ensures
        pair_at(s, i) matches Ok(span) ==> span_clean(s, span),
{
    lemma_pair_at(s, i);
    let key_end = run_end(s, i, ByteClass::Plain);
    lemma_run_end(s, i, ByteClass::Plain);
    let eq = run_end(s, key_end, ByteClass::Space);
    lemma_run_end(s, key_end, ByteClass::Space);
    if eq < s.len() {
        let v = run_end(s, eq + 1, ByteClass::Space);
        lemma_run_end(s, eq + 1, ByteClass::Space);
        lemma_run_end(s, v, ByteClass::Plain);
        if v > eq + 1 {
            assert(ByteClass::Space.spec_has(s[v - 1]));
        }
        if v < s.len() {
            lemma_run_end(s, v + 1, ByteClass::Quoted);
        }
    }
}

/// The keys and values of the pairs after a position are clean cuts.
pub proof fn lemma_pairs_after_clean(s: Seq<u8>, i: int)
    requires
        0 <= i <= s.len() <= usize::MAX,
    ensures
        pairs_after(s, i) matches Ok(spans) ==> forall|k: int|
            0 <= k < spans.len() ==> span_clean(s, #[trigger] spans[k]),
    decreases s.len() - i,
{
    let comma = run_end(s, i, ByteClass::Space);
    let start = run_end(s, comma + 1, ByteClass::Space);
    lemma_run_end(s, i, ByteClass::Space);
    if comma < s.len() && s[comma] == COMMA {
        lemma_run_end(s, comma + 1, ByteClass::Space);
        if start > comma + 1 {
            assert(ByteClass::Space.spec_has(s[start - 1]));
        }
        lemma_pair_at(s, start);
        lemma_pair_clean(s, start);
        match pair_at(s, start) {
            Ok(span) => {
                lemma_pairs_after_clean(s, span.next as int);
            },
            Err(_) => {},
        }
    }
}

/// The keys and values of a name are clean cuts of its text.
pub proof fn lemma_spans_clean(s: Seq<u8>)
    requires
        s.len() <= usize::MAX,
    ensures
        spans_of(s) matches Ok(spans) ==> forall|k: int|
            0 <= k < spans.len() ==> span_clean(s, #[trigger] spans[k]),
{
    let start = run_end(s, 0, ByteClass::Space);
    lemma_run_end(s, 0, ByteClass::Space);
    if start < s.len() {
        if start > 0 {
            assert(ByteClass::Space.spec_has(s[start - 1]));
        }
        lemma_pair_at(s, start);
        lemma_pair_clean(s, start);
        match pair_at(s, start) {
            Ok(span) => {
                lemma_pairs_after_clean(s, span.next as int);
            },
            Err(_) => {},
        }
    }
}

/// A distinguished name as pairs of a key and a value.
#[derive(Debug, Clone, PartialEq, Eq)]
pub struct OwnedName(pub Vec<(String, String)>);

/// The text of a list of pairs: each pair as its key, ` = ` and its value,
/// with `, ` between the pairs.
pub open spec fn display_text(pairs: Seq<(String, String)>) -> Seq<char>
    decreases pairs.len(),
{
    if pairs.len() == 0 {
        Seq::empty()
    } else if pairs.len() == 1 {
        pairs[0].0@ + " = "@ + pairs[0].1@
    } else {
        display_text(pairs.drop_last()) + ", "@ + pairs.last().0@ + " = "@ + pairs.last().1@
    }
}

/// Cuts a range out of a text that is valid UTF-8, as a string.
fn cut_string(s: &[u8], start: usize, end: usize) -> (text: String)
    requires
        valid_utf8(s@),
        clean_cut(s@, start as int, end as int),
    ensures
        encode_utf8(text@) == s@.subrange(start as int, end as int),
{
    proof {
        lemma_clean_cut_is_utf8(s@, start as int, end as int);
        decode_utf8_encode_utf8(s@.subrange(start as int, end as int));
    }
    match string_from_utf8(slice_to_vec(slice_subrange(s, start, end))) {
        Some(text) => text,
        None => String::new(),
    }
}

impl OwnedName {
    /// The pairs as the bytes of their keys and values.
    pub open spec fn pair_bytes(&self) -> Seq<(Seq<u8>, Seq<u8>)> {
        owned_pair_bytes(self.0@)
    }

    /// The name that the pairs give: see [`Name::from_pairs`].
    pub fn to_x509_name<'a>(&self, context: &'a Context) -> (r: Result<Name<'a>, X509Error>)
        ensures
            name_of_pairs(r, self.pair_bytes()),
    {
        Name::from_owned_pairs(context, self.0.as_slice())
    }

    /// Reads a name from text of the form `KEY=value, KEY="quoted value"`.
    pub fn parse(s: &str) -> (r: Result<OwnedName, NameParseError>)
        ensures
            match r {
                Ok(name) => parse_name(s.spec_bytes()) == Ok::<
                    Seq<(Seq<u8>, Seq<u8>)>,
                    NameParseError,
                >(name.pair_bytes()),
                Err(e) => parse_name(s.spec_bytes()) == Err::<
                    Seq<(Seq<u8>, Seq<u8>)>,
                    NameParseError,
                >(e),
            },
    {
        broadcast use encode_utf8_valid_utf8;

        let bytes = s.as_bytes();
        let len = bytes.len();
        let spans = match parse_spans(bytes) {
            Ok(spans) => spans,
            Err(e) => { return Err(e); },
        };
        proof {
            lemma_spans_clean(bytes@);
        }
        let mut pairs: Vec<(String, String)> = Vec::with_capacity(spans.len());
        let mut i: usize = 0;
        while i < spans.len()
            invariant
                i <= spans.len(),
                pairs.len() == i,
                valid_utf8(bytes@),
                forall|k: int| 0 <= k < spans.len() ==> span_clean(bytes@, #[trigger] spans@[k]),
                forall|k: int|
                    0 <= k < i ==> (encode_utf8((#[trigger] pairs@[k]).0@), encode_utf8(
                        pairs@[k].1@,
                    )) == cut(bytes@, spans@[k]),
            decreases spans.len() - i,
        {
            let span = &spans[i];
            assert(span_clean(bytes@, spans@[i as int]));
            let key = cut_string(bytes, span.key_start, span.key_end);
            let value = cut_string(bytes, span.value_start, span.value_end);
            pairs.push((key, value));
            i = i + 1;
        }
        assert(owned_pair_bytes(pairs@) =~= spans@.map_values(|span: Span| cut(bytes@, span)));
        Ok(OwnedName(pairs))
    }

    /// The name as text: each pair as `key = value`, with `, ` between the
    /// pairs.
    pub fn to_display_string(&self) -> (text: String)
        ensures
            text@ == display_text(self.0@),
    {
        let mut text = String::new();
        let mut i: usize = 0;
        while i < self.0.len()
            invariant
                i <= self.0.len(),
                text@ == display_text(self.0@.take(i as int)),
            decreases self.0.len() - i,
        {
            let ghost before = self.0@.take(i as int);
            let ghost now = self.0@.take(i + 1);
            proof {
                assert(now.drop_last() == before);
                assert(now.last() == self.0@[i as int]);
                if i == 0 {
                    assert(Seq::<char>::empty() + now[0].0@ == now[0].0@);
                }
            }
            if i > 0 {
                text.append(", ");
            }
            text.append(self.0[i].0.as_str());
            text.append(" = ");
            text.append(self.0[i].1.as_str());
            i = i + 1;
        }
        assert(self.0@.take(i as int) == self.0@);
        text
    }
}

/// The encoding of two texts, one after the other, is the encoding of the
/// first followed by that of the second.
pub proof fn lemma_encode_utf8_concat(a: Seq<char>, b: Seq<char>)
    ensures
        encode_utf8(a + b) == encode_utf8(a) + encode_utf8(b),
    decreases a.len(),
{
    if a.len() == 0 {
        assert(a + b == b);
        assert(encode_utf8(a) + encode_utf8(b) == encode_utf8(b));
    } else {
        assert((a + b).drop_first() == a.drop_first() + b);
        assert((a + b)[0] == a[0]);
        lemma_encode_utf8_concat(a.drop_first(), b);
        assert(encode_utf8(a + b) =~= encode_utf8(a) + encode_utf8(b));
    }
}

/// The bytes of the two separators of a shown name.
pub proof fn lemma_separator_bytes()
    ensures
        encode_utf8(" = "@) == seq![0x20u8, EQUALS, 0x20u8],
        encode_utf8(", "@) == seq![COMMA, 0x20u8],
{
    reveal_strlit(" = ");
    reveal_strlit(", ");
    let a = " = "@;
    let b = ", "@;
    assert(is_ascii_chars(a));
    assert(is_ascii_chars(b));
    is_ascii_chars_encode_utf8(a);
    is_ascii_chars_encode_utf8(b);
    assert(encode_utf8(a)[0] == a[0] as u8);
    assert(encode_utf8(a)[1] == a[1] as u8);
    assert(encode_utf8(a)[2] == a[2] as u8);
    assert(encode_utf8(b)[0] == b[0] as u8);
    assert(encode_utf8(b)[1] == b[1] as u8);
    assert(encode_utf8(a) =~= seq![0x20u8, EQUALS, 0x20u8]);
    assert(encode_utf8(b) =~= seq![COMMA, 0x20u8]);
}

/// The text of pairs with one more pair at their end.
pub proof fn lemma_render_rest_push(pairs: Seq<(Seq<u8>, Seq<u8>)>, pair: (Seq<u8>, Seq<u8>))
    ensures
        render_rest(pairs.push(pair)) == render_rest(pairs) + seq![COMMA, 0x20u8] + render_pair(
            pair,
        ),
    decreases pairs.len(),
{
    if pairs.len() == 0 {
        assert(pairs.push(pair).drop_first() =~= pairs);
        assert(render_rest(pairs.push(pair)) =~= seq![COMMA, 0x20u8] + render_pair(pair));
    } else {
        assert(pairs.push(pair).drop_first() =~= pairs.drop_first().push(pair));
        assert(pairs.push(pair)[0] == pairs[0]);
        lemma_render_rest_push(pairs.drop_first(), pair);
        assert(render_rest(pairs.push(pair)) =~= render_rest(pairs) + seq![COMMA, 0x20u8]
            + render_pair(pair));
    }
}

/// The bytes of a shown name are the text of the bytes of its pairs.
pub proof fn lemma_display_bytes(pairs: Seq<(String, String)>)
    ensures
        encode_utf8(display_text(pairs)) == render(owned_pair_bytes(pairs)),
    decreases pairs.len(),
{
    let bytes = owned_pair_bytes(pairs);
    lemma_separator_bytes();
    if pairs.len() == 0 {
    } else {
        let last = pairs.last();
        let shown = last.0@ + " = "@ + last.1@;
        assert(encode_utf8(shown) == render_pair(bytes.last())) by {
            lemma_encode_utf8_concat(last.0@ + " = "@, last.1@);
            lemma_encode_utf8_concat(last.0@, " = "@);
        }
        if pairs.len() == 1 {
            assert(bytes.drop_first().len() == 0);
            assert(render(bytes) =~= render_pair(bytes[0]));
            assert(display_text(pairs) == shown);
        } else {
            let front = pairs.drop_last();
            lemma_display_bytes(front);
            assert(owned_pair_bytes(front) =~= bytes.drop_last());
            let front_bytes = bytes.drop_last();
            assert(bytes =~= front_bytes.push(bytes.last()));
            assert(front_bytes.drop_first().push(bytes.last()) =~= bytes.drop_first());
            assert(front_bytes[0] == bytes[0]);
            lemma_render_rest_push(front_bytes.drop_first(), bytes.last());
            assert(display_text(pairs) =~= display_text(front) + (", "@ + shown));
            lemma_encode_utf8_concat(display_text(front), ", "@ + shown);
            lemma_encode_utf8_concat(", "@, shown);
            assert(render(bytes) =~= render(front_bytes) + seq![COMMA, 0x20u8] + render_pair(
                bytes.last(),
            ));
            assert(encode_utf8(display_text(pairs)) =~= render(bytes));
        }
    }
}

/// A name whose keys and values are all tokens reads back from the text that
/// it is shown as.
pub proof fn lemma_display_parses_back(name: OwnedName)
    requires
        all_tokens(name.pair_bytes()),
        encode_utf8(display_text(name.0@)).len() <= usize::MAX,
    ensures
        parse_name(encode_utf8(display_text(name.0@))) == Ok::<
            Seq<(Seq<u8>, Seq<u8>)>,
            NameParseError,
        >(name.pair_bytes()),
{
    lemma_display_bytes(name.0@);
    lemma_rendered_name_parses_back(name.pair_bytes());
}

impl NameParseError {
    /// What is missing, in words.
    pub open spec fn message_text(&self) -> Seq<char> {
        match self {
            NameParseError::MissingKey { .. } => "expected a key"@,
            NameParseError::MissingEquals { .. } => "expected `=` after the key"@,
            NameParseError::MissingValue { .. } => "expected a value"@,
            NameParseError::UnclosedQuote { .. } => "the quote is not closed"@,
            NameParseError::MissingComma { .. } => "expected `,` between pairs"@,
        }
    }

    /// What is missing, in words.
    pub fn message(&self) -> (text: String)
        ensures
            text@ == self.message_text(),
    {
        match self {
            NameParseError::MissingKey { .. } => "expected a key".to_string(),
            NameParseError::MissingEquals { .. } => "expected `=` after the key".to_string(),
            NameParseError::MissingValue { .. } => "expected a value".to_string(),
            NameParseError::UnclosedQuote { .. } => "the quote is not closed".to_string(),
            NameParseError::MissingComma { .. } => "expected `,` between pairs".to_string(),
        }
    }

    /// The position in the text at which it is missing.
    pub fn position(&self) -> (at: usize)
        ensures
            at == (match self {
                NameParseError::MissingKey { at } => *at,
                NameParseError::MissingEquals { at } => *at,
                NameParseError::MissingValue { at } => *at,
                NameParseError::UnclosedQuote { at } => *at,
                NameParseError::MissingComma { at } => *at,
            }),
    {
        match self {
            NameParseError::MissingKey { at } => *at,
            NameParseError::MissingEquals { at } => *at,
            NameParseError::MissingValue { at } => *at,
            NameParseError::UnclosedQuote { at } => *at,
            NameParseError::MissingComma { at } => *at,
        }
    }
}

impl FromStr for OwnedName {
    type Err = String;

    /// Reads a name as [`OwnedName::parse`] does; where the text is no name,
    /// the error is the message of what is missing.
    fn from_str(s: &str) -> (r: Result<Self, String>)
        ensures
            match r {
                Ok(name) => parse_name(s.spec_bytes()) == Ok::<
                    Seq<(Seq<u8>, Seq<u8>)>,
                    NameParseError,
                >(name.pair_bytes()),
                Err(text) => parse_name(s.spec_bytes()) matches Err(e) && text@
                    == e.message_text(),
            },
    {
        match OwnedName::parse(s) {
            Ok(name) => Ok(name),
            Err(e) => Err(e.message()),
        }
    }
}

} // verus!
