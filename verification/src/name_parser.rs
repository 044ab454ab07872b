//! The grammar of distinguished names in text.
//!
//! A name is a list of pairs, `KEY=value`, with commas between them. A key is
//! a run of plain bytes; a value is a run of plain bytes, or any bytes but a
//! double quote between two double quotes. Plain are all bytes but spaces,
//! `=`, `,` and `"`. Spaces may stand before and after every key, value, `=`
//! and `,`; a name of nothing but spaces has no pairs.

use vstd::prelude::*;
use vstd::slice::{slice_subrange, slice_to_vec};

verus! {

pub const EQUALS: u8 = 0x3d;

pub const COMMA: u8 = 0x2c;

pub const QUOTE: u8 = 0x22;

/// Blank, tab, line feed and carriage return.
pub open spec fn spec_is_space(b: u8) -> bool {
    b == 0x20 || b == 0x09 || b == 0x0a || b == 0x0d
}

/// Blank, tab, line feed and carriage return.
#[verifier::when_used_as_spec(spec_is_space)]
pub fn is_space(b: u8) -> (r: bool)
    ensures
        r == spec_is_space(b),
{
    b == 0x20 || b == 0x09 || b == 0x0a || b == 0x0d
}

/// The kinds of bytes that come in runs.
#[derive(Debug, Clone, Copy, PartialEq, Eq, Structural)]
pub enum ByteClass {
    /// Spaces.
    Space,
    /// What keys and unquoted values are made of: all but spaces, `=`, `,`
    /// and `"`.
    Plain,
    /// What stands between quotes: all but `"`.
    Quoted,
}

impl ByteClass {
    /// The byte belongs to the class.
    pub open spec fn spec_has(self, b: u8) -> bool {
        match self {
            ByteClass::Space => spec_is_space(b),
            ByteClass::Plain => !spec_is_space(b) && b != EQUALS && b != COMMA && b != QUOTE,
            ByteClass::Quoted => b != QUOTE,
        }
    }

    /// The byte belongs to the class.
    #[verifier::when_used_as_spec(spec_has)]
    pub fn has(self, b: u8) -> (r: bool)
        ensures
            r == self.spec_has(b),
    {
        match self {
            ByteClass::Space => is_space(b),
            ByteClass::Plain => !is_space(b) && b != EQUALS && b != COMMA && b != QUOTE,
            ByteClass::Quoted => b != QUOTE,
        }
    }
}

/// The end of the run of bytes of a class that starts at `i`: the first
/// position from `i` on whose byte is not of the class, or the end of `s`.
pub open spec fn run_end(s: Seq<u8>, i: int, class: ByteClass) -> int
    decreases s.len() - i,
{
    if 0 <= i < s.len() && class.spec_has(s[i]) {
        run_end(s, i + 1, class)
    } else {
        i
    }
}

/// Where a pair was found: its key and its value, without the quotes, as
/// ranges of positions, and the position after the pair.
pub struct Span {
    pub key_start: usize,
    pub key_end: usize,
    pub value_start: usize,
    pub value_end: usize,
    pub next: usize,
}

/// Why a text is no name.
#[derive(Debug, Clone, Copy, PartialEq, Eq, Structural)]
pub enum NameParseError {
    /// A key is missing at the position.
    MissingKey { at: usize },
    /// The `=` after a key is missing at the position.
    MissingEquals { at: usize },
    /// A value is missing at the position.
    MissingValue { at: usize },
    /// The quote that opens at the position is not closed.
    UnclosedQuote { at: usize },
    /// Something other than a `,` follows a pair at the position.
    MissingComma { at: usize },
}

/// The pair that starts at `i`.
pub open spec fn pair_at(s: Seq<u8>, i: int) -> Result<Span, NameParseError> {
    let key_end = run_end(s, i, ByteClass::Plain);
    let eq = run_end(s, key_end, ByteClass::Space);
    let v = run_end(s, eq + 1, ByteClass::Space);
    let close = run_end(s, v + 1, ByteClass::Quoted);
    let v_end = run_end(s, v, ByteClass::Plain);
    if key_end == i {
        Err(NameParseError::MissingKey { at: i as usize })
    } else if eq >= s.len() || s[eq] != EQUALS {
        Err(NameParseError::MissingEquals { at: eq as usize })
    } else if v < s.len() && s[v] == QUOTE {
        if close >= s.len() {
            Err(NameParseError::UnclosedQuote { at: v as usize })
        } else {
            Ok(
                Span {
                    key_start: i as usize,
                    key_end: key_end as usize,
                    value_start: (v + 1) as usize,
                    value_end: close as usize,
                    next: (close + 1) as usize,
                },
            )
        }
    } else if v_end == v {
        Err(NameParseError::MissingValue { at: v as usize })
    } else {
        Ok(
            Span {
                key_start: i as usize,
                key_end: key_end as usize,
                value_start: v as usize,
                value_end: v_end as usize,
                next: v_end as usize,
            },
        )
    }
}

/// The pairs that follow a pair which ends at `i`: none where only spaces
/// follow, else those after a comma.
pub open spec fn pairs_after(s: Seq<u8>, i: int) -> Result<Seq<Span>, NameParseError>
    decreases s.len() - i,
    when 0 <= i <= s.len() <= usize::MAX
{
    let comma = run_end(s, i, ByteClass::Space);
    let start = run_end(s, comma + 1, ByteClass::Space);
    if comma >= s.len() {
        Ok(Seq::empty())
    } else if s[comma] != COMMA {
        Err(NameParseError::MissingComma { at: comma as usize })
    } else {
        match pair_at(s, start) {
            Err(e) => Err(e),
            Ok(span) => {
                proof {
                    lemma_pair_at(s, start);
                    lemma_run_end(s, i, ByteClass::Space);
                    lemma_run_end(s, comma + 1, ByteClass::Space);
                }
                match pairs_after(s, span.next as int) {
                    Err(e) => Err(e),
                    Ok(rest) => Ok(seq![span] + rest),
                }
            },
        }
    }
}

/// The pairs of a name.
pub open spec fn spans_of(s: Seq<u8>) -> Result<Seq<Span>, NameParseError> {
    let start = run_end(s, 0, ByteClass::Space);
    if start >= s.len() {
        Ok(Seq::empty())
    } else {
        match pair_at(s, start) {
            Err(e) => Err(e),
            Ok(span) => match pairs_after(s, span.next as int) {
                Err(e) => Err(e),
                Ok(rest) => Ok(seq![span] + rest),
            },
        }
    }
}

/// The key and the value that a span cuts out of a text.
pub open spec fn cut(s: Seq<u8>, span: Span) -> (Seq<u8>, Seq<u8>) {
    (
        s.subrange(span.key_start as int, span.key_end as int),
        s.subrange(span.value_start as int, span.value_end as int),
    )
}

/// The pairs of a name, as the bytes of their keys and values.
pub open spec fn parse_name(s: Seq<u8>) -> Result<Seq<(Seq<u8>, Seq<u8>)>, NameParseError> {
    match spans_of(s) {
        Ok(spans) => Ok(spans.map_values(|span: Span| cut(s, span))),
        Err(e) => Err(e),
    }
}

/// A run ends between its start and the end of the text; all bytes of the
/// run are of the class, and the byte at its end, if there is one, is not.
pub proof fn lemma_run_end(s: Seq<u8>, i: int, class: ByteClass)
    requires
        0 <= i <= s.len(),
    ensures
        i <= run_end(s, i, class) <= s.len(),
        forall|k: int| i <= k < run_end(s, i, class) ==> class.spec_has(#[trigger] s[k]),
        run_end(s, i, class) < s.len() ==> !class.spec_has(s[run_end(s, i, class)]),
    decreases s.len() - i,
{
    if i < s.len() && class.spec_has(s[i]) {
        lemma_run_end(s, i + 1, class);
    }
}

/// The parts of a pair lie in the text, one after the other, and the pair
/// is not empty.
pub proof fn lemma_pair_at(s: Seq<u8>, i: int)
    requires
        0 <= i <= s.len() <= usize::MAX,
    ensures
        pair_at(s, i) matches Ok(span) ==> {
            &&& i == span.key_start < span.key_end < span.value_start <= span.value_end
                <= span.next <= s.len()
            &&& i < span.next
        },
{
    let key_end = run_end(s, i, ByteClass::Plain);
    lemma_run_end(s, i, ByteClass::Plain);
    let eq = run_end(s, key_end, ByteClass::Space);
    lemma_run_end(s, key_end, ByteClass::Space);
    if eq < s.len() {
        let v = run_end(s, eq + 1, ByteClass::Space);
        lemma_run_end(s, eq + 1, ByteClass::Space);
        lemma_run_end(s, v, ByteClass::Plain);
        if v < s.len() {
            lemma_run_end(s, v + 1, ByteClass::Quoted);
        }
    }
}

/// Finds the end of the run of bytes of a class that starts at `i`.
pub fn scan(s: &[u8], i: usize, class: ByteClass) -> (end: usize)
    requires
        i <= s@.len(),
    ensures
        end == run_end(s@, i as int, class),
        i <= end <= s@.len(),
{
    let mut j: usize = i;
    while j < s.len() && class.has(s[j])
        invariant
            i <= j <= s@.len(),
            run_end(s@, i as int, class) == run_end(s@, j as int, class),
        decreases s@.len() - j,
    {
        j = j + 1;
    }
    j
}

/// Finds the pair that starts at `i`.
pub fn parse_pair(s: &[u8], i: usize) -> (r: Result<Span, NameParseError>)
    requires
        i <= s@.len(),
    ensures
        r == pair_at(s@, i as int),
{
    let len = s.len();
    proof {
        lemma_pair_at(s@, i as int);
    }
    let key_end = scan(s, i, ByteClass::Plain);
    if key_end == i {
        return Err(NameParseError::MissingKey { at: i });
    }
    let eq = scan(s, key_end, ByteClass::Space);
    if eq >= s.len() || s[eq] != EQUALS {
        return Err(NameParseError::MissingEquals { at: eq });
    }
    let v = scan(s, eq + 1, ByteClass::Space);
    if v < s.len() && s[v] == QUOTE {
        let close = scan(s, v + 1, ByteClass::Quoted);
        if close >= s.len() {
            return Err(NameParseError::UnclosedQuote { at: v });
        }
        Ok(
            Span {
                key_start: i,
                key_end,
                value_start: v + 1,
                value_end: close,
                next: close + 1,
            },
        )
    } else {
        let v_end = scan(s, v, ByteClass::Plain);
        if v_end == v {
            return Err(NameParseError::MissingValue { at: v });
        }
        Ok(Span { key_start: i, key_end, value_start: v, value_end: v_end, next: v_end })
    }
}

/// Finds the pairs of a name.
pub fn parse_spans(s: &[u8]) -> (r: Result<Vec<Span>, NameParseError>)
    ensures
        match r {
            Ok(spans) => spans_of(s@) == Ok::<Seq<Span>, NameParseError>(spans@),
            Err(e) => spans_of(s@) == Err::<Seq<Span>, NameParseError>(e),
        },
{
    let mut spans: Vec<Span> = Vec::new();
    let len = s.len();
    let start = scan(s, 0, ByteClass::Space);
    if start >= len {
        return Ok(spans);
    }
    let first = match parse_pair(s, start) {
        Ok(span) => span,
        Err(e) => { return Err(e); },
    };
    proof {
        lemma_pair_at(s@, start as int);
    }
    let mut pos: usize = first.next;
    spans.push(first);
    loop
        invariant
            pos <= s@.len() <= usize::MAX,
            spans_of(s@) == (match pairs_after(s@, pos as int) {
                Ok(rest) => Ok::<Seq<Span>, NameParseError>(spans@ + rest),
                Err(e) => Err(e),
            }),
        decreases s@.len() - pos,
    {
        let comma = scan(s, pos, ByteClass::Space);
        if comma >= s.len() {
            assert(spans@ + Seq::<Span>::empty() == spans@);
            return Ok(spans);
        }
        if s[comma] != COMMA {
            return Err(NameParseError::MissingComma { at: comma });
        }
        let start = scan(s, comma + 1, ByteClass::Space);
        let span = match parse_pair(s, start) {
            Ok(span) => span,
            Err(e) => { return Err(e); },
        };
        proof {
            lemma_pair_at(s@, start as int);
            match pairs_after(s@, span.next as int) {
                Ok(rest) => {
                    assert(spans@ + (seq![span] + rest) == spans@.push(span) + rest);
                },
                Err(_) => {},
            }
        }
        pos = span.next;
        spans.push(span);
    }
}

/// Cuts the keys and values of a name out of its text.
pub fn parse_pairs(s: &[u8]) -> (r: Result<Vec<(Vec<u8>, Vec<u8>)>, NameParseError>)
    ensures
        match r {
            Ok(pairs) => parse_name(s@) == Ok::<Seq<(Seq<u8>, Seq<u8>)>, NameParseError>(
                pairs@.map_values(|p: (Vec<u8>, Vec<u8>)| (p.0@, p.1@)),
            ),
            Err(e) => parse_name(s@) == Err::<Seq<(Seq<u8>, Seq<u8>)>, NameParseError>(e),
        },
{
    let len = s.len();
    let spans = match parse_spans(s) {
        Ok(spans) => spans,
        Err(e) => { return Err(e); },
    };
    proof {
        lemma_spans_in_text(s@);
    }
    let mut pairs: Vec<(Vec<u8>, Vec<u8>)> = Vec::with_capacity(spans.len());
    let mut i: usize = 0;
    while i < spans.len()
        invariant
            i <= spans.len(),
            pairs.len() == i,
            forall|k: int| 0 <= k < spans.len() ==> span_in_text(s@, #[trigger] spans@[k]),
            forall|k: int|
                0 <= k < i ==> ((#[trigger] pairs@[k]).0@, pairs@[k].1@) == cut(s@, spans@[k]),
        decreases spans.len() - i,
    {
        let span = &spans[i];
        assert(span_in_text(s@, spans@[i as int]));
        let key = slice_to_vec(slice_subrange(s, span.key_start, span.key_end));
        let value = slice_to_vec(slice_subrange(s, span.value_start, span.value_end));
        pairs.push((key, value));
        i = i + 1;
    }
    assert(pairs@.map_values(|p: (Vec<u8>, Vec<u8>)| (p.0@, p.1@)) =~= spans@.map_values(
        |span: Span| cut(s@, span),
    ));
    Ok(pairs)
}

/// The parts of a span lie in the text, one after the other.
pub open spec fn span_in_text(s: Seq<u8>, span: Span) -> bool {
    span.key_start < span.key_end < span.value_start <= span.value_end <= span.next <= s.len()
}

/// The spans after a position lie in the text.
pub proof fn lemma_pairs_after_in_text(s: Seq<u8>, i: int)
    requires
        0 <= i <= s.len() <= usize::MAX,
    ensures
        pairs_after(s, i) matches Ok(spans) ==> forall|k: int|
            0 <= k < spans.len() ==> span_in_text(s, #[trigger] spans[k]),
    decreases s.len() - i,
{
    let comma = run_end(s, i, ByteClass::Space);
    let start = run_end(s, comma + 1, ByteClass::Space);
    lemma_run_end(s, i, ByteClass::Space);
    if comma < s.len() && s[comma] == COMMA {
        lemma_run_end(s, comma + 1, ByteClass::Space);
        lemma_pair_at(s, start);
        match pair_at(s, start) {
            Ok(span) => {
                lemma_pairs_after_in_text(s, span.next as int);
            },
            Err(_) => {},
        }
    }
}

/// The spans of a name lie in its text.
pub proof fn lemma_spans_in_text(s: Seq<u8>)
    requires
        s.len() <= usize::MAX,
    ensures
        spans_of(s) matches Ok(spans) ==> forall|k: int|
            0 <= k < spans.len() ==> span_in_text(s, #[trigger] spans[k]),
{
    let start = run_end(s, 0, ByteClass::Space);
    lemma_run_end(s, 0, ByteClass::Space);
    if start < s.len() {
        lemma_pair_at(s, start);
        match pair_at(s, start) {
            Ok(span) => {
                lemma_pairs_after_in_text(s, span.next as int);
            },
            Err(_) => {},
        }
    }
}

/// All bytes are of a class.
pub open spec fn all_of(bytes: Seq<u8>, class: ByteClass) -> bool {
    forall|k: int| 0 <= k < bytes.len() ==> class.spec_has(#[trigger] bytes[k])
}

/// A key or an unquoted value: bytes that are plain, and at least one.
pub open spec fn is_token(bytes: Seq<u8>) -> bool {
    bytes.len() > 0 && all_of(bytes, ByteClass::Plain)
}

/// A pair that is found has a key that is a token, and a value that is a
/// token or stood between quotes and holds none.
pub proof fn lemma_pair_shape(s: Seq<u8>, i: int)
    requires
        0 <= i <= s.len() <= usize::MAX,
    ensures
        pair_at(s, i) matches Ok(span) ==> {
            &&& is_token(cut(s, span).0)
            &&& all_of(cut(s, span).1, ByteClass::Quoted)
            &&& is_token(cut(s, span).1) || (s[span.value_start - 1] == QUOTE && s[span.value_end as int]
                == QUOTE && span.next == span.value_end + 1)
        },
{
    lemma_pair_at(s, i);
    let key_end = run_end(s, i, ByteClass::Plain);
    lemma_run_end(s, i, ByteClass::Plain);
    let eq = run_end(s, key_end, ByteClass::Space);
    lemma_run_end(s, key_end, ByteClass::Space);
    if eq < s.len() {
        let v = run_end(s, eq + 1, ByteClass::Space);
        lemma_run_end(s, eq + 1, ByteClass::Space);
        lemma_run_end(s, v, ByteClass::Plain);
        if v < s.len() {
            lemma_run_end(s, v + 1, ByteClass::Quoted);
        }
    }
    match pair_at(s, i) {
        Ok(span) => {
            let key = cut(s, span).0;
            let value = cut(s, span).1;
            assert forall|k: int| 0 <= k < key.len() implies ByteClass::Plain.spec_has(
                #[trigger] key[k],
            ) by {
                assert(key[k] == s[span.key_start + k]);
            }
            assert forall|k: int| 0 <= k < value.len() implies ByteClass::Quoted.spec_has(
                #[trigger] value[k],
            ) by {
                assert(value[k] == s[span.value_start + k]);
            }
            if !(s[span.value_start - 1] == QUOTE && s[span.value_end as int] == QUOTE && span.next
                == span.value_end + 1) {
                assert forall|k: int| 0 <= k < value.len() implies ByteClass::Plain.spec_has(
                    #[trigger] value[k],
                ) by {
                    assert(value[k] == s[span.value_start + k]);
                }
            }
        },
        Err(_) => {},
    }
}

/// The pairs that are found after a position have keys that are tokens and
/// values without a quote.
pub proof fn lemma_pairs_after_shape(s: Seq<u8>, i: int)
    requires
        0 <= i <= s.len() <= usize::MAX,
    ensures
        pairs_after(s, i) matches Ok(spans) ==> forall|k: int|
            0 <= k < spans.len() ==> is_token(cut(s, #[trigger] spans[k]).0) && all_of(
                cut(s, spans[k]).1,
                ByteClass::Quoted,
            ),
    decreases s.len() - i,
{
    let comma = run_end(s, i, ByteClass::Space);
    let start = run_end(s, comma + 1, ByteClass::Space);
    lemma_run_end(s, i, ByteClass::Space);
    if comma < s.len() && s[comma] == COMMA {
        lemma_run_end(s, comma + 1, ByteClass::Space);
        lemma_pair_at(s, start);
        lemma_pair_shape(s, start);
        match pair_at(s, start) {
            Ok(span) => {
                lemma_pairs_after_shape(s, span.next as int);
            },
            Err(_) => {},
        }
    }
}

/// Every key of a name is a token, and no value holds a quote.
pub proof fn lemma_parsed_pairs_shape(s: Seq<u8>)
    requires
        s.len() <= usize::MAX,
    ensures
        parse_name(s) matches Ok(pairs) ==> forall|k: int|
            0 <= k < pairs.len() ==> is_token((#[trigger] pairs[k]).0) && all_of(
                pairs[k].1,
                ByteClass::Quoted,
            ),
{
    let start = run_end(s, 0, ByteClass::Space);
    lemma_run_end(s, 0, ByteClass::Space);
    if start < s.len() {
        lemma_pair_at(s, start);
        lemma_pair_shape(s, start);
        match pair_at(s, start) {
            Ok(span) => {
                lemma_pairs_after_shape(s, span.next as int);
            },
            Err(_) => {},
        }
    }
}

/// A run is known by its end: where all bytes from `i` up to `j` are of a
/// class and the byte at `j`, if there is one, is not, the run from `i` ends
/// at `j`.
pub proof fn lemma_run_ends_at(s: Seq<u8>, i: int, j: int, class: ByteClass)
    requires
        0 <= i <= j <= s.len(),
        forall|k: int| i <= k < j ==> class.spec_has(#[trigger] s[k]),
        j < s.len() ==> !class.spec_has(s[j]),
    ensures
        run_end(s, i, class) == j,
    decreases j - i,
{
    if i < j {
        lemma_run_ends_at(s, i + 1, j, class);
    }
}

/// The text of a pair: the key, ` = ` and the value.
pub open spec fn render_pair(pair: (Seq<u8>, Seq<u8>)) -> Seq<u8> {
    pair.0 + seq![0x20u8, EQUALS, 0x20u8] + pair.1
}

/// The text of the pairs after the first: each with `, ` before it.
pub open spec fn render_rest(pairs: Seq<(Seq<u8>, Seq<u8>)>) -> Seq<u8>
    decreases pairs.len(),
{
    if pairs.len() == 0 {
        Seq::empty()
    } else {
        seq![COMMA, 0x20u8] + render_pair(pairs[0]) + render_rest(pairs.drop_first())
    }
}

/// The text of a list of pairs: each pair as `key = value`, with `, `
/// between the pairs.
pub open spec fn render(pairs: Seq<(Seq<u8>, Seq<u8>)>) -> Seq<u8> {
    if pairs.len() == 0 {
        Seq::empty()
    } else {
        render_pair(pairs[0]) + render_rest(pairs.drop_first())
    }
}

/// Keys and values are all tokens.
pub open spec fn all_tokens(pairs: Seq<(Seq<u8>, Seq<u8>)>) -> bool {
    forall|k: int|
        0 <= k < pairs.len() ==> is_token((#[trigger] pairs[k]).0) && is_token(pairs[k].1)
}

/// What follows a pair in a text: nothing, or a comma.
pub open spec fn ends_pair(tail: Seq<u8>) -> bool {
    tail.len() == 0 || tail[0] == COMMA
}

/// In a text that holds the text of a pair of tokens at `at`, followed by
/// nothing or by a comma, the pair is found at `at`.
pub proof fn lemma_rendered_pair_is_found(
    front: Seq<u8>,
    pair: (Seq<u8>, Seq<u8>),
    tail: Seq<u8>,
)
    requires
        is_token(pair.0),
        is_token(pair.1),
        ends_pair(tail),
        (front + render_pair(pair) + tail).len() <= usize::MAX,
    ensures
        pair_at(front + render_pair(pair) + tail, front.len() as int) matches Ok(span) && cut(
            front + render_pair(pair) + tail,
            span,
        ) == pair && span.next == front.len() + render_pair(pair).len(),
{
    let s = front + render_pair(pair) + tail;
    let i = front.len() as int;
    let key_end = i + pair.0.len();
    let v = key_end + 3;
    let v_end = v + pair.1.len();
    assert(s.len() == v_end + tail.len());
    assert forall|k: int| i <= k < key_end implies ByteClass::Plain.spec_has(#[trigger] s[k]) by {
        assert(s[k] == pair.0[k - i]);
    }
    assert(s[key_end] == 0x20u8);
    assert(s[key_end + 1] == EQUALS);
    assert(s[key_end + 2] == 0x20u8);
    assert forall|k: int| v <= k < v_end implies ByteClass::Plain.spec_has(#[trigger] s[k]) by {
        assert(s[k] == pair.1[k - v]);
    }
    assert(s[v] == pair.1[0]);
    if v_end < s.len() {
        assert(s[v_end] == tail[0]);
    }
    lemma_run_ends_at(s, i, key_end, ByteClass::Plain);
    lemma_run_ends_at(s, key_end, key_end + 1, ByteClass::Space);
    lemma_run_ends_at(s, key_end + 2, v, ByteClass::Space);
    lemma_run_ends_at(s, v, v_end, ByteClass::Plain);
    let span = pair_at(s, i).unwrap();
    assert(cut(s, span).0 =~= pair.0);
    assert(cut(s, span).1 =~= pair.1);
}

/// In a text that ends in the text of pairs of tokens, each with `, `
/// before it, those pairs are found after the position where they start.
pub proof fn lemma_rendered_rest_is_found(front: Seq<u8>, pairs: Seq<(Seq<u8>, Seq<u8>)>)
    requires
        all_tokens(pairs),
        (front + render_rest(pairs)).len() <= usize::MAX,
    ensures
        pairs_after(front + render_rest(pairs), front.len() as int) matches Ok(spans)
            && spans.map_values(|span: Span| cut(front + render_rest(pairs), span)) == pairs,
    decreases pairs.len(),
{
    let s = front + render_rest(pairs);
    let i = front.len() as int;
    if pairs.len() == 0 {
        assert(s == front);
        lemma_run_ends_at(s, i, i, ByteClass::Space);
        assert(Seq::<Span>::empty().map_values(|span: Span| cut(s, span)) =~= pairs);
    } else {
        let first = pairs[0];
        let others = pairs.drop_first();
        let tail = render_rest(others);
        let lead = front + seq![COMMA, 0x20u8];
        assert(all_tokens(others)) by {
            assert forall|k: int| 0 <= k < others.len() implies is_token(
                (#[trigger] others[k]).0,
            ) && is_token(others[k].1) by {
                assert(others[k] == pairs[k + 1]);
            }
        }
        assert(s =~= lead + render_pair(first) + tail);
        assert(s[i] == COMMA);
        assert(s[i + 1] == 0x20u8);
        assert(s[i + 2] == first.0[0]);
        assert(ends_pair(tail)) by {
            if others.len() > 0 {
                assert(tail[0] == COMMA);
            }
        }
        lemma_run_ends_at(s, i, i, ByteClass::Space);
        lemma_run_ends_at(s, i + 1, i + 2, ByteClass::Space);
        lemma_rendered_pair_is_found(lead, first, tail);
        let span = pair_at(s, i + 2).unwrap();
        let next_front = lead + render_pair(first);
        assert(s =~= next_front + render_rest(others));
        lemma_rendered_rest_is_found(next_front, others);
        let rest = pairs_after(s, span.next as int).unwrap();
        assert((seq![span] + rest).map_values(|span: Span| cut(s, span)) =~= pairs) by {
            assert forall|k: int| 0 <= k < pairs.len() implies (seq![span] + rest).map_values(
                |span: Span| cut(s, span),
            )[k] == pairs[k] by {
                if k > 0 {
                    assert((seq![span] + rest)[k] == rest[k - 1]);
                    assert(rest.map_values(|span: Span| cut(s, span))[k - 1] == others[k - 1]);
                }
            }
        }
    }
}

/// The text of a list of pairs of tokens is a name with those very pairs.
pub proof fn lemma_rendered_name_parses_back(pairs: Seq<(Seq<u8>, Seq<u8>)>)
    requires
        all_tokens(pairs),
        render(pairs).len() <= usize::MAX,
    ensures
        parse_name(render(pairs)) == Ok::<Seq<(Seq<u8>, Seq<u8>)>, NameParseError>(pairs),
{
    let s = render(pairs);
    if pairs.len() == 0 {
        lemma_run_ends_at(s, 0, 0, ByteClass::Space);
        assert(Seq::<Span>::empty().map_values(|span: Span| cut(s, span)) =~= pairs);
    } else {
        let first = pairs[0];
        let others = pairs.drop_first();
        let tail = render_rest(others);
        let front = Seq::<u8>::empty();
        assert(all_tokens(others)) by {
            assert forall|k: int| 0 <= k < others.len() implies is_token(
                (#[trigger] others[k]).0,
            ) && is_token(others[k].1) by {
                assert(others[k] == pairs[k + 1]);
            }
        }
        assert(s =~= front + render_pair(first) + tail);
        assert(s[0] == first.0[0]);
        assert(ends_pair(tail)) by {
            if others.len() > 0 {
                assert(tail[0] == COMMA);
            }
        }
        lemma_run_ends_at(s, 0, 0, ByteClass::Space);
        lemma_rendered_pair_is_found(front, first, tail);
        let span = pair_at(s, 0).unwrap();
        let next_front = front + render_pair(first);
        assert(s =~= next_front + render_rest(others));
        lemma_rendered_rest_is_found(next_front, others);
        let rest = pairs_after(s, span.next as int).unwrap();
        assert((seq![span] + rest).map_values(|span: Span| cut(s, span)) =~= pairs) by {
            assert forall|k: int| 0 <= k < pairs.len() implies (seq![span] + rest).map_values(
                |span: Span| cut(s, span),
            )[k] == pairs[k] by {
                if k > 0 {
                    assert((seq![span] + rest)[k] == rest[k - 1]);
                    assert(rest.map_values(|span: Span| cut(s, span))[k - 1] == others[k - 1]);
                }
            }
        }
    }
}

} // verus!
