//! The fields of a span as the logging framework hands them over: one
//! text, with a space between two pairs and an equals sign between a key
//! and its value.

use crate::event::{fields_view, SpanFrame};
use crate::plain::{strip_markers, stripped};
use crate::text::views_of;
use vstd::prelude::*;
use vstd::string::*;

verus! {

/// The position of the first `c` in `s`, or the length of `s` where it
/// holds none.
pub open spec fn first_index_of(s: Seq<char>, c: char) -> int
    decreases s.len(),
{
    if s.len() == 0 {
        0
    } else if s[0] == c {
        0
    } else {
        1 + first_index_of(s.drop_first(), c)
    }
}

/// The pieces that `s` falls into when it is cut at every `sep`. There is
/// one piece more than there are separators, and a piece may be empty.
pub open spec fn split_text(s: Seq<char>, sep: char) -> Seq<Seq<char>>
    decreases s.len(),
{
    let at = first_index_of(s, sep);
    if 0 <= at < s.len() {
        seq![s.take(at)] + split_text(s.skip(at + 1), sep)
    } else {
        seq![s]
    }
}

/// Key and value of a pair: what stands before its first equals sign and
/// what stands behind it. A pair without an equals sign has neither.
pub open spec fn pair_of(pair: Seq<char>) -> Option<(Seq<char>, Seq<char>)> {
    let at = first_index_of(pair, '=');
    if 0 <= at < pair.len() {
        Some((pair.take(at), pair.skip(at + 1)))
    } else {
        None
    }
}

/// The pairs of a span's formatted fields, each without the styling that
/// it came with. An empty text holds no pair.
pub open spec fn pair_texts(formatted: Seq<char>) -> Seq<Seq<char>> {
    if formatted.len() == 0 {
        Seq::empty()
    } else {
        let pieces = split_text(formatted, ' ');
        Seq::new(pieces.len(), |i: int| stripped(pieces[i]))
    }
}

/// Whether every pair has an equals sign.
pub open spec fn well_formed(pairs: Seq<Seq<char>>) -> bool {
    forall|i: int| 0 <= i < pairs.len() ==> (#[trigger] pair_of(pairs[i])) is Some
}

/// Keys and values of pairs that all have an equals sign.
pub open spec fn fields_of(pairs: Seq<Seq<char>>) -> Seq<(Seq<char>, Seq<char>)> {
    Seq::new(pairs.len(), |i: int| pair_of(pairs[i])->Some_0)
}

/// Keys and values of those pairs that have an equals sign, in order;
/// the others are left out.
pub open spec fn sound_fields_of(pairs: Seq<Seq<char>>) -> Seq<(Seq<char>, Seq<char>)>
    decreases pairs.len(),
{
    if pairs.len() == 0 {
        Seq::empty()
    } else {
        let front = sound_fields_of(pairs.drop_last());
        match pair_of(pairs.last()) {
            Some(field) => front.push(field),
            None => front,
        }
    }
}

/// A pair of a span's fields has no equals sign.
#[derive(Clone, Copy, Debug, PartialEq, Eq, Structural)]
pub struct MalformedField {
    /// The position of the pair among the span's pairs, counted from zero.
    pub index: usize,
}

/// `first_index_of` is the one position before which `c` does not occur
/// and at which it does, or the text ends.
pub proof fn lemma_first_index_of(s: Seq<char>, c: char, at: int)
    requires
        0 <= at <= s.len(),
        forall|j: int| 0 <= j < at ==> s[j] != c,
        at < s.len() ==> s[at] == c,
    ensures
        first_index_of(s, c) == at,
    decreases s.len(),
{
    if at > 0 {
        let rest = s.drop_first();
        assert forall|j: int| 0 <= j < at - 1 implies rest[j] != c by {
            assert(rest[j] == s[j + 1]);
        }
        lemma_first_index_of(rest, c, at - 1);
    }
}

/// Cuts `text` at every `sep`.
pub fn split(text: &str, sep: char) -> (parts: Vec<String>)
    ensures
        views_of(parts@) == split_text(text@, sep),
{
    let count: usize = text.unicode_len();
    let mut parts: Vec<String> = Vec::new();
    let mut start: usize = 0;
    let mut i: usize = 0;
    proof {
        assert(text@.skip(0) =~= text@);
        assert(views_of(parts@) + split_text(text@, sep) =~= split_text(text@, sep));
    }
    while i < count
        invariant
            count == text@.len(),
            start <= i <= count,
            forall|j: int| start <= j < i ==> text@[j] != sep,
            views_of(parts@) + split_text(text@.skip(start as int), sep) == split_text(text@, sep),
        decreases count - i,
    {
        if text.get_char(i) == sep {
            let piece = String::from_str(text.substring_char(start, i));
            proof {
                let rest = text@.skip(start as int);
                assert forall|j: int| 0 <= j < i - start implies rest[j] != sep by {
                    assert(rest[j] == text@[start + j]);
                }
                lemma_first_index_of(rest, sep, i - start);
                assert(rest.take(i - start) =~= text@.subrange(start as int, i as int));
                assert(rest.skip(i - start + 1) =~= text@.skip(i + 1));
                assert(views_of(parts@.push(piece)) =~= views_of(parts@) + seq![piece@]);
            }
            parts.push(piece);
            start = i + 1;
        }
        i = i + 1;
    }
    let piece = String::from_str(text.substring_char(start, count));
    proof {
        let rest = text@.skip(start as int);
        assert forall|j: int| 0 <= j < rest.len() implies rest[j] != sep by {
            assert(rest[j] == text@[start + j]);
        }
        lemma_first_index_of(rest, sep, rest.len() as int);
        assert(rest =~= text@.subrange(start as int, count as int));
        assert(views_of(parts@.push(piece)) =~= views_of(parts@) + seq![piece@]);
    }
    parts.push(piece);
    parts
}

/// Cuts a pair at its first equals sign into key and value.
pub fn split_pair(pair: &str) -> (out: Option<(String, String)>)
    ensures
        match out {
            Some(field) => pair_of(pair@) == Some((field.0@, field.1@)),
            None => pair_of(pair@) is None,
        },
{
    let count: usize = pair.unicode_len();
    let mut i: usize = 0;
    while i < count
        invariant
            count == pair@.len(),
            i <= count,
            forall|j: int| 0 <= j < i ==> pair@[j] != '=',
        decreases count - i,
    {
        if pair.get_char(i) == '=' {
            proof {
                lemma_first_index_of(pair@, '=', i as int);
                assert(pair@.take(i as int) =~= pair@.subrange(0, i as int));
                assert(pair@.skip(i + 1) =~= pair@.subrange(i + 1, count as int));
            }
            let key = String::from_str(pair.substring_char(0, i));
            let value = String::from_str(pair.substring_char(i + 1, count));
            return Some((key, value));
        }
        i = i + 1;
    }
    proof {
        lemma_first_index_of(pair@, '=', count as int);
    }
    None
}

/// Reads the fields of a span from their formatted text. Styling that the
/// pairs came with is taken out before they are cut into key and value.
/// The first pair without an equals sign is reported; nothing is guessed.
pub fn parse_fields(formatted: &str) -> (out: Result<Vec<(String, String)>, MalformedField>)
    ensures
        match out {
            Ok(fields) => {
                &&& well_formed(pair_texts(formatted@))
                &&& fields_view(fields@) == fields_of(pair_texts(formatted@))
            },
            Err(e) => {
                &&& e.index < pair_texts(formatted@).len()
                &&& pair_of(pair_texts(formatted@)[e.index as int]) is None
                &&& forall|j: int|
                    0 <= j < e.index ==> (#[trigger] pair_of(pair_texts(formatted@)[j])) is Some
            },
        },
{
    let mut fields: Vec<(String, String)> = Vec::new();
    if formatted.is_empty() {
        proof {
            assert(fields_view(fields@) =~= fields_of(pair_texts(formatted@)));
        }
        return Ok(fields);
    }
    let pieces = split(formatted, ' ');
    let ghost pairs = pair_texts(formatted@);
    proof {
        assert(views_of(pieces@).len() == pieces.len());
    }
    let mut i: usize = 0;
    while i < pieces.len()
        invariant
            i <= pieces.len(),
            formatted@.len() > 0,
            views_of(pieces@) == split_text(formatted@, ' '),
            pairs == pair_texts(formatted@),
            pairs.len() == pieces.len(),
            fields.len() == i,
            forall|j: int| 0 <= j < i ==> (#[trigger] pair_of(pairs[j])) is Some,
            forall|j: int|
                0 <= j < i ==> (fields[j].0@, fields[j].1@) == (#[trigger] pair_of(pairs[j]))->Some_0,
        decreases pieces.len() - i,
    {
        let bare = strip_markers(pieces[i].as_str());
        proof {
            assert(views_of(pieces@)[i as int] == pieces[i as int]@);
            assert(bare@ == pairs[i as int]);
        }
        match split_pair(bare.as_str()) {
            Some(field) => {
                fields.push(field);
            },
            None => {
                return Err(MalformedField { index: i });
            },
        }
        i = i + 1;
    }
    proof {
        assert(fields_view(fields@) =~= fields_of(pairs));
    }
    Ok(fields)
}

/// Reads the fields of a span from their formatted text and leaves out
/// every pair that has no equals sign. Styling that the pairs came with is
/// taken out before they are cut into key and value.
pub fn parse_sound_fields(formatted: &str) -> (fields: Vec<(String, String)>)
    ensures
        fields_view(fields@) == sound_fields_of(pair_texts(formatted@)),
{
    let mut fields: Vec<(String, String)> = Vec::new();
    if formatted.is_empty() {
        proof {
            assert(fields_view(fields@) =~= sound_fields_of(pair_texts(formatted@)));
        }
        return fields;
    }
    let pieces = split(formatted, ' ');
    let ghost pairs = pair_texts(formatted@);
    proof {
        assert(views_of(pieces@).len() == pieces.len());
        assert(pairs.take(0) =~= Seq::empty());
        assert(fields_view(fields@) =~= sound_fields_of(pairs.take(0)));
    }
    let mut i: usize = 0;
    while i < pieces.len()
        invariant
            i <= pieces.len(),
            formatted@.len() > 0,
            views_of(pieces@) == split_text(formatted@, ' '),
            pairs == pair_texts(formatted@),
            pairs.len() == pieces.len(),
            fields_view(fields@) == sound_fields_of(pairs.take(i as int)),
        decreases pieces.len() - i,
    {
        let bare = strip_markers(pieces[i].as_str());
        proof {
            assert(views_of(pieces@)[i as int] == pieces[i as int]@);
            assert(bare@ == pairs[i as int]);
            assert(pairs.take(i + 1).drop_last() =~= pairs.take(i as int));
            assert(pairs.take(i + 1).last() == pairs[i as int]);
        }
        match split_pair(bare.as_str()) {
            Some(field) => {
                proof {
                    assert(fields_view(fields@.push(field)) =~= fields_view(fields@).push(
                        (field.0@, field.1@),
                    ));
                }
                fields.push(field);
            },
            None => {},
        }
        i = i + 1;
    }
    proof {
        assert(pairs.take(i as int) =~= pairs);
    }
    fields
}

/// Where every pair has an equals sign, leaving out those that have none
/// leaves out nothing.
pub proof fn law_sound_fields_of_well_formed(pairs: Seq<Seq<char>>)
    requires
        well_formed(pairs),
    ensures
        sound_fields_of(pairs) == fields_of(pairs),
    decreases pairs.len(),
{
    if pairs.len() > 0 {
        let front = pairs.drop_last();
        assert forall|i: int| 0 <= i < front.len() implies (#[trigger] pair_of(front[i])) is Some by {
            assert(front[i] == pairs[i]);
            assert(pair_of(pairs[i]) is Some);
        }
        law_sound_fields_of_well_formed(front);
        assert(pair_of(pairs[pairs.len() - 1]) is Some);
        assert(sound_fields_of(pairs) =~= fields_of(pairs));
    } else {
        assert(sound_fields_of(pairs) =~= fields_of(pairs));
    }
}

impl SpanFrame {
    /// A span of the given name with the fields that `formatted` holds.
    pub fn parse(name: &str, formatted: &str) -> (out: Result<SpanFrame, MalformedField>)
        ensures
            match out {
                Ok(span) => {
                    &&& well_formed(pair_texts(formatted@))
                    &&& span@.name == name@
                    &&& span@.fields == fields_of(pair_texts(formatted@))
                },
                Err(e) => {
                    &&& e.index < pair_texts(formatted@).len()
                    &&& pair_of(pair_texts(formatted@)[e.index as int]) is None
                    &&& forall|j: int|
                        0 <= j < e.index ==> (#[trigger] pair_of(pair_texts(formatted@)[j])) is Some
                },
            },
    {
        match parse_fields(formatted) {
            Ok(fields) => Ok(SpanFrame { name: String::from_str(name), fields }),
            Err(e) => Err(e),
        }
    }

    /// A span of the given name with those fields of `formatted` that
    /// have a key and a value.
    pub fn parse_sound(name: &str, formatted: &str) -> (span: SpanFrame)
        ensures
            span@.name == name@,
            span@.fields == sound_fields_of(pair_texts(formatted@)),
    {
        SpanFrame { name: String::from_str(name), fields: parse_sound_fields(formatted) }
    }
}

} // verus!
