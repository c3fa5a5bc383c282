//! The text that is left of a styled text when its style sequences are
//! taken out, and what that text is for texts built from styled parts.
//!
//! A style sequence is an escape character, an opening square bracket,
//! any number of digits and semicolons, and the letter `m`: the form of
//! every sequence that [`crate::style::Style`] writes.

use crate::style::{escape, styled_text, Style};
use crate::text::{free_of, joined_text};
use vstd::prelude::*;

verus! {

/// Whether `c` may stand between the bracket and the final letter of a
/// style sequence.
pub open spec fn is_parameter(c: char) -> bool {
    ('0' <= c && c <= '9') || c == ';'
}

/// The number of parameter characters at the front of `s`.
pub open spec fn parameter_run(s: Seq<char>) -> int
    decreases s.len(),
{
    if s.len() > 0 && is_parameter(s[0]) {
        1 + parameter_run(s.drop_first())
    } else {
        0
    }
}

/// The length of the style sequence at the front of `s`, or zero where
/// `s` does not begin with one.
pub open spec fn marker_len(s: Seq<char>) -> int {
    if s.len() >= 2 && s[0] == escape() && s[1] == '[' {
        let run = parameter_run(s.skip(2));
        if 2 + run < s.len() && s[2 + run] == 'm' {
            3 + run
        } else {
            0
        }
    } else {
        0
    }
}

/// `s` without its style sequences. Every other character stays, an
/// escape character that begins no style sequence too.
pub open spec fn visible_text(s: Seq<char>) -> Seq<char>
    decreases s.len(),
{
    if s.len() == 0 {
        Seq::empty()
    } else {
        let len = marker_len(s);
        if 0 < len <= s.len() {
            visible_text(s.skip(len))
        } else {
            seq![s[0]] + visible_text(s.drop_first())
        }
    }
}

/// Whether `s` holds no escape character.
pub open spec fn escape_free(s: Seq<char>) -> bool {
    free_of(s, escape())
}

/// Whether a text may follow any other without completing a style
/// sequence that the other left unfinished: it is empty, or its first
/// character can be no part of a sequence but the first.
pub open spec fn begins_afresh(s: Seq<char>) -> bool {
    s.len() > 0 ==> !is_parameter(s[0]) && s[0] != 'm' && s[0] != '['
}

/// A run of parameter characters is no longer than the text.
pub proof fn lemma_parameter_run_bound(s: Seq<char>)
    ensures
        0 <= parameter_run(s) <= s.len(),
    decreases s.len(),
{
    if s.len() > 0 && is_parameter(s[0]) {
        lemma_parameter_run_bound(s.drop_first());
    }
}

/// A run of parameter characters in `a` is not made longer by a text
/// that begins with none.
pub proof fn lemma_parameter_run_append(a: Seq<char>, b: Seq<char>)
    requires
        b.len() > 0 ==> !is_parameter(b[0]),
    ensures
        parameter_run(a + b) == parameter_run(a),
    decreases a.len(),
{
    if a.len() == 0 {
        assert(a + b =~= b);
    } else {
        assert((a + b)[0] == a[0]);
        assert((a + b).drop_first() =~= a.drop_first() + b);
        lemma_parameter_run_append(a.drop_first(), b);
    }
}

/// Whether `a` begins with a style sequence, and how long that is, does
/// not depend on a text behind it that begins afresh.
pub proof fn lemma_marker_len_append(a: Seq<char>, b: Seq<char>)
    requires
        a.len() > 0,
        begins_afresh(b),
    ensures
        marker_len(a + b) == marker_len(a),
        0 <= marker_len(a) <= a.len(),
{
    let s = a + b;
    assert(s[0] == a[0]);
    if a.len() >= 2 {
        assert(s[1] == a[1]);
        assert(s.skip(2) =~= a.skip(2) + b);
        lemma_parameter_run_append(a.skip(2), b);
        lemma_parameter_run_bound(a.skip(2));
        let run = parameter_run(a.skip(2));
        if 2 + run < a.len() {
            assert(s[2 + run] == a[2 + run]);
        } else if b.len() > 0 {
            assert(s[2 + run] == b[0]);
        }
    } else if b.len() > 0 {
        assert(s[1] == b[0]);
    }
}

/// What is visible of two texts in a row is what is visible of each,
/// where the second begins afresh.
pub proof fn lemma_visible_append(a: Seq<char>, b: Seq<char>)
    requires
        begins_afresh(b),
    ensures
        visible_text(a + b) == visible_text(a) + visible_text(b),
    decreases a.len(),
{
    if a.len() == 0 {
        assert(a + b =~= b);
        assert(visible_text(a) + visible_text(b) =~= visible_text(b));
    } else {
        lemma_marker_len_append(a, b);
        let len = marker_len(a);
        if 0 < len {
            assert((a + b).skip(len) =~= a.skip(len) + b);
            lemma_visible_append(a.skip(len), b);
        } else {
            assert((a + b)[0] == a[0]);
            assert((a + b).drop_first() =~= a.drop_first() + b);
            lemma_visible_append(a.drop_first(), b);
            assert(visible_text(a + b) =~= visible_text(a) + visible_text(b));
        }
    }
}

/// A text without escape characters is visible as it is, whatever
/// follows it.
pub proof fn lemma_visible_after_plain(a: Seq<char>, b: Seq<char>)
    requires
        escape_free(a),
    ensures
        visible_text(a + b) == a + visible_text(b),
    decreases a.len(),
{
    if a.len() == 0 {
        assert(a + b =~= b);
        assert(a + visible_text(b) =~= visible_text(b));
    } else {
        assert((a + b)[0] == a[0]);
        assert(a[0] != escape());
        assert((a + b).drop_first() =~= a.drop_first() + b);
        assert(escape_free(a.drop_first())) by {
            assert forall|i: int| 0 <= i < a.drop_first().len() implies a.drop_first()[i]
                != escape() by {
                assert(a.drop_first()[i] == a[i + 1]);
            }
        }
        lemma_visible_after_plain(a.drop_first(), b);
        assert(visible_text(a + b) =~= a + visible_text(b));
    }
}

/// The sequence that switches a style on is invisible.
pub proof fn lemma_visible_after_on(style: Style, rest: Seq<char>)
    ensures
        visible_text(style.on() + rest) == visible_text(rest),
{
    let s = style.on() + rest;
    reveal_with_fuel(parameter_run, 4);
    if style.is_colour() {
        assert(s.skip(2)[0] == '3');
        assert(s.skip(2).drop_first()[0] == s[3]);
        assert(s.skip(2).drop_first().drop_first()[0] == 'm');
        assert(parameter_run(s.skip(2)) == 2);
        assert(marker_len(s) == 5);
        assert(s.skip(5) =~= rest);
    } else {
        assert(s.skip(2)[0] == s[2]);
        assert(s.skip(2).drop_first()[0] == 'm');
        assert(parameter_run(s.skip(2)) == 1);
        assert(marker_len(s) == 4);
        assert(s.skip(4) =~= rest);
    }
}

/// The sequence that switches a style off is invisible.
pub proof fn lemma_visible_after_off(style: Style, rest: Seq<char>)
    ensures
        visible_text(style.off() + rest) == visible_text(rest),
{
    let s = style.off() + rest;
    reveal_with_fuel(parameter_run, 4);
    if style.is_colour() {
        assert(s.skip(2)[0] == '3');
        assert(s.skip(2).drop_first()[0] == '9');
        assert(s.skip(2).drop_first().drop_first()[0] == 'm');
        assert(parameter_run(s.skip(2)) == 2);
        assert(marker_len(s) == 5);
        assert(s.skip(5) =~= rest);
    } else {
        assert(s.skip(2)[0] == '0');
        assert(s.skip(2).drop_first()[0] == 'm');
        assert(parameter_run(s.skip(2)) == 1);
        assert(marker_len(s) == 4);
        assert(s.skip(4) =~= rest);
    }
}

/// Of a styled text only the text is visible, whatever the text is and
/// whatever follows.
pub proof fn lemma_visible_styled(style: Style, text: Seq<char>, rest: Seq<char>)
    ensures
        visible_text(styled_text(style, text) + rest) == visible_text(text) + visible_text(rest),
{
    let tail = style.off() + rest;
    assert(styled_text(style, text) + rest =~= style.on() + (text + tail));
    lemma_visible_after_on(style, text + tail);
    assert(tail[0] == escape());
    lemma_visible_append(text, tail);
    lemma_visible_after_off(style, rest);
}

/// Whether `item`, wherever it stands, shows as `plain` and leaves what
/// follows it as it is.
pub open spec fn shows_as(item: Seq<char>, plain: Seq<char>) -> bool {
    forall|rest: Seq<char>| #[trigger] visible_text(item + rest) == plain + visible_text(rest)
}

/// What shows as `plain` is visible as `plain`.
pub proof fn lemma_shows_alone(item: Seq<char>, plain: Seq<char>)
    requires
        shows_as(item, plain),
    ensures
        visible_text(item) == plain,
{
    let none = Seq::<char>::empty();
    assert(visible_text(item + none) == plain + visible_text(none));
    assert(item + none =~= item);
    assert(plain + visible_text(none) =~= plain);
}

/// A text without escape characters shows as itself.
pub proof fn lemma_shows_plain(text: Seq<char>)
    requires
        escape_free(text),
    ensures
        shows_as(text, text),
{
    assert forall|rest: Seq<char>| #[trigger]
        visible_text(text + rest) == text + visible_text(rest) by {
        lemma_visible_after_plain(text, rest);
    }
}

/// A styled text shows as what is visible of the text.
pub proof fn lemma_shows_styled_text(style: Style, text: Seq<char>)
    ensures
        shows_as(styled_text(style, text), visible_text(text)),
{
    assert forall|rest: Seq<char>| #[trigger]
        visible_text(styled_text(style, text) + rest) == visible_text(text) + visible_text(
            rest,
        ) by {
        lemma_visible_styled(style, text, rest);
    }
}

/// Styling what shows as `plain` does not change what it shows as.
pub proof fn lemma_shows_styled(style: Style, item: Seq<char>, plain: Seq<char>)
    requires
        shows_as(item, plain),
    ensures
        shows_as(styled_text(style, item), plain),
{
    lemma_shows_alone(item, plain);
    lemma_shows_styled_text(style, item);
}

/// Two items in a row show as what each shows as, in a row.
pub proof fn lemma_shows_append(a: Seq<char>, plain_a: Seq<char>, b: Seq<char>, plain_b: Seq<char>)
    requires
        shows_as(a, plain_a),
        shows_as(b, plain_b),
    ensures
        shows_as(a + b, plain_a + plain_b),
{
    assert forall|rest: Seq<char>| #[trigger]
        visible_text((a + b) + rest) == (plain_a + plain_b) + visible_text(rest) by {
        assert((a + b) + rest =~= a + (b + rest));
        assert(visible_text(a + (b + rest)) == plain_a + visible_text(b + rest));
        assert(visible_text(b + rest) == plain_b + visible_text(rest));
        assert(plain_a + (plain_b + visible_text(rest)) =~= (plain_a + plain_b) + visible_text(
            rest,
        ));
    }
}

/// A list of items that show as the texts of a second list, joined by a
/// separator that shows as a second separator, shows as the second list
/// joined by the second separator.
pub proof fn lemma_visible_joined(
    items: Seq<Seq<char>>,
    sep: Seq<char>,
    plains: Seq<Seq<char>>,
    plain_sep: Seq<char>,
    rest: Seq<char>,
)
    requires
        items.len() == plains.len(),
        forall|i: int| 0 <= i < items.len() ==> #[trigger] shows_as(items[i], plains[i]),
        shows_as(sep, plain_sep),
    ensures
        visible_text(joined_text(items, sep) + rest) == joined_text(plains, plain_sep)
            + visible_text(rest),
    decreases items.len(),
{
    if items.len() == 0 {
        assert(joined_text(items, sep) + rest =~= rest);
        assert(joined_text(plains, plain_sep) + visible_text(rest) =~= visible_text(rest));
    } else if items.len() == 1 {
        assert(shows_as(items[0], plains[0]));
    } else {
        let last = items.last();
        assert(shows_as(items[items.len() - 1], plains[items.len() - 1]));
        let after = sep + (last + rest);
        assert(joined_text(items, sep) + rest =~= joined_text(items.drop_last(), sep) + after);
        assert forall|i: int| 0 <= i < items.drop_last().len() implies #[trigger] shows_as(
            items.drop_last()[i],
            plains.drop_last()[i],
        ) by {
            assert(shows_as(items[i], plains[i]));
        }
        lemma_visible_joined(items.drop_last(), sep, plains.drop_last(), plain_sep, after);
        assert(visible_text(after) == plain_sep + visible_text(last + rest));
        assert(visible_text(last + rest) == plains.last() + visible_text(rest));
        assert(joined_text(plains, plain_sep) + visible_text(rest) =~= joined_text(
            plains.drop_last(),
            plain_sep,
        ) + (plain_sep + (plains.last() + visible_text(rest))));
    }
}

/// A joined list shows as the joined list of what its items show as.
pub proof fn lemma_shows_joined(
    items: Seq<Seq<char>>,
    sep: Seq<char>,
    plains: Seq<Seq<char>>,
    plain_sep: Seq<char>,
)
    requires
        items.len() == plains.len(),
        forall|i: int| 0 <= i < items.len() ==> #[trigger] shows_as(items[i], plains[i]),
        shows_as(sep, plain_sep),
    ensures
        shows_as(joined_text(items, sep), joined_text(plains, plain_sep)),
{
    assert forall|rest: Seq<char>| #[trigger]
        visible_text(joined_text(items, sep) + rest) == joined_text(plains, plain_sep)
            + visible_text(rest) by {
        lemma_visible_joined(items, sep, plains, plain_sep, rest);
    }
}

} // verus!
