//! What holds of every rendered line: how it reads without its styling,
//! and how its two blocks are set apart.

use crate::clock::{clock_text, lemma_clock_free_of, TimeOfDay};
use crate::event::{EventView, FrameView, Level};
use crate::plain::text_width;
use crate::render::{
    field_text, field_texts, frame_text, frame_texts, left_text, level_colour, level_is_bold,
    level_label_text, level_tag_text, line_text, location_text, padding, right_text,
    separator_text, stamp_text, trail_text, unknown_file_text, unknown_line_text,
};
use crate::style::{escape, lemma_styled_free_of, styled_text, Style};
use crate::text::{
    decimal_text, free_of, joined_text, lemma_decimal_free_of, lemma_free_of_append, repeated,
};
use crate::visible::{
    begins_afresh, lemma_shows_alone, lemma_shows_append, lemma_shows_joined, lemma_shows_plain,
    lemma_shows_styled, lemma_shows_styled_text, lemma_visible_append, shows_as, visible_text,
};
use vstd::prelude::*;

verus! {

/// The left block without styling: the clock reading, the level's label
/// and what is visible of the message.
pub open spec fn plain_left_text(event: EventView, time: TimeOfDay) -> Seq<char> {
    clock_text(time) + seq![' '] + level_label_text(event.level) + seq![' '] + visible_text(
        event.message,
    )
}

/// One field without styling: `key: value`.
pub open spec fn plain_field_text(key: Seq<char>, value: Seq<char>) -> Seq<char> {
    visible_text(key) + seq![':', ' '] + visible_text(value)
}

/// Each field of a span without styling.
pub open spec fn plain_field_texts(fields: Seq<(Seq<char>, Seq<char>)>) -> Seq<Seq<char>> {
    Seq::new(fields.len(), |i: int| plain_field_text(fields[i].0, fields[i].1))
}

/// One span without styling: its name and, in parentheses, its fields
/// with a comma and a space between them.
pub open spec fn plain_frame_text(frame: FrameView) -> Seq<char> {
    visible_text(frame.name) + if frame.fields.len() > 0 {
        seq!['('] + joined_text(plain_field_texts(frame.fields), seq![',', ' ']) + seq![')']
    } else {
        Seq::empty()
    }
}

/// Each span of a stack without styling.
pub open spec fn plain_frame_texts(frames: Seq<FrameView>) -> Seq<Seq<char>> {
    Seq::new(frames.len(), |i: int| plain_frame_text(frames[i]))
}

/// The span trail without styling.
pub open spec fn plain_trail_text(frames: Seq<FrameView>) -> Seq<char> {
    if frames.len() == 0 {
        Seq::empty()
    } else {
        seq!['('] + joined_text(plain_frame_texts(frames), seq![',', ' ']) + seq![')']
    }
}

/// The place in the source without styling: `file:line`, with the
/// placeholders for what is not known.
pub open spec fn plain_location_text(file: Option<Seq<char>>, line: Option<nat>) -> Seq<char> {
    (match file {
        Some(name) => visible_text(name),
        None => unknown_file_text(),
    }) + seq![':'] + (match line {
        Some(number) => decimal_text(number),
        None => unknown_line_text(),
    })
}

/// The right block without styling.
pub open spec fn plain_right_text(event: EventView, frames: Seq<FrameView>) -> Seq<char> {
    visible_text(event.target) + plain_trail_text(frames) + seq![' '] + plain_location_text(
        event.source_file,
        event.source_line,
    )
}

/// The time stamp shows as the clock reading.
pub proof fn lemma_stamp_shows(time: TimeOfDay)
    ensures
        shows_as(stamp_text(time), clock_text(time)),
{
    lemma_clock_free_of(time, escape());
    lemma_shows_plain(clock_text(time));
    lemma_shows_styled(Style::Blue, clock_text(time), clock_text(time));
    lemma_shows_styled(Style::Dimmed, styled_text(Style::Blue, clock_text(time)), clock_text(time));
}

/// The level tag shows as the level's label.
pub proof fn lemma_level_tag_shows(level: Level)
    ensures
        shows_as(level_tag_text(level), level_label_text(level)),
{
    let label = level_label_text(level);
    let coloured = styled_text(level_colour(level), label);
    lemma_shows_plain(label);
    lemma_shows_styled(level_colour(level), label, label);
    if level_is_bold(level) {
        lemma_shows_styled(Style::Bold, coloured, label);
        lemma_shows_styled(Style::Dimmed, styled_text(Style::Bold, coloured), label);
    } else {
        lemma_shows_styled(Style::Dimmed, coloured, label);
    }
}

/// A styled field shows as `key: value`.
pub proof fn lemma_field_shows(key: Seq<char>, value: Seq<char>)
    ensures
        shows_as(field_text(key, value), plain_field_text(key, value)),
{
    let colon = seq![':', ' '];
    let styled_key = styled_text(Style::Cyan, key);
    let styled_value = styled_text(Style::Cyan, value);
    lemma_shows_styled_text(Style::Cyan, key);
    lemma_shows_styled_text(Style::Cyan, value);
    lemma_shows_styled(Style::Bold, styled_value, visible_text(value));
    lemma_shows_plain(colon);
    lemma_shows_append(styled_key, visible_text(key), colon, colon);
    lemma_shows_append(
        styled_key + colon,
        visible_text(key) + colon,
        styled_text(Style::Bold, styled_value),
        visible_text(value),
    );
    lemma_shows_styled(
        Style::Dimmed,
        styled_key + colon + styled_text(Style::Bold, styled_value),
        plain_field_text(key, value),
    );
}

/// The styled separator shows as a comma and a space.
pub proof fn lemma_separator_shows()
    ensures
        shows_as(separator_text(), seq![',', ' ']),
{
    lemma_shows_plain(seq![',', ' ']);
    lemma_shows_styled(Style::Dimmed, seq![',', ' '], seq![',', ' ']);
}

/// A styled span shows as its plain form.
pub proof fn lemma_frame_shows(frame: FrameView)
    ensures
        shows_as(frame_text(frame), plain_frame_text(frame)),
{
    let name = styled_text(Style::Dimmed, frame.name);
    lemma_shows_styled_text(Style::Dimmed, frame.name);
    if frame.fields.len() > 0 {
        let items = field_texts(frame.fields);
        let plains = plain_field_texts(frame.fields);
        assert forall|i: int| 0 <= i < items.len() implies #[trigger] shows_as(
            items[i],
            plains[i],
        ) by {
            lemma_field_shows(frame.fields[i].0, frame.fields[i].1);
        }
        lemma_separator_shows();
        lemma_shows_joined(items, separator_text(), plains, seq![',', ' ']);
        let list = joined_text(items, separator_text());
        let plain_list = joined_text(plains, seq![',', ' ']);
        let open = styled_text(Style::Dimmed, seq!['(']);
        let close = styled_text(Style::Dimmed, seq![')']);
        lemma_shows_plain(seq!['(']);
        lemma_shows_plain(seq![')']);
        lemma_shows_styled(Style::Dimmed, seq!['('], seq!['(']);
        lemma_shows_styled(Style::Dimmed, seq![')'], seq![')']);
        lemma_shows_append(open, seq!['('], list, plain_list);
        lemma_shows_append(open + list, seq!['('] + plain_list, close, seq![')']);
        lemma_shows_append(
            name,
            visible_text(frame.name),
            open + list + close,
            seq!['('] + plain_list + seq![')'],
        );
    } else {
        assert(frame_text(frame) =~= name);
        assert(plain_frame_text(frame) =~= visible_text(frame.name));
    }
}

/// The styled span trail shows as its plain form.
pub proof fn lemma_trail_shows(frames: Seq<FrameView>)
    ensures
        shows_as(trail_text(frames), plain_trail_text(frames)),
{
    if frames.len() == 0 {
        lemma_shows_plain(Seq::<char>::empty());
    } else {
        let items = frame_texts(frames);
        let plains = plain_frame_texts(frames);
        assert forall|i: int| 0 <= i < items.len() implies #[trigger] shows_as(
            items[i],
            plains[i],
        ) by {
            lemma_frame_shows(frames[i]);
        }
        lemma_separator_shows();
        lemma_shows_joined(items, separator_text(), plains, seq![',', ' ']);
        let list = joined_text(items, separator_text());
        let plain_list = joined_text(plains, seq![',', ' ']);
        let open = styled_text(Style::Dimmed, styled_text(Style::Purple, seq!['(']));
        let close = styled_text(Style::Dimmed, styled_text(Style::Purple, seq![')']));
        lemma_shows_plain(seq!['(']);
        lemma_shows_plain(seq![')']);
        lemma_shows_styled(Style::Purple, seq!['('], seq!['(']);
        lemma_shows_styled(Style::Purple, seq![')'], seq![')']);
        lemma_shows_styled(Style::Dimmed, styled_text(Style::Purple, seq!['(']), seq!['(']);
        lemma_shows_styled(Style::Dimmed, styled_text(Style::Purple, seq![')']), seq![')']);
        lemma_shows_append(open, seq!['('], list, plain_list);
        lemma_shows_append(open + list, seq!['('] + plain_list, close, seq![')']);
    }
}

/// The styled place in the source shows as `file:line`.
pub proof fn lemma_location_shows(file: Option<Seq<char>>, line: Option<nat>)
    ensures
        shows_as(location_text(file, line), plain_location_text(file, line)),
{
    let name = match file {
        Some(name) => name,
        None => unknown_file_text(),
    };
    let plain_name = match file {
        Some(name) => visible_text(name),
        None => unknown_file_text(),
    };
    let number = match line {
        Some(number) => decimal_text(number),
        None => unknown_line_text(),
    };
    lemma_shows_styled_text(Style::Blue, name);
    if file is None {
        lemma_shows_plain(name);
        lemma_shows_alone(name, name);
    }
    if line is Some {
        lemma_decimal_free_of(line->Some_0, escape());
    }
    lemma_shows_plain(number);
    lemma_shows_styled(Style::Blue, number, number);
    lemma_shows_plain(seq![':']);
    lemma_shows_append(styled_text(Style::Blue, name), plain_name, seq![':'], seq![':']);
    lemma_shows_append(
        styled_text(Style::Blue, name) + seq![':'],
        plain_name + seq![':'],
        styled_text(Style::Blue, number),
        number,
    );
    let place = styled_text(Style::Blue, name) + seq![':'] + styled_text(Style::Blue, number);
    lemma_shows_styled(Style::Dimmed, place, plain_location_text(file, line));
    lemma_shows_styled(
        Style::Underline,
        styled_text(Style::Dimmed, place),
        plain_location_text(file, line),
    );
}

/// The right block shows as its plain form.
pub proof fn lemma_right_shows(event: EventView, frames: Seq<FrameView>)
    ensures
        shows_as(right_text(event, frames), plain_right_text(event, frames)),
{
    let target = styled_text(Style::Dimmed, styled_text(Style::Purple, event.target));
    let place = location_text(event.source_file, event.source_line);
    let plain_place = plain_location_text(event.source_file, event.source_line);
    lemma_shows_styled_text(Style::Purple, event.target);
    lemma_shows_styled(
        Style::Dimmed,
        styled_text(Style::Purple, event.target),
        visible_text(event.target),
    );
    lemma_trail_shows(frames);
    lemma_location_shows(event.source_file, event.source_line);
    lemma_shows_plain(seq![' ']);
    lemma_shows_append(
        target,
        visible_text(event.target),
        trail_text(frames),
        plain_trail_text(frames),
    );
    lemma_shows_append(
        target + trail_text(frames),
        visible_text(event.target) + plain_trail_text(frames),
        seq![' '],
        seq![' '],
    );
    lemma_shows_append(
        target + trail_text(frames) + seq![' '],
        visible_text(event.target) + plain_trail_text(frames) + seq![' '],
        place,
        plain_place,
    );
}

/// Taking the style sequences out of a rendered line leaves the plain left
/// block, the padding and the plain right block, and nothing else. Of the
/// event's own texts, too, only what is visible is left.
pub proof fn law_line_without_styling(
    event: EventView,
    frames: Seq<FrameView>,
    terminal_width: nat,
    time: TimeOfDay,
)
    ensures
        visible_text(line_text(event, frames, terminal_width, time)) == plain_left_text(
            event,
            time,
        ) + repeated(
            ' ',
            padding(
                text_width(left_text(event, time)),
                text_width(right_text(event, frames)),
                terminal_width,
            ),
        ) + plain_right_text(event, frames),
{
    let left = left_text(event, time);
    let right = right_text(event, frames);
    let gap = repeated(' ', padding(text_width(left), text_width(right), terminal_width));
    let space = seq![' '];
    let front = stamp_text(time) + space + level_tag_text(event.level) + space;
    let plain_front = clock_text(time) + space + level_label_text(event.level) + space;
    lemma_stamp_shows(time);
    lemma_level_tag_shows(event.level);
    lemma_shows_plain(space);
    lemma_shows_append(stamp_text(time), clock_text(time), space, space);
    lemma_shows_append(
        stamp_text(time) + space,
        clock_text(time) + space,
        level_tag_text(event.level),
        level_label_text(event.level),
    );
    lemma_shows_append(
        stamp_text(time) + space + level_tag_text(event.level),
        clock_text(time) + space + level_label_text(event.level),
        space,
        space,
    );
    assert(shows_as(front, plain_front));
    lemma_right_shows(event, frames);
    lemma_shows_plain(gap);
    lemma_shows_append(gap, gap, right, plain_right_text(event, frames));
    lemma_shows_alone(gap + right, gap + plain_right_text(event, frames));
    assert(begins_afresh(gap + right)) by {
        assert((gap + right)[0] == gap[0]);
    }
    lemma_visible_append(event.message, gap + right);
    let line = line_text(event, frames, terminal_width, time);
    assert(line =~= front + (event.message + (gap + right)));
    assert(visible_text(front + (event.message + (gap + right))) == plain_front + visible_text(
        event.message + (gap + right),
    ));
    assert(plain_front + (visible_text(event.message) + (gap + plain_right_text(event, frames)))
        =~= plain_left_text(event, time) + gap + plain_right_text(event, frames));
}

/// The tag of every level is five characters wide on the terminal: what
/// is visible of it is the level's label, and each label has five
/// characters.
pub proof fn law_level_tag_width(level: Level)
    ensures
        visible_text(level_tag_text(level)) == level_label_text(level),
        level_label_text(level).len() == 5,
{
    lemma_level_tag_shows(level);
    lemma_shows_alone(level_tag_text(level), level_label_text(level));
}

/// A clock reading on the clock's range is fourteen characters wide.
pub proof fn law_clock_width(time: TimeOfDay)
    requires
        time.wf(),
    ensures
        clock_text(time).len() == 14,
        clock_text(time)[0] == '[',
        clock_text(time)[13] == ']',
{
    reveal_with_fuel(decimal_text, 3);
}

/// On a terminal that is wider than the two blocks together, the blocks
/// are set apart by as many spaces as make the line as wide as the
/// terminal. The right block begins with a style sequence, so the run of
/// spaces ends where it begins.
pub proof fn law_wide_terminal(
    event: EventView,
    frames: Seq<FrameView>,
    terminal_width: nat,
    time: TimeOfDay,
)
    requires
        text_width(left_text(event, time)) + text_width(right_text(event, frames))
            < terminal_width,
    ensures
        line_text(event, frames, terminal_width, time) == left_text(event, time) + repeated(
            ' ',
            (terminal_width - text_width(left_text(event, time)) - text_width(
                right_text(event, frames),
            )) as nat,
        ) + right_text(event, frames),
        right_text(event, frames)[0] == escape(),
{
}

/// On a terminal that is no wider than the two blocks together, exactly
/// one space stands between them, however narrow the terminal is.
pub proof fn law_narrow_terminal(
    event: EventView,
    frames: Seq<FrameView>,
    terminal_width: nat,
    time: TimeOfDay,
)
    requires
        terminal_width <= text_width(left_text(event, time)) + text_width(
            right_text(event, frames),
        ),
    ensures
        line_text(event, frames, terminal_width, time) == left_text(event, time) + seq![' ']
            + right_text(event, frames),
        right_text(event, frames)[0] == escape(),
{
    assert(repeated(' ', 1) =~= seq![' ']);
}

/// With no span active the right block is the target and the place in
/// the source, with no span trail between them.
pub proof fn law_no_spans_no_trail(event: EventView)
    ensures
        right_text(event, Seq::empty()) == styled_text(
            Style::Dimmed,
            styled_text(Style::Purple, event.target),
        ) + seq![' '] + location_text(event.source_file, event.source_line),
{
    let target = styled_text(Style::Dimmed, styled_text(Style::Purple, event.target));
    assert(target + trail_text(Seq::empty()) =~= target);
}

/// With no span active the line holds no parenthesis but those of the
/// event's own texts: where message, target and file name hold no `c`,
/// `c` being an opening or a closing parenthesis, neither block holds one.
pub proof fn law_no_spans_no_parentheses(event: EventView, time: TimeOfDay, c: char)
    requires
        c == '(' || c == ')',
        free_of(event.message, c),
        free_of(event.target, c),
        event.source_file matches Some(name) ==> free_of(name, c),
    ensures
        free_of(left_text(event, time), c),
        free_of(right_text(event, Seq::empty()), c),
{
    let space = seq![' '];
    // Left block.
    let label = level_label_text(event.level);
    let colour = level_colour(event.level);
    lemma_clock_free_of(time, c);
    lemma_styled_free_of(Style::Blue, clock_text(time), c);
    lemma_styled_free_of(Style::Dimmed, styled_text(Style::Blue, clock_text(time)), c);
    lemma_styled_free_of(colour, label, c);
    if level_is_bold(event.level) {
        lemma_styled_free_of(Style::Bold, styled_text(colour, label), c);
        lemma_styled_free_of(Style::Dimmed, styled_text(Style::Bold, styled_text(colour, label)), c);
    } else {
        lemma_styled_free_of(Style::Dimmed, styled_text(colour, label), c);
    }
    lemma_free_of_append(stamp_text(time), space, c);
    lemma_free_of_append(stamp_text(time) + space, level_tag_text(event.level), c);
    lemma_free_of_append(stamp_text(time) + space + level_tag_text(event.level), space, c);
    lemma_free_of_append(
        stamp_text(time) + space + level_tag_text(event.level) + space,
        event.message,
        c,
    );
    // Right block.
    law_no_spans_no_trail(event);
    let name = match event.source_file {
        Some(name) => name,
        None => unknown_file_text(),
    };
    let number = match event.source_line {
        Some(number) => decimal_text(number),
        None => unknown_line_text(),
    };
    if event.source_line is Some {
        lemma_decimal_free_of(event.source_line->Some_0, c);
    }
    let target = styled_text(Style::Dimmed, styled_text(Style::Purple, event.target));
    let place = location_text(event.source_file, event.source_line);
    lemma_styled_free_of(Style::Purple, event.target, c);
    lemma_styled_free_of(Style::Dimmed, styled_text(Style::Purple, event.target), c);
    lemma_styled_free_of(Style::Blue, name, c);
    lemma_styled_free_of(Style::Blue, number, c);
    lemma_free_of_append(styled_text(Style::Blue, name), seq![':'], c);
    lemma_free_of_append(
        styled_text(Style::Blue, name) + seq![':'],
        styled_text(Style::Blue, number),
        c,
    );
    let inner = styled_text(Style::Blue, name) + seq![':'] + styled_text(Style::Blue, number);
    lemma_styled_free_of(Style::Dimmed, inner, c);
    lemma_styled_free_of(Style::Underline, styled_text(Style::Dimmed, inner), c);
    lemma_free_of_append(target, space, c);
    lemma_free_of_append(target + space, place, c);
}

/// Where neither the file nor the line of an event is known, the place
/// reads `<unknown>.rs:??`.
pub proof fn law_unknown_place()
    ensures
        visible_text(location_text(None, None)) == unknown_file_text() + seq![':']
            + unknown_line_text(),
        unknown_file_text() == "<unknown>.rs"@,
        unknown_line_text() == "??"@,
{
    lemma_location_shows(None, None);
    lemma_shows_alone(location_text(None, None), plain_location_text(None, None));
    reveal_strlit("<unknown>.rs");
    reveal_strlit("??");
    assert(unknown_file_text() =~= "<unknown>.rs"@);
    assert(unknown_line_text() =~= "??"@);
}

} // verus!
