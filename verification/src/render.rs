//! One log event as one terminal line: a left block with the time, the
//! level and the message, and a right block with the target, the active
//! spans and the place in the source, pushed to the right edge where the
//! terminal is wide enough.

use crate::clock::{clock_text, read_clock, ClockBeforeEpoch, TimeOfDay};
use crate::event::{
    fields_view, frames_view, optional_number, optional_text, EventView, FrameView, Level,
    LogEvent, SpanFrame,
};
use crate::plain::{measure, terminal_columns, text_width};
use crate::style::{paint, paint_both, styled_text, Style};
use crate::text::{decimal, decimal_text, join, joined_text, repeated, spaces, views_of};
use vstd::prelude::*;
use vstd::string::*;

verus! {

/// The label of a level: its name in capitals, five characters wide, the
/// shorter names with a space in front.
pub open spec fn level_label_text(level: Level) -> Seq<char> {
    match level {
        Level::Trace => seq!['T', 'R', 'A', 'C', 'E'],
        Level::Debug => seq!['D', 'E', 'B', 'U', 'G'],
        Level::Info => seq![' ', 'I', 'N', 'F', 'O'],
        Level::Warn => seq![' ', 'W', 'A', 'R', 'N'],
        Level::Error => seq!['E', 'R', 'R', 'O', 'R'],
    }
}

/// The colour that tells a level from the others.
pub open spec fn level_colour(level: Level) -> Style {
    match level {
        Level::Trace => Style::Purple,
        Level::Debug => Style::Blue,
        Level::Info => Style::Green,
        Level::Warn => Style::Yellow,
        Level::Error => Style::Red,
    }
}

/// Whether a level's label is set in bold: warnings and errors are.
pub open spec fn level_is_bold(level: Level) -> bool {
    level == Level::Warn || level == Level::Error
}

/// The level's label in its colour, in bold where the level asks for it,
/// and dimmed as a whole.
pub open spec fn level_tag_text(level: Level) -> Seq<char> {
    let coloured = styled_text(level_colour(level), level_label_text(level));
    styled_text(
        Style::Dimmed,
        if level_is_bold(level) {
            styled_text(Style::Bold, coloured)
        } else {
            coloured
        },
    )
}

/// The clock reading in dimmed blue.
pub open spec fn stamp_text(time: TimeOfDay) -> Seq<char> {
    styled_text(Style::Dimmed, styled_text(Style::Blue, clock_text(time)))
}

/// The left block: the time stamp, the level tag and the message, with one
/// space between them.
pub open spec fn left_text(event: EventView, time: TimeOfDay) -> Seq<char> {
    stamp_text(time) + seq![' '] + level_tag_text(event.level) + seq![' '] + event.message
}

/// One field of a span: key and value in cyan, the value in bold, a colon
/// and a space between them, the whole dimmed.
pub open spec fn field_text(key: Seq<char>, value: Seq<char>) -> Seq<char> {
    styled_text(
        Style::Dimmed,
        styled_text(Style::Cyan, key) + seq![':', ' '] + styled_text(
            Style::Bold,
            styled_text(Style::Cyan, value),
        ),
    )
}

/// What stands between two fields and between two spans: a dimmed comma
/// and space.
pub open spec fn separator_text() -> Seq<char> {
    styled_text(Style::Dimmed, seq![',', ' '])
}

/// Each field of a span, rendered.
pub open spec fn field_texts(fields: Seq<(Seq<char>, Seq<char>)>) -> Seq<Seq<char>> {
    Seq::new(fields.len(), |i: int| field_text(fields[i].0, fields[i].1))
}

/// One span: its name, dimmed, and behind it, if the span carries fields,
/// the fields in dimmed parentheses with separators between them.
pub open spec fn frame_text(frame: FrameView) -> Seq<char> {
    styled_text(Style::Dimmed, frame.name) + if frame.fields.len() > 0 {
        styled_text(Style::Dimmed, seq!['(']) + joined_text(
            field_texts(frame.fields),
            separator_text(),
        ) + styled_text(Style::Dimmed, seq![')'])
    } else {
        Seq::empty()
    }
}

/// Each span of a stack, rendered.
pub open spec fn frame_texts(frames: Seq<FrameView>) -> Seq<Seq<char>> {
    Seq::new(frames.len(), |i: int| frame_text(frames[i]))
}

/// The span trail: nothing where no span is active, else the spans from
/// the root to the current one, with separators between them, in dimmed
/// purple parentheses.
pub open spec fn trail_text(frames: Seq<FrameView>) -> Seq<char> {
    if frames.len() == 0 {
        Seq::empty()
    } else {
        styled_text(Style::Dimmed, styled_text(Style::Purple, seq!['('])) + joined_text(
            frame_texts(frames),
            separator_text(),
        ) + styled_text(Style::Dimmed, styled_text(Style::Purple, seq![')']))
    }
}

/// The name that stands for a source file that is not known.
pub open spec fn unknown_file_text() -> Seq<char> {
    seq!['<', 'u', 'n', 'k', 'n', 'o', 'w', 'n', '>', '.', 'r', 's']
}

/// The mark that stands for a line number that is not known.
pub open spec fn unknown_line_text() -> Seq<char> {
    seq!['?', '?']
}

/// The place in the source: file and line in blue, a colon between them,
/// the whole dimmed and underlined. What is not known is replaced by its
/// placeholder.
pub open spec fn location_text(file: Option<Seq<char>>, line: Option<nat>) -> Seq<char> {
    styled_text(
        Style::Underline,
        styled_text(
            Style::Dimmed,
            styled_text(
                Style::Blue,
                match file {
                    Some(name) => name,
                    None => unknown_file_text(),
                },
            ) + seq![':'] + styled_text(
                Style::Blue,
                match line {
                    Some(number) => decimal_text(number),
                    None => unknown_line_text(),
                },
            ),
        ),
    )
}

/// The right block: the target in dimmed purple, the span trail, one
/// space and the place in the source. Nothing stands behind the place, so
/// that on a wide terminal the place ends at the right edge.
pub open spec fn right_text(event: EventView, frames: Seq<FrameView>) -> Seq<char> {
    styled_text(Style::Dimmed, styled_text(Style::Purple, event.target)) + trail_text(frames)
        + seq![' '] + location_text(event.source_file, event.source_line)
}

/// The number of spaces between two blocks of the given widths: as many as
/// push the right block against the edge of the terminal, and one where
/// the two blocks fill the terminal or do not fit.
pub open spec fn padding(left_width: nat, right_width: nat, terminal_width: nat) -> nat {
    if left_width + right_width < terminal_width {
        (terminal_width - left_width - right_width) as nat
    } else {
        1
    }
}

/// Two blocks of the given widths on one line of the terminal.
pub open spec fn laid_out_text(
    left: Seq<char>,
    left_width: nat,
    right: Seq<char>,
    right_width: nat,
    terminal_width: nat,
) -> Seq<char> {
    left + repeated(' ', padding(left_width, right_width, terminal_width)) + right
}

/// The line for an event that fired at `time` with `frames` active, on a
/// terminal of `terminal_width` columns. The blocks are measured as the
/// terminal shows them.
pub open spec fn line_text(
    event: EventView,
    frames: Seq<FrameView>,
    terminal_width: nat,
    time: TimeOfDay,
) -> Seq<char> {
    let left = left_text(event, time);
    let right = right_text(event, frames);
    laid_out_text(left, text_width(left), right, text_width(right), terminal_width)
}

/// The label of a level.
pub fn level_label(level: Level) -> (out: &'static str)
    ensures
        out@ == level_label_text(level),
        out@.len() == 5,
{
    proof {
        reveal_strlit("TRACE");
        reveal_strlit("DEBUG");
        reveal_strlit(" INFO");
        reveal_strlit(" WARN");
        reveal_strlit("ERROR");
    }
    let out: &'static str = match level {
        Level::Trace => "TRACE",
        Level::Debug => "DEBUG",
        Level::Info => " INFO",
        Level::Warn => " WARN",
        Level::Error => "ERROR",
    };
    assert(out@ =~= level_label_text(level));
    out
}

/// The styled tag of a level.
pub fn level_tag(level: Level) -> (out: String)
    ensures
        out@ == level_tag_text(level),
{
    let label = level_label(level);
    let weighted = match level {
        Level::Trace => paint(Style::Purple, label),
        Level::Debug => paint(Style::Blue, label),
        Level::Info => paint(Style::Green, label),
        Level::Warn => paint_both(Style::Bold, Style::Yellow, label),
        Level::Error => paint_both(Style::Bold, Style::Red, label),
    };
    paint(Style::Dimmed, weighted.as_str())
}

/// The styled time stamp.
pub fn stamp(time: TimeOfDay) -> (out: String)
    ensures
        out@ == stamp_text(time),
{
    let reading = time.to_text();
    paint_both(Style::Dimmed, Style::Blue, reading.as_str())
}

/// The left block of the line for `event`, stamped with `time`.
pub fn left_block(event: &LogEvent, time: TimeOfDay) -> (out: String)
    ensures
        out@ == left_text(event@, time),
{
    let mut out = stamp(time);
    out.append(" ");
    out.append(level_tag(event.level).as_str());
    out.append(" ");
    out.append(event.message.as_str());
    proof {
        reveal_strlit(" ");
        assert(out@ =~= left_text(event@, time));
    }
    out
}

/// One field of a span, styled.
pub fn field(key: &str, value: &str) -> (out: String)
    ensures
        out@ == field_text(key@, value@),
{
    let mut pair = paint(Style::Cyan, key);
    pair.append(": ");
    pair.append(paint_both(Style::Bold, Style::Cyan, value).as_str());
    proof {
        reveal_strlit(": ");
        assert(pair@ =~= styled_text(Style::Cyan, key@) + seq![':', ' '] + styled_text(
            Style::Bold,
            styled_text(Style::Cyan, value@),
        ));
    }
    paint(Style::Dimmed, pair.as_str())
}

/// The styled separator of fields and of spans.
pub fn separator() -> (out: String)
    ensures
        out@ == separator_text(),
{
    proof {
        reveal_strlit(", ");
        assert(", "@ =~= seq![',', ' ']);
    }
    paint(Style::Dimmed, ", ")
}

/// One span, styled, with its fields if it carries any.
pub fn frame(span: &SpanFrame) -> (out: String)
    ensures
        out@ == frame_text(span@),
{
    let mut out = paint(Style::Dimmed, span.name.as_str());
    if span.fields.len() > 0 {
        let ghost pairs = fields_view(span.fields@);
        let mut parts: Vec<String> = Vec::new();
        let mut i: usize = 0;
        while i < span.fields.len()
            invariant
                i <= span.fields.len(),
                pairs == fields_view(span.fields@),
                parts.len() == i,
                forall|j: int| 0 <= j < i ==> (#[trigger] parts[j])@ == field_text(pairs[j].0, pairs[j].1),
            decreases span.fields.len() - i,
        {
            let pair = &span.fields[i];
            parts.push(field(pair.0.as_str(), pair.1.as_str()));
            i = i + 1;
        }
        proof {
            reveal_strlit("(");
            reveal_strlit(")");
            assert("("@ =~= seq!['(']);
            assert(")"@ =~= seq![')']);
            assert(views_of(parts@) =~= field_texts(pairs));
        }
        out.append(paint(Style::Dimmed, "(").as_str());
        out.append(join(&parts, separator().as_str()).as_str());
        out.append(paint(Style::Dimmed, ")").as_str());
    }
    proof {
        assert(out@ =~= frame_text(span@));
    }
    out
}

/// The span trail for a stack of spans, from the root to the current one.
pub fn trail(spans: &Vec<SpanFrame>) -> (out: String)
    ensures
        out@ == trail_text(frames_view(spans@)),
{
    let ghost frames = frames_view(spans@);
    if spans.len() == 0 {
        return String::new();
    }
    let mut parts: Vec<String> = Vec::new();
    let mut i: usize = 0;
    while i < spans.len()
        invariant
            i <= spans.len(),
            frames == frames_view(spans@),
            parts.len() == i,
            forall|j: int| 0 <= j < i ==> (#[trigger] parts[j])@ == frame_text(frames[j]),
        decreases spans.len() - i,
    {
        parts.push(frame(&spans[i]));
        i = i + 1;
    }
    proof {
        reveal_strlit("(");
        reveal_strlit(")");
        assert("("@ =~= seq!['(']);
        assert(")"@ =~= seq![')']);
        assert(views_of(parts@) =~= frame_texts(frames));
    }
    let mut out = paint_both(Style::Dimmed, Style::Purple, "(");
    out.append(join(&parts, separator().as_str()).as_str());
    out.append(paint_both(Style::Dimmed, Style::Purple, ")").as_str());
    out
}

/// The styled place in the source, with placeholders for what is missing.
pub fn location(file: &Option<String>, line: Option<u32>) -> (out: String)
    ensures
        out@ == location_text(optional_text(*file), optional_number(line)),
{
    proof {
        reveal_strlit("<unknown>.rs");
        reveal_strlit("??");
        reveal_strlit(":");
        assert("<unknown>.rs"@ =~= unknown_file_text());
        assert("??"@ =~= unknown_line_text());
    }
    let mut place = match file {
        Some(name) => paint(Style::Blue, name.as_str()),
        None => paint(Style::Blue, "<unknown>.rs"),
    };
    place.append(":");
    let number = match line {
        Some(number) => paint(Style::Blue, decimal(number as u64).as_str()),
        None => paint(Style::Blue, "??"),
    };
    place.append(number.as_str());
    paint_both(Style::Underline, Style::Dimmed, place.as_str())
}

/// The right block of the line for `event`, with `spans` active.
pub fn right_block(event: &LogEvent, spans: &Vec<SpanFrame>) -> (out: String)
    ensures
        out@ == right_text(event@, frames_view(spans@)),
{
    let mut out = paint_both(Style::Dimmed, Style::Purple, event.target.as_str());
    out.append(trail(spans).as_str());
    out.append(" ");
    out.append(location(&event.source_file, event.source_line).as_str());
    proof {
        reveal_strlit(" ");
        assert(out@ =~= right_text(event@, frames_view(spans@)));
    }
    out
}

/// The number of spaces to put between two blocks of the given widths.
pub fn padding_for(left_width: usize, right_width: usize, terminal_width: usize) -> (count: usize)
    ensures
        count == padding(left_width as nat, right_width as nat, terminal_width as nat),
        count >= 1,
{
    match left_width.checked_add(right_width) {
        Some(total) => if total < terminal_width {
            terminal_width - total
        } else {
            1
        },
        None => 1,
    }
}

/// Puts two blocks, whose widths on the terminal are given, on one line.
pub fn lay_out(
    left: &str,
    left_width: usize,
    right: &str,
    right_width: usize,
    terminal_width: usize,
) -> (out: String)
    ensures
        out@ == laid_out_text(
            left@,
            left_width as nat,
            right@,
            right_width as nat,
            terminal_width as nat,
        ),
{
    let mut out = String::from_str(left);
    out.append(spaces(padding_for(left_width, right_width, terminal_width)).as_str());
    out.append(right);
    out
}

/// Renders the line for an event that fired at `time`, for a terminal of
/// `terminal_width` columns.
pub fn render_at(
    event: &LogEvent,
    spans: &Vec<SpanFrame>,
    terminal_width: usize,
    time: TimeOfDay,
) -> (out: String)
    ensures
        out@ == line_text(event@, frames_view(spans@), terminal_width as nat, time),
{
    let left = left_block(event, time);
    let right = right_block(event, spans);
    let left_width: usize = measure(left.as_str());
    let right_width: usize = measure(right.as_str());
    lay_out(left.as_str(), left_width, right.as_str(), right_width, terminal_width)
}

/// Renders the line for an event, given what reading the clock gave: the
/// line stamped with the time that was read, or the clock's error handed
/// on where no time could be read.
pub fn render_with_clock(
    event: &LogEvent,
    spans: &Vec<SpanFrame>,
    terminal_width: usize,
    clock: Result<TimeOfDay, ClockBeforeEpoch>,
) -> (out: Result<String, ClockBeforeEpoch>)
    ensures
        match clock {
            Ok(time) => out matches Ok(line) && line@ == line_text(
                event@,
                frames_view(spans@),
                terminal_width as nat,
                time,
            ),
            Err(e) => out matches Err(error) && error == e,
        },
{
    match clock {
        Ok(time) => Ok(render_at(event, spans, terminal_width, time)),
        Err(e) => Err(e),
    }
}

/// Renders the line for an event that fires now, for a terminal of
/// `terminal_width` columns. The clock is read once; whatever it shows,
/// the line is the one that `line_text` gives for that time. Whether a
/// time can be read lies with the clock: `render_with_clock` says what
/// comes of each reading.
pub fn render(event: &LogEvent, spans: &Vec<SpanFrame>, terminal_width: usize) -> (out: Result<
    String,
    ClockBeforeEpoch,
>)
    ensures
        out matches Ok(line) ==> exists|time: TimeOfDay|
            time.wf() && line@ == #[trigger] line_text(
                event@,
                frames_view(spans@),
                terminal_width as nat,
                time,
            ),
{
    let clock = read_clock();
    let out = render_with_clock(event, spans, terminal_width, clock);
    proof {
        if out is Ok {
            let time = clock->Ok_0;
            assert(out->Ok_0@ == line_text(
                event@,
                frames_view(spans@),
                terminal_width as nat,
                time,
            ));
        }
    }
    out
}

/// Renders the line for an event that fires now, for the terminal that
/// the standard output is connected to. Its width is asked for anew on
/// every call.
pub fn render_for_stdout(event: &LogEvent, spans: &Vec<SpanFrame>) -> (out: Result<
    String,
    ClockBeforeEpoch,
>)
    ensures
        out matches Ok(line) ==> exists|time: TimeOfDay, columns: u16|
            time.wf() && line@ == #[trigger] line_text(
                event@,
                frames_view(spans@),
                columns as nat,
                time,
            ),
{
    let columns: u16 = terminal_columns();
    let out = render(event, spans, columns as usize);
    proof {
        if out is Ok {
            let line = out->Ok_0;
            let time = choose|time: TimeOfDay|
                time.wf() && line@ == #[trigger] line_text(
                    event@,
                    frames_view(spans@),
                    columns as nat,
                    time,
                );
            assert(line@ == line_text(event@, frames_view(spans@), columns as nat, time));
        }
    }
    out
}

} // verus!
