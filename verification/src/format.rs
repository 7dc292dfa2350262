use vstd::prelude::*;
use vstd::string::StrSliceExecFns;

use crate::channel::EventChannel;
use crate::chars::chars_of;
use crate::events::{LogEvent, LogEventView};
use crate::utils::{parse_timestamp, rfc3339_utc_of, timestamp_in_render_range, MAX_RENDERABLE_MS, MIN_RENDERABLE_MS};

verus! {

/// Which of the two event renderings the writer uses.
#[derive(Debug, Clone, Copy, PartialEq, Eq, Structural)]
pub enum OutputType {
    Text,
    Json,
}

/// Everything the output writer is configured with, fixed once at startup:
/// the rendering, which optional fields are printed, whether timestamps are
/// shown in the machine's local zone, and whether the terminal takes colors.
#[derive(Debug, Clone, Copy, PartialEq, Eq, Structural)]
pub struct FormatOptions {
    pub output: OutputType,
    pub use_local_time: bool,
    pub with_timestamp: bool,
    pub with_group_name: bool,
    pub with_stream_name: bool,
    pub with_event_id: bool,
    pub color: bool,
}

/// `s` wrapped in an ANSI color sequence when `on` holds, bare otherwise.
pub open spec fn color_wrap(code: Seq<char>, s: Seq<char>, on: bool) -> Seq<char> {
    if on {
        code + s + "\u{1b}[0m"@
    } else {
        s
    }
}

/// One optional field of the text rendering: the (possibly colorized) value
/// followed by the separator.
pub open spec fn text_field(code: Seq<char>, s: Seq<char>, on: bool) -> Seq<char> {
    color_wrap(code, s, on) + " - "@
}

/// The text rendering of one event: optional timestamp, source name,
/// substream name and event id, each followed by a separator, then the
/// message, newline-terminated. Only fields whose flag is on appear, and the
/// timestamp only when it was renderable.
pub open spec fn text_line_spec(
    o: FormatOptions,
    ev: LogEventView,
    ts: Option<Seq<char>>,
) -> Seq<char> {
    (if o.with_timestamp && ts is Some {
        text_field("\u{1b}[32m"@, ts->Some_0, o.color)
    } else {
        Seq::empty()
    }) + (if o.with_group_name {
        text_field("\u{1b}[34m"@, ev.group_name, o.color)
    } else {
        Seq::empty()
    }) + (if o.with_stream_name && ev.log_stream_name is Some {
        text_field("\u{1b}[36m"@, ev.log_stream_name->Some_0, o.color)
    } else {
        Seq::empty()
    }) + (if o.with_event_id && ev.event_id is Some {
        text_field("\u{1b}[33m"@, ev.event_id->Some_0, o.color)
    } else {
        Seq::empty()
    }) + (match ev.message {
        Some(m) => m,
        None => Seq::empty(),
    }) + "\n"@
}

/// The lower-case hexadecimal digit for `n` (0 to 15).
pub open spec fn hex_digit(n: int) -> char {
    if n == 0 {
        '0'
    } else if n == 1 {
        '1'
    } else if n == 2 {
        '2'
    } else if n == 3 {
        '3'
    } else if n == 4 {
        '4'
    } else if n == 5 {
        '5'
    } else if n == 6 {
        '6'
    } else if n == 7 {
        '7'
    } else if n == 8 {
        '8'
    } else if n == 9 {
        '9'
    } else if n == 10 {
        'a'
    } else if n == 11 {
        'b'
    } else if n == 12 {
        'c'
    } else if n == 13 {
        'd'
    } else if n == 14 {
        'e'
    } else {
        'f'
    }
}

/// How one character is written inside a JSON string: quotes and backslashes
/// are escaped, the common control characters take their short escapes, any
/// other control character its `\u00..` form, and everything else stands as
/// it is.
pub open spec fn esc_char(c: char) -> Seq<char> {
    if c == '"' {
        seq!['\\', '"']
    } else if c == '\\' {
        seq!['\\', '\\']
    } else if c == '\u{8}' {
        seq!['\\', 'b']
    } else if c == '\t' {
        seq!['\\', 't']
    } else if c == '\n' {
        seq!['\\', 'n']
    } else if c == '\u{c}' {
        seq!['\\', 'f']
    } else if c == '\r' {
        seq!['\\', 'r']
    } else if (c as u32) < 0x20 {
        seq!['\\', 'u', '0', '0', hex_digit((c as int) / 16), hex_digit((c as int) % 16)]
    } else {
        seq![c]
    }
}

/// A whole character sequence escaped for the inside of a JSON string.
pub open spec fn json_escape(s: Seq<char>) -> Seq<char>
    decreases s.len(),
{
    if s.len() == 0 {
        Seq::empty()
    } else {
        esc_char(s[0]) + json_escape(s.drop_first())
    }
}

/// Escaping distributes over concatenation.
proof fn lemma_json_escape_concat(a: Seq<char>, b: Seq<char>)
    ensures
        json_escape(a + b) == json_escape(a) + json_escape(b),
    decreases a.len(),
{
    if a.len() == 0 {
        assert(a + b =~= b);
        assert(json_escape(a) + json_escape(b) =~= json_escape(b));
    } else {
        lemma_json_escape_concat(a.drop_first(), b);
        assert((a + b).drop_first() =~= a.drop_first() + b);
        assert(esc_char((a + b)[0]) + (json_escape(a.drop_first()) + json_escape(b)) =~= (esc_char(
            a[0],
        ) + json_escape(a.drop_first())) + json_escape(b));
    }
}

/// A quoted JSON string holding the escaped characters of `s`.
pub open spec fn json_string(s: Seq<char>) -> Seq<char> {
    seq!['"'] + json_escape(s) + seq!['"']
}

/// The JSON rendering of one event, one object per line: `message` always
/// (`null` when the event has none), then `timestamp`, `id`, `group` and
/// `stream` only when their flag is on and the value is there.
pub open spec fn json_line_spec(
    o: FormatOptions,
    ev: LogEventView,
    ts: Option<Seq<char>>,
) -> Seq<char> {
    "{\"message\":"@ + (match ev.message {
        Some(m) => json_string(m),
        None => "null"@,
    }) + (if o.with_timestamp && ts is Some {
        ",\"timestamp\":"@ + json_string(ts->Some_0)
    } else {
        Seq::empty()
    }) + (if o.with_event_id && ev.event_id is Some {
        ",\"id\":"@ + json_string(ev.event_id->Some_0)
    } else {
        Seq::empty()
    }) + (if o.with_group_name {
        ",\"group\":"@ + json_string(ev.group_name)
    } else {
        Seq::empty()
    }) + (if o.with_stream_name && ev.log_stream_name is Some {
        ",\"stream\":"@ + json_string(ev.log_stream_name->Some_0)
    } else {
        Seq::empty()
    }) + "}\n"@
}

/// The line the writer emits for one event, under either rendering.
pub open spec fn line_spec(o: FormatOptions, ev: LogEventView, ts: Option<Seq<char>>) -> Seq<char> {
    match o.output {
        OutputType::Text => text_line_spec(o, ev, ts),
        OutputType::Json => json_line_spec(o, ev, ts),
    }
}

/// Appends the JSON escape of one character.
fn push_esc_char(out: &mut String, c: char)
    ensures
        final(out)@ == old(out)@ + esc_char(c),
{
    if c == '"' {
        out.push('\\');
        out.push('"');
        proof {
            assert(out@ =~= old(out)@ + esc_char(c));
        }
    } else if c == '\\' {
        out.push('\\');
        out.push('\\');
        proof {
            assert(out@ =~= old(out)@ + esc_char(c));
        }
    } else if c == '\u{8}' {
        out.push('\\');
        out.push('b');
        proof {
            assert(out@ =~= old(out)@ + esc_char(c));
        }
    } else if c == '\t' {
        out.push('\\');
        out.push('t');
        proof {
            assert(out@ =~= old(out)@ + esc_char(c));
        }
    } else if c == '\n' {
        out.push('\\');
        out.push('n');
        proof {
            assert(out@ =~= old(out)@ + esc_char(c));
        }
    } else if c == '\u{c}' {
        out.push('\\');
        out.push('f');
        proof {
            assert(out@ =~= old(out)@ + esc_char(c));
        }
    } else if c == '\r' {
        out.push('\\');
        out.push('r');
        proof {
            assert(out@ =~= old(out)@ + esc_char(c));
        }
    } else if (c as u32) < 0x20 {
        out.push('\\');
        out.push('u');
        out.push('0');
        out.push('0');
        let hi = (c as u32) / 16;
        let lo = (c as u32) % 16;
        out.push(hex_digit_exec(hi));
        out.push(hex_digit_exec(lo));
        proof {
            assert(out@ =~= old(out)@ + esc_char(c));
        }
    } else {
        out.push(c);
        proof {
            assert(out@ =~= old(out)@ + esc_char(c));
        }
    }
}

/// Appends `s` escaped for the inside of a JSON string.
fn push_json_escaped(out: &mut String, s: &str)
    ensures
        final(out)@ == old(out)@ + json_escape(s@),
{
    let cs = chars_of(s);
    let n = cs.len();
    let mut i: usize = 0;
    while i < n
        invariant
            i <= n,
            n == cs@.len(),
            cs@ == s@,
            out@ == old(out)@ + json_escape(s@.take(i as int)),
        decreases n - i,
    {
        push_esc_char(out, cs[i]);
        proof {
            assert(s@.take(i + 1) =~= s@.take(i as int) + seq![s@[i as int]]);
            lemma_json_escape_concat(s@.take(i as int), seq![s@[i as int]]);
            assert(seq![s@[i as int]].drop_first() =~= Seq::<char>::empty());
            assert(json_escape(Seq::<char>::empty()) == Seq::<char>::empty());
            assert(json_escape(seq![s@[i as int]]) =~= esc_char(s@[i as int]));
            assert(out@ =~= old(out)@ + json_escape(s@.take(i + 1)));
        }
        i = i + 1;
    }
    proof {
        assert(s@.take(n as int) =~= s@);
    }
}

/// The lower-case hexadecimal digit for `n` (0 to 15).
fn hex_digit_exec(n: u32) -> (r: char)
    requires
        n < 16,
    ensures
        r == hex_digit(n as int),
{
    if n == 0 {
        '0'
    } else if n == 1 {
        '1'
    } else if n == 2 {
        '2'
    } else if n == 3 {
        '3'
    } else if n == 4 {
        '4'
    } else if n == 5 {
        '5'
    } else if n == 6 {
        '6'
    } else if n == 7 {
        '7'
    } else if n == 8 {
        '8'
    } else if n == 9 {
        '9'
    } else if n == 10 {
        'a'
    } else if n == 11 {
        'b'
    } else if n == 12 {
        'c'
    } else if n == 13 {
        'd'
    } else if n == 14 {
        'e'
    } else {
        'f'
    }
}

pub open spec fn opt_str_view(ts: Option<&str>) -> Option<Seq<char>> {
    match ts {
        Some(s) => Some(s@),
        None => None,
    }
}

/// Appends one (possibly colorized) field value and the separator.
fn push_text_field(out: &mut String, code: &str, s: &str, on: bool)
    ensures
        final(out)@ == old(out)@ + text_field(code@, s@, on),
{
    if on {
        out.append(code);
        out.append(s);
        out.append("\u{1b}[0m");
    } else {
        out.append(s);
    }
    out.append(" - ");
}

/// Renders one event as a text line, given the already rendered timestamp
/// (if any): exactly `text_line_spec`.
pub fn format_text_line(o: &FormatOptions, ev: &LogEvent, ts: Option<&str>) -> (r: String)
    ensures
        r@ == text_line_spec(*o, ev@, opt_str_view(ts)),
{
    let ghost tsv = opt_str_view(ts);
    let ghost s1: Seq<char> = if o.with_timestamp && tsv is Some {
        text_field("\u{1b}[32m"@, tsv->Some_0, o.color)
    } else {
        Seq::empty()
    };
    let ghost s2: Seq<char> = if o.with_group_name {
        text_field("\u{1b}[34m"@, ev@.group_name, o.color)
    } else {
        Seq::empty()
    };
    let ghost s3: Seq<char> = if o.with_stream_name && ev@.log_stream_name is Some {
        text_field("\u{1b}[36m"@, ev@.log_stream_name->Some_0, o.color)
    } else {
        Seq::empty()
    };
    let ghost s4: Seq<char> = if o.with_event_id && ev@.event_id is Some {
        text_field("\u{1b}[33m"@, ev@.event_id->Some_0, o.color)
    } else {
        Seq::empty()
    };
    let ghost sm: Seq<char> = match ev@.message {
        Some(m) => m,
        None => Seq::empty(),
    };

    let mut out = String::new();
    if o.with_timestamp {
        if let Some(t) = ts {
            push_text_field(&mut out, "\u{1b}[32m", t, o.color);
        }
    }
    proof {
        assert(out@ =~= s1);
    }
    if o.with_group_name {
        push_text_field(&mut out, "\u{1b}[34m", ev.group_name.as_str(), o.color);
    }
    proof {
        assert(out@ =~= s1 + s2);
    }
    if o.with_stream_name {
        if let Some(stream) = &ev.log_stream_name {
            push_text_field(&mut out, "\u{1b}[36m", stream.as_str(), o.color);
        }
    }
    proof {
        assert(out@ =~= s1 + s2 + s3);
    }
    if o.with_event_id {
        if let Some(id) = &ev.event_id {
            push_text_field(&mut out, "\u{1b}[33m", id.as_str(), o.color);
        }
    }
    proof {
        assert(out@ =~= s1 + s2 + s3 + s4);
    }
    if let Some(msg) = &ev.message {
        out.append(msg.as_str());
    }
    out.append("\n");
    proof {
        assert(out@ =~= s1 + s2 + s3 + s4 + sm + "\n"@);
    }
    out
}

/// Appends a quoted, escaped JSON string.
pub(crate) fn push_json_string(out: &mut String, s: &str)
    ensures
        final(out)@ == old(out)@ + json_string(s@),
{
    out.push('"');
    push_json_escaped(out, s);
    out.push('"');
}

/// Renders one event as a JSON line, given the already rendered timestamp
/// (if any): exactly `json_line_spec`.
#[verifier::rlimit(50)]
pub fn format_json_line(o: &FormatOptions, ev: &LogEvent, ts: Option<&str>) -> (r: String)
    ensures
        r@ == json_line_spec(*o, ev@, opt_str_view(ts)),
{
    let ghost tsv = opt_str_view(ts);
    let ghost s0: Seq<char> = "{\"message\":"@ + (match ev@.message {
        Some(m) => json_string(m),
        None => "null"@,
    });
    let ghost s1: Seq<char> = if o.with_timestamp && tsv is Some {
        ",\"timestamp\":"@ + json_string(tsv->Some_0)
    } else {
        Seq::empty()
    };
    let ghost s2: Seq<char> = if o.with_event_id && ev@.event_id is Some {
        ",\"id\":"@ + json_string(ev@.event_id->Some_0)
    } else {
        Seq::empty()
    };
    let ghost s3: Seq<char> = if o.with_group_name {
        ",\"group\":"@ + json_string(ev@.group_name)
    } else {
        Seq::empty()
    };
    let ghost s4: Seq<char> = if o.with_stream_name && ev@.log_stream_name is Some {
        ",\"stream\":"@ + json_string(ev@.log_stream_name->Some_0)
    } else {
        Seq::empty()
    };

    let mut out = String::new();
    out.append("{\"message\":");
    match &ev.message {
        Some(m) => push_json_string(&mut out, m.as_str()),
        None => out.append("null"),
    }
    proof {
        assert(out@ =~= s0);
    }
    if o.with_timestamp {
        if let Some(t) = ts {
            out.append(",\"timestamp\":");
            push_json_string(&mut out, t);
        }
    }
    proof {
        assert(out@ =~= s0 + s1);
    }
    if o.with_event_id {
        if let Some(id) = &ev.event_id {
            out.append(",\"id\":");
            push_json_string(&mut out, id.as_str());
        }
    }
    proof {
        assert(out@ =~= s0 + s1 + s2);
    }
    if o.with_group_name {
        out.append(",\"group\":");
        push_json_string(&mut out, ev.group_name.as_str());
    }
    proof {
        assert(out@ =~= s0 + s1 + s2 + s3);
    }
    if o.with_stream_name {
        if let Some(stream) = &ev.log_stream_name {
            out.append(",\"stream\":");
            push_json_string(&mut out, stream.as_str());
        }
    }
    proof {
        assert(out@ =~= s0 + s1 + s2 + s3 + s4);
    }
    out.append("}\n");
    proof {
        assert(out@ =~= s0 + s1 + s2 + s3 + s4 + "}\n"@);
    }
    out
}

/// The rendered timestamp of `ev` under options `o`, at the level of the
/// model: present only when timestamps are printed, the event has one, and
/// it is representable.
pub open spec fn event_ts(o: FormatOptions, ev: LogEventView) -> Option<Seq<char>> {
    if o.with_timestamp && ev.timestamp is Some {
        rfc3339_utc_of(ev.timestamp->Some_0)
    } else {
        None
    }
}

/// Whether a line rendered with local times carries a timestamp: as for UTC,
/// and additionally the value must sit inside the range that local-zone
/// rendering accepts.
pub open spec fn local_event_ts_present(o: FormatOptions, ev: LogEventView) -> bool {
    &&& o.with_timestamp
    &&& ev.timestamp is Some
    &&& timestamp_in_render_range(ev.timestamp->Some_0)
    &&& rfc3339_utc_of(ev.timestamp->Some_0) is Some
}

/// What a line rendered with local times looks like: the event's line under
/// some timestamp text, present exactly when the timestamp is locally
/// renderable. The text itself depends on the machine's zone, so it is
/// existentially quantified.
pub open spec fn local_line_ok(o: FormatOptions, ev: LogEventView, line: Seq<char>) -> bool {
    exists|ts: Option<Seq<char>>|
        (ts is Some <==> local_event_ts_present(o, ev)) && line == line_spec(o, ev, ts)
}

/// Renders one event as the writer prints it: the configured rendering, with
/// the event's timestamp rendered first. With UTC timestamps the whole line
/// is pinned exactly; with local-time ones the timestamp text depends on the
/// machine's zone, so the line is pinned up to that text (which is present
/// for exactly the renderable timestamps).
pub fn render_event(o: &FormatOptions, ev: &LogEvent) -> (r: String)
    ensures
        !o.use_local_time ==> r@ == line_spec(*o, ev@, event_ts(*o, ev@)),
        o.use_local_time ==> local_line_ok(*o, ev@, r@),
{
    let ts: Option<String> = if o.with_timestamp {
        match ev.timestamp {
            Some(ms) => {
                if !o.use_local_time {
                    parse_timestamp(ms, false)
                } else if MIN_RENDERABLE_MS <= ms && ms <= MAX_RENDERABLE_MS {
                    parse_timestamp(ms, true)
                } else {
                    // Local-zone rendering refuses the outermost sliver of
                    // the calendar's range; such a timestamp goes unprinted.
                    None
                }
            },
            None => None,
        }
    } else {
        None
    };
    let ts_ref: Option<&str> = match &ts {
        Some(s) => Some(s.as_str()),
        None => None,
    };
    let line = match o.output {
        OutputType::Text => format_text_line(o, ev, ts_ref),
        OutputType::Json => format_json_line(o, ev, ts_ref),
    };
    proof {
        if !o.use_local_time {
            assert(opt_str_view(ts_ref) == event_ts(*o, ev@));
        } else {
            assert((opt_str_view(ts_ref) is Some <==> local_event_ts_present(*o, ev@)) && line@
                == line_spec(*o, ev@, opt_str_view(ts_ref)));
            assert(local_line_ok(*o, ev@, line@));
        }
    }
    line
}

/// Drains the channel, rendering every queued event in arrival order: one
/// line per event, nothing skipped, nothing reordered, and the channel left
/// empty — exactly what the output writer does until the producers hang up.
pub fn drain_to_lines(chan: &mut EventChannel, o: &FormatOptions) -> (lines: Vec<String>)
    ensures
        final(chan)@.len() == 0,
        lines@.len() == old(chan)@.len(),
        !o.use_local_time ==> forall|i: int|
            0 <= i < lines@.len() ==> (#[trigger] lines@[i])@ == line_spec(
                *o,
                old(chan)@[i]@,
                event_ts(*o, old(chan)@[i]@),
            ),
        o.use_local_time ==> forall|i: int|
            0 <= i < lines@.len() ==> local_line_ok(*o, old(chan)@[i]@, (#[trigger] lines@[i])@),
{
    let mut lines: Vec<String> = Vec::new();
    loop
        invariant
            chan@ =~= old(chan)@.skip(lines@.len() as int),
            lines@.len() <= old(chan)@.len(),
            !o.use_local_time ==> forall|i: int|
                0 <= i < lines@.len() ==> (#[trigger] lines@[i])@ == line_spec(
                    *o,
                    old(chan)@[i]@,
                    event_ts(*o, old(chan)@[i]@),
                ),
            o.use_local_time ==> forall|i: int|
                0 <= i < lines@.len() ==> local_line_ok(
                    *o,
                    old(chan)@[i]@,
                    (#[trigger] lines@[i])@,
                ),
        ensures
            chan@.len() == 0,
            lines@.len() == old(chan)@.len(),
            !o.use_local_time ==> forall|i: int|
                0 <= i < lines@.len() ==> (#[trigger] lines@[i])@ == line_spec(
                    *o,
                    old(chan)@[i]@,
                    event_ts(*o, old(chan)@[i]@),
                ),
            o.use_local_time ==> forall|i: int|
                0 <= i < lines@.len() ==> local_line_ok(
                    *o,
                    old(chan)@[i]@,
                    (#[trigger] lines@[i])@,
                ),
        decreases chan@.len(),
    {
        let ghost n0 = lines@.len();
        match chan.recv() {
            None => {
                break ;
            },
            Some(ev) => {
                proof {
                    assert(ev == old(chan)@[n0 as int]);
                }
                let line = render_event(o, &ev);
                lines.push(line);
                proof {
                    assert(chan@ =~= old(chan)@.skip(lines@.len() as int));
                    if o.use_local_time {
                        assert(local_line_ok(*o, old(chan)@[n0 as int]@, lines@[n0 as int]@));
                    }
                }
            },
        }
    }
    lines
}

} // verus!
