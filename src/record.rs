use crate::clock::{format_stamp, is_digit, stamp_text, ClockTime};
use crate::level::LogLevel;
use vstd::prelude::*;
use vstd::string::StringExecFns;

verus! {

/// The tag a record shows for its level.
pub open spec fn tag_text(l: LogLevel) -> Seq<char> {
    match l {
        LogLevel::Debug => seq!['D', 'E', 'B', 'U', 'G'],
        LogLevel::Info => seq!['I', 'N', 'F', 'O'],
        LogLevel::Warn => seq!['W', 'A', 'R', 'N'],
        LogLevel::Error => seq!['E', 'R', 'R'],
        _ => Seq::empty(),
    }
}

/// The SGR color code of a level on the console.
pub open spec fn color_code(l: LogLevel) -> Seq<char> {
    match l {
        LogLevel::Debug => seq!['3', '2'],
        LogLevel::Info => seq!['3', '4'],
        LogLevel::Warn => seq!['3', '3'],
        LogLevel::Error => seq!['3', '1'],
        _ => Seq::empty(),
    }
}

/// The line of a record: `[HH:MM:SS:fff][LEVEL][MODULE] MESSAGE`.
pub open spec fn record_text(t: ClockTime, l: LogLevel, module: Seq<char>, message: Seq<char>) -> Seq<
    char,
> {
    seq!['['] + stamp_text(t) + seq![']', '['] + tag_text(l) + seq![']', '['] + module + seq![
        ']',
        ' ',
    ] + message
}

/// What the console receives for a line: color on, the line, color off, newline.
pub open spec fn console_text(l: LogLevel, line: Seq<char>) -> Seq<char> {
    seq!['\x1b', '['] + color_code(l) + seq!['m'] + line + seq!['\x1b', '[', '0', 'm', '\n']
}

/// No character of `s` is `c`.
pub open spec fn lacks(s: Seq<char>, c: char) -> bool {
    forall|i: int| 0 <= i < s.len() ==> s[i] != c
}

/// The shape of a stamp: `dd:dd:dd:ddd`.
pub open spec fn stamp_shape(s: Seq<char>) -> bool {
    &&& s.len() == 12
    &&& forall|i: int|
        0 <= i < 12 && i != 2 && i != 5 && i != 8 ==> #[trigger] is_digit(s[i])
    &&& s[2] == ':' && s[5] == ':' && s[8] == ':'
}

/// The shape of a record line: a bracketed stamp, a bracketed level tag, a
/// bracketed module free of `]`, a space, and a message on one line.
pub open spec fn line_shape(s: Seq<char>) -> bool {
    exists|stamp: Seq<char>, l: LogLevel, module: Seq<char>, message: Seq<char>|
        {
            &&& stamp_shape(stamp)
            &&& l.is_record_level()
            &&& lacks(module, ']')
            &&& lacks(message, '\n')
            &&& s == seq!['['] + stamp + seq![']', '['] + tag_text(l) + seq![']', '['] + module
                + seq![']', ' '] + message
        }
}

fn tag_str(l: LogLevel) -> (r: &'static str)
    requires
        l.is_record_level(),
    ensures
        r@ == tag_text(l),
{
    proof {
        reveal_strlit("DEBUG");
        reveal_strlit("INFO");
        reveal_strlit("WARN");
        reveal_strlit("ERR");
    }
    match l {
        LogLevel::Debug => "DEBUG",
        LogLevel::Info => "INFO",
        LogLevel::Warn => "WARN",
        _ => "ERR",
    }
}

fn color_on_str(l: LogLevel) -> (r: &'static str)
    requires
        l.is_record_level(),
    ensures
        r@ == seq!['\x1b', '['] + color_code(l) + seq!['m'],
{
    proof {
        reveal_strlit("\x1b[32m");
        reveal_strlit("\x1b[34m");
        reveal_strlit("\x1b[33m");
        reveal_strlit("\x1b[31m");
    }
    let r = match l {
        LogLevel::Debug => "\x1b[32m",
        LogLevel::Info => "\x1b[34m",
        LogLevel::Warn => "\x1b[33m",
        _ => "\x1b[31m",
    };
    assert(r@ =~= seq!['\x1b', '['] + color_code(l) + seq!['m']);
    r
}

/// Formats a record as `[HH:MM:SS:fff][LEVEL][MODULE] MESSAGE`, module and
/// message taken literally.
pub fn format_record(t: &ClockTime, l: LogLevel, module: &str, message: &str) -> (r: String)
    requires
        t.wf(),
        l.is_record_level(),
    ensures
        r@ == record_text(*t, l, module@, message@),
{
    proof {
        reveal_strlit("[");
        reveal_strlit("][");
        reveal_strlit("] ");
    }
    let mut out = String::new();
    out.append("[");
    let stamp = format_stamp(t);
    out.append(stamp.as_str());
    out.append("][");
    out.append(tag_str(l));
    out.append("][");
    out.append(module);
    out.append("] ");
    out.append(message);
    assert(out@ =~= record_text(*t, l, module@, message@));
    out
}

/// Wraps a record line in the color of its level and ends it with a newline.
pub fn console_line(l: LogLevel, line: &str) -> (r: String)
    requires
        l.is_record_level(),
    ensures
        r@ == console_text(l, line@),
{
    proof {
        reveal_strlit("\x1b[0m\n");
    }
    let mut out = String::new();
    out.append(color_on_str(l));
    out.append(line);
    out.append("\x1b[0m\n");
    assert(out@ =~= console_text(l, line@));
    out
}

proof fn lemma_digit_char(d: nat)
    ensures
        is_digit(crate::clock::digit_char(d)),
{
}

/// A stamp always has the shape `dd:dd:dd:ddd`.
pub proof fn lemma_stamp_shape(t: ClockTime)
    requires
        t.wf(),
    ensures
        stamp_shape(stamp_text(t)),
{
    let s = stamp_text(t);
    assert forall|i: int| 0 <= i < 12 && i != 2 && i != 5 && i != 8 implies #[trigger] is_digit(
        s[i],
    ) by {
        lemma_digit_char(t.hour as nat / 10);
        lemma_digit_char(t.hour as nat % 10);
        lemma_digit_char(t.minute as nat / 10);
        lemma_digit_char(t.minute as nat % 10);
        lemma_digit_char(t.second as nat / 10);
        lemma_digit_char(t.second as nat % 10);
        lemma_digit_char(t.millis() / 100);
        lemma_digit_char((t.millis() / 10) % 10);
        lemma_digit_char(t.millis() % 10);
    }
}

/// Where the module holds no `]` and the message no newline, a record line has
/// the shape `[dd:dd:dd:ddd][LEVEL][MODULE] MESSAGE` with LEVEL one of the four tags.
pub proof fn lemma_record_shape(t1: ClockTime, l: LogLevel, module: Seq<char>, message: Seq<char>)
    requires
        t1.wf(),
        l.is_record_level(),
        lacks(module, ']'),
        lacks(message, '\n'),
    ensures
        line_shape(record_text(t1, l, module, message)),
{
    lemma_stamp_shape(t1);
    let s = record_text(t1, l, module, message);
    assert(s == seq!['['] + stamp_text(t1) + seq![']', '['] + tag_text(l) + seq![']', '[']
        + module + seq![']', ' '] + message);
}

} // verus!
