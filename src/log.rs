//! Classification of the lines that the evaluator writes on its output
//! streams: structured events or opaque text.
use vstd::prelude::*;
use vstd::string::*;
use crate::text::{has_prefix, starts_with, substring};

verus! {

/// A structured event: its action tag and the text of its record.
#[derive(Debug)]
pub struct Internal {
    pub action: String,
    pub fields: String,
}

/// One line of a child process's output.
#[derive(Debug)]
pub enum NixLog {
    Raw(String),
    Internal(Internal),
}

/// What a line of output is, as text.
pub enum LogLine {
    Raw(Seq<char>),
    Event { action: Seq<char>, fields: Seq<char> },
}

impl View for NixLog {
    type V = LogLine;

    open spec fn view(&self) -> LogLine {
        match self {
            NixLog::Raw(s) => LogLine::Raw(s@),
            NixLog::Internal(i) => LogLine::Event { action: i.action@, fields: i.fields@ },
        }
    }
}

/// The text of an optional string.
pub open spec fn opt_view(a: Option<String>) -> Option<Seq<char>> {
    match a {
        Some(s) => Some(s@),
        None => None,
    }
}

/// The marker that may precede a structured record.
pub open spec fn log_marker() -> Seq<char> {
    "@nix "@
}

/// A line with its marker, if any, taken off.
pub open spec fn stripped(line: Seq<char>) -> Seq<char> {
    if has_prefix(line, log_marker()) {
        line.subrange(log_marker().len() as int, line.len() as int)
    } else {
        line
    }
}

/// Takes the marker off a line, where it has one.
pub fn strip_log_prefix(line: &str) -> (r: String)
    ensures
        r@ == stripped(line@),
{
    proof {
        reveal_strlit("@nix ");
    }
    if starts_with(line, "@nix ") {
        substring(line, 5, line.unicode_len())
    } else {
        String::from_str(line)
    }
}

/// The action of the events that carry nothing worth keeping.
pub open spec fn stop_action() -> Seq<char> {
    "stop"@
}

/// What a line becomes, given the action of the structured record that its
/// stripped text decoded to (`None` when it did not decode): opaque text, an
/// event, or nothing for a stop event.
pub open spec fn classified(line: Seq<char>, action: Option<Seq<char>>) -> Option<LogLine> {
    match action {
        None => Some(LogLine::Raw(line)),
        Some(a) => if a == stop_action() {
            None
        } else {
            Some(LogLine::Event { action: a, fields: stripped(line) })
        },
    }
}

/// Classifies `line`, where `action` is the action of the structured record
/// that its stripped text decoded to, if it decoded.
pub fn classify_line(line: String, action: Option<String>) -> (r: Option<NixLog>)
    ensures
        r matches Some(l) ==> classified(line@, opt_view(action)) == Some(l@),
        r is None ==> classified(line@, opt_view(action)) is None,
{
    proof {
        reveal_strlit("stop");
    }
    match action {
        None => Some(NixLog::Raw(line)),
        Some(a) => {
            if a == String::from_str("stop") {
                None
            } else {
                let fields = strip_log_prefix(line.as_str());
                Some(NixLog::Internal(Internal { action: a, fields }))
            }
        },
    }
}

/// The lines kept from `lines`, each classified with its decoded action.
pub open spec fn retained(lines: Seq<Seq<char>>, actions: Seq<Option<Seq<char>>>) -> Seq<LogLine>
    decreases lines.len(),
{
    if lines.len() == 0 || actions.len() != lines.len() {
        seq![]
    } else {
        let rest = retained(lines.drop_last(), actions.drop_last());
        match classified(lines.last(), actions.last()) {
            Some(l) => rest.push(l),
            None => rest,
        }
    }
}

/// Classifies a stream's lines, in order, dropping stop events; `actions[i]`
/// is what decoding the stripped text of `lines[i]` gave.
pub fn classify_lines(lines: Vec<String>, actions: Vec<Option<String>>) -> (r: Vec<NixLog>)
    requires
        lines@.len() == actions@.len(),
    ensures
        r@.map_values(|l: NixLog| l@) == retained(
            lines@.map_values(|s: String| s@),
            actions@.map_values(|a: Option<String>| opt_view(a)),
        ),
{
    let ghost ls = lines@.map_values(|s: String| s@);
    let ghost acs = actions@.map_values(|a: Option<String>| opt_view(a));
    let mut r: Vec<NixLog> = Vec::new();
    let mut i: usize = 0;
    while i < lines.len()
        invariant
            i <= lines@.len(),
            lines@.len() == actions@.len(),
            ls == lines@.map_values(|s: String| s@),
            acs == actions@.map_values(|a: Option<String>| opt_view(a)),
            r@.map_values(|l: NixLog| l@) == retained(ls.subrange(0, i as int), acs.subrange(0, i as int)),
        decreases lines@.len() - i,
    {
        let line = lines[i].clone();
        let action = match &actions[i] {
            Some(a) => Some(a.clone()),
            None => None,
        };
        assert(ls.subrange(0, i + 1).drop_last() =~= ls.subrange(0, i as int));
        assert(acs.subrange(0, i + 1).drop_last() =~= acs.subrange(0, i as int));
        assert(ls.subrange(0, i + 1).last() == line@);
        assert(acs.subrange(0, i + 1).last() == opt_view(action));
        let c = classify_line(line, action);
        match c {
            Some(l) => {
                r.push(l);
            },
            None => {},
        }
        assert(r@.map_values(|l: NixLog| l@) =~= retained(ls.subrange(0, i + 1), acs.subrange(0, i + 1)));
        i = i + 1;
    }
    assert(ls.subrange(0, lines@.len() as int) =~= ls);
    assert(acs.subrange(0, lines@.len() as int) =~= acs);
    r
}

/// The text of a line: the line itself, or the record of an event.
pub open spec fn line_text(l: LogLine) -> Seq<char> {
    match l {
        LogLine::Raw(s) => s,
        LogLine::Event { fields, .. } => fields,
    }
}

/// Whether `c` is a lowercase hexadecimal digit.
pub open spec fn is_hex_digit(c: char) -> bool {
    ('0' <= c && c <= '9') || ('a' <= c && c <= 'f')
}

/// Whether `s` starts with 32 lowercase hexadecimal digits.
pub open spec fn digest_at(s: Seq<char>) -> bool {
    s.len() >= 32 && forall|i: int| 0 <= i < 32 ==> #[trigger] is_hex_digit(s[i])
}

/// The text `s` with every run of 32 lowercase hexadecimal digits replaced
/// by an ellipsis: scanning from the left, a digest that starts at the
/// current place is replaced whole and skipped, else one character is kept.
pub open spec fn digests_masked(s: Seq<char>) -> Seq<char>
    decreases s.len(),
{
    if s.len() == 0 {
        seq![]
    } else if digest_at(s) {
        seq!['\u{2026}'] + digests_masked(s.subrange(32, s.len() as int))
    } else {
        seq![s[0]] + digests_masked(s.subrange(1, s.len() as int))
    }
}

/// Relies on regex::Regex::new and Regex::replace_all: every leftmost-first
/// non-overlapping match of `[0-9a-f]{32}` is replaced by an ellipsis. As
/// every match is 32 characters long, the leftmost one starts at the first
/// place where 32 such digits begin.
#[verifier::external_body]
fn mask_digests(s: &str) -> (r: String)
    ensures
        r@ == digests_masked(s@),
{
    match regex::Regex::new("[0-9a-f]{32}") {
        Ok(re) => re.replace_all(s, "\u{2026}").into_owned(),
        Err(_) => s.to_string(),
    }
}

/// The text shown on the live progress display for a retained line.
pub fn progress_message(log: &NixLog) -> (r: String)
    ensures
        r@ == digests_masked(line_text(log@)),
{
    match log {
        NixLog::Raw(s) => mask_digests(s.as_str()),
        NixLog::Internal(i) => mask_digests(i.fields.as_str()),
    }
}

} // verus!
