use vstd::prelude::*;

use crate::console::text::{int_text, int_to_text, push_char};
use crate::console::{chosen_levels, configure_levels, Level};

verus! {

// ---------------------------------------------------------------------------
// How a log record is written.
// ---------------------------------------------------------------------------

/// The crates whose log records the console drops.
pub open spec fn filtered_crates() -> Seq<Seq<char>> {
    seq!["mime"@]
}

/// Whether a record from the module `path` is dropped: its path starts with
/// the name of a filtered crate.
pub open spec fn is_filtered_path(path: Seq<char>) -> bool {
    exists|k: int| 0 <= k < filtered_crates().len() && #[trigger] filtered_crates()[k].is_prefix_of(path)
}

/// The path with every backslash turned into a slash.
pub open spec fn with_slashes(s: Seq<char>) -> Seq<char> {
    s.map_values(|c: char| if c == '\\' { '/' } else { c })
}

/// Whether `src/` starts at index `i` of `s`.
pub open spec fn src_at(s: Seq<char>, i: int) -> bool {
    0 <= i && i + 4 <= s.len() && s.subrange(i, i + 4) == "src/"@
}

/// The part of a source path that the console shows: with slashes only, and
/// without everything up to and including its last `src/`.
pub open spec fn shown_path(file: Seq<char>) -> Seq<char> {
    let n = with_slashes(file);
    if exists|i: int| src_at(n, i) {
        let i = choose|i: int| src_at(n, i) && forall|j: int| src_at(n, j) ==> j <= i;
        n.subrange(i + 4, n.len() as int)
    } else {
        n
    }
}

/// How the `log` crate writes a level: its name in capitals.
pub open spec fn level_upper(l: Level) -> Seq<char> {
    match l {
        Level::Error => "ERROR"@,
        Level::Warn => "WARN"@,
        Level::Info => "INFO"@,
        Level::Debug => "DEBUG"@,
        Level::Trace => "TRACE"@,
    }
}

/// The severity of a level, 1 for errors up to 5 for trace messages (the
/// order of the `log` crate's levels).
pub open spec fn level_rank(l: Level) -> int {
    match l {
        Level::Error => 1,
        Level::Warn => 2,
        Level::Info => 3,
        Level::Debug => 4,
        Level::Trace => 5,
    }
}

/// Whether a record of level `l` passes a threshold `max`: it is at least as
/// severe.
pub open spec fn passes(l: Level, max: Level) -> bool {
    level_rank(l) <= level_rank(max)
}

/// The levels are ordered from most to least severe: error, warn, info,
/// debug, trace. A threshold lets through exactly the records at least as
/// severe as itself: errors pass every threshold, every record passes the
/// trace threshold, and nothing but errors passes the error threshold. The
/// order is total and strict: two records that pass each other's threshold
/// have the same level.
pub proof fn law_level_thresholds()
    ensures
        forall|l: Level| #[trigger] passes(l, Level::Error) <==> l == Level::Error,
        forall|l: Level|
            #[trigger] passes(l, Level::Warn) <==> (l == Level::Error || l == Level::Warn),
        forall|l: Level|
            #[trigger] passes(l, Level::Info) <==> (l == Level::Error || l == Level::Warn || l
                == Level::Info),
        forall|l: Level| #[trigger] passes(l, Level::Debug) <==> l != Level::Trace,
        forall|l: Level| #[trigger] passes(l, Level::Trace),
        forall|a: Level, b: Level| #[trigger] passes(a, b) || #[trigger] passes(b, a),
        forall|a: Level, b: Level| #[trigger] passes(a, b) && #[trigger] passes(b, a) ==> a == b,
        forall|a: Level, b: Level, c: Level|
            #[trigger] passes(a, b) && #[trigger] passes(b, c) ==> passes(a, c),
{
}

/// The line written for a record: `[file:line][LEVEL] message`.
pub open spec fn record_text(file: Seq<char>, line: u32, level: Level, message: Seq<char>) -> Seq<char> {
    "["@ + file + ":"@ + int_text(line as int) + "]["@ + level_upper(level) + "] "@ + message
}

/// `<log::Level as Display>::fmt`: the claim is that a level is written as
/// its name in capitals (the crate pads `as_str()`, whose names are ERROR,
/// WARN, INFO, DEBUG and TRACE).
#[verifier::external_body]
fn level_display(l: Level) -> (s: String)
    ensures
        s@ == level_upper(l),
{
    let level = match l {
        Level::Error => log::Level::Error,
        Level::Warn => log::Level::Warn,
        Level::Info => log::Level::Info,
        Level::Debug => log::Level::Debug,
        Level::Trace => log::Level::Trace,
    };
    format!("{}", level)
}

/// Whether `s` starts with `prefix`.
pub fn starts_with(s: &str, prefix: &str) -> (b: bool)
    ensures
        b == prefix@.is_prefix_of(s@),
{
    let n = prefix.unicode_len();
    if n > s.unicode_len() {
        return false;
    }
    let mut k: usize = 0;
    while k < n
        invariant
            n == prefix@.len(),
            n <= s@.len(),
            k <= n,
            forall|j: int| 0 <= j < k ==> prefix@[j] == s@[j],
        decreases n - k,
    {
        if prefix.get_char(k) != s.get_char(k) {
            return false;
        }
        k = k + 1;
    }
    proof {
        assert(s@.subrange(0, n as int) =~= prefix@);
    }
    true
}

/// Whether the console drops records from the module `source_module`.
pub fn is_filtered(source_module: &str) -> (b: bool)
    ensures
        b == is_filtered_path(source_module@),
{
    let r = starts_with(source_module, "mime");
    proof {
        if r {
            assert(filtered_crates()[0].is_prefix_of(source_module@));
        }
    }
    r
}

/// The source path of a record as the console shows it (see `shown_path`).
pub fn shown_source_path(file: &str) -> (s: String)
    ensures
        s@ == shown_path(file@),
{
    let n = file.unicode_len();
    let mut norm = String::new();
    let mut k: usize = 0;
    while k < n
        invariant
            n == file@.len(),
            k <= n,
            norm@ == with_slashes(file@.subrange(0, k as int)),
        decreases n - k,
    {
        let c = file.get_char(k);
        let d = if c == '\\' { '/' } else { c };
        push_char(&mut norm, d);
        proof {
            assert(with_slashes(file@.subrange(0, k + 1)) =~= with_slashes(
                file@.subrange(0, k as int),
            ).push(d));
        }
        k = k + 1;
    }
    proof {
        assert(file@.subrange(0, n as int) =~= file@);
    }
    let ghost ns = with_slashes(file@);
    let t = norm.as_str();
    // Look for the last `src/`, from the end backwards.
    let mut i: usize = if n >= 4 { n - 4 + 1 } else { 0 };
    while i > 0
        invariant
            t@ == ns,
            ns == with_slashes(file@),
            ns.len() == n,
            i == 0 || (n >= 4 && i <= n - 3),
            forall|j: int| i <= j ==> !src_at(ns, j),
        decreases i,
    {
        let p = i - 1;
        if t.get_char(p) == 's' && t.get_char(p + 1) == 'r' && t.get_char(p + 2) == 'c'
            && t.get_char(p + 3) == '/' {
            let rest = t.substring_char(p + 4, n);
            let r = String::from_str(rest);
            proof {
                reveal_strlit("src/");
                assert("src/"@ =~= seq!['s', 'r', 'c', '/']);
                assert(ns.subrange(p as int, p + 4) =~= "src/"@);
                assert(src_at(ns, p as int));
                assert(forall|j: int| src_at(ns, j) ==> j <= p);
                let c = choose|c: int| src_at(ns, c) && forall|j: int| src_at(ns, j) ==> j <= c;
                assert(src_at(ns, c) && forall|j: int| src_at(ns, j) ==> j <= c);
                assert(c == p);
                assert(r@ == ns.subrange(p + 4, n as int));
            }
            return r;
        }
        proof {
            assert forall|j: int| p <= j implies !src_at(ns, j) by {
                if j == p && src_at(ns, j) {
                    reveal_strlit("src/");
                assert("src/"@ =~= seq!['s', 'r', 'c', '/']);
                    assert(ns.subrange(j, j + 4)[0] == 's');
                    assert(ns.subrange(j, j + 4)[1] == 'r');
                    assert(ns.subrange(j, j + 4)[2] == 'c');
                    assert(ns.subrange(j, j + 4)[3] == '/');
                }
            }
        }
        i = p;
    }
    norm
}

/// The line written for a record (see `record_text`).
pub fn record_line(file: &str, line: u32, level: Level, message: &str) -> (s: String)
    ensures
        s@ == record_text(file@, line, level, message@),
{
    let mut s = String::from_str("[");
    s.append(file);
    s.append(":");
    let num = int_to_text(line as i64);
    s.append(num.as_str());
    s.append("][");
    let name = level_display(level);
    s.append(name.as_str());
    s.append("] ");
    s.append(message);
    proof {
        reveal_strlit("[");
        reveal_strlit(":");
        reveal_strlit("][");
        reveal_strlit("] ");
    }
    s
}

// ---------------------------------------------------------------------------
// The console's log history and levels.
// ---------------------------------------------------------------------------

/// The colours the console gives parts of a log line.
#[derive(Clone, Copy, Debug, PartialEq, Eq, Structural)]
pub enum Color {
    Green,
    Red,
    Yellow,
    Aqua,
    Blue,
}

/// The colour the console gives the name of a level.
pub open spec fn level_color(l: Level) -> Color {
    match l {
        Level::Debug => Color::Green,
        Level::Error => Color::Red,
        Level::Warn => Color::Yellow,
        Level::Info => Color::Aqua,
        Level::Trace => Color::Blue,
    }
}

/// A piece of text in one colour (or the default colour).
pub struct Part {
    pub text: String,
    pub color: Option<Color>,
}

/// One line of the console's history.
pub struct HistoryLine {
    pub parts: Vec<Part>,
}

pub open spec fn part_view(p: Part) -> (Seq<char>, Option<Color>) {
    (p.text@, p.color)
}

impl View for HistoryLine {
    type V = Seq<(Seq<char>, Option<Color>)>;

    open spec fn view(&self) -> Seq<(Seq<char>, Option<Color>)> {
        self.parts@.map_values(|p: Part| part_view(p))
    }
}

/// The number of lines the console keeps.
pub const HISTORY_LEN: usize = 200;

/// A line with no text, as the history starts.
pub open spec fn blank_line() -> Seq<(Seq<char>, Option<Color>)> {
    seq![(Seq::<char>::empty(), None)]
}

/// The history line shown for a record: the bracketed file in green, the line
/// number in aqua, the level's name in its colour, then the message.
pub open spec fn record_parts(file: Seq<char>, line: u32, level: Level, message: Seq<char>) -> Seq<
    (Seq<char>, Option<Color>),
> {
    seq![
        ("["@, None),
        (file, Some(Color::Green)),
        (":"@, None),
        (int_text(line as int), Some(Color::Aqua)),
        ("]"@, None),
        ("["@, None),
        (level_upper(level), Some(level_color(level))),
        ("] "@, None),
        (message, None),
    ]
}

fn part(text: &str, color: Option<Color>) -> (p: Part)
    ensures
        part_view(p) == (text@, color),
{
    Part { text: String::from_str(text), color }
}

/// The history line for a record (see `record_parts`).
pub fn record_history_line(file: &str, line: u32, level: Level, message: &str) -> (h: HistoryLine)
    ensures
        h@ == record_parts(file@, line, level, message@),
{
    let num = int_to_text(line as i64);
    let name = level_display(level);
    let color = match level {
        Level::Debug => Color::Green,
        Level::Error => Color::Red,
        Level::Warn => Color::Yellow,
        Level::Info => Color::Aqua,
        Level::Trace => Color::Blue,
    };
    let mut parts: Vec<Part> = Vec::new();
    parts.push(part("[", None));
    parts.push(part(file, Some(Color::Green)));
    parts.push(part(":", None));
    parts.push(part(num.as_str(), Some(Color::Aqua)));
    parts.push(part("]", None));
    parts.push(part("[", None));
    parts.push(part(name.as_str(), Some(color)));
    parts.push(part("] ", None));
    parts.push(part(message, None));
    let h = HistoryLine { parts };
    proof {
        assert(h@ =~= record_parts(file@, line, level, message@));
    }
    h
}

/// What the console keeps of its log: the last lines shown, whether they
/// changed since it last drew them, the levels for the terminal and for the
/// log file, and whether it is open.
pub struct ConsoleLog {
    history: Vec<HistoryLine>,
    dirty: bool,
    log_level_term: Level,
    log_level_file: Level,
    active: bool,
}

/// The state of a `ConsoleLog`.
pub struct ConsoleLogView {
    pub history: Seq<Seq<(Seq<char>, Option<Color>)>>,
    pub dirty: bool,
    pub term_level: Level,
    pub file_level: Level,
    pub active: bool,
}

impl View for ConsoleLog {
    type V = ConsoleLogView;

    closed spec fn view(&self) -> ConsoleLogView {
        ConsoleLogView {
            history: self.history@.map_values(|l: HistoryLine| l@),
            dirty: self.dirty,
            term_level: self.log_level_term,
            file_level: self.log_level_file,
            active: self.active,
        }
    }
}

/// What to do with a record that the console did not drop: its line, and
/// whether it goes to the log file and to the terminal.
pub struct LogWrite {
    pub line: String,
    pub to_file: bool,
    pub to_terminal: bool,
}

pub open spec fn text_or_empty(s: Option<&str>) -> Seq<char> {
    match s {
        Some(t) => t@,
        None => Seq::empty(),
    }
}

impl ConsoleLog {
    /// The history always holds `HISTORY_LEN` lines.
    pub open spec fn wf(&self) -> bool {
        self@.history.len() == HISTORY_LEN
    }

    /// A closed console with blank history, terminal level info and file
    /// level trace.
    pub fn new() -> (c: ConsoleLog)
        ensures
            c.wf(),
            forall|i: int| 0 <= i < HISTORY_LEN ==> #[trigger] c@.history[i] == blank_line(),
            !c@.dirty,
            c@.term_level == Level::Info,
            c@.file_level == Level::Trace,
            !c@.active,
    {
        let mut history: Vec<HistoryLine> = Vec::new();
        let mut k: usize = 0;
        while k < HISTORY_LEN
            invariant
                k <= HISTORY_LEN,
                history@.len() == k,
                forall|i: int| 0 <= i < k ==> #[trigger] history@[i]@ == blank_line(),
            decreases HISTORY_LEN - k,
        {
            let mut parts: Vec<Part> = Vec::new();
            parts.push(part("", None));
            let line = HistoryLine { parts };
            proof {
                reveal_strlit("");
                assert(""@ =~= Seq::<char>::empty());
                assert(line@ =~= blank_line());
            }
            history.push(line);
            k = k + 1;
        }
        let c = ConsoleLog {
            history,
            dirty: false,
            log_level_term: Level::Info,
            log_level_file: Level::Trace,
            active: false,
        };
        proof {
            assert forall|i: int| 0 <= i < HISTORY_LEN implies #[trigger] c@.history[i]
                == blank_line() by {
                assert(c@.history[i] == history@[i]@);
            }
        }
        c
    }

    /// Sets the terminal and file levels from the settings and the
    /// environment (see `configure_levels`).
    pub fn configure(
        &mut self,
        term_setting: &str,
        file_setting: &str,
        rust_log: Option<&str>,
        log_level: Option<&str>,
        log_level_file: Option<&str>,
    )
        ensures
            (final(self)@.term_level, final(self)@.file_level) == chosen_levels(
                term_setting@,
                file_setting@,
                match rust_log {
                    Some(s) => Some(s@),
                    None => None,
                },
                match log_level {
                    Some(s) => Some(s@),
                    None => None,
                },
                match log_level_file {
                    Some(s) => Some(s@),
                    None => None,
                },
            ),
            final(self)@.history == old(self)@.history,
            final(self)@.dirty == old(self)@.dirty,
            final(self)@.active == old(self)@.active,
    {
        let (t, f) = configure_levels(term_setting, file_setting, rust_log, log_level, log_level_file);
        self.log_level_term = t;
        self.log_level_file = f;
    }

    pub fn is_active(&self) -> (b: bool)
        ensures
            b == self@.active,
    {
        self.active
    }

    /// Opens a closed console and closes an open one.
    pub fn toggle(&mut self)
        ensures
            final(self)@.active == !old(self)@.active,
            final(self)@.history == old(self)@.history,
            final(self)@.dirty == old(self)@.dirty,
            final(self)@.term_level == old(self)@.term_level,
            final(self)@.file_level == old(self)@.file_level,
    {
        self.active = !self.active;
    }

    /// Opens the console.
    pub fn activate(&mut self)
        ensures
            final(self)@.active,
            final(self)@.history == old(self)@.history,
            final(self)@.dirty == old(self)@.dirty,
            final(self)@.term_level == old(self)@.term_level,
            final(self)@.file_level == old(self)@.file_level,
    {
        self.active = true;
    }

    /// The history, oldest line first.
    pub fn history(&self) -> (h: &Vec<HistoryLine>)
        ensures
            h@.map_values(|l: HistoryLine| l@) == self@.history,
    {
        &self.history
    }

    /// Whether the history changed since the last call; clears the mark.
    pub fn take_dirty(&mut self) -> (b: bool)
        ensures
            b == old(self)@.dirty,
            !final(self)@.dirty,
            final(self)@.history == old(self)@.history,
            final(self)@.active == old(self)@.active,
            final(self)@.term_level == old(self)@.term_level,
            final(self)@.file_level == old(self)@.file_level,
    {
        let b = self.dirty;
        self.dirty = false;
        b
    }

    /// Handles a log record. A record from a filtered crate is dropped and
    /// nothing changes. Otherwise its line goes to the log file where its
    /// level passes the file level, and to the terminal where it passes the
    /// terminal level; a line for the terminal also enters the history,
    /// pushing out the oldest line, and marks the history changed.
    pub fn log(
        &mut self,
        source_module: Option<&str>,
        file: Option<&str>,
        line: Option<u32>,
        level: Level,
        message: &str,
    ) -> (w: Option<LogWrite>)
        requires
            old(self).wf(),
        ensures
            final(self).wf(),
            is_filtered_path(text_or_empty(source_module)) ==> w is None && final(self)@ == old(self)@,
            !is_filtered_path(text_or_empty(source_module)) ==> {
                let shown = shown_path(text_or_empty(file));
                let n: u32 = match line {
                    Some(x) => x,
                    None => 0,
                };
                let to_terminal = passes(level, old(self)@.term_level);
                &&& w is Some
                &&& w->0.line@ == record_text(shown, n, level, message@)
                &&& w->0.to_file == passes(level, old(self)@.file_level)
                &&& w->0.to_terminal == to_terminal
                &&& to_terminal ==> final(self)@.history == old(self)@.history.drop_first().push(
                    record_parts(shown, n, level, message@),
                )
                &&& to_terminal ==> final(self)@.dirty
                &&& !to_terminal ==> final(self)@ == old(self)@
                &&& final(self)@.term_level == old(self)@.term_level
                &&& final(self)@.file_level == old(self)@.file_level
                &&& final(self)@.active == old(self)@.active
            },
    {
        let m = match source_module {
            Some(s) => s,
            None => "",
        };
        proof {
            reveal_strlit("");
            assert(""@ =~= Seq::<char>::empty());
            assert(m@ == text_or_empty(source_module));
        }
        if is_filtered(m) {
            return None;
        }
        let f = match file {
            Some(s) => s,
            None => "",
        };
        assert(f@ == text_or_empty(file));
        let shown = shown_source_path(f);
        let n: u32 = match line {
            Some(x) => x,
            None => 0,
        };
        let text = record_line(shown.as_str(), n, level, message);
        let to_file = severity(level) <= severity(self.log_level_file);
        let to_terminal = severity(level) <= severity(self.log_level_term);
        if to_terminal {
            let ghost before = self.history@;
            self.history.remove(0);
            let h = record_history_line(shown.as_str(), n, level, message);
            self.history.push(h);
            self.dirty = true;
            proof {
                assert(self.history@ == before.remove(0).push(h));
                assert(self.history@.map_values(|l: HistoryLine| l@) =~= before.map_values(
                    |l: HistoryLine| l@,
                ).drop_first().push(h@));
            }
        }
        Some(LogWrite { line: text, to_file, to_terminal })
    }
}

fn severity(l: Level) -> (r: u8)
    ensures
        r == level_rank(l),
{
    match l {
        Level::Error => 1,
        Level::Warn => 2,
        Level::Info => 3,
        Level::Debug => 4,
        Level::Trace => 5,
    }
}

} // verus!
