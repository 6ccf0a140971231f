use crate::level::Level;
use vstd::prelude::*;

verus! {

/// A local wall-clock instant, split into the fields that a log line shows.
#[derive(Clone, Copy, Debug, PartialEq, Eq, Structural)]
pub struct Timestamp {
    pub year: u32,
    pub month: u32,
    pub day: u32,
    pub hour: u32,
    pub minute: u32,
    pub second: u32,
    pub millis: u32,
}

/// What a log line is made from, besides its time.
pub struct LogRecord {
    pub level: Level,
    pub module: Option<String>,
    pub line: Option<u32>,
    pub message: String,
}

/// The console colors used for level names.
#[derive(Clone, Copy, Debug, PartialEq, Eq, Structural)]
pub enum Color {
    Red,
    Yellow,
    Green,
    Blue,
    Magenta,
}

/// How a log line renders its level: painted with ANSI codes, or as the bare name.
#[derive(Clone, Copy, Debug, PartialEq, Eq, Structural)]
pub enum LineFormat {
    Colored,
    Plain,
}

pub open spec fn digit_char(d: nat) -> char {
    if d == 0 { '0' }
    else if d == 1 { '1' }
    else if d == 2 { '2' }
    else if d == 3 { '3' }
    else if d == 4 { '4' }
    else if d == 5 { '5' }
    else if d == 6 { '6' }
    else if d == 7 { '7' }
    else if d == 8 { '8' }
    else { '9' }
}

/// The last `width` decimal digits of `n`, padded with leading zeros.
pub open spec fn padded(n: nat, width: nat) -> Seq<char>
    decreases width,
{
    if width == 0 {
        Seq::empty()
    } else {
        padded(n / 10, (width - 1) as nat).push(digit_char(n % 10))
    }
}

/// The decimal digits of `n`, without leading zeros.
pub open spec fn decimal(n: nat) -> Seq<char>
    decreases n,
{
    if n < 10 {
        seq![digit_char(n)]
    } else {
        decimal(n / 10).push(digit_char(n % 10))
    }
}

impl Timestamp {
    /// A real calendar-clock reading with a year of at most four digits.
    pub open spec fn wf(self) -> bool {
        &&& self.year <= 9999
        &&& 1 <= self.month <= 12
        &&& 1 <= self.day <= 31
        &&& self.hour < 24
        &&& self.minute < 60
        &&& self.second < 61
        &&& self.millis < 1000
    }

    /// `YYYY-MM-DDTHH:MM:SS.mmm`
    pub open spec fn text(self) -> Seq<char> {
        padded(self.year as nat, 4) + "-"@ + padded(self.month as nat, 2) + "-"@
            + padded(self.day as nat, 2) + "T"@ + padded(self.hour as nat, 2) + ":"@
            + padded(self.minute as nat, 2) + ":"@ + padded(self.second as nat, 2) + "."@
            + padded(self.millis as nat, 3)
    }
}

/// The color in which a level name is painted.
pub open spec fn color_of(level: Level) -> Color {
    match level {
        Level::Error => Color::Red,
        Level::Warn => Color::Yellow,
        Level::Info => Color::Green,
        Level::Debug => Color::Blue,
        Level::Trace => Color::Magenta,
    }
}

/// The ANSI code that switches the foreground to `c`.
pub open spec fn ansi_prefix(c: Color) -> Seq<char> {
    match c {
        Color::Red => "\x1B[31m"@,
        Color::Yellow => "\x1B[33m"@,
        Color::Green => "\x1B[32m"@,
        Color::Blue => "\x1B[34m"@,
        Color::Magenta => "\x1B[35m"@,
    }
}

/// The ANSI code that resets all attributes.
pub open spec fn ansi_reset() -> Seq<char> {
    "\x1B[0m"@
}

/// `text` painted in `c`.
pub open spec fn painted(c: Color, text: Seq<char>) -> Seq<char> {
    ansi_prefix(c) + text + ansi_reset()
}

/// The module path shown for a record, with a placeholder for none.
pub open spec fn module_text(m: Option<String>) -> Seq<char> {
    match m {
        Some(s) => s@,
        None => "<unnamed>"@,
    }
}

/// The source line shown for a record, empty for none.
pub open spec fn line_text(l: Option<u32>) -> Seq<char> {
    match l {
        Some(n) => decimal(n as nat),
        None => Seq::empty(),
    }
}

/// `[time][level][module:line] message`, with the level rendered as `level_token`.
pub open spec fn line_with(ts: Timestamp, level_token: Seq<char>, rec: LogRecord) -> Seq<char> {
    "["@ + ts.text() + "]["@ + level_token + "]["@ + module_text(rec.module) + ":"@
        + line_text(rec.line) + "] "@ + rec.message@
}

/// The uncolored line of a record.
pub open spec fn plain_line(ts: Timestamp, rec: LogRecord) -> Seq<char> {
    line_with(ts, rec.level.name(), rec)
}

/// The line of a record with its level name painted in the level's color.
pub open spec fn colored_line(ts: Timestamp, rec: LogRecord) -> Seq<char> {
    line_with(ts, painted(color_of(rec.level), rec.level.name()), rec)
}

fn digit_str(d: u32) -> (r: &'static str)
    requires
        d < 10,
    ensures
        r@ == seq![digit_char(d as nat)],
{
    proof {
        reveal_strlit("0");
        reveal_strlit("1");
        reveal_strlit("2");
        reveal_strlit("3");
        reveal_strlit("4");
        reveal_strlit("5");
        reveal_strlit("6");
        reveal_strlit("7");
        reveal_strlit("8");
        reveal_strlit("9");
    }
    if d == 0 { "0" }
    else if d == 1 { "1" }
    else if d == 2 { "2" }
    else if d == 3 { "3" }
    else if d == 4 { "4" }
    else if d == 5 { "5" }
    else if d == 6 { "6" }
    else if d == 7 { "7" }
    else if d == 8 { "8" }
    else { "9" }
}

/// Appends the last `width` digits of `n`, zero-padded.
fn push_padded(s: &mut String, n: u32, width: usize)
    ensures
        final(s)@ == old(s)@ + padded(n as nat, width as nat),
    decreases width,
{
    if width > 0 {
        push_padded(s, n / 10, width - 1);
        s.append(digit_str(n % 10));
        proof {
            assert(padded(n as nat, width as nat) == padded((n / 10) as nat, (width - 1) as nat).push(
                digit_char((n % 10) as nat),
            ));
        }
    } else {
        proof {
            assert(old(s)@ + padded(n as nat, 0) =~= old(s)@);
        }
    }
}

/// Appends the decimal digits of `n`.
pub fn push_decimal(s: &mut String, n: u32)
    ensures
        final(s)@ == old(s)@ + decimal(n as nat),
    decreases n,
{
    if n >= 10 {
        push_decimal(s, n / 10);
    }
    s.append(digit_str(n % 10));
    proof {
        if n >= 10 {
            assert(decimal(n as nat) == decimal((n / 10) as nat).push(digit_char((n % 10) as nat)));
        }
    }
}

impl Timestamp {
    /// The instant as `YYYY-MM-DDTHH:MM:SS.mmm`.
    pub fn render(&self) -> (r: String)
        requires
            self.wf(),
        ensures
            r@ == self.text(),
    {
        let mut s = String::new();
        push_padded(&mut s, self.year, 4);
        s.append("-");
        push_padded(&mut s, self.month, 2);
        s.append("-");
        push_padded(&mut s, self.day, 2);
        s.append("T");
        push_padded(&mut s, self.hour, 2);
        s.append(":");
        push_padded(&mut s, self.minute, 2);
        s.append(":");
        push_padded(&mut s, self.second, 2);
        s.append(".");
        push_padded(&mut s, self.millis, 3);
        proof {
            assert(s@ =~= self.text());
        }
        s
    }
}

/// The color in which the name of `level` is painted.
pub fn level_color(level: Level) -> (r: Color)
    ensures
        r == color_of(level),
{
    match level {
        Level::Error => Color::Red,
        Level::Warn => Color::Yellow,
        Level::Info => Color::Green,
        Level::Debug => Color::Blue,
        Level::Trace => Color::Magenta,
    }
}

/// Relies on `yansi::Paint` and its `Display` impl: the text between the color's
/// ANSI code and the reset code, or the bare text while yansi's global
/// painting switch is off.
#[verifier::external_body]
fn paint(color: Color, text: &str) -> (r: String)
    ensures
        r@ == painted(color, text@) || r@ == text@,
{
    let c = match color {
        Color::Red => yansi::Color::Red,
        Color::Yellow => yansi::Color::Yellow,
        Color::Green => yansi::Color::Green,
        Color::Blue => yansi::Color::Blue,
        Color::Magenta => yansi::Color::Magenta,
    };
    yansi::Paint::new(text).fg(c).to_string()
}

/// Appends `module:line` of a record.
fn push_location(s: &mut String, rec: &LogRecord)
    ensures
        final(s)@ == old(s)@ + module_text(rec.module) + ":"@ + line_text(rec.line),
{
    match &rec.module {
        Some(m) => s.append(m.as_str()),
        None => s.append("<unnamed>"),
    }
    s.append(":");
    if let Some(n) = rec.line {
        push_decimal(s, n);
    }
    proof {
        assert(final(s)@ =~= old(s)@ + module_text(rec.module) + ":"@ + line_text(rec.line));
    }
}

fn push_line(s: &mut String, ts: &Timestamp, level_token: &str, rec: &LogRecord)
    requires
        ts.wf(),
    ensures
        final(s)@ == old(s)@ + line_with(*ts, level_token@, *rec),
{
    let ghost s0 = s@;
    s.append("[");
    let t = ts.render();
    s.append(t.as_str());
    s.append("][");
    s.append(level_token);
    s.append("][");
    let ghost s1 = s@;
    push_location(s, rec);
    let ghost s2 = s@;
    s.append("] ");
    s.append(rec.message.as_str());
    proof {
        let loc = module_text(rec.module) + ":"@ + line_text(rec.line);
        assert(s2 == s1 + loc);
        assert(s1 =~= s0 + ("["@ + ts.text() + "]["@ + level_token@ + "]["@));
        assert(line_with(*ts, level_token@, *rec) =~= ("["@ + ts.text() + "]["@ + level_token@ + "]["@) + loc
            + "] "@ + rec.message@);
        assert(s@ =~= s0 + line_with(*ts, level_token@, *rec));
    }
}

/// The uncolored line of a record; files always get this one.
pub fn nocolor_logger_format(ts: &Timestamp, rec: &LogRecord) -> (r: String)
    requires
        ts.wf(),
    ensures
        r@ == plain_line(*ts, *rec),
{
    let mut s = String::new();
    push_line(&mut s, ts, rec.level.as_str(), rec);
    proof {
        assert(s@ =~= plain_line(*ts, *rec));
    }
    s
}

/// The line of a record with its level name painted, unless painting is
/// switched off globally, in which case it is the uncolored line.
pub fn color_logger_format(ts: &Timestamp, rec: &LogRecord) -> (r: String)
    requires
        ts.wf(),
    ensures
        r@ == colored_line(*ts, *rec) || r@ == plain_line(*ts, *rec),
{
    let token = paint(level_color(rec.level), rec.level.as_str());
    let mut s = String::new();
    push_line(&mut s, ts, token.as_str(), rec);
    proof {
        assert(s@ =~= line_with(*ts, token@, *rec));
    }
    s
}

/// The line of a record in the given format.
pub fn format_line(fmt: LineFormat, ts: &Timestamp, rec: &LogRecord) -> (r: String)
    requires
        ts.wf(),
    ensures
        fmt == LineFormat::Plain ==> r@ == plain_line(*ts, *rec),
        fmt == LineFormat::Colored ==> (r@ == colored_line(*ts, *rec) || r@ == plain_line(
            *ts,
            *rec,
        )),
{
    match fmt {
        LineFormat::Colored => color_logger_format(ts, rec),
        LineFormat::Plain => nocolor_logger_format(ts, rec),
    }
}

proof fn lemma_padded_digits(n: nat, width: nat)
    ensures
        padded(n, width).len() == width,
        forall|k: int| 0 <= k < width ==> '0' <= #[trigger] padded(n, width)[k] <= '9',
    decreases width,
{
    if width > 0 {
        lemma_padded_digits(n / 10, (width - 1) as nat);
        let p = padded(n / 10, (width - 1) as nat);
        assert forall|k: int| 0 <= k < width implies '0' <= #[trigger] padded(n, width)[k] <= '9' by {
            if k < width - 1 {
                assert(padded(n, width)[k] == p[k]);
            }
        }
    }
}

/// The rendered time is 23 characters long and holds no escape character.
pub proof fn lemma_time_text(ts: Timestamp)
    ensures
        ts.text().len() == 23,
        forall|k: int| 0 <= k < 23 ==> #[trigger] ts.text()[k] != '\x1B',
{
    lemma_padded_digits(ts.year as nat, 4);
    lemma_padded_digits(ts.month as nat, 2);
    lemma_padded_digits(ts.day as nat, 2);
    lemma_padded_digits(ts.hour as nat, 2);
    lemma_padded_digits(ts.minute as nat, 2);
    lemma_padded_digits(ts.second as nat, 2);
    lemma_padded_digits(ts.millis as nat, 3);
    reveal_strlit("-");
    reveal_strlit("T");
    reveal_strlit(":");
    reveal_strlit(".");
    assert forall|k: int| 0 <= k < 23 implies #[trigger] ts.text()[k] != '\x1B' by {
        let t = ts.text();
        if k < 4 {
            assert(t[k] == padded(ts.year as nat, 4)[k]);
        } else if k == 4 || k == 7 || k == 10 || k == 13 || k == 16 || k == 19 {
        } else if k < 7 {
            assert(t[k] == padded(ts.month as nat, 2)[k - 5]);
        } else if k < 10 {
            assert(t[k] == padded(ts.day as nat, 2)[k - 8]);
        } else if k < 13 {
            assert(t[k] == padded(ts.hour as nat, 2)[k - 11]);
        } else if k < 16 {
            assert(t[k] == padded(ts.minute as nat, 2)[k - 14]);
        } else if k < 19 {
            assert(t[k] == padded(ts.second as nat, 2)[k - 17]);
        } else {
            assert(t[k] == padded(ts.millis as nat, 3)[k - 20]);
        }
    }
}

/// In a colored line the level name begins with an ANSI escape, right after the
/// time; in an uncolored line no escape character comes before the module path.
pub proof fn lemma_level_marking(ts: Timestamp, rec: LogRecord)
    ensures
        colored_line(ts, rec)[26] == '\x1B',
        forall|k: int| 0 <= k < 28 + rec.level.name().len() ==> #[trigger] plain_line(ts, rec)[k] != '\x1B',
{
    lemma_time_text(ts);
    reveal_strlit("[");
    reveal_strlit("][");
    reveal_strlit("ERROR");
    reveal_strlit("WARN");
    reveal_strlit("INFO");
    reveal_strlit("DEBUG");
    reveal_strlit("TRACE");
    reveal_strlit("\x1B[31m");
    reveal_strlit("\x1B[33m");
    reveal_strlit("\x1B[32m");
    reveal_strlit("\x1B[34m");
    reveal_strlit("\x1B[35m");
    let head = "["@ + ts.text() + "]["@;
    let tok = painted(color_of(rec.level), rec.level.name());
    assert(colored_line(ts, rec) == head + tok + ("]["@ + module_text(rec.module) + ":"@ + line_text(rec.line) + "] "@ + rec.message@)) by {
        assert(colored_line(ts, rec) =~= head + tok + ("]["@ + module_text(rec.module) + ":"@ + line_text(rec.line) + "] "@ + rec.message@));
    }
    assert(head.len() == 26);
    assert(tok[0] == '\x1B');
    let name = rec.level.name();
    let pre = head + name + "]["@;
    assert(plain_line(ts, rec) =~= pre + (module_text(rec.module) + ":"@ + line_text(rec.line) + "] "@ + rec.message@));
    assert forall|k: int| 0 <= k < 28 + name.len() implies #[trigger] plain_line(ts, rec)[k] != '\x1B' by {
        assert(plain_line(ts, rec)[k] == pre[k]);
        if 1 <= k < 24 {
            assert(pre[k] == ts.text()[k - 1]);
        }
    }
}

} // verus!
