use vstd::prelude::*;
use vstd::string::StrSliceExecFns;
use vstd::string::StringExecFns;
use owo_colors::OwoColorize;
use crate::clock::Timestamp;
use crate::log_level::Level;

verus! {

/// The decimal digit `d`, for `d < 10`.
pub open spec fn digit(d: nat) -> char {
    "0123456789"@[d as int]
}

/// `n` in decimal, without leading zeros.
pub open spec fn decimal(n: nat) -> Seq<char>
    decreases n,
{
    if n < 10 {
        seq![digit(n)]
    } else {
        decimal(n / 10).push(digit(n % 10))
    }
}

/// `n < 100` in two digits, padded with a zero.
pub open spec fn two_digits(n: nat) -> Seq<char> {
    seq![digit(n / 10), digit(n % 10)]
}

/// `n < 1000` in three digits, padded with zeros.
pub open spec fn three_digits(n: nat) -> Seq<char> {
    seq![digit(n / 100), digit((n / 10) % 10), digit(n % 10)]
}

/// The console style of a severity tag.
#[derive(Clone, Copy, PartialEq, Eq, Structural, Debug, Hash)]
pub enum TagStyle {
    RedBold,
    YellowBold,
    Green,
    Blue,
    Cyan,
}

impl TagStyle {
    /// The ANSI sequence that opens this style.
    pub open spec fn opening(self) -> Seq<char> {
        match self {
            TagStyle::RedBold => "\x1b[31;1m"@,
            TagStyle::YellowBold => "\x1b[33;1m"@,
            TagStyle::Green => "\x1b[32m"@,
            TagStyle::Blue => "\x1b[34m"@,
            TagStyle::Cyan => "\x1b[36m"@,
        }
    }
}

/// The ANSI sequence that ends a style.
pub open spec fn style_reset() -> Seq<char> {
    "\x1b[0m"@
}

/// The ANSI sequences around text in the blue foreground.
pub open spec fn blue_opening() -> Seq<char> {
    "\x1b[34m"@
}

pub open spec fn foreground_reset() -> Seq<char> {
    "\x1b[39m"@
}

/// Error is red and bold, Warn yellow and bold, Info green, Debug blue and
/// Trace cyan.
pub open spec fn tag_style(level: Level) -> TagStyle {
    match level {
        Level::Error => TagStyle::RedBold,
        Level::Warn => TagStyle::YellowBold,
        Level::Info => TagStyle::Green,
        Level::Debug => TagStyle::Blue,
        Level::Trace => TagStyle::Cyan,
    }
}

pub fn style_for(level: Level) -> (r: TagStyle)
    ensures
        r == tag_style(level),
{
    match level {
        Level::Error => TagStyle::RedBold,
        Level::Warn => TagStyle::YellowBold,
        Level::Info => TagStyle::Green,
        Level::Debug => TagStyle::Blue,
        _ => TagStyle::Cyan,
    }
}

/// Relies on `owo_colors::OwoColorize::style` with a `Style` of one
/// foreground color, bold or not: its `Display` writes the style's opening
/// sequence, the text, and `ESC[0m`.
#[verifier::external_body]
fn paint(text: &str, style: TagStyle) -> (r: String)
    ensures
        r@ == style.opening() + text@ + style_reset(),
{
    let plain = owo_colors::Style::new();
    let sty = match style {
        TagStyle::RedBold => plain.red().bold(),
        TagStyle::YellowBold => plain.yellow().bold(),
        TagStyle::Green => plain.green(),
        TagStyle::Blue => plain.blue(),
        TagStyle::Cyan => plain.cyan(),
    };
    text.style(sty).to_string()
}

/// Relies on `owo_colors::OwoColorize::blue`: its `Display` writes `ESC[34m`,
/// the number in decimal as `u32`'s `Display` does, and `ESC[39m`.
#[verifier::external_body]
fn paint_blue(n: u32) -> (r: String)
    ensures
        r@ == blue_opening() + decimal(n as nat) + foreground_reset(),
{
    n.blue().to_string()
}

/// Appends the digit `d`.
fn push_digit(out: &mut String, d: u16)
    requires
        d < 10,
    ensures
        final(out)@ == old(out)@.push(digit(d as nat)),
{
    proof {
        reveal_strlit("0123456789");
    }
    let s = "0123456789".substring_char(d as usize, d as usize + 1);
    assert(s@ =~= seq![digit(d as nat)]);
    out.append(s);
}

/// The line `HH:MM:SS.mmm[Z] [LEVEL] module:line message`, where `Z` stands
/// only for a UTC time, the level name is styled by `tag_style` and the line
/// number is blue.
pub open spec fn rendered(level: Level, now: Timestamp, module: Seq<char>, line: nat, message: Seq<char>) -> Seq<char> {
    two_digits(now.hour as nat) + ":"@ + two_digits(now.minute as nat) + ":"@
        + two_digits(now.second as nat) + "."@ + three_digits(now.millisecond as nat)
        + (if now.is_utc { "Z"@ } else { Seq::empty() }) + " ["@
        + tag_style(level).opening() + level.name() + style_reset() + "] "@
        + module + ":"@ + blue_opening() + decimal(line) + foreground_reset() + " "@ + message
}

/// Renders one log line.
pub fn render(level: Level, now: &Timestamp, module: &str, line: u32, message: &str) -> (r: String)
    requires
        now.wf(),
    ensures
        r@ == rendered(level, *now, module@, line as nat, message@),
{
    let mut out = String::new();
    push_digit(&mut out, (now.hour / 10) as u16);
    push_digit(&mut out, (now.hour % 10) as u16);
    out.append(":");
    push_digit(&mut out, (now.minute / 10) as u16);
    push_digit(&mut out, (now.minute % 10) as u16);
    out.append(":");
    push_digit(&mut out, (now.second / 10) as u16);
    push_digit(&mut out, (now.second % 10) as u16);
    out.append(".");
    push_digit(&mut out, now.millisecond / 100);
    push_digit(&mut out, (now.millisecond / 10) % 10);
    push_digit(&mut out, now.millisecond % 10);
    if now.is_utc {
        out.append("Z");
    }
    out.append(" [");
    let tag = paint(level.to_text(), style_for(level));
    out.append(tag.as_str());
    out.append("] ");
    out.append(module);
    out.append(":");
    let number = paint_blue(line);
    out.append(number.as_str());
    out.append(" ");
    out.append(message);
    assert(out@ =~= rendered(level, *now, module@, line as nat, message@));
    out
}

} // verus!
