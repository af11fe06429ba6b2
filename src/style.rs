use vstd::prelude::*;
use colored::Colorize;
use crate::level::{LogLevel, level_name_of};

verus! {

/// The escape character that opens every terminal style sequence.
pub open spec fn esc() -> char {
    '\u{1b}'
}

/// `text` wrapped in the background style `code` and a reset, as a terminal reads it.
pub open spec fn painted(text: Seq<char>, code: Seq<char>) -> Seq<char> {
    seq![esc(), '['] + code + seq!['m'] + text + seq![esc(), '[', '0', 'm']
}

/// `text` styled with `code` where `on` holds, and left as it is otherwise.
pub open spec fn paint(text: Seq<char>, code: Seq<char>, on: bool) -> Seq<char> {
    if on {
        painted(text, code)
    } else {
        text
    }
}

/// `text` holds no escape character, so no style sequence of its own.
pub open spec fn escape_free(text: Seq<char>) -> bool {
    forall|i: int| 0 <= i < text.len() ==> text[i] != esc()
}

/// Relies on colored's `Colorize::on_white` and the `Display` of its result: the
/// text in the background code 47 and a reset, or the text unchanged where
/// colored does not colorize (its environment settings, no terminal).
#[verifier::external_body]
fn on_white(text: &str) -> (r: String)
    ensures
        escape_free(text@) ==> (r@ == paint(text@, "47"@, true) || r@ == paint(text@, "47"@, false)),
{
    text.on_white().to_string()
}

/// Relies on colored's `Colorize::on_bright_yellow` and the `Display` of its
/// result: the text in the background code 103 and a reset, or unchanged.
#[verifier::external_body]
fn on_bright_yellow(text: &str) -> (r: String)
    ensures
        escape_free(text@) ==> (r@ == paint(text@, "103"@, true) || r@ == paint(text@, "103"@, false)),
{
    text.on_bright_yellow().to_string()
}

/// Relies on colored's `Colorize::on_red` and the `Display` of its result: the
/// text in the background code 41 and a reset, or unchanged.
#[verifier::external_body]
fn on_red(text: &str) -> (r: String)
    ensures
        escape_free(text@) ==> (r@ == paint(text@, "41"@, true) || r@ == paint(text@, "41"@, false)),
{
    text.on_red().to_string()
}

/// Relies on colored's `Colorize::on_cyan` and the `Display` of its result: the
/// text in the background code 46 and a reset, or unchanged.
#[verifier::external_body]
fn on_cyan(text: &str) -> (r: String)
    ensures
        escape_free(text@) ==> (r@ == paint(text@, "46"@, true) || r@ == paint(text@, "46"@, false)),
{
    text.on_cyan().to_string()
}

/// Relies on colored's `Colorize::on_bright_black` and the `Display` of its
/// result: the text in the background code 100 and a reset, or unchanged.
#[verifier::external_body]
fn on_bright_black(text: &str) -> (r: String)
    ensures
        escape_free(text@) ==> (r@ == paint(text@, "100"@, true) || r@ == paint(text@, "100"@, false)),
{
    text.on_bright_black().to_string()
}

/// The background code that marks each level on the console.
pub open spec fn level_code_of(l: LogLevel) -> Seq<char> {
    match l {
        LogLevel::INFO => "47"@,
        LogLevel::WARN => "103"@,
        LogLevel::ERROR => "41"@,
        LogLevel::DEBUG => "46"@,
        LogLevel::TRACE => "100"@,
    }
}

/// The background code of the timestamp on the console.
pub open spec fn time_code() -> Seq<char> {
    "100"@
}

/// The level's name with one space on each side, before any styling.
pub open spec fn level_label_of(l: LogLevel) -> Seq<char> {
    seq![' '] + level_name_of(l) + seq![' ']
}

proof fn lemma_level_label_escape_free(l: LogLevel)
    ensures
        escape_free(level_label_of(l)),
{
    reveal_strlit("ERROR");
    reveal_strlit("WARN");
    reveal_strlit("INFO");
    reveal_strlit("DEBUG");
    reveal_strlit("TRACE");
}

/// A level's name holds no escape character.
pub proof fn lemma_level_name_escape_free(l: LogLevel)
    ensures
        escape_free(level_name_of(l)),
{
    reveal_strlit("ERROR");
    reveal_strlit("WARN");
    reveal_strlit("INFO");
    reveal_strlit("DEBUG");
    reveal_strlit("TRACE");
}

/// Styles a level for the console: its label on the level's background colour,
/// or the bare label where colored does not colorize.
pub fn style_level(level: LogLevel) -> (r: String)
    ensures
        r@ == paint(level_label_of(level), level_code_of(level), true)
            || r@ == paint(level_label_of(level), level_code_of(level), false),
{
    let mut label = String::from_str(" ");
    label.append(level.name());
    label.append(" ");
    proof {
        reveal_strlit(" ");
        assert(label@ =~= level_label_of(level));
        lemma_level_label_escape_free(level);
    }
    match level {
        LogLevel::INFO => on_white(label.as_str()),
        LogLevel::WARN => on_bright_yellow(label.as_str()),
        LogLevel::ERROR => on_red(label.as_str()),
        LogLevel::DEBUG => on_cyan(label.as_str()),
        LogLevel::TRACE => on_bright_black(label.as_str()),
    }
}

/// What chrono writes for a UTC instant given in nanoseconds since the Unix epoch.
pub uninterp spec fn rfc3339_of(nanos: i64) -> Seq<char>;

pub open spec fn is_digit(c: char) -> bool {
    '0' <= c && c <= '9'
}

/// The shape of an RFC 3339 UTC timestamp with a four-digit year:
/// `YYYY-MM-DDTHH:MM:SS`, then a fraction starting with `.` or the offset
/// `+00:00`, and no character beyond digits and `-T:.+`.
pub open spec fn rfc3339_shape(s: Seq<char>) -> bool {
    &&& s.len() >= 25
    &&& forall|i: int| 0 <= i < 19 && i != 4 && i != 7 && i != 10 && i != 13 && i != 16
        ==> is_digit(#[trigger] s[i])
    &&& s[4] == '-' && s[7] == '-' && s[10] == 'T' && s[13] == ':' && s[16] == ':'
    &&& (s[19] == '.' || s[19] == '+')
    &&& forall|i: int| 0 <= i < s.len() ==> {
        let c = #[trigger] s[i];
        is_digit(c) || c == '-' || c == 'T' || c == ':' || c == '.' || c == '+'
    }
}

/// Relies on chrono's `DateTime::from_timestamp_nanos` (which takes every `i64`)
/// and `DateTime::to_rfc3339`: the UTC instant in RFC 3339 with automatic
/// sub-second digits and the offset `+00:00`. Every `i64` of nanoseconds falls
/// between the years 1677 and 2262, so the year has four digits.
#[verifier::external_body]
fn rfc3339_from_nanos(nanos: i64) -> (r: String)
    ensures
        r@ == rfc3339_of(nanos),
        rfc3339_shape(r@),
{
    chrono::DateTime::from_timestamp_nanos(nanos).to_rfc3339()
}

/// How a character of an RFC 3339 timestamp is shown: the date-time separator
/// `T` becomes a space and each `-` becomes `/`.
pub open spec fn swap_separator(c: char) -> char {
    if c == 'T' {
        ' '
    } else if c == '-' {
        '/'
    } else {
        c
    }
}

/// Where the whole seconds of a timestamp end: at the `.` of a fraction or the
/// `+` of an offset.
pub open spec fn is_stop(c: char) -> bool {
    c == '.' || c == '+'
}

/// `k` is where the first stop of `s` stands, or the length of `s` if none does.
pub open spec fn cut_at(s: Seq<char>, k: int) -> bool {
    &&& 0 <= k <= s.len()
    &&& forall|i: int| 0 <= i < k ==> !is_stop(#[trigger] s[i])
    &&& (k == s.len() || is_stop(s[k]))
}

/// The place of the first stop in `s`, or its length.
pub open spec fn first_stop(s: Seq<char>) -> int {
    choose|k: int| cut_at(s, k)
}

/// A timestamp as displayed: the whole seconds, without fraction or offset,
/// with the separators swapped.
pub open spec fn display_of(s: Seq<char>) -> Seq<char> {
    s.take(first_stop(s)).map_values(|c: char| swap_separator(c))
}

/// `t` begins with a timestamp of the form `YYYY/MM/DD HH:MM:SS`.
pub open spec fn timestamp_pattern(t: Seq<char>) -> bool {
    &&& t.len() >= 19
    &&& forall|i: int| 0 <= i < 19 && i != 4 && i != 7 && i != 10 && i != 13 && i != 16
        ==> is_digit(#[trigger] t[i])
    &&& t[4] == '/' && t[7] == '/' && t[10] == ' ' && t[13] == ':' && t[16] == ':'
}

proof fn lemma_cut_from(s: Seq<char>, j: int)
    requires
        0 <= j <= s.len(),
        forall|i: int| 0 <= i < j ==> !is_stop(#[trigger] s[i]),
    ensures
        cut_at(s, first_stop(s)),
    decreases s.len() - j,
{
    if j == s.len() || is_stop(s[j]) {
        assert(cut_at(s, j));
    } else {
        lemma_cut_from(s, j + 1);
    }
}

pub proof fn lemma_first_stop(s: Seq<char>, k: int)
    requires
        cut_at(s, k),
    ensures
        first_stop(s) == k,
{
    let j = first_stop(s);
    assert(cut_at(s, j));
    if j < k {
        assert(!is_stop(s[j]));
    } else if k < j {
        assert(!is_stop(s[k]));
    }
}

/// Turns an RFC 3339 timestamp into the form shown in log lines: the part before
/// the first `.` or `+` (the whole seconds, without the sub-second fraction or the
/// offset), with `T` shown as a space and `-` as `/`.
pub fn display_time(rfc: &str) -> (r: String)
    ensures
        r@ == display_of(rfc@),
{
    let n = rfc.unicode_len();
    let mut k: usize = 0;
    while k < n && rfc.get_char(k) != '.' && rfc.get_char(k) != '+'
        invariant
            n == rfc@.len(),
            k <= n,
            forall|i: int| 0 <= i < k ==> !is_stop(#[trigger] rfc@[i]),
        decreases n - k,
    {
        k = k + 1;
    }
    proof {
        lemma_first_stop(rfc@, k as int);
    }
    let mut out = String::new();
    let mut i: usize = 0;
    while i < k
        invariant
            n == rfc@.len(),
            i <= k <= n,
            first_stop(rfc@) == k,
            out@ =~= rfc@.take(i as int).map_values(|c: char| swap_separator(c)),
        decreases k - i,
    {
        let c = rfc.get_char(i);
        let ghost before = out@;
        proof {
            reveal_strlit(" ");
            reveal_strlit("/");
        }
        if c == 'T' {
            out.append(" ");
        } else if c == '-' {
            out.append("/");
        } else {
            let one = rfc.substring_char(i, i + 1);
            assert(one@ =~= seq![c]);
            out.append(one);
        }
        assert(out@ =~= before.push(swap_separator(c)));
        assert(rfc@.take(i + 1).map_values(|c: char| swap_separator(c)) =~= rfc@.take(
            i as int,
        ).map_values(|c: char| swap_separator(c)).push(swap_separator(c)));
        i = i + 1;
    }
    out
}

/// A displayed timestamp is exactly 19 characters, keeps the
/// `YYYY/MM/DD HH:MM:SS` shape and brings no escape character.
pub proof fn lemma_display_shape(s: Seq<char>)
    requires
        rfc3339_shape(s),
    ensures
        timestamp_pattern(display_of(s)),
        display_of(s).len() == 19,
        escape_free(display_of(s)),
{
    assert forall|i: int| 0 <= i < 19 implies !is_stop(#[trigger] s[i]) by {
        if i == 4 || i == 7 || i == 10 || i == 13 || i == 16 {
        } else {
            assert(is_digit(s[i]));
        }
    }
    assert(cut_at(s, 19));
    lemma_first_stop(s, 19);
    let d = display_of(s);
    assert(forall|i: int| 0 <= i < d.len() ==> d[i] == swap_separator(#[trigger] s[i]));
    assert forall|i: int| 0 <= i < d.len() implies d[i] != esc() by {
        assert(d[i] == swap_separator(s[i]));
    }
}

/// Renders a timestamp for the console and the file at the instant `nanos`
/// (nanoseconds since the Unix epoch): the styled form is the displayed time on
/// a bright black background (or bare, where colored does not colorize), the
/// plain form is the displayed time with one space on each side.
pub fn style_time(nanos: i64) -> (r: (String, String))
    ensures
        r.0@ == paint(display_of(rfc3339_of(nanos)), time_code(), true)
            || r.0@ == paint(display_of(rfc3339_of(nanos)), time_code(), false),
        r.1@ == seq![' '] + display_of(rfc3339_of(nanos)) + seq![' '],
        timestamp_pattern(display_of(rfc3339_of(nanos))),
        display_of(rfc3339_of(nanos)).len() == 19,
        escape_free(display_of(rfc3339_of(nanos))),
{
    let rfc = rfc3339_from_nanos(nanos);
    let shown = display_time(rfc.as_str());
    proof {
        lemma_display_shape(rfc@);
        reveal_strlit(" ");
    }
    let styled = on_bright_black(shown.as_str());
    let mut plain = String::from_str(" ");
    plain.append(shown.as_str());
    plain.append(" ");
    (styled, plain)
}

} // verus!
