use vstd::prelude::*;
use crate::level::{LogLevel, FileLoggerFormat, level_name_of};
use crate::config::Config;
use crate::style::{
    display_of, escape_free, esc, level_code_of, level_label_of, lemma_level_name_escape_free,
    paint, rfc3339_of, style_level, style_time, time_code, timestamp_pattern,
};

verus! {

/// The timestamp shown for the instant `nanos` (nanoseconds since the Unix epoch).
pub open spec fn time_shown(nanos: i64) -> Seq<char> {
    display_of(rfc3339_of(nanos))
}

/// The timestamp a line of `config` carries at the instant `nanos`, if any.
pub open spec fn time_of(config: Config, nanos: i64) -> Option<Seq<char>> {
    if config.log_with_time {
        Some(time_shown(nanos))
    } else {
        None
    }
}

/// The plain line: ` <time> ` and a space when there is a time, then the
/// level's name, a space and the message.
pub open spec fn plain_line(time: Option<Seq<char>>, level: LogLevel, message: Seq<char>) -> Seq<char> {
    match time {
        Some(t) => seq![' '] + t + seq![' '] + seq![' '] + level_name_of(level) + seq![' '] + message,
        None => level_name_of(level) + seq![' '] + message,
    }
}

/// The console line, where `time_on` and `level_on` say whether the timestamp
/// and the level label carry their colours.
pub open spec fn styled_line(
    time: Option<Seq<char>>,
    level: LogLevel,
    message: Seq<char>,
    time_on: bool,
    level_on: bool,
) -> Seq<char> {
    let label = paint(level_label_of(level), level_code_of(level), level_on);
    match time {
        Some(t) => paint(t, time_code(), time_on) + seq![' '] + label + seq![' '] + message,
        None => label + seq![' '] + message,
    }
}

/// `line` is the console line for these parts, coloured or not: colored decides
/// by its environment whether to colorize.
pub open spec fn is_styled_line(
    line: Seq<char>,
    time: Option<Seq<char>>,
    level: LogLevel,
    message: Seq<char>,
) -> bool {
    ||| line == styled_line(time, level, message, false, false)
    ||| line == styled_line(time, level, message, false, true)
    ||| line == styled_line(time, level, message, true, false)
    ||| line == styled_line(time, level, message, true, true)
}

pub open spec fn str_opt_view(s: Option<&str>) -> Option<Seq<char>> {
    match s {
        Some(t) => Some(t@),
        None => None,
    }
}

/// Joins the parts of a plain line: the rendered timestamp (already padded with
/// a space on each side) if any, a space, the level's name, a space, the message.
pub fn compose_plain(time: Option<&str>, level: LogLevel, message: &str) -> (r: String)
    ensures
        r@ == match str_opt_view(time) {
            Some(t) => t + seq![' '] + level_name_of(level) + seq![' '] + message@,
            None => level_name_of(level) + seq![' '] + message@,
        },
{
    proof {
        reveal_strlit(" ");
    }
    let mut out = String::new();
    match time {
        Some(t) => {
            out.append(t);
            out.append(" ");
        },
        None => {},
    }
    out.append(level.name());
    out.append(" ");
    out.append(message);
    proof {
        match time {
            Some(t) => {
                assert(out@ =~= t@ + seq![' '] + level_name_of(level) + seq![' '] + message@);
            },
            None => {
                assert(out@ =~= level_name_of(level) + seq![' '] + message@);
            },
        }
    }
    out
}

/// Joins the parts of a console line: the styled timestamp and a space if any,
/// the styled level, a space, the message.
pub fn compose_styled(time: Option<&str>, level: &str, message: &str) -> (r: String)
    ensures
        r@ == match str_opt_view(time) {
            Some(t) => t + seq![' '] + level@ + seq![' '] + message@,
            None => level@ + seq![' '] + message@,
        },
{
    proof {
        reveal_strlit(" ");
    }
    let mut out = String::new();
    match time {
        Some(t) => {
            out.append(t);
            out.append(" ");
        },
        None => {},
    }
    out.append(level);
    out.append(" ");
    out.append(message);
    proof {
        match time {
            Some(t) => {
                assert(out@ =~= t@ + seq![' '] + level@ + seq![' '] + message@);
            },
            None => {
                assert(out@ =~= level@ + seq![' '] + message@);
            },
        }
    }
    out
}

fn text_lines(config: &Config, level: LogLevel, message: &str, nanos: i64) -> (r: (String, String))
    ensures
        r.1@ == plain_line(time_of(*config, nanos), level, message@),
        is_styled_line(r.0@, time_of(*config, nanos), level, message@),
        config.log_with_time ==> timestamp_pattern(time_shown(nanos)),
        config.log_with_time ==> time_shown(nanos).len() == 19,
        config.log_with_time ==> escape_free(time_shown(nanos)),
{
    let styled_level = style_level(level);
    if config.log_with_time {
        let (styled_time, plain_time) = style_time(nanos);
        let styled = compose_styled(Some(styled_time.as_str()), styled_level.as_str(), message);
        let plain = compose_plain(Some(plain_time.as_str()), level, message);
        proof {
            let t = time_shown(nanos);
            assert(plain@ =~= plain_line(time_of(*config, nanos), level, message@));
            if styled_time@ == paint(t, time_code(), true) {
                if styled_level@ == paint(level_label_of(level), level_code_of(level), true) {
                    assert(styled@ =~= styled_line(Some(t), level, message@, true, true));
                } else {
                    assert(styled@ =~= styled_line(Some(t), level, message@, true, false));
                }
            } else {
                if styled_level@ == paint(level_label_of(level), level_code_of(level), true) {
                    assert(styled@ =~= styled_line(Some(t), level, message@, false, true));
                } else {
                    assert(styled@ =~= styled_line(Some(t), level, message@, false, false));
                }
            }
        }
        (styled, plain)
    } else {
        let styled = compose_styled(None, styled_level.as_str(), message);
        let plain = compose_plain(None, level, message);
        proof {
            assert(plain@ =~= plain_line(None, level, message@));
            if styled_level@ == paint(level_label_of(level), level_code_of(level), true) {
                assert(styled@ =~= styled_line(None, level, message@, false, true));
            } else {
                assert(styled@ =~= styled_line(None, level, message@, false, false));
            }
        }
        (styled, plain)
    }
}

/// Renders a message of `level` at the instant `nanos` (nanoseconds since the
/// Unix epoch) as a console line and a plain line for the file.
///
/// With timestamps on, the plain line begins with a space and the time as
/// `YYYY/MM/DD HH:MM:SS`; with them off it is the level's name, a space and the
/// message. Both file formats render the same lines: a JSON encoding is not
/// implemented.
pub fn formatter(config: &Config, level: LogLevel, message: &str, nanos: i64) -> (r: (String, String))
    ensures
        r.1@ == plain_line(time_of(*config, nanos), level, message@),
        is_styled_line(r.0@, time_of(*config, nanos), level, message@),
        config.log_with_time ==> r.1@[0] == ' ' && timestamp_pattern(r.1@.drop_first()),
        config.log_with_time ==> time_shown(nanos).len() == 19,
        !config.log_with_time ==> r.1@ == level_name_of(level) + seq![' '] + message@,
        escape_free(message@) ==> escape_free(r.1@),
{
    let r = match config.file_logger_config.log_format {
        FileLoggerFormat::TEXT => text_lines(config, level, message, nanos),
        FileLoggerFormat::JSON => text_lines(config, level, message, nanos),
    };
    proof {
        if config.log_with_time {
            let t = time_shown(nanos);
            let rest = r.1@.drop_first();
            assert(rest =~= t + (seq![' '] + seq![' '] + level_name_of(level) + seq![' '] + message@));
            assert(forall|i: int| 0 <= i < t.len() ==> rest[i] == t[i]);
        }
        lemma_level_name_escape_free(level);
        if escape_free(message@) {
            let name = level_name_of(level);
            let tail = name + seq![' '] + message@;
            assert forall|i: int| 0 <= i < tail.len() implies tail[i] != esc() by {
                if i < name.len() {
                    assert(tail[i] == name[i]);
                } else if i > name.len() {
                    assert(tail[i] == message@[i - name.len() - 1]);
                }
            }
            if config.log_with_time {
                let head = seq![' '] + time_shown(nanos) + seq![' '] + seq![' '];
                assert(r.1@ =~= head + tail);
                assert forall|i: int| 0 <= i < r.1@.len() implies r.1@[i] != esc() by {
                    if i < head.len() {
                        if 1 <= i < 20 {
                            assert(head[i] == time_shown(nanos)[i - 1]);
                        }
                    } else {
                        assert(r.1@[i] == tail[i - head.len()]);
                    }
                }
            } else {
                assert(r.1@ =~= tail);
            }
        }
    }
    r
}

} // verus!
