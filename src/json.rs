use vstd::prelude::*;

use crate::event::{Timestamp, WakaTimeEvent};

verus! {

/// The JSON string literal that encodes a text: quoted, with escapes.
pub uninterp spec fn json_quoted(s: Seq<char>) -> Seq<char>;

/// Relies on serde_json::to_string on a `str`: it writes the text as a quoted
/// JSON string with escapes, and cannot fail on a `str`.
#[verifier::external_body]
fn quote(s: &str) -> (r: String)
    ensures
        r@ == json_quoted(s@),
{
    serde_json::to_string(s).unwrap_or_default()
}

/// The text of one decimal digit.
pub open spec fn digit_text(d: nat) -> Seq<char> {
    if d == 0 {
        "0"@
    } else if d == 1 {
        "1"@
    } else if d == 2 {
        "2"@
    } else if d == 3 {
        "3"@
    } else if d == 4 {
        "4"@
    } else if d == 5 {
        "5"@
    } else if d == 6 {
        "6"@
    } else if d == 7 {
        "7"@
    } else if d == 8 {
        "8"@
    } else {
        "9"@
    }
}

/// The decimal numeral of `n`, without leading zeros.
pub open spec fn decimal(n: nat) -> Seq<char>
    decreases n,
{
    if n < 10 {
        digit_text(n)
    } else {
        decimal(n / 10) + digit_text(n % 10)
    }
}

/// The last `width` decimal digits of `n`, padded with leading zeros.
pub open spec fn padded(n: nat, width: nat) -> Seq<char>
    decreases width,
{
    if width == 0 {
        Seq::empty()
    } else {
        padded(n / 10, (width - 1) as nat) + digit_text(n % 10)
    }
}

/// A timestamp as a JSON number of seconds with nine fractional digits.
pub open spec fn time_json(t: Timestamp) -> Seq<char> {
    decimal(t.secs as nat) + "."@ + padded(t.nanos as nat, 9)
}

/// An optional text as a JSON string, or `null` when absent.
pub open spec fn opt_text_json(o: Option<String>) -> Seq<char> {
    match o {
        Some(s) => json_quoted(s@),
        None => "null"@,
    }
}

/// An optional count as a JSON number, or `null` when absent.
pub open spec fn opt_count_json(o: Option<u32>) -> Seq<char> {
    match o {
        Some(n) => decimal(n as nat),
        None => "null"@,
    }
}

/// A flag as a JSON literal.
pub open spec fn bool_json(b: bool) -> Seq<char> {
    if b {
        "true"@
    } else {
        "false"@
    }
}

/// The JSON object that the service receives for a heartbeat. Every field is
/// present; an absent value is written as `null`.
pub open spec fn heartbeat_json(ev: WakaTimeEvent) -> Seq<char> {
    match ev {
        WakaTimeEvent::Heartbeat {
            entity,
            type_,
            category,
            time,
            project,
            language,
            is_write,
            lines,
            lineno,
            cursorpos,
        } => "{\"entity\":"@ + json_quoted(entity@) + ",\"type\":"@ + json_quoted(type_.spec_name())
            + ",\"category\":"@ + json_quoted(category.spec_name()) + ",\"time\":"@ + time_json(time)
            + ",\"project\":"@ + opt_text_json(project) + ",\"language\":"@ + opt_text_json(language)
            + ",\"is_write\":"@ + bool_json(is_write) + ",\"lines\":"@ + opt_count_json(lines)
            + ",\"lineno\":"@ + opt_count_json(lineno) + ",\"cursorpos\":"@ + opt_count_json(
            cursorpos,
        ) + "}"@,
    }
}

fn push_digit(out: &mut String, d: u64)
    requires
        d < 10,
    ensures
        final(out)@ == old(out)@ + digit_text(d as nat),
{
    if d == 0 {
        out.append("0");
    } else if d == 1 {
        out.append("1");
    } else if d == 2 {
        out.append("2");
    } else if d == 3 {
        out.append("3");
    } else if d == 4 {
        out.append("4");
    } else if d == 5 {
        out.append("5");
    } else if d == 6 {
        out.append("6");
    } else if d == 7 {
        out.append("7");
    } else if d == 8 {
        out.append("8");
    } else {
        out.append("9");
    }
}

/// Appends the decimal numeral of `n`.
pub fn push_decimal(out: &mut String, n: u64)
    ensures
        final(out)@ == old(out)@ + decimal(n as nat),
    decreases n,
{
    if n >= 10 {
        push_decimal(out, n / 10);
        push_digit(out, n % 10);
        assert(final(out)@ =~= old(out)@ + decimal(n as nat));
    } else {
        push_digit(out, n);
    }
}

/// Appends the last `width` digits of `n`, padded with leading zeros.
pub fn push_padded(out: &mut String, n: u64, width: u64)
    ensures
        final(out)@ == old(out)@ + padded(n as nat, width as nat),
    decreases width,
{
    if width > 0 {
        push_padded(out, n / 10, width - 1);
        push_digit(out, n % 10);
        assert(final(out)@ =~= old(out)@ + padded(n as nat, width as nat));
    } else {
        assert(final(out)@ =~= old(out)@ + padded(n as nat, width as nat));
    }
}

fn push_opt_text(out: &mut String, o: &Option<String>)
    ensures
        final(out)@ == old(out)@ + opt_text_json(*o),
{
    match o {
        Some(s) => {
            let q = quote(s.as_str());
            out.append(q.as_str());
        },
        None => out.append("null"),
    }
}

fn push_opt_count(out: &mut String, o: Option<u32>)
    ensures
        final(out)@ == old(out)@ + opt_count_json(o),
{
    match o {
        Some(n) => push_decimal(out, n as u64),
        None => out.append("null"),
    }
}

/// Encodes a heartbeat as the JSON body of a delivery request.
pub fn encode_heartbeat(ev: &WakaTimeEvent) -> (r: String)
    ensures
        r@ == heartbeat_json(*ev),
{
    match ev {
        WakaTimeEvent::Heartbeat {
            entity,
            type_,
            category,
            time,
            project,
            language,
            is_write,
            lines,
            lineno,
            cursorpos,
        } => {
            let mut out = String::from_str("{\"entity\":");
            out.append(quote(entity.as_str()).as_str());
            out.append(",\"type\":");
            out.append(quote(type_.name().as_str()).as_str());
            out.append(",\"category\":");
            out.append(quote(category.name().as_str()).as_str());
            out.append(",\"time\":");
            push_decimal(&mut out, time.secs);
            out.append(".");
            push_padded(&mut out, time.nanos as u64, 9);
            out.append(",\"project\":");
            push_opt_text(&mut out, project);
            out.append(",\"language\":");
            push_opt_text(&mut out, language);
            out.append(",\"is_write\":");
            if *is_write {
                out.append("true");
            } else {
                out.append("false");
            }
            out.append(",\"lines\":");
            push_opt_count(&mut out, *lines);
            out.append(",\"lineno\":");
            push_opt_count(&mut out, *lineno);
            out.append(",\"cursorpos\":");
            push_opt_count(&mut out, *cursorpos);
            out.append("}");
            out
        },
    }
}

} // verus!
