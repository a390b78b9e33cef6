//! JSON rendering of the core's values: payload objects, log records, the
//! per-record socket frames, and archived results.
//!
//! The shape of every rendered text is pinned down character by character by
//! the spec functions here, so a consumer can rely on the frames it parses.

use vstd::prelude::*;
use vstd::string::*;
use crate::models::{BuildLog, BuildResult, BuildStatus, LogLevel, Payload, PayloadEntry, PayloadValue};

verus! {

/// The hexadecimal digit for a value below 16.
pub open spec fn hex_digit_char(d: nat) -> char {
    if d == 0 {
        '0'
    } else if d == 1 {
        '1'
    } else if d == 2 {
        '2'
    } else if d == 3 {
        '3'
    } else if d == 4 {
        '4'
    } else if d == 5 {
        '5'
    } else if d == 6 {
        '6'
    } else if d == 7 {
        '7'
    } else if d == 8 {
        '8'
    } else if d == 9 {
        '9'
    } else if d == 10 {
        'a'
    } else if d == 11 {
        'b'
    } else if d == 12 {
        'c'
    } else if d == 13 {
        'd'
    } else if d == 14 {
        'e'
    } else {
        'f'
    }
}

/// How one character appears inside a JSON string literal.
pub open spec fn json_escape_char(c: char) -> Seq<char> {
    if c == '"' {
        seq!['\\', '"']
    } else if c == '\\' {
        seq!['\\', '\\']
    } else if c == '\n' {
        seq!['\\', 'n']
    } else if c == '\r' {
        seq!['\\', 'r']
    } else if c == '\t' {
        seq!['\\', 't']
    } else if (c as u32) < 0x20 {
        seq!['\\', 'u', '0', '0', hex_digit_char((c as u32 / 16) as nat), hex_digit_char(
            (c as u32 % 16) as nat,
        )]
    } else {
        seq![c]
    }
}

/// A character sequence escaped for use inside a JSON string literal.
pub open spec fn json_escaped(s: Seq<char>) -> Seq<char>
    decreases s.len(),
{
    if s.len() == 0 {
        Seq::empty()
    } else {
        json_escape_char(s[0]) + json_escaped(s.skip(1))
    }
}

/// A JSON string literal: quotes around the escaped content.
pub open spec fn json_quoted(s: Seq<char>) -> Seq<char> {
    seq!['"'] + json_escaped(s) + seq!['"']
}

/// The decimal digits of a natural number.
pub open spec fn dec_rep(n: nat) -> Seq<char>
    decreases n,
{
    if n < 10 {
        seq![hex_digit_char(n)]
    } else {
        dec_rep(n / 10).push(hex_digit_char(n % 10))
    }
}

/// The decimal rendering of an integer, with a leading minus when negative.
pub open spec fn int_rep(i: int) -> Seq<char> {
    if i < 0 {
        seq!['-'] + dec_rep((-i) as nat)
    } else {
        dec_rep(i as nat)
    }
}

/// The hexadecimal digit for a value below 16, as a string slice.
pub fn hex_digit_str(d: u32) -> (r: &'static str)
    requires
        d < 16,
    ensures
        r@ == seq![hex_digit_char(d as nat)],
{
    let r: &'static str = match d {
        0 => "0",
        1 => "1",
        2 => "2",
        3 => "3",
        4 => "4",
        5 => "5",
        6 => "6",
        7 => "7",
        8 => "8",
        9 => "9",
        10 => "a",
        11 => "b",
        12 => "c",
        13 => "d",
        14 => "e",
        _ => "f",
    };
    proof {
        reveal_strlit("0");
        reveal_strlit("1");
        reveal_strlit("2");
        reveal_strlit("3");
        reveal_strlit("4");
        reveal_strlit("5");
        reveal_strlit("6");
        reveal_strlit("7");
        reveal_strlit("8");
        reveal_strlit("9");
        reveal_strlit("a");
        reveal_strlit("b");
        reveal_strlit("c");
        reveal_strlit("d");
        reveal_strlit("e");
        reveal_strlit("f");
        assert(r@ =~= seq![hex_digit_char(d as nat)]);
    }
    r
}

/// The decimal rendering of an unsigned number.
pub fn u64_string(n: u64) -> (r: String)
    ensures
        r@ == dec_rep(n as nat),
    decreases n,
{
    if n < 10 {
        let d = hex_digit_str(n as u32);
        d.to_owned()
    } else {
        let mut s = u64_string(n / 10);
        let d = hex_digit_str((n % 10) as u32);
        s.append(d);
        proof {
            assert(s@ =~= dec_rep(n as nat));
        }
        s
    }
}

/// The decimal rendering of a signed number.
pub fn i64_string(i: i64) -> (r: String)
    ensures
        r@ == int_rep(i as int),
{
    if i >= 0 {
        u64_string(i as u64)
    } else {
        let magnitude: u64 = (-(i as i128)) as u64;
        let mut s = String::from_str("-");
        let rest = u64_string(magnitude);
        s.append(rest.as_str());
        proof {
            reveal_strlit("-");
            assert(s@ =~= int_rep(i as int));
        }
        s
    }
}

/// The decimal rendering of a machine word.
pub fn usize_string(n: usize) -> (r: String)
    ensures
        r@ == dec_rep(n as nat),
{
    u64_string(n as u64)
}

/// Escape a string for use inside a JSON string literal.
pub fn json_escape(s: &str) -> (r: String)
    ensures
        r@ == json_escaped(s@),
{
    let n = s.unicode_len();
    let mut out = String::new();
    let mut i: usize = 0;
    proof {
        assert(s@.skip(0) =~= s@);
    }
    while i < n
        invariant
            i <= n,
            n == s@.len(),
            json_escaped(s@) == out@ + json_escaped(s@.skip(i as int)),
        decreases n - i,
    {
        let c = s.get_char(i);
        proof {
            assert(s@.skip(i as int)[0] == s@[i as int]);
            assert(s@.skip(i as int).skip(1) =~= s@.skip(i + 1));
        }
        if c == '"' {
            out.append("\\\"");
            proof {
                reveal_strlit("\\\"");
                assert("\\\""@ =~= json_escape_char(c));
            }
        } else if c == '\\' {
            out.append("\\\\");
            proof {
                reveal_strlit("\\\\");
                assert("\\\\"@ =~= json_escape_char(c));
            }
        } else if c == '\n' {
            out.append("\\n");
            proof {
                reveal_strlit("\\n");
                assert("\\n"@ =~= json_escape_char(c));
            }
        } else if c == '\r' {
            out.append("\\r");
            proof {
                reveal_strlit("\\r");
                assert("\\r"@ =~= json_escape_char(c));
            }
        } else if c == '\t' {
            out.append("\\t");
            proof {
                reveal_strlit("\\t");
                assert("\\t"@ =~= json_escape_char(c));
            }
        } else if (c as u32) < 0x20 {
            out.append("\\u00");
            out.append(hex_digit_str(c as u32 / 16));
            out.append(hex_digit_str(c as u32 % 16));
            proof {
                reveal_strlit("\\u00");
                assert("\\u00"@ + seq![hex_digit_char((c as u32 / 16) as nat)] + seq![
                    hex_digit_char((c as u32 % 16) as nat),
                ] =~= json_escape_char(c));
            }
        } else {
            let piece = s.substring_char(i, i + 1);
            out.append(piece);
            proof {
                assert(piece@ =~= json_escape_char(c));
            }
        }
        i = i + 1;
    }
    proof {
        assert(json_escaped(s@.skip(n as int)) =~= Seq::<char>::empty());
        assert(out@ =~= out@ + Seq::<char>::empty());
    }
    out
}

/// Render a JSON string literal: quotes around the escaped content.
pub fn json_string(s: &str) -> (r: String)
    ensures
        r@ == json_quoted(s@),
{
    let mut out = String::from_str("\"");
    let body = json_escape(s);
    out.append(body.as_str());
    out.append("\"");
    proof {
        reveal_strlit("\"");
        assert(out@ =~= json_quoted(s@));
    }
    out
}

/// The JSON text of one payload value: a string is quoted and escaped, any
/// other value contributes its carried JSON text unchanged.
pub open spec fn value_json(v: PayloadValue) -> Seq<char> {
    match v {
        PayloadValue::Text(s) => json_quoted(s@),
        PayloadValue::Json(j) => j@,
    }
}

/// The JSON text of one payload member.
pub open spec fn member_json(e: PayloadEntry) -> Seq<char> {
    json_quoted(e.key@) + seq![':'] + value_json(e.value)
}

/// The comma-joined members of a payload object.
pub open spec fn members_json(entries: Seq<PayloadEntry>) -> Seq<char>
    decreases entries.len(),
{
    if entries.len() == 0 {
        Seq::empty()
    } else if entries.len() == 1 {
        member_json(entries[0])
    } else {
        member_json(entries[0]) + seq![','] + members_json(entries.skip(1))
    }
}

/// The JSON text of the whole payload object, members in arrival order.
pub open spec fn payload_json(p: Payload) -> Seq<char> {
    seq!['{'] + members_json(p.entries@) + seq!['}']
}

proof fn lemma_members_push(entries: Seq<PayloadEntry>, e: PayloadEntry)
    ensures
        members_json(entries.push(e)) == if entries.len() == 0 {
            member_json(e)
        } else {
            members_json(entries) + seq![','] + member_json(e)
        },
    decreases entries.len(),
{
    let whole = entries.push(e);
    if entries.len() == 0 {
        assert(whole[0] == e);
        assert(whole.len() == 1);
    } else {
        assert(whole[0] == entries[0]);
        assert(whole.skip(1) =~= entries.skip(1).push(e));
        lemma_members_push(entries.skip(1), e);
        if entries.len() == 1 {
            assert(entries.skip(1).len() == 0);
            assert(members_json(entries) =~= member_json(entries[0]));
        }
    }
}

/// Render the payload as one JSON object, members in arrival order.
pub fn render_payload_json(p: &Payload) -> (r: String)
    ensures
        r@ == payload_json(*p),
{
    let mut out = String::from_str("{");
    proof {
        reveal_strlit("{");
    }
    let n = p.entries.len();
    let mut i: usize = 0;
    while i < n
        invariant
            i <= n,
            n == p.entries@.len(),
            out@ == seq!['{'] + members_json(p.entries@.subrange(0, i as int)),
        decreases n - i,
    {
        if i > 0 {
            out.append(",");
            proof {
                reveal_strlit(",");
            }
        }
        let key_text = json_string(p.entries[i].key.as_str());
        out.append(key_text.as_str());
        out.append(":");
        proof {
            reveal_strlit(":");
        }
        match &p.entries[i].value {
            PayloadValue::Text(s) => {
                let v = json_string(s.as_str());
                out.append(v.as_str());
            },
            PayloadValue::Json(j) => {
                out.append(j.as_str());
            },
        }
        proof {
            lemma_members_push(p.entries@.subrange(0, i as int), p.entries@[i as int]);
            assert(p.entries@.subrange(0, i as int).push(p.entries@[i as int]) =~= p.entries@
                .subrange(0, i + 1));
            assert(out@ =~= seq!['{'] + members_json(p.entries@.subrange(0, i + 1)));
        }
        i = i + 1;
    }
    out.append("}");
    proof {
        reveal_strlit("}");
        assert(p.entries@.subrange(0, n as int) =~= p.entries@);
        assert(out@ =~= payload_json(*p));
    }
    out
}

/// The wire name of a log level.
pub open spec fn level_name(l: LogLevel) -> Seq<char> {
    match l {
        LogLevel::Info => "Info"@,
        LogLevel::Warning => "Warning"@,
        LogLevel::Error => "Error"@,
        LogLevel::Success => "Success"@,
    }
}

/// The wire name of a log level.
pub fn level_name_str(l: LogLevel) -> (r: &'static str)
    ensures
        r@ == level_name(l),
{
    match l {
        LogLevel::Info => "Info",
        LogLevel::Warning => "Warning",
        LogLevel::Error => "Error",
        LogLevel::Success => "Success",
    }
}

/// The wire name of a build status.
pub open spec fn status_name(s: BuildStatus) -> Seq<char> {
    match s {
        BuildStatus::Queued => "Queued"@,
        BuildStatus::Running => "Running"@,
        BuildStatus::Success => "Success"@,
        BuildStatus::Failed => "Failed"@,
        BuildStatus::Aborted => "Aborted"@,
    }
}

/// The wire name of a build status.
pub fn status_name_str(s: BuildStatus) -> (r: &'static str)
    ensures
        r@ == status_name(s),
{
    match s {
        BuildStatus::Queued => "Queued",
        BuildStatus::Running => "Running",
        BuildStatus::Success => "Success",
        BuildStatus::Failed => "Failed",
        BuildStatus::Aborted => "Aborted",
    }
}

/// The JSON frame broadcast for one log record of one build.
pub open spec fn log_frame_json(build_id: Seq<char>, rec: BuildLog) -> Seq<char> {
    "{\"type\":\"log\",\"build_id\":"@ + json_quoted(build_id) + ",\"step\":"@ + dec_rep(
        rec.step as nat,
    ) + ",\"level\":"@ + json_quoted(level_name(rec.level)) + ",\"message\":"@ + json_quoted(
        rec.message@,
    ) + ",\"timestamp\":"@ + int_rep(rec.timestamp as int) + (match rec.command {
        Some(c) => ",\"command\":"@ + json_quoted(c@),
        None => Seq::empty(),
    }) + "}"@
}

/// Render the broadcast frame of one log record.
pub fn render_log_frame(build_id: &str, rec: &BuildLog) -> (r: String)
    ensures
        r@ == log_frame_json(build_id@, *rec),
{
    let mut out = String::from_str("{\"type\":\"log\",\"build_id\":");
    let id_text = json_string(build_id);
    out.append(id_text.as_str());
    out.append(",\"step\":");
    let step_text = usize_string(rec.step);
    out.append(step_text.as_str());
    out.append(",\"level\":");
    let level_text = json_string(level_name_str(rec.level));
    out.append(level_text.as_str());
    out.append(",\"message\":");
    let message_text = json_string(rec.message.as_str());
    out.append(message_text.as_str());
    out.append(",\"timestamp\":");
    let ts_text = i64_string(rec.timestamp);
    out.append(ts_text.as_str());
    match &rec.command {
        Some(c) => {
            out.append(",\"command\":");
            let c_text = json_string(c.as_str());
            out.append(c_text.as_str());
        },
        None => {},
    }
    out.append("}");
    proof {
        assert(out@ =~= log_frame_json(build_id@, *rec));
    }
    out
}

/// The JSON object of one archived log record.
pub open spec fn log_json(rec: BuildLog) -> Seq<char> {
    "{\"timestamp\":"@ + int_rep(rec.timestamp as int) + ",\"step\":"@ + dec_rep(rec.step as nat)
        + ",\"level\":"@ + json_quoted(level_name(rec.level)) + ",\"message\":"@ + json_quoted(
        rec.message@,
    ) + ",\"command\":"@ + (match rec.command {
        Some(c) => json_quoted(c@),
        None => "null"@,
    }) + "}"@
}

/// The comma-joined JSON objects of a log list.
pub open spec fn logs_json(logs: Seq<BuildLog>) -> Seq<char>
    decreases logs.len(),
{
    if logs.len() == 0 {
        Seq::empty()
    } else if logs.len() == 1 {
        log_json(logs[0])
    } else {
        log_json(logs[0]) + seq![','] + logs_json(logs.skip(1))
    }
}

proof fn lemma_logs_push(logs: Seq<BuildLog>, rec: BuildLog)
    ensures
        logs_json(logs.push(rec)) == if logs.len() == 0 {
            log_json(rec)
        } else {
            logs_json(logs) + seq![','] + logs_json(seq![rec])
        },
    decreases logs.len(),
{
    let whole = logs.push(rec);
    if logs.len() == 0 {
        assert(whole[0] == rec);
        assert(whole.len() == 1);
    } else {
        assert(whole[0] == logs[0]);
        assert(whole.skip(1) =~= logs.skip(1).push(rec));
        lemma_logs_push(logs.skip(1), rec);
        if logs.len() == 1 {
            assert(logs.skip(1).len() == 0);
            assert(logs_json(logs) =~= log_json(logs[0]));
        }
    }
}

/// Render one archived log record as JSON.
pub fn render_log_json(rec: &BuildLog) -> (r: String)
    ensures
        r@ == log_json(*rec),
{
    let mut out = String::from_str("{\"timestamp\":");
    let ts_text = i64_string(rec.timestamp);
    out.append(ts_text.as_str());
    out.append(",\"step\":");
    let step_text = usize_string(rec.step);
    out.append(step_text.as_str());
    out.append(",\"level\":");
    let level_text = json_string(level_name_str(rec.level));
    out.append(level_text.as_str());
    out.append(",\"message\":");
    let message_text = json_string(rec.message.as_str());
    out.append(message_text.as_str());
    out.append(",\"command\":");
    match &rec.command {
        Some(c) => {
            let c_text = json_string(c.as_str());
            out.append(c_text.as_str());
        },
        None => {
            out.append("null");
        },
    }
    out.append("}");
    proof {
        assert(out@ =~= log_json(*rec));
    }
    out
}

/// The JSON text of a whole archived result.
pub open spec fn result_json(res: BuildResult) -> Seq<char> {
    "{\"id\":"@ + json_quoted(res.id@) + ",\"project_name\":"@ + json_quoted(res.project_name@)
        + ",\"status\":"@ + json_quoted(status_name(res.status)) + ",\"started_at\":"@ + int_rep(
        res.started_at as int,
    ) + ",\"completed_at\":"@ + int_rep(res.completed_at as int) + ",\"logs\":["@ + logs_json(
        res.logs@,
    ) + "],\"duration_seconds\":"@ + dec_rep(res.duration_seconds as nat) + "}"@
}

/// Render a whole archived result as JSON.
pub fn render_result_json(res: &BuildResult) -> (r: String)
    ensures
        r@ == result_json(*res),
{
    let mut out = String::from_str("{\"id\":");
    let id_text = json_string(res.id.as_str());
    out.append(id_text.as_str());
    out.append(",\"project_name\":");
    let name_text = json_string(res.project_name.as_str());
    out.append(name_text.as_str());
    out.append(",\"status\":");
    let status_text = json_string(status_name_str(res.status));
    out.append(status_text.as_str());
    out.append(",\"started_at\":");
    let started_text = i64_string(res.started_at);
    out.append(started_text.as_str());
    out.append(",\"completed_at\":");
    let completed_text = i64_string(res.completed_at);
    out.append(completed_text.as_str());
    out.append(",\"logs\":[");
    let ghost mid = out@;
    let n = res.logs.len();
    let mut i: usize = 0;
    while i < n
        invariant
            i <= n,
            n == res.logs@.len(),
            out@ == mid + logs_json(res.logs@.subrange(0, i as int)),
        decreases n - i,
    {
        if i > 0 {
            out.append(",");
            proof {
                reveal_strlit(",");
            }
        }
        let rec_text = render_log_json(&res.logs[i]);
        out.append(rec_text.as_str());
        proof {
            lemma_logs_push(res.logs@.subrange(0, i as int), res.logs@[i as int]);
            assert(res.logs@.subrange(0, i as int).push(res.logs@[i as int]) =~= res.logs@
                .subrange(0, i + 1));
            assert(logs_json(seq![res.logs@[i as int]]) =~= log_json(res.logs@[i as int]));
            assert(out@ =~= mid + logs_json(res.logs@.subrange(0, i + 1)));
        }
        i = i + 1;
    }
    out.append("],\"duration_seconds\":");
    let duration_text = u64_string(res.duration_seconds);
    out.append(duration_text.as_str());
    out.append("}");
    proof {
        assert(res.logs@.subrange(0, n as int) =~= res.logs@);
        assert(out@ =~= result_json(*res));
    }
    out
}

} // verus!
