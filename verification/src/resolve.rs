//! The resolver: expansion of `${payload}`, `${timestamp}`, `%status%`,
//! `%socket_token%`, `$NAME` and bare-key placeholders inside command
//! templates, answer fields and webhook URLs.
//!
//! The resolver is pure and total: a missing value yields an empty string
//! or the template text itself, never an error.  It performs no shell
//! escaping.

use vstd::prelude::*;
use vstd::string::*;
use crate::jsonfmt;
use crate::models::{BuildLog, BuildResult, Payload};
use crate::strutil;

verus! {

/// What a command template resolves to: `${payload}` becomes the JSON of
/// the whole payload object, then `${timestamp}` becomes the given time
/// text.  No other token is substituted in a command.
pub open spec fn resolved_command(
    command: Seq<char>,
    payload: Payload,
    timestamp: Seq<char>,
) -> Seq<char> {
    strutil::replaced(
        strutil::replaced(command, "${payload}"@, jsonfmt::payload_json(payload)),
        "${timestamp}"@,
        timestamp,
    )
}

/// Resolve one command template against the payload and a time text.
pub fn resolve_command(command: &str, payload: &Payload, timestamp: &str) -> (r: String)
    ensures
        r@ == resolved_command(command@, *payload, timestamp@),
{
    proof {
        reveal_strlit("${payload}");
        reveal_strlit("${timestamp}");
    }
    let payload_text = jsonfmt::render_payload_json(payload);
    let step_one = strutil::replace_all(command, "${payload}", payload_text.as_str());
    strutil::replace_all(step_one.as_str(), "${timestamp}", timestamp)
}

/// What a single return-field or URL variable resolves to:
/// `%status%` is the literal `queued`; `%socket_token%` is the build's
/// socket token; `$NAME` takes the environment's value when one was found,
/// else the payload's string for `NAME`, else nothing; a bare key takes the
/// payload's string for it, else stays as it is.
pub open spec fn resolved_variable(
    variable: Seq<char>,
    payload: Payload,
    socket_token: Seq<char>,
    env_value: Option<Seq<char>>,
) -> Seq<char> {
    if variable == "%status%"@ {
        "queued"@
    } else if variable == "%socket_token%"@ {
        socket_token
    } else if variable.len() > 0 && variable[0] == '$' {
        match env_value {
            Some(v) => v,
            None => match payload.spec_get_text(variable.skip(1)) {
                Some(s) => s,
                None => Seq::empty(),
            },
        }
    } else {
        match payload.spec_get_text(variable) {
            Some(s) => s,
            None => variable,
        }
    }
}

/// Resolve one variable.
///
/// `env_value` must be the environment's value for the name after the
/// leading `$`, when the variable has that shape and the environment
/// defines it; the environment itself is the caller's to read.
pub fn resolve_variable(
    variable: &str,
    payload: &Payload,
    socket_token: &str,
    env_value: Option<&str>,
) -> (r: String)
    ensures
        r@ == resolved_variable(
            variable@,
            *payload,
            socket_token@,
            match env_value {
                Some(e) => Some(e@),
                None => None,
            },
        ),
{
    if strutil::str_eq(variable, "%status%") {
        let r = String::from_str("queued");
        return r;
    }
    if strutil::str_eq(variable, "%socket_token%") {
        return String::from_str(socket_token);
    }
    let starts_dollar = if variable.unicode_len() > 0 {
        variable.get_char(0) == '$'
    } else {
        false
    };
    if starts_dollar {
        if let Some(v) = env_value {
            return String::from_str(v);
        }
        let name = strutil::str_suffix(variable, 1);
        match payload.get_text(name.as_str()) {
            Some(s) => s,
            None => String::new(),
        }
    } else {
        match payload.get_text(variable) {
            Some(s) => s,
            None => String::from_str(variable),
        }
    }
}

/// What a webhook URL resolves to: `${payload}` becomes the JSON of the
/// payload object, then `${result}` becomes the JSON of the archived
/// result.
pub open spec fn resolved_webhook_url(
    url: Seq<char>,
    payload: Payload,
    result: BuildResult,
) -> Seq<char> {
    strutil::replaced(
        strutil::replaced(url, "${payload}"@, jsonfmt::payload_json(payload)),
        "${result}"@,
        jsonfmt::result_json(result),
    )
}

/// Resolve a webhook URL template against the payload and the result.
pub fn resolve_webhook_url(url: &str, payload: &Payload, result: &BuildResult) -> (r: String)
    ensures
        r@ == resolved_webhook_url(url@, *payload, *result),
{
    proof {
        reveal_strlit("${payload}");
        reveal_strlit("${result}");
    }
    let payload_text = jsonfmt::render_payload_json(payload);
    let step_one = strutil::replace_all(url, "${payload}", payload_text.as_str());
    let result_text = jsonfmt::render_result_json(result);
    strutil::replace_all(step_one.as_str(), "${result}", result_text.as_str())
}

/// The text of a build's archived log file: one line per record, each
/// holding just the record's message.
pub open spec fn log_file_text(logs: Seq<BuildLog>) -> Seq<char>
    decreases logs.len(),
{
    if logs.len() == 0 {
        Seq::empty()
    } else {
        logs[0].message@ + seq!['\n'] + log_file_text(logs.skip(1))
    }
}

proof fn lemma_log_file_push(logs: Seq<BuildLog>, rec: BuildLog)
    ensures
        log_file_text(logs.push(rec)) == log_file_text(logs) + rec.message@ + seq!['\n'],
    decreases logs.len(),
{
    let whole = logs.push(rec);
    if logs.len() == 0 {
        assert(whole[0] == rec);
        assert(whole.skip(1) =~= Seq::<BuildLog>::empty());
        assert(log_file_text(whole.skip(1)) == Seq::<char>::empty());
        assert(log_file_text(whole) == rec.message@ + seq!['\n'] + Seq::<char>::empty());
        assert(log_file_text(whole) =~= log_file_text(logs) + rec.message@ + seq!['\n']);
    } else {
        assert(whole[0] == logs[0]);
        assert(whole.skip(1) =~= logs.skip(1).push(rec));
        lemma_log_file_push(logs.skip(1), rec);
        assert(log_file_text(whole) =~= log_file_text(logs) + rec.message@ + seq!['\n']);
    }
}

/// Render the content of the archived log file for a result: one line per
/// record, in order, each holding the record's message.
pub fn render_log_file(result: &BuildResult) -> (r: String)
    ensures
        r@ == log_file_text(result.logs@),
{
    let mut out = String::new();
    let n = result.logs.len();
    let mut i: usize = 0;
    proof {
        assert(result.logs@.subrange(0, 0) =~= Seq::<BuildLog>::empty());
    }
    while i < n
        invariant
            i <= n,
            n == result.logs@.len(),
            out@ == log_file_text(result.logs@.subrange(0, i as int)),
        decreases n - i,
    {
        out.append(result.logs[i].message.as_str());
        out.append("\n");
        proof {
            reveal_strlit("\n");
            lemma_log_file_push(result.logs@.subrange(0, i as int), result.logs@[i as int]);
            assert(result.logs@.subrange(0, i as int).push(result.logs@[i as int]) =~= result
                .logs@.subrange(0, i + 1));
            assert(out@ =~= log_file_text(result.logs@.subrange(0, i + 1)));
        }
        i = i + 1;
    }
    proof {
        assert(result.logs@.subrange(0, n as int) =~= result.logs@);
    }
    out
}

} // verus!
