//! The HTTP API of the pipeline manager: the decisions it makes on the
//! requests it receives and on the responses it sends.

use actix_web::HttpRequest;
use vstd::prelude::*;

use crate::error::ManagerError;
use crate::runner::error::RunnerError;

verus! {

/// actix-web's HTTP request, opaque here: only carried to the router's lookup.
#[verifier::external_type_specification]
#[verifier::external_body]
pub struct ExHttpRequest(HttpRequest);

/// The OpenAPI documentation of the HTTP API. The document itself is
/// generated from the endpoints and schemas by the server around the library.
pub struct ApiDoc;

/// Severity of a log record, from the most to the least severe.
#[derive(Clone, Copy, Debug, PartialEq, Eq, Structural)]
pub enum LogLevel {
    Error,
    Warn,
    Info,
    Debug,
    Trace,
}

/// HTTP status `304 Not Modified`.
pub const STATUS_NOT_MODIFIED: u16 = 304;

/// Status codes `200` to `299`: the request succeeded.
pub open spec fn is_success_status(status: u16) -> bool {
    200 <= status <= 299
}

/// Status codes `400` to `499`: the request was at fault.
pub open spec fn is_client_error_status(status: u16) -> bool {
    400 <= status <= 499
}

/// The level at which a response is logged: a success (or a `304 Not
/// Modified`) at `Debug`, except the health probe `GET /healthz`, which is
/// logged at `Trace`; a client error at `Info`; anything else at `Error`.
pub open spec fn response_level(status: u16, is_get: bool, path: Seq<char>) -> LogLevel {
    if is_success_status(status) || status == STATUS_NOT_MODIFIED {
        if is_get && path == "/healthz"@ {
            LogLevel::Trace
        } else {
            LogLevel::Debug
        }
    } else if is_client_error_status(status) {
        LogLevel::Info
    } else {
        LogLevel::Error
    }
}

/// Level at which the server logs a response with status `status` to a
/// request for `path`, made with the `GET` method if `is_get`.
pub fn response_log_level(status: u16, is_get: bool, path: &str) -> (level: LogLevel)
    ensures
        level == response_level(status, is_get, path@),
        400 <= status <= 499 ==> level == LogLevel::Info,
        (200 <= status <= 299 || status == 304) ==> (level == LogLevel::Trace <==> (is_get
            && path@ == "/healthz"@)),
        (200 <= status <= 299 || status == 304) ==> (level == LogLevel::Trace || level
            == LogLevel::Debug),
        !(200 <= status <= 299 || status == 304 || 400 <= status <= 499) ==> level
            == LogLevel::Error,
{
    if (200 <= status && status <= 299) || status == STATUS_NOT_MODIFIED {
        if is_get && path.to_owned() == "/healthz".to_owned() {
            LogLevel::Trace
        } else {
            LogLevel::Debug
        }
    } else if 400 <= status && status <= 499 {
        LogLevel::Info
    } else {
        LogLevel::Error
    }
}

/// The value that actix-web's router matched for the parameter `name` of the
/// request's path. It depends on the request and the name alone: the matched
/// path sits behind an `Rc` of the request and changes only through a `&mut`
/// request whose `Rc` is unique. `HttpRequest` has no view, so the name
/// takes the declared request itself.
pub uninterp spec fn matched_param(req: HttpRequest, name: Seq<char>) -> Option<Seq<char>>;

/// Value of the parameter `param_name` of the request's matched path, as
/// `req.match_info().get(param_name)` returns it from actix-web's router.
#[verifier::external_body]
fn match_info_get(req: &HttpRequest, param_name: &str) -> (value: Option<String>)
    ensures
        value.deep_view() == matched_param(*req, param_name@),
{
    match req.match_info().get(param_name) {
        Some(value) => Some(value.to_string()),
        None => None,
    }
}

/// The string parameter `param_name`, given what the request's path holds
/// under that name: its value where there is one, else
/// `MissingUrlEncodedParam`. Every text is a valid string parameter, so
/// `InvalidNameParam` is never returned.
pub fn parse_matched_param(param_name: &'static str, matched: Option<String>) -> (r: Result<
    String,
    ManagerError,
>)
    ensures
        matched is None <==> r is Err,
        matched matches Some(v) ==> r matches Ok(s) && s@ == v@,
        r matches Err(e) ==> e == (ManagerError::MissingUrlEncodedParam { param: param_name }),
{
    match matched {
        None => Err(ManagerError::MissingUrlEncodedParam { param: param_name }),
        Some(value) => Ok(value),
    }
}

/// The string parameter `param_name` of the request's path: its value where
/// the router matched one, else `MissingUrlEncodedParam`.
pub fn parse_string_param(req: &HttpRequest, param_name: &'static str) -> (r: Result<
    String,
    ManagerError,
>)
    ensures
        matched_param(*req, param_name@) is None <==> r is Err,
        matched_param(*req, param_name@) matches Some(v) ==> r matches Ok(s) && s@ == v,
        r matches Err(e) ==> e == (ManagerError::MissingUrlEncodedParam { param: param_name }),
{
    let matched = match_info_get(req, param_name);
    parse_matched_param(param_name, matched)
}

/// The response that reports a runner error is logged at `Info` when the
/// client is at fault (a pipeline that is neither running nor paused) and
/// at `Error` for every other runner error, whatever the request.
pub proof fn lemma_runner_error_response_level(e: RunnerError, is_get: bool, path: Seq<char>)
    ensures
        response_level(e.status(), is_get, path) == (if e is PipelineNotRunningOrPaused {
            LogLevel::Info
        } else {
            LogLevel::Error
        }),
{
}

/// The character of the decimal digit `d`, where `d < 10`.
pub open spec fn digit_char(d: nat) -> char {
    (('0' as int) + d) as char
}

/// The decimal text of `n`: its digits, most significant first, without
/// leading zeros (`0` is written as one digit).
pub open spec fn decimal_text(n: nat) -> Seq<char>
    decreases n,
{
    if n < 10 {
        seq![digit_char(n)]
    } else {
        decimal_text(n / 10).push(digit_char(n % 10))
    }
}

/// The one-character text of the decimal digit `d`.
fn digit_str(d: u16) -> (s: &'static str)
    requires
        d < 10,
    ensures
        s@ == seq![digit_char(d as nat)],
{
    proof {
        reveal_strlit("0");
        reveal_strlit("1");
        reveal_strlit("2");
        reveal_strlit("3");
        reveal_strlit("4");
        reveal_strlit("5");
        reveal_strlit("6");
        reveal_strlit("7");
        reveal_strlit("8");
        reveal_strlit("9");
    }
    match d {
        0 => "0",
        1 => "1",
        2 => "2",
        3 => "3",
        4 => "4",
        5 => "5",
        6 => "6",
        7 => "7",
        8 => "8",
        _ => "9",
    }
}

/// The decimal text of a port number.
fn decimal_string(n: u16) -> (s: String)
    ensures
        s@ == decimal_text(n as nat),
    decreases n,
{
    if n < 10 {
        let mut s = String::new();
        s.append(digit_str(n));
        s
    } else {
        let mut s = decimal_string(n / 10);
        s.append(digit_str(n % 10));
        s
    }
}

/// The address under which the server is announced: the one that the
/// environment gives, where it gives one, else the address it is bound to.
pub open spec fn announced_address(configured: Option<Seq<char>>, bind_address: Seq<char>) -> Seq<
    char,
> {
    match configured {
        Some(a) => a,
        None => bind_address,
    }
}

/// The URL under which the server announces the web console and the API:
/// `http://` followed by the announced address, `:` and the port.
pub fn server_url(configured_address: Option<String>, bind_address: &str, port: u16) -> (url: String)
    ensures
        url@ == "http://"@ + announced_address(configured_address.deep_view(), bind_address@)
            + ":"@ + decimal_text(port as nat),
        configured_address matches Some(a) ==> url@ == "http://"@ + a@ + ":"@ + decimal_text(
            port as nat,
        ),
        configured_address is None ==> url@ == "http://"@ + bind_address@ + ":"@ + decimal_text(
            port as nat,
        ),
        is_decimal_numeral_of(decimal_text(port as nat), port as nat),
{
    proof {
        lemma_decimal_text_is_numeral(port as nat);
    }
    let mut url = String::new();
    url.append("http://");
    match &configured_address {
        Some(a) => url.append(a.as_str()),
        None => url.append(bind_address),
    }
    url.append(":");
    let p = decimal_string(port);
    url.append(p.as_str());
    url
}

/// The number that the decimal digits `s` stand for, read most significant
/// digit first.
pub open spec fn decimal_value(s: Seq<char>) -> int
    decreases s.len(),
{
    if s.len() == 0 {
        0
    } else {
        decimal_value(s.drop_last()) * 10 + (s.last() as int - '0' as int)
    }
}

/// `s` is the usual decimal numeral of `n`: at least one digit, every
/// character a digit `0` to `9`, no leading zero unless `n` is zero itself,
/// and the digits read in base ten give `n`.
pub open spec fn is_decimal_numeral_of(s: Seq<char>, n: nat) -> bool {
    &&& s.len() >= 1
    &&& forall|i: int| 0 <= i < s.len() ==> '0' <= #[trigger] s[i] <= '9'
    &&& (s.len() > 1 ==> s[0] != '0')
    &&& decimal_value(s) == n
}

/// The decimal text of every number is its usual decimal numeral.
pub proof fn lemma_decimal_text_is_numeral(n: nat)
    ensures
        is_decimal_numeral_of(decimal_text(n), n),
    decreases n,
{
    let s = decimal_text(n);
    let d = digit_char(n % 10);
    assert(d as int == '0' as int + n % 10);
    assert('0' <= d <= '9');
    if n < 10 {
        assert(s =~= seq![d]);
        assert(s.drop_last() =~= Seq::<char>::empty());
        assert(decimal_value(s) == decimal_value(s.drop_last()) * 10 + (d as int - '0' as int));
    } else {
        lemma_decimal_text_is_numeral(n / 10);
        let t = decimal_text(n / 10);
        assert(s =~= t.push(d));
        assert(s.drop_last() =~= t);
        assert(s[0] == t[0]);
        assert forall|i: int| 0 <= i < s.len() implies '0' <= #[trigger] s[i] <= '9' by {
            if i < t.len() {
                assert(s[i] == t[i]);
            }
        }
        assert(decimal_value(s) == decimal_value(t) * 10 + (d as int - '0' as int));
        assert(decimal_value(s) == n);
        if t.len() == 1 {
            // A single digit stands for itself, and `n / 10` is not zero.
            assert(t.drop_last() =~= Seq::<char>::empty());
            assert(t.last() == t[0]);
            assert(decimal_value(t.drop_last()) == 0);
            assert(decimal_value(t) == t[0] as int - '0' as int);
        }
        assert(s.len() > 1 ==> s[0] != '0');
    }
    assert(s.len() >= 1);
    assert(decimal_value(s) == n);
}

/// How a response is logged, by its status alone: every client error
/// (`400` to `499`) at `Info`; a success (`200` to `299`) or a `304 Not
/// Modified` at `Trace` for the health probe `GET /healthz` and at `Debug`
/// otherwise; every other status at `Error`, whatever the method and path.
pub proof fn lemma_response_level_by_status(status: u16, is_get: bool, path: Seq<char>)
    ensures
        400 <= status <= 499 ==> response_level(status, is_get, path) == LogLevel::Info,
        (200 <= status <= 299 || status == 304) ==> response_level(status, is_get, path) == (if is_get
            && path == "/healthz"@ {
            LogLevel::Trace
        } else {
            LogLevel::Debug
        }),
        !(200 <= status <= 299 || status == 304 || 400 <= status <= 499) ==> response_level(
            status,
            is_get,
            path,
        ) == LogLevel::Error,
{
}

/// The announced address is the configured one whenever one is configured,
/// whatever the bind address, and the bind address otherwise.
pub proof fn lemma_announced_address(configured: Option<Seq<char>>, bind_address: Seq<char>)
    ensures
        configured matches Some(a) ==> announced_address(configured, bind_address) == a,
        configured is None ==> announced_address(configured, bind_address) == bind_address,
{
}

} // verus!
