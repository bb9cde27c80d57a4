//! Errors raised by the pipeline runner: their codes, their HTTP status and
//! their human-readable messages.

use std::borrow::Cow;
use vstd::prelude::*;

use crate::db::pipeline_id::PipelineId;
use crate::runner::timeout::Timeout;

verus! {

/// An error of the runner, which starts, stops and talks to pipelines.
#[derive(Debug, Clone)]
#[allow(inconsistent_fields)]
pub enum RunnerError {
    // Pipeline information missing
    PipelineMissingDeploymentLocation { pipeline_id: PipelineId, pipeline_name: String },
    PipelineMissingProgramInfo { pipeline_id: PipelineId, pipeline_name: String },
    PipelineMissingProgramBinaryUrl { pipeline_id: PipelineId, pipeline_name: String },
    // Pipeline web server interaction
    PipelineNotRunningOrPaused { pipeline_id: PipelineId, pipeline_name: String },
    PipelineEndpointSendError {
        pipeline_id: PipelineId,
        pipeline_name: Option<String>,
        url: String,
        error: String,
    },
    PipelineEndpointResponseBodyError {
        pipeline_id: PipelineId,
        pipeline_name: Option<String>,
        url: String,
        error: String,
    },
    PipelineEndpointResponseJsonParseError {
        pipeline_id: PipelineId,
        pipeline_name: Option<String>,
        url: String,
        error: String,
    },
    PipelineEndpointInvalidResponse { pipeline_id: PipelineId, error: String },
    // Automaton
    PipelineProvisioningTimeout { pipeline_id: PipelineId, timeout: Timeout },
    PipelineInitializingTimeout { pipeline_id: PipelineId, timeout: Timeout },
    PipelineShutdownTimeout { pipeline_id: PipelineId, timeout: Timeout },
    // Runner
    PipelineStartupError { pipeline_id: PipelineId, error: String },
    PipelineShutdownError { pipeline_id: PipelineId, error: String },
    PortFileParseError { pipeline_id: PipelineId, error: String },
    BinaryFetchError { pipeline_id: PipelineId, error: String },
}

/// HTTP status `400 Bad Request`.
pub const STATUS_BAD_REQUEST: u16 = 400;

/// HTTP status `500 Internal Server Error`.
pub const STATUS_INTERNAL_SERVER_ERROR: u16 = 500;

/// `name (id)`: how a pipeline with a known name is shown.
pub open spec fn named_pipeline(name: Seq<char>, id: PipelineId) -> Seq<char> {
    name + " ("@ + id.text() + ")"@
}

/// How a pipeline is shown: `name (id)` when its name is known, else its id alone.
pub open spec fn pipeline_label(name: Option<Seq<char>>, id: PipelineId) -> Seq<char> {
    match name {
        Some(n) => named_pipeline(n, id),
        None => id.text(),
    }
}

/// `s` holds `t` as a contiguous run of characters.
pub open spec fn contains_infix(s: Seq<char>, t: Seq<char>) -> bool {
    exists|i: int| 0 <= i && i + t.len() <= s.len() && #[trigger] s.subrange(i, i + t.len()) == t
}

/// `a b c` joined into one string.
fn join3(a: &str, b: &str, c: &str) -> (s: String)
    ensures
        s@ == a@ + b@ + c@,
{
    let mut s = String::new();
    s.append(a);
    s.append(b);
    s.append(c);
    s
}

/// `a b c d` joined into one string.
fn join4(a: &str, b: &str, c: &str, d: &str) -> (s: String)
    ensures
        s@ == a@ + b@ + c@ + d@,
{
    let mut s = String::new();
    s.append(a);
    s.append(b);
    s.append(c);
    s.append(d);
    s
}

/// `a b c d e f` joined into one string.
fn join6(a: &str, b: &str, c: &str, d: &str, e: &str, f: &str) -> (s: String)
    ensures
        s@ == a@ + b@ + c@ + d@ + e@ + f@,
{
    let mut s = String::new();
    s.append(a);
    s.append(b);
    s.append(c);
    s.append(d);
    s.append(e);
    s.append(f);
    s
}

/// `name (id)`: a pipeline with a known name.
fn named_pipeline_string(name: &String, id: &PipelineId) -> (s: String)
    ensures
        s@ == named_pipeline(name@, *id),
{
    let id_text = id.to_string();
    join4(name.as_str(), " (", id_text.as_str(), ")")
}

/// A pipeline by name and id where its name is known, else by id alone.
fn pipeline_label_string(name: &Option<String>, id: &PipelineId) -> (s: String)
    ensures
        s@ == pipeline_label(name.deep_view(), *id),
{
    match name {
        Some(n) => named_pipeline_string(n, id),
        None => id.to_string(),
    }
}

impl RunnerError {
    /// Position of the variant in the declaration of `RunnerError`.
    pub open spec fn variant_index(self) -> int {
        match self {
            RunnerError::PipelineMissingDeploymentLocation { .. } => 0,
            RunnerError::PipelineMissingProgramInfo { .. } => 1,
            RunnerError::PipelineMissingProgramBinaryUrl { .. } => 2,
            RunnerError::PipelineNotRunningOrPaused { .. } => 3,
            RunnerError::PipelineEndpointSendError { .. } => 4,
            RunnerError::PipelineEndpointResponseBodyError { .. } => 5,
            RunnerError::PipelineEndpointResponseJsonParseError { .. } => 6,
            RunnerError::PipelineEndpointInvalidResponse { .. } => 7,
            RunnerError::PipelineProvisioningTimeout { .. } => 8,
            RunnerError::PipelineInitializingTimeout { .. } => 9,
            RunnerError::PipelineShutdownTimeout { .. } => 10,
            RunnerError::PipelineStartupError { .. } => 11,
            RunnerError::PipelineShutdownError { .. } => 12,
            RunnerError::PortFileParseError { .. } => 13,
            RunnerError::BinaryFetchError { .. } => 14,
        }
    }

    /// The identifying name of the error: the name of its variant.
    pub open spec fn code(self) -> Seq<char> {
        match self {
            RunnerError::PipelineMissingDeploymentLocation {
                ..
            } => "PipelineMissingDeploymentLocation"@,
            RunnerError::PipelineMissingProgramInfo { .. } => "PipelineMissingProgramInfo"@,
            RunnerError::PipelineMissingProgramBinaryUrl {
                ..
            } => "PipelineMissingProgramBinaryUrl"@,
            RunnerError::PipelineNotRunningOrPaused { .. } => "PipelineNotRunningOrPaused"@,
            RunnerError::PipelineEndpointSendError { .. } => "PipelineEndpointSendError"@,
            RunnerError::PipelineEndpointResponseBodyError {
                ..
            } => "PipelineEndpointResponseBodyError"@,
            RunnerError::PipelineEndpointResponseJsonParseError {
                ..
            } => "PipelineEndpointResponseJsonParseError"@,
            RunnerError::PipelineEndpointInvalidResponse {
                ..
            } => "PipelineEndpointInvalidResponse"@,
            RunnerError::PipelineProvisioningTimeout { .. } => "PipelineProvisioningTimeout"@,
            RunnerError::PipelineInitializingTimeout { .. } => "PipelineInitializingTimeout"@,
            RunnerError::PipelineShutdownTimeout { .. } => "PipelineShutdownTimeout"@,
            RunnerError::PipelineStartupError { .. } => "PipelineStartupError"@,
            RunnerError::PipelineShutdownError { .. } => "PipelineShutdownError"@,
            RunnerError::PortFileParseError { .. } => "PortFileParseError"@,
            RunnerError::BinaryFetchError { .. } => "BinaryFetchError"@,
        }
    }

    /// The HTTP status of the error: only a request on a pipeline that is
    /// neither running nor paused is the client's fault.
    pub open spec fn status(self) -> u16 {
        match self {
            RunnerError::PipelineNotRunningOrPaused { .. } => STATUS_BAD_REQUEST,
            _ => STATUS_INTERNAL_SERVER_ERROR,
        }
    }

    /// The pipeline that the error is about.
    pub open spec fn pipeline(self) -> PipelineId {
        match self {
            RunnerError::PipelineMissingDeploymentLocation { pipeline_id, .. } => pipeline_id,
            RunnerError::PipelineMissingProgramInfo { pipeline_id, .. } => pipeline_id,
            RunnerError::PipelineMissingProgramBinaryUrl { pipeline_id, .. } => pipeline_id,
            RunnerError::PipelineNotRunningOrPaused { pipeline_id, .. } => pipeline_id,
            RunnerError::PipelineEndpointSendError { pipeline_id, .. } => pipeline_id,
            RunnerError::PipelineEndpointResponseBodyError { pipeline_id, .. } => pipeline_id,
            RunnerError::PipelineEndpointResponseJsonParseError { pipeline_id, .. } => pipeline_id,
            RunnerError::PipelineEndpointInvalidResponse { pipeline_id, .. } => pipeline_id,
            RunnerError::PipelineProvisioningTimeout { pipeline_id, .. } => pipeline_id,
            RunnerError::PipelineInitializingTimeout { pipeline_id, .. } => pipeline_id,
            RunnerError::PipelineShutdownTimeout { pipeline_id, .. } => pipeline_id,
            RunnerError::PipelineStartupError { pipeline_id, .. } => pipeline_id,
            RunnerError::PipelineShutdownError { pipeline_id, .. } => pipeline_id,
            RunnerError::PortFileParseError { pipeline_id, .. } => pipeline_id,
            RunnerError::BinaryFetchError { pipeline_id, .. } => pipeline_id,
        }
    }

    /// The name of the pipeline, where the error carries one.
    pub open spec fn name(self) -> Option<Seq<char>> {
        match self {
            RunnerError::PipelineMissingDeploymentLocation { pipeline_name, .. } => Some(
                pipeline_name@,
            ),
            RunnerError::PipelineMissingProgramInfo { pipeline_name, .. } => Some(pipeline_name@),
            RunnerError::PipelineMissingProgramBinaryUrl { pipeline_name, .. } => Some(
                pipeline_name@,
            ),
            RunnerError::PipelineNotRunningOrPaused { pipeline_name, .. } => Some(pipeline_name@),
            RunnerError::PipelineEndpointSendError {
                pipeline_name,
                ..
            } => pipeline_name.deep_view(),
            RunnerError::PipelineEndpointResponseBodyError {
                pipeline_name,
                ..
            } => pipeline_name.deep_view(),
            RunnerError::PipelineEndpointResponseJsonParseError {
                pipeline_name,
                ..
            } => pipeline_name.deep_view(),
            _ => None,
        }
    }

    /// The URL of the pipeline endpoint, where the error carries one.
    pub open spec fn url(self) -> Option<Seq<char>> {
        match self {
            RunnerError::PipelineEndpointSendError { url, .. } => Some(url@),
            RunnerError::PipelineEndpointResponseBodyError { url, .. } => Some(url@),
            RunnerError::PipelineEndpointResponseJsonParseError { url, .. } => Some(url@),
            _ => None,
        }
    }

    /// The underlying error text, where the error carries one.
    pub open spec fn detail(self) -> Option<Seq<char>> {
        match self {
            RunnerError::PipelineEndpointSendError { error, .. } => Some(error@),
            RunnerError::PipelineEndpointResponseBodyError { error, .. } => Some(error@),
            RunnerError::PipelineEndpointResponseJsonParseError { error, .. } => Some(error@),
            RunnerError::PipelineEndpointInvalidResponse { error, .. } => Some(error@),
            RunnerError::PipelineStartupError { error, .. } => Some(error@),
            RunnerError::PipelineShutdownError { error, .. } => Some(error@),
            RunnerError::PortFileParseError { error, .. } => Some(error@),
            RunnerError::BinaryFetchError { error, .. } => Some(error@),
            _ => None,
        }
    }

    /// The timeout that expired, where the error carries one.
    pub open spec fn expired_timeout(self) -> Option<Timeout> {
        match self {
            RunnerError::PipelineProvisioningTimeout { timeout, .. } => Some(timeout),
            RunnerError::PipelineInitializingTimeout { timeout, .. } => Some(timeout),
            RunnerError::PipelineShutdownTimeout { timeout, .. } => Some(timeout),
            _ => None,
        }
    }

    /// The text that the message shows for the timeout that expired, as
    /// `{:?}` writes it for a `Duration`; empty where the error carries none.
    pub open spec fn shown_timeout(self) -> Seq<char> {
        match self.expired_timeout() {
            Some(t) => t.text(),
            None => Seq::empty(),
        }
    }

    /// The human-readable message of the error.
    pub open spec fn message(self) -> Seq<char> {
        self.message_with(self.shown_timeout())
    }

    /// The human-readable message of the error, with `after` shown as the
    /// timeout that expired (the other messages do not use `after`).
    pub open spec fn message_with(self, after: Seq<char>) -> Seq<char> {
        match self {
            RunnerError::PipelineMissingDeploymentLocation { pipeline_id, pipeline_name } => {
                "Pipeline "@ + named_pipeline(pipeline_name@, pipeline_id)
                    + " is missing its deployment location"@
            },
            RunnerError::PipelineMissingProgramInfo { pipeline_id, pipeline_name } => {
                "Pipeline "@ + named_pipeline(pipeline_name@, pipeline_id)
                    + " is missing its program info"@
            },
            RunnerError::PipelineMissingProgramBinaryUrl { pipeline_id, pipeline_name } => {
                "Pipeline "@ + named_pipeline(pipeline_name@, pipeline_id)
                    + " is missing its program binary URL"@
            },
            RunnerError::PipelineNotRunningOrPaused { pipeline_id, pipeline_name } => {
                "Pipeline "@ + named_pipeline(pipeline_name@, pipeline_id)
                    + " is not currently running or paused."@
            },
            RunnerError::PipelineEndpointSendError { pipeline_id, pipeline_name, url, error } => {
                "Sending request to URL "@ + url@ + " of pipeline "@ + pipeline_label(
                    pipeline_name.deep_view(),
                    pipeline_id,
                ) + " failed: "@ + error@
            },
            RunnerError::PipelineEndpointResponseBodyError {
                pipeline_id,
                pipeline_name,
                url,
                error,
            } => {
                "Response body from URL "@ + url@ + " of pipeline "@ + pipeline_label(
                    pipeline_name.deep_view(),
                    pipeline_id,
                ) + " could not be read: "@ + error@
            },
            RunnerError::PipelineEndpointResponseJsonParseError {
                pipeline_id,
                pipeline_name,
                url,
                error,
            } => {
                "Response body of request to URL "@ + url@ + " of pipeline "@ + pipeline_label(
                    pipeline_name.deep_view(),
                    pipeline_id,
                ) + " could not be parsed as JSON: "@ + error@
            },
            RunnerError::PipelineEndpointInvalidResponse { pipeline_id, error } => {
                "Pipeline "@ + pipeline_id.text() + " received an invalid endpoint response: "@
                    + error@
            },
            RunnerError::PipelineProvisioningTimeout { pipeline_id, timeout } => {
                "Waiting for provisioning of pipeline "@ + pipeline_id.text() + " timed out after "@
                    + after
            },
            RunnerError::PipelineInitializingTimeout { pipeline_id, timeout } => {
                "Waiting for initialization of pipeline "@ + pipeline_id.text()
                    + " timed out after "@ + after
            },
            RunnerError::PipelineShutdownTimeout { pipeline_id, timeout } => {
                "Waiting for shutdown of pipeline "@ + pipeline_id.text() + " timed out after "@
                    + after
            },
            RunnerError::PipelineStartupError { pipeline_id, error } => {
                "Failed to start pipeline "@ + pipeline_id.text() + ": "@ + error@
            },
            RunnerError::PipelineShutdownError { pipeline_id, error } => {
                "Failed to shutdown pipeline "@ + pipeline_id.text() + ": "@ + error@
            },
            RunnerError::PortFileParseError { pipeline_id, error } => {
                "Could not parse port for pipeline "@ + pipeline_id.text() + " from port file: "@
                    + error@
            },
            RunnerError::BinaryFetchError { pipeline_id, error } => {
                "Failed to fetch binary executable for running pipeline "@ + pipeline_id.text()
                    + ": "@ + error@
            },
        }
    }

    /// Identifying name of the error: the name of its variant, borrowed from a
    /// static literal.
    pub fn error_code(&self) -> (code: Cow<'static, str>)
        ensures
            code@ == self.code(),
            code is Borrowed,
    {
        match self {
            RunnerError::PipelineMissingDeploymentLocation { .. } => Cow::Borrowed(
                "PipelineMissingDeploymentLocation",
            ),
            RunnerError::PipelineMissingProgramInfo { .. } => Cow::Borrowed(
                "PipelineMissingProgramInfo",
            ),
            RunnerError::PipelineMissingProgramBinaryUrl { .. } => Cow::Borrowed(
                "PipelineMissingProgramBinaryUrl",
            ),
            RunnerError::PipelineNotRunningOrPaused { .. } => Cow::Borrowed(
                "PipelineNotRunningOrPaused",
            ),
            RunnerError::PipelineEndpointSendError { .. } => Cow::Borrowed(
                "PipelineEndpointSendError",
            ),
            RunnerError::PipelineEndpointResponseBodyError { .. } => Cow::Borrowed(
                "PipelineEndpointResponseBodyError",
            ),
            RunnerError::PipelineEndpointResponseJsonParseError { .. } => Cow::Borrowed(
                "PipelineEndpointResponseJsonParseError",
            ),
            RunnerError::PipelineEndpointInvalidResponse { .. } => Cow::Borrowed(
                "PipelineEndpointInvalidResponse",
            ),
            RunnerError::PipelineProvisioningTimeout { .. } => Cow::Borrowed(
                "PipelineProvisioningTimeout",
            ),
            RunnerError::PipelineInitializingTimeout { .. } => Cow::Borrowed(
                "PipelineInitializingTimeout",
            ),
            RunnerError::PipelineShutdownTimeout { .. } => Cow::Borrowed(
                "PipelineShutdownTimeout",
            ),
            RunnerError::PipelineStartupError { .. } => Cow::Borrowed("PipelineStartupError"),
            RunnerError::PipelineShutdownError { .. } => Cow::Borrowed("PipelineShutdownError"),
            RunnerError::PortFileParseError { .. } => Cow::Borrowed("PortFileParseError"),
            RunnerError::BinaryFetchError { .. } => Cow::Borrowed("BinaryFetchError"),
        }
    }

    /// The human-readable message of the error, with `after` shown as the
    /// timeout that expired.
    pub fn message_with_timeout_text(&self, after: &str) -> (text: String)
        ensures
            text@ == self.message_with(after@),
    {
        match self {
            RunnerError::PipelineMissingDeploymentLocation { pipeline_id, pipeline_name } => {
                let who = named_pipeline_string(pipeline_name, pipeline_id);
                join3("Pipeline ", who.as_str(), " is missing its deployment location")
            },
            RunnerError::PipelineMissingProgramInfo { pipeline_id, pipeline_name } => {
                let who = named_pipeline_string(pipeline_name, pipeline_id);
                join3("Pipeline ", who.as_str(), " is missing its program info")
            },
            RunnerError::PipelineMissingProgramBinaryUrl { pipeline_id, pipeline_name } => {
                let who = named_pipeline_string(pipeline_name, pipeline_id);
                join3("Pipeline ", who.as_str(), " is missing its program binary URL")
            },
            RunnerError::PipelineNotRunningOrPaused { pipeline_id, pipeline_name } => {
                let who = named_pipeline_string(pipeline_name, pipeline_id);
                join3("Pipeline ", who.as_str(), " is not currently running or paused.")
            },
            RunnerError::PipelineEndpointSendError { pipeline_id, pipeline_name, url, error } => {
                let who = pipeline_label_string(pipeline_name, pipeline_id);
                join6(
                    "Sending request to URL ",
                    url.as_str(),
                    " of pipeline ",
                    who.as_str(),
                    " failed: ",
                    error.as_str(),
                )
            },
            RunnerError::PipelineEndpointResponseBodyError {
                pipeline_id,
                pipeline_name,
                url,
                error,
            } => {
                let who = pipeline_label_string(pipeline_name, pipeline_id);
                join6(
                    "Response body from URL ",
                    url.as_str(),
                    " of pipeline ",
                    who.as_str(),
                    " could not be read: ",
                    error.as_str(),
                )
            },
            RunnerError::PipelineEndpointResponseJsonParseError {
                pipeline_id,
                pipeline_name,
                url,
                error,
            } => {
                let who = pipeline_label_string(pipeline_name, pipeline_id);
                join6(
                    "Response body of request to URL ",
                    url.as_str(),
                    " of pipeline ",
                    who.as_str(),
                    " could not be parsed as JSON: ",
                    error.as_str(),
                )
            },
            RunnerError::PipelineEndpointInvalidResponse { pipeline_id, error } => {
                let id = pipeline_id.to_string();
                join4(
                    "Pipeline ",
                    id.as_str(),
                    " received an invalid endpoint response: ",
                    error.as_str(),
                )
            },
            RunnerError::PipelineProvisioningTimeout { pipeline_id, .. } => {
                let id = pipeline_id.to_string();
                join4(
                    "Waiting for provisioning of pipeline ",
                    id.as_str(),
                    " timed out after ",
                    after,
                )
            },
            RunnerError::PipelineInitializingTimeout { pipeline_id, .. } => {
                let id = pipeline_id.to_string();
                join4(
                    "Waiting for initialization of pipeline ",
                    id.as_str(),
                    " timed out after ",
                    after,
                )
            },
            RunnerError::PipelineShutdownTimeout { pipeline_id, .. } => {
                let id = pipeline_id.to_string();
                join4(
                    "Waiting for shutdown of pipeline ",
                    id.as_str(),
                    " timed out after ",
                    after,
                )
            },
            RunnerError::PipelineStartupError { pipeline_id, error } => {
                let id = pipeline_id.to_string();
                join4("Failed to start pipeline ", id.as_str(), ": ", error.as_str())
            },
            RunnerError::PipelineShutdownError { pipeline_id, error } => {
                let id = pipeline_id.to_string();
                join4("Failed to shutdown pipeline ", id.as_str(), ": ", error.as_str())
            },
            RunnerError::PortFileParseError { pipeline_id, error } => {
                let id = pipeline_id.to_string();
                join4(
                    "Could not parse port for pipeline ",
                    id.as_str(),
                    " from port file: ",
                    error.as_str(),
                )
            },
            RunnerError::BinaryFetchError { pipeline_id, error } => {
                let id = pipeline_id.to_string();
                join4(
                    "Failed to fetch binary executable for running pipeline ",
                    id.as_str(),
                    ": ",
                    error.as_str(),
                )
            },
        }
    }

    /// The human-readable message of the error.
    pub fn to_string(&self) -> (text: String)
        ensures
            text@ == self.message(),
    {
        let after = match self {
            RunnerError::PipelineProvisioningTimeout { timeout, .. }
            | RunnerError::PipelineInitializingTimeout { timeout, .. }
            | RunnerError::PipelineShutdownTimeout { timeout, .. } => timeout.to_debug_string(),
            _ => String::new(),
        };
        self.message_with_timeout_text(after.as_str())
    }

    /// The HTTP status code of the response that reports the error:
    /// `400 Bad Request` for a pipeline that is neither running nor paused,
    /// `500 Internal Server Error` for every other error.
    pub fn status_code(&self) -> (status: u16)
        ensures
            status == self.status(),
            status == STATUS_BAD_REQUEST <==> self is PipelineNotRunningOrPaused,
            status == STATUS_INTERNAL_SERVER_ERROR <==> !(self is PipelineNotRunningOrPaused),
            400 <= status <= 599,
            status == 400 <==> self is PipelineNotRunningOrPaused,
            status == 500 <==> !(self is PipelineNotRunningOrPaused),
    {
        match self {
            RunnerError::PipelineNotRunningOrPaused { .. } => STATUS_BAD_REQUEST,
            _ => STATUS_INTERNAL_SERVER_ERROR,
        }
    }
}

} // verus!

verus! {

/// `t` stands at offset `o` of `m`.
proof fn lemma_infix_at(m: Seq<char>, o: int, t: Seq<char>)
    requires
        0 <= o,
        o + t.len() <= m.len(),
        m.subrange(o, o + t.len()) =~= t,
    ensures
        contains_infix(m, t),
{
}

/// What `t` holds, any sequence that holds `t` holds too.
proof fn lemma_infix_trans(m: Seq<char>, t: Seq<char>, x: Seq<char>)
    requires
        contains_infix(m, t),
        contains_infix(t, x),
    ensures
        contains_infix(m, x),
{
    let i = choose|i: int| 0 <= i && i + t.len() <= m.len() && #[trigger] m.subrange(i, i + t.len()) == t;
    let j = choose|j: int| 0 <= j && j + x.len() <= t.len() && #[trigger] t.subrange(j, j + x.len()) == x;
    assert(m.subrange(i + j, i + j + x.len()) =~= x) by {
        assert forall|k: int| 0 <= k < x.len() implies m.subrange(i + j, i + j + x.len())[k] == x[k] by {
            assert(m.subrange(i, i + t.len())[j + k] == t[j + k]);
            assert(t.subrange(j, j + x.len())[k] == t[j + k]);
        }
    }
    lemma_infix_at(m, i + j, x);
}

/// `a + b + c` holds `a`, `b` and `c`.
proof fn lemma_three_parts(a: Seq<char>, b: Seq<char>, c: Seq<char>)
    ensures
        contains_infix(a + b + c, a),
        contains_infix(a + b + c, b),
        contains_infix(a + b + c, c),
{
    let m = a + b + c;
    lemma_infix_at(m, 0, a);
    lemma_infix_at(m, a.len() as int, b);
    lemma_infix_at(m, (a.len() + b.len()) as int, c);
}

/// A pipeline's label holds its id, and its name where the name is known.
proof fn lemma_label_parts(name: Option<Seq<char>>, id: PipelineId)
    ensures
        contains_infix(pipeline_label(name, id), id.text()),
        name matches Some(n) ==> contains_infix(pipeline_label(name, id), n),
{
    match name {
        Some(n) => {
            let l = pipeline_label(name, id);
            assert(l =~= n + (" ("@ + id.text()) + ")"@);
            lemma_three_parts(n, " ("@ + id.text(), ")"@);
            lemma_three_parts(Seq::empty(), " ("@, id.text());
            assert(Seq::<char>::empty() + " ("@ + id.text() =~= " ("@ + id.text());
            lemma_infix_trans(l, " ("@ + id.text(), id.text());
        },
        None => {
            lemma_infix_at(id.text(), 0, id.text());
        },
    }
}

/// A message that reports a pipeline by its label, between a prefix and a suffix.
proof fn lemma_labelled_message(p: Seq<char>, name: Option<Seq<char>>, id: PipelineId, s: Seq<char>)
    ensures
        contains_infix(p + pipeline_label(name, id) + s, id.text()),
        name matches Some(n) ==> contains_infix(p + pipeline_label(name, id) + s, n),
{
    let l = pipeline_label(name, id);
    lemma_three_parts(p, l, s);
    lemma_label_parts(name, id);
    lemma_infix_trans(p + l + s, l, id.text());
    if let Some(n) = name {
        lemma_infix_trans(p + l + s, l, n);
    }
}

/// A message about an endpoint of a labelled pipeline holds the URL, the
/// pipeline's id and name, and the error text.
proof fn lemma_endpoint_message(
    p: Seq<char>,
    url: Seq<char>,
    name: Option<Seq<char>>,
    id: PipelineId,
    f: Seq<char>,
    err: Seq<char>,
)
    ensures
        ({
            let m = p + url + " of pipeline "@ + pipeline_label(name, id) + f + err;
            &&& contains_infix(m, url)
            &&& contains_infix(m, err)
            &&& contains_infix(m, id.text())
            &&& name matches Some(n) ==> contains_infix(m, n)
        }),
{
    let o = " of pipeline "@;
    let l = pipeline_label(name, id);
    let m = p + url + o + l + f + err;
    assert(m =~= (p + url + o) + l + (f + err));
    lemma_labelled_message(p + url + o, name, id, f + err);
    lemma_infix_at(m, p.len() as int, url);
    lemma_infix_at(m, (m.len() - err.len()) as int, err);
}

/// A message that names a pipeline by id and ends with `tail` holds both.
proof fn lemma_id_message(p: Seq<char>, id: PipelineId, mid: Seq<char>, tail: Seq<char>)
    ensures
        contains_infix(p + id.text() + mid + tail, id.text()),
        contains_infix(p + id.text() + mid + tail, tail),
{
    let m = p + id.text() + mid + tail;
    lemma_infix_at(m, p.len() as int, id.text());
    lemma_infix_at(m, (m.len() - tail.len()) as int, tail);
}

/// The message of a runner error reports every field that the error
/// carries: the pipeline's id, its name where known, the endpoint's URL,
/// the underlying error text and the timeout that expired.
pub proof fn lemma_message_reports_fields(e: RunnerError)
    ensures
        contains_infix(e.message(), e.pipeline().text()),
        e.name() matches Some(n) ==> contains_infix(e.message(), n),
        e.url() matches Some(u) ==> contains_infix(e.message(), u),
        e.detail() matches Some(d) ==> contains_infix(e.message(), d),
        e.expired_timeout() matches Some(t) ==> contains_infix(e.message(), t.text()),
{
    let m = e.message();
    let id = e.pipeline();
    match e {
        RunnerError::PipelineMissingDeploymentLocation { pipeline_name, .. }
        | RunnerError::PipelineMissingProgramInfo { pipeline_name, .. }
        | RunnerError::PipelineMissingProgramBinaryUrl { pipeline_name, .. }
        | RunnerError::PipelineNotRunningOrPaused { pipeline_name, .. } => {
            let p = "Pipeline "@;
            let l = pipeline_label(Some(pipeline_name@), id);
            let s = m.subrange((p.len() + l.len()) as int, m.len() as int);
            assert(m =~= p + l + s);
            lemma_labelled_message(p, Some(pipeline_name@), id, s);
        },
        RunnerError::PipelineEndpointSendError { pipeline_name, url, error, .. } => {
            lemma_endpoint_message(
                "Sending request to URL "@,
                url@,
                pipeline_name.deep_view(),
                id,
                " failed: "@,
                error@,
            );
        },
        RunnerError::PipelineEndpointResponseBodyError { pipeline_name, url, error, .. } => {
            lemma_endpoint_message(
                "Response body from URL "@,
                url@,
                pipeline_name.deep_view(),
                id,
                " could not be read: "@,
                error@,
            );
        },
        RunnerError::PipelineEndpointResponseJsonParseError { pipeline_name, url, error, .. } => {
            lemma_endpoint_message(
                "Response body of request to URL "@,
                url@,
                pipeline_name.deep_view(),
                id,
                " could not be parsed as JSON: "@,
                error@,
            );
        },
        RunnerError::PipelineEndpointInvalidResponse { error, .. } => {
            lemma_id_message(
                "Pipeline "@,
                id,
                " received an invalid endpoint response: "@,
                error@,
            );
        },
        RunnerError::PipelineProvisioningTimeout { timeout, .. } => {
            lemma_id_message(
                "Waiting for provisioning of pipeline "@,
                id,
                " timed out after "@,
                timeout.text(),
            );
        },
        RunnerError::PipelineInitializingTimeout { timeout, .. } => {
            lemma_id_message(
                "Waiting for initialization of pipeline "@,
                id,
                " timed out after "@,
                timeout.text(),
            );
        },
        RunnerError::PipelineShutdownTimeout { timeout, .. } => {
            lemma_id_message(
                "Waiting for shutdown of pipeline "@,
                id,
                " timed out after "@,
                timeout.text(),
            );
        },
        RunnerError::PipelineStartupError { error, .. } => {
            lemma_id_message("Failed to start pipeline "@, id, ": "@, error@);
        },
        RunnerError::PipelineShutdownError { error, .. } => {
            lemma_id_message("Failed to shutdown pipeline "@, id, ": "@, error@);
        },
        RunnerError::PortFileParseError { error, .. } => {
            lemma_id_message(
                "Could not parse port for pipeline "@,
                id,
                " from port file: "@,
                error@,
            );
        },
        RunnerError::BinaryFetchError { error, .. } => {
            lemma_id_message(
                "Failed to fetch binary executable for running pipeline "@,
                id,
                ": "@,
                error@,
            );
        },
    }
}

/// Two runner errors have the same code exactly when they are of the same
/// variant: the code identifies the kind of error.
pub proof fn lemma_error_code_identifies_variant(a: RunnerError, b: RunnerError)
    ensures
        a.code() == b.code() <==> a.variant_index() == b.variant_index(),
{
    reveal_strlit("PipelineMissingDeploymentLocation");
    reveal_strlit("PipelineMissingProgramInfo");
    reveal_strlit("PipelineMissingProgramBinaryUrl");
    reveal_strlit("PipelineNotRunningOrPaused");
    reveal_strlit("PipelineEndpointSendError");
    reveal_strlit("PipelineEndpointResponseBodyError");
    reveal_strlit("PipelineEndpointResponseJsonParseError");
    reveal_strlit("PipelineEndpointInvalidResponse");
    reveal_strlit("PipelineProvisioningTimeout");
    reveal_strlit("PipelineInitializingTimeout");
    reveal_strlit("PipelineShutdownTimeout");
    reveal_strlit("PipelineStartupError");
    reveal_strlit("PipelineShutdownError");
    reveal_strlit("PortFileParseError");
    reveal_strlit("BinaryFetchError");
    if a.variant_index() != b.variant_index() {
        // The length and the ninth character of a code tell all codes apart.
        assert(a.code().len() != b.code().len() || a.code()[8] != b.code()[8]);
    }
}

/// The message of each variant is its fixed template with the error's
/// fields put in, for every value of the fields; `after` stands for the
/// timeout that expired.
pub proof fn lemma_message_templates(e: RunnerError, after: Seq<char>)
    ensures
        e matches RunnerError::PipelineMissingDeploymentLocation { pipeline_id, pipeline_name } ==> e.message_with(after)
            == "Pipeline "@ + pipeline_name@ + " ("@ + pipeline_id.text() + ")"@ + " is missing its deployment location"@,
        e matches RunnerError::PipelineMissingProgramInfo { pipeline_id, pipeline_name } ==> e.message_with(after)
            == "Pipeline "@ + pipeline_name@ + " ("@ + pipeline_id.text() + ")"@ + " is missing its program info"@,
        e matches RunnerError::PipelineMissingProgramBinaryUrl { pipeline_id, pipeline_name } ==> e.message_with(after)
            == "Pipeline "@ + pipeline_name@ + " ("@ + pipeline_id.text() + ")"@ + " is missing its program binary URL"@,
        e matches RunnerError::PipelineNotRunningOrPaused { pipeline_id, pipeline_name } ==> e.message_with(after)
            == "Pipeline "@ + pipeline_name@ + " ("@ + pipeline_id.text() + ")"@ + " is not currently running or paused."@,
        e matches RunnerError::PipelineEndpointSendError { pipeline_id, pipeline_name: Some(n), url, error }
            ==> e.message_with(after) == "Sending request to URL "@ + url@ + " of pipeline "@ + n@ + " ("@
            + pipeline_id.text() + ")"@ + " failed: "@ + error@,
        e matches RunnerError::PipelineEndpointSendError { pipeline_id, pipeline_name: None, url, error }
            ==> e.message_with(after) == "Sending request to URL "@ + url@ + " of pipeline "@
            + pipeline_id.text() + " failed: "@ + error@,
        e matches RunnerError::PipelineEndpointResponseBodyError { pipeline_id, pipeline_name: Some(n), url, error }
            ==> e.message_with(after) == "Response body from URL "@ + url@ + " of pipeline "@ + n@ + " ("@
            + pipeline_id.text() + ")"@ + " could not be read: "@ + error@,
        e matches RunnerError::PipelineEndpointResponseBodyError { pipeline_id, pipeline_name: None, url, error }
            ==> e.message_with(after) == "Response body from URL "@ + url@ + " of pipeline "@
            + pipeline_id.text() + " could not be read: "@ + error@,
        e matches RunnerError::PipelineEndpointResponseJsonParseError { pipeline_id, pipeline_name: Some(n), url, error }
            ==> e.message_with(after) == "Response body of request to URL "@ + url@ + " of pipeline "@ + n@ + " ("@
            + pipeline_id.text() + ")"@ + " could not be parsed as JSON: "@ + error@,
        e matches RunnerError::PipelineEndpointResponseJsonParseError { pipeline_id, pipeline_name: None, url, error }
            ==> e.message_with(after) == "Response body of request to URL "@ + url@ + " of pipeline "@
            + pipeline_id.text() + " could not be parsed as JSON: "@ + error@,
        e matches RunnerError::PipelineEndpointInvalidResponse { pipeline_id, error } ==> e.message_with(after)
            == "Pipeline "@ + pipeline_id.text() + " received an invalid endpoint response: "@ + error@,
        e matches RunnerError::PipelineProvisioningTimeout { pipeline_id, .. } ==> e.message_with(after)
            == "Waiting for provisioning of pipeline "@ + pipeline_id.text() + " timed out after "@ + after,
        e matches RunnerError::PipelineInitializingTimeout { pipeline_id, .. } ==> e.message_with(after)
            == "Waiting for initialization of pipeline "@ + pipeline_id.text() + " timed out after "@ + after,
        e matches RunnerError::PipelineShutdownTimeout { pipeline_id, .. } ==> e.message_with(after)
            == "Waiting for shutdown of pipeline "@ + pipeline_id.text() + " timed out after "@ + after,
        e matches RunnerError::PipelineStartupError { pipeline_id, error } ==> e.message_with(after)
            == "Failed to start pipeline "@ + pipeline_id.text() + ": "@ + error@,
        e matches RunnerError::PipelineShutdownError { pipeline_id, error } ==> e.message_with(after)
            == "Failed to shutdown pipeline "@ + pipeline_id.text() + ": "@ + error@,
        e matches RunnerError::PortFileParseError { pipeline_id, error } ==> e.message_with(after)
            == "Could not parse port for pipeline "@ + pipeline_id.text() + " from port file: "@ + error@,
        e matches RunnerError::BinaryFetchError { pipeline_id, error } ==> e.message_with(after)
            == "Failed to fetch binary executable for running pipeline "@ + pipeline_id.text() + ": "@ + error@,
{
}

/// A message shows the expired timeout as `{:?}` writes it for a `Duration`;
/// a message of an error without a timeout shows no timeout text at all.
pub proof fn lemma_message_shows_expired_timeout(e: RunnerError, after: Seq<char>)
    ensures
        e.expired_timeout() matches Some(t) ==> e.message() == e.message_with(t.text()),
        e.expired_timeout() is None ==> e.message() == e.message_with(after),
{
}

/// The code of every runner error is the name of its variant.
pub proof fn lemma_error_code_is_variant_name(e: RunnerError)
    ensures
        e is PipelineMissingDeploymentLocation ==> e.code() == "PipelineMissingDeploymentLocation"@,
        e is PipelineMissingProgramInfo ==> e.code() == "PipelineMissingProgramInfo"@,
        e is PipelineMissingProgramBinaryUrl ==> e.code() == "PipelineMissingProgramBinaryUrl"@,
        e is PipelineNotRunningOrPaused ==> e.code() == "PipelineNotRunningOrPaused"@,
        e is PipelineEndpointSendError ==> e.code() == "PipelineEndpointSendError"@,
        e is PipelineEndpointResponseBodyError ==> e.code() == "PipelineEndpointResponseBodyError"@,
        e is PipelineEndpointResponseJsonParseError ==> e.code() == "PipelineEndpointResponseJsonParseError"@,
        e is PipelineEndpointInvalidResponse ==> e.code() == "PipelineEndpointInvalidResponse"@,
        e is PipelineProvisioningTimeout ==> e.code() == "PipelineProvisioningTimeout"@,
        e is PipelineInitializingTimeout ==> e.code() == "PipelineInitializingTimeout"@,
        e is PipelineShutdownTimeout ==> e.code() == "PipelineShutdownTimeout"@,
        e is PipelineStartupError ==> e.code() == "PipelineStartupError"@,
        e is PipelineShutdownError ==> e.code() == "PipelineShutdownError"@,
        e is PortFileParseError ==> e.code() == "PortFileParseError"@,
        e is BinaryFetchError ==> e.code() == "BinaryFetchError"@,
{
}

} // verus!
