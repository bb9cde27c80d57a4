use pipeline_manager::db::pipeline_id::PipelineId;
use pipeline_manager::runner::error::RunnerError;
use pipeline_manager::runner::timeout::Timeout;

const ID: u128 = 0x67e5504410b1426f9247bb680e5fe0c8;
const ID_TEXT: &str = "67e55044-10b1-426f-9247-bb680e5fe0c8";

fn id() -> PipelineId {
    PipelineId(ID)
}

#[test]
fn pipeline_id_is_shown_as_hyphenated_uuid() {
    assert_eq!(id().to_string(), ID_TEXT);
    assert_eq!(PipelineId(0).to_string(), "00000000-0000-0000-0000-000000000000");
    assert_eq!(
        PipelineId(u128::MAX).to_string(),
        "ffffffff-ffff-ffff-ffff-ffffffffffff"
    );
    assert_eq!(
        PipelineId(0x0123456789abcdef0011223344556677).to_string(),
        "01234567-89ab-cdef-0011-223344556677"
    );
}

#[test]
fn timeout_is_shown_as_duration() {
    assert_eq!(Timeout::from_secs(5).to_debug_string(), "5s");
    assert_eq!(Timeout::from_millis(1500).to_debug_string(), "1.5s");
    assert_eq!(Timeout::from_millis(100).to_debug_string(), "100ms");
    assert_eq!(Timeout::from_parts(2, 500_000_000).to_debug_string(), "2.5s");
    assert_eq!(Timeout::from_millis(1500).as_secs(), 1);
    assert_eq!(Timeout::from_millis(1500).subsec_nanos(), 500_000_000);
}

fn all_errors() -> Vec<RunnerError> {
    vec![
        RunnerError::PipelineMissingDeploymentLocation {
            pipeline_id: id(),
            pipeline_name: "p1".to_string(),
        },
        RunnerError::PipelineMissingProgramInfo {
            pipeline_id: id(),
            pipeline_name: "p1".to_string(),
        },
        RunnerError::PipelineMissingProgramBinaryUrl {
            pipeline_id: id(),
            pipeline_name: "p1".to_string(),
        },
        RunnerError::PipelineNotRunningOrPaused {
            pipeline_id: id(),
            pipeline_name: "p1".to_string(),
        },
        RunnerError::PipelineEndpointSendError {
            pipeline_id: id(),
            pipeline_name: Some("p1".to_string()),
            url: "http://localhost:8080/stats".to_string(),
            error: "connection refused".to_string(),
        },
        RunnerError::PipelineEndpointResponseBodyError {
            pipeline_id: id(),
            pipeline_name: None,
            url: "http://localhost:8080/stats".to_string(),
            error: "eof".to_string(),
        },
        RunnerError::PipelineEndpointResponseJsonParseError {
            pipeline_id: id(),
            pipeline_name: Some("p1".to_string()),
            url: "http://localhost:8080/stats".to_string(),
            error: "expected value".to_string(),
        },
        RunnerError::PipelineEndpointInvalidResponse {
            pipeline_id: id(),
            error: "bad".to_string(),
        },
        RunnerError::PipelineProvisioningTimeout {
            pipeline_id: id(),
            timeout: Timeout::from_secs(5),
        },
        RunnerError::PipelineInitializingTimeout {
            pipeline_id: id(),
            timeout: Timeout::from_millis(1500),
        },
        RunnerError::PipelineShutdownTimeout {
            pipeline_id: id(),
            timeout: Timeout::from_millis(100),
        },
        RunnerError::PipelineStartupError {
            pipeline_id: id(),
            error: "no such file".to_string(),
        },
        RunnerError::PipelineShutdownError {
            pipeline_id: id(),
            error: "still running".to_string(),
        },
        RunnerError::PortFileParseError {
            pipeline_id: id(),
            error: "invalid digit".to_string(),
        },
        RunnerError::BinaryFetchError {
            pipeline_id: id(),
            error: "404".to_string(),
        },
    ]
}

#[test]
fn error_codes_name_the_variants() {
    let codes: Vec<String> = all_errors()
        .iter()
        .map(|e| e.error_code().to_string())
        .collect();
    assert_eq!(
        codes,
        vec![
            "PipelineMissingDeploymentLocation",
            "PipelineMissingProgramInfo",
            "PipelineMissingProgramBinaryUrl",
            "PipelineNotRunningOrPaused",
            "PipelineEndpointSendError",
            "PipelineEndpointResponseBodyError",
            "PipelineEndpointResponseJsonParseError",
            "PipelineEndpointInvalidResponse",
            "PipelineProvisioningTimeout",
            "PipelineInitializingTimeout",
            "PipelineShutdownTimeout",
            "PipelineStartupError",
            "PipelineShutdownError",
            "PortFileParseError",
            "BinaryFetchError",
        ]
    );
}

#[test]
fn error_codes_are_distinct() {
    let codes: Vec<String> = all_errors()
        .iter()
        .map(|e| e.error_code().to_string())
        .collect();
    for i in 0..codes.len() {
        for j in 0..codes.len() {
            assert_eq!(i == j, codes[i] == codes[j]);
        }
    }
}

#[test]
fn only_a_stopped_pipeline_is_a_bad_request() {
    let statuses: Vec<u16> = all_errors().iter().map(|e| e.status_code()).collect();
    assert_eq!(
        statuses,
        vec![500, 500, 500, 400, 500, 500, 500, 500, 500, 500, 500, 500, 500, 500, 500]
    );
}

#[test]
fn messages_follow_the_templates() {
    let messages: Vec<String> = all_errors().iter().map(|e| e.to_string()).collect();
    let expected = vec![
        format!("Pipeline p1 ({ID_TEXT}) is missing its deployment location"),
        format!("Pipeline p1 ({ID_TEXT}) is missing its program info"),
        format!("Pipeline p1 ({ID_TEXT}) is missing its program binary URL"),
        format!("Pipeline p1 ({ID_TEXT}) is not currently running or paused."),
        format!(
            "Sending request to URL http://localhost:8080/stats of pipeline p1 ({ID_TEXT}) failed: connection refused"
        ),
        format!(
            "Response body from URL http://localhost:8080/stats of pipeline {ID_TEXT} could not be read: eof"
        ),
        format!(
            "Response body of request to URL http://localhost:8080/stats of pipeline p1 ({ID_TEXT}) could not be parsed as JSON: expected value"
        ),
        format!("Pipeline {ID_TEXT} received an invalid endpoint response: bad"),
        format!("Waiting for provisioning of pipeline {ID_TEXT} timed out after 5s"),
        format!("Waiting for initialization of pipeline {ID_TEXT} timed out after 1.5s"),
        format!("Waiting for shutdown of pipeline {ID_TEXT} timed out after 100ms"),
        format!("Failed to start pipeline {ID_TEXT}: no such file"),
        format!("Failed to shutdown pipeline {ID_TEXT}: still running"),
        format!("Could not parse port for pipeline {ID_TEXT} from port file: invalid digit"),
        format!("Failed to fetch binary executable for running pipeline {ID_TEXT}: 404"),
    ];
    assert_eq!(messages, expected);
}

#[test]
fn endpoint_messages_without_name_show_the_id_alone() {
    let e = RunnerError::PipelineEndpointSendError {
        pipeline_id: id(),
        pipeline_name: None,
        url: "u".to_string(),
        error: "e".to_string(),
    };
    assert_eq!(
        e.to_string(),
        format!("Sending request to URL u of pipeline {ID_TEXT} failed: e")
    );
    let e = RunnerError::PipelineEndpointResponseBodyError {
        pipeline_id: id(),
        pipeline_name: Some("n".to_string()),
        url: "u".to_string(),
        error: "e".to_string(),
    };
    assert_eq!(
        e.to_string(),
        format!("Response body from URL u of pipeline n ({ID_TEXT}) could not be read: e")
    );
}

#[test]
fn messages_report_the_pipeline_and_the_error() {
    for e in all_errors() {
        let m = e.to_string();
        assert!(m.contains(ID_TEXT), "{m}");
    }
    let e = RunnerError::PortFileParseError {
        pipeline_id: PipelineId(7),
        error: "x: y".to_string(),
    };
    assert!(e.to_string().contains("x: y"));
    assert!(e.to_string().contains("00000000-0000-0000-0000-000000000007"));
}

#[test]
fn error_codes_are_static_literals() {
    for e in all_errors() {
        assert!(matches!(e.error_code(), std::borrow::Cow::Borrowed(_)));
    }
}

#[test]
fn timeout_text_is_placed_in_the_message() {
    let e = RunnerError::PipelineShutdownTimeout {
        pipeline_id: id(),
        timeout: Timeout::from_secs(1),
    };
    assert_eq!(
        e.message_with_timeout_text("2m"),
        format!("Waiting for shutdown of pipeline {ID_TEXT} timed out after 2m")
    );
    let e = RunnerError::PipelineStartupError {
        pipeline_id: id(),
        error: "x".to_string(),
    };
    assert_eq!(
        e.message_with_timeout_text("ignored"),
        format!("Failed to start pipeline {ID_TEXT}: x")
    );
}
