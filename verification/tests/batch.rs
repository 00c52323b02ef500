use hyprnote::batch::{
    batch_route, validate_input_path, contains_str, extract_transcript, format_user_friendly_error,
    friendly_error_from_lowercase, ArgumentError, BatchProvider, BatchRoute, Provider,
};

#[test]
fn provider_names_round_trip() {
    assert_eq!(BatchProvider::AssemblyAI.as_str(), "assemblyai");
    assert_eq!(BatchProvider::from_name("elevenlabs"), Some(BatchProvider::ElevenLabs));
    assert_eq!(BatchProvider::from_name("ElevenLabs"), None);
    let p: BatchProvider = Provider::Openai.into();
    assert_eq!(p, BatchProvider::OpenAI);
    assert_eq!(BatchProvider::from(Provider::Dashscope), BatchProvider::DashScope);
}

#[test]
fn routes() {
    assert!(matches!(batch_route(BatchProvider::Am), BatchRoute::Streamed));
    assert!(matches!(batch_route(BatchProvider::Deepgram), BatchRoute::Direct));
    match batch_route(BatchProvider::DashScope) {
        BatchRoute::Unsupported { message } => {
            assert_eq!(message, "DashScope does not support batch transcription")
        }
        _ => panic!("expected unsupported"),
    }
}

#[test]
fn friendly_errors() {
    assert_eq!(
        format_user_friendly_error("HTTP 401 Unauthorized"),
        "Authentication failed. Please check your API key in settings."
    );
    assert_eq!(
        format_user_friendly_error("Rate Limit hit"),
        "Rate limit exceeded. Please wait a moment and try again."
    );
    assert_eq!(
        format_user_friendly_error("request TIMEOUT"),
        "Connection timed out. Please check your internet connection and try again."
    );
    assert_eq!(
        format_user_friendly_error("No such file or directory"),
        "Audio file not found. The recording may have been moved or deleted."
    );
    assert_eq!(format_user_friendly_error("weird failure"), "weird failure");
    assert_eq!(
        friendly_error_from_lowercase("X", "codec error"),
        "The audio file format is not supported. Please try a different file."
    );
    assert!(contains_str("abc", ""));
    assert!(contains_str("abc", "bc"));
    assert!(!contains_str("abc", "cd"));
}

#[test]
fn input_path_checks() {
    match validate_input_path(false, false, "a.wav") {
        Err(ArgumentError::NotFound { what }) => assert_eq!(what, "input file 'a.wav'"),
        _ => panic!("expected not found"),
    }
    match validate_input_path(true, false, "dir") {
        Err(ArgumentError::InvalidArgument { name, value, reason }) => {
            assert_eq!(name, "--input");
            assert_eq!(value, "dir");
            assert_eq!(reason, "expected a file path");
        }
        _ => panic!("expected invalid argument"),
    }
    assert!(validate_input_path(true, true, "a.wav").is_ok());
}

#[test]
fn transcript_lines_joined() {
    let first = vec![Some("  hello ".to_string()), None, Some("   ".to_string()), Some("world".to_string())];
    assert_eq!(extract_transcript(&first), "hello\nworld");
    assert_eq!(extract_transcript(&Vec::new()), "");
}

use hyprnote::batch::{batch_events, BatchEvent, BatchRunMode};

#[test]
fn batch_job_events() {
    let ok = batch_events::<u8, &str>("s1".to_string(), Ok(("s1".to_string(), BatchRunMode::Direct, 5)));
    assert_eq!(ok.len(), 3);
    assert!(matches!(&ok[0], BatchEvent::BatchStarted { session_id } if session_id == "s1"));
    assert!(matches!(&ok[1], BatchEvent::BatchResponse { response: 5, mode: BatchRunMode::Direct, .. }));
    assert!(matches!(&ok[2], BatchEvent::BatchCompleted { session_id } if session_id == "s1"));
    let failed = batch_events::<u8, &str>("s2".to_string(), Err(("Unknown", "boom".to_string())));
    assert_eq!(failed.len(), 2);
    assert!(matches!(&failed[1], BatchEvent::BatchFailed { session_id, code: "Unknown", error } if session_id == "s2" && error == "boom"));
}

use hyprnote::batch::{batch_job_outcome, collect_job_events, job_failure_text, JobEvent};
use hyprnote::batch::{batch_failure_code, batch_run_events, BatchFailureCode, BatchJobError};
use hyprnote::batch::{batch_start, provider_request_failure, BatchFailure, MetadataOutcome};

#[test]
fn batch_start_decisions() {
    match batch_start(MetadataOutcome::ReadFailed("No such file".to_string()), BatchProvider::Deepgram) {
        Err(BatchFailure::AudioMetadataReadFailed { message }) => assert_eq!(
            message,
            "Audio file not found. The recording may have been moved or deleted."
        ),
        _ => panic!("expected a metadata failure"),
    }
    assert!(matches!(
        batch_start(MetadataOutcome::JoinFailed, BatchProvider::Am),
        Err(BatchFailure::AudioMetadataJoinFailed)
    ));
    match batch_start(MetadataOutcome::Read, BatchProvider::DashScope) {
        Err(BatchFailure::ProviderRequestFailed { message }) => {
            assert_eq!(message, "DashScope does not support batch transcription")
        }
        _ => panic!("expected a refusal"),
    }
    assert!(matches!(batch_start(MetadataOutcome::Read, BatchProvider::Cactus), Ok(BatchRoute::Streamed)));
    assert!(matches!(batch_start(MetadataOutcome::Read, BatchProvider::Mistral), Ok(BatchRoute::Direct)));
    match provider_request_failure("403 Forbidden") {
        BatchFailure::ProviderRequestFailed { message } => assert_eq!(
            message,
            "Access denied. Your API key may not have permission for this operation."
        ),
        _ => panic!("expected a request failure"),
    }
}

#[test]
fn waiting_on_a_job_keeps_the_last_response_and_failure() {
    let events: Vec<JobEvent<u32, &str, u8>> = vec![
        JobEvent::Started,
        JobEvent::Streamed("a"),
        JobEvent::Response(1),
        JobEvent::Failed(3, "first".to_string()),
        JobEvent::Streamed("b"),
        JobEvent::Response(2),
        JobEvent::Failed(4, "second".to_string()),
        JobEvent::Completed,
    ];
    let c = collect_job_events(events);
    assert_eq!(c.response, Some(2));
    assert_eq!(c.streamed, vec!["a", "b"]);
    assert_eq!(c.failure, Some((4, "second".to_string())));

    assert_eq!(job_failure_text("Timeout", "took too long"), "Timeout: took too long");

    let failed = batch_job_outcome::<u32>(Err("join".to_string()), Some("Timeout: x".to_string()), Some(1), None);
    match failed {
        Err(f) => {
            assert_eq!(f.operation, "batch transcription");
            assert_eq!(f.reason, "Timeout: x");
        }
        Ok(_) => panic!("expected a failure"),
    }
    match batch_job_outcome::<u32>(Err("join".to_string()), None, None, None) {
        Err(f) => assert_eq!(f.reason, "join"),
        Ok(_) => panic!("expected a failure"),
    }
    assert!(matches!(batch_job_outcome(Ok(()), None, Some(5u32), Some(6)), Ok(5)));
    assert!(matches!(batch_job_outcome(Ok(()), None, None, Some(6u32)), Ok(6)));
    match batch_job_outcome::<u32>(Ok(()), None, None, None) {
        Err(f) => assert_eq!(f.reason, "completed without a final response"),
        Ok(_) => panic!("expected a failure"),
    }
}

#[test]
fn failed_jobs_report_their_own_code_or_unknown() {
    assert_eq!(
        batch_failure_code(&BatchJobError::Failure(BatchFailure::AudioMetadataJoinFailed)),
        BatchFailureCode::AudioMetadataJoinFailed
    );
    assert_eq!(
        batch_failure_code(&BatchJobError::Failure(BatchFailure::ProviderRequestFailed { message: "x".to_string() })),
        BatchFailureCode::ProviderRequestFailed
    );
    assert_eq!(batch_failure_code(&BatchJobError::Other), BatchFailureCode::Unknown);
    let events = batch_run_events::<u8>(
        "s1".to_string(),
        Err((BatchJobError::Failure(BatchFailure::AudioMetadataReadFailed { message: "m".to_string() }), "boom".to_string())),
    );
    assert_eq!(events.len(), 2);
    match &events[1] {
        BatchEvent::BatchFailed { session_id, code, error } => {
            assert_eq!(session_id, "s1");
            assert_eq!(*code, BatchFailureCode::AudioMetadataReadFailed);
            assert_eq!(error, "boom");
        }
        _ => panic!("expected a failure"),
    }
    let events = batch_run_events("s1".to_string(), Ok(("s2".to_string(), BatchRunMode::Direct, 7u8)));
    assert_eq!(events.len(), 3);
    assert!(matches!(&events[2], BatchEvent::BatchCompleted { session_id } if session_id == "s2"));
}
