use wmgr::error::TsrcError;
use wmgr::result::{OptionExt, ResultExt, TsrcResult, TsrcResultExt};

#[test]
fn test_git_error_creation() {
    let error = TsrcError::git_error("test message");
    assert!(matches!(error, TsrcError::GitError { .. }));
    assert_eq!(error.to_string(), "Git operation failed: test message");
}

#[test]
fn test_filesystem_error_with_path() {
    let path = "/test/path".to_string();
    let error = TsrcError::filesystem_error("test message", Some(path.clone()));
    if let TsrcError::FileSystemError { path: Some(p), .. } = error {
        assert_eq!(p, path);
    } else {
        panic!("Expected FileSystemError with path");
    }
}

#[test]
fn test_validation_error() {
    let error = TsrcError::validation_error("field", "message", Some("value".to_string()));
    assert_eq!(error.to_string(), "Validation error: field - message");
}

#[test]
fn test_timeout_error() {
    let error = TsrcError::timeout(30);
    assert_eq!(error.to_string(), "Operation timed out after 30 seconds");
}

#[test]
fn test_error_conversion_from_io_error() {
    let io_error = std::io::Error::new(std::io::ErrorKind::NotFound, "file not found");
    let tsrc_error: TsrcError = io_error.into();
    assert!(matches!(tsrc_error, TsrcError::FileSystemError { .. }));
}

#[test]
fn conversions_keep_the_source_message() {
    let io_error = std::io::Error::new(std::io::ErrorKind::NotFound, "file not found");
    match TsrcError::from(io_error) {
        TsrcError::FileSystemError { message, path, source } => {
            assert_eq!(message, "File system operation failed");
            assert!(path.is_none());
            assert_eq!(source, Some("file not found".to_string()));
        }
        other => panic!("unexpected {:?}", other),
    }
    let e: TsrcError = anyhow::Error::msg("boom").into();
    assert_eq!(e.to_string(), "Internal error: Anyhow error: boom");
    let json_err = serde_json::from_str::<u32>("x").unwrap_err();
    assert!(matches!(TsrcError::from(json_err), TsrcError::SerializationError { .. }));
}

#[test]
fn error_texts() {
    assert_eq!(TsrcError::Cancelled.to_string(), "Operation cancelled");
    assert_eq!(TsrcError::command_error("m", "ls", Some(2)).to_string(), "Command execution failed: m");
    assert_eq!(TsrcError::network_error("down", None).to_string(), "Network operation failed: down");
    assert_eq!(TsrcError::manifest_error("bad", None).to_string(), "Manifest validation error: bad");
}

#[test]
fn test_option_ext_ok_or_tsrc() {
    let some_value = Some("test".to_string());
    let result = some_value.ok_or_tsrc(TsrcError::internal_error("error"));
    assert!(result.is_ok());
    assert_eq!(result.unwrap(), "test");

    let none_value: Option<String> = None;
    let result = none_value.ok_or_tsrc(TsrcError::internal_error("error"));
    assert!(result.is_err());
}

#[test]
fn test_option_ext_ok_or_internal_error() {
    let none_value: Option<String> = None;
    let result = none_value.ok_or_internal_error("test error");
    assert!(result.is_err());

    if let Err(TsrcError::InternalError { message, .. }) = result {
        assert_eq!(message, "test error");
    } else {
        panic!("Expected InternalError");
    }
}

#[test]
fn test_option_ext_ok_or_validation_error() {
    let none_value: Option<String> = None;
    let result = none_value.ok_or_validation_error("field", "required");
    assert!(result.is_err());

    if let Err(TsrcError::ValidationError { field, message, .. }) = result {
        assert_eq!(field, "field");
        assert_eq!(message, "required");
    } else {
        panic!("Expected ValidationError");
    }
}

#[test]
fn test_result_ext_map_tsrc_err() {
    let io_error = std::io::Error::new(std::io::ErrorKind::NotFound, "file not found");
    let result: Result<String, std::io::Error> = Err(io_error);

    let tsrc_result = result.map_tsrc_err(|e| TsrcError::filesystem_error_with_source("test", None, e.to_string()));

    assert!(tsrc_result.is_err());
}

#[test]
fn test_result_ext_with_filesystem_error() {
    let io_error = std::io::Error::new(std::io::ErrorKind::NotFound, "file not found");
    let result: Result<String, std::io::Error> = Err(io_error);
    let path = Some("/test/path".to_string());

    let tsrc_result = result.with_filesystem_error("test operation", path);
    assert!(tsrc_result.is_err());
}

#[test]
fn result_ext_git_and_internal_errors() {
    let err: Result<u8, std::io::Error> = Err(std::io::Error::new(std::io::ErrorKind::Other, "x"));
    assert!(matches!(err.with_git_error("clone"), Err(TsrcError::GitError { .. })));
    let err: Result<u8, std::io::Error> = Err(std::io::Error::new(std::io::ErrorKind::Other, "x"));
    assert!(matches!(err.with_internal_error("op"), Err(TsrcError::InternalError { source: Some(_), .. })));
    let ok: Result<u8, std::io::Error> = Ok(3);
    assert_eq!(ok.with_internal_error("op").unwrap(), 3);
}

#[test]
fn test_tsrc_result_ext_with_context() {
    let result: TsrcResult<String> = Err(TsrcError::internal_error("original"));
    let with_context = result.with_context("additional context");

    assert!(with_context.is_err());
    if let Err(TsrcError::InternalError { message, source }) = with_context {
        assert_eq!(message, "additional context");
        assert_eq!(source, Some("Internal error: original".to_string()));
    }
}

#[test]
fn test_tsrc_result_ext_to_option_logged() {
    let ok_result: TsrcResult<String> = Ok("test".to_string());
    assert_eq!(ok_result.to_option_logged(), Some("test".to_string()));

    let err_result: TsrcResult<String> = Err(TsrcError::internal_error("error"));
    assert_eq!(err_result.to_option_logged(), None);
}

#[test]
fn test_tsrc_result_ext_unwrap_or_default_logged() {
    let ok_result: TsrcResult<String> = Ok("test".to_string());
    assert_eq!(ok_result.unwrap_or_default_logged(), "test");

    let err_result: TsrcResult<String> = Err(TsrcError::internal_error("error"));
    assert_eq!(err_result.unwrap_or_default_logged(), String::default());
}
