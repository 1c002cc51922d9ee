use virus_scanner::{ErrorCategory, ErrorHandler};

#[test]
fn error_handler_records_and_clears() {
    let mut handler = ErrorHandler::new();
    assert!(handler.last_error.is_none());
    handler.set_error("disk full".to_string(), ErrorCategory::FileSystemError);
    assert_eq!(handler.last_error.as_deref(), Some("disk full"));
    assert!(matches!(handler.error_category, Some(ErrorCategory::FileSystemError)));
    handler.clear_error();
    assert!(handler.last_error.is_none());
    assert!(handler.error_category.is_none());
}
