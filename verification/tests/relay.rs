use cargo_pgo::build::{relay_output, DiagnosticRecord};

#[test]
fn text_line_gets_a_line_break() {
    assert_eq!(
        relay_output(DiagnosticRecord::TextLine("   Compiling foo v0.1.0".to_string())),
        Some("   Compiling foo v0.1.0\n".to_string())
    );
    assert_eq!(
        relay_output(DiagnosticRecord::TextLine(String::new())),
        Some("\n".to_string())
    );
}

#[test]
fn rendered_message_is_written_verbatim() {
    let record = DiagnosticRecord::CompilerMessage {
        rendered: Some("\x1b[1mwarning\x1b[0m: unused variable\n --> src/main.rs:1:1\n".to_string()),
        message: "unused variable".to_string(),
    };
    assert_eq!(
        relay_output(record),
        Some("\x1b[1mwarning\x1b[0m: unused variable\n --> src/main.rs:1:1\n".to_string())
    );
}

#[test]
fn unrendered_message_falls_back_to_its_text() {
    let record = DiagnosticRecord::CompilerMessage {
        rendered: None,
        message: "unused variable".to_string(),
    };
    assert_eq!(relay_output(record), Some("unused variable".to_string()));
}

#[test]
fn empty_rendering_is_still_the_rendering() {
    let record = DiagnosticRecord::CompilerMessage {
        rendered: Some(String::new()),
        message: "unused variable".to_string(),
    };
    assert_eq!(relay_output(record), Some(String::new()));
}

#[test]
fn other_records_write_nothing() {
    assert_eq!(relay_output(DiagnosticRecord::Other), None);
}
