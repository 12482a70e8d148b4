//! What is shown to the user of the records that `cargo` writes.

use vstd::prelude::*;

verus! {

/// One record of the output of `cargo`, as far as it matters here.
#[derive(Debug)]
pub enum DiagnosticRecord {
    /// A line of plain text.
    TextLine(String),
    /// A message of the compiler: its text, and the text as rendered for a
    /// terminal where `cargo` supplied that.
    CompilerMessage { rendered: Option<String>, message: String },
    /// Any other record.
    Other,
}

/// The text that is written for `record`. A line of text is written with a
/// line break behind it. A compiler message is written as rendered, or as
/// its plain text where it was not rendered, with nothing added. For any
/// other record nothing is written.
pub open spec fn relayed_text(record: DiagnosticRecord) -> Option<Seq<char>> {
    match record {
        DiagnosticRecord::TextLine(line) => Some(line@ + seq!['\n']),
        DiagnosticRecord::CompilerMessage { rendered: Some(text), message } => Some(text@),
        DiagnosticRecord::CompilerMessage { rendered: None, message } => Some(message@),
        DiagnosticRecord::Other => None,
    }
}

/// Returns what is to be written to the user's output for `record`, or
/// `None` where nothing is.
pub fn relay_output(record: DiagnosticRecord) -> (written: Option<String>)
    ensures
        match written {
            Some(text) => relayed_text(record) == Some(text@),
            None => relayed_text(record) is None,
        },
{
    match record {
        DiagnosticRecord::TextLine(line) => {
            let mut text = line;
            proof {
                reveal_strlit("\n");
            }
            text.append("\n");
            Some(text)
        },
        DiagnosticRecord::CompilerMessage { rendered, message } => Some(rendered.unwrap_or(message)),
        DiagnosticRecord::Other => None,
    }
}

} // verus!
