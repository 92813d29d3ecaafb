//! The payloads an editor sends.

use vstd::prelude::*;

verus! {

/// Where the caret stands in the editor. Carried along, never rendered.
#[derive(Clone, Copy, Debug, PartialEq, Eq, Structural)]
pub struct CursorPosition {
    pub column: i32,
    pub line_number: i32,
}

/// The kind of completion the editor asks for. Carried along, never rendered.
#[derive(Clone, Copy, Debug, PartialEq, Eq, Structural)]
pub enum CompletionMode {
    Insert,
    Complete,
    Continue,
}

#[derive(Clone, Copy, Debug, PartialEq, Eq, Structural)]
pub struct EditorState {
    pub completion_mode: CompletionMode,
}

/// Everything the editor knows about the place where code is wanted.
#[derive(Clone, Debug, PartialEq, Eq)]
pub struct CompletionModeMetadata {
    pub cursor_position: CursorPosition,
    pub editor_state: EditorState,
    pub language: String,
    pub text_after_cursor: String,
    pub text_before_cursor: String,
}

/// The body of a completion request.
#[derive(Clone, Debug, PartialEq, Eq)]
pub struct RequestBody {
    pub completion_metadata: CompletionModeMetadata,
}

/// The body of a tutoring request: a question and the student's code.
#[derive(Clone, Debug, PartialEq, Eq)]
pub struct HintRequestBody {
    pub question: String,
    pub language: String,
    pub code: String,
}

} // verus!
