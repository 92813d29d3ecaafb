//! The prompt templates, as text over `Seq<char>`, and the functions that
//! render them.

use vstd::prelude::*;
use vstd::string::*;
use crate::request::{CompletionModeMetadata, HintRequestBody};

verus! {

/// The user prompt of a completion request: the language, the text before
/// the caret, the caret marker, the text after it, and the language again.
pub open spec fn user_prompt_text(
    language: Seq<char>,
    before: Seq<char>,
    after: Seq<char>,
) -> Seq<char> {
    "Please complete the following "@ + language + " code:\n\n"@ + before + "<cursor>\n"@ + after
        + "\n\nUse modern "@ + language
        + " practices and hooks where appropriate. Please provide only the completed part of the code without additional comments or explanations."@
}

/// The system prompt of a completion request.
pub open spec fn completion_system_text(language: Seq<char>) -> Seq<char> {
    "You are an expert code completion assistant.\n\n**Context**\nLanguage: "@ + language + "."@
}

/// The question of a tutoring request between its tags.
pub open spec fn tagged_question(question: Seq<char>) -> Seq<char> {
    "<coding_question>\n"@ + question + "\n</coding_question>"@
}

/// The code of a tutoring request between its tags.
pub open spec fn tagged_code(code: Seq<char>) -> Seq<char> {
    "<user_code>\n"@ + code + "\n</user_code>"@
}

/// The user prompt of a tutoring request.
pub open spec fn hint_prompt_text(question: Seq<char>, code: Seq<char>) -> Seq<char> {
    "Here's the coding question I am working on:\n"@ + tagged_question(question)
        + "\n\nNow, here's the code I have written so far:\n"@ + tagged_code(code)
}

/// Renders the user prompt of a completion request. The three text fields
/// are passed through unchanged, whatever they hold and however long they are.
pub fn generate_user_prompt(metadata: CompletionModeMetadata) -> (prompt: String)
    ensures
        prompt@ == user_prompt_text(
            metadata.language@,
            metadata.text_before_cursor@,
            metadata.text_after_cursor@,
        ),
{
    let mut prompt = String::from_str("Please complete the following ");
    prompt.append(metadata.language.as_str());
    prompt.append(" code:\n\n");
    prompt.append(metadata.text_before_cursor.as_str());
    prompt.append("<cursor>\n");
    prompt.append(metadata.text_after_cursor.as_str());
    prompt.append("\n\nUse modern ");
    prompt.append(metadata.language.as_str());
    prompt.append(
        " practices and hooks where appropriate. Please provide only the completed part of the code without additional comments or explanations.",
    );
    prompt
}

/// Renders the user prompt of a tutoring request. The language is not part
/// of it.
pub fn generate_code_hint_user_prompt(metadata: HintRequestBody) -> (prompt: String)
    ensures
        prompt@ == hint_prompt_text(metadata.question@, metadata.code@),
{
    let mut prompt = String::from_str("Here's the coding question I am working on:\n");
    prompt.append("<coding_question>\n");
    prompt.append(metadata.question.as_str());
    prompt.append("\n</coding_question>");
    prompt.append("\n\nNow, here's the code I have written so far:\n");
    prompt.append("<user_code>\n");
    prompt.append(metadata.code.as_str());
    prompt.append("\n</user_code>");
    proof {
        assert(prompt@ =~= hint_prompt_text(metadata.question@, metadata.code@));
    }
    prompt
}

/// Renders the system prompt of a completion request.
pub fn generate_system_prompt(language: &str) -> (prompt: String)
    ensures
        prompt@ == completion_system_text(language@),
{
    let mut prompt = String::from_str(
        "You are an expert code completion assistant.\n\n**Context**\nLanguage: ",
    );
    prompt.append(language);
    prompt.append(".");
    prompt
}

/// Where the parts of a completion prompt stand.
///
/// For every language and every pair of texts, the prompt opens with the
/// fixed greeting, then holds the language, the text before the caret, the
/// marker `<cursor>`, the text after the caret and the language once more,
/// in this order. The text before the caret ends where the marker begins,
/// and the text after the caret begins one line break after the marker.
pub proof fn lemma_user_prompt_layout(language: Seq<char>, before: Seq<char>, after: Seq<char>)
    ensures
        ({
            let p = user_prompt_text(language, before, after);
            let a = "Please complete the following "@.len() as int;
            let b = a + language.len() + " code:\n\n"@.len();
            let c = b + before.len();
            let d = c + "<cursor>"@.len() + 1;
            let e = d + after.len() + "\n\nUse modern "@.len();
            &&& e + language.len() <= p.len()
            &&& p.subrange(0, a) == "Please complete the following "@
            &&& p.subrange(a, a + language.len()) == language
            &&& p.subrange(a + language.len(), b) == " code:\n\n"@
            &&& p.subrange(b, c) == before
            &&& p.subrange(c, c + "<cursor>"@.len()) == "<cursor>"@
            &&& p[d - 1] == '\n'
            &&& p.subrange(d, d + after.len()) == after
            &&& p.subrange(e, e + language.len()) == language
        }),
{
    reveal_strlit("<cursor>\n");
    reveal_strlit("<cursor>");
    let p = user_prompt_text(language, before, after);
    let a = "Please complete the following "@.len() as int;
    let b = a + language.len() + " code:\n\n"@.len();
    let c = b + before.len();
    let d = c + "<cursor>"@.len() + 1;
    let e = d + after.len() + "\n\nUse modern "@.len();
    assert(p.subrange(0, a) =~= "Please complete the following "@);
    assert(p.subrange(a, a + language.len()) =~= language);
    assert(p.subrange(a + language.len(), b) =~= " code:\n\n"@);
    assert(p.subrange(b, c) =~= before);
    assert(p.subrange(c, c + "<cursor>"@.len()) =~= "<cursor>"@);
    assert(p.subrange(d, d + after.len()) =~= after);
    assert(p.subrange(e, e + language.len()) =~= language);
}

/// Where the parts of a tutoring prompt stand.
///
/// For every question and every code, the prompt holds the question
/// between the tags `<coding_question>` and `</coding_question>`, then the
/// code between the tags `<user_code>` and `</user_code>`, each on lines of
/// its own, and ends with the closing tag of the code.
pub proof fn lemma_hint_prompt_layout(question: Seq<char>, code: Seq<char>)
    ensures
        ({
            let p = hint_prompt_text(question, code);
            let q = tagged_question(question);
            let c = tagged_code(code);
            let a = "Here's the coding question I am working on:\n"@.len() as int;
            let b = a + q.len() + "\n\nNow, here's the code I have written so far:\n"@.len();
            let open_q = "<coding_question>\n"@.len() as int;
            let open_c = "<user_code>\n"@.len() as int;
            &&& b + c.len() == p.len()
            &&& p.subrange(a, a + q.len()) == q
            &&& p.subrange(b, b + c.len()) == c
            &&& q.subrange(0, open_q) == "<coding_question>\n"@
            &&& q.subrange(open_q, open_q + question.len()) == question
            &&& q.subrange(open_q + question.len(), q.len() as int) == "\n</coding_question>"@
            &&& c.subrange(0, open_c) == "<user_code>\n"@
            &&& c.subrange(open_c, open_c + code.len()) == code
            &&& c.subrange(open_c + code.len(), c.len() as int) == "\n</user_code>"@
        }),
{
    let p = hint_prompt_text(question, code);
    let q = tagged_question(question);
    let c = tagged_code(code);
    let a = "Here's the coding question I am working on:\n"@.len() as int;
    let b = a + q.len() + "\n\nNow, here's the code I have written so far:\n"@.len();
    let open_q = "<coding_question>\n"@.len() as int;
    let open_c = "<user_code>\n"@.len() as int;
    assert(p.subrange(a, a + q.len()) =~= q);
    assert(p.subrange(b, b + c.len()) =~= c);
    assert(q.subrange(0, open_q) =~= "<coding_question>\n"@);
    assert(q.subrange(open_q, open_q + question.len()) =~= question);
    assert(q.subrange(open_q + question.len(), q.len() as int) =~= "\n</coding_question>"@);
    assert(c.subrange(0, open_c) =~= "<user_code>\n"@);
    assert(c.subrange(open_c, open_c + code.len()) =~= code);
    assert(c.subrange(open_c + code.len(), c.len() as int) =~= "\n</user_code>"@);
}

} // verus!
