//! From the provider's answer to the body sent back to the editor.

use vstd::prelude::*;
use vstd::string::*;

verus! {

/// Why a provider call gave no completion.
#[derive(Clone, Copy, Debug, PartialEq, Eq, Structural)]
pub enum ProviderError {
    /// The call itself failed.
    CallFailed,
    /// The provider answered without any message.
    NoMessage,
    /// The first message of the answer has no text.
    NoContent,
}

/// What came back from the provider: a failure, or the text of each
/// message of the answer, in the provider's order, `None` where a message
/// has no text.
#[derive(Clone, Debug, PartialEq, Eq)]
pub enum ProviderOutcome {
    Failed,
    Replied(Vec<Option<String>>),
}

/// What the editor receives.
#[derive(Clone, Debug, PartialEq, Eq)]
pub struct CompletionResponse {
    pub completion: String,
}

/// Whether a character has Unicode's White_Space property, which is what
/// `char::is_whitespace` tells and what `str::trim` goes by.
pub uninterp spec fn white_space(c: char) -> bool;

/// The text that the JSON serializer writes for a string: the string in
/// double quotes, with the characters escaped that JSON wants escaped.
pub uninterp spec fn json_string_text(text: Seq<char>) -> Seq<char>;

/// A text without the white space it starts with.
pub open spec fn without_leading_space(s: Seq<char>) -> Seq<char>
    decreases s.len(),
{
    if s.len() > 0 && white_space(s[0]) {
        without_leading_space(s.subrange(1, s.len() as int))
    } else {
        s
    }
}

/// A text without the white space it ends with.
pub open spec fn without_trailing_space(s: Seq<char>) -> Seq<char>
    decreases s.len(),
{
    if s.len() > 0 && white_space(s[s.len() - 1]) {
        without_trailing_space(s.subrange(0, s.len() - 1))
    } else {
        s
    }
}

/// A text without the white space at either end.
pub open spec fn trimmed(s: Seq<char>) -> Seq<char> {
    without_trailing_space(without_leading_space(s))
}

/// What is cut from the start of a text is white space, what is kept is
/// the rest of the text, and the rest does not start with white space.
pub proof fn lemma_without_leading_space(s: Seq<char>)
    ensures
        ({
            let r = without_leading_space(s);
            let cut = s.len() - r.len();
            &&& 0 <= cut <= s.len()
            &&& r == s.subrange(cut, s.len() as int)
            &&& forall|k: int| 0 <= k < cut ==> white_space(#[trigger] s[k])
            &&& r.len() > 0 ==> !white_space(r[0])
        }),
    decreases s.len(),
{
    if s.len() > 0 && white_space(s[0]) {
        let tail = s.subrange(1, s.len() as int);
        lemma_without_leading_space(tail);
        let r = without_leading_space(tail);
        let cut = tail.len() - r.len();
        assert(r =~= s.subrange(cut + 1, s.len() as int));
        assert forall|k: int| 0 <= k < cut + 1 implies white_space(#[trigger] s[k]) by {
            if k > 0 {
                assert(s[k] == tail[k - 1]);
            }
        }
    } else {
        assert(s =~= s.subrange(0, s.len() as int));
    }
}

/// What is cut from the end of a text is white space, what is kept is the
/// text before it, and that does not end with white space.
pub proof fn lemma_without_trailing_space(s: Seq<char>)
    ensures
        ({
            let r = without_trailing_space(s);
            &&& r.len() <= s.len()
            &&& r == s.subrange(0, r.len() as int)
            &&& forall|k: int| r.len() <= k < s.len() ==> white_space(#[trigger] s[k])
            &&& r.len() > 0 ==> !white_space(r[r.len() - 1])
        }),
    decreases s.len(),
{
    if s.len() > 0 && white_space(s[s.len() - 1]) {
        let head = s.subrange(0, s.len() - 1);
        lemma_without_trailing_space(head);
        let r = without_trailing_space(head);
        assert(r =~= s.subrange(0, r.len() as int));
        assert forall|k: int| r.len() <= k < s.len() implies white_space(#[trigger] s[k]) by {
            if k < s.len() - 1 {
                assert(s[k] == head[k]);
            }
        }
    } else {
        assert(s =~= s.subrange(0, s.len() as int));
    }
}

/// A trimmed text is one stretch of the text, with nothing but white space
/// before it and after it, and it neither starts nor ends with white space.
/// So it is the text itself where the text has no white space at its ends.
pub proof fn lemma_trimmed(s: Seq<char>)
    ensures
        ({
            let r = trimmed(s);
            let from = s.len() - without_leading_space(s).len();
            let to = from + r.len();
            &&& 0 <= from <= to <= s.len()
            &&& r == s.subrange(from, to)
            &&& forall|k: int| 0 <= k < from ==> white_space(#[trigger] s[k])
            &&& forall|k: int| to <= k < s.len() ==> white_space(#[trigger] s[k])
            &&& r.len() > 0 ==> !white_space(r[0]) && !white_space(r[r.len() - 1])
            &&& s.len() > 0 && !white_space(s[0]) && !white_space(s[s.len() - 1]) ==> r == s
        }),
{
    let lead = without_leading_space(s);
    let r = trimmed(s);
    let from = s.len() - lead.len();
    let to = from + r.len();
    lemma_without_leading_space(s);
    lemma_without_trailing_space(lead);
    assert(r =~= s.subrange(from, to));
    assert forall|k: int| to <= k < s.len() implies white_space(#[trigger] s[k]) by {
        assert(s[k] == lead[k - from]);
    }
    if r.len() > 0 {
        assert(r[0] == lead[0]);
    }
    if s.len() > 0 && !white_space(s[0]) && !white_space(s[s.len() - 1]) {
        assert(lead == s);
        assert(r == s);
    }
}

/// The text of the first message of an answer, or the reason why there is
/// none.
pub open spec fn first_content(outcome: ProviderOutcome) -> Result<Seq<char>, ProviderError> {
    match outcome {
        ProviderOutcome::Failed => Err(ProviderError::CallFailed),
        ProviderOutcome::Replied(messages) => if messages@.len() == 0 {
            Err(ProviderError::NoMessage)
        } else {
            match messages@[0] {
                None => Err(ProviderError::NoContent),
                Some(text) => Ok(text@),
            }
        },
    }
}

/// The completion that an answer leads to: the first message's text,
/// trimmed.
pub open spec fn completion_of(outcome: ProviderOutcome) -> Result<Seq<char>, ProviderError> {
    match first_content(outcome) {
        Ok(text) => Ok(trimmed(text)),
        Err(e) => Err(e),
    }
}

/// The JSON object with the one member `completion`, around a value that
/// is already JSON text.
pub open spec fn completion_json_frame(value: Seq<char>) -> Seq<char> {
    "{\"completion\":"@ + value + "}"@
}

/// Calls `str::trim`. Trusted: the result is the argument without the
/// characters at its start and at its end that have the White_Space
/// property. That it neither starts nor ends with such a character says
/// nothing new: `lemma_trimmed` proves it of every trimmed text.
#[verifier::external_body]
fn trim_text<'a>(text: &'a str) -> (out: &'a str)
    ensures
        out@ == trimmed(text@),
        out@.len() > 0 ==> !white_space(out@[0]) && !white_space(out@[out@.len() - 1]),
{
    text.trim()
}

/// Serializes a string with `serde_json`, through the `Display` impl of
/// `serde_json::Value`, in its compact form. Trusted: the result depends on
/// the string alone.
#[verifier::external_body]
fn json_string(text: &str) -> (out: String)
    ensures
        out@ == json_string_text(text@),
{
    serde_json::Value::String(text.to_owned()).to_string()
}

/// Picks the text of the first message out of an answer.
pub fn first_message_text(outcome: &ProviderOutcome) -> (r: Result<&str, ProviderError>)
    ensures
        match (r, first_content(*outcome)) {
            (Ok(text), Ok(expected)) => text@ == expected,
            (Err(e), Err(f)) => e == f,
            _ => false,
        },
{
    match outcome {
        ProviderOutcome::Failed => Err(ProviderError::CallFailed),
        ProviderOutcome::Replied(messages) => {
            if messages.len() == 0 {
                Err(ProviderError::NoMessage)
            } else {
                match &messages[0] {
                    None => Err(ProviderError::NoContent),
                    Some(text) => Ok(text.as_str()),
                }
            }
        },
    }
}

impl CompletionResponse {
    /// The response for a text that the provider sent: the text, trimmed.
    pub fn from_reply(text: &str) -> (response: CompletionResponse)
        ensures
            response.completion@ == trimmed(text@),
    {
        let kept = trim_text(text);
        CompletionResponse { completion: String::from_str(kept) }
    }

    /// The body of the HTTP response: a JSON object whose one member
    /// `completion` holds the text.
    pub fn to_json(&self) -> (body: String)
        ensures
            body@ == completion_json_frame(json_string_text(self.completion@)),
    {
        let value = json_string(self.completion.as_str());
        frame_completion_json(value.as_str())
    }
}

/// Puts JSON text into the object with the one member `completion`.
pub fn frame_completion_json(value: &str) -> (body: String)
    ensures
        body@ == completion_json_frame(value@),
{
    let mut body = String::from_str("{\"completion\":");
    body.append(value);
    body.append("}");
    body
}

/// Turns the provider's answer into the response for the editor: the first
/// message's text, trimmed. Fails where the call failed, where the answer
/// has no message, and where its first message has no text.
pub fn completion_from_outcome(outcome: &ProviderOutcome) -> (r: Result<
    CompletionResponse,
    ProviderError,
>)
    ensures
        match (r, completion_of(*outcome)) {
            (Ok(response), Ok(expected)) => response.completion@ == expected,
            (Err(e), Err(f)) => e == f,
            _ => false,
        },
{
    match first_message_text(outcome) {
        Ok(text) => Ok(CompletionResponse::from_reply(text)),
        Err(e) => Err(e),
    }
}

} // verus!
