//! Building the completion conversation for a PDF document. Reading the
//! text out of the document bytes is done by the host side with the
//! `pdf_extract` crate, whose extractor can panic on some malformed
//! documents; a panic must never cross into this library, so the call and
//! its unwind guard stay with the host, which hands the extraction outcome
//! in as a plain value. Everything decided on that outcome is verified.

use crate::openai::CompletionError;
use crate::openai::CompletionMessage;
use vstd::prelude::*;

verus! {

/// The two-message conversation sent to the completion service for a
/// document: the document's text and then the caller's prompt, both in the
/// user role.
pub fn messages_for_document(text: String, prompt: String) -> (r: Vec<CompletionMessage>)
    ensures
        r@.len() == 2,
        r@[0].role@ == "user"@,
        r@[0].content == text,
        r@[1].role@ == "user"@,
        r@[1].content == prompt,
{
    let mut out: Vec<CompletionMessage> = Vec::new();
    out.push(CompletionMessage { role: "user".to_string(), content: text });
    out.push(CompletionMessage { role: "user".to_string(), content: prompt });
    out
}

/// Builds the completion conversation from the outcome of reading a
/// document's text: on success, the text and then `prompt`, both as user
/// messages; on failure, exactly the reported cause, unchanged.
pub fn conversation_for_document(
    extracted: Result<String, CompletionError>,
    prompt: String,
) -> (r: Result<Vec<CompletionMessage>, CompletionError>)
    ensures
        (r is Ok) <==> (extracted is Ok),
        extracted matches Ok(text) ==> (r matches Ok(msgs) && msgs@.len() == 2
            && msgs@[0].role@ == "user"@ && msgs@[0].content == text && msgs@[1].role@ == "user"@
            && msgs@[1].content == prompt),
        extracted matches Err(e) ==> (r matches Err(e2) && e2 == e),
{
    match extracted {
        Ok(text) => Ok(messages_for_document(text, prompt)),
        Err(e) => Err(e),
    }
}

} // verus!
