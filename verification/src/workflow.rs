//! The file-system workflow command.
//!
//! No workflow engine stands behind it: the command acknowledges what it was
//! asked to do, naming the operation and its arguments, and does nothing
//! else.

use vstd::prelude::*;
use vstd::string::*;
use crate::text::{lemma_middle_occurs, lemma_tail_occurs, occurs_in};

verus! {

/// `serde_json::Value`: a JSON document of any shape. The library carries it
/// through and never looks inside.
#[verifier::external_type_specification]
#[verifier::external_body]
pub struct ExValue(serde_json::Value);

/// What `serde_json`'s `Debug` impl for `Value` writes for `args`, in the
/// one-line form (`{:?}`). It reads the document and nothing else.
pub uninterp spec fn debug_text(args: serde_json::Value) -> Seq<char>;

/// Calls `serde_json`'s `Debug` impl for `Value`, through `format!` with
/// `{:?}`. Trusted: the text returned is the one that impl writes, which
/// [`debug_text`] names.
#[verifier::external_body]
fn render_debug(args: &serde_json::Value) -> (rendered: String)
    ensures
        rendered@ == debug_text(*args),
{
    format!("{:?}", args)
}

/// The acknowledgement for an operation, given its arguments as text.
pub open spec fn receipt_text(operation: Seq<char>, args_text: Seq<char>) -> Seq<char> {
    "Successfully received operation: "@ + operation + " with args: "@ + args_text
}

/// Writes the acknowledgement for `operation` with arguments that are already
/// rendered as text. Both stand in it unchanged.
pub fn workflow_receipt(operation: &str, args_text: &str) -> (receipt: String)
    ensures
        receipt@ == receipt_text(operation@, args_text@),
        occurs_in(receipt@, operation@),
        occurs_in(receipt@, args_text@),
{
    let mut receipt = String::from_str("Successfully received operation: ");
    receipt.append(operation);
    receipt.append(" with args: ");
    receipt.append(args_text);
    proof {
        lemma_middle_occurs(
            "Successfully received operation: "@,
            operation@,
            " with args: "@ + args_text@,
        );
        assert(receipt@ =~= "Successfully received operation: "@ + operation@ + (" with args: "@
            + args_text@));
        lemma_tail_occurs(
            "Successfully received operation: "@ + operation@ + " with args: "@,
            args_text@,
        );
    }
    receipt
}

/// Acknowledges a request to run `operation` with the arguments `args`.
///
/// Always succeeds. The reply names the operation as given and the arguments
/// in their debug rendering; no schema is applied to either.
pub fn execute_file_system_workflow(operation: String, args: serde_json::Value) -> (reply: Result<
    String,
    String,
>)
    ensures
        reply is Ok,
        reply->Ok_0@ == receipt_text(operation@, debug_text(args)),
        occurs_in(reply->Ok_0@, operation@),
        occurs_in(reply->Ok_0@, debug_text(args)),
{
    let rendered = render_debug(&args);
    Ok(workflow_receipt(operation.as_str(), rendered.as_str()))
}

} // verus!
