//! Per-invocation dispatch: resolve the tool name, validate the arguments,
//! encode the outbound request, and render the outcome as a tool result.
//!
//! Dispatch is split around the one outbound call.  [`plan_invocation`]
//! decides everything before it: an unknown tool or a non-conforming argument
//! object yields an error and no request at all; otherwise it yields exactly
//! one encoded request.  The caller performs that request and feeds what
//! happened to [`finish_invocation`].  Neither function keeps any state, so
//! no invocation can disturb another.
use vstd::prelude::*;
use crate::args::ArgValue;
use crate::cards;
use crate::errors::{CerebroError, error_message_chars};
use crate::packs;
use crate::sets;
use crate::text::{EncodedRequest, encodes, str_eq};

verus! {

/// The names under which the three tools are registered.
pub open spec fn known_tool(name: Seq<char>) -> bool {
    name == "get_cards"@ || name == "get_packs"@ || name == "get_sets"@
}

/// What planning an invocation of the cards tool must yield: the encoding of
/// the validated filter, or a schema-validation error — if and only if.
pub open spec fn plan_matches_cards(
    args: Seq<(String, ArgValue)>,
    r: Result<EncodedRequest, CerebroError>,
) -> bool {
    match cards::cards_fold(cards::cards_empty(), args) {
        Some(req) => r matches Ok(enc) && encodes(enc, "cards"@, cards::cards_pairs(req)),
        None => r matches Err(e) && e is SchemaValidationError,
    }
}

/// What planning an invocation of the packs tool must yield.
pub open spec fn plan_matches_packs(
    args: Seq<(String, ArgValue)>,
    r: Result<EncodedRequest, CerebroError>,
) -> bool {
    match packs::packs_fold(packs::packs_empty(), args) {
        Some(req) => r matches Ok(enc) && encodes(enc, "packs"@, packs::packs_pairs(req)),
        None => r matches Err(e) && e is SchemaValidationError,
    }
}

/// What planning an invocation of the sets tool must yield.
pub open spec fn plan_matches_sets(
    args: Seq<(String, ArgValue)>,
    r: Result<EncodedRequest, CerebroError>,
) -> bool {
    match sets::sets_fold(sets::sets_empty(), args) {
        Some(req) => r matches Ok(enc) && encodes(enc, "sets"@, sets::sets_pairs(req)),
        None => r matches Err(e) && e is SchemaValidationError,
    }
}

/// Decide one invocation up to the outbound call.  An unregistered tool name
/// or a non-conforming argument object yields an error, and then no request
/// is issued; otherwise the result is the one encoded request to perform.
pub fn plan_invocation(tool: &str, args: &Vec<(String, ArgValue)>) -> (r: Result<
    EncodedRequest,
    CerebroError,
>)
    ensures
        tool@ == "get_cards"@ ==> plan_matches_cards(args@, r),
        tool@ == "get_packs"@ ==> plan_matches_packs(args@, r),
        tool@ == "get_sets"@ ==> plan_matches_sets(args@, r),
        !known_tool(tool@) ==> (r matches Err(e) && e matches CerebroError::UnknownToolError(d)
            && d@ == "no tool is registered under the name '"@ + tool@ + "'"@),
{
    proof {
        reveal_strlit("get_cards");
        reveal_strlit("get_packs");
        reveal_strlit("get_sets");
        assert("get_cards"@ != "get_packs"@) by {
            assert("get_cards"@[4] == 'c' && "get_packs"@[4] == 'p');
        }
        assert("get_cards"@ != "get_sets"@) by {
            assert("get_cards"@.len() == 9 && "get_sets"@.len() == 8);
        }
        assert("get_packs"@ != "get_sets"@) by {
            assert("get_packs"@.len() == 9 && "get_sets"@.len() == 8);
        }
    }
    if str_eq(tool, "get_cards") {
        match cards::Request::from_args(args) {
            Ok(req) => Ok(req.encode()),
            Err(e) => Err(e),
        }
    } else if str_eq(tool, "get_packs") {
        match packs::Request::from_args(args) {
            Ok(req) => Ok(req.encode()),
            Err(e) => Err(e),
        }
    } else if str_eq(tool, "get_sets") {
        match sets::Request::from_args(args) {
            Ok(req) => Ok(req.encode()),
            Err(e) => Err(e),
        }
    } else {
        let mut detail = "no tool is registered under the name '".to_owned();
        detail.append(tool);
        detail.append("'");
        Err(CerebroError::UnknownToolError(detail))
    }
}

/// What the upstream fetch produced for one invocation.
#[derive(Debug, Clone)]
pub enum FetchOutcome {
    /// The full response body, read as text — whatever the status code was.
    Body(String),
    /// Transport failure before any response was obtained, with its detail.
    TransportFailure(String),
    /// A response was obtained, but reading its body failed; the detail.
    BodyFailure(String),
}

/// The result rendered back onto the stream for one invocation.
#[derive(Debug, Clone)]
pub enum ToolResult {
    /// Success: one opaque text block, the verbatim upstream body.
    Text(String),
    /// Failure: one error envelope carrying a human-readable message.
    Failure(String),
}

/// Render the outcome of the one outbound call as the tool result: the body
/// passes through verbatim; each failure becomes exactly one error envelope.
pub fn finish_invocation(outcome: FetchOutcome) -> (r: ToolResult)
    ensures
        match outcome {
            FetchOutcome::Body(b) => r == ToolResult::Text(b),
            FetchOutcome::TransportFailure(d) => r matches ToolResult::Failure(m) && m@
                == error_message_chars(CerebroError::HttpRequestError(d)),
            FetchOutcome::BodyFailure(d) => r matches ToolResult::Failure(m) && m@
                == error_message_chars(CerebroError::ResponseBodyError(d)),
        },
{
    match outcome {
        FetchOutcome::Body(b) => ToolResult::Text(b),
        FetchOutcome::TransportFailure(d) => ToolResult::Failure(
            CerebroError::HttpRequestError(d).message(),
        ),
        FetchOutcome::BodyFailure(d) => ToolResult::Failure(
            CerebroError::ResponseBodyError(d).message(),
        ),
    }
}

/// Render a domain error as the one failure result its invocation returns.
pub fn failure_result(e: &CerebroError) -> (r: ToolResult)
    ensures
        r matches ToolResult::Failure(m) && m@ == error_message_chars(*e),
{
    ToolResult::Failure(e.message())
}

} // verus!
