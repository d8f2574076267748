//! What the text of an error says about the connection to the node.

use vstd::prelude::*;

use crate::text::contains;

verus! {

/// The error says that the connection is gone for good.
pub open spec fn asks_for_restart(error: Seq<char>) -> bool {
    crate::text::occurs_in("RestartNeeded"@, error)
}

/// The error says that the connection is in trouble but may recover.
pub open spec fn blames_connection(error: Seq<char>) -> bool {
    crate::text::occurs_in("ClientError"@, error) || crate::text::occurs_in(
        "RequestTimeout"@,
        error,
    )
}

/// Whether an error's text says that the connection is gone for good.
pub fn needs_restart(error: &str) -> (yes: bool)
    ensures
        yes == asks_for_restart(error@),
{
    contains(error, "RestartNeeded")
}

/// Whether an error's text says that the connection is in trouble but may recover.
pub fn is_connection_issue(error: &str) -> (yes: bool)
    ensures
        yes == blames_connection(error@),
{
    contains(error, "ClientError") || contains(error, "RequestTimeout")
}

/// An error asks for a restart if and only if its text holds `RestartNeeded`, whatever stands
/// around it.
pub proof fn law_restart_is_read_from_the_text(error: Seq<char>)
    ensures
        asks_for_restart(error) <==> exists|before: Seq<char>, after: Seq<char>| #[trigger]
            crate::text::between(before, "RestartNeeded"@, after) == error,
{
    crate::text::law_occurrence_is_a_part("RestartNeeded"@, error);
}

/// An error blames the connection if and only if its text holds `ClientError` or
/// `RequestTimeout`, whatever stands around it.
pub proof fn law_connection_trouble_is_read_from_the_text(error: Seq<char>)
    ensures
        blames_connection(error) <==> {
            ||| exists|before: Seq<char>, after: Seq<char>| #[trigger]
                crate::text::between(before, "ClientError"@, after) == error
            ||| exists|before: Seq<char>, after: Seq<char>| #[trigger]
                crate::text::between(before, "RequestTimeout"@, after) == error
        },
{
    crate::text::law_occurrence_is_a_part("ClientError"@, error);
    crate::text::law_occurrence_is_a_part("RequestTimeout"@, error);
}

} // verus!
