//! The publish endpoint: check the token, create the artifact, put it into
//! the store, answer with its identifier.

use vstd::prelude::*;
use vstd::string::*;
use crate::artifact::{decode_content, PlotContent, PlotMessage};
use crate::auth::{authorized, presented_text, token_text, token_valid};
use crate::store::PlotState;

verus! {

/// Why a submission was turned away.
#[derive(Clone, Copy, Debug, PartialEq, Eq, Structural)]
pub enum PublishError {
    /// The submission did not present the server's token.
    Unauthorized,
    /// The submission's content names no known variant.
    Malformed,
}

/// The status that answers a well-formed submission.
pub const STATUS_OK: u16 = 200;

/// The status that answers a submission or a connection without the right
/// token.
pub const STATUS_UNAUTHORIZED: u16 = 401;

/// The status that answers a submission whose content cannot be read.
pub const STATUS_MALFORMED: u16 = 422;

/// The largest request body that the publish endpoint accepts, in bytes.
pub const PUBLISH_BODY_LIMIT: usize = 52_428_800;

/// The answer to a liveness probe.
pub fn health() -> (body: &'static str)
    ensures
        body@ == "ok"@,
{
    "ok"
}

/// Puts a finished artifact into the store and returns its identifier. Every
/// way of publishing ends here.
pub fn enter(state: &mut PlotState, msg: PlotMessage) -> (id: String)
    requires
        old(state).wf(),
    ensures
        id == msg.id,
        final(state)@ == old(state)@.pushed(msg),
        final(state).wf(),
{
    let id = msg.id.clone();
    state.push(msg);
    id
}

/// Handles one submission. Without the right token nothing changes and the
/// caller is told so; with it, a new artifact around `content` enters the
/// store and its identifier is returned.
pub fn publish_handler(
    state: &mut PlotState,
    expected_token: &Option<String>,
    provided: Option<&str>,
    content: PlotContent,
) -> (reply: Result<String, PublishError>)
    requires
        old(state).wf(),
    ensures
        final(state).wf(),
        !authorized(token_text(*expected_token), presented_text(provided)) ==> reply == Err::<
            String,
            PublishError,
        >(PublishError::Unauthorized) && final(state)@ == old(state)@,
        authorized(token_text(*expected_token), presented_text(provided)) ==> reply is Ok
            && exists|msg: PlotMessage|
            {
                &&& msg.content == content
                &&& msg.id == reply->Ok_0
                &&& msg.id@.len() == 36
                &&& #[trigger] old(state)@.pushed(msg) == final(state)@
            },
{
    if !token_valid(expected_token, provided) {
        return Err(PublishError::Unauthorized);
    }
    let msg = PlotMessage::new(content);
    let ghost admitted = msg;
    let id = enter(state, msg);
    assert(old(state)@.pushed(admitted) == state@);
    Ok(id)
}

/// Handles one submission as it arrives on the wire, its content still a
/// pair of discriminant and payload. A content that names no variant is
/// turned away as malformed before the token is looked at; nothing changes
/// then. Otherwise the submission is handled as `publish_handler` does.
pub fn publish_submission(
    state: &mut PlotState,
    expected_token: &Option<String>,
    provided: Option<&str>,
    tag: &str,
    data: String,
) -> (reply: Result<String, PublishError>)
    requires
        old(state).wf(),
    ensures
        final(state).wf(),
        decode_content(tag@, data@) is None ==> reply == Err::<String, PublishError>(
            PublishError::Malformed,
        ) && final(state)@ == old(state)@,
        decode_content(tag@, data@) is Some && !authorized(
            token_text(*expected_token),
            presented_text(provided),
        ) ==> reply == Err::<String, PublishError>(PublishError::Unauthorized) && final(state)@
            == old(state)@,
        decode_content(tag@, data@) is Some && authorized(
            token_text(*expected_token),
            presented_text(provided),
        ) ==> reply is Ok && exists|msg: PlotMessage|
            {
                &&& Some(msg.content@) == decode_content(tag@, data@)
                &&& msg.id == reply->Ok_0
                &&& msg.id@.len() == 36
                &&& #[trigger] old(state)@.pushed(msg) == final(state)@
            },
{
    match PlotContent::from_wire(tag, data) {
        Some(content) => publish_handler(state, expected_token, provided, content),
        None => Err(PublishError::Malformed),
    }
}

/// The status code that answers a submission.
pub open spec fn status_for(reply: Result<String, PublishError>) -> u16 {
    match reply {
        Ok(_) => STATUS_OK,
        Err(PublishError::Unauthorized) => STATUS_UNAUTHORIZED,
        Err(PublishError::Malformed) => STATUS_MALFORMED,
    }
}

/// The status code that answers a submission.
pub fn status_of(reply: &Result<String, PublishError>) -> (status: u16)
    ensures
        status == status_for(*reply),
{
    match reply {
        Ok(_) => STATUS_OK,
        Err(PublishError::Unauthorized) => STATUS_UNAUTHORIZED,
        Err(PublishError::Malformed) => STATUS_MALFORMED,
    }
}

} // verus!
