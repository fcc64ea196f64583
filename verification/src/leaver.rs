//! Leaving one guild.

use crate::http::{request_to, Method, Reply, Request, RequestView, NO_CONTENT};
use crate::lister::GUILDS_PATH;
use vstd::prelude::*;
use vstd::string::StringExecFns;

verus! {

/// The path that names the membership in the guild `guild_id`.
pub open spec fn membership_path(guild_id: Seq<char>) -> Seq<char> {
    GUILDS_PATH@ + "/"@ + guild_id
}

/// The request that gives up the membership in the guild `guild_id`.
pub open spec fn leave_request_of(credential: Seq<char>, guild_id: Seq<char>) -> RequestView {
    request_to(Method::Delete, membership_path(guild_id), credential)
}

/// Builds the request that gives up the membership in the guild `guild_id`.
/// The identifier goes into the path as it is.
pub fn leave_request(credential: &str, guild_id: &str) -> (request: Request)
    ensures
        request@ == leave_request_of(credential@, guild_id@),
{
    let mut path = String::from_str(GUILDS_PATH);
    path.append("/");
    path.append(guild_id);
    Request::new(Method::Delete, path.as_str(), credential)
}

/// Decides from the reply to a leave request whether the guild was left:
/// it was exactly when the service answered with status 204. Every other
/// status, the other success statuses among them, and a request that got no
/// reply mean that it was not.
pub fn leave_guild(reply: &Reply) -> (left: bool)
    ensures
        left == reply@.has_status(204),
{
    reply.has_status(NO_CONTENT)
}

} // verus!
