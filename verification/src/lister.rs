//! Listing the guilds of the account.

use crate::guild::{guild_views, Guild, GuildView};
use crate::http::{request_to, Method, Reply, ReplyView, Request, RequestView};
use crate::json::{field_text, json_array, json_member, json_text, parse_array, string_field};
use vstd::prelude::*;

verus! {

/// The path of the guild listing.
pub const GUILDS_PATH: &'static str = "/users/@me/guilds";

/// The request that asks for the guilds of the account behind `credential`.
pub open spec fn listing_request_of(credential: Seq<char>) -> RequestView {
    request_to(Method::Get, GUILDS_PATH@, credential)
}

/// Builds the request that asks for the guilds of the account.
pub fn listing_request(credential: &str) -> (request: Request)
    ensures
        request@ == listing_request_of(credential@),
{
    Request::new(Method::Get, GUILDS_PATH, credential)
}

/// The guild that one entry of a listing stands for: its `id` and `name`
/// where the entry has them as strings, the empty text where it has not.
pub open spec fn guild_of_entry(entry: serde_json::Value) -> GuildView {
    GuildView { id: field_text(entry, "id"@), name: field_text(entry, "name"@) }
}

/// One guild for each entry, in the order of the entries.
pub open spec fn guilds_of_entries(entries: Seq<serde_json::Value>) -> Seq<GuildView> {
    Seq::new(entries.len(), |i: int| guild_of_entry(entries[i]))
}

/// The guilds that a reply to the listing request holds. A reply without a
/// success status, one that never arrived and a body that is no JSON array
/// all hold none.
pub open spec fn listed_guilds(reply: ReplyView) -> Seq<GuildView> {
    if reply.succeeded() {
        match json_array(reply.body()) {
            Some(entries) => guilds_of_entries(entries),
            None => Seq::empty(),
        }
    } else {
        Seq::empty()
    }
}

/// Turns the entries of a listing into guilds.
fn guilds_from_entries(entries: &Vec<serde_json::Value>) -> (guilds: Vec<Guild>)
    ensures
        guild_views(guilds@) == guilds_of_entries(entries@),
{
    let mut guilds: Vec<Guild> = Vec::new();
    let mut i: usize = 0;
    while i < entries.len()
        invariant
            i <= entries.len(),
            guilds.len() == i,
            forall|j: int| 0 <= j < i ==> (#[trigger] guilds[j])@ == guild_of_entry(entries[j]),
        decreases entries.len() - i,
    {
        let entry = &entries[i];
        let guild = Guild::from_fields(string_field(entry, "id"), string_field(entry, "name"));
        guilds.push(guild);
        i += 1;
    }
    assert(guild_views(guilds@) =~= guilds_of_entries(entries@));
    guilds
}

/// Reads the guilds out of the reply to the listing request.
///
/// Never fails: whatever keeps the guilds from being read gives the empty
/// list, which a caller cannot tell from an account without guilds.
pub fn list_guilds(reply: &Reply) -> (guilds: Vec<Guild>)
    ensures
        guild_views(guilds@) == listed_guilds(reply@),
{
    match reply {
        Reply::Answered { body, .. } => {
            if reply.succeeded() {
                match parse_array(body.as_slice()) {
                    Ok(entries) => guilds_from_entries(&entries),
                    Err(_) => Vec::new(),
                }
            } else {
                Vec::new()
            }
        },
        Reply::Failed => Vec::new(),
    }
}

/// A listing that arrives with a success status and parses to `entries`
/// gives exactly one guild for each entry, in the order of the entries, and
/// each guild has the entry's `id` and `name`.
pub proof fn listing_keeps_every_entry(status: u16, body: Seq<u8>, entries: Seq<serde_json::Value>)
    requires
        200 <= status <= 299,
        json_array(body) == Some(entries),
    ensures
        listed_guilds(ReplyView::Answered { status, body }).len() == entries.len(),
        forall|i: int|
            0 <= i < entries.len() ==> {
                &&& (#[trigger] listed_guilds(ReplyView::Answered { status, body })[i]).id
                    == field_text(entries[i], "id"@)
                &&& listed_guilds(ReplyView::Answered { status, body })[i].name
                    == field_text(entries[i], "name"@)
            },
{
}

/// An entry without a string under `id` or under `name` still gives a guild:
/// the guild has the empty text in that field.
pub proof fn entry_without_field_is_kept(entry: serde_json::Value)
    ensures
        json_text(json_member(entry, "id"@)) is None ==> guild_of_entry(entry).id == Seq::<
            char,
        >::empty(),
        json_text(json_member(entry, "name"@)) is None ==> guild_of_entry(entry).name == Seq::<
            char,
        >::empty(),
{
}

/// Nothing is listed from a reply without a success status or from a
/// request that got no reply.
pub proof fn failed_listing_is_empty(reply: ReplyView)
    requires
        !reply.succeeded(),
    ensures
        listed_guilds(reply) == Seq::<GuildView>::empty(),
{
}

} // verus!
