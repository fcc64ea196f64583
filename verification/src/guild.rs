//! The records that the service's answers are turned into.

use crate::text::{opt_text, owned_or_empty, text_or_empty};
use vstd::prelude::*;

verus! {

/// One guild membership: the identifier that addresses the guild in the API
/// and the name shown to the user.
#[derive(Debug, PartialEq, Eq)]
pub struct Guild {
    pub id: String,
    pub name: String,
}

/// What a [`Guild`] is in contracts.
pub struct GuildView {
    pub id: Seq<char>,
    pub name: Seq<char>,
}

impl View for Guild {
    type V = GuildView;

    open spec fn view(&self) -> GuildView {
        GuildView { id: self.id@, name: self.name@ }
    }
}

/// The views of a sequence of guilds, in the same order.
pub open spec fn guild_views(guilds: Seq<Guild>) -> Seq<GuildView> {
    Seq::new(guilds.len(), |i: int| guilds[i]@)
}

impl Guild {
    /// A guild with the given identifier and name.
    pub fn new(id: String, name: String) -> (guild: Guild)
        ensures
            guild.id == id,
            guild.name == name,
    {
        Guild { id, name }
    }

    /// The guild that a listing entry stands for: a field that the entry
    /// lacks is left empty.
    pub fn from_fields(id: Option<&str>, name: Option<&str>) -> (guild: Guild)
        ensures
            guild@.id == text_or_empty(opt_text(id)),
            guild@.name == text_or_empty(opt_text(name)),
    {
        Guild::new(owned_or_empty(id), owned_or_empty(name))
    }
}

impl Clone for Guild {
    fn clone(&self) -> (copy: Guild)
        ensures
            copy@ == self@,
    {
        Guild { id: self.id.clone(), name: self.name.clone() }
    }
}

/// The account that a token belongs to, as the service names it.
#[derive(Debug, PartialEq, Eq)]
pub struct Identity {
    pub username: String,
    pub id: String,
}

/// What an [`Identity`] is in contracts.
pub struct IdentityView {
    pub username: Seq<char>,
    pub id: Seq<char>,
}

impl View for Identity {
    type V = IdentityView;

    open spec fn view(&self) -> IdentityView {
        IdentityView { username: self.username@, id: self.id@ }
    }
}

impl Identity {
    /// The identity that an account record stands for: a field that the
    /// record lacks is left empty.
    pub fn from_fields(username: Option<&str>, id: Option<&str>) -> (identity: Identity)
        ensures
            identity@.username == text_or_empty(opt_text(username)),
            identity@.id == text_or_empty(opt_text(id)),
    {
        Identity { username: owned_or_empty(username), id: owned_or_empty(id) }
    }
}

impl Clone for Identity {
    fn clone(&self) -> (copy: Identity)
        ensures
            copy@ == self@,
    {
        Identity { username: self.username.clone(), id: self.id.clone() }
    }
}

} // verus!
