//! The dialogue with the user, as a state machine.
//!
//! A [`Session`] never reads or sends anything. It says which action it
//! waits for ([`Session::awaited`]); the driver performs that action and
//! hands the result back, a line to [`Session::on_line`] and a reply to
//! [`Session::on_reply`]; the session moves on and says what to tell the
//! user and what to do next.

use crate::guild::{guild_views, Guild, GuildView};
use crate::http::{Method, Reply, ReplyView, Request, RequestView, NO_CONTENT};
use crate::leaver::{leave_guild, leave_request, leave_request_of};
use crate::lister::{list_guilds, listed_guilds, listing_request, listing_request_of};
use crate::notice::{Notice, NoticeView, Prompt, PromptView};
use crate::startup::StartupError;
use crate::text::{same_text, trim, trimmed};
use crate::validator::Validation;
use vstd::prelude::*;

verus! {

/// Where the dialogue stands.
#[derive(Clone, Copy, Debug, PartialEq, Eq, Structural)]
pub enum SessionState {
    /// The menu is shown and a choice is awaited.
    MainMenu,
    /// The listing has been asked for.
    ListingGuilds,
    /// The guild at this index of the listing is being decided.
    ConfirmingGuild(usize),
    /// The user chose to exit. Nothing follows.
    Exiting,
}

/// What the driver has to do next.
#[derive(Debug, PartialEq, Eq)]
pub enum Action {
    /// Show the prompt, read one line and hand it to the session.
    Ask(Prompt),
    /// Send the request and hand the reply to the session.
    Send(Request),
    /// End the process with [`crate::startup::EXIT_SUCCESS`].
    Exit,
}

/// What an [`Action`] is in contracts.
pub enum ActionView {
    Ask(PromptView),
    Send(RequestView),
    Exit,
}

impl View for Action {
    type V = ActionView;

    open spec fn view(&self) -> ActionView {
        match self {
            Action::Ask(prompt) => ActionView::Ask(prompt@),
            Action::Send(request) => ActionView::Send(request@),
            Action::Exit => ActionView::Exit,
        }
    }
}

/// What one move of the session asks of the driver: first tell the user the
/// notice, if there is one, then perform the action.
#[derive(Debug, PartialEq, Eq)]
pub struct Step {
    pub notice: Option<Notice>,
    pub action: Action,
}

/// What a [`Step`] is in contracts.
pub struct StepView {
    pub notice: Option<NoticeView>,
    pub action: ActionView,
}

impl View for Step {
    type V = StepView;

    open spec fn view(&self) -> StepView {
        StepView {
            notice: match self.notice {
                Some(notice) => Some(notice@),
                None => None,
            },
            action: self.action@,
        }
    }
}

/// What a [`Session`] is in contracts.
pub struct SessionView {
    /// The token that every request carries.
    pub credential: Seq<char>,
    /// Where the dialogue stands.
    pub state: SessionState,
    /// The guilds being decided; empty outside
    /// [`SessionState::ConfirmingGuild`].
    pub guilds: Seq<GuildView>,
    /// Whether the leave request for the current guild is under way.
    pub leaving: bool,
}

impl SessionView {
    /// The session right after the token has been validated.
    pub open spec fn initial(credential: Seq<char>) -> SessionView {
        SessionView {
            credential,
            state: SessionState::MainMenu,
            guilds: Seq::empty(),
            leaving: false,
        }
    }

    /// What holds of every session: a guild under decision is one of the
    /// listing, a leave request belongs to a guild under decision, and no
    /// listing is kept once its last guild is decided.
    pub open spec fn wf(self) -> bool {
        &&& self.state matches SessionState::ConfirmingGuild(i) ==> i < self.guilds.len()
        &&& self.leaving ==> self.state is ConfirmingGuild
        &&& !(self.state is ConfirmingGuild) ==> self.guilds.len() == 0
        &&& self.guilds.len() <= usize::MAX
    }

    /// Whether the session waits for a line of input.
    pub open spec fn awaits_line(self) -> bool {
        match self.state {
            SessionState::MainMenu => true,
            SessionState::ConfirmingGuild(_) => !self.leaving,
            _ => false,
        }
    }

    /// Whether the session waits for the reply to a request.
    pub open spec fn awaits_reply(self) -> bool {
        match self.state {
            SessionState::ListingGuilds => true,
            SessionState::ConfirmingGuild(_) => self.leaving,
            _ => false,
        }
    }

    /// The action whose result the session waits for.
    pub open spec fn awaited(self) -> ActionView {
        match self.state {
            SessionState::MainMenu => ActionView::Ask(PromptView::Menu),
            SessionState::ListingGuilds => ActionView::Send(listing_request_of(self.credential)),
            SessionState::ConfirmingGuild(i) => if self.leaving {
                ActionView::Send(leave_request_of(self.credential, self.guilds[i as int].id))
            } else {
                ActionView::Ask(PromptView::Confirm(self.guilds[i as int].name))
            },
            SessionState::Exiting => ActionView::Exit,
        }
    }

    /// The session once the current guild is decided: at the next guild of
    /// the listing, or back at the menu after the last.
    pub open spec fn advanced(self) -> SessionView {
        match self.state {
            SessionState::ConfirmingGuild(i) => if i + 1 < self.guilds.len() {
                SessionView {
                    state: SessionState::ConfirmingGuild((i + 1) as usize),
                    leaving: false,
                    ..self
                }
            } else {
                SessionView::initial(self.credential)
            },
            _ => self,
        }
    }

    /// The session after the input `text`, a line without the white space
    /// at its ends. An input that the session does not wait for changes
    /// nothing.
    pub open spec fn after_input(self, text: Seq<char>) -> SessionView {
        match self.state {
            SessionState::MainMenu => if text == "1"@ {
                SessionView { state: SessionState::ListingGuilds, ..self }
            } else if text == "2"@ {
                SessionView { state: SessionState::Exiting, ..self }
            } else {
                self
            },
            SessionState::ConfirmingGuild(_) => if self.leaving {
                self
            } else if text == "y"@ {
                SessionView { leaving: true, ..self }
            } else if text == "n"@ {
                self.advanced()
            } else {
                self
            },
            _ => self,
        }
    }

    /// What the user is told about the input `text`.
    pub open spec fn input_notice(self, text: Seq<char>) -> Option<NoticeView> {
        match self.state {
            SessionState::MainMenu => if text == "1"@ || text == "2"@ {
                None
            } else {
                Some(NoticeView::InvalidInput)
            },
            SessionState::ConfirmingGuild(i) => if self.leaving || text == "y"@ {
                None
            } else if text == "n"@ {
                Some(NoticeView::Skipped(self.guilds[i as int].name))
            } else {
                Some(NoticeView::InvalidInput)
            },
            _ => None,
        }
    }

    /// The session after the listing has given `guilds`. A listing that the
    /// session does not wait for changes nothing.
    pub open spec fn after_guilds(self, guilds: Seq<GuildView>) -> SessionView {
        if self.state is ListingGuilds {
            if guilds.len() == 0 {
                SessionView { state: SessionState::MainMenu, ..self }
            } else {
                SessionView { state: SessionState::ConfirmingGuild(0), guilds, ..self }
            }
        } else {
            self
        }
    }

    /// What the user is told about the listing.
    pub open spec fn guilds_notice(self, guilds: Seq<GuildView>) -> Option<NoticeView> {
        if self.state is ListingGuilds && guilds.len() == 0 {
            Some(NoticeView::NoGuilds)
        } else {
            None
        }
    }

    /// The session after the leave request for the current guild has come
    /// to its end, whichever end. Where no leave request is under way,
    /// nothing changes.
    pub open spec fn after_leave(self) -> SessionView {
        if self.state is ConfirmingGuild && self.leaving {
            self.advanced()
        } else {
            self
        }
    }

    /// What the user is told about the outcome of leaving.
    pub open spec fn leave_notice(self, left: bool) -> Option<NoticeView> {
        match self.state {
            SessionState::ConfirmingGuild(i) => if self.leaving {
                if left {
                    Some(NoticeView::Left(self.guilds[i as int].name))
                } else {
                    Some(NoticeView::LeaveFailed(self.guilds[i as int].name))
                }
            } else {
                None
            },
            _ => None,
        }
    }

    /// The session after `reply`, which answers the request that the
    /// session waits for.
    pub open spec fn after_reply(self, reply: ReplyView) -> SessionView {
        if self.state is ListingGuilds {
            self.after_guilds(listed_guilds(reply))
        } else {
            self.after_leave()
        }
    }

    /// What the user is told about `reply`.
    pub open spec fn reply_notice(self, reply: ReplyView) -> Option<NoticeView> {
        if self.state is ListingGuilds {
            self.guilds_notice(listed_guilds(reply))
        } else {
            self.leave_notice(reply.has_status(NO_CONTENT))
        }
    }
}

/// The step that tells `notice` and then asks for what `next` waits for, or
/// no step where the session did not wait for what it was handed.
pub open spec fn step_of(awaited: bool, notice: Option<NoticeView>, next: SessionView) -> Option<
    StepView,
> {
    if awaited {
        Some(StepView { notice, action: next.awaited() })
    } else {
        None
    }
}

/// The view of an optional step.
pub open spec fn opt_step(step: Option<Step>) -> Option<StepView> {
    match step {
        Some(step) => Some(step@),
        None => None,
    }
}

/// The dialogue of one run, from the validated token to the exit.
pub struct Session {
    credential: String,
    state: SessionState,
    guilds: Vec<Guild>,
    leaving: bool,
}

impl View for Session {
    type V = SessionView;

    closed spec fn view(&self) -> SessionView {
        SessionView {
            credential: self.credential@,
            state: self.state,
            guilds: if self.state is ConfirmingGuild {
                guild_views(self.guilds@)
            } else {
                Seq::empty()
            },
            leaving: self.leaving,
        }
    }
}

impl Session {
    #[verifier::type_invariant]
    spec fn inv(self) -> bool {
        &&& self.state matches SessionState::ConfirmingGuild(i) ==> i < self.guilds.len()
        &&& self.leaving ==> self.state is ConfirmingGuild
    }

    /// Opens the dialogue for a token that has been validated. There is no
    /// session for a token that the service did not accept.
    pub fn open(credential: String, validation: &Validation) -> (opened: Result<
        Session,
        StartupError,
    >)
        ensures
            match opened {
                Ok(session) => validation.is_valid && session@ == SessionView::initial(
                    credential@,
                ),
                Err(error) => !validation.is_valid && error == StartupError::InvalidCredential,
            },
    {
        if validation.is_valid {
            Ok(
                Session {
                    credential,
                    state: SessionState::MainMenu,
                    guilds: Vec::new(),
                    leaving: false,
                },
            )
        } else {
            Err(StartupError::InvalidCredential)
        }
    }

    /// Where the dialogue stands.
    pub fn state(&self) -> (state: SessionState)
        ensures
            state == self@.state,
            self@.wf(),
    {
        proof {
            use_type_invariant(self);
        }
        self.state
    }

    /// The guild that is up for decision, if one is.
    pub fn current_guild(&self) -> (guild: Option<Guild>)
        ensures
            match guild {
                Some(guild) => self@.state matches SessionState::ConfirmingGuild(i) && guild@
                    == self@.guilds[i as int],
                None => !(self@.state is ConfirmingGuild),
            },
    {
        proof {
            use_type_invariant(self);
        }
        match self.state {
            SessionState::ConfirmingGuild(i) => Some(self.guilds[i].clone()),
            _ => None,
        }
    }

    /// Whether the user chose to exit.
    pub fn is_exiting(&self) -> (yes: bool)
        ensures
            yes == (self@.state is Exiting),
    {
        match self.state {
            SessionState::Exiting => true,
            _ => false,
        }
    }

    /// The action whose result the session waits for.
    pub fn awaited(&self) -> (action: Action)
        ensures
            action@ == self@.awaited(),
    {
        proof {
            use_type_invariant(self);
        }
        match self.state {
            SessionState::MainMenu => Action::Ask(Prompt::Menu),
            SessionState::ListingGuilds => Action::Send(listing_request(self.credential.as_str())),
            SessionState::ConfirmingGuild(i) => {
                let guild = &self.guilds[i];
                if self.leaving {
                    Action::Send(leave_request(self.credential.as_str(), guild.id.as_str()))
                } else {
                    Action::Ask(Prompt::Confirm(guild.name.clone()))
                }
            },
            SessionState::Exiting => Action::Exit,
        }
    }

    /// Moves past the current guild.
    fn advance(&mut self)
        requires
            old(self)@.state is ConfirmingGuild,
        ensures
            final(self)@ == old(self)@.advanced(),
    {
        proof {
            use_type_invariant(&*self);
        }
        if let SessionState::ConfirmingGuild(i) = self.state {
            self.leaving = false;
            if i + 1 < self.guilds.len() {
                self.state = SessionState::ConfirmingGuild(i + 1);
            } else {
                self.state = SessionState::MainMenu;
                self.guilds = Vec::new();
            }
        }
    }

    /// Takes an input: a line that has lost the white space at its ends.
    ///
    /// At the menu, `1` asks for the listing and `2` exits. At a guild, `y`
    /// sends the leave request and `n` skips the guild. Anything else is
    /// answered with [`Notice::InvalidInput`] and asked again. There is no
    /// step, and nothing changes, where the session does not wait for a
    /// line.
    pub fn on_input(&mut self, text: &str) -> (step: Option<Step>)
        ensures
            final(self)@ == old(self)@.after_input(text@),
            opt_step(step) == step_of(
                old(self)@.awaits_line(),
                old(self)@.input_notice(text@),
                final(self)@,
            ),
            final(self)@.wf(),
    {
        proof {
            use_type_invariant(&*self);
        }
        match self.state {
            SessionState::MainMenu => {
                let notice = if same_text(text, "1") {
                    self.state = SessionState::ListingGuilds;
                    None
                } else if same_text(text, "2") {
                    self.state = SessionState::Exiting;
                    None
                } else {
                    Some(Notice::InvalidInput)
                };
                Some(Step { notice, action: self.awaited() })
            },
            SessionState::ConfirmingGuild(i) => {
                if self.leaving {
                    None
                } else {
                    let notice = if same_text(text, "y") {
                        self.leaving = true;
                        None
                    } else if same_text(text, "n") {
                        let name = self.guilds[i].name.clone();
                        self.advance();
                        Some(Notice::Skipped(name))
                    } else {
                        Some(Notice::InvalidInput)
                    };
                    Some(Step { notice, action: self.awaited() })
                }
            },
            _ => None,
        }
    }

    /// Takes a line as it was read, with its line end, and treats what is
    /// left of it without the white space at its ends as the input.
    pub fn on_line(&mut self, line: &str) -> (step: Option<Step>)
        ensures
            final(self)@ == old(self)@.after_input(trimmed(line@)),
            opt_step(step) == step_of(
                old(self)@.awaits_line(),
                old(self)@.input_notice(trimmed(line@)),
                final(self)@,
            ),
            final(self)@.wf(),
    {
        self.on_input(trim(line))
    }

    /// Takes the guilds that the listing gave. None sends the user back to
    /// the menu with [`Notice::NoGuilds`]; otherwise the first guild is up
    /// for decision. There is no step, and nothing changes, where the
    /// session does not wait for the listing.
    pub fn on_guilds(&mut self, guilds: Vec<Guild>) -> (step: Option<Step>)
        ensures
            final(self)@ == old(self)@.after_guilds(guild_views(guilds@)),
            opt_step(step) == step_of(
                old(self)@.state is ListingGuilds,
                old(self)@.guilds_notice(guild_views(guilds@)),
                final(self)@,
            ),
            final(self)@.wf(),
    {
        proof {
            use_type_invariant(&*self);
        }
        match self.state {
            SessionState::ListingGuilds => {
                let notice = if guilds.len() == 0 {
                    self.state = SessionState::MainMenu;
                    Some(Notice::NoGuilds)
                } else {
                    self.guilds = guilds;
                    self.state = SessionState::ConfirmingGuild(0);
                    None
                };
                Some(Step { notice, action: self.awaited() })
            },
            _ => None,
        }
    }

    /// Takes the outcome of the leave request for the current guild, tells
    /// the user and moves past the guild. There is no step, and nothing
    /// changes, where no leave request is under way.
    pub fn on_left(&mut self, left: bool) -> (step: Option<Step>)
        ensures
            final(self)@ == old(self)@.after_leave(),
            opt_step(step) == step_of(
                old(self)@.state is ConfirmingGuild && old(self)@.leaving,
                old(self)@.leave_notice(left),
                final(self)@,
            ),
            final(self)@.wf(),
    {
        proof {
            use_type_invariant(&*self);
        }
        match self.state {
            SessionState::ConfirmingGuild(i) => {
                if self.leaving {
                    let name = self.guilds[i].name.clone();
                    self.advance();
                    let notice = if left {
                        Notice::Left(name)
                    } else {
                        Notice::LeaveFailed(name)
                    };
                    Some(Step { notice: Some(notice), action: self.awaited() })
                } else {
                    None
                }
            },
            _ => None,
        }
    }

    /// Takes the reply to the request that the session waits for: the
    /// listing while guilds are being listed, the outcome of leaving while a
    /// leave request is under way. There is no step, and nothing changes,
    /// where the session does not wait for a reply.
    pub fn on_reply(&mut self, reply: &Reply) -> (step: Option<Step>)
        ensures
            final(self)@ == old(self)@.after_reply(reply@),
            opt_step(step) == step_of(
                old(self)@.awaits_reply(),
                old(self)@.reply_notice(reply@),
                final(self)@,
            ),
            final(self)@.wf(),
    {
        proof {
            use_type_invariant(&*self);
        }
        match self.state {
            SessionState::ListingGuilds => self.on_guilds(list_guilds(reply)),
            _ => self.on_left(leave_guild(reply)),
        }
    }
}

/// Every move takes a well-formed session to a well-formed session.
pub proof fn moves_keep_sessions_well_formed(
    session: SessionView,
    text: Seq<char>,
    guilds: Seq<GuildView>,
)
    requires
        session.wf(),
        guilds.len() <= usize::MAX,
    ensures
        session.after_input(text).wf(),
        session.after_guilds(guilds).wf(),
        session.after_leave().wf(),
{
}

/// At the menu every input but `1` and `2` is invalid: the session stays
/// what it was, says so, and asks the menu again.
pub proof fn other_input_at_menu_asks_again(session: SessionView, text: Seq<char>)
    requires
        session.wf(),
        session.state is MainMenu,
        text != "1"@,
        text != "2"@,
    ensures
        session.after_input(text) == session,
        session.input_notice(text) == Some(NoticeView::InvalidInput),
        session.after_input(text).awaited() == ActionView::Ask(PromptView::Menu),
{
}

/// At a guild every input but `y` and `n` is invalid: the session stays at
/// that guild, says so, and asks about the same guild again.
pub proof fn other_input_at_guild_asks_again(session: SessionView, text: Seq<char>, index: usize)
    requires
        session.wf(),
        session.state == SessionState::ConfirmingGuild(index),
        !session.leaving,
        text != "y"@,
        text != "n"@,
    ensures
        session.after_input(text) == session,
        session.input_notice(text) == Some(NoticeView::InvalidInput),
        session.after_input(text).awaited() == ActionView::Ask(
            PromptView::Confirm(session.guilds[index as int].name),
        ),
{
}

/// Once a guild is decided, by `n` or by the end of its leave request, the
/// next guild of the listing is up, or the menu after the last.
pub proof fn decided_guild_gives_way_to_next(session: SessionView, index: usize)
    requires
        session.wf(),
        session.state == SessionState::ConfirmingGuild(index),
    ensures
        !session.leaving ==> session.after_input("n"@) == session.advanced(),
        session.leaving ==> session.after_leave() == session.advanced(),
        index + 1 < session.guilds.len() ==> session.advanced().state
            == SessionState::ConfirmingGuild((index + 1) as usize),
        index + 1 < session.guilds.len() ==> session.advanced().guilds == session.guilds,
        index + 1 == session.guilds.len() ==> session.advanced() == SessionView::initial(
            session.credential,
        ),
        !session.advanced().leaving,
{
    reveal_strlit("n");
    reveal_strlit("y");
    assert("n"@[0] != "y"@[0]);
}

/// A request to leave a guild is sent for one reason only: the user
/// answered `y` when asked about that guild, and then it is the request for
/// that guild. No other input and no reply makes the session wait for such a
/// request.
pub proof fn leave_request_exactly_on_yes(session: SessionView, text: Seq<char>, reply: ReplyView)
    requires
        session.wf(),
    ensures
        session.awaits_line() ==> match session.after_input(text).awaited() {
            ActionView::Send(request) => request.method == Method::Delete ==> {
                &&& text == "y"@
                &&& session.state is ConfirmingGuild
            },
            _ => true,
        },
        session.awaits_line() && text == "y"@ ==> match session.state {
            SessionState::ConfirmingGuild(i) => session.after_input(text).awaited()
                == ActionView::Send(
                leave_request_of(session.credential, session.guilds[i as int].id),
            ),
            _ => !(session.after_input(text).awaited() is Send),
        },
        session.awaits_reply() ==> !(session.after_reply(reply).awaited() is Send),
{
    reveal_strlit("y");
    reveal_strlit("1");
    reveal_strlit("2");
    assert("y"@[0] != "1"@[0]);
    assert("y"@[0] != "2"@[0]);
    if session.state is ListingGuilds {
        let guilds = listed_guilds(reply);
        if guilds.len() > 0 {
            assert(session.after_reply(reply).state == SessionState::ConfirmingGuild(0));
        }
    }
}

/// Exiting is final: no input and no reply leads out of it, and the only
/// thing left to do is to end the process. The only way in is `2` at the
/// menu.
pub proof fn exiting_is_final(session: SessionView, text: Seq<char>, reply: ReplyView)
    requires
        session.wf(),
    ensures
        session.state is Exiting ==> {
            &&& session.after_input(text) == session
            &&& session.after_reply(reply) == session
            &&& session.awaited() == ActionView::Exit
        },
        !(session.state is Exiting) && session.after_input(text).state is Exiting ==> {
            &&& session.state is MainMenu
            &&& text == "2"@
        },
        !(session.state is Exiting) ==> !(session.after_reply(reply).state is Exiting),
{
}

/// The token that a session was opened with stays with it, and the only
/// requests that a session asks for are the listing and the leave request
/// for the guild under decision, each carrying that token. In particular
/// the token is not validated a second time.
pub proof fn requests_carry_the_credential(session: SessionView, text: Seq<char>, reply: ReplyView)
    requires
        session.wf(),
    ensures
        session.after_input(text).credential == session.credential,
        session.after_reply(reply).credential == session.credential,
        session.awaited() matches ActionView::Send(request) ==> {
            &&& request.authorization == session.credential
            &&& match session.state {
                SessionState::ConfirmingGuild(i) => request == leave_request_of(
                    session.credential,
                    session.guilds[i as int].id,
                ),
                _ => request == listing_request_of(session.credential),
            }
        },
{
}

} // verus!
