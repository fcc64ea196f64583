use discord_manager::guild::Guild;
use discord_manager::http::{Method, Reply, Request};
use discord_manager::notice::{Notice, Prompt};
use discord_manager::session::{Action, Session, SessionState, Step};
use discord_manager::startup::{load_credential, StartupError};
use discord_manager::validator::{validate, validation_request, Validation};

const LISTING: &str = "https://discord.com/api/v10/users/@me/guilds";

fn answered(status: u16, body: &str) -> Reply {
    Reply::Answered { status, body: body.as_bytes().to_vec() }
}

fn guild(id: &str, name: &str) -> Guild {
    Guild::new(id.to_string(), name.to_string())
}

fn opened(credential: &str) -> Session {
    let validation = Validation { is_valid: true, identity: None };
    Session::open(credential.to_string(), &validation).ok().unwrap()
}

fn ask_menu() -> Action {
    Action::Ask(Prompt::Menu)
}

fn ask_guild(name: &str) -> Action {
    Action::Ask(Prompt::Confirm(name.to_string()))
}

fn send(method: Method, url: &str, credential: &str) -> Action {
    Action::Send(Request {
        method,
        url: url.to_string(),
        authorization: credential.to_string(),
    })
}

fn step(notice: Option<Notice>, action: Action) -> Option<Step> {
    Some(Step { notice, action })
}

/// Runs a session as a driver would: lines come from `lines`, the listing
/// request is answered with `listing`, each leave request with the next of
/// `leaves`. Gives back what the user saw and the requests that went out.
fn run(
    session: &mut Session,
    lines: &[&str],
    listing: &Reply,
    leaves: &[Reply],
) -> (Vec<String>, Vec<Request>) {
    let mut transcript = Vec::new();
    let mut sent = Vec::new();
    let mut next_line = 0;
    let mut next_leave = 0;
    let mut action = session.awaited();
    loop {
        let step = match action {
            Action::Ask(prompt) => {
                transcript.push(prompt.text());
                if next_line == lines.len() {
                    return (transcript, sent);
                }
                next_line += 1;
                session.on_line(lines[next_line - 1])
            }
            Action::Send(request) => {
                let is_leave = request.method == Method::Delete;
                sent.push(request);
                if is_leave {
                    next_leave += 1;
                    session.on_reply(&leaves[next_leave - 1])
                } else {
                    session.on_reply(listing)
                }
            }
            Action::Exit => {
                transcript.push("<exit>".to_string());
                return (transcript, sent);
            }
        };
        let step = step.unwrap();
        if let Some(notice) = step.notice {
            transcript.push(notice.text());
        }
        action = step.action;
    }
}

const MENU: &str = "What would you like to do?\n1. Mass leave guilds\n2. Exit";

#[test]
fn session_opens_at_the_menu() {
    let session = opened("abc");
    assert_eq!(session.state(), SessionState::MainMenu);
    assert_eq!(session.awaited(), ask_menu());
    assert_eq!(session.current_guild(), None);
    assert!(!session.is_exiting());
}

#[test]
fn session_is_refused_for_an_invalid_token() {
    let validation = Validation { is_valid: false, identity: None };
    let refused = Session::open("abc".to_string(), &validation);
    assert_eq!(refused.err(), Some(StartupError::InvalidCredential));
}

#[test]
fn skipping_the_only_guild_then_exit() {
    let mut session = opened("abc");
    let listing = answered(200, r#"[{"id":"1","name":"G1"}]"#);
    let (transcript, sent) = run(&mut session, &["1", "n", "2"], &listing, &[]);
    assert_eq!(
        transcript,
        vec![
            MENU.to_string(),
            "Would you like to leave guild G1 (y/n)?".to_string(),
            "Skipped leaving guild G1.".to_string(),
            MENU.to_string(),
            "<exit>".to_string(),
        ]
    );
    assert_eq!(
        sent,
        vec![Request {
            method: Method::Get,
            url: LISTING.to_string(),
            authorization: "abc".to_string()
        }]
    );
    assert!(sent.iter().all(|request| request.method != Method::Delete));
    assert_eq!(session.state(), SessionState::Exiting);
    assert!(session.is_exiting());
}

#[test]
fn three_at_the_menu_asks_again() {
    let mut session = opened("abc");
    let moved = session.on_line("3");
    assert_eq!(moved, step(Some(Notice::InvalidInput), ask_menu()));
    assert_eq!(session.state(), SessionState::MainMenu);
    assert_eq!(session.awaited(), ask_menu());
}

#[test]
fn other_inputs_at_the_menu_ask_again() {
    for line in ["", "\n", "0", "3", "12", "1 2", "one", "y", "n", "exit", "١"] {
        let mut session = opened("abc");
        assert_eq!(
            session.on_line(line),
            step(Some(Notice::InvalidInput), ask_menu()),
            "line {:?}",
            line
        );
        assert_eq!(session.state(), SessionState::MainMenu, "line {:?}", line);
    }
}

#[test]
fn invalid_token_ends_the_run_before_any_other_request() {
    let credential = load_credential(Some("abc"), None).unwrap();
    assert_eq!(credential, "abc");
    let request = validation_request(&credential);
    assert_eq!(request.url, "https://discord.com/api/v10/users/@me");
    let validation = validate(&answered(401, r#"{"message":"401: Unauthorized","code":0}"#));
    assert!(!validation.is_valid);
    let refused = Session::open(credential, &validation);
    let error = refused.err().unwrap();
    assert_eq!(error, StartupError::InvalidCredential);
    assert_ne!(error.exit_code(), 0);
}

#[test]
fn yes_then_no_leaves_only_the_first_guild() {
    let credential = load_credential(Some("token"), None).unwrap();
    let validation = validate(&answered(200, r#"{"username":"u","id":"7"}"#));
    let mut session = Session::open(credential, &validation).ok().unwrap();
    let listing = answered(200, r#"[{"id":"1","name":"G1"},{"id":"2","name":"G2"}]"#);
    let (transcript, sent) =
        run(&mut session, &["1", "y", "n"], &listing, &[answered(204, "")]);
    let leaves: Vec<&Request> =
        sent.iter().filter(|request| request.method == Method::Delete).collect();
    assert_eq!(leaves.len(), 1);
    assert_eq!(leaves[0].url, "https://discord.com/api/v10/users/@me/guilds/1");
    assert_eq!(leaves[0].authorization, "token");
    assert_eq!(sent.len(), 2);
    assert_eq!(
        transcript,
        vec![
            MENU.to_string(),
            "Would you like to leave guild G1 (y/n)?".to_string(),
            "Successfully left guild G1!".to_string(),
            "Would you like to leave guild G2 (y/n)?".to_string(),
            "Skipped leaving guild G2.".to_string(),
            MENU.to_string(),
        ]
    );
    assert_eq!(session.state(), SessionState::MainMenu);
}

#[test]
fn each_move_of_a_leave_is_as_stated() {
    let mut session = opened("tok");
    assert_eq!(session.on_line("1\n"), step(None, send(Method::Get, LISTING, "tok")));
    assert_eq!(session.state(), SessionState::ListingGuilds);
    assert_eq!(session.awaited(), send(Method::Get, LISTING, "tok"));

    let listing = answered(200, r#"[{"id":"10","name":"Ten"},{"id":"20","name":"Twenty"}]"#);
    assert_eq!(session.on_reply(&listing), step(None, ask_guild("Ten")));
    assert_eq!(session.state(), SessionState::ConfirmingGuild(0));
    assert_eq!(session.current_guild(), Some(guild("10", "Ten")));

    let leave = send(Method::Delete, "https://discord.com/api/v10/users/@me/guilds/10", "tok");
    assert_eq!(session.on_line("y\n"), step(None, leave));
    assert_eq!(session.state(), SessionState::ConfirmingGuild(0));

    assert_eq!(
        session.on_reply(&answered(204, "")),
        step(Some(Notice::Left("Ten".to_string())), ask_guild("Twenty"))
    );
    assert_eq!(session.state(), SessionState::ConfirmingGuild(1));
    assert_eq!(session.current_guild(), Some(guild("20", "Twenty")));

    let leave = send(Method::Delete, "https://discord.com/api/v10/users/@me/guilds/20", "tok");
    assert_eq!(session.on_line("y\n"), step(None, leave));
    assert_eq!(
        session.on_reply(&answered(200, r#"{"ok":true}"#)),
        step(Some(Notice::LeaveFailed("Twenty".to_string())), ask_menu())
    );
    assert_eq!(session.state(), SessionState::MainMenu);
    assert_eq!(session.current_guild(), None);

    assert_eq!(session.on_line("2\n"), step(None, Action::Exit));
    assert_eq!(session.state(), SessionState::Exiting);
    assert_eq!(session.awaited(), Action::Exit);
}

#[test]
fn failed_leave_is_reported_and_the_next_guild_follows() {
    let mut session = opened("abc");
    let listing = answered(200, r#"[{"id":"1","name":"G1"},{"id":"2","name":"G2"}]"#);
    let leaves = [Reply::Failed, answered(404, r#"{"message":"Unknown Guild"}"#)];
    let (transcript, sent) = run(&mut session, &["1", "y", "y", "2"], &listing, &leaves);
    assert_eq!(
        transcript,
        vec![
            MENU.to_string(),
            "Would you like to leave guild G1 (y/n)?".to_string(),
            "Failed to leave guild G1!".to_string(),
            "Would you like to leave guild G2 (y/n)?".to_string(),
            "Failed to leave guild G2!".to_string(),
            MENU.to_string(),
            "<exit>".to_string(),
        ]
    );
    let urls: Vec<&str> = sent.iter().map(|request| request.url.as_str()).collect();
    assert_eq!(
        urls,
        vec![
            LISTING,
            "https://discord.com/api/v10/users/@me/guilds/1",
            "https://discord.com/api/v10/users/@me/guilds/2",
        ]
    );
}

#[test]
fn other_answer_asks_about_the_same_guild_again() {
    let mut session = opened("abc");
    session.on_line("1");
    session.on_reply(&answered(200, r#"[{"id":"1","name":"G1"},{"id":"2","name":"G2"}]"#));
    for line in ["", "maybe", "Y", "N", "yes", "no", "1", "2", "yn"] {
        assert_eq!(
            session.on_line(line),
            step(Some(Notice::InvalidInput), ask_guild("G1")),
            "line {:?}",
            line
        );
        assert_eq!(session.state(), SessionState::ConfirmingGuild(0), "line {:?}", line);
    }
    assert_eq!(
        session.on_line("n"),
        step(Some(Notice::Skipped("G1".to_string())), ask_guild("G2"))
    );
    assert_eq!(session.state(), SessionState::ConfirmingGuild(1));
}

#[test]
fn empty_listing_returns_to_the_menu() {
    let mut session = opened("abc");
    let (transcript, sent) = run(&mut session, &["1", "2"], &answered(200, "[]"), &[]);
    assert_eq!(
        transcript,
        vec![
            MENU.to_string(),
            "No guilds found.".to_string(),
            MENU.to_string(),
            "<exit>".to_string(),
        ]
    );
    assert_eq!(sent.len(), 1);
}

#[test]
fn failed_listing_looks_like_an_empty_one() {
    for listing in [Reply::Failed, answered(500, "oops"), answered(200, "not json")] {
        let mut session = opened("abc");
        session.on_line("1");
        assert_eq!(session.on_reply(&listing), step(Some(Notice::NoGuilds), ask_menu()));
        assert_eq!(session.state(), SessionState::MainMenu);
    }
}

#[test]
fn listing_is_fetched_anew_each_time() {
    let mut session = opened("abc");
    session.on_line("1");
    session.on_reply(&answered(200, r#"[{"id":"1","name":"G1"}]"#));
    session.on_line("n");
    assert_eq!(session.state(), SessionState::MainMenu);
    assert_eq!(session.on_line("1"), step(None, send(Method::Get, LISTING, "abc")));
    assert_eq!(
        session.on_reply(&answered(200, r#"[{"id":"2","name":"G2"}]"#)),
        step(None, ask_guild("G2"))
    );
    assert_eq!(session.current_guild(), Some(guild("2", "G2")));
}

#[test]
fn lines_are_trimmed_before_they_are_read() {
    let mut session = opened("abc");
    assert_eq!(session.on_line("  1 \r\n"), step(None, send(Method::Get, LISTING, "abc")));
    session.on_reply(&answered(200, r#"[{"id":"1","name":"G1"}]"#));
    assert_eq!(
        session.on_line("\tn\n"),
        step(Some(Notice::Skipped("G1".to_string())), ask_menu())
    );
    assert_eq!(session.on_line(" 2"), step(None, Action::Exit));
}

#[test]
fn input_is_taken_as_it_is() {
    let mut session = opened("abc");
    assert_eq!(session.on_input("1\n"), step(Some(Notice::InvalidInput), ask_menu()));
    assert_eq!(session.on_input(" 1"), step(Some(Notice::InvalidInput), ask_menu()));
    assert_eq!(session.on_input("1"), step(None, send(Method::Get, LISTING, "abc")));
}

#[test]
fn what_is_not_awaited_changes_nothing() {
    let mut session = opened("abc");
    assert_eq!(session.on_reply(&answered(204, "")), None);
    assert_eq!(session.on_guilds(vec![guild("1", "G1")]), None);
    assert_eq!(session.on_left(true), None);
    assert_eq!(session.state(), SessionState::MainMenu);

    session.on_line("1");
    assert_eq!(session.on_line("2"), None);
    assert_eq!(session.on_left(true), None);
    assert_eq!(session.state(), SessionState::ListingGuilds);

    session.on_guilds(vec![guild("1", "G1")]);
    assert_eq!(session.on_reply(&answered(204, "")), None);
    assert_eq!(session.on_left(true), None);
    assert_eq!(session.on_guilds(vec![guild("2", "G2")]), None);
    assert_eq!(session.state(), SessionState::ConfirmingGuild(0));
    assert_eq!(session.current_guild(), Some(guild("1", "G1")));

    session.on_line("y");
    assert_eq!(session.on_line("n"), None);
    assert_eq!(session.on_guilds(vec![guild("2", "G2")]), None);
    assert_eq!(session.state(), SessionState::ConfirmingGuild(0));
    assert_eq!(
        session.awaited(),
        send(Method::Delete, "https://discord.com/api/v10/users/@me/guilds/1", "abc")
    );

    session.on_left(true);
    session.on_line("2");
    assert_eq!(session.on_line("1"), None);
    assert_eq!(session.on_reply(&answered(200, "[]")), None);
    assert_eq!(session.on_guilds(Vec::new()), None);
    assert_eq!(session.on_left(false), None);
    assert_eq!(session.state(), SessionState::Exiting);
}

#[test]
fn guilds_and_outcomes_can_be_handed_in_directly() {
    let mut session = opened("abc");
    session.on_input("1");
    assert_eq!(session.on_guilds(Vec::new()), step(Some(Notice::NoGuilds), ask_menu()));
    session.on_input("1");
    assert_eq!(
        session.on_guilds(vec![guild("1", "G1"), guild("", "nameless")]),
        step(None, ask_guild("G1"))
    );
    session.on_input("y");
    assert_eq!(
        session.on_left(false),
        step(Some(Notice::LeaveFailed("G1".to_string())), ask_guild("nameless"))
    );
    assert_eq!(
        session.on_input("y"),
        step(None, send(Method::Delete, "https://discord.com/api/v10/users/@me/guilds/", "abc"))
    );
    assert_eq!(
        session.on_left(true),
        step(Some(Notice::Left("nameless".to_string())), ask_menu())
    );
}

#[test]
fn prompts_and_notices_have_their_words() {
    assert_eq!(Prompt::Menu.text(), "What would you like to do?\n1. Mass leave guilds\n2. Exit");
    assert_eq!(
        Prompt::Confirm("G1".to_string()).text(),
        "Would you like to leave guild G1 (y/n)?"
    );
    assert_eq!(Notice::InvalidInput.text(), "Invalid input! Please try again.");
    assert_eq!(Notice::NoGuilds.text(), "No guilds found.");
    assert_eq!(Notice::Left("G1".to_string()).text(), "Successfully left guild G1!");
    assert_eq!(Notice::LeaveFailed("G1".to_string()).text(), "Failed to leave guild G1!");
    assert_eq!(Notice::Skipped("G1".to_string()).text(), "Skipped leaving guild G1.");
    assert_eq!(Notice::Skipped(String::new()).text(), "Skipped leaving guild .");
}
