use discord_manager::http::{Method, Reply, Request, API_BASE, NO_CONTENT};
use discord_manager::leaver::{leave_guild, leave_request};

fn answered(status: u16, body: &str) -> Reply {
    Reply::Answered { status, body: body.as_bytes().to_vec() }
}

#[test]
fn leave_request_names_the_guild() {
    let request = leave_request("abc", "1");
    assert_eq!(request.method, Method::Delete);
    assert_eq!(request.url, "https://discord.com/api/v10/users/@me/guilds/1");
    assert_eq!(request.authorization, "abc");
}

#[test]
fn leave_request_takes_the_identifier_as_it_is() {
    assert_eq!(
        leave_request("t", "81384788765712384").url,
        "https://discord.com/api/v10/users/@me/guilds/81384788765712384"
    );
    assert_eq!(leave_request("t", "").url, "https://discord.com/api/v10/users/@me/guilds/");
    assert_eq!(leave_request("t", "a b").url, "https://discord.com/api/v10/users/@me/guilds/a b");
}

#[test]
fn request_is_the_base_followed_by_the_path() {
    assert_eq!(API_BASE, "https://discord.com/api/v10");
    let request = Request::new(Method::Get, "/x/y", "secret");
    assert_eq!(
        request,
        Request {
            method: Method::Get,
            url: "https://discord.com/api/v10/x/y".to_string(),
            authorization: "secret".to_string(),
        }
    );
    assert_eq!(request.clone(), request);
}

#[test]
fn no_content_means_left() {
    assert_eq!(NO_CONTENT, 204);
    assert!(leave_guild(&answered(204, "")));
    assert!(leave_guild(&answered(204, "ignored")));
}

#[test]
fn ok_with_a_body_means_not_left() {
    assert!(!leave_guild(&answered(200, r#"{"ok":true}"#)));
}

#[test]
fn only_no_content_means_left() {
    for status in 0..=999u16 {
        assert_eq!(leave_guild(&answered(status, "")), status == 204, "status {}", status);
    }
}

#[test]
fn transport_failure_means_not_left() {
    assert!(!leave_guild(&Reply::Failed));
}

#[test]
fn reply_knows_its_status() {
    assert!(answered(200, "").succeeded());
    assert!(answered(299, "").succeeded());
    assert!(!answered(199, "").succeeded());
    assert!(!answered(300, "").succeeded());
    assert!(!Reply::Failed.succeeded());
    assert!(answered(404, "").has_status(404));
    assert!(!answered(404, "").has_status(204));
    assert!(!Reply::Failed.has_status(204));
}
