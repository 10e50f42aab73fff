use luxamor::clock::Timestamp;
use luxamor::db_structs::pings::{Ping, Thought};
use luxamor::db_structs::users::{DbError, User};
use luxamor::helpers::HaasError;
use luxamor::routes::user::{find, ping_check, ping_sent, ping_stored, ping_wait, routes, LinkContext, RateLimitGuard};
use luxamor::settings::Settings;
use luxamor::web::{FlashKind, Method, Status};

fn settings(timeout: Option<i64>) -> Settings {
    Settings { link_len: None, haas_url: None, haas_key: None, ping_timeout: timeout, pre_shared_key: None, admin_name: None }
}

fn at(secs: i64) -> Timestamp {
    Timestamp { secs, nanos: 0 }
}

fn pinged_at(secs: i64) -> Ping {
    Ping::insert_row(Thought { color: "#b00b69".to_string() }, "abc".to_string(), at(secs))
}

fn someone() -> Vec<User> {
    vec![User { id: Some(1), name: "Ann".to_string(), link: Some("abc".to_string()), enabled: true }]
}

#[test]
fn ping_through_unknown_link_is_not_found() {
    let r = ping_check(&Thought { color: "#b00b69".to_string() }, &vec![]);
    assert_eq!(r, Err((Status::NotFound, "Invalid link".to_string())));
}

#[test]
fn ping_with_bad_colour_is_bad_request() {
    let r = ping_check(&Thought { color: "blue".to_string() }, &someone());
    assert_eq!(r, Err((Status::BadRequest, "That's not a color, wha? (try #b00b69)".to_string())));
    assert_eq!(Status::BadRequest.code(), 400);
}

#[test]
fn good_ping_passes_checks() {
    assert_eq!(ping_check(&Thought { color: "#b00b69".to_string() }, &someone()), Ok(()));
}

#[test]
fn first_ping_may_be_sent() {
    assert!(ping_wait("abc", &vec![], &at(0), &settings(None)).is_none());
}

#[test]
fn second_ping_within_timeout_waits() {
    let f = ping_wait("abc", &vec![pinged_at(1000)], &at(1300), &settings(None)).unwrap();
    assert_eq!(f.kind, FlashKind::Error);
    assert_eq!(f.message, "Last ping was less than 5 minutes ago, please wait");
    assert_eq!(f.redirect.location, "/user/abc");
}

#[test]
fn ping_after_timeout_may_be_sent() {
    assert!(ping_wait("abc", &vec![pinged_at(1000)], &at(1301), &settings(None)).is_none());
    let just_after = Timestamp { secs: 1300, nanos: 1 };
    assert!(ping_wait("abc", &vec![pinged_at(1000)], &just_after, &settings(None)).is_none());
}

#[test]
fn configured_timeout_is_used() {
    let s = settings(Some(60));
    let f = ping_wait("xyz", &vec![pinged_at(1000)], &at(1030), &s).unwrap();
    assert_eq!(f.message, "Last ping was less than 1 minutes ago, please wait");
    assert_eq!(f.redirect.location, "/user/xyz");
    assert!(ping_wait("xyz", &vec![pinged_at(1000)], &at(1061), &s).is_none());
    let s = settings(Some(59));
    let f = ping_wait("xyz", &vec![pinged_at(1000)], &at(1010), &s).unwrap();
    assert_eq!(f.message, "Last ping was less than 0 minutes ago, please wait");
}

#[test]
fn negative_timeout_message() {
    let s = settings(Some(-120));
    // a ping in the future (clock moved back) still waits when the elapsed time is below the timeout
    let f = ping_wait("a", &vec![pinged_at(1000)], &at(0), &s).unwrap();
    assert_eq!(f.message, "Last ping was less than -2 minutes ago, please wait");
}

#[test]
fn ping_without_instant_counts_from_the_epoch() {
    let mut p = pinged_at(0);
    p.timestamp = None;
    assert!(ping_wait("abc", &vec![p.clone()], &at(301), &settings(None)).is_none());
    assert!(ping_wait("abc", &vec![p], &at(300), &settings(None)).is_some());
}

#[test]
fn stored_and_sent_messages() {
    assert!(ping_stored("abc", Ok(1)).is_none());
    let f = ping_stored("abc", Err(DbError { message: "x".to_string() })).unwrap();
    assert_eq!((f.kind, f.message.as_str(), f.redirect.location.as_str()), (FlashKind::Error, "Ping could not be sent due to an internal error.", "/user/abc"));
    let f = ping_sent("abc", Ok(()));
    assert_eq!((f.kind, f.message.as_str(), f.redirect.location.as_str()), (FlashKind::Success, "Ping sent", "/user/abc"));
    let f = ping_sent("abc", Err(HaasError::Unreachable));
    assert_eq!(
        (f.kind, f.message.as_str()),
        (FlashKind::Error, "Ping could not be sent due to an Home Assistant API error.")
    );
}

#[test]
fn find_outcomes() {
    assert!(matches!(find(Err(DbError { message: "x".to_string() })), Err(Status::InternalServerError)));
    assert!(matches!(find(Ok(vec![])), Err(Status::NotFound)));
    assert_eq!(find(Ok(someone())).ok().unwrap().len(), 1);
    assert_eq!(Status::InternalServerError.code(), 500);
    assert_eq!(Status::NotFound.code(), 404);
}

#[test]
fn link_page_context() {
    let s = Settings { admin_name: Some("Vi".to_string()), ..settings(None) };
    let c = LinkContext::new(someone(), None, vec![pinged_at(5), pinged_at(3)], &s);
    assert_eq!(c.user.len(), 1);
    assert_eq!(c.latest.unwrap().timestamp.unwrap().secs, 5);
    assert_eq!(c.meta, (300_000, Some("Vi".to_string())));
    let c = LinkContext::new(someone(), None, vec![], &settings(Some(60)));
    assert!(c.latest.is_none());
    assert_eq!(c.meta, (60_000, None));
}

#[test]
fn user_routes_and_quota() {
    let r = routes();
    let shown: Vec<(Method, &str, &str)> = r.iter().map(|x| (x.method, x.uri.as_str(), x.name.as_str())).collect();
    assert_eq!(shown, vec![(Method::Get, "/<link>", "find"), (Method::Post, "/<link>", "ping")]);
    assert_eq!(RateLimitGuard::quota().per_minute, 100);
}

#[test]
fn inserted_ping_row() {
    let p = pinged_at(42);
    assert_eq!(p.id, None);
    assert_eq!(p.origin.as_deref(), Some("abc"));
    assert_eq!(p.color, "#b00b69");
    assert_eq!(p.timestamp.unwrap().secs, 42);
    let d = Ping::default();
    assert!(d.id.is_none() && d.timestamp.is_none() && d.origin.is_none() && d.color.is_empty());
}

use luxamor::routes::user::{ping, ping_guarded, PingNext};

#[test]
fn ping_steps_in_order() {
    let good = Thought { color: "#b00b69".to_string() };
    let bad = Thought { color: "not a color".to_string() };
    let s = settings(None);
    match ping("abc", &good, &vec![], &vec![], &at(0), &s) {
        PingNext::Reply(Err((st, m))) => assert_eq!((st, m.as_str()), (Status::NotFound, "Invalid link")),
        _ => panic!("expected not found"),
    }
    match ping("abc", &bad, &vec![], &someone(), &at(0), &s) {
        PingNext::Reply(Err((st, _))) => assert_eq!(st, Status::BadRequest),
        _ => panic!("expected bad request"),
    }
    // ten minutes after the last ping: stored
    assert!(matches!(ping("abc", &good, &vec![pinged_at(1000)], &someone(), &at(1600), &s), PingNext::Store));
    // two minutes after: told to wait
    match ping("abc", &good, &vec![pinged_at(1000)], &someone(), &at(1120), &s) {
        PingNext::Reply(Ok(f)) => {
            assert_eq!(f.message, "Last ping was less than 5 minutes ago, please wait");
            assert_eq!(f.redirect.location, "/user/abc");
        }
        _ => panic!("expected wait"),
    }
}

#[test]
fn ping_guarded_stops_only_at_an_unusable_timeout() {
    let good = Thought { color: "#b00b69".to_string() };
    let bad = Thought { color: "blue".to_string() };
    let huge = settings(Some(i64::MAX));
    assert!(ping_guarded("abc", &good, &vec![], &someone(), &at(0), &huge).is_none());
    assert!(matches!(ping_guarded("abc", &bad, &vec![], &someone(), &at(0), &huge), Some(PingNext::Reply(Err(_)))));
    assert!(matches!(ping_guarded("abc", &good, &vec![], &vec![], &at(0), &huge), Some(PingNext::Reply(Err(_)))));
    assert!(matches!(ping_guarded("abc", &good, &vec![], &someone(), &at(0), &settings(None)), Some(PingNext::Store)));
}

#[test]
fn stored_pings_stay_apart() {
    // store pings through one link as the steps allow, one attempt every minute
    let good = Thought { color: "#fc0".to_string() };
    let s = settings(None);
    let mut table: Vec<Ping> = vec![];
    for minute in 0..30i64 {
        let now = at(minute * 60);
        let latest: Vec<Ping> = table.last().cloned().into_iter().collect();
        if let PingNext::Store = ping("abc", &good, &latest, &someone(), &now, &s) {
            table.push(Ping::insert_row(good.clone(), "abc".to_string(), now));
        }
    }
    assert_eq!(table.len(), 5);
    for w in table.windows(2) {
        assert!(w[1].timestamp.unwrap().secs - w[0].timestamp.unwrap().secs > 300);
    }
}
