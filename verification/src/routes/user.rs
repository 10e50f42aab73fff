//! The pages of a person's invitation link: the page itself, and sending a
//! ping through it.

use vstd::prelude::*;
use vstd::string::*;
use crate::clock::{elapsed_nanos, leap_adjustment, more_than_seconds_passed, Timestamp, MAX_DELTA_SECS, NANOS_PER_SEC};
use crate::db_structs::pings::{Ping, Thought};
use crate::db_structs::users::{DbError, User};
use crate::helpers::{all_ascii, ascii_hex_color, hex_color, plain_hex_colour, valid_hex, wrong_length_ascii, HaasError};
use crate::routes::admin::first_of;
use crate::settings::Settings;
use crate::text::{i64_to_decimal, signed_decimal};
use crate::web::{Flash, FlashKind, Method, Redirect, Route, Status};

verus! {

/// How many requests per minute a visitor may make to the rate-limited pages.
pub struct Quota {
    pub per_minute: u32,
}

/// The rate limit of the sign-in form, the latest-ping query and the link pages.
pub struct RateLimitGuard;

impl RateLimitGuard {
    /// A hundred requests per minute, whatever the method and route.
    pub fn quota() -> (r: Quota)
        ensures
            r.per_minute == 100,
    {
        Quota { per_minute: 100 }
    }
}

/// The page of the link `link`.
pub open spec fn user_page(link: Seq<char>) -> Seq<char> {
    "/user/"@ + link
}

/// A redirect to the page of the link `link`.
pub fn user_page_redirect(link: &str) -> (r: Redirect)
    ensures
        r.location@ == user_page(link@),
        r.location@.len() == 6 + link@.len(),
        r.location@.subrange(6, r.location@.len() as int) == link@,
{
    let mut location = String::from_str("/user/");
    location.append(link);
    proof {
        law_user_page_keeps_whole_link(link@);
    }
    Redirect { location }
}

/// Whether every ping row carries an instant that chrono can hold.
pub open spec fn pings_wf(rows: Seq<Ping>) -> bool {
    forall|i: int| 0 <= i < rows.len() ==> ((#[trigger] rows[i]).timestamp matches Some(t) ==> t.wf())
}

/// The instant of the latest ping among `latest` (the query's rows, newest
/// first); the epoch when there is none or it has no instant.
pub open spec fn last_ping_time(latest: Seq<Ping>) -> Timestamp {
    if latest.len() > 0 && latest[0].timestamp is Some {
        latest[0].timestamp.unwrap()
    } else {
        Timestamp { secs: 0, nanos: 0 }
    }
}

/// Whether a new ping may be sent at `now`: there was no ping through the
/// link yet, or more than `timeout` seconds passed since the latest one.
pub open spec fn window_open(latest: Seq<Ping>, now: Timestamp, timeout: i64) -> bool {
    elapsed_nanos(now, last_ping_time(latest)) > timeout * NANOS_PER_SEC || latest.len() == 0
}

/// Whether a new ping may be sent at `now`, given the latest ping through the
/// link (`latest`: the query's rows, newest first).
pub fn ping_window_open(latest: &Vec<Ping>, now: &Timestamp, timeout: i64) -> (r: bool)
    requires
        now.wf(),
        pings_wf(latest@),
        -MAX_DELTA_SECS <= timeout <= MAX_DELTA_SECS,
    ensures
        r == window_open(latest@, *now, timeout),
{
    let then = if latest.len() > 0 {
        match latest[0].timestamp {
            Some(t) => t,
            None => Timestamp::epoch(),
        }
    } else {
        Timestamp::epoch()
    };
    proof {
        if latest@.len() > 0 {
            assert(pings_wf(latest@));
            let row = latest@[0];
            assert(row.timestamp matches Some(t) ==> t.wf());
        }
    }
    more_than_seconds_passed(now, &then, timeout) || latest.len() == 0
}

/// The whole minutes in `secs` seconds, rounded toward zero as integer division does.
pub open spec fn whole_minutes(secs: int) -> int {
    if secs >= 0 { secs / 60 } else { -((-secs) / 60) }
}

fn minutes_of(secs: i64) -> (r: i64)
    ensures
        r == whole_minutes(secs as int),
{
    if secs >= 0 {
        secs / 60
    } else {
        let m: i128 = (0i128 - (secs as i128)) / 60;
        (0i128 - m) as i64
    }
}

/// The reason given for a ping that comes too early.
pub open spec fn wait_message(timeout: i64) -> Seq<char> {
    "Last ping was less than "@ + signed_decimal(whole_minutes(timeout as int)) + " minutes ago, please wait"@
}

/// The first checks of a ping through `link`: the link must belong to someone
/// (`link_users`: the people found under it) and the colour must be one that the
/// lights can show.
pub fn ping_check(thought: &Thought, link_users: &Vec<User>) -> (r: Result<(), (Status, String)>)
    ensures
        link_users@.len() == 0 ==> (r matches Err(e) && e.0 == Status::NotFound && e.1@ == "Invalid link"@),
        link_users@.len() > 0 && hex_color(thought.color@) is None ==> (r matches Err(e) && e.0 == Status::BadRequest
            && e.1@ == "That's not a color, wha? (try #b00b69)"@),
        r is Ok <==> link_users@.len() > 0 && hex_color(thought.color@) is Some,
        link_users@.len() > 0 && all_ascii(thought.color@) ==> (r is Ok <==> ascii_hex_color(thought.color@) is Some),
        link_users@.len() > 0 && plain_hex_colour(thought.color@) ==> r is Ok,
        link_users@.len() > 0 && wrong_length_ascii(thought.color@) ==> (r matches Err(e) && e.0 == Status::BadRequest),
{
    if link_users.len() == 0 {
        return Err((Status::NotFound, String::from_str("Invalid link")));
    }
    if !valid_hex(thought.color.as_str()) {
        return Err((Status::BadRequest, String::from_str("That's not a color, wha? (try #b00b69)")));
    }
    Ok(())
}

/// Whether a ping through `link` at `now` must wait: `None` when it may be
/// stored and sent, otherwise the message that the last ping was too recent.
pub fn ping_wait(link: &str, latest: &Vec<Ping>, now: &Timestamp, settings: &Settings) -> (r: Option<Flash>)
    requires
        now.wf(),
        pings_wf(latest@),
        -MAX_DELTA_SECS <= settings.ping_timeout() <= MAX_DELTA_SECS,
    ensures
        r is None <==> window_open(latest@, *now, settings.ping_timeout()),
        r matches Some(f) ==> f.says(FlashKind::Error, user_page(link@), wait_message(settings.ping_timeout())),
{
    let timeout = settings.ping_timeout();
    if ping_window_open(latest, now, timeout) {
        None
    } else {
        let mut message = String::from_str("Last ping was less than ");
        let minutes = i64_to_decimal(minutes_of(timeout));
        message.append(minutes.as_str());
        message.append(" minutes ago, please wait");
        Some(Flash { kind: FlashKind::Error, message, redirect: user_page_redirect(link) })
    }
}

/// What follows storing a ping through `link`: `None` when it was stored and the
/// home automation server is to be told, otherwise the message that it failed.
pub fn ping_stored(link: &str, stored: Result<usize, DbError>) -> (r: Option<Flash>)
    ensures
        stored is Ok <==> r is None,
        r matches Some(f) ==> f.says(FlashKind::Error, user_page(link@), "Ping could not be sent due to an internal error."@),
{
    match stored {
        Ok(_) => None,
        Err(_) => Some(Flash::error(user_page_redirect(link), "Ping could not be sent due to an internal error.")),
    }
}

/// The message after the home automation server was told of a ping through `link`.
pub fn ping_sent(link: &str, sent: Result<(), HaasError>) -> (r: Flash)
    ensures
        sent is Ok ==> r.says(FlashKind::Success, user_page(link@), "Ping sent"@),
        sent is Err ==> r.says(FlashKind::Error, user_page(link@), "Ping could not be sent due to an Home Assistant API error."@),
{
    match sent {
        Ok(_) => Flash::success(user_page_redirect(link), "Ping sent"),
        Err(_) => Flash::error(user_page_redirect(link), "Ping could not be sent due to an Home Assistant API error."),
    }
}

/// What a ping request leads to once the newest ping through its link and the
/// people under its link are known: an answer right away, or storing the ping
/// (then `ping_stored` and `ping_sent` give the answer).
pub enum PingNext {
    Reply(Result<Flash, (Status, String)>),
    Store,
}

/// Whether `next` is the step that a ping through `link` with `thought` takes at
/// `now`: an unknown link is not found, an unreadable colour is a bad request,
/// a ping within `timeout` seconds of the newest one is told to wait, and any
/// other ping is stored.
pub open spec fn ping_step_is(next: PingNext, link: Seq<char>, thought: Thought, latest: Seq<Ping>,
    link_users: Seq<User>, now: Timestamp, timeout: i64) -> bool
{
    if link_users.len() == 0 {
        next matches PingNext::Reply(Err(e)) && e.0 == Status::NotFound && e.1@ == "Invalid link"@
    } else if hex_color(thought.color@) is None {
        next matches PingNext::Reply(Err(e)) && e.0 == Status::BadRequest
            && e.1@ == "That's not a color, wha? (try #b00b69)"@
    } else if window_open(latest, now, timeout) {
        next is Store
    } else {
        next matches PingNext::Reply(Ok(f)) && f.says(FlashKind::Error, user_page(link), wait_message(timeout))
    }
}

/// The step that a ping through `link` with `thought` takes at `now`, given the
/// newest ping through the link (`latest`, the query's rows) and the people
/// under it (`link_users`). The checks come in this order: link, colour, time.
pub fn ping(link: &str, thought: &Thought, latest: &Vec<Ping>, link_users: &Vec<User>, now: &Timestamp, settings: &Settings) -> (r: PingNext)
    requires
        now.wf(),
        pings_wf(latest@),
        link_users@.len() > 0 && hex_color(thought.color@) is Some ==> -MAX_DELTA_SECS <= settings.ping_timeout() <= MAX_DELTA_SECS,
    ensures
        ping_step_is(r, link@, *thought, latest@, link_users@, *now, settings.ping_timeout()),
{
    match ping_check(thought, link_users) {
        Err(e) => PingNext::Reply(Err(e)),
        Ok(()) => match ping_wait(link, latest, now, settings) {
            Some(f) => PingNext::Reply(Ok(f)),
            None => PingNext::Store,
        },
    }
}

/// Whether `timeout` is a number of seconds that chrono's `TimeDelta::seconds` accepts.
pub open spec fn timeout_in_range(timeout: i64) -> bool {
    -MAX_DELTA_SECS <= timeout <= MAX_DELTA_SECS
}

/// The step of a ping as `ping` gives it; `None` where the configured timeout is
/// out of chrono's range and the ping gets as far as the time check, where the
/// service stops.
pub fn ping_guarded(link: &str, thought: &Thought, latest: &Vec<Ping>, link_users: &Vec<User>, now: &Timestamp, settings: &Settings) -> (r: Option<PingNext>)
    requires
        now.wf(),
        pings_wf(latest@),
    ensures
        r is None <==> (link_users@.len() > 0 && hex_color(thought.color@) is Some && !timeout_in_range(settings.ping_timeout())),
        r matches Some(next) ==> ping_step_is(next, link@, *thought, latest@, link_users@, *now, settings.ping_timeout()),
{
    let timeout = settings.ping_timeout();
    if -MAX_DELTA_SECS <= timeout && timeout <= MAX_DELTA_SECS {
        Some(ping(link, thought, latest, link_users, now, settings))
    } else {
        match ping_check(thought, link_users) {
            Err(e) => Some(PingNext::Reply(Err(e))),
            Ok(()) => None,
        }
    }
}

/// An instant as one number of nanoseconds since the epoch.
pub open spec fn instant_nanos(t: Timestamp) -> int {
    t.secs * NANOS_PER_SEC + t.nanos
}

/// Whether the ping `p` was sent through the link `link`.
pub open spec fn from_link(p: Ping, link: Seq<char>) -> bool {
    p.origin matches Some(o) && o@ == link
}

/// Whether two pings were sent through the same link.
pub open spec fn same_link(a: Ping, b: Ping) -> bool {
    a.origin is Some && b.origin is Some && a.origin.unwrap()@ == b.origin.unwrap()@
}

/// Whether every row of the table holds an instant that chrono can hold and that
/// is not a leap second.
pub open spec fn plain_times(table: Seq<Ping>) -> bool {
    forall|i: int| 0 <= i < table.len() ==> {
        &&& (#[trigger] table[i]).timestamp is Some
        &&& table[i].timestamp.unwrap().wf()
        &&& !table[i].timestamp.unwrap().is_leap()
    }
}

/// Whether any two pings through one link, in the order in which they were
/// stored, lie more than `timeout` seconds apart.
pub open spec fn pings_spaced(table: Seq<Ping>, timeout: i64) -> bool {
    forall|i: int, j: int| 0 <= i < j < table.len() && same_link(#[trigger] table[i], #[trigger] table[j])
        ==> elapsed_nanos(table[j].timestamp.unwrap(), table[i].timestamp.unwrap()) > timeout * NANOS_PER_SEC
}

/// Whether `latest` is what the query for the newest ping through `link` gives
/// on `table`: nothing when no ping went through the link, else one of its pings
/// (a row of the table) that no other of its pings is later than.
pub open spec fn newest_of(table: Seq<Ping>, link: Seq<char>, latest: Seq<Ping>) -> bool {
    &&& latest.len() <= 1
    &&& latest.len() == 0 <==> (forall|i: int| 0 <= i < table.len() ==> !from_link(#[trigger] table[i], link))
    &&& latest.len() == 1 ==> {
        &&& exists|k: int| 0 <= k < table.len() && table[k] == latest[0]
        &&& from_link(latest[0], link)
        &&& forall|i: int| 0 <= i < table.len() && from_link(#[trigger] table[i], link)
            ==> instant_nanos(table[i].timestamp.unwrap()) <= instant_nanos(latest[0].timestamp.unwrap())
    }
}

/// The rate limit holds of the whole table: if any two pings through one link
/// were more than the timeout apart, they still are after a ping is stored that
/// `ping` let through (its window was open on the newest ping of its link), as
/// long as the clock never goes back and no instant is a leap second (chrono
/// counts leap seconds so that a difference to an older ping can come out
/// smaller than one to a newer ping).
pub proof fn law_pings_stay_spaced(table: Seq<Ping>, link: Seq<char>, latest: Seq<Ping>, now: Timestamp, stored: Ping, timeout: i64)
    requires
        plain_times(table),
        pings_spaced(table, timeout),
        newest_of(table, link, latest),
        now.wf() && !now.is_leap(),
        forall|i: int| 0 <= i < table.len() ==> instant_nanos((#[trigger] table[i]).timestamp.unwrap()) <= instant_nanos(now),
        window_open(latest, now, timeout),
        from_link(stored, link),
        stored.timestamp is Some,
        stored.timestamp.unwrap().wf() && !stored.timestamp.unwrap().is_leap(),
        instant_nanos(now) <= instant_nanos(stored.timestamp.unwrap()),
    ensures
        plain_times(table.push(stored)),
        pings_spaced(table.push(stored), timeout),
{
    let next = table.push(stored);
    let t = stored.timestamp.unwrap();
    assert forall|i: int| 0 <= i < next.len() implies {
        &&& (#[trigger] next[i]).timestamp is Some
        &&& next[i].timestamp.unwrap().wf()
        &&& !next[i].timestamp.unwrap().is_leap()
    } by {
        if i < table.len() {
            assert(next[i] == table[i]);
        }
    }
    assert forall|i: int, j: int| 0 <= i < j < next.len() && same_link(#[trigger] next[i], #[trigger] next[j])
        implies elapsed_nanos(next[j].timestamp.unwrap(), next[i].timestamp.unwrap()) > timeout * NANOS_PER_SEC by {
        if j < table.len() {
            assert(next[i] == table[i] && next[j] == table[j]);
        } else {
            assert(next[i] == table[i]);
            assert(next[j] == stored);
            let ti = table[i].timestamp.unwrap();
            assert(from_link(table[i], link));
            assert(latest.len() == 1);
            let newest = latest[0].timestamp.unwrap();
            assert(instant_nanos(ti) <= instant_nanos(newest));
            assert(last_ping_time(latest) == newest);
            let k = choose|k: int| 0 <= k < table.len() && table[k] == latest[0];
            assert(table[k].timestamp.unwrap() == newest);
            assert(newest.wf() && !newest.is_leap());
            assert(elapsed_nanos(now, newest) > timeout * NANOS_PER_SEC);
            assert(leap_adjustment(now, newest) == 0);
            assert(leap_adjustment(t, ti) == 0);
            assert(elapsed_nanos(now, newest) == instant_nanos(now) - instant_nanos(newest));
            assert(elapsed_nanos(t, ti) == instant_nanos(t) - instant_nanos(ti));
        }
    }
}

/// Whether every stored ping names a link and carries a colour that the
/// lights can show.
pub open spec fn rows_readable(table: Seq<Ping>) -> bool {
    forall|i: int| 0 <= i < table.len() ==> (#[trigger] table[i]).origin is Some && hex_color(table[i].color@) is Some
}

/// Storing a ping that `ping` let through keeps every stored ping readable: the
/// new row names its link, a link that a person holds (`link_users` are the
/// people the query found under it), and carries the colour that was checked.
pub proof fn law_stored_pings_readable(table: Seq<Ping>, link: Seq<char>, thought: Thought, latest: Seq<Ping>,
    link_users: Seq<User>, now: Timestamp, timeout: i64, next: PingNext, stored: Ping)
    requires
        rows_readable(table),
        ping_step_is(next, link, thought, latest, link_users, now, timeout),
        next is Store,
        forall|k: int| 0 <= k < link_users.len() ==> ((#[trigger] link_users[k]).link matches Some(l) && l@ == link),
        from_link(stored, link),
        stored.color == thought.color,
    ensures
        rows_readable(table.push(stored)),
        exists|k: int| 0 <= k < link_users.len() && ((#[trigger] link_users[k]).link matches Some(l) && l@ == stored.origin.unwrap()@),
{
    let next_table = table.push(stored);
    assert forall|i: int| 0 <= i < next_table.len() implies (#[trigger] next_table[i]).origin is Some
        && hex_color(next_table[i].color@) is Some by {
        if i < table.len() {
            assert(next_table[i] == table[i]);
        }
    }
    assert(link_users[0].link matches Some(l) && l@ == link);
    assert(stored.origin.unwrap()@ == link);
}

/// The page a ping through a link goes back to is `/user/` followed by the
/// whole link, whatever its length.
pub proof fn law_user_page_keeps_whole_link(link: Seq<char>)
    ensures
        user_page(link).len() == 6 + link.len(),
        user_page(link).subrange(0, 6) == "/user/"@,
        user_page(link).subrange(6, user_page(link).len() as int) == link,
{
    reveal_strlit("/user/");
    assert(user_page(link).subrange(0, 6) =~= "/user/"@);
    assert(user_page(link).subrange(6, user_page(link).len() as int) =~= link);
}

/// A ping through a link within the configured timeout of the newest ping through
/// it (the configured number of seconds, or 300 when none is configured) is
/// never stored.
pub proof fn law_ping_within_configured_timeout_not_stored(next: PingNext, link: Seq<char>, thought: Thought,
    latest: Seq<Ping>, link_users: Seq<User>, now: Timestamp, settings: Settings, timeout: i64)
    requires
        ping_step_is(next, link, thought, latest, link_users, now, settings.spec_ping_timeout()),
        settings.ping_timeout == Some(timeout) || (settings.ping_timeout is None && timeout == 300),
        latest.len() > 0,
        elapsed_nanos(now, last_ping_time(latest)) <= timeout * NANOS_PER_SEC,
    ensures
        !(next is Store),
{
}

/// A ping through a known link with a readable colour, more than the configured
/// timeout after the newest ping through it, is stored.
pub proof fn law_ping_after_configured_timeout_stored(next: PingNext, link: Seq<char>, thought: Thought,
    latest: Seq<Ping>, link_users: Seq<User>, now: Timestamp, settings: Settings, timeout: i64)
    requires
        ping_step_is(next, link, thought, latest, link_users, now, settings.spec_ping_timeout()),
        settings.ping_timeout == Some(timeout) || (settings.ping_timeout is None && timeout == 300),
        link_users.len() > 0,
        hex_color(thought.color@) is Some,
        elapsed_nanos(now, last_ping_time(latest)) > timeout * NANOS_PER_SEC,
    ensures
        next is Store,
{
}

/// A ping stored at some instant blocks every later ping through the same link
/// until more than the timeout has passed.
pub proof fn law_ping_blocks_until_timeout(stored: Ping, now: Timestamp, timeout: i64)
    requires
        stored.timestamp is Some,
        elapsed_nanos(now, stored.timestamp.unwrap()) <= timeout * NANOS_PER_SEC,
    ensures
        !window_open(seq![stored], now, timeout),
{
}

/// Once more than the timeout has passed since the latest ping, the next one
/// may be sent.
pub proof fn law_ping_allowed_after_timeout(stored: Ping, now: Timestamp, timeout: i64)
    requires
        stored.timestamp is Some,
        elapsed_nanos(now, stored.timestamp.unwrap()) > timeout * NANOS_PER_SEC,
    ensures
        window_open(seq![stored], now, timeout),
{
}

/// The first ping through a link is never too early.
pub proof fn law_first_ping_allowed(now: Timestamp, timeout: i64)
    ensures
        window_open(Seq::<Ping>::empty(), now, timeout),
{
}

/// The people under a requested link: "internal error" when they cannot be
/// read, "not found" when the link belongs to nobody.
pub fn find(users: Result<Vec<User>, DbError>) -> (r: Result<Vec<User>, Status>)
    ensures
        users is Err ==> r == Err::<Vec<User>, Status>(Status::InternalServerError),
        users matches Ok(u) ==> (u@.len() == 0 ==> r == Err::<Vec<User>, Status>(Status::NotFound)),
        users matches Ok(u) ==> (u@.len() > 0 ==> (r matches Ok(v) && v@ == u@)),
{
    match users {
        Ok(l) => {
            if l.len() == 0 {
                Err(Status::NotFound)
            } else {
                Ok(l)
            }
        },
        Err(_) => Err(Status::InternalServerError),
    }
}

/// What the page of a link shows: its people, a message, the latest ping
/// through it, the timeout in milliseconds and the administrator's name.
pub struct LinkContext {
    pub user: Vec<User>,
    pub flash: Option<(String, String)>,
    pub latest: Option<Ping>,
    pub meta: (i64, Option<String>),
}

impl LinkContext {
    /// The page of a link whose people are `user`, whose latest pings are
    /// `latest` (newest first).
    pub fn new(user: Vec<User>, flash: Option<(String, String)>, latest: Vec<Ping>, settings: &Settings) -> (r: LinkContext)
        requires
            i64::MIN <= settings.ping_timeout() * 1000 <= i64::MAX,
        ensures
            r.user@ == user@,
            r.flash == flash,
            r.latest == first_of(latest@),
            r.meta.0 == settings.ping_timeout() * 1000,
            r.meta.1 == settings.admin_name,
    {
        let first = if latest.len() > 0 { Some(latest[0].clone()) } else { None };
        let admin_name = match &settings.admin_name {
            Some(n) => Some(n.clone()),
            None => None,
        };
        LinkContext { user, flash, latest: first, meta: (settings.ping_timeout() * 1000, admin_name) }
    }
}

/// The routes of the link pages below `/user`: the page and sending a ping.
pub fn routes() -> (r: Vec<Route>)
    ensures
        r@.len() == 2,
        r@[0].is(Method::Get, "/<link>"@, "find"@),
        r@[1].is(Method::Post, "/<link>"@, "ping"@),
{
    let mut r: Vec<Route> = Vec::new();
    r.push(Route::new(Method::Get, "/<link>", "find"));
    r.push(Route::new(Method::Post, "/<link>", "ping"));
    r
}

} // verus!
