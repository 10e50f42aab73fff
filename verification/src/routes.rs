//! The request handlers' decisions. This module holds the first handlers of
//! the service (links of eight characters, five minutes between pings, no
//! sign-in); `admin` and `user` hold the current ones.

pub mod admin;
pub mod user;

pub use crate::routes::admin::{delete, new_outcome, toggle, Context};
pub use crate::routes::user::{ping_sent, ping_stored};

use vstd::prelude::*;
use vstd::string::*;
use crate::clock::Timestamp;
use crate::db_structs::pings::{Ping, Thought};
use crate::db_structs::users::{DbError, NewUser, User};
use crate::helpers::{base59, hex_color, new_link, valid_hex};
use crate::routes::admin::first_of;
use crate::routes::user::{ping_window_open, pings_wf, user_page, user_page_redirect, window_open};
use crate::web::{Flash, FlashKind, Redirect};

verus! {

/// The length of the links that the first handlers make.
pub const FIRST_LINK_LEN: usize = 8;

/// The seconds between two pings in the first handlers: five minutes.
pub const FIRST_PING_TIMEOUT: i64 = 300;

/// The person that the form asks to add, with a fresh link of eight
/// characters; or the message that a nameless person cannot be added.
pub fn new(user_form: NewUser) -> (r: Result<User, Flash>)
    ensures
        user_form.name@.len() == 0 <==> r is Err,
        r matches Err(f) ==> f.says(FlashKind::Error, "/admin"@, "Name cannot be empty."@),
        r matches Ok(u) ==> {
            &&& u.id is None
            &&& u.name == user_form.name
            &&& u.enabled
            &&& u.link is Some
            &&& u.link.unwrap()@.len() == FIRST_LINK_LEN
            &&& forall|i: int| 0 <= i < u.link.unwrap()@.len() ==> base59().contains(#[trigger] u.link.unwrap()@[i])
        },
{
    if user_form.name.as_str().is_empty() {
        Err(Flash::error(Redirect::to("/admin"), "Name cannot be empty."))
    } else {
        let link = new_link(FIRST_LINK_LEN);
        Ok(User::insert_row(user_form, link))
    }
}

/// The people under a requested link, or back to the administrator page when
/// they cannot be read.
pub fn find(users: Result<Vec<User>, DbError>) -> (r: Result<Vec<User>, Redirect>)
    ensures
        users matches Ok(u) ==> (r matches Ok(v) && v@ == u@),
        users is Err ==> (r matches Err(d) && d.location@ == "/admin"@),
{
    match users {
        Ok(l) => Ok(l),
        Err(_) => Err(Redirect::to("/admin")),
    }
}

/// What the page of a link showed: its people, a message and the latest ping.
pub struct LinkContext {
    pub user: Vec<User>,
    pub flash: Option<(String, String)>,
    pub latest: Option<Ping>,
}

impl LinkContext {
    /// The page of a link whose people are `user`, whose latest pings are
    /// `latest` (newest first).
    pub fn new(user: Vec<User>, flash: Option<(String, String)>, latest: Vec<Ping>) -> (r: LinkContext)
        ensures
            r.user@ == user@,
            r.flash == flash,
            r.latest == first_of(latest@),
    {
        let first = if latest.len() > 0 { Some(latest[0].clone()) } else { None };
        LinkContext { user, flash, latest: first }
    }
}

/// Whether a ping through `link` with `thought`, at `now`, must be turned back:
/// `None` when it may be stored and sent; otherwise the message, for a colour
/// that the lights cannot show or for a ping within five minutes of the last.
pub fn ping(link: &str, thought: &Thought, latest: &Vec<Ping>, now: &Timestamp) -> (r: Option<Flash>)
    requires
        now.wf(),
        pings_wf(latest@),
    ensures
        hex_color(thought.color@) is None ==> (r matches Some(f)
            && f.says(FlashKind::Error, user_page(link@), "That's not a color, wha?"@)),
        hex_color(thought.color@) is Some ==> (r is None <==> window_open(latest@, *now, FIRST_PING_TIMEOUT)),
        hex_color(thought.color@) is Some && r is Some ==> (r matches Some(f)
            && f.says(FlashKind::Error, user_page(link@), "Last ping was less than 5 minutes ago, please wait"@)),
{
    if !valid_hex(thought.color.as_str()) {
        return Some(Flash::error(user_page_redirect(link), "That's not a color, wha?"));
    }
    if ping_window_open(latest, now, FIRST_PING_TIMEOUT) {
        None
    } else {
        Some(Flash::error(user_page_redirect(link), "Last ping was less than 5 minutes ago, please wait"))
    }
}

} // verus!
