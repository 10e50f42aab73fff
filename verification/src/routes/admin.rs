//! The administrator's pages: signing in and out, and adding, switching and
//! removing the people who may ping.

use vstd::prelude::*;
use vstd::string::*;
use crate::db_structs::pings::Ping;
use crate::db_structs::users::{DbError, NewUser, User};
use crate::helpers::{base59, new_link};
use crate::settings::Settings;
use crate::web::{CookieJar, Flash, FlashKind, Method, Redirect, Route, Status};

verus! {

/// The name of the private cookie that holds the administrator's password.
pub open spec fn admin_cookie() -> Seq<char> {
    "user_psk"@
}

/// Whether a browser with these private cookies is signed in as the administrator.
pub open spec fn signed_in(cookies: Map<Seq<char>, Seq<char>>) -> bool {
    cookies.contains_key(admin_cookie())
}

/// The sign-in form.
pub struct Login<'r> {
    pub password: &'r str,
}

/// Proof that a request comes from the signed-in administrator: the password
/// stored in their private cookie.
pub struct Admin(String);

impl Admin {
    /// The password that the administrator's cookie holds.
    pub closed spec fn psk(self) -> Seq<char> {
        self.0@
    }

    /// The administrator behind a request: present exactly when the browser holds
    /// the administrator cookie; otherwise the request is passed on as unauthorized.
    pub fn from_request(jar: &CookieJar) -> (r: Result<Admin, Status>)
        ensures
            r is Ok <==> signed_in(jar@),
            r matches Ok(a) ==> a.psk() == jar@[admin_cookie()],
            r matches Err(s) ==> s == Status::Unauthorized,
    {
        match jar.get_private("user_psk") {
            Some(value) => Ok(Admin(value)),
            None => Err(Status::Unauthorized),
        }
    }
}

/// The administrator page for visitors who are not signed in: sent on to the
/// sign-in page.
pub fn no_auth_index() -> (r: Redirect)
    ensures
        r.location@ == "/admin/login"@,
{
    Redirect::to("/admin/login")
}

/// The sign-in page for an administrator who is signed in already: sent on to
/// the administrator page.
pub fn login(_admin: Admin) -> (r: Redirect)
    ensures
        r.location@ == "/admin"@,
{
    Redirect::to("/admin")
}

/// Signs in with `login` against the administrator password `psk`: a right
/// password is stored in the administrator cookie, a wrong one changes nothing.
pub fn post_login(jar: &mut CookieJar, login: &Login, psk: &str) -> (r: Flash)
    ensures
        login.password@ == psk@ ==> {
            &&& final(jar)@ == old(jar)@.insert(admin_cookie(), psk@)
            &&& r.says(FlashKind::Success, "/admin"@, "Successfully logged in"@)
        },
        login.password@ != psk@ ==> {
            &&& final(jar)@ == old(jar)@
            &&& r.says(FlashKind::Error, "/admin/login"@, "Invalid password."@)
        },
{
    let given = String::from_str(login.password);
    let expected = String::from_str(psk);
    if given == expected {
        jar.add_private("user_psk", psk);
        Flash::success(Redirect::to("/admin"), "Successfully logged in")
    } else {
        Flash::error(Redirect::to("/admin/login"), "Invalid password.")
    }
}

/// Signs out: the administrator cookie is removed.
pub fn logout(jar: &mut CookieJar) -> (r: Flash)
    ensures
        final(jar)@ == old(jar)@.remove(admin_cookie()),
        r.says(FlashKind::Success, "/admin/login"@, "Successfully logged out."@),
{
    jar.remove_private("user_psk");
    Flash::success(Redirect::to("/admin/login"), "Successfully logged out.")
}

/// Signing in with the right password makes the browser's next requests the
/// administrator's, holding that password, whatever cookies it had before.
pub proof fn law_login_grants_admin(before: Map<Seq<char>, Seq<char>>, psk: Seq<char>)
    ensures
        signed_in(before.insert(admin_cookie(), psk)),
        before.insert(admin_cookie(), psk)[admin_cookie()] == psk,
{
}

/// After signing out, the browser's requests are no longer the administrator's.
pub proof fn law_logout_revokes_admin(before: Map<Seq<char>, Seq<char>>)
    ensures
        !signed_in(before.remove(admin_cookie())),
{
}

/// Signing out and signing in again gives the same session as signing in.
pub proof fn law_login_after_logout(before: Map<Seq<char>, Seq<char>>, psk: Seq<char>)
    ensures
        before.remove(admin_cookie()).insert(admin_cookie(), psk) == before.insert(admin_cookie(), psk),
{
    assert(before.remove(admin_cookie()).insert(admin_cookie(), psk) =~= before.insert(admin_cookie(), psk));
}

/// The person that the form asks to add, with a fresh link of the configured
/// length; or the message that a nameless person cannot be added.
pub fn new(user_form: NewUser, settings: &Settings) -> (r: Result<User, Flash>)
    requires
        user_form.name@.len() > 0 ==> (settings.link_len() as usize) <= isize::MAX,
    ensures
        user_form.name@.len() == 0 <==> r is Err,
        r matches Err(f) ==> f.says(FlashKind::Error, "/admin"@, "Name cannot be empty."@),
        r matches Ok(u) ==> {
            &&& u.id is None
            &&& u.name == user_form.name
            &&& u.enabled
            &&& u.link is Some
            &&& u.link.unwrap()@.len() == (settings.link_len() as usize)
            &&& forall|i: int| 0 <= i < u.link.unwrap()@.len() ==> base59().contains(#[trigger] u.link.unwrap()@[i])
        },
        r matches Ok(u) ==> (settings.link_len matches Some(v) ==> u.link.unwrap()@.len() == v as usize),
        r matches Ok(u) ==> (settings.link_len is None ==> u.link.unwrap()@.len() == 16),
{
    if user_form.name.as_str().is_empty() {
        Err(Flash::error(Redirect::to("/admin"), "Name cannot be empty."))
    } else {
        let size = settings.link_len() as usize;
        let link = new_link(size);
        Ok(User::insert_row(user_form, link))
    }
}

/// What the administrator is told after adding a person.
pub fn new_outcome(inserted: Result<usize, DbError>) -> (r: Flash)
    ensures
        inserted is Ok ==> r.says(FlashKind::Success, "/admin"@, "User successfully added."@),
        inserted is Err ==> r.says(FlashKind::Error, "/admin"@, "User could not be inserted due an internal error."@),
{
    match inserted {
        Ok(_) => Flash::success(Redirect::to("/admin"), "User successfully added."),
        Err(_) => Flash::error(Redirect::to("/admin"), "User could not be inserted due an internal error."),
    }
}

/// What follows switching a person's link: back to the administrator page, or
/// the page again with the message that it failed.
pub fn toggle(toggled: Result<usize, DbError>) -> (r: Result<Redirect, String>)
    ensures
        toggled is Ok <==> r is Ok,
        r matches Ok(d) ==> d.location@ == "/admin"@,
        r matches Err(m) ==> m@ == "Failed to toggle User."@,
{
    match toggled {
        Ok(_) => Ok(Redirect::to("/admin")),
        Err(_) => Err(String::from_str("Failed to toggle User.")),
    }
}

/// What follows removing a person: a message on the administrator page, or the
/// page again with the message that it failed.
pub fn delete(deleted: Result<usize, DbError>) -> (r: Result<Flash, String>)
    ensures
        deleted is Ok <==> r is Ok,
        r matches Ok(f) ==> f.says(FlashKind::Success, "/admin"@, "User was deleted."@),
        r matches Err(m) ==> m@ == "Failed to delete user."@,
{
    match deleted {
        Ok(_) => Ok(Flash::success(Redirect::to("/admin"), "User was deleted.")),
        Err(_) => Err(String::from_str("Failed to delete user.")),
    }
}

/// The answer to a request for the latest ping: the newest of `latest` (the
/// query's `rows`, newest first), or "not found" when there is none.
pub fn latest(rows: Vec<Ping>) -> (r: Result<(Status, Ping), Status>)
    ensures
        rows@.len() == 0 <==> r is Err,
        r matches Err(s) ==> s == Status::NotFound,
        r matches Ok(p) ==> p.0 == Status::Success && p.1 == rows@[0],
{
    if rows.len() == 0 {
        Err(Status::NotFound)
    } else {
        Ok((Status::Success, rows[0].clone()))
    }
}

/// The first element of a sequence, if it has one.
pub open spec fn first_of<T>(s: Seq<T>) -> Option<T> {
    if s.len() > 0 { Some(s[0]) } else { None }
}

fn first_cloned_ping(v: &Vec<Ping>) -> (r: Option<Ping>)
    ensures
        r == first_of(v@),
{
    if v.len() > 0 { Some(v[0].clone()) } else { None }
}

fn first_cloned_user(v: &Vec<User>) -> (r: Option<User>)
    ensures
        r == first_of(v@),
{
    if v.len() > 0 { Some(v[0].clone()) } else { None }
}

/// What the administrator page shows: a message, the people, and the latest
/// ping with the person who sent it.
pub struct Context {
    pub flash: Option<(String, String)>,
    pub users: Vec<User>,
    pub latest_ping: (Option<Ping>, Option<User>),
}

impl Context {
    /// The page after a failed change: the message `msg` as an error, the people
    /// (none when they cannot be read), and the latest ping without its sender.
    pub fn err(msg: &str, latest: Vec<Ping>, users: Result<Vec<User>, DbError>) -> (r: Context)
        ensures
            r.flash matches Some(f) && f.0@ == "error"@ && f.1@ == msg@,
            users matches Ok(u) ==> r.users@ == u@,
            users is Err ==> r.users@.len() == 0,
            r.latest_ping.0 == first_of(latest@),
            r.latest_ping.1 is None,
    {
        let first = first_cloned_ping(&latest);
        let all = match users {
            Ok(u) => u,
            Err(_) => Vec::new(),
        };
        Context {
            flash: Some((String::from_str("error"), String::from_str(msg))),
            users: all,
            latest_ping: (first, None),
        }
    }

    /// The link whose person sent the latest ping (the first of `latest`), which
    /// the page looks up; none when there is no ping. A latest ping without an
    /// origin stops the page.
    pub fn origin_link(latest: &Vec<Ping>) -> (r: Option<String>)
        requires
            latest@.len() > 0 ==> latest@[0].origin is Some,
        ensures
            latest@.len() == 0 ==> r is None,
            latest@.len() > 0 ==> r == latest@[0].origin,
    {
        if latest.len() == 0 {
            None
        } else {
            match &latest[0].origin {
                Some(o) => Some(o.clone()),
                None => None,
            }
        }
    }

    /// The administrator page: `flash`, the people and the latest ping with its
    /// sender (the first person found under its link), or, when the people cannot
    /// be read, only the message that the database failed.
    pub fn raw(flash: Option<(String, String)>, latest: Vec<Ping>, origin_users: Vec<User>, users: Result<Vec<User>, DbError>) -> (r: Context)
        ensures
            users matches Ok(u) ==> {
                &&& r.flash == flash
                &&& r.users@ == u@
                &&& r.latest_ping.0 == first_of(latest@)
                &&& r.latest_ping.1 == (if latest@.len() > 0 { first_of(origin_users@) } else { None })
            },
            users is Err ==> {
                &&& r.flash matches Some(f) && f.0@ == "error"@ && f.1@ == "Fail to access database."@
                &&& r.users@.len() == 0
                &&& r.latest_ping.0 is None
                &&& r.latest_ping.1 is None
            },
    {
        match users {
            Ok(u) => {
                let first = first_cloned_ping(&latest);
                let origin = if latest.len() > 0 { first_cloned_user(&origin_users) } else { None };
                Context { flash, users: u, latest_ping: (first, origin) }
            },
            Err(_) => Context {
                flash: Some((String::from_str("error"), String::from_str("Fail to access database."))),
                users: Vec::new(),
                latest_ping: (None, None),
            },
        }
    }
}

/// The administrator routes below `/admin`: the page, adding a person,
/// switching a person's link and removing a person.
pub fn routes() -> (r: Vec<Route>)
    ensures
        r@.len() == 4,
        r@[0].is(Method::Get, "/"@, "index"@),
        r@[1].is(Method::Post, "/"@, "new"@),
        r@[2].is(Method::Put, "/<id>"@, "toggle"@),
        r@[3].is(Method::Delete, "/<id>"@, "delete"@),
{
    let mut r: Vec<Route> = Vec::new();
    r.push(Route::new(Method::Get, "/", "index"));
    r.push(Route::new(Method::Post, "/", "new"));
    r.push(Route::new(Method::Put, "/<id>", "toggle"));
    r.push(Route::new(Method::Delete, "/<id>", "delete"));
    r
}

} // verus!
