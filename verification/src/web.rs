//! What a request handler answers: redirects, flash messages, status codes,
//! routes and the private cookies of a browser.

use vstd::prelude::*;
use vstd::string::*;

verus! {

/// An answer that sends the browser to `location`.
pub struct Redirect {
    pub location: String,
}

impl Redirect {
    /// A redirect to `location`.
    pub fn to(location: &str) -> (r: Redirect)
        ensures
            r.location@ == location@,
    {
        Redirect { location: String::from_str(location) }
    }
}

/// The kind of a flash message, which the page shows in its colour.
#[derive(Clone, Copy, Debug, PartialEq, Eq)]
pub enum FlashKind {
    Success,
    Error,
}

impl FlashKind {
    /// The name that the page receives for the kind.
    pub open spec fn spec_name(self) -> Seq<char> {
        match self {
            FlashKind::Success => "success"@,
            FlashKind::Error => "error"@,
        }
    }

    /// The name of the kind, as the page receives it.
    pub fn name(&self) -> (r: String)
        ensures
            r@ == self.spec_name(),
    {
        match self {
            FlashKind::Success => String::from_str("success"),
            FlashKind::Error => String::from_str("error"),
        }
    }
}

/// A redirect that carries a message for the next page.
pub struct Flash {
    pub kind: FlashKind,
    pub message: String,
    pub redirect: Redirect,
}

impl Flash {
    /// A message of success shown after `redirect`.
    pub fn success(redirect: Redirect, message: &str) -> (r: Flash)
        ensures
            r.kind == FlashKind::Success,
            r.message@ == message@,
            r.redirect == redirect,
    {
        Flash { kind: FlashKind::Success, message: String::from_str(message), redirect }
    }

    /// A message of failure shown after `redirect`.
    pub fn error(redirect: Redirect, message: &str) -> (r: Flash)
        ensures
            r.kind == FlashKind::Error,
            r.message@ == message@,
            r.redirect == redirect,
    {
        Flash { kind: FlashKind::Error, message: String::from_str(message), redirect }
    }

    /// Whether this flash sends the browser to `location` with a message of kind
    /// `kind` that reads `message`.
    pub open spec fn says(self, kind: FlashKind, location: Seq<char>, message: Seq<char>) -> bool {
        &&& self.kind == kind
        &&& self.redirect.location@ == location
        &&& self.message@ == message
    }
}

/// The HTTP status codes that the service answers with.
#[derive(Clone, Copy, Debug, PartialEq, Eq)]
pub enum Status {
    /// 200 OK.
    Success,
    BadRequest,
    Unauthorized,
    NotFound,
    InternalServerError,
}

impl Status {
    /// The numeric code of the status.
    pub open spec fn spec_code(self) -> u16 {
        match self {
            Status::Success => 200,
            Status::BadRequest => 400,
            Status::Unauthorized => 401,
            Status::NotFound => 404,
            Status::InternalServerError => 500,
        }
    }

    /// The numeric code of the status.
    pub fn code(&self) -> (r: u16)
        ensures
            r == self.spec_code(),
    {
        match self {
            Status::Success => 200,
            Status::BadRequest => 400,
            Status::Unauthorized => 401,
            Status::NotFound => 404,
            Status::InternalServerError => 500,
        }
    }
}

/// The HTTP methods that the routes answer.
#[derive(Clone, Copy, Debug, PartialEq, Eq)]
pub enum Method {
    Get,
    Post,
    Put,
    Delete,
}

/// A route: a method, a path pattern below the mount point, the name of its
/// handler and, where several routes share a path, its rank.
pub struct Route {
    pub method: Method,
    pub uri: String,
    pub name: String,
    pub rank: Option<i32>,
}

impl Route {
    /// A route of default rank.
    pub fn new(method: Method, uri: &str, name: &str) -> (r: Route)
        ensures
            r.method == method,
            r.uri@ == uri@,
            r.name@ == name@,
            r.rank is None,
    {
        Route { method, uri: String::from_str(uri), name: String::from_str(name), rank: None }
    }

    /// Whether this route answers `method` at `uri` with the handler `name`.
    pub open spec fn is(self, method: Method, uri: Seq<char>, name: Seq<char>) -> bool {
        &&& self.method == method
        &&& self.uri@ == uri
        &&& self.name@ == name
        &&& self.rank is None
    }
}

/// The value of the last cookie called `name` in `cookies`.
pub open spec fn lookup(cookies: Seq<(String, String)>, name: Seq<char>) -> Option<Seq<char>>
    decreases cookies.len(),
{
    if cookies.len() == 0 {
        None
    } else if cookies.last().0@ == name {
        Some(cookies.last().1@)
    } else {
        lookup(cookies.drop_last(), name)
    }
}

/// The private (encrypted) cookies that a browser sent with a request, as the
/// handlers read and change them.
pub struct CookieJar {
    cookies: Vec<(String, String)>,
}

impl View for CookieJar {
    type V = Map<Seq<char>, Seq<char>>;

    /// Each cookie's name, mapped to its value.
    closed spec fn view(&self) -> Map<Seq<char>, Seq<char>> {
        Map::new(
            |name: Seq<char>| lookup(self.cookies@, name) is Some,
            |name: Seq<char>| lookup(self.cookies@, name).unwrap(),
        )
    }
}

impl CookieJar {
    /// A jar without cookies.
    pub fn new() -> (jar: CookieJar)
        ensures
            jar@ == Map::<Seq<char>, Seq<char>>::empty(),
    {
        let jar = CookieJar { cookies: Vec::new() };
        assert(jar@ =~= Map::<Seq<char>, Seq<char>>::empty());
        jar
    }

    /// The value of the cookie called `name`, if the browser has one.
    pub fn get_private(&self, name: &str) -> (r: Option<String>)
        ensures
            r is Some <==> self@.contains_key(name@),
            r matches Some(v) ==> v@ == self@[name@],
    {
        let key = String::from_str(name);
        let mut found: Option<String> = None;
        let mut i: usize = 0;
        while i < self.cookies.len()
            invariant
                i <= self.cookies.len(),
                key@ == name@,
                found is Some <==> lookup(self.cookies@.take(i as int), name@) is Some,
                found matches Some(v) ==> lookup(self.cookies@.take(i as int), name@) == Some(v@),
            decreases self.cookies.len() - i,
        {
            assert(self.cookies@.take(i + 1).drop_last() =~= self.cookies@.take(i as int));
            if self.cookies[i].0 == key {
                found = Some(self.cookies[i].1.clone());
            }
            i = i + 1;
        }
        assert(self.cookies@.take(i as int) =~= self.cookies@);
        found
    }

    /// Sets the cookie called `name` to `value`.
    pub fn add_private(&mut self, name: &str, value: &str)
        ensures
            final(self)@ == old(self)@.insert(name@, value@),
    {
        self.cookies.push((String::from_str(name), String::from_str(value)));
        assert(self.cookies@.drop_last() =~= old(self).cookies@);
        assert(self@ =~= old(self)@.insert(name@, value@));
    }

    /// Removes the cookie called `name`.
    pub fn remove_private(&mut self, name: &str)
        ensures
            final(self)@ == old(self)@.remove(name@),
    {
        let key = String::from_str(name);
        let mut kept: Vec<(String, String)> = Vec::new();
        let mut i: usize = 0;
        while i < self.cookies.len()
            invariant
                i <= self.cookies.len(),
                key@ == name@,
                forall|n: Seq<char>| #[trigger] lookup(kept@, n) == (if n == name@ { None } else { lookup(self.cookies@.take(i as int), n) }),
            decreases self.cookies.len() - i,
        {
            let ghost before = kept@;
            assert(self.cookies@.take(i + 1).drop_last() =~= self.cookies@.take(i as int));
            let ghost cur = self.cookies@[i as int];
            assert(self.cookies@.take(i + 1).last() == cur);
            if !(self.cookies[i].0 == key) {
                let c = (self.cookies[i].0.clone(), self.cookies[i].1.clone());
                kept.push(c);
                assert(kept@.drop_last() =~= before);
                assert forall|n: Seq<char>| #[trigger] lookup(kept@, n) == (if n == name@ { None } else { lookup(self.cookies@.take(i + 1), n) }) by {
                    assert(lookup(before, n) == (if n == name@ { None } else { lookup(self.cookies@.take(i as int), n) }));
                }
            } else {
                assert forall|n: Seq<char>| #[trigger] lookup(kept@, n) == (if n == name@ { None } else { lookup(self.cookies@.take(i + 1), n) }) by {
                    assert(lookup(before, n) == (if n == name@ { None } else { lookup(self.cookies@.take(i as int), n) }));
                }
            }
            i = i + 1;
        }
        assert(self.cookies@.take(i as int) =~= self.cookies@);
        self.cookies = kept;
        assert(self@ =~= old(self)@.remove(name@));
    }
}

} // verus!
