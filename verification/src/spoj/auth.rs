//! Logging in to SPOJ, and keeping the login as three cookies.

use vstd::prelude::*;
use crate::error::{Cause, Context, ContextView, Error, ErrorView};
use crate::session::{Cookie, CookieKey, CookieView, Session};
use crate::spoj::SPOJ;
use crate::text::{join3, same_text};
use crate::transport::{field, Field, Payload, PayloadView, Request, RequestView};

verus! {

/// The three cookies that identify a logged-in SPOJ user. This is all that has to be
/// kept to take a session up again without logging in.
#[derive(Clone, Debug, PartialEq, Eq)]
pub struct CachedAuth {
    /// The cookie `SPOJ`.
    pub spoj: Cookie,
    /// The cookie `autologin_login`, whose value is the user's name.
    pub login: Cookie,
    /// The cookie `autologin_hash`.
    pub hash: Cookie,
}

pub struct CachedAuthView {
    pub spoj: CookieView,
    pub login: CookieView,
    pub hash: CookieView,
}

impl View for CachedAuth {
    type V = CachedAuthView;

    open spec fn view(&self) -> CachedAuthView {
        CachedAuthView { spoj: self.spoj@, login: self.login@, hash: self.hash@ }
    }
}

impl DeepView for CachedAuth {
    type V = CachedAuthView;

    open spec fn deep_view(&self) -> CachedAuthView {
        self@
    }
}

/// The key under which a session holds the login cookie called `name`.
pub open spec fn auth_key(name: Seq<char>) -> CookieKey {
    ("spoj.com"@, "/"@, name)
}

/// The login cookie called `name`, if the session holds it.
pub open spec fn auth_cookie(jar: Map<CookieKey, Seq<char>>, name: Seq<char>) -> Option<
    CookieView,
> {
    if jar.contains_key(auth_key(name)) {
        Some(CookieView { domain: "spoj.com"@, path: "/"@, name, value: jar[auth_key(name)] })
    } else {
        None
    }
}

/// What can be kept of a session: its three login cookies, if it has all three.
pub open spec fn captured(jar: Map<CookieKey, Seq<char>>) -> Option<CachedAuthView> {
    match (
        auth_cookie(jar, "SPOJ"@),
        auth_cookie(jar, "autologin_login"@),
        auth_cookie(jar, "autologin_hash"@),
    ) {
        (Some(spoj), Some(login), Some(hash)) => Some(CachedAuthView { spoj, login, hash }),
        _ => None,
    }
}

/// A session after the three cookies were put back into it, in their order.
pub open spec fn restored(jar: Map<CookieKey, Seq<char>>, auth: CachedAuthView) -> Map<
    CookieKey,
    Seq<char>,
> {
    jar.insert(auth.spoj.key(), auth.spoj.value).insert(auth.login.key(), auth.login.value).insert(
        auth.hash.key(),
        auth.hash.value,
    )
}

/// The user as whom a session is logged in: the value of its `autologin_login` cookie.
pub open spec fn login_user(jar: Map<CookieKey, Seq<char>>) -> Option<Seq<char>> {
    match auth_cookie(jar, "autologin_login"@) {
        Some(cookie) => Some(cookie.value),
        None => None,
    }
}

/// The three login cookies have three different names.
pub proof fn lemma_auth_names_differ()
    ensures
        "SPOJ"@ != "autologin_login"@,
        "SPOJ"@ != "autologin_hash"@,
        "autologin_login"@ != "autologin_hash"@,
{
    reveal_strlit("SPOJ");
    reveal_strlit("autologin_login");
    reveal_strlit("autologin_hash");
    assert("SPOJ"@.len() == 4);
    assert("autologin_login"@.len() == 15);
    assert("autologin_hash"@.len() == 14);
}

/// Putting a snapshot back twice leaves the session as putting it back once does:
/// no cookie is held twice, and none changes.
pub proof fn lemma_restore_idempotent(jar: Map<CookieKey, Seq<char>>, auth: CachedAuthView)
    ensures
        restored(restored(jar, auth), auth) == restored(jar, auth),
{
    assert(restored(restored(jar, auth), auth) =~= restored(jar, auth));
}

/// A snapshot taken from any session comes back unchanged from every session into
/// which it was put, and that session is logged in as the same user. So whatever was
/// read as that user before can be read again without a new login.
pub proof fn lemma_restore_round_trip(
    source: Map<CookieKey, Seq<char>>,
    fresh: Map<CookieKey, Seq<char>>,
    auth: CachedAuthView,
)
    requires
        captured(source) == Some(auth),
    ensures
        captured(restored(fresh, auth)) == Some(auth),
        login_user(restored(fresh, auth)) == login_user(source),
        login_user(source) == Some(auth.login.value),
{
    lemma_auth_names_differ();
    assert(auth.spoj.key() == auth_key("SPOJ"@));
    assert(auth.login.key() == auth_key("autologin_login"@));
    assert(auth.hash.key() == auth_key("autologin_hash"@));
}

/// The page to which the site sends a user whose login it refused.
pub open spec fn login_page() -> Seq<char> {
    "https://www.spoj.com/login/"@
}

/// The page to which the site sends a user whom it let in.
pub open spec fn front_page() -> Seq<char> {
    "https://www.spoj.com/"@
}

/// What is reported when a login ends on neither of the two known pages.
pub open spec fn unrecognized_login(page: Seq<char>) -> ContextView {
    ContextView {
        cause: Cause::Unrecognized,
        selector: Seq::empty(),
        detail: "unrecognized login outcome"@,
        snapshot: page,
    }
}

/// How a login went, told from the address where it ended and the page found there.
pub open spec fn login_outcome(landed: Seq<char>, page: Seq<char>) -> Result<(), ErrorView> {
    if landed == login_page() {
        Err(ErrorView::WrongCredentials)
    } else if landed == front_page() {
        Ok(())
    } else {
        Err(ErrorView::UnexpectedHTML(unrecognized_login(page)))
    }
}

/// The request that logs a user in.
pub open spec fn login_request_of(username: Seq<char>, password: Seq<char>) -> RequestView {
    RequestView {
        post: true,
        url: login_page(),
        headers: seq![
            field("origin"@, "https://www.spoj.com"@),
            field("referer"@, "https://www.spoj.com/"@),
        ],
        payload: PayloadView::Form(
            seq![
                field("next_raw"@, "/"@),
                field("autologin"@, "1"@),
                field("login_user"@, username),
                field("password"@, password),
            ],
        ),
    }
}

/// The address that lists the submissions of `user`.
pub open spec fn status_url(user: Seq<char>) -> Seq<char> {
    "https://www.spoj.com/status/"@ + user + "/"@
}

/// The headers that every request of this adapter carries, but for the referer's value.
pub(crate) fn site_headers(referer: &str) -> (headers: Vec<Field>)
    ensures
        headers.deep_view() == seq![
            field("origin"@, "https://www.spoj.com"@),
            field("referer"@, referer@),
        ],
{
    let mut headers: Vec<Field> = Vec::new();
    headers.push(Field::new("origin", "https://www.spoj.com"));
    headers.push(Field::new("referer", referer));
    assert(headers.deep_view() =~= seq![
        field("origin"@, "https://www.spoj.com"@),
        field("referer"@, referer@),
    ]);
    headers
}

impl SPOJ {
    /// Takes a session up for this site. The session is handed back as it came: the
    /// site needs nothing set before the first request.
    pub fn connect(&self, session: Session, _domain: &str) -> (ready: Session)
        ensures
            ready@ == session@,
    {
        session
    }

    /// The request that logs `username` in with `password`.
    pub fn login_request(&self, username: &str, password: &str) -> (request: Request)
        ensures
            request@ == login_request_of(username@, password@),
    {
        let mut form: Vec<Field> = Vec::new();
        form.push(Field::new("next_raw", "/"));
        form.push(Field::new("autologin", "1"));
        form.push(Field::new("login_user", username));
        form.push(Field::new("password", password));
        assert(form.deep_view() =~= seq![
            field("next_raw"@, "/"@),
            field("autologin"@, "1"@),
            field("login_user"@, username@),
            field("password"@, password@),
        ]);
        Request {
            post: true,
            url: "https://www.spoj.com/login/".to_owned(),
            headers: site_headers("https://www.spoj.com/"),
            payload: Payload::Form(form),
        }
    }

    /// Tells how a login went. `landed` is the address at which the login request
    /// ended after redirects, `page` what was found there. Back on the login page
    /// means that the site refused the credentials; on the front page, that it let
    /// the user in; anywhere else, that the site has changed.
    pub fn login(&self, landed: &str, page: &str) -> (outcome: Result<(), Error>)
        ensures
            match outcome {
                Ok(()) => login_outcome(landed@, page@) == Ok::<(), ErrorView>(()),
                Err(error) => login_outcome(landed@, page@) == Err::<(), ErrorView>(error@),
            },
    {
        if same_text(landed, "https://www.spoj.com/login/") {
            Err(Error::WrongCredentials)
        } else if same_text(landed, "https://www.spoj.com/") {
            Ok(())
        } else {
            Err(
                Error::UnexpectedHTML(
                    Context {
                        cause: Cause::Unrecognized,
                        selector: String::new(),
                        detail: "unrecognized login outcome".to_owned(),
                        snapshot: page.to_owned(),
                    },
                ),
            )
        }
    }

    /// Puts the three cookies of a snapshot back into a session. This sends nothing,
    /// never fails, and may be repeated.
    pub fn restore_auth(&self, session: &mut Session, auth: CachedAuth) -> (done: Result<
        (),
        Error,
    >)
        ensures
            done is Ok,
            final(session)@ == restored(old(session)@, auth@),
    {
        session.insert(auth.spoj);
        session.insert(auth.login);
        session.insert(auth.hash);
        Ok(())
    }

    /// Takes the three login cookies out of a session, where it has all three. With
    /// one of them missing there is nothing to keep, and the result is `None`.
    pub fn cache_auth(&self, session: &Session) -> (snapshot: Result<Option<CachedAuth>, Error>)
        ensures
            snapshot matches Ok(auth) && auth.deep_view() == captured(session@),
    {
        let spoj = match session.get("spoj.com", "/", "SPOJ") {
            Some(cookie) => cookie.duplicate(),
            None => {
                return Ok(None);
            },
        };
        let login = match session.get("spoj.com", "/", "autologin_login") {
            Some(cookie) => cookie.duplicate(),
            None => {
                return Ok(None);
            },
        };
        let hash = match session.get("spoj.com", "/", "autologin_hash") {
            Some(cookie) => cookie.duplicate(),
            None => {
                return Ok(None);
            },
        };
        Ok(Some(CachedAuth { spoj, login, hash }))
    }

    /// The address that lists the submissions of the user as whom the session is
    /// logged in. A session without the `autologin_login` cookie is not logged in:
    /// that is `AccessDenied`, and nothing needs to be sent to find it out.
    pub fn submissions_url(&self, session: &Session) -> (url: Result<String, Error>)
        ensures
            match url {
                Ok(address) => login_user(session@) matches Some(user) && address@ == status_url(
                    user,
                ),
                Err(error) => login_user(session@) is None && error@ == ErrorView::AccessDenied,
            },
    {
        match session.get("spoj.com", "/", "autologin_login") {
            Some(cookie) => Ok(join3("https://www.spoj.com/status/", cookie.value.as_str(), "/")),
            None => Err(Error::AccessDenied),
        }
    }
}

} // verus!
