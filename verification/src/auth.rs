//! The authentication session and its login state machine.
//!
//! A session owns the credentials and the current bearer token. While the
//! stored token's expiry is strictly in the future the session hands it
//! out unchanged; otherwise the full login protocol must run: fetch the
//! login page and scrape its CSRF token, submit the credentials together
//! with that token, then obtain the JWT from the first cookie of the
//! token endpoint's response. The HTTP calls themselves are performed by
//! an outside driver over one cookie-bearing client; every decision in
//! between — what to request next, how to classify each answer, when the
//! protocol has failed — is taken here, under contract, by
//! [`LoginPhase::step`].

use vstd::prelude::*;
use crate::errors::Error;
use crate::token::{curr_millis, opt_expired_at, Token};

verus! {

/// What the first `input[name=csrfToken]` element of an HTML document
/// carries: `None` when no such element exists, `Some(None)` when the
/// element has no `value` attribute, and otherwise that attribute's
/// value. A fixed function of the document text alone.
pub uninterp spec fn csrf_input_of(html: Seq<char>) -> Option<Option<Seq<char>>>;

/// Relies on scraper (`Html::parse_document`, `Selector::parse`,
/// `Html::select` and `ElementRef::attr`) to find the first
/// `input[name=csrfToken]` element and read its `value` attribute. The
/// selector is a constant that parses; were its parse ever to fail, the
/// failure would be reported as a missing element.
#[verifier::external_body]
fn scrape_csrf_input(html: &str) -> (r: Option<Option<String>>)
    ensures
        match r {
            Some(Some(v)) => csrf_input_of(html@) matches Some(Some(c)) && v@ == c,
            Some(None) => csrf_input_of(html@) matches Some(None),
            None => csrf_input_of(html@) is None,
        },
{
    let doc = scraper::Html::parse_document(html);
    let selector = match scraper::Selector::parse("input[name=csrfToken]") {
        Ok(s) => s,
        Err(_) => return None,
    };
    doc.select(&selector)
        .next()
        .map(|element| element.attr("value").map(|v| v.to_string()))
}

/// Scrape the CSRF token out of the login page's HTML: the `value`
/// attribute of its `input[name=csrfToken]` element. Fails with
/// `HttpParsingError` exactly when the element or its attribute is
/// absent.
pub fn csrf_from_login_page(html: &str) -> (r: Result<String, Error>)
    ensures
        match r {
            Ok(v) => csrf_input_of(html@) matches Some(Some(c)) && v@ == c,
            Err(e) => match csrf_input_of(html@) {
                None => e matches Error::HttpParsingError { message }
                    && message@ == "Unable to find csrf element on the page"@,
                Some(None) => e matches Error::HttpParsingError { message }
                    && message@ == "Unable to find value of csrf token element"@,
                Some(Some(_)) => false,
            },
        },
{
    match scrape_csrf_input(html) {
        Some(Some(v)) => Ok(v),
        Some(None) => Err(
            Error::HttpParsingError {
                message: String::from_str("Unable to find value of csrf token element"),
            },
        ),
        None => Err(
            Error::HttpParsingError {
                message: String::from_str("Unable to find csrf element on the page"),
            },
        ),
    }
}

/// Classify the status of the login-submit response: a 5xx answer is the
/// service's failure, a 4xx answer is the user's (bad credentials), and
/// anything else lets the protocol proceed.
pub fn classify_login_status(status: u16) -> (r: Result<(), Error>)
    ensures
        match r {
            Ok(_) => !(500 <= status < 600) && !(400 <= status < 500),
            Err(e) => {
                ||| (500 <= status < 600 && (e matches Error::ServerError { message }
                    && message@ == "Bad credentials"@))
                ||| (400 <= status < 500 && (e matches Error::UserError { message }
                    && message@ == "Bad credentials"@))
            },
        },
{
    if 500 <= status && status < 600 {
        Err(Error::ServerError { message: String::from_str("Bad credentials") })
    } else if 400 <= status && status < 500 {
        Err(Error::UserError { message: String::from_str("Bad credentials") })
    } else {
        Ok(())
    }
}

/// Derive the session token from the first cookie of the JWT endpoint's
/// response, given as the cookie's value and expiry instant in
/// milliseconds; the absence of any cookie is the service's failure.
pub fn token_from_first_cookie(cookie: Option<(String, u128)>) -> (r: Result<Token, Error>)
    ensures
        match r {
            Ok(t) => cookie matches Some(c) && t.value == c.0 && t.expires == c.1,
            Err(e) => cookie is None && (e matches Error::ServerError { message }
                && message@ == "jwt token was not found in response"@),
        },
{
    match cookie {
        Some((value, expires)) => Ok(Token::new(value, expires)),
        None => Err(
            Error::ServerError { message: String::from_str("jwt token was not found in response") },
        ),
    }
}

/// Where a login run stands: which response it expects next, or how it
/// ended.
#[derive(Debug)]
pub enum LoginPhase {
    /// The login page must be fetched.
    NeedPage,
    /// The credentials and the scraped CSRF token must be submitted as a
    /// form, over the same cookie-bearing client that fetched the page.
    NeedSubmit { csrf: String },
    /// The JWT endpoint must be called.
    NeedJwt,
    /// The protocol succeeded and produced a token.
    Done { token: Token },
    /// The protocol failed; nothing may be stored.
    Failed { error: Error },
}

/// One response handed back to the state machine by the driver.
#[derive(Debug)]
pub enum LoginInput {
    /// The body of the login page.
    Page { html: String },
    /// The HTTP status of the login-submit call.
    SubmitStatus { status: u16 },
    /// The first cookie of the JWT endpoint's response, as value and
    /// expiry in milliseconds, or nothing if the response set no cookie.
    JwtCookie { cookie: Option<(String, u128)> },
}

/// Which input each phase is waiting for.
pub open spec fn phase_expects(phase: LoginPhase, input: LoginInput) -> bool {
    ||| (phase is NeedPage && input is Page)
    ||| (phase is NeedSubmit && input is SubmitStatus)
    ||| (phase is NeedJwt && input is JwtCookie)
}

impl LoginPhase {
    /// A fresh login run: the login page comes first.
    pub fn start() -> (p: LoginPhase)
        ensures
            p is NeedPage,
    {
        LoginPhase::NeedPage
    }

    /// Advance the protocol by one response.
    pub fn step(self, input: LoginInput) -> (next: LoginPhase)
        requires
            phase_expects(self, input),
        ensures
            match (self, input) {
                (LoginPhase::NeedPage, LoginInput::Page { html }) => match csrf_input_of(html@) {
                    Some(Some(c)) => next matches LoginPhase::NeedSubmit { csrf } && csrf@ == c,
                    Some(None) => next matches LoginPhase::Failed { error }
                        && error matches Error::HttpParsingError { message }
                        && message@ == "Unable to find value of csrf token element"@,
                    None => next matches LoginPhase::Failed { error }
                        && error matches Error::HttpParsingError { message }
                        && message@ == "Unable to find csrf element on the page"@,
                },
                (LoginPhase::NeedSubmit { .. }, LoginInput::SubmitStatus { status }) => {
                    if 500 <= status < 600 {
                        next matches LoginPhase::Failed { error }
                            && error matches Error::ServerError { message }
                            && message@ == "Bad credentials"@
                    } else if 400 <= status < 500 {
                        next matches LoginPhase::Failed { error }
                            && error matches Error::UserError { message }
                            && message@ == "Bad credentials"@
                    } else {
                        next is NeedJwt
                    }
                },
                (LoginPhase::NeedJwt, LoginInput::JwtCookie { cookie }) => match cookie {
                    Some(c) => next matches LoginPhase::Done { token } && token.value == c.0
                        && token.expires == c.1,
                    None => next matches LoginPhase::Failed { error }
                        && error matches Error::ServerError { message }
                        && message@ == "jwt token was not found in response"@,
                },
                _ => false,
            },
    {
        match (self, input) {
            (LoginPhase::NeedPage, LoginInput::Page { html }) => {
                match csrf_from_login_page(html.as_str()) {
                    Ok(csrf) => LoginPhase::NeedSubmit { csrf },
                    Err(error) => LoginPhase::Failed { error },
                }
            },
            (LoginPhase::NeedSubmit { .. }, LoginInput::SubmitStatus { status }) => {
                match classify_login_status(status) {
                    Ok(_) => LoginPhase::NeedJwt,
                    Err(error) => LoginPhase::Failed { error },
                }
            },
            (LoginPhase::NeedJwt, LoginInput::JwtCookie { cookie }) => {
                match token_from_first_cookie(cookie) {
                    Ok(token) => LoginPhase::Done { token },
                    Err(error) => LoginPhase::Failed { error },
                }
            },
            (phase, _) => phase,
        }
    }
}

/// The single-slot registration of a token-changed observer. The observer
/// itself lives with the orchestrator; the session only records that one
/// is listening and reports each freshly stored token for delivery.
#[derive(Debug, Clone, PartialEq, Eq, Structural)]
pub struct Callback;

/// A long-lived session against the vocabulary service: credentials, the
/// current token, and the observer slot. The driver owns one
/// cookie-bearing HTTP client for the session's whole lifetime, since the
/// service binds the CSRF token to the session cookie.
#[derive(Debug)]
pub struct Skyeng {
    token: Option<Token>,
    user: String,
    password: String,
    token_update_callback: Option<Callback>,
}

impl Skyeng {
    pub closed spec fn spec_token(&self) -> Option<Token> {
        self.token
    }

    pub closed spec fn spec_user(&self) -> Seq<char> {
        self.user@
    }

    pub closed spec fn spec_password(&self) -> Seq<char> {
        self.password@
    }

    /// Whether a token-changed observer is registered.
    pub closed spec fn has_callback(&self) -> bool {
        self.token_update_callback is Some
    }

    /// A session that has never logged in.
    pub fn new(user: String, password: String) -> (s: Skyeng)
        ensures
            s.spec_token() is None,
            s.spec_user() == user@,
            s.spec_password() == password@,
            !s.has_callback(),
    {
        Skyeng { token: None, user, password, token_update_callback: None }
    }

    /// A session resuming with a token loaded from persistence.
    pub fn new_with_token(token: Option<Token>, user: String, password: String) -> (s: Skyeng)
        ensures
            s.spec_token() == token,
            s.spec_user() == user@,
            s.spec_password() == password@,
            !s.has_callback(),
    {
        Skyeng { token, user, password, token_update_callback: None }
    }

    /// The stored token, if any.
    pub fn get_token(&self) -> (r: Option<Token>)
        ensures
            r == self.spec_token(),
    {
        match self.token.as_ref() {
            Some(token) => Some(token.clone()),
            None => None,
        }
    }

    /// The login name, for the submit form.
    pub fn user(&self) -> (r: &String)
        ensures
            r@ == self.spec_user(),
    {
        &self.user
    }

    /// The password, for the submit form.
    pub fn password(&self) -> (r: &String)
        ensures
            r@ == self.spec_password(),
    {
        &self.password
    }

    /// Register the token-changed observer; at most one is kept, a later
    /// registration replacing an earlier one.
    pub fn on_token_update(&mut self)
        ensures
            final(self).has_callback(),
            final(self).spec_token() == old(self).spec_token(),
            final(self).spec_user() == old(self).spec_user(),
            final(self).spec_password() == old(self).spec_password(),
    {
        self.token_update_callback = Some(Callback);
    }

    /// The lazy-refresh decision of `ensure_valid`: hand back the stored
    /// token unchanged — no network call — exactly while its expiry is
    /// strictly after `now`; answer `None` exactly when the token is
    /// absent or expired, in which case the full login protocol must run.
    pub fn ensure_valid_at(&self, now: u128) -> (r: Option<Token>)
        ensures
            match r {
                Some(t) => self.spec_token() == Some(t) && now < t.expires,
                None => opt_expired_at(self.spec_token(), now),
            },
    {
        match self.token.as_ref() {
            Some(token) => {
                if now < token.expires {
                    Some(token.clone())
                } else {
                    None
                }
            },
            None => None,
        }
    }

    /// The same decision taken against the wall clock as read this
    /// moment.
    pub fn ensure_valid(&self) -> (r: Option<Token>)
        ensures
            r matches Some(t) ==> self.spec_token() == Some(t),
    {
        self.ensure_valid_at(curr_millis())
    }

    /// Store the token a successful login produced, and report the token
    /// to deliver to the observer: the new token when one is registered,
    /// nothing otherwise. An observer's own failure is the caller's
    /// concern; the stored token stands either way.
    pub fn complete_login(&mut self, token: Token) -> (notify: Option<Token>)
        ensures
            final(self).spec_token() == Some(token),
            final(self).spec_user() == old(self).spec_user(),
            final(self).spec_password() == old(self).spec_password(),
            final(self).has_callback() == old(self).has_callback(),
            notify == if old(self).has_callback() {
                Some(token)
            } else {
                None::<Token>
            },
    {
        let notify = if self.token_update_callback.is_some() {
            Some(token.clone())
        } else {
            None
        };
        self.token = Some(token);
        notify
    }
}

} // verus!
