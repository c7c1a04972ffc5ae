//! Session-side decisions: the federated-login handshake as an explicit state
//! machine, and the checks a session applies to responses.
//!
//! The handshake must replay, without executing script, a browser-oriented
//! chain of form posts: select the identity provider, possibly submit
//! credentials (the provider's CSRF protection is environment-dependent, so
//! this hop may be absent), then forward the signed assertion back to the
//! platform. Each `handshake_*` function decides one hop: it consumes the
//! previous response and names the next form post, while the caller performs
//! the network exchanges.

use vstd::prelude::*;

use crate::addressing::{host_of, host_of_spec};
use crate::error::{AuthError, ParseError};
use crate::scrape::{first_attr, first_in, parse_document, document_root};
use crate::text::{contains_seq, contains_sub, str_eq};

pub mod file_storage_provider;

verus! {

/// What came back from one HTTP exchange: the address the exchange finally
/// landed on after redirects, the response status, and the body text.
#[derive(Debug, Clone)]
pub struct HttpReply {
    pub final_url: String,
    pub status: u16,
    pub body: String,
}

/// A form post the caller must perform next: the address to post to (a query
/// path, or an absolute address when the identity provider says so) and the
/// form fields in order.
#[derive(Debug, Clone)]
pub struct FormRequest {
    pub target: String,
    pub fields: Vec<(String, String)>,
}

/// The handshake's states. `AwaitLanding`, `AwaitContinue` and `AwaitFinal`
/// each wait for the reply to the most recently named form post.
#[derive(Debug, Clone, PartialEq, Eq)]
pub enum Handshake {
    /// The provider-selection post was issued; its landing reply is awaited.
    AwaitLanding,
    /// The credential post was issued; the continuation page is awaited.
    AwaitContinue,
    /// The assertion post was issued; the final status is awaited.
    AwaitFinal,
    /// The session is authenticated. Terminal.
    Authenticated,
    /// The handshake failed. Terminal.
    Failed(AuthError),
}

/// The fixed fields of the identity-provider selection form.
pub fn provider_selection_fields() -> (r: Vec<(String, String)>)
    ensures
        r@.len() == 4,
        r@[0].0@ == "sendLogin"@ && r@[0].1@ == "1"@,
        r@[1].0@ == "idp_selection"@ && r@[1].1@ == "https://idp.scc.kit.edu/idp/shibboleth"@,
        r@[2].0@ == "il_target"@ && r@[2].1@ == ""@,
        r@[3].0@ == "home_organization_selection"@ && r@[3].1@ == "Weiter"@,
{
    let mut r: Vec<(String, String)> = Vec::new();
    r.push(("sendLogin".to_owned(), "1".to_owned()));
    r.push(("idp_selection".to_owned(), "https://idp.scc.kit.edu/idp/shibboleth".to_owned()));
    r.push(("il_target".to_owned(), "".to_owned()));
    r.push(("home_organization_selection".to_owned(), "Weiter".to_owned()));
    r
}

/// The shape of a credential submission: the CSRF token the provider issued,
/// the account name, the password, and the proceed marker.
pub open spec fn is_credential_fields(
    fields: Seq<(String, String)>,
    csrf: Seq<char>,
    username: Seq<char>,
    password: Seq<char>,
) -> bool {
    &&& fields.len() == 4
    &&& fields[0].0@ == "csrf_token"@ && fields[0].1@ == csrf
    &&& fields[1].0@ == "j_username"@ && fields[1].1@ == username
    &&& fields[2].0@ == "j_password"@ && fields[2].1@ == password
    &&& fields[3].0@ == "_eventId_proceed"@ && fields[3].1@ == ""@
}

/// The fields of a credential submission carrying exactly the given token.
pub fn credential_fields(csrf: &str, username: &str, password: &str) -> (r: Vec<(String, String)>)
    ensures
        is_credential_fields(r@, csrf@, username@, password@),
{
    let mut r: Vec<(String, String)> = Vec::new();
    r.push(("csrf_token".to_owned(), csrf.to_owned()));
    r.push(("j_username".to_owned(), username.to_owned()));
    r.push(("j_password".to_owned(), password.to_owned()));
    r.push(("_eventId_proceed".to_owned(), "".to_owned()));
    r
}

/// The shape of an assertion submission: the relay state that lets the
/// platform resume the original request, and the signed assertion itself.
pub open spec fn is_assertion_fields(
    fields: Seq<(String, String)>,
    relay_state: Seq<char>,
    assertion: Seq<char>,
) -> bool {
    &&& fields.len() == 2
    &&& fields[0].0@ == "RelayState"@ && fields[0].1@ == relay_state
    &&& fields[1].0@ == "SAMLResponse"@ && fields[1].1@ == assertion
}

/// The fields of an assertion submission.
pub fn assertion_fields(relay_state: &str, assertion: &str) -> (r: Vec<(String, String)>)
    ensures
        is_assertion_fields(r@, relay_state@, assertion@),
{
    let mut r: Vec<(String, String)> = Vec::new();
    r.push(("RelayState".to_owned(), relay_state.to_owned()));
    r.push(("SAMLResponse".to_owned(), assertion.to_owned()));
    r
}

/// Start the handshake: the first post selects the identity provider at the
/// platform's federated-login endpoint.
pub fn handshake_begin() -> (r: (Handshake, FormRequest))
    ensures
        r.0 is AwaitLanding,
        r.1.target@ == "shib_login.php"@,
        r.1.fields@.len() == 4,
        r.1.fields@[0].0@ == "sendLogin"@,
{
    (
        Handshake::AwaitLanding,
        FormRequest { target: "shib_login.php".to_owned(), fields: provider_selection_fields() },
    )
}

/// Decide the hop after the landing reply, from what the landing page showed.
///
/// With the platform's own host reached, a prior session cookie was still
/// valid and the handshake is already done. Otherwise the landing body is the
/// provider's login page: when it carries a CSRF token, the next post submits
/// the credentials together with exactly that token; when it carries none,
/// the credential hop is skipped and the same page must already hold the
/// assertion, which is forwarded directly.
pub fn landing_decision(
    host_matches: bool,
    csrf: Option<String>,
    form_action: Option<String>,
    assertion: Option<String>,
    username: &str,
    password: &str,
    shib_url: &str,
) -> (r: (Handshake, Option<FormRequest>))
    ensures
        host_matches ==> r.0 is Authenticated && r.1 is None,
        !host_matches ==> (csrf matches Some(c) ==> match form_action {
            Some(a) => {
                &&& r.0 is AwaitContinue
                &&& (r.1 matches Some(req) && req.target == a && is_credential_fields(
                    req.fields@,
                    c@,
                    username@,
                    password@,
                ))
            },
            None => r.0 == Handshake::Failed(AuthError::MissingFormAction) && r.1 is None,
        }),
        !host_matches && csrf is None ==> {
            &&& (assertion is None ==> r.0 == Handshake::Failed(AuthError::AssertionNotFound)
                && r.1 is None)
            &&& (assertion matches Some(a) ==> (form_action is None ==> r.0 == Handshake::Failed(
                AuthError::MissingFormAction,
            ) && r.1 is None))
            &&& (assertion matches Some(a) ==> (form_action matches Some(act) ==> r.0
                is AwaitFinal && (r.1 matches Some(req) && req.target == act
                && is_assertion_fields(req.fields@, shib_url@, a@))))
        },
{
    if host_matches {
        return (Handshake::Authenticated, None);
    }
    match csrf {
        Some(c) => match form_action {
            Some(a) => {
                let fields = credential_fields(c.as_str(), username, password);
                (Handshake::AwaitContinue, Some(FormRequest { target: a, fields }))
            },
            None => (Handshake::Failed(AuthError::MissingFormAction), None),
        },
        None => continue_decision(assertion, form_action, shib_url),
    }
}

/// Decide the hop after the continuation page: locate the signed assertion
/// and the page's post action, and forward the assertion with the original
/// federated-login address as relay state.
pub fn continue_decision(
    assertion: Option<String>,
    form_action: Option<String>,
    shib_url: &str,
) -> (r: (Handshake, Option<FormRequest>))
    ensures
        assertion is None ==> r.0 == Handshake::Failed(AuthError::AssertionNotFound) && r.1
            is None,
        assertion matches Some(a) ==> (form_action is None ==> r.0 == Handshake::Failed(
            AuthError::MissingFormAction,
        ) && r.1 is None),
        assertion matches Some(a) ==> (form_action matches Some(act) ==> {
            &&& r.0 is AwaitFinal
            &&& (r.1 matches Some(req) && req.target == act && is_assertion_fields(
                req.fields@,
                shib_url@,
                a@,
            ))
        }),
{
    match assertion {
        None => (Handshake::Failed(AuthError::AssertionNotFound), None),
        Some(a) => match form_action {
            None => (Handshake::Failed(AuthError::MissingFormAction), None),
            Some(action) => {
                let fields = assertion_fields(shib_url, a.as_str());
                (Handshake::AwaitFinal, Some(FormRequest { target: action, fields }))
            },
        },
    }
}

/// Decide the final state from the status of the assertion post's reply.
pub fn handshake_on_final(status: u16) -> (r: Handshake)
    ensures
        200 <= status < 300 ==> r is Authenticated,
        !(200 <= status < 300) ==> r == Handshake::Failed(AuthError::LoginRejected),
{
    if 200 <= status && status < 300 {
        Handshake::Authenticated
    } else {
        Handshake::Failed(AuthError::LoginRejected)
    }
}

/// The CSRF token input of a login page: `None` when the page carries no
/// such input, `Some(value)` when it does — and the value itself may still be
/// missing from the input.
pub fn scrape_csrf(page: &scraper::Html) -> (r: Result<Option<Option<String>>, ParseError>) {
    let root = document_root(page)?;
    match first_in(&root, "input[name=\"csrf_token\"]")? {
        None => Ok(None),
        Some(field) => Ok(Some(crate::scrape::element_attr(&field, "value"))),
    }
}

/// The action of the first post-method form on a page.
pub fn scrape_post_form_action(page: &scraper::Html) -> (r: Result<Option<String>, ParseError>) {
    let root = document_root(page)?;
    first_attr(&root, "form[method=\"post\"]", "action")
}

/// The signed assertion hidden in a continuation page.
pub fn scrape_assertion(page: &scraper::Html) -> (r: Result<Option<String>, ParseError>) {
    let root = document_root(page)?;
    first_attr(&root, "input[name=\"SAMLResponse\"]", "value")
}

/// Decide the hop after the landing reply. The body is scraped for the CSRF
/// token, the form action and (when the credential hop is skipped) the
/// assertion; `landing_decision` takes it from there.
pub fn handshake_on_landing(
    base_host: &str,
    shib_url: &str,
    username: &str,
    password: &str,
    reply: &HttpReply,
) -> (r: Result<(Handshake, Option<FormRequest>), ParseError>)
    ensures
        r matches Ok((s, req)) ==> {
            &&& (s is Authenticated ==> req is None && host_of_spec(reply.final_url@) == Some(
                base_host@,
            ))
            &&& (s is AwaitContinue ==> (req matches Some(rr) && exists|c: Seq<char>|
                is_credential_fields(rr.fields@, c, username@, password@)))
            &&& (s is AwaitFinal ==> (req matches Some(rr) && exists|a: Seq<char>|
                is_assertion_fields(rr.fields@, shib_url@, a)))
            &&& (s is Failed ==> req is None)
            &&& !(s is AwaitLanding)
        },
{
    let host_matches = match host_of(reply.final_url.as_str()) {
        Some(h) => str_eq(h.as_str(), base_host),
        None => false,
    };
    if host_matches {
        return Ok((Handshake::Authenticated, None));
    }
    let page = parse_document(reply.body.as_str());
    let csrf = match scrape_csrf(&page)? {
        None => None,
        Some(Some(token)) => Some(token),
        Some(None) => {
            // The provider rendered its CSRF input but gave it no value:
            // submitting credentials without the token cannot succeed.
            return Ok((Handshake::Failed(AuthError::MissingCsrfValue), None));
        },
    };
    let form_action = scrape_post_form_action(&page)?;
    let assertion = scrape_assertion(&page)?;
    let r = landing_decision(
        host_matches,
        csrf,
        form_action,
        assertion,
        username,
        password,
        shib_url,
    );
    Ok(r)
}

/// Decide the hop after the credential post's reply: the continuation page
/// must hold the signed assertion and a post action to forward it to.
pub fn handshake_on_continue(shib_url: &str, reply: &HttpReply) -> (r: Result<
    (Handshake, Option<FormRequest>),
    ParseError,
>)
    ensures
        r matches Ok((s, req)) ==> {
            &&& (s is AwaitFinal ==> (req matches Some(rr) && exists|a: Seq<char>|
                is_assertion_fields(rr.fields@, shib_url@, a)))
            &&& (s is Failed ==> req is None)
            &&& (s is AwaitFinal || s is Failed)
        },
{
    let page = parse_document(reply.body.as_str());
    let assertion = scrape_assertion(&page)?;
    let form_action = scrape_post_form_action(&page)?;
    let r = continue_decision(assertion, form_action, shib_url);
    Ok(r)
}

/// Whether a response body carries the platform's in-page error banner; the
/// platform reports some failures this way under a success status.
pub fn is_alert_document(page: &scraper::Html) -> (r: Result<bool, ParseError>) {
    let root = document_root(page)?;
    let found = first_in(&root, ".alert-danger")?;
    Ok(found.is_some())
}

/// Whether a final address reveals the platform's generic error page.
pub fn is_error_page_url(url: &str) -> (r: bool)
    ensures
        r == contains_seq(url@, "error"@),
{
    contains_sub(url, "error")
}

/// Whether a status belongs to an HTTP error class.
pub fn is_error_status(status: u16) -> (r: bool)
    ensures
        r == (400 <= status < 600),
{
    400 <= status && status < 600
}

} // verus!
