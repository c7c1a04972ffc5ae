use ilias_client::client::{
    credential_fields, handshake_begin, handshake_on_continue, handshake_on_final,
    handshake_on_landing, is_error_page_url, is_error_status, provider_selection_fields,
    Handshake, HttpReply,
};
use ilias_client::error::AuthError;

const BASE_HOST: &str = "ilias.studium.kit.edu";
const SHIB_URL: &str = "https://ilias.studium.kit.edu/shib_login.php";

fn landing_reply(body: &str) -> HttpReply {
    HttpReply {
        final_url: "https://idp.scc.kit.edu/idp/profile".to_string(),
        status: 200,
        body: body.to_string(),
    }
}

#[test]
fn begin_posts_provider_selection() {
    let (state, req) = handshake_begin();
    assert_eq!(state, Handshake::AwaitLanding);
    assert_eq!(req.target, "shib_login.php");
    assert_eq!(req.fields, provider_selection_fields());
    assert_eq!(req.fields[0], ("sendLogin".to_string(), "1".to_string()));
    assert_eq!(
        req.fields[1],
        ("idp_selection".to_string(), "https://idp.scc.kit.edu/idp/shibboleth".to_string())
    );
}

/// A login page carrying a CSRF field leads to a credential post that carries
/// exactly that token.
#[test]
fn csrf_page_triggers_credential_post_with_exact_token() {
    let body = "<html><body><form method=\"post\" action=\"/idp/login?step=2\">\
                <input name=\"csrf_token\" value=\"tok-123\"/>\
                </form></body></html>";
    let (state, req) =
        handshake_on_landing(BASE_HOST, SHIB_URL, "user", "secret", &landing_reply(body)).unwrap();
    assert_eq!(state, Handshake::AwaitContinue);
    let req = req.unwrap();
    assert_eq!(req.target, "/idp/login?step=2");
    assert_eq!(req.fields, credential_fields("tok-123", "user", "secret"));
    assert_eq!(req.fields[0], ("csrf_token".to_string(), "tok-123".to_string()));
    assert_eq!(req.fields[1], ("j_username".to_string(), "user".to_string()));
    assert_eq!(req.fields[2], ("j_password".to_string(), "secret".to_string()));
}

/// A login page without a CSRF field skips the credential hop: the same page
/// must already carry the assertion, which is forwarded directly.
#[test]
fn csrf_less_page_skips_credential_post() {
    let body = "<html><body><form method=\"post\" action=\"https://ilias.studium.kit.edu/saml\">\
                <input name=\"SAMLResponse\" value=\"assertion-blob\"/>\
                </form></body></html>";
    let (state, req) =
        handshake_on_landing(BASE_HOST, SHIB_URL, "user", "secret", &landing_reply(body)).unwrap();
    assert_eq!(state, Handshake::AwaitFinal);
    let req = req.unwrap();
    assert_eq!(req.target, "https://ilias.studium.kit.edu/saml");
    // No credential post was issued: the request carries the assertion.
    assert_eq!(req.fields[0], ("RelayState".to_string(), SHIB_URL.to_string()));
    assert_eq!(req.fields[1], ("SAMLResponse".to_string(), "assertion-blob".to_string()));
}

#[test]
fn landing_on_own_host_means_already_authenticated() {
    let reply = HttpReply {
        final_url: "https://ilias.studium.kit.edu/home".to_string(),
        status: 200,
        body: "<html></html>".to_string(),
    };
    let (state, req) = handshake_on_landing(BASE_HOST, SHIB_URL, "u", "p", &reply).unwrap();
    assert_eq!(state, Handshake::Authenticated);
    assert!(req.is_none());
}

/// A CSRF input rendered without a value is a distinct, named failure.
#[test]
fn csrf_input_without_value_fails() {
    let body = "<html><body><form method=\"post\" action=\"/idp/login\">\
                <input name=\"csrf_token\"/>\
                </form></body></html>";
    let (state, req) =
        handshake_on_landing(BASE_HOST, SHIB_URL, "u", "p", &landing_reply(body)).unwrap();
    assert_eq!(state, Handshake::Failed(AuthError::MissingCsrfValue));
    assert!(req.is_none());
}

#[test]
fn missing_assertion_fails_loud() {
    let body = "<html><body><form method=\"post\" action=\"/x\"></form></body></html>";
    let (state, req) = handshake_on_landing(BASE_HOST, SHIB_URL, "u", "p", &landing_reply(body)).unwrap();
    assert_eq!(state, Handshake::Failed(AuthError::AssertionNotFound));
    assert!(req.is_none());
}

#[test]
fn continuation_page_forwards_assertion() {
    let body = "<html><body><form method=\"post\" action=\"https://ilias.studium.kit.edu/saml\">\
                <input name=\"SAMLResponse\" value=\"blob-2\"/>\
                </form></body></html>";
    let reply = landing_reply(body);
    let (state, req) = handshake_on_continue(SHIB_URL, &reply).unwrap();
    assert_eq!(state, Handshake::AwaitFinal);
    let req = req.unwrap();
    assert_eq!(req.fields[1].1, "blob-2");
}

#[test]
fn continuation_without_assertion_fails() {
    let reply = landing_reply("<html><body>nothing</body></html>");
    let (state, req) = handshake_on_continue(SHIB_URL, &reply).unwrap();
    assert_eq!(state, Handshake::Failed(AuthError::AssertionNotFound));
    assert!(req.is_none());
}

#[test]
fn final_status_decides_outcome() {
    assert_eq!(handshake_on_final(200), Handshake::Authenticated);
    assert_eq!(handshake_on_final(204), Handshake::Authenticated);
    assert_eq!(handshake_on_final(302), Handshake::Failed(AuthError::LoginRejected));
    assert_eq!(handshake_on_final(403), Handshake::Failed(AuthError::LoginRejected));
}

#[test]
fn response_checks() {
    assert!(is_error_page_url("https://host/error/page.php"));
    assert!(!is_error_page_url("https://host/goto.php"));
    assert!(is_error_status(404));
    assert!(is_error_status(500));
    assert!(!is_error_status(200));
    assert!(!is_error_status(302));
}

#[test]
fn alert_banner_detection() {
    let page = scraper::Html::parse_document(
        "<html><body><div class=\"alert alert-danger\">failed</div></body></html>",
    );
    assert!(ilias_client::client::is_alert_document(&page).unwrap());
    let ok = scraper::Html::parse_document("<html><body><p>fine</p></body></html>");
    assert!(!ilias_client::client::is_alert_document(&ok).unwrap());
}

#[test]
fn invalid_selector_text_is_reported() {
    let page = scraper::Html::parse_document("<html><body></body></html>");
    let root = page.root_element();
    let err = ilias_client::scrape::select_in(&root, "p[").unwrap_err();
    assert_eq!(err.expected, "p[");
}
