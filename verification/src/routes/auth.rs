//! The decisions of the sign-in with Google: where to come back to, what the
//! answer of the identity provider must carry, and which users get in.
use vstd::prelude::*;
use vstd::string::StringExecFns;
use crate::routes::RouterConfig;
use crate::text::str_equals;

verus! {

/// Why a sign-in is refused.
#[derive(Debug, Clone, Copy, PartialEq, Eq)]
pub enum SignInRefusal {
    /// The state or the PKCE verifier cookie is missing, or the state sent
    /// back differs from the state cookie.
    MissingStateOrVerifier,
    /// The provider came back without a state.
    NoState,
    /// The provider came back without an authorization code.
    NoCode,
    /// The provider's user information has no e-mail address.
    NoEmail,
    /// The provider's user information does not say whether the address is
    /// verified.
    NoVerifiedFlag,
    /// The e-mail address is not verified.
    EmailNotVerified,
    /// The user is not among the authorized users.
    NotAuthorized,
    /// The provider's user information is not a JSON document.
    UnreadableUserInfo,
}

/// What to exchange with the provider for an access token.
pub struct CodeExchange {
    pub code: String,
    pub pkce_verifier: String,
}

/// An address, `/` when there is none.
pub open spec fn or_root(o: Option<Seq<char>>) -> Seq<char> {
    match o {
        Some(u) => u,
        None => "/"@,
    }
}

/// The address to come back to after signing in: the one asked for, the root
/// when none was.
pub fn return_address(asked: Option<String>) -> (r: String)
    ensures
        r@ == or_root(
            match asked {
                Some(u) => Some(u@),
                None => None,
            },
        ),
{
    match asked {
        Some(u) => u,
        None => String::from_str("/"),
    }
}

/// The address the provider sends the user back to.
pub fn oauth_redirect_url(external_url: &str) -> (r: String)
    ensures
        r@ == external_url@ + "/signin/complete"@,
{
    external_url.to_string().concat("/signin/complete")
}

/// The address of the user information for an access token.
pub fn userinfo_url(access_token: &str) -> (r: String)
    ensures
        r@ == "https://www.googleapis.com/oauth2/v2/userinfo?oauth_token="@ + access_token@,
{
    String::from_str("https://www.googleapis.com/oauth2/v2/userinfo?oauth_token=").concat(
        access_token,
    )
}

/// The outcome of the provider's answer, from the state and verifier cookies
/// and the state and code it sent back.
pub open spec fn callback_outcome(
    state_cookie: Option<Seq<char>>,
    verifier_cookie: Option<Seq<char>>,
    state: Option<Seq<char>>,
    code: Option<Seq<char>>,
) -> Result<(Seq<char>, Seq<char>), SignInRefusal> {
    if state_cookie is None || verifier_cookie is None {
        Err(SignInRefusal::MissingStateOrVerifier)
    } else if state is None {
        Err(SignInRefusal::NoState)
    } else if code is None {
        Err(SignInRefusal::NoCode)
    } else if state_cookie != state {
        Err(SignInRefusal::MissingStateOrVerifier)
    } else {
        Ok((code->Some_0, verifier_cookie->Some_0))
    }
}

/// An optional text as a character sequence.
pub open spec fn text_of(o: Option<String>) -> Option<Seq<char>> {
    match o {
        Some(s) => Some(s@),
        None => None,
    }
}

/// Checks the provider's answer against the cookies set when the sign-in
/// began: both cookies must be there, the answer must carry a state and a
/// code, and the state must be the one of the cookie. On success, the code and
/// the verifier to exchange for a token.
pub fn check_callback(
    state_cookie: Option<String>,
    verifier_cookie: Option<String>,
    state: Option<String>,
    code: Option<String>,
) -> (r: Result<CodeExchange, SignInRefusal>)
    ensures
        match callback_outcome(
            text_of(state_cookie),
            text_of(verifier_cookie),
            text_of(state),
            text_of(code),
        ) {
            Ok((c, v)) => r matches Ok(x) && x.code@ == c && x.pkce_verifier@ == v,
            Err(e) => r == Err::<CodeExchange, SignInRefusal>(e),
        },
{
    match (state_cookie, verifier_cookie) {
        (Some(current), Some(verifier)) => {
            let state = match state {
                Some(s) => s,
                None => {
                    return Err(SignInRefusal::NoState);
                },
            };
            let code = match code {
                Some(c) => c,
                None => {
                    return Err(SignInRefusal::NoCode);
                },
            };
            if !str_equals(current.as_str(), state.as_str()) {
                return Err(SignInRefusal::MissingStateOrVerifier);
            }
            Ok(CodeExchange { code, pkce_verifier: verifier })
        },
        _ => Err(SignInRefusal::MissingStateOrVerifier),
    }
}

/// The outcome of the user check: the address to keep, or why the user is
/// refused.
pub open spec fn user_outcome(
    users: Seq<Seq<char>>,
    email: Option<Seq<char>>,
    verified_email: Option<bool>,
) -> Result<Seq<char>, SignInRefusal> {
    match email {
        None => Err(SignInRefusal::NoEmail),
        Some(e) => match verified_email {
            None => Err(SignInRefusal::NoVerifiedFlag),
            Some(false) => Err(SignInRefusal::EmailNotVerified),
            Some(true) => if users.contains(e) {
                Ok(e)
            } else {
                Err(SignInRefusal::NotAuthorized)
            },
        },
    }
}

/// Checks the user the provider vouches for: an e-mail address, verified, of
/// an authorized user. On success, the address to keep in the user cookie.
pub fn check_user(config: &RouterConfig, email: Option<String>, verified_email: Option<bool>) -> (r:
    Result<String, SignInRefusal>)
    ensures
        match user_outcome(config.web_config().users(), text_of(email), verified_email) {
            Ok(e) => r matches Ok(x) && x@ == e,
            Err(err) => r == Err::<String, SignInRefusal>(err),
        },
{
    let email = match email {
        Some(e) => e,
        None => {
            return Err(SignInRefusal::NoEmail);
        },
    };
    let verified = match verified_email {
        Some(v) => v,
        None => {
            return Err(SignInRefusal::NoVerifiedFlag);
        },
    };
    if !verified {
        return Err(SignInRefusal::EmailNotVerified);
    }
    match config.check_if_users_is_authorized(email.as_str()) {
        Ok(()) => Ok(email),
        Err(_) => Err(SignInRefusal::NotAuthorized),
    }
}

/// The e-mail address and the verified flag of a user-information document.
pub struct UserInfo {
    pub email: Option<String>,
    pub verified_email: Option<bool>,
}

/// What `serde_json` reads from a user-information text: `None` when the text
/// is not JSON; otherwise the `email` member when it is a string and the
/// `verified_email` member when it is a boolean.
pub uninterp spec fn userinfo_of(body: Seq<char>) -> Option<(Option<Seq<char>>, Option<bool>)>;

/// Reads a user-information text with `serde_json::from_str` into a JSON value,
/// then takes its `email` member as a string (`Value::as_str`) and its
/// `verified_email` member as a boolean (`Value::as_bool`); a member that is
/// missing or of another type, or a value that is not an object, gives `None`
/// for it. The contract names the outcome and says no more of it.
#[verifier::external_body]
fn read_userinfo(body: &str) -> (r: Option<UserInfo>)
    ensures
        match r {
            Some(u) => userinfo_of(body@) == Some((text_of(u.email), u.verified_email)),
            None => userinfo_of(body@) is None,
        },
{
    match serde_json::from_str::<serde_json::Value>(body) {
        Ok(v) => Some(
            UserInfo {
                email: v["email"].as_str().map(String::from),
                verified_email: v["verified_email"].as_bool(),
            },
        ),
        Err(_) => None,
    }
}

/// Checks the user that the provider's user-information text vouches for: the
/// text must be JSON, and its e-mail address and verified flag must pass
/// `check_user`.
pub fn check_userinfo(config: &RouterConfig, body: &str) -> (r: Result<String, SignInRefusal>)
    ensures
        match userinfo_of(body@) {
            None => r == Err::<String, SignInRefusal>(SignInRefusal::UnreadableUserInfo),
            Some((email, verified)) => match user_outcome(
                config.web_config().users(),
                email,
                verified,
            ) {
                Ok(e) => r matches Ok(x) && x@ == e,
                Err(err) => r == Err::<String, SignInRefusal>(err),
            },
        },
{
    match read_userinfo(body) {
        None => Err(SignInRefusal::UnreadableUserInfo),
        Some(info) => check_user(config, info.email, info.verified_email),
    }
}

/// Where a visitor who is not signed in is sent: the sign-in page, which
/// brings them back to the address they asked for.
pub fn login_url(asked: &str) -> (r: String)
    ensures
        r@ == "/signin?return_url="@ + asked@,
{
    String::from_str("/signin?return_url=").concat(asked)
}

} // verus!
