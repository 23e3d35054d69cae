//! The configuration of the web server: its address, cookie key and authorized
//! users, the Google services it uses, and the PDF rendering service.
pub mod auth;
pub mod redirect;

use std::sync::Arc;
use vstd::prelude::*;
use crate::text::{push_char, str_equals};
use vstd::string::StrSliceExecFns;

verus! {

/// A new handle on a shared value (`Arc::clone`).
#[verifier::external_body]
fn share<T>(a: &Arc<T>) -> (r: Arc<T>)
    ensures
        r == *a,
{
    Arc::clone(a)
}

/// The web server's address, cookie key and authorized users.
#[derive(Clone)]
pub struct WebConfig {
    url: Arc<String>,
    cookie_key: Arc<String>,
    authorized_users: Arc<Vec<String>>,
}

/// A user that is not among the authorized users.
#[derive(Debug, Clone, Copy, PartialEq, Eq)]
pub struct Unauthorized;

/// The authorized users as texts.
pub open spec fn texts_of(v: Seq<String>) -> Seq<Seq<char>> {
    v.map_values(|s: String| s@)
}

impl WebConfig {
    /// The server's external address.
    pub closed spec fn url_text(&self) -> Seq<char> {
        (*self.url)@
    }

    /// The key of the cookies.
    pub closed spec fn cookie_key_text(&self) -> Seq<char> {
        (*self.cookie_key)@
    }

    /// The e-mails of the authorized users.
    pub closed spec fn users(&self) -> Seq<Seq<char>> {
        texts_of((*self.authorized_users)@)
    }

    /// The configuration of a server at `url` with its cookie key and its
    /// authorized users.
    pub fn new(url: String, cookie_key: String, authorized_users: Vec<String>) -> (r: Self)
        ensures
            r.url_text() == url@,
            r.cookie_key_text() == cookie_key@,
            r.users() == texts_of(authorized_users@),
    {
        WebConfig {
            url: Arc::new(url),
            cookie_key: Arc::new(cookie_key),
            authorized_users: Arc::new(authorized_users),
        }
    }

    /// The server's external address.
    pub fn url(&self) -> (r: Arc<String>)
        ensures
            (*r)@ == self.url_text(),
    {
        share(&self.url)
    }

    /// The key of the cookies.
    pub fn cookie_key(&self) -> (r: Arc<String>)
        ensures
            (*r)@ == self.cookie_key_text(),
    {
        share(&self.cookie_key)
    }

    /// Accepts exactly the authorized users.
    pub fn check_if_users_is_authorized(&self, email: &str) -> (r: Result<(), Unauthorized>)
        ensures
            r is Ok <==> self.users().contains(email@),
    {
        let users: &Vec<String> = &*self.authorized_users;
        let mut i: usize = 0;
        while i < users.len()
            invariant
                i <= users@.len(),
                users@ == (*self.authorized_users)@,
                forall|j: int| 0 <= j < i ==> #[trigger] users@[j]@ != email@,
            decreases users.len() - i,
        {
            if str_equals(users[i].as_str(), email) {
                assert(texts_of(users@)[i as int] == email@);
                return Ok(());
            }
            i = i + 1;
        }
        proof {
            if texts_of(users@).contains(email@) {
                let j = choose|j: int| 0 <= j < texts_of(users@).len() && texts_of(users@)[j] == email@;
                assert(users@[j]@ == email@);
            }
        }
        Err(Unauthorized)
    }
}

/// The Google services: the OAuth client, the service account and the bucket
/// that stores printed invoices.
#[derive(Clone)]
pub struct GoogleConfig {
    oauth_client_key: Arc<String>,
    oauth_client_secret: Arc<String>,
    service_account_json_key: Option<Arc<String>>,
    bucket_name: Arc<String>,
}

impl GoogleConfig {
    /// The key of the OAuth client.
    pub closed spec fn oauth_client_key_text(&self) -> Seq<char> {
        (*self.oauth_client_key)@
    }

    /// The secret of the OAuth client.
    pub closed spec fn oauth_client_secret_text(&self) -> Seq<char> {
        (*self.oauth_client_secret)@
    }

    /// The credentials of the service account, if any.
    pub closed spec fn service_account_text(&self) -> Option<Seq<char>> {
        match self.service_account_json_key {
            Some(k) => Some((*k)@),
            None => None,
        }
    }

    /// The bucket of the printed invoices.
    pub closed spec fn bucket_name_text(&self) -> Seq<char> {
        (*self.bucket_name)@
    }

    /// The configuration of the Google services.
    pub fn new(
        oauth_client_key: String,
        oauth_client_secret: String,
        service_account_json_key: Option<String>,
        bucket_name: String,
    ) -> (r: Self)
        ensures
            r.oauth_client_key_text() == oauth_client_key@,
            r.oauth_client_secret_text() == oauth_client_secret@,
            r.service_account_text() == service_account_json_key.deep_view(),
            r.bucket_name_text() == bucket_name@,
    {
        GoogleConfig {
            oauth_client_key: Arc::new(oauth_client_key),
            oauth_client_secret: Arc::new(oauth_client_secret),
            service_account_json_key: match service_account_json_key {
                Some(k) => Some(Arc::new(k)),
                None => None,
            },
            bucket_name: Arc::new(bucket_name),
        }
    }

    /// The key of the OAuth client.
    pub fn oauth_client_key(&self) -> (r: Arc<String>)
        ensures
            (*r)@ == self.oauth_client_key_text(),
    {
        share(&self.oauth_client_key)
    }

    /// The secret of the OAuth client.
    pub fn oauth_client_secret(&self) -> (r: Arc<String>)
        ensures
            (*r)@ == self.oauth_client_secret_text(),
    {
        share(&self.oauth_client_secret)
    }

    /// The credentials of the service account, if any.
    pub fn service_account_json_key(&self) -> (r: Option<Arc<String>>)
        ensures
            match r {
                Some(k) => self.service_account_text() == Some((*k)@),
                None => self.service_account_text() is None,
            },
    {
        match &self.service_account_json_key {
            Some(k) => Some(share(k)),
            None => None,
        }
    }

    /// The bucket of the printed invoices.
    pub fn bucket_name(&self) -> (r: Arc<String>)
        ensures
            (*r)@ == self.bucket_name_text(),
    {
        share(&self.bucket_name)
    }
}

/// The key of the PDF rendering service.
#[derive(Clone)]
pub struct PdfRocketConfig {
    api_key: Arc<String>,
}

impl PdfRocketConfig {
    /// The key of the PDF rendering service.
    pub closed spec fn api_key_text(&self) -> Seq<char> {
        (*self.api_key)@
    }

    /// The configuration of the PDF rendering service with its key.
    pub fn new(api_key: String) -> (r: Self)
        ensures
            r.api_key_text() == api_key@,
    {
        PdfRocketConfig { api_key: Arc::new(api_key) }
    }

    /// The key of the PDF rendering service.
    pub fn api_key(&self) -> (r: Arc<String>)
        ensures
            (*r)@ == self.api_key_text(),
    {
        share(&self.api_key)
    }
}

/// Everything the routes need to know.
#[derive(Clone)]
pub struct RouterConfig {
    web: WebConfig,
    google: GoogleConfig,
    pdf_rocket: PdfRocketConfig,
}

impl RouterConfig {
    /// The web server's part.
    pub closed spec fn web_config(&self) -> WebConfig {
        self.web
    }

    /// The Google services' part.
    pub closed spec fn google_config(&self) -> GoogleConfig {
        self.google
    }

    /// The PDF rendering service's part.
    pub closed spec fn pdf_rocket_config(&self) -> PdfRocketConfig {
        self.pdf_rocket
    }

    /// The configuration of the routes from its three parts.
    pub fn new(web: WebConfig, google: GoogleConfig, pdf_rocket: PdfRocketConfig) -> (r: Self)
        ensures
            r.web_config() == web,
            r.google_config() == google,
            r.pdf_rocket_config() == pdf_rocket,
    {
        RouterConfig { web, google, pdf_rocket }
    }

    /// The secret of the OAuth client.
    pub fn google_oauth_client_secret(&self) -> (r: Arc<String>)
        ensures
            (*r)@ == self.google_config().oauth_client_secret_text(),
    {
        self.google.oauth_client_secret()
    }

    /// The key of the OAuth client.
    pub fn google_oauth_client_key(&self) -> (r: Arc<String>)
        ensures
            (*r)@ == self.google_config().oauth_client_key_text(),
    {
        self.google.oauth_client_key()
    }

    /// The credentials of the service account, if any.
    pub fn google_service_account_json_key(&self) -> (r: Option<Arc<String>>)
        ensures
            match r {
                Some(k) => self.google_config().service_account_text() == Some((*k)@),
                None => self.google_config().service_account_text() is None,
            },
    {
        self.google.service_account_json_key()
    }

    /// The bucket of the printed invoices.
    pub fn google_bucket_name(&self) -> (r: Arc<String>)
        ensures
            (*r)@ == self.google_config().bucket_name_text(),
    {
        self.google.bucket_name()
    }

    /// The server's external address.
    pub fn external_url(&self) -> (r: Arc<String>)
        ensures
            (*r)@ == self.web_config().url_text(),
    {
        self.web.url()
    }

    /// The key of the cookies.
    pub fn cookie_key(&self) -> (r: Arc<String>)
        ensures
            (*r)@ == self.web_config().cookie_key_text(),
    {
        self.web.cookie_key()
    }

    /// The key of the PDF rendering service.
    pub fn pdf_rocket_api_key(&self) -> (r: Arc<String>)
        ensures
            (*r)@ == self.pdf_rocket_config().api_key_text(),
    {
        self.pdf_rocket.api_key()
    }

    /// Accepts exactly the authorized users.
    pub fn check_if_users_is_authorized(&self, email: &str) -> (r: Result<(), Unauthorized>)
        ensures
            r is Ok <==> self.web_config().users().contains(email@),
    {
        self.web.check_if_users_is_authorized(email)
    }
}

/// A signed-in user.
#[derive(Clone)]
pub struct UserData;

/// The options of the server program.
#[derive(Debug)]
pub struct ServerConfig {
    pub db_url: String,
    pub port: u16,
    pub lmah_cookie_key: String,
    pub lmah_google_oauth_key: String,
    pub lmah_google_oauth_secret: String,
    pub lmah_google_credentials: String,
    pub lmah_google_bucket_name: String,
    pub lmah_external_url: String,
    pub lmah_pdf_rocket_api_key: String,
    pub lmah_authorized_users: String,
}

/// The pieces of `s` between its commas, in order (one piece when `s` has no
/// comma; empty pieces are kept).
pub open spec fn comma_pieces(s: Seq<char>) -> Seq<Seq<char>>
    decreases s.len(),
{
    if s.len() == 0 {
        seq![Seq::empty()]
    } else {
        let before = comma_pieces(s.drop_last());
        if s.last() == ',' {
            before.push(Seq::empty())
        } else {
            before.update(before.len() - 1, before.last().push(s.last()))
        }
    }
}

proof fn lemma_comma_pieces_nonempty(s: Seq<char>)
    ensures
        comma_pieces(s).len() >= 1,
    decreases s.len(),
{
    if s.len() > 0 {
        lemma_comma_pieces_nonempty(s.drop_last());
    }
}

/// The authorized users of a comma-separated list of e-mails
/// ("email1@test.com,email2@test.com").
pub fn parse_authorized_users(list: &str) -> (r: Vec<String>)
    ensures
        texts_of(r@) == comma_pieces(list@),
{
    let n = list.unicode_len();
    let mut done: Vec<String> = Vec::new();
    let mut current = String::new();
    let mut i: usize = 0;
    assert(list@.take(0) =~= Seq::<char>::empty());
    assert(texts_of(done@).push(current@) =~= comma_pieces(list@.take(0)));
    while i < n
        invariant
            n == list@.len(),
            i <= n,
            texts_of(done@).push(current@) == comma_pieces(list@.take(i as int)),
        decreases n - i,
    {
        let c = list.get_char(i);
        let ghost before = comma_pieces(list@.take(i as int));
        assert(list@.take(i + 1).drop_last() =~= list@.take(i as int));
        assert(list@.take(i + 1).last() == c);
        proof {
            lemma_comma_pieces_nonempty(list@.take(i as int));
        }
        if c == ',' {
            let finished = current;
            done.push(finished);
            current = String::new();
            assert(texts_of(done@).push(current@) =~= before.push(Seq::empty()));
        } else {
            push_char(&mut current, c);
            assert(texts_of(done@).push(current@) =~= before.update(
                before.len() - 1,
                before.last().push(c),
            ));
        }
        i = i + 1;
    }
    done.push(current);
    assert(list@.take(n as int) =~= list@);
    done
}

} // verus!
