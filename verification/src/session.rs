//! One account's session with the site: its cookies, and whether it is
//! logged in.

use vstd::prelude::*;
use reqwest_cookie_store::CookieStore;
use crate::error::ErrorKind;
use crate::text::has_infix;
use crate::text::str_contains;

verus! {

/// What the address of a response holds when the site has sent the session
/// to the login page instead of the page asked for.
pub const LOGIN_MARK: &'static str = "login.php";

/// Whether the site knows the session.
#[derive(Clone, Copy, Debug, PartialEq, Eq, Structural)]
pub enum AuthState {
    LoggedOut,
    /// The login exchange is under way.
    Authenticating,
    LoggedIn,
}

/// The response that the session waits for.
#[derive(Clone, Copy, Debug, PartialEq, Eq, Structural)]
pub enum Pending {
    Nothing,
    /// The check-in page, asked for with the cookies at hand.
    GatedPage,
    /// The login page.
    LoginPage,
    /// The answer to the login form.
    LoginResult,
    /// The check-in page, asked for again after the login form.
    GatedPageAgain,
}

/// A request that the driver is to send.
#[derive(Clone, Copy, Debug, PartialEq, Eq, Structural)]
pub enum AuthRequest {
    /// Get the check-in page and report the address it came from.
    GetGatedPage,
    /// Get the login page.
    GetLoginPage,
    /// Post the login form and report whether the status was a success.
    PostLogin,
}

/// What the session says to a response.
pub enum AuthStep {
    /// Send this next.
    Send(AuthRequest),
    /// The session is logged in, and this is the check-in page.
    Page(String),
    /// The exchange is over, and failed.
    Failed(ErrorKind),
}

/// A step as the contracts see it.
pub enum AuthStepView {
    Send(AuthRequest),
    Page(Seq<char>),
    Failed(ErrorKind),
}

impl View for AuthStep {
    type V = AuthStepView;

    open spec fn view(&self) -> AuthStepView {
        match *self {
            AuthStep::Send(r) => AuthStepView::Send(r),
            AuthStep::Page(body) => AuthStepView::Page(body@),
            AuthStep::Failed(e) => AuthStepView::Failed(e),
        }
    }
}

/// The login state of one account, and where its exchange with the site
/// stands.
#[derive(Clone, Copy, Debug, PartialEq, Eq, Structural)]
pub struct AuthSession {
    pub state: AuthState,
    pub pending: Pending,
}

/// The site has answered with its login page.
pub open spec fn sent_to_login(final_url: Seq<char>) -> bool {
    has_infix(final_url, LOGIN_MARK@)
}

/// The session after a page has arrived from `final_url`.
pub open spec fn after_page(s: AuthSession, final_url: Seq<char>) -> AuthSession {
    match s.pending {
        Pending::GatedPage => if sent_to_login(final_url) {
            AuthSession { state: AuthState::Authenticating, pending: Pending::LoginPage }
        } else {
            AuthSession { state: AuthState::LoggedIn, pending: Pending::Nothing }
        },
        Pending::LoginPage => AuthSession { state: s.state, pending: Pending::LoginResult },
        Pending::GatedPageAgain => if sent_to_login(final_url) {
            AuthSession { state: AuthState::LoggedOut, pending: Pending::Nothing }
        } else {
            AuthSession { state: AuthState::LoggedIn, pending: Pending::Nothing }
        },
        _ => after_failure(s),
    }
}

/// What the session says to a page that has arrived from `final_url`.
pub open spec fn page_step(s: AuthSession, final_url: Seq<char>, body: Seq<char>) -> AuthStepView {
    match s.pending {
        Pending::GatedPage => if sent_to_login(final_url) {
            AuthStepView::Send(AuthRequest::GetLoginPage)
        } else {
            AuthStepView::Page(body)
        },
        Pending::LoginPage => AuthStepView::Send(AuthRequest::PostLogin),
        Pending::GatedPageAgain => if sent_to_login(final_url) {
            AuthStepView::Failed(ErrorKind::Auth)
        } else {
            AuthStepView::Page(body)
        },
        _ => AuthStepView::Failed(ErrorKind::Lock),
    }
}

/// The session after the login form has been answered.
pub open spec fn after_login_result(s: AuthSession, accepted: bool) -> AuthSession {
    match s.pending {
        Pending::LoginResult => if accepted {
            AuthSession { state: s.state, pending: Pending::GatedPageAgain }
        } else {
            AuthSession { state: AuthState::LoggedOut, pending: Pending::Nothing }
        },
        _ => after_failure(s),
    }
}

/// What the session says when the login form has been answered.
pub open spec fn login_result_step(s: AuthSession, accepted: bool) -> AuthStepView {
    match s.pending {
        Pending::LoginResult => if accepted {
            AuthStepView::Send(AuthRequest::GetGatedPage)
        } else {
            AuthStepView::Failed(ErrorKind::Network)
        },
        _ => AuthStepView::Failed(ErrorKind::Lock),
    }
}

/// The session after its exchange has been broken off, because a request
/// failed on the way or something came that was not asked for: it waits for
/// nothing, and a login that was under way leaves it logged out.
pub open spec fn after_failure(s: AuthSession) -> AuthSession {
    AuthSession {
        state: if s.state == AuthState::Authenticating {
            AuthState::LoggedOut
        } else {
            s.state
        },
        pending: Pending::Nothing,
    }
}

/// The session after the fetch of the check-in page has begun: an exchange
/// that was under way is dropped.
pub open spec fn after_begin(s: AuthSession) -> AuthSession {
    AuthSession {
        state: if s.state == AuthState::Authenticating {
            AuthState::LoggedOut
        } else {
            s.state
        },
        pending: Pending::GatedPage,
    }
}

impl AuthSession {
    /// A session that the site does not know, and that waits for nothing.
    pub fn new() -> (r: Self)
        ensures
            r == (AuthSession { state: AuthState::LoggedOut, pending: Pending::Nothing }),
    {
        AuthSession { state: AuthState::LoggedOut, pending: Pending::Nothing }
    }

    /// Starts the fetch of the check-in page: the first request is for the
    /// page itself, with the cookies at hand. An exchange that was under way
    /// is dropped.
    pub fn begin(&mut self) -> (r: AuthRequest)
        ensures
            r == AuthRequest::GetGatedPage,
            *final(self) == after_begin(*old(self)),
    {
        if self.state == AuthState::Authenticating {
            self.state = AuthState::LoggedOut;
        }
        self.pending = Pending::GatedPage;
        AuthRequest::GetGatedPage
    }

    /// Takes in a page, with the address it came from after all redirects.
    ///
    /// A check-in page that comes from the login page means that the site
    /// does not know the session: the login exchange starts. If that happens
    /// again after the exchange, the login has failed for good. A check-in
    /// page from anywhere else is handed out. A page that was not asked for
    /// fails with `Lock`.
    pub fn on_page(&mut self, final_url: &str, body: String) -> (r: AuthStep)
        ensures
            *final(self) == after_page(*old(self), final_url@),
            r@ == page_step(*old(self), final_url@, body@),
    {
        match self.pending {
            Pending::GatedPage => {
                if str_contains(final_url, LOGIN_MARK) {
                    self.state = AuthState::Authenticating;
                    self.pending = Pending::LoginPage;
                    AuthStep::Send(AuthRequest::GetLoginPage)
                } else {
                    self.state = AuthState::LoggedIn;
                    self.pending = Pending::Nothing;
                    AuthStep::Page(body)
                }
            },
            Pending::LoginPage => {
                self.pending = Pending::LoginResult;
                AuthStep::Send(AuthRequest::PostLogin)
            },
            Pending::GatedPageAgain => {
                self.pending = Pending::Nothing;
                if str_contains(final_url, LOGIN_MARK) {
                    self.state = AuthState::LoggedOut;
                    AuthStep::Failed(ErrorKind::Auth)
                } else {
                    self.state = AuthState::LoggedIn;
                    AuthStep::Page(body)
                }
            },
            _ => {
                self.break_off();
                AuthStep::Failed(ErrorKind::Lock)
            },
        }
    }

    /// Takes in whether the site answered the login form with a success
    /// status. If so, the check-in page is asked for again; if not, the
    /// exchange fails with `Network`.
    pub fn on_login_result(&mut self, accepted: bool) -> (r: AuthStep)
        ensures
            *final(self) == after_login_result(*old(self), accepted),
            r@ == login_result_step(*old(self), accepted),
    {
        match self.pending {
            Pending::LoginResult => {
                if accepted {
                    self.pending = Pending::GatedPageAgain;
                    AuthStep::Send(AuthRequest::GetGatedPage)
                } else {
                    self.state = AuthState::LoggedOut;
                    self.pending = Pending::Nothing;
                    AuthStep::Failed(ErrorKind::Network)
                }
            },
            _ => {
                self.break_off();
                AuthStep::Failed(ErrorKind::Lock)
            },
        }
    }

    /// Breaks the exchange off.
    fn break_off(&mut self)
        ensures
            *final(self) == after_failure(*old(self)),
    {
        if self.state == AuthState::Authenticating {
            self.state = AuthState::LoggedOut;
        }
        self.pending = Pending::Nothing;
    }

    /// Takes in that the request under way failed before any response: the
    /// exchange is over, with `Network`; with `Lock` if no request was under
    /// way. A login exchange that is cut off leaves the session logged out.
    pub fn on_failure(&mut self) -> (r: ErrorKind)
        ensures
            *final(self) == after_failure(*old(self)),
            r == if old(self).pending == Pending::Nothing {
                ErrorKind::Lock
            } else {
                ErrorKind::Network
            },
    {
        let kind = if self.pending == Pending::Nothing {
            ErrorKind::Lock
        } else {
            ErrorKind::Network
        };
        self.break_off();
        kind
    }
}

/// The session is in step: it is `Authenticating` exactly while it waits for
/// a response of the login exchange.
pub open spec fn in_step(s: AuthSession) -> bool {
    s.state == AuthState::Authenticating <==> (s.pending == Pending::LoginPage || s.pending
        == Pending::LoginResult || s.pending == Pending::GatedPageAgain)
}

/// A new session is in step, and a session that is in step stays so,
/// whatever is reported to it.
pub proof fn lemma_sessions_stay_in_step(s: AuthSession, final_url: Seq<char>, accepted: bool)
    requires
        in_step(s),
    ensures
        in_step(AuthSession { state: AuthState::LoggedOut, pending: Pending::Nothing }),
        in_step(after_begin(s)),
        in_step(after_page(s, final_url)),
        in_step(after_login_result(s, accepted)),
        in_step(after_failure(s)),
{
}

/// The login state changes only along these lines: a login begins when the
/// site sends the session to its login page, and ends logged in or logged
/// out; a session becomes logged in only by a check-in page that does not
/// come from the login page.
pub proof fn lemma_login_state_moves(s: AuthSession, final_url: Seq<char>, accepted: bool)
    requires
        in_step(s),
    ensures
        after_page(s, final_url).state != s.state ==> {
            ||| (s.pending == Pending::GatedPage && sent_to_login(final_url) && after_page(s, final_url).state
                == AuthState::Authenticating)
            ||| (s.pending == Pending::GatedPage && !sent_to_login(final_url) && after_page(s, final_url).state
                == AuthState::LoggedIn)
            ||| (s.pending == Pending::GatedPageAgain && sent_to_login(final_url) && after_page(
                s,
                final_url,
            ).state == AuthState::LoggedOut)
            ||| (s.pending == Pending::GatedPageAgain && !sent_to_login(final_url) && after_page(
                s,
                final_url,
            ).state == AuthState::LoggedIn)
            ||| (s.pending == Pending::LoginResult && after_page(s, final_url).state == AuthState::LoggedOut)
        },
        after_login_result(s, accepted).state != s.state ==> s.state == AuthState::Authenticating
            && after_login_result(s, accepted).state == AuthState::LoggedOut,
        after_failure(s).state != s.state ==> s.state == AuthState::Authenticating && after_failure(s).state
            == AuthState::LoggedOut,
        after_begin(s).state != s.state ==> s.state == AuthState::Authenticating && after_begin(s).state
            == AuthState::LoggedOut,
{
}

/// A session that is sent to the login page, whose login form is accepted and
/// whose second fetch is not sent there again, passes from `Authenticating`
/// to `LoggedIn` and hands out the body of the second fetch.
pub proof fn lemma_login_round(s: AuthSession, first_url: Seq<char>, login_url: Seq<char>, second_url: Seq<char>, body: Seq<char>)
    requires
        s.pending == Pending::GatedPage,
        sent_to_login(first_url),
        !sent_to_login(second_url),
    ensures
        ({
            let s1 = after_page(s, first_url);
            let s2 = after_page(s1, login_url);
            let s3 = after_login_result(s2, true);
            let s4 = after_page(s3, second_url);
            &&& s1.state == AuthState::Authenticating
            &&& page_step(s, first_url, body) == AuthStepView::Send(AuthRequest::GetLoginPage)
            &&& page_step(s1, login_url, body) == AuthStepView::Send(AuthRequest::PostLogin)
            &&& login_result_step(s2, true) == AuthStepView::Send(AuthRequest::GetGatedPage)
            &&& s3.state == AuthState::Authenticating
            &&& page_step(s3, second_url, body) == AuthStepView::Page(body)
            &&& s4 == (AuthSession { state: AuthState::LoggedIn, pending: Pending::Nothing })
        }),
{
}

/// A login exchange never ends logged in unless a check-in page came from
/// somewhere else than the login page.
pub proof fn lemma_logged_in_only_by_page(s: AuthSession, final_url: Seq<char>)
    requires
        after_page(s, final_url).state == AuthState::LoggedIn,
        s.state != AuthState::LoggedIn,
    ensures
        (s.pending == Pending::GatedPage || s.pending == Pending::GatedPageAgain) && !sent_to_login(final_url),
{
}

/// One field of a form.
pub struct FormField {
    pub name: String,
    pub value: String,
}

impl View for FormField {
    type V = (Seq<char>, Seq<char>);

    open spec fn view(&self) -> (Seq<char>, Seq<char>) {
        (self.name@, self.value@)
    }
}

/// The fields of a form as the contracts see them.
pub open spec fn form_view(form: Seq<FormField>) -> Seq<(Seq<char>, Seq<char>)> {
    form.map_values(|f: FormField| f@)
}

/// A form field with the given name and value.
pub fn field(name: &str, value: &str) -> (r: FormField)
    ensures
        r@ == (name@, value@),
{
    FormField { name: String::from_str(name), value: String::from_str(value) }
}

/// The login form of an account: its name, its password, a stay of seven
/// days, and the check-in page as the place to return to.
pub fn login_form(id: &str, pwd: &str) -> (r: Vec<FormField>)
    ensures
        form_view(r@) == seq![
            ("username"@, id@),
            ("password"@, pwd@),
            ("logout"@, "7days"@),
            ("returnto"@, "attendance.php"@),
        ],
{
    let mut form: Vec<FormField> = Vec::new();
    form.push(field("username", id));
    form.push(field("password", pwd));
    form.push(field("logout", "7days"));
    form.push(field("returnto", "attendance.php"));
    assert(form_view(form@) =~= seq![
        ("username"@, id@),
        ("password"@, pwd@),
        ("logout"@, "7days"@),
        ("returnto"@, "attendance.php"@),
    ]);
    form
}

/// `cookie_store::CookieStore`, as `reqwest_cookie_store` hands it on.
/// Nothing inside it is visible here.
#[verifier::external_type_specification]
#[verifier::external_body]
pub struct ExCookieStore(CookieStore);

/// The cookies that a store holds, expired ones included, each as its
/// domain, its path and its name.
pub uninterp spec fn cookies_of(store: CookieStore) -> Set<(Seq<char>, Seq<char>, Seq<char>)>;

/// Whether the bytes are a saved cookie store: lines of text, each the JSON
/// form of one cookie.
pub uninterp spec fn is_saved_store(bytes: Seq<u8>) -> bool;

/// `CookieStore::default`: a store without cookies.
#[verifier::external_body]
fn store_new() -> (r: CookieStore)
    ensures
        cookies_of(r).is_empty(),
{
    CookieStore::default()
}

/// `CookieStore::clear`: afterwards the store holds no cookie.
#[verifier::external_body]
fn store_clear(store: &mut CookieStore)
    ensures
        cookies_of(*final(store)).is_empty(),
{
    store.clear()
}

/// The cookies that the lines of a saved store hold, expired ones included,
/// each as its domain, its path and its name.
pub uninterp spec fn cookies_in(bytes: Seq<u8>) -> Set<(Seq<char>, Seq<char>, Seq<char>)>;

/// Where a cookie stands in a store.
pub struct CookieKey {
    pub domain: String,
    pub path: String,
    pub name: String,
}

impl View for CookieKey {
    type V = (Seq<char>, Seq<char>, Seq<char>);

    open spec fn view(&self) -> (Seq<char>, Seq<char>, Seq<char>) {
        (self.domain@, self.path@, self.name@)
    }
}

/// The places of a list as the contracts see them.
pub open spec fn key_views(keys: Seq<CookieKey>) -> Seq<(Seq<char>, Seq<char>, Seq<char>)> {
    keys.map_values(|k: CookieKey| k@)
}

/// `CookieStore::load_json` on bytes in memory. It succeeds exactly on a
/// saved store, and no bytes at all are a saved store without cookies. The
/// store that is loaded holds cookies of the lines only; which of them is
/// not stated, since those that have expired by the time of loading are
/// left out.
#[verifier::external_body]
fn store_load(bytes: &[u8]) -> (r: Option<CookieStore>)
    ensures
        r is Some <==> is_saved_store(bytes@),
        bytes@.len() == 0 ==> r is Some && cookies_of(r.unwrap()).is_empty(),
        r is Some ==> cookies_of(r.unwrap()).subset_of(cookies_in(bytes@)),
{
    CookieStore::load_json(bytes).ok()
}

/// `CookieStore::load_json_all` on bytes in memory: it reads the lines as
/// `load_json` does and succeeds on the same bytes, and leaves no cookie of
/// the lines out, expired or not.
#[verifier::external_body]
fn store_load_all(bytes: &[u8]) -> (r: Option<CookieStore>)
    ensures
        r is Some <==> is_saved_store(bytes@),
        bytes@.len() == 0 ==> r is Some && cookies_of(r.unwrap()).is_empty(),
        r is Some ==> cookies_of(r.unwrap()) == cookies_in(bytes@),
{
    CookieStore::load_json_all(bytes).ok()
}

/// `CookieStore::iter_any`, gathered into a list: of every cookie of the
/// store its domain, its path and its name, as the store keeps it under
/// them.
#[verifier::external_body]
fn store_keys(store: &CookieStore) -> (r: Vec<CookieKey>)
    ensures
        key_views(r@).to_set() == cookies_of(*store),
{
    store.iter_any().map(|c| CookieKey {
        domain: String::from(&c.domain),
        path: String::from(&c.path),
        name: c.name().to_string(),
    }).collect()
}

/// `CookieStore::save_json` into a buffer: one line for each cookie that is
/// persistent and has not expired by the time of saving. A store without
/// cookies gives no bytes. Of other stores nothing is stated: which cookies
/// are written goes by the clock, and a cookie whose name has no written
/// form that reads back (an empty name, say) makes bytes that are no saved
/// store.
#[verifier::external_body]
fn store_save(store: &CookieStore) -> (r: Option<Vec<u8>>)
    ensures
        cookies_of(*store).is_empty() ==> r is Some && r.unwrap()@.len() == 0,
{
    let mut out = Vec::new();
    store.save_json(&mut out).ok().map(|_| out)
}

/// Whether two places are the same.
fn same_key(a: &CookieKey, b: &CookieKey) -> (r: bool)
    ensures
        r == (a@ == b@),
{
    a.domain == b.domain && a.path == b.path && a.name == b.name
}

/// Whether the place is among those of the list.
fn holds_key(keys: &Vec<CookieKey>, key: &CookieKey) -> (r: bool)
    ensures
        r == key_views(keys@).contains(key@),
{
    let mut i: usize = 0;
    while i < keys.len()
        invariant
            0 <= i <= keys.len(),
            forall|j: int| 0 <= j < i ==> (#[trigger] key_views(keys@)[j]) != key@,
        decreases keys.len() - i,
    {
        assert(key_views(keys@)[i as int] == keys@[i as int]@);
        if same_key(&keys[i], key) {
            return true;
        }
        i = i + 1;
    }
    false
}

/// Whether every place of the first list is among those of the second.
fn holds_all(inner: &Vec<CookieKey>, outer: &Vec<CookieKey>) -> (r: bool)
    ensures
        r == key_views(inner@).to_set().subset_of(key_views(outer@).to_set()),
{
    let mut i: usize = 0;
    while i < inner.len()
        invariant
            0 <= i <= inner.len(),
            forall|j: int| 0 <= j < i ==> key_views(outer@).contains(#[trigger] key_views(inner@)[j]),
        decreases inner.len() - i,
    {
        if !holds_key(outer, &inner[i]) {
            assert(key_views(inner@)[i as int] == inner@[i as int]@);
            assert(key_views(inner@).to_set().contains(inner@[i as int]@));
            return false;
        }
        assert(key_views(inner@)[i as int] == inner@[i as int]@);
        i = i + 1;
    }
    assert forall|k: (Seq<char>, Seq<char>, Seq<char>)| key_views(inner@).to_set().contains(k) implies key_views(
        outer@,
    ).to_set().contains(k) by {
        let j = choose|j: int| 0 <= j < key_views(inner@).len() && key_views(inner@)[j] == k;
        assert(key_views(outer@).contains(key_views(inner@)[j]));
    }
    true
}

/// A session that is loaded from what a session was saved as holds no
/// cookie that the saved session did not hold.
pub proof fn lemma_reloaded_cookies_were_held(
    held: Set<(Seq<char>, Seq<char>, Seq<char>)>,
    bytes: Seq<u8>,
    loaded: Set<(Seq<char>, Seq<char>, Seq<char>)>,
)
    requires
        cookies_in(bytes).subset_of(held),
        loaded.subset_of(cookies_in(bytes)),
    ensures
        loaded.subset_of(held),
{
}

/// What the driver found where an account's session is kept.
pub enum Saved<'a> {
    /// There is no such file.
    Missing,
    /// There is a file, and it could not be read.
    Unreadable,
    /// The bytes of the file.
    Contents(&'a [u8]),
}

/// The cookies of one account.
pub struct Session {
    jar: CookieStore,
}

impl Session {
    /// The cookies held, each as its domain, its path and its name.
    pub closed spec fn cookies(&self) -> Set<(Seq<char>, Seq<char>, Seq<char>)> {
        cookies_of(self.jar)
    }

    /// A session without cookies.
    pub fn new() -> (r: Self)
        ensures
            r.cookies().is_empty(),
    {
        Session { jar: store_new() }
    }

    /// The session to start with, given what was found where it is kept.
    ///
    /// A missing file is no error: the session starts without cookies. A file
    /// that cannot be read (`Lock`) or is no saved store (`Parse`) is an
    /// error that the caller may pass over: the session is returned with it
    /// and starts without cookies too. An empty file is what a session
    /// without cookies is saved as, and loads as one. Whatever is loaded, the
    /// session holds no cookie that the file does not hold.
    pub fn load(saved: Saved) -> (r: (Self, Result<(), ErrorKind>))
        ensures
            saved is Missing ==> r.1 is Ok && r.0.cookies().is_empty(),
            saved is Unreadable ==> r.1 == Err::<(), ErrorKind>(ErrorKind::Lock),
            saved matches Saved::Contents(bytes) ==> (r.1 is Ok <==> is_saved_store(bytes@))
                && (r.1 is Err ==> r.1 == Err::<(), ErrorKind>(ErrorKind::Parse)),
            saved matches Saved::Contents(bytes) ==> (bytes@.len() == 0 ==> r.1 is Ok && r.0.cookies().is_empty()),
            saved matches Saved::Contents(bytes) ==> r.0.cookies().subset_of(cookies_in(bytes@)),
            r.1 is Err ==> r.0.cookies().is_empty(),
    {
        match saved {
            Saved::Missing => (Session::new(), Ok(())),
            Saved::Unreadable => (Session::new(), Err(ErrorKind::Lock)),
            Saved::Contents(bytes) => Session::from_loaded(store_load(bytes)),
        }
    }

    /// The session to start with, given what reading a saved store gave: the
    /// store that was read, or, if none could be, a session without cookies
    /// together with `Parse`.
    pub fn from_loaded(loaded: Option<CookieStore>) -> (r: (Self, Result<(), ErrorKind>))
        ensures
            match loaded {
                Some(jar) => r.1 is Ok && r.0.cookies() == cookies_of(jar),
                None => r.1 == Err::<(), ErrorKind>(ErrorKind::Parse) && r.0.cookies().is_empty(),
            },
    {
        match loaded {
            Some(jar) => (Session { jar }, Ok(())),
            None => (Session::new(), Err(ErrorKind::Parse)),
        }
    }

    /// The bytes to keep the session as. They are a saved store, and hold
    /// no cookie that the session does not hold; where the cookies cannot be
    /// written so, the result is `Parse`. A session without cookies is kept
    /// as no bytes at all.
    ///
    /// Which of the cookies are written depends on the time of saving: those
    /// that end with the session or have expired by then are left out.
    pub fn save(&self) -> (r: Result<Vec<u8>, ErrorKind>)
        ensures
            r is Err ==> r == Err::<Vec<u8>, ErrorKind>(ErrorKind::Parse),
            r matches Ok(out) ==> is_saved_store(out@) && cookies_in(out@).subset_of(self.cookies()),
            self.cookies().is_empty() ==> r is Ok && r.unwrap()@.len() == 0,
    {
        self.from_written(store_save(&self.jar))
    }

    /// What saving comes to, given what writing the store gave. The bytes
    /// written are read back: if they are a saved store that holds cookies
    /// of the session only, they are handed on as they are. If they are not,
    /// or if nothing could be written, the result is `Parse`. No bytes at
    /// all are a saved store without cookies, and are always handed on.
    pub fn from_written(&self, written: Option<Vec<u8>>) -> (r: Result<Vec<u8>, ErrorKind>)
        ensures
            match written {
                Some(out) => if is_saved_store(out@) && cookies_in(out@).subset_of(self.cookies()) {
                    r is Ok && r.unwrap()@ == out@
                } else {
                    r == Err::<Vec<u8>, ErrorKind>(ErrorKind::Parse)
                },
                None => r == Err::<Vec<u8>, ErrorKind>(ErrorKind::Parse),
            },
            written matches Some(out) ==> (out@.len() == 0 ==> r is Ok && r.unwrap()@.len() == 0),
    {
        match written {
            Some(out) => match store_load_all(out.as_slice()) {
                Some(back) => {
                    if holds_all(&store_keys(&back), &store_keys(&self.jar)) {
                        Ok(out)
                    } else {
                        Err(ErrorKind::Parse)
                    }
                },
                None => Err(ErrorKind::Parse),
            },
            None => Err(ErrorKind::Parse),
        }
    }

    /// Forgets every cookie.
    pub fn clear(&mut self)
        ensures
            final(self).cookies().is_empty(),
    {
        store_clear(&mut self.jar);
    }

    /// The store of cookies, to look into.
    pub fn jar(&self) -> (r: &CookieStore)
        ensures
            cookies_of(*r) == self.cookies(),
    {
        &self.jar
    }

    /// A session around a store of cookies.
    pub fn from_jar(jar: CookieStore) -> (r: Self)
        ensures
            r.cookies() == cookies_of(jar),
    {
        Session { jar }
    }

    /// The store of cookies, for the client that sends the requests.
    pub fn into_jar(self) -> (r: CookieStore)
        ensures
            cookies_of(r) == self.cookies(),
    {
        self.jar
    }
}

} // verus!
