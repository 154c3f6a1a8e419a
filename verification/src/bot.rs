//! One account's run, and a run over all accounts.

use vstd::prelude::*;
use std::path::PathBuf;
use crate::attempt::after_login_answered;
use crate::attempt::after_lookup;
use crate::attempt::after_page_arrived;
use crate::attempt::after_picture;
use crate::attempt::after_request_failed;
use crate::attempt::after_score;
use crate::attempt::after_submitted;
use crate::attempt::at_option;
use crate::attempt::Attempt;
use crate::attempt::AttemptView;
use crate::attempt::begun;
use crate::attempt::wants_picture;
use crate::attempt::Request;
use crate::attempt::RequestView;
use crate::attempt::Stage;
use crate::config::attempts_allowed;
use crate::config::GlobalConfig;
use crate::config::UserConfig;
use crate::config::UserConfigView;
use crate::error::AttemptOutcome;
use crate::error::ErrorKind;
use crate::picparser::KaptchaView;
use crate::schedule::fire_delay;
use crate::schedule::local_millis;
use crate::retry::RetryPolicy;
use crate::retry::RetryStep;
use crate::retry::verdict;
use crate::session::after_begin;
use crate::session::after_failure;
use crate::session::after_login_result;
use crate::session::after_page;
use crate::session::AuthRequest;
use crate::session::AuthSession;
use crate::session::AuthState;
use crate::session::is_saved_store;
use crate::session::Pending;
use crate::session::Saved;
use crate::session::Session;
use crate::session::cookies_in;
use crate::text::opt_bytes;
use crate::text::texts;

verus! {

/// What the name of the file of an account's saved session ends with.
pub const COOKIE_SUFFIX: &'static str = "_cookie.json";

/// What a notice of failure says after the account's name.
pub const FAILURE_TEXT: &'static str = " \u{7b7e}\u{5230}\u{5931}\u{8d25}";

/// The name of the file in which the session of the account `id` is kept.
pub fn cookie_file_name(id: &str) -> (r: String)
    ensures
        r@ == id@ + COOKIE_SUFFIX@,
{
    let mut name = String::from_str(id);
    name.append(COOKIE_SUFFIX);
    name
}

/// A list that names accounts as login name, password, login name, password
/// and so on, as pairs. A last entry without a partner is dropped.
pub fn get_users_vec<'a>(users: Vec<&'a str>) -> (r: Vec<(&'a str, &'a str)>)
    ensures
        r@.len() == users@.len() / 2,
        forall|i: int| 0 <= i < r@.len() ==> #[trigger] r@[i] == (users@[2 * i], users@[2 * i + 1]),
{
    let users_num = users.len() / 2;
    let mut users_res: Vec<(&'a str, &'a str)> = Vec::new();
    let mut i: usize = 0;
    while i < users_num
        invariant
            0 <= i <= users_num,
            users_num == users.len() / 2,
            2 * users_num <= users.len(),
            users_res@.len() == i,
            forall|j: int| 0 <= j < i ==> #[trigger] users_res@[j] == (users@[2 * j], users@[2 * j + 1]),
        decreases users_num - i,
    {
        users_res.push((users[2 * i], users[2 * i + 1]));
        i = i + 1;
    }
    users_res
}

/// The accounts named on the command line, all enabled and without a mail
/// address. `retry` is the bound on attempts of each, if one is given.
pub fn accounts_from_pairs(pairs: &Vec<(&str, &str)>, retry: Option<u8>) -> (r: Vec<UserConfig>)
    ensures
        r@.len() == pairs@.len(),
        forall|i: int| 0 <= i < r@.len() ==> (#[trigger] r@[i])@ == (UserConfigView {
            enable: true,
            id: pairs@[i].0@,
            pwd: pairs@[i].1@,
            email: None,
            retry,
            trigger_times: Seq::empty(),
            lead_ms: 0,
        }),
{
    let mut accounts: Vec<UserConfig> = Vec::new();
    let mut i: usize = 0;
    while i < pairs.len()
        invariant
            0 <= i <= pairs.len(),
            accounts@.len() == i,
            forall|j: int| 0 <= j < i ==> (#[trigger] accounts@[j])@ == (UserConfigView {
                enable: true,
                id: pairs@[j].0@,
                pwd: pairs@[j].1@,
                email: None,
                retry,
                trigger_times: Seq::empty(),
                lead_ms: 0,
            }),
        decreases pairs.len() - i,
    {
        let pair = pairs[i];
        accounts.push(UserConfig::new(true, String::from_str(pair.0), String::from_str(pair.1), None, retry));
        i = i + 1;
    }
    accounts
}

/// An account as it takes part in a run: with the shared bound on attempts
/// where it names none of its own.
pub open spec fn prepared(user: UserConfigView, shared_retry: u8) -> UserConfigView {
    UserConfigView {
        retry: Some(
            match user.retry {
                None => shared_retry,
                Some(n) => n,
            },
        ),
        ..user
    }
}

/// The accounts of the list that take part in a run: the enabled ones, in
/// the order of the list, each prepared.
pub open spec fn participants(users: Seq<UserConfigView>, shared_retry: u8) -> Seq<UserConfigView>
    decreases users.len(),
{
    if users.len() == 0 {
        Seq::empty()
    } else {
        let before = participants(users.drop_last(), shared_retry);
        if users.last().enable {
            before.push(prepared(users.last(), shared_retry))
        } else {
            before
        }
    }
}

/// The accounts of a list as the contracts see them.
pub open spec fn user_views(users: Seq<UserConfig>) -> Seq<UserConfigView> {
    users.map_values(|u: UserConfig| u@)
}

/// The accounts of the list that take part in a run: the enabled ones, in
/// the order of the list, each with the shared bound on attempts where it
/// names none of its own.
pub fn enabled_users(users: Vec<UserConfig>, global: &GlobalConfig) -> (r: Vec<UserConfig>)
    ensures
        user_views(r@) == participants(user_views(users@), global@.retry),
{
    let ghost all = user_views(users@);
    let mut taking_part: Vec<UserConfig> = Vec::new();
    let mut i: usize = 0;
    assert(all.take(0) =~= Seq::empty());
    assert(user_views(taking_part@) =~= Seq::empty());
    while i < users.len()
        invariant
            0 <= i <= users.len(),
            all == user_views(users@),
            user_views(taking_part@) == participants(all.take(i as int), global@.retry),
        decreases users.len() - i,
    {
        let ghost before = taking_part@;
        proof {
            assert(all.take(i + 1).drop_last() == all.take(i as int));
            assert(all.take(i + 1).last() == users@[i as int]@);
        }
        if users[i].enable() {
            let mut user = users[i].clone();
            user.update_retry(global);
            taking_part.push(user);
            assert(user_views(taking_part@) =~= user_views(before).push(user@));
        }
        i = i + 1;
    }
    assert(all.take(i as int) == all);
    taking_part
}

/// What a run of the program is to do.
#[derive(Clone, Copy, Debug, PartialEq, Eq, Structural)]
pub enum Mode {
    /// Create the directories and the sample configuration.
    Init,
    /// Remove the directories with all they hold.
    Uninstall,
    /// Check in the accounts named on the command line, now.
    Users,
    /// Show or change a configuration file.
    Config,
    /// Check in the enabled accounts of the configuration file.
    File,
}

/// What a run of the program is to do, given what the command line holds:
/// the first of initialising, uninstalling, naming accounts and the
/// configuration subcommand that is there, else a run from the configuration
/// file.
pub fn choose_mode(init: bool, uninstall: bool, has_users: bool, config_command: bool) -> (r: Mode)
    ensures
        r == if init {
            Mode::Init
        } else if uninstall {
            Mode::Uninstall
        } else if has_users {
            Mode::Users
        } else if config_command {
            Mode::Config
        } else {
            Mode::File
        },
{
    if init {
        Mode::Init
    } else if uninstall {
        Mode::Uninstall
    } else if has_users {
        Mode::Users
    } else if config_command {
        Mode::Config
    } else {
        Mode::File
    }
}

/// A notice of failure to be sent.
pub struct Notice {
    pub recipient: String,
    pub message: String,
}

impl View for Notice {
    type V = (Seq<char>, Seq<char>);

    open spec fn view(&self) -> (Seq<char>, Seq<char>) {
        (self.recipient@, self.message@)
    }
}

/// The notice as the contracts see it.
pub open spec fn notice_view(n: Option<Notice>) -> Option<(Seq<char>, Seq<char>)> {
    match n {
        Some(n) => Some(n@),
        None => None,
    }
}

/// The notice that the end of an account's run calls for: none for a
/// success, none while notices are switched off, none for an account without
/// a mail address; else one to that address which names the account.
pub open spec fn notice_for(user: UserConfigView, enable_email: bool, outcome: AttemptOutcome) -> Option<(Seq<char>, Seq<char>)> {
    if outcome is Failure && enable_email && user.email is Some {
        Some((user.email.unwrap(), user.id + FAILURE_TEXT@))
    } else {
        None
    }
}

/// Where an account's run stands: the attempt under way, the login state of
/// the session, and the number of attempts that have ended.
pub struct RunView {
    pub attempt: AttemptView,
    pub auth: AuthSession,
    pub made: nat,
}

/// What an account makes of an attempt's request. A request to the driver is
/// passed on. The end of an attempt is weighed by the retry policy: after a
/// failure that leaves attempts to spare, the next attempt begins at once;
/// otherwise the run is over with that outcome.
pub open spec fn settled(bound: nat, run: RunView, request: RequestView) -> (RunView, RequestView) {
    match request {
        RequestView::Finish(outcome) => {
            let made = if run.made < 255 {
                run.made + 1
            } else {
                run.made
            };
            match verdict(bound, run.made, outcome) {
                RetryStep::Again => (
                    RunView { attempt: begun(run.attempt), auth: after_begin(run.auth), made },
                    RequestView::Auth(AuthRequest::GetGatedPage),
                ),
                RetryStep::Stop(outcome) => (RunView { made, ..run }, RequestView::Finish(outcome)),
            }
        },
        _ => (run, request),
    }
}

/// A run ends with a failure only when the attempt that failed was the last
/// one allowed, and it ends with every success.
pub proof fn lemma_run_ends_when_due(bound: nat, run: RunView, outcome: AttemptOutcome)
    ensures
        settled(bound, run, RequestView::Finish(outcome)).1 is Finish <==> (outcome is Success || run.made + 1
            >= bound),
        settled(bound, run, RequestView::Finish(outcome)).1 is Finish ==> settled(
            bound,
            run,
            RequestView::Finish(outcome),
        ).1 == RequestView::Finish(outcome),
        !(settled(bound, run, RequestView::Finish(outcome)).1 is Finish) ==> settled(
            bound,
            run,
            RequestView::Finish(outcome),
        ).1 == RequestView::Auth(AuthRequest::GetGatedPage),
{
}

/// How long an account waits before the first attempt of a run that begins
/// at the instant `now_unix_ms`: until its next trigger time, less its lead.
pub open spec fn first_wait(user: UserConfigView, now_unix_ms: int) -> int {
    fire_delay(now_unix_ms, user.trigger_times, user.lead_ms as int)
}

/// An attempt that has not begun, with nothing found.
pub open spec fn fresh_attempt(stage: Stage, limit: u64) -> AttemptView {
    AttemptView {
        stage,
        kaptcha: KaptchaView { url: Seq::empty(), img_bytes: None },
        answers: Seq::empty(),
        current: 0,
        limit,
    }
}

/// Where a run stands when it has just begun, and what the driver is asked
/// for: to wait for the account's next trigger time, or, where there is
/// nothing to wait for, to get the check-in page.
pub open spec fn run_begun(user: UserConfigView, auth: AuthSession, limit: u64, now_unix_ms: int) -> (
    RunView,
    RequestView,
) {
    if first_wait(user, now_unix_ms) > 0 {
        (
            RunView { attempt: fresh_attempt(Stage::Waiting, limit), auth, made: 0 },
            RequestView::Wait { ms: first_wait(user, now_unix_ms) as u64 },
        )
    } else {
        (
            RunView { attempt: fresh_attempt(Stage::Page, limit), auth: after_begin(auth), made: 0 },
            RequestView::Auth(AuthRequest::GetGatedPage),
        )
    }
}

/// Where a run stands, and what the driver is asked for, when the wait is
/// reported to be over.
pub open spec fn run_after_wait(bound: nat, run: RunView) -> (RunView, RequestView) {
    if run.attempt.stage == Stage::Waiting {
        (
            RunView { attempt: begun(run.attempt), auth: after_begin(run.auth), made: run.made },
            RequestView::Auth(AuthRequest::GetGatedPage),
        )
    } else {
        settled(
            bound,
            RunView { attempt: AttemptView { stage: Stage::Done, ..run.attempt }, ..run },
            RequestView::Finish(AttemptOutcome::Failure(ErrorKind::Lock)),
        )
    }
}

/// Where a run stands, and what the driver is asked for, when a picture has
/// arrived and been brought to the common size.
pub open spec fn run_after_picture(bound: nat, run: RunView, normalized: Option<Seq<u8>>) -> (RunView, RequestView) {
    let step = after_picture(run.attempt, normalized);
    settled(bound, RunView { attempt: step.0, ..run }, step.1)
}

/// Where a run stands after its attempts, one after another, have ended as
/// the list says, and what the driver is asked for then.
pub open spec fn settled_all(bound: nat, run: RunView, outcomes: Seq<AttemptOutcome>) -> (RunView, RequestView)
    decreases outcomes.len(),
{
    if outcomes.len() == 0 {
        (run, RequestView::Auth(AuthRequest::GetGatedPage))
    } else {
        settled(
            bound,
            settled_all(bound, run, outcomes.drop_last()).0,
            RequestView::Finish(outcomes.last()),
        )
    }
}

/// A run whose attempts all fail begins a new attempt after each failure but
/// the last one allowed, and then ends with that last failure: it makes
/// exactly as many attempts as the bound allows.
pub proof fn lemma_failing_run_makes_all_attempts(bound: nat, run: RunView, outcomes: Seq<AttemptOutcome>)
    requires
        1 <= bound <= 255,
        run.made == 0,
        0 < outcomes.len() <= bound,
        forall|i: int| 0 <= i < outcomes.len() ==> #[trigger] outcomes[i] is Failure,
    ensures
        settled_all(bound, run, outcomes).0.made == outcomes.len(),
        outcomes.len() < bound ==> settled_all(bound, run, outcomes).1 == RequestView::Auth(
            AuthRequest::GetGatedPage,
        ),
        outcomes.len() == bound ==> settled_all(bound, run, outcomes).1 == RequestView::Finish(outcomes.last()),
    decreases outcomes.len(),
{
    let before = outcomes.drop_last();
    assert(outcomes.last() is Failure);
    if outcomes.len() > 1 {
        assert forall|i: int| 0 <= i < before.len() implies #[trigger] before[i] is Failure by {
            assert(before[i] == outcomes[i]);
        }
        lemma_failing_run_makes_all_attempts(bound, run, before);
    } else {
        assert(settled_all(bound, run, before) == (run, RequestView::Auth(AuthRequest::GetGatedPage)));
    }
    assert(settled_all(bound, run, before).0.made == before.len());
}

/// One account at work: its settings, its session, where the session is
/// kept, and its run.
pub struct TjuPtUser {
    config: UserConfig,
    session: Session,
    auth: AuthSession,
    status_dir: Option<PathBuf>,
    policy: RetryPolicy,
    attempt: Attempt,
}

impl TjuPtUser {
    /// The account's settings.
    pub closed spec fn config_view(&self) -> UserConfigView {
        self.config@
    }

    /// The cookies of the account's session.
    pub closed spec fn cookies(&self) -> Set<(Seq<char>, Seq<char>, Seq<char>)> {
        self.session.cookies()
    }

    /// The directory in which the session is kept, if it is kept.
    pub closed spec fn status_dir_view(&self) -> Option<PathBuf> {
        self.status_dir
    }

    /// Where the account's run stands.
    pub closed spec fn run_view(&self) -> RunView {
        RunView { attempt: self.attempt@, auth: self.auth, made: self.policy.made() }
    }

    /// The number of attempts that a run of the account may make.
    pub closed spec fn bound(&self) -> nat {
        self.policy.bound()
    }

    /// Settings, session and bound are the same in both.
    pub open spec fn same_account(&self, other: &Self) -> bool {
        &&& self.config_view() == other.config_view()
        &&& self.cookies() == other.cookies()
        &&& self.status_dir_view() == other.status_dir_view()
        &&& self.bound() == other.bound()
    }

    /// An account at work with the given settings, logged out, without
    /// cookies and with no attempt begun. Its session is kept in
    /// `status_dir`, or not at all.
    pub fn from_config(userconfig: UserConfig, status_dir: Option<PathBuf>) -> (r: Self)
        ensures
            r.config_view() == userconfig@,
            r.cookies().is_empty(),
            r.status_dir_view() == status_dir,
            r.bound() == attempts_allowed(userconfig@.retry),
            r.run_view().auth == (AuthSession { state: AuthState::LoggedOut, pending: Pending::Nothing }),
            r.run_view().made == 0,
            r.run_view().attempt.stage == Stage::Idle,
    {
        let policy = RetryPolicy::new(userconfig.retry());
        TjuPtUser {
            config: userconfig,
            session: Session::new(),
            auth: AuthSession::new(),
            status_dir,
            policy,
            attempt: Attempt::new(0),
        }
    }

    /// The account's settings.
    pub fn config(&self) -> (r: &UserConfig)
        ensures
            r@ == self.config_view(),
    {
        &self.config
    }

    /// The directory in which the session is kept, if it is kept.
    pub fn status_dir(&self) -> (r: &Option<PathBuf>)
        ensures
            *r == self.status_dir_view(),
    {
        &self.status_dir
    }

    /// The name of the file in that directory, if the session is kept.
    pub fn cookie_file(&self) -> (r: Option<String>)
        ensures
            r is Some <==> self.status_dir_view() is Some,
            r matches Some(name) ==> name@ == self.config_view().id + COOKIE_SUFFIX@,
    {
        if self.status_dir.is_some() {
            Some(cookie_file_name(self.config.id()))
        } else {
            None
        }
    }

    /// The login state of the session.
    pub fn auth_state(&self) -> (r: AuthState)
        ensures
            r == self.run_view().auth.state,
    {
        self.auth.state
    }

    /// The number of attempts of the run that have ended.
    pub fn attempts(&self) -> (r: u8)
        ensures
            r == self.run_view().made,
    {
        self.policy.attempts()
    }

    /// The number of attempts that a run may make.
    pub fn max_attempts(&self) -> (r: u8)
        ensures
            r == self.bound(),
    {
        self.policy.max_attempts()
    }

    /// Takes in what was found where the session is kept. For an account
    /// whose session is not kept, nothing is looked at and nothing changes.
    /// Otherwise the session is replaced: by the saved one, or, where there
    /// is none or it cannot be used, by one without cookies. That no file is
    /// there is no error, and an empty file is a saved session without
    /// cookies. Whatever is loaded, the session holds no cookie that the file
    /// does not hold.
    pub fn load_cookie(&mut self, saved: Saved) -> (r: Result<(), ErrorKind>)
        ensures
            final(self).config_view() == old(self).config_view(),
            final(self).run_view() == old(self).run_view(),
            final(self).bound() == old(self).bound(),
            final(self).status_dir_view() == old(self).status_dir_view(),
            old(self).status_dir_view() is None ==> r is Ok && final(self).cookies() == old(self).cookies(),
            old(self).status_dir_view() is Some ==> {
                &&& saved is Missing ==> r is Ok && final(self).cookies().is_empty()
                &&& saved is Unreadable ==> r == Err::<(), ErrorKind>(ErrorKind::Lock)
                &&& saved matches Saved::Contents(bytes) ==> (r is Ok <==> is_saved_store(bytes@)) && (r is Err
                    ==> r == Err::<(), ErrorKind>(ErrorKind::Parse))
                &&& saved matches Saved::Contents(bytes) ==> (bytes@.len() == 0 ==> r is Ok
                    && final(self).cookies().is_empty())
                &&& saved matches Saved::Contents(bytes) ==> final(self).cookies().subset_of(cookies_in(bytes@))
                &&& r is Err ==> final(self).cookies().is_empty()
            },
    {
        if self.status_dir.is_some() {
            let (session, result) = Session::load(saved);
            self.session = session;
            result
        } else {
            Ok(())
        }
    }

    /// The bytes to write where the session is kept; `None` for an account
    /// whose session is not kept. The bytes are a saved store and hold no
    /// cookie that the session does not hold.
    pub fn save_cookie(&self) -> (r: Result<Option<Vec<u8>>, ErrorKind>)
        ensures
            self.status_dir_view() is None ==> r == Ok::<Option<Vec<u8>>, ErrorKind>(None),
            self.status_dir_view() is Some ==> match r {
                Ok(bytes) => bytes is Some && is_saved_store(bytes.unwrap()@) && cookies_in(
                    bytes.unwrap()@,
                ).subset_of(self.cookies()),
                Err(e) => e == ErrorKind::Parse,
            },
            self.status_dir_view() is Some && self.cookies().is_empty() ==> r is Ok && r.unwrap().unwrap()@.len()
                == 0,
    {
        if self.status_dir.is_some() {
            match self.session.save() {
                Ok(bytes) => Ok(Some(bytes)),
                Err(e) => Err(e),
            }
        } else {
            Ok(None)
        }
    }

    /// Forgets every cookie of the session.
    pub fn clear_cookie(&mut self) -> (r: Result<(), ErrorKind>)
        ensures
            r is Ok,
            final(self).cookies().is_empty(),
            final(self).config_view() == old(self).config_view(),
            final(self).run_view() == old(self).run_view(),
            final(self).bound() == old(self).bound(),
            final(self).status_dir_view() == old(self).status_dir_view(),
    {
        self.session.clear();
        Ok(())
    }

    /// The session, taken out for the client that sends the requests; one
    /// without cookies is left in its place.
    pub fn take_session(&mut self) -> (r: Session)
        ensures
            r.cookies() == old(self).cookies(),
            final(self).cookies().is_empty(),
            final(self).config_view() == old(self).config_view(),
            final(self).run_view() == old(self).run_view(),
            final(self).bound() == old(self).bound(),
            final(self).status_dir_view() == old(self).status_dir_view(),
    {
        let mut session = Session::new();
        std::mem::swap(&mut session, &mut self.session);
        session
    }

    /// Puts a session in the place of the account's.
    pub fn put_session(&mut self, session: Session)
        ensures
            final(self).cookies() == session.cookies(),
            final(self).config_view() == old(self).config_view(),
            final(self).run_view() == old(self).run_view(),
            final(self).bound() == old(self).bound(),
            final(self).status_dir_view() == old(self).status_dir_view(),
    {
        self.session = session;
    }

    /// Begins a run of the account at the instant `now_unix_ms`. Scores up to
    /// the one with key `limit` count as a match, and the run may make as
    /// many attempts as the account's settings allow.
    ///
    /// An account with trigger times first waits for the next one, less its
    /// lead: the driver is asked to wait, and the first attempt begins when
    /// it reports that the wait is over. Where there is nothing to wait for,
    /// the first attempt begins at once and asks for the check-in page.
    ///
    /// An account without a lead is woken exactly when the site's clock
    /// shows one of its trigger times.
    pub fn att_now(&mut self, limit: u64, now_unix_ms: u64) -> (r: Request)
        ensures
            (final(self).run_view(), r@) == run_begun(
                old(self).config_view(),
                old(self).run_view().auth,
                limit,
                now_unix_ms as int,
            ),
            old(self).config_view().lead_ms == 0 && old(self).config_view().trigger_times.len() > 0 ==> exists|
                k: int,
            |
                0 <= k < old(self).config_view().trigger_times.len() && local_millis(
                    now_unix_ms + first_wait(old(self).config_view(), now_unix_ms as int),
                ) == (#[trigger] old(self).config_view().trigger_times[k]).millis(),
            final(self).bound() == attempts_allowed(old(self).config_view().retry),
            final(self).config_view() == old(self).config_view(),
            final(self).cookies() == old(self).cookies(),
            final(self).status_dir_view() == old(self).status_dir_view(),
    {
        self.policy = RetryPolicy::new(self.config.retry());
        self.attempt = Attempt::new(limit);
        let wait = self.config.next_fire_delay(now_unix_ms);
        if wait > 0 {
            self.attempt.stage = Stage::Waiting;
            Request::Wait { ms: wait }
        } else {
            self.attempt.begin(&mut self.auth)
        }
    }

    /// Takes in that the wait for the trigger time is over: the first
    /// attempt begins and asks for the check-in page. Where the run was not
    /// waiting, this was not asked for, and counts as an attempt that failed
    /// with `Lock`.
    pub fn on_waited(&mut self) -> (r: Request)
        ensures
            (final(self).run_view(), r@) == run_after_wait(old(self).bound(), old(self).run_view()),
            final(self).same_account(old(self)),
    {
        if self.attempt.stage == Stage::Waiting {
            self.attempt.begin(&mut self.auth)
        } else {
            let request = self.attempt.reject();
            self.settle(request)
        }
    }

    /// Weighs the end of an attempt.
    fn settle(&mut self, request: Request) -> (r: Request)
        ensures
            (final(self).run_view(), r@) == settled(old(self).bound(), old(self).run_view(), request@),
            final(self).same_account(old(self)),
    {
        match request {
            Request::Finish(outcome) => match self.policy.record(outcome) {
                RetryStep::Again => self.attempt.begin(&mut self.auth),
                RetryStep::Stop(outcome) => Request::Finish(outcome),
            },
            other => other,
        }
    }

    /// Takes in a page, with the address it came from after all redirects.
    pub fn on_page(&mut self, final_url: &str, body: String) -> (r: Request)
        ensures
            ({
                let run = old(self).run_view();
                let step = after_page_arrived(run.attempt, run.auth, final_url@, body@);
                let auth = if run.attempt.stage == Stage::Page {
                    after_page(run.auth, final_url@)
                } else {
                    run.auth
                };
                (final(self).run_view(), r@) == settled(
                    old(self).bound(),
                    RunView { attempt: step.0, auth, made: run.made },
                    step.1,
                )
            }),
            final(self).same_account(old(self)),
    {
        let request = self.attempt.on_page(&mut self.auth, final_url, body);
        self.settle(request)
    }

    /// Takes in whether the site answered the login form with a success
    /// status.
    pub fn on_login_result(&mut self, accepted: bool) -> (r: Request)
        ensures
            ({
                let run = old(self).run_view();
                let step = after_login_answered(run.attempt, run.auth, accepted);
                let auth = if run.attempt.stage == Stage::Page {
                    after_login_result(run.auth, accepted)
                } else {
                    run.auth
                };
                (final(self).run_view(), r@) == settled(
                    old(self).bound(),
                    RunView { attempt: step.0, auth, made: run.made },
                    step.1,
                )
            }),
            final(self).same_account(old(self)),
    {
        let request = self.attempt.on_login_result(&mut self.auth, accepted);
        self.settle(request)
    }

    /// Takes in the picture asked for, brought to the common size; `None` if
    /// the bytes that arrived were no picture.
    pub fn on_normalized(&mut self, normalized: Option<Vec<u8>>) -> (r: Request)
        ensures
            (final(self).run_view(), r@) == run_after_picture(
                old(self).bound(),
                old(self).run_view(),
                opt_bytes(normalized),
            ),
            final(self).same_account(old(self)),
    {
        let request = self.attempt.on_normalized(normalized);
        self.settle(request)
    }

    /// Takes in the bytes of the picture asked for: they are brought to the
    /// common size and taken in as [`TjuPtUser::on_normalized`] says. Where
    /// the run does not wait for a picture, the bytes are not looked at.
    pub fn on_picture(&mut self, raw: &[u8]) -> (r: Request)
        ensures
            exists|normalized: Option<Seq<u8>>|
                (final(self).run_view(), r@) == #[trigger] run_after_picture(
                    old(self).bound(),
                    old(self).run_view(),
                    normalized,
                ),
            !wants_picture(old(self).run_view().attempt) ==> (final(self).run_view(), r@) == run_after_picture(
                old(self).bound(),
                old(self).run_view(),
                None,
            ),
            final(self).same_account(old(self)),
    {
        let normalized = self.attempt.normalized_for(raw);
        let ghost given = opt_bytes(normalized);
        let r = self.on_normalized(normalized);
        assert((self.run_view(), r@) == run_after_picture(old(self).bound(), old(self).run_view(), given));
        r
    }

    /// Takes in what the lookup service found under the current option's
    /// label: the picture address of each record, in the order of the
    /// records.
    pub fn on_lookup(&mut self, found: &Vec<String>) -> (r: Request)
        ensures
            ({
                let run = old(self).run_view();
                let step = after_lookup(run.attempt, texts(found@));
                (final(self).run_view(), r@) == settled(
                    old(self).bound(),
                    RunView { attempt: step.0, ..run },
                    step.1,
                )
            }),
            final(self).same_account(old(self)),
    {
        let request = self.attempt.on_lookup(found);
        self.settle(request)
    }

    /// Takes in the score of the current option's picture against the
    /// puzzle, as the bit pattern of a binary64 number, or `None` if one of
    /// the two could not be measured.
    pub fn on_score(&mut self, bits: Option<u64>) -> (r: Request)
        ensures
            ({
                let run = old(self).run_view();
                let step = after_score(run.attempt, bits);
                (final(self).run_view(), r@) == settled(
                    old(self).bound(),
                    RunView { attempt: step.0, ..run },
                    step.1,
                )
            }),
            final(self).same_account(old(self)),
    {
        let request = self.attempt.on_score(bits);
        self.settle(request)
    }

    /// Takes in the site's answer to the submitted option.
    pub fn on_submitted(&mut self, body: &str) -> (r: Request)
        ensures
            ({
                let run = old(self).run_view();
                let step = after_submitted(run.attempt, body@);
                (final(self).run_view(), r@) == settled(
                    old(self).bound(),
                    RunView { attempt: step.0, ..run },
                    step.1,
                )
            }),
            final(self).same_account(old(self)),
    {
        let request = self.attempt.on_submitted(body);
        self.settle(request)
    }

    /// Takes in that the request under way failed before any response.
    pub fn on_failure(&mut self) -> (r: Request)
        ensures
            ({
                let run = old(self).run_view();
                let step = after_request_failed(run.attempt, run.auth);
                let auth = if run.attempt.stage == Stage::Page {
                    after_failure(run.auth)
                } else {
                    run.auth
                };
                (final(self).run_view(), r@) == settled(
                    old(self).bound(),
                    RunView { attempt: step.0, auth, made: run.made },
                    step.1,
                )
            }),
            final(self).same_account(old(self)),
    {
        let request = self.attempt.on_failure(&mut self.auth);
        self.settle(request)
    }

    /// The two pictures to measure: the puzzle's and the current option's.
    /// There are two exactly while the run waits for a score.
    pub fn pictures(&self) -> (r: Option<(&Vec<u8>, &Vec<u8>)>)
        ensures
            ({
                let attempt = self.run_view().attempt;
                &&& r is Some <==> attempt.stage == Stage::Score && at_option(attempt) && attempt.kaptcha.img_bytes
                    is Some && attempt.answers[attempt.current].img_bytes is Some
                &&& r matches Some((puzzle, option)) ==> Some(puzzle@) == attempt.kaptcha.img_bytes && Some(
                    option@,
                ) == attempt.answers[attempt.current].img_bytes
            }),
    {
        self.attempt.pictures()
    }

    /// The notice that the end of the account's run calls for, if any.
    pub fn notice(&self, enable_email: bool, outcome: AttemptOutcome) -> (r: Option<Notice>)
        ensures
            notice_view(r) == notice_for(self.config_view(), enable_email, outcome),
    {
        match outcome {
            AttemptOutcome::Success => None,
            AttemptOutcome::Failure(_) => {
                if enable_email {
                    match self.config.email() {
                        Some(address) => {
                            let mut message = String::from_str(self.config.id());
                            message.append(FAILURE_TEXT);
                            Some(Notice { recipient: String::from_str(address), message })
                        },
                        None => None,
                    }
                } else {
                    None
                }
            },
        }
    }
}

} // verus!
