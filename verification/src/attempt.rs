//! One attempt at a check-in, step by step.
//!
//! The attempt sends nothing itself. It says what the driver is to do next,
//! takes in what came of it, and decides how to go on: fetch the page through
//! the session, fetch the puzzle picture, find and fetch a picture for each
//! option and have it measured against the puzzle, pick an option, submit it.
//! An option that cannot be resolved, fetched or measured is passed over;
//! every other failure ends the attempt at once.

use vstd::prelude::*;
use crate::error::AttemptOutcome;
use crate::error::ErrorKind;
use crate::page::challenge_of;
use crate::page::parse_challenge;
use crate::picparser::Answer;
use crate::picparser::answer_views;
use crate::picparser::AnswerView;
use crate::picparser::best_of;
use crate::picparser::is_best;
use crate::picparser::Kaptcha;
use crate::picparser::KaptchaView;
use crate::picparser::key_of;
use crate::picparser::lemma_none_qualifies_none_is_best;
use crate::picparser::lemma_some_qualifies_one_is_best;
use crate::picparser::qualifies;
use crate::picparser::normalize_picture;
use crate::picparser::picture_of;
use crate::session::after_begin;
use crate::session::after_failure;
use crate::session::after_login_result;
use crate::session::after_page;
use crate::session::AuthRequest;
use crate::session::AuthSession;
use crate::session::AuthStep;
use crate::session::AuthStepView;
use crate::session::field;
use crate::session::form_view;
use crate::session::FormField;
use crate::session::login_result_step;
use crate::session::page_step;
use crate::session::Pending;
use crate::text::has_infix;
use crate::text::opt_bytes;
use crate::text::str_contains;
use crate::text::texts;

verus! {

/// What the answer of the site holds when it has taken the check-in.
pub const SUCCESS_MARK: &'static str = "\u{7b7e}\u{5230}\u{6210}\u{529f}";

/// The label of the button that submits the answer.
pub const SUBMIT_LABEL: &'static str = "\u{63d0}\u{4ea4}";

/// What the attempt waits for.
#[derive(Clone, Copy, Debug, PartialEq, Eq, Structural)]
pub enum Stage {
    /// Nothing: the attempt has not begun.
    Idle,
    /// A response of the session's exchange for the check-in page.
    Page,
    /// The puzzle picture.
    Puzzle,
    /// What the lookup service finds under the current option's label.
    Lookup,
    /// The current option's picture.
    Picture,
    /// The score of the current option's picture against the puzzle.
    Score,
    /// The site's answer to the submitted option.
    Submit,
    /// Nothing: the attempt is over.
    Done,
    /// Nothing: the attempt is to begin when the wait for the trigger time
    /// is over.
    Waiting,
}

/// What the driver is to do next.
pub enum Request {
    /// Send this request of the session.
    Auth(AuthRequest),
    /// Fetch the bytes at this address.
    GetPicture { url: String },
    /// Ask the lookup service for this label, and report the picture address
    /// of each record found.
    Lookup { label: String },
    /// Measure the current option's picture against the puzzle picture.
    Score,
    /// Post the answer form with this value.
    Submit { value: String },
    /// Nothing more: the attempt ended so.
    Finish(AttemptOutcome),
    /// Wait this many milliseconds, and report when the wait is over.
    Wait { ms: u64 },
}

/// A request as the contracts see it.
pub enum RequestView {
    Auth(AuthRequest),
    GetPicture { url: Seq<char> },
    Lookup { label: Seq<char> },
    Score,
    Submit { value: Seq<char> },
    Finish(AttemptOutcome),
    Wait { ms: u64 },
}

impl View for Request {
    type V = RequestView;

    open spec fn view(&self) -> RequestView {
        match *self {
            Request::Auth(r) => RequestView::Auth(r),
            Request::GetPicture { url } => RequestView::GetPicture { url: url@ },
            Request::Lookup { label } => RequestView::Lookup { label: label@ },
            Request::Score => RequestView::Score,
            Request::Submit { value } => RequestView::Submit { value: value@ },
            Request::Finish(o) => RequestView::Finish(o),
            Request::Wait { ms } => RequestView::Wait { ms },
        }
    }
}

/// One attempt at a check-in.
pub struct Attempt {
    pub stage: Stage,
    /// The puzzle of the page.
    pub kaptcha: Kaptcha,
    /// The options of the page, in its order.
    pub answers: Vec<Answer>,
    /// The position of the option being worked on.
    pub current: usize,
    /// The key of the highest score that still counts as a match.
    pub limit: u64,
}

/// An attempt as the contracts see it.
pub struct AttemptView {
    pub stage: Stage,
    pub kaptcha: KaptchaView,
    pub answers: Seq<AnswerView>,
    pub current: int,
    pub limit: u64,
}

impl View for Attempt {
    type V = AttemptView;

    open spec fn view(&self) -> AttemptView {
        AttemptView {
            stage: self.stage,
            kaptcha: self.kaptcha@,
            answers: answer_views(self.answers@),
            current: self.current as int,
            limit: self.limit,
        }
    }
}

/// The attempt is over with this outcome.
pub open spec fn ended(s: AttemptView, outcome: AttemptOutcome) -> (AttemptView, RequestView) {
    (AttemptView { stage: Stage::Done, ..s }, RequestView::Finish(outcome))
}

/// All options are dealt with: the one to pick is submitted. Without a puzzle
/// picture the attempt fails with `Parse`, without an option to pick with
/// `NoMatch`.
pub open spec fn chosen(s: AttemptView) -> (AttemptView, RequestView) {
    if s.kaptcha.img_bytes is None {
        ended(s, AttemptOutcome::Failure(ErrorKind::Parse))
    } else {
        match best_of(s.answers, s.limit) {
            Some(i) => (
                AttemptView { stage: Stage::Submit, ..s },
                RequestView::Submit { value: s.answers[i].value },
            ),
            None => ended(s, AttemptOutcome::Failure(ErrorKind::NoMatch)),
        }
    }
}

/// The options before the current one are dealt with: the current one is
/// looked up, or, if there is none left, the choice is made.
pub open spec fn option_started(s: AttemptView) -> (AttemptView, RequestView) {
    if 0 <= s.current < s.answers.len() {
        (AttemptView { stage: Stage::Lookup, ..s }, RequestView::Lookup { label: s.answers[s.current].name })
    } else {
        chosen(s)
    }
}

/// The current option is dealt with: on to the next.
pub open spec fn option_done(s: AttemptView) -> (AttemptView, RequestView) {
    option_started(AttemptView { current: s.current + 1, ..s })
}

/// The attempt works on an option that is there.
pub open spec fn at_option(s: AttemptView) -> bool {
    0 <= s.current < s.answers.len()
}

/// The attempt after it has begun.
pub open spec fn begun(s: AttemptView) -> AttemptView {
    AttemptView {
        stage: Stage::Page,
        kaptcha: KaptchaView { url: Seq::empty(), img_bytes: None },
        answers: Seq::empty(),
        current: 0,
        limit: s.limit,
    }
}

/// What follows when the session has said its word on a response.
pub open spec fn after_auth_step(s: AttemptView, step: AuthStepView) -> (AttemptView, RequestView) {
    match step {
        AuthStepView::Send(request) => (s, RequestView::Auth(request)),
        AuthStepView::Failed(e) => ended(s, AttemptOutcome::Failure(e)),
        AuthStepView::Page(body) => match challenge_of(body) {
            Err(e) => ended(s, AttemptOutcome::Failure(e)),
            Ok(challenge) => (
                AttemptView {
                    stage: Stage::Puzzle,
                    kaptcha: KaptchaView { url: challenge.image_url, img_bytes: None },
                    answers: challenge.options,
                    current: 0,
                    limit: s.limit,
                },
                RequestView::GetPicture { url: challenge.image_url },
            ),
        },
    }
}

/// What follows when a page has arrived.
pub open spec fn after_page_arrived(s: AttemptView, auth: AuthSession, final_url: Seq<char>, body: Seq<char>) -> (AttemptView, RequestView) {
    if s.stage == Stage::Page {
        after_auth_step(s, page_step(auth, final_url, body))
    } else {
        ended(s, AttemptOutcome::Failure(ErrorKind::Lock))
    }
}

/// What follows when the login form has been answered.
pub open spec fn after_login_answered(s: AttemptView, auth: AuthSession, accepted: bool) -> (AttemptView, RequestView) {
    if s.stage == Stage::Page {
        after_auth_step(s, login_result_step(auth, accepted))
    } else {
        ended(s, AttemptOutcome::Failure(ErrorKind::Lock))
    }
}

/// The attempt waits for a picture that it does not have yet: the puzzle's,
/// or the current option's.
pub open spec fn wants_picture(s: AttemptView) -> bool {
    ||| s.stage == Stage::Puzzle && s.kaptcha.img_bytes is None
    ||| s.stage == Stage::Picture && at_option(s) && s.answers[s.current].img_bytes is None
}

/// What follows when a picture has arrived and been brought to the common
/// size; `normalized` is `None` where the bytes that arrived were no picture.
pub open spec fn after_picture(s: AttemptView, normalized: Option<Seq<u8>>) -> (AttemptView, RequestView) {
    match s.stage {
        Stage::Puzzle => {
            let picture = if s.kaptcha.img_bytes is Some {
                s.kaptcha.img_bytes
            } else {
                normalized
            };
            match picture {
                None => ended(s, AttemptOutcome::Failure(ErrorKind::Parse)),
                Some(bytes) => option_started(
                    AttemptView {
                        kaptcha: KaptchaView { img_bytes: Some(bytes), ..s.kaptcha },
                        current: 0,
                        ..s
                    },
                ),
            }
        },
        Stage::Picture => if at_option(s) {
            let picture = if s.answers[s.current].img_bytes is Some {
                s.answers[s.current].img_bytes
            } else {
                normalized
            };
            match picture {
                None => option_done(s),
                Some(bytes) => (
                    AttemptView {
                        stage: Stage::Score,
                        answers: s.answers.update(
                            s.current,
                            AnswerView { img_bytes: Some(bytes), ..s.answers[s.current] },
                        ),
                        ..s
                    },
                    RequestView::Score,
                ),
            }
        } else {
            ended(s, AttemptOutcome::Failure(ErrorKind::Lock))
        },
        _ => ended(s, AttemptOutcome::Failure(ErrorKind::Lock)),
    }
}

/// What follows when the lookup service has answered with these picture
/// addresses.
pub open spec fn after_lookup(s: AttemptView, found: Seq<Seq<char>>) -> (AttemptView, RequestView) {
    if s.stage == Stage::Lookup && at_option(s) {
        if found.len() == 0 {
            option_done(s)
        } else {
            (
                AttemptView {
                    stage: Stage::Picture,
                    answers: s.answers.update(
                        s.current,
                        AnswerView { img_url: Some(found[0]), ..s.answers[s.current] },
                    ),
                    ..s
                },
                RequestView::GetPicture { url: found[0] },
            )
        }
    } else {
        ended(s, AttemptOutcome::Failure(ErrorKind::Lock))
    }
}

/// The key of a reported score, if there is a score and it is a number.
pub open spec fn reported_key(bits: Option<u64>) -> Option<u64> {
    match bits {
        Some(bits) => key_of(bits),
        None => None,
    }
}

/// What follows when the current option's picture has been measured, or
/// could not be.
pub open spec fn after_score(s: AttemptView, bits: Option<u64>) -> (AttemptView, RequestView) {
    if s.stage == Stage::Score && at_option(s) {
        option_done(
            AttemptView {
                answers: s.answers.update(
                    s.current,
                    AnswerView { score: reported_key(bits), ..s.answers[s.current] },
                ),
                ..s
            },
        )
    } else {
        ended(s, AttemptOutcome::Failure(ErrorKind::Lock))
    }
}

/// How an attempt ends on the site's answer to the submitted option.
pub open spec fn submission_outcome(body: Seq<char>) -> AttemptOutcome {
    if has_infix(body, SUCCESS_MARK@) {
        AttemptOutcome::Success
    } else {
        AttemptOutcome::Failure(ErrorKind::Submission)
    }
}

/// What follows when the site has answered the submitted option.
pub open spec fn after_submitted(s: AttemptView, body: Seq<char>) -> (AttemptView, RequestView) {
    if s.stage == Stage::Submit {
        ended(s, submission_outcome(body))
    } else {
        ended(s, AttemptOutcome::Failure(ErrorKind::Lock))
    }
}

/// What follows when the request under way has failed before any response.
pub open spec fn after_request_failed(s: AttemptView, auth: AuthSession) -> (AttemptView, RequestView) {
    match s.stage {
        Stage::Page => ended(
            s,
            AttemptOutcome::Failure(
                if auth.pending == Pending::Nothing {
                    ErrorKind::Lock
                } else {
                    ErrorKind::Network
                },
            ),
        ),
        Stage::Puzzle => ended(s, AttemptOutcome::Failure(ErrorKind::Network)),
        Stage::Submit => ended(s, AttemptOutcome::Failure(ErrorKind::Network)),
        Stage::Lookup | Stage::Picture | Stage::Score => if at_option(s) {
            option_done(s)
        } else {
            ended(s, AttemptOutcome::Failure(ErrorKind::Lock))
        },
        _ => ended(s, AttemptOutcome::Failure(ErrorKind::Lock)),
    }
}

/// What is submitted is the value of the option to pick: when some option
/// has a score within the limit, the one with the lowest such score, the
/// first of several. When none has, the attempt ends with `NoMatch` and
/// nothing is submitted.
pub proof fn lemma_choice_submits_the_best(s: AttemptView)
    requires
        s.kaptcha.img_bytes is Some,
    ensures
        (exists|i: int| qualifies(s.answers, s.limit, i)) ==> exists|i: int|
            is_best(s.answers, s.limit, i) && chosen(s).1 == (RequestView::Submit {
                value: (#[trigger] s.answers[i]).value,
            }),
        (forall|i: int| !qualifies(s.answers, s.limit, i)) ==> chosen(s) == ended(
            s,
            AttemptOutcome::Failure(ErrorKind::NoMatch),
        ),
{
    if exists|i: int| qualifies(s.answers, s.limit, i) {
        lemma_some_qualifies_one_is_best(s.answers, s.limit);
        let i = best_of(s.answers, s.limit).unwrap();
        assert(is_best(s.answers, s.limit, i));
        assert(chosen(s).1 == (RequestView::Submit { value: s.answers[i].value }));
    }
    if forall|i: int| !qualifies(s.answers, s.limit, i) {
        lemma_none_qualifies_none_is_best(s.answers, s.limit);
    }
}

/// Outside the work on options, a request that fails ends the attempt at
/// once, with a failure.
pub proof fn lemma_failure_outside_options_ends_the_attempt(s: AttemptView, auth: AuthSession)
    requires
        s.stage == Stage::Page || s.stage == Stage::Puzzle || s.stage == Stage::Submit,
    ensures
        after_request_failed(s, auth).0 == (AttemptView { stage: Stage::Done, ..s }),
        after_request_failed(s, auth).1 is Finish,
        after_request_failed(s, auth).1->Finish_0 is Failure,
{
}

/// During the work on an option, a request that fails loses that option and
/// nothing else: the options stay as they are, and the attempt goes on to
/// the next one or, after the last, to the choice.
pub proof fn lemma_failure_at_an_option_loses_only_the_option(s: AttemptView, auth: AuthSession)
    requires
        s.stage == Stage::Lookup || s.stage == Stage::Picture || s.stage == Stage::Score,
        at_option(s),
    ensures
        after_request_failed(s, auth).0.answers == s.answers,
        after_request_failed(s, auth).0.kaptcha == s.kaptcha,
        s.current + 1 < s.answers.len() ==> after_request_failed(s, auth) == (
            AttemptView { stage: Stage::Lookup, current: s.current + 1, ..s },
            RequestView::Lookup { label: s.answers[s.current + 1].name },
        ),
        s.current + 1 == s.answers.len() ==> after_request_failed(s, auth) == chosen(
            AttemptView { current: s.current + 1, ..s },
        ),
{
}

/// An attempt that is over stays over: whatever is reported to it, it asks
/// for nothing more.
pub proof fn lemma_done_stays_done(
    s: AttemptView,
    auth: AuthSession,
    url: Seq<char>,
    body: Seq<char>,
    accepted: bool,
    normalized: Option<Seq<u8>>,
    found: Seq<Seq<char>>,
    bits: Option<u64>,
)
    requires
        s.stage == Stage::Done,
    ensures
        after_page_arrived(s, auth, url, body) == ended(s, AttemptOutcome::Failure(ErrorKind::Lock)),
        after_login_answered(s, auth, accepted) == ended(s, AttemptOutcome::Failure(ErrorKind::Lock)),
        after_picture(s, normalized) == ended(s, AttemptOutcome::Failure(ErrorKind::Lock)),
        after_lookup(s, found) == ended(s, AttemptOutcome::Failure(ErrorKind::Lock)),
        after_score(s, bits) == ended(s, AttemptOutcome::Failure(ErrorKind::Lock)),
        after_submitted(s, body) == ended(s, AttemptOutcome::Failure(ErrorKind::Lock)),
        after_request_failed(s, auth) == ended(s, AttemptOutcome::Failure(ErrorKind::Lock)),
        ended(s, AttemptOutcome::Failure(ErrorKind::Lock)).0 == s,
{
}

/// An error in fetching or reading the check-in page ends the attempt at
/// once with that error; nothing is fetched, measured or submitted after it.
pub proof fn lemma_page_errors_end_the_attempt(s: AttemptView, step: AuthStepView)
    ensures
        step matches AuthStepView::Failed(e) ==> after_auth_step(s, step) == ended(
            s,
            AttemptOutcome::Failure(e),
        ),
        step matches AuthStepView::Page(body) ==> (challenge_of(body) matches Err(e) ==> after_auth_step(s, step)
            == ended(s, AttemptOutcome::Failure(e))),
{
}

/// The form that submits an option: its value as the answer, and the submit
/// button.
pub fn answer_form(value: &str) -> (r: Vec<FormField>)
    ensures
        form_view(r@) == seq![("answer"@, value@), ("submit"@, SUBMIT_LABEL@)],
{
    let mut form: Vec<FormField> = Vec::new();
    form.push(field("answer", value));
    form.push(field("submit", SUBMIT_LABEL));
    assert(form_view(form@) =~= seq![("answer"@, value@), ("submit"@, SUBMIT_LABEL@)]);
    form
}

/// How an attempt ends on the site's answer to the submitted option: a
/// success if the answer holds the mark of success, `Submission` if not.
pub fn read_submission(body: &str) -> (r: AttemptOutcome)
    ensures
        r == submission_outcome(body@),
{
    if str_contains(body, SUCCESS_MARK) {
        AttemptOutcome::Success
    } else {
        AttemptOutcome::Failure(ErrorKind::Submission)
    }
}

impl Attempt {
    /// An attempt that has not begun. Scores up to the one with key `limit`
    /// count as a match.
    pub fn new(limit: u64) -> (r: Self)
        ensures
            r@ == (AttemptView {
                stage: Stage::Idle,
                kaptcha: KaptchaView { url: Seq::empty(), img_bytes: None },
                answers: Seq::empty(),
                current: 0,
                limit,
            }),
    {
        let r = Attempt {
            stage: Stage::Idle,
            kaptcha: Kaptcha::new(String::new()),
            answers: Vec::new(),
            current: 0,
            limit,
        };
        assert(answer_views(r.answers@) =~= Seq::empty());
        r
    }

    /// Begins the attempt, or begins it anew: whatever an earlier attempt
    /// found is dropped, and the check-in page is asked for through the
    /// session.
    pub fn begin(&mut self, auth: &mut AuthSession) -> (r: Request)
        ensures
            final(self)@ == begun(old(self)@),
            r@ == RequestView::Auth(AuthRequest::GetGatedPage),
            *final(auth) == after_begin(*old(auth)),
    {
        self.stage = Stage::Page;
        self.kaptcha = Kaptcha::new(String::new());
        self.answers = Vec::new();
        self.current = 0;
        assert(answer_views(self.answers@) =~= Seq::empty());
        Request::Auth(auth.begin())
    }

    /// Takes in something that was not asked for at all: the attempt ends
    /// with `Lock`.
    pub fn reject(&mut self) -> (r: Request)
        ensures
            (final(self)@, r@) == ended(old(self)@, AttemptOutcome::Failure(ErrorKind::Lock)),
    {
        self.end(AttemptOutcome::Failure(ErrorKind::Lock))
    }

    /// Ends the attempt.
    fn end(&mut self, outcome: AttemptOutcome) -> (r: Request)
        ensures
            (final(self)@, r@) == ended(old(self)@, outcome),
    {
        self.stage = Stage::Done;
        Request::Finish(outcome)
    }

    /// Makes the choice among the options.
    fn pick(&mut self) -> (r: Request)
        ensures
            (final(self)@, r@) == chosen(old(self)@),
    {
        match self.kaptcha.compare_with_answers(&self.answers, self.limit) {
            Ok(answer) => {
                self.stage = Stage::Submit;
                Request::Submit { value: answer.value }
            },
            Err(e) => self.end(AttemptOutcome::Failure(e)),
        }
    }

    /// Starts on the current option.
    fn start_option(&mut self) -> (r: Request)
        ensures
            (final(self)@, r@) == option_started(old(self)@),
    {
        if self.current < self.answers.len() {
            self.stage = Stage::Lookup;
            assert(answer_views(self.answers@)[self.current as int] == self.answers@[self.current as int]@);
            Request::Lookup { label: self.answers[self.current].name.clone() }
        } else {
            self.pick()
        }
    }

    /// Leaves the current option and starts on the next.
    fn finish_option(&mut self) -> (r: Request)
        requires
            at_option(old(self)@),
        ensures
            (final(self)@, r@) == option_done(old(self)@),
    {
        assert(answer_views(self.answers@).len() == self.answers.len());
        self.current = self.current + 1;
        self.start_option()
    }

    /// Acts on what the session has said to a response.
    fn follow(&mut self, step: AuthStep) -> (r: Request)
        ensures
            (final(self)@, r@) == after_auth_step(old(self)@, step@),
    {
        match step {
            AuthStep::Send(request) => Request::Auth(request),
            AuthStep::Failed(e) => self.end(AttemptOutcome::Failure(e)),
            AuthStep::Page(body) => match parse_challenge(body.as_str()) {
                Err(e) => self.end(AttemptOutcome::Failure(e)),
                Ok(challenge) => {
                    let url = challenge.image_url.clone();
                    self.stage = Stage::Puzzle;
                    self.kaptcha = Kaptcha::new(challenge.image_url);
                    self.answers = challenge.options;
                    self.current = 0;
                    Request::GetPicture { url }
                },
            },
        }
    }

    /// Takes in a page, with the address it came from after all redirects.
    ///
    /// The session decides whether the page is the check-in page, and logs
    /// in if it is not. The check-in page is read: with its puzzle and its
    /// options the attempt goes on to fetch the puzzle picture; a page
    /// without options, or one that is not understood, ends it.
    pub fn on_page(&mut self, auth: &mut AuthSession, final_url: &str, body: String) -> (r: Request)
        ensures
            (final(self)@, r@) == after_page_arrived(old(self)@, *old(auth), final_url@, body@),
            *final(auth) == if old(self)@.stage == Stage::Page {
                after_page(*old(auth), final_url@)
            } else {
                *old(auth)
            },
    {
        if self.stage == Stage::Page {
            let step = auth.on_page(final_url, body);
            self.follow(step)
        } else {
            self.end(AttemptOutcome::Failure(ErrorKind::Lock))
        }
    }

    /// Takes in whether the site answered the login form with a success
    /// status.
    pub fn on_login_result(&mut self, auth: &mut AuthSession, accepted: bool) -> (r: Request)
        ensures
            (final(self)@, r@) == after_login_answered(old(self)@, *old(auth), accepted),
            *final(auth) == if old(self)@.stage == Stage::Page {
                after_login_result(*old(auth), accepted)
            } else {
                *old(auth)
            },
    {
        if self.stage == Stage::Page {
            let step = auth.on_login_result(accepted);
            self.follow(step)
        } else {
            self.end(AttemptOutcome::Failure(ErrorKind::Lock))
        }
    }

    /// Whether the attempt waits for a picture that it does not have yet.
    pub fn needs_picture(&self) -> (r: bool)
        ensures
            r == wants_picture(self@),
    {
        match self.stage {
            Stage::Puzzle => self.kaptcha.needs_img(),
            Stage::Picture => {
                if self.current < self.answers.len() {
                    assert(answer_views(self.answers@)[self.current as int] == self.answers@[self.current as int]@);
                    self.answers[self.current].needs_img()
                } else {
                    false
                }
            },
            _ => false,
        }
    }

    /// Takes in the picture asked for, brought to the common size; `None` if
    /// the bytes that arrived were no picture.
    ///
    /// The puzzle picture must be a picture, or the attempt ends with
    /// `Parse`; then the first option is started on. An option's picture that
    /// is none only has the option passed over; one that is goes on to be
    /// measured. The puzzle and each option take a picture in once: one that
    /// has its picture keeps it.
    pub fn on_normalized(&mut self, normalized: Option<Vec<u8>>) -> (r: Request)
        ensures
            (final(self)@, r@) == after_picture(old(self)@, opt_bytes(normalized)),
    {
        match self.stage {
            Stage::Puzzle => {
                match self.kaptcha.take_img(normalized) {
                    Ok(()) => {
                        self.current = 0;
                        self.start_option()
                    },
                    Err(_) => self.end(AttemptOutcome::Failure(ErrorKind::Parse)),
                }
            },
            Stage::Picture => {
                if self.current < self.answers.len() {
                    let ghost before = self.answers@;
                    let mut answer = self.answers.remove(self.current);
                    let kept = answer.take_img(normalized);
                    self.answers.insert(self.current, answer);
                    proof {
                        assert(self.answers@ =~= before.update(self.current as int, answer));
                        assert(answer_views(self.answers@) =~= answer_views(before).update(self.current as int, answer@));
                    }
                    match kept {
                        Ok(()) => {
                            self.stage = Stage::Score;
                            Request::Score
                        },
                        Err(_) => {
                            assert(answer_views(self.answers@) =~= answer_views(before));
                            self.finish_option()
                        },
                    }
                } else {
                    self.end(AttemptOutcome::Failure(ErrorKind::Lock))
                }
            },
            _ => self.end(AttemptOutcome::Failure(ErrorKind::Lock)),
        }
    }

    /// The bytes of a picture that arrived, brought to the common size, if
    /// the attempt waits for a picture and the bytes are one.
    pub fn normalized_for(&self, raw: &[u8]) -> (r: Option<Vec<u8>>)
        ensures
            !wants_picture(self@) ==> r is None,
    {
        if self.needs_picture() {
            picture_of(normalize_picture(raw))
        } else {
            None
        }
    }

    /// Takes in the bytes of the picture asked for: they are brought to the
    /// common size and taken in as [`Attempt::on_normalized`] says. Where the
    /// attempt does not wait for a picture, the bytes are not looked at.
    pub fn on_picture(&mut self, raw: &[u8]) -> (r: Request)
        ensures
            exists|normalized: Option<Seq<u8>>|
                (final(self)@, r@) == #[trigger] after_picture(old(self)@, normalized),
            !wants_picture(old(self)@) ==> (final(self)@, r@) == after_picture(old(self)@, None),
    {
        let normalized = self.normalized_for(raw);
        let ghost given = opt_bytes(normalized);
        let r = self.on_normalized(normalized);
        assert((self@, r@) == after_picture(old(self)@, given));
        r
    }

    /// Takes in what the lookup service found under the current option's
    /// label: the picture address of each record, in the order of the
    /// records. The first one is fetched; with no record the option is passed
    /// over.
    pub fn on_lookup(&mut self, found: &Vec<String>) -> (r: Request)
        ensures
            (final(self)@, r@) == after_lookup(old(self)@, texts(found@)),
    {
        if self.stage == Stage::Lookup && self.current < self.answers.len() {
            if found.len() == 0 {
                self.finish_option()
            } else {
                let ghost before = self.answers@;
                let mut answer = self.answers.remove(self.current);
                let _r = answer.resolve(found);
                self.answers.insert(self.current, answer);
                proof {
                    assert(self.answers@ =~= before.update(self.current as int, answer));
                    assert(answer_views(self.answers@) =~= answer_views(before).update(self.current as int, answer@));
                }
                self.stage = Stage::Picture;
                Request::GetPicture { url: found[0].clone() }
            }
        } else {
            self.end(AttemptOutcome::Failure(ErrorKind::Lock))
        }
    }

    /// Takes in the score of the current option's picture against the
    /// puzzle, as the bit pattern of a binary64 number, or `None` if one of
    /// the two could not be measured. Either way the next option is started
    /// on.
    pub fn on_score(&mut self, bits: Option<u64>) -> (r: Request)
        ensures
            (final(self)@, r@) == after_score(old(self)@, bits),
    {
        if self.stage == Stage::Score && self.current < self.answers.len() {
            let ghost before = self.answers@;
            let mut answer = self.answers.remove(self.current);
            match bits {
                Some(bits) => answer.set_score(bits),
                None => {
                    answer.score = None;
                },
            }
            self.answers.insert(self.current, answer);
            proof {
                assert(self.answers@ =~= before.update(self.current as int, answer));
                assert(answer_views(self.answers@) =~= answer_views(before).update(self.current as int, answer@));
            }
            self.finish_option()
        } else {
            self.end(AttemptOutcome::Failure(ErrorKind::Lock))
        }
    }

    /// Takes in the site's answer to the submitted option.
    pub fn on_submitted(&mut self, body: &str) -> (r: Request)
        ensures
            (final(self)@, r@) == after_submitted(old(self)@, body@),
    {
        if self.stage == Stage::Submit {
            let outcome = read_submission(body);
            self.end(outcome)
        } else {
            self.end(AttemptOutcome::Failure(ErrorKind::Lock))
        }
    }

    /// Takes in that the request under way failed before any response.
    ///
    /// While an option is worked on, only that option is lost. At every
    /// other stage the attempt ends with `Network`.
    pub fn on_failure(&mut self, auth: &mut AuthSession) -> (r: Request)
        ensures
            (final(self)@, r@) == after_request_failed(old(self)@, *old(auth)),
            *final(auth) == if old(self)@.stage == Stage::Page {
                after_failure(*old(auth))
            } else {
                *old(auth)
            },
    {
        match self.stage {
            Stage::Page => {
                let kind = auth.on_failure();
                self.end(AttemptOutcome::Failure(kind))
            },
            Stage::Puzzle => self.end(AttemptOutcome::Failure(ErrorKind::Network)),
            Stage::Submit => self.end(AttemptOutcome::Failure(ErrorKind::Network)),
            Stage::Lookup | Stage::Picture | Stage::Score => {
                if self.current < self.answers.len() {
                    self.finish_option()
                } else {
                    self.end(AttemptOutcome::Failure(ErrorKind::Lock))
                }
            },
            _ => self.end(AttemptOutcome::Failure(ErrorKind::Lock)),
        }
    }

    /// The two pictures to measure: the puzzle's and the current option's.
    /// There are two exactly while the attempt waits for a score.
    pub fn pictures(&self) -> (r: Option<(&Vec<u8>, &Vec<u8>)>)
        ensures
            r is Some <==> self@.stage == Stage::Score && at_option(self@) && self@.kaptcha.img_bytes is Some
                && self@.answers[self@.current].img_bytes is Some,
            r matches Some((puzzle, option)) ==> Some(puzzle@) == self@.kaptcha.img_bytes && Some(option@)
                == self@.answers[self@.current].img_bytes,
    {
        if self.stage == Stage::Score && self.current < self.answers.len() {
            assert(answer_views(self.answers@)[self.current as int] == self.answers@[self.current as int]@);
            match (&self.kaptcha.img_bytes, &self.answers[self.current].img_bytes) {
                (Some(puzzle), Some(option)) => Some((puzzle, option)),
                _ => None,
            }
        } else {
            None
        }
    }
}

} // verus!
