use image::ImageFormat;
use image::Rgb;
use image::RgbImage;
use std::io::Cursor;
use tjuptatt::attempt::answer_form;
use tjuptatt::attempt::read_submission;
use tjuptatt::attempt::Attempt;
use tjuptatt::attempt::Request;
use tjuptatt::attempt::Stage;
use tjuptatt::error::AttemptOutcome;
use tjuptatt::error::ErrorKind;
use tjuptatt::picparser::score_key;
use tjuptatt::session::AuthRequest;
use tjuptatt::session::AuthSession;
use tjuptatt::session::AuthState;

const GATED: &str = "https://tjupt.org/attendance.php";
const LOGIN: &str = "https://tjupt.org/login.php";
const DONE: &str = "<html><body>\u{7b7e}\u{5230}\u{6210}\u{529f}</body></html>";

fn picture(color: [u8; 3]) -> Vec<u8> {
    let picture = RgbImage::from_pixel(40, 60, Rgb(color));
    let mut out = Vec::new();
    picture.write_to(&mut Cursor::new(&mut out), ImageFormat::Jpeg).unwrap();
    out
}

fn limit(threshold: f64) -> u64 {
    score_key(threshold.to_bits()).unwrap()
}

fn puzzle_page() -> String {
    "<html><body><table><tr><td id=\"outer\"><img src=\"/pic/puzzle.jpg\"><form method=\"post\">\
     <input type=\"radio\" name=\"answer\" value=\"val1\">PosterX<br>\
     <input type=\"radio\" name=\"answer\" value=\"val2\">PosterY<br>\
     <input type=\"submit\" name=\"submit\" value=\"go\"></form></td></tr></table></body></html>"
        .to_string()
}

fn url_of(request: &Request) -> String {
    match request {
        Request::GetPicture { url } => url.clone(),
        _ => panic!("no picture was asked for"),
    }
}

fn label_of(request: &Request) -> String {
    match request {
        Request::Lookup { label } => label.clone(),
        _ => panic!("no lookup was asked for"),
    }
}

/// Runs an attempt from the puzzle page to the choice, with the given score
/// for each of the two posters.
fn run_to_choice(threshold: f64, score_x: f64, score_y: f64) -> (Attempt, Request) {
    let mut auth = AuthSession::new();
    let mut attempt = Attempt::new(limit(threshold));
    assert!(matches!(attempt.begin(&mut auth), Request::Auth(AuthRequest::GetGatedPage)));
    let r = attempt.on_page(&mut auth, GATED, puzzle_page());
    assert_eq!(url_of(&r), "https://tjupt.org/pic/puzzle.jpg");
    let r = attempt.on_picture(&picture([200, 0, 0]));
    assert_eq!(label_of(&r), "PosterX");
    let r = attempt.on_lookup(&vec!["https://img.example/x.jpg".to_string(), "https://img.example/other.jpg".to_string()]);
    assert_eq!(url_of(&r), "https://img.example/x.jpg");
    let r = attempt.on_picture(&picture([190, 10, 10]));
    assert!(matches!(r, Request::Score));
    assert!(attempt.pictures().is_some());
    let r = attempt.on_score(Some(score_x.to_bits()));
    assert_eq!(label_of(&r), "PosterY");
    let r = attempt.on_lookup(&vec!["https://img.example/y.jpg".to_string()]);
    assert_eq!(url_of(&r), "https://img.example/y.jpg");
    let r = attempt.on_picture(&picture([0, 0, 200]));
    assert!(matches!(r, Request::Score));
    let r = attempt.on_score(Some(score_y.to_bits()));
    (attempt, r)
}

#[test]
fn the_matching_poster_is_submitted() {
    let (mut attempt, r) = run_to_choice(0.1, 0.03, 0.4);
    match &r {
        Request::Submit { value } => assert_eq!(value, "val1"),
        _ => panic!("nothing was submitted"),
    }
    assert_eq!(attempt.stage, Stage::Submit);
    let r = attempt.on_submitted(DONE);
    assert!(matches!(r, Request::Finish(AttemptOutcome::Success)));
    assert_eq!(attempt.stage, Stage::Done);
}

#[test]
fn the_second_poster_is_submitted_when_it_is_closer() {
    let (_, r) = run_to_choice(0.1, 0.09, 0.01);
    match &r {
        Request::Submit { value } => assert_eq!(value, "val2"),
        _ => panic!("nothing was submitted"),
    }
}

#[test]
fn no_poster_qualifies_under_a_tighter_threshold() {
    let (attempt, r) = run_to_choice(0.02, 0.03, 0.4);
    assert!(matches!(r, Request::Finish(AttemptOutcome::Failure(ErrorKind::NoMatch))));
    assert_eq!(attempt.stage, Stage::Done);
}

#[test]
fn an_unacknowledged_answer_is_a_submission_error() {
    let (mut attempt, _) = run_to_choice(0.1, 0.03, 0.4);
    let r = attempt.on_submitted("<html>try again</html>");
    assert!(matches!(r, Request::Finish(AttemptOutcome::Failure(ErrorKind::Submission))));
}

#[test]
fn a_page_without_options_ends_the_attempt_as_already_completed() {
    let mut auth = AuthSession::new();
    let mut attempt = Attempt::new(limit(0.1));
    attempt.begin(&mut auth);
    let r = attempt.on_page(&mut auth, GATED, "<html><body>see you tomorrow</body></html>".to_string());
    assert!(matches!(r, Request::Finish(AttemptOutcome::Failure(ErrorKind::AlreadyCompleted))));
    assert_eq!(attempt.stage, Stage::Done);
    assert_eq!(auth.state, AuthState::LoggedIn);
}

#[test]
fn an_attempt_logs_in_when_it_is_sent_to_the_login_page() {
    let mut auth = AuthSession::new();
    let mut attempt = Attempt::new(limit(0.1));
    attempt.begin(&mut auth);
    let r = attempt.on_page(&mut auth, LOGIN, "login".to_string());
    assert!(matches!(r, Request::Auth(AuthRequest::GetLoginPage)));
    assert_eq!(auth.state, AuthState::Authenticating);
    let r = attempt.on_page(&mut auth, LOGIN, "login".to_string());
    assert!(matches!(r, Request::Auth(AuthRequest::PostLogin)));
    let r = attempt.on_login_result(&mut auth, true);
    assert!(matches!(r, Request::Auth(AuthRequest::GetGatedPage)));
    let r = attempt.on_page(&mut auth, GATED, puzzle_page());
    assert_eq!(url_of(&r), "https://tjupt.org/pic/puzzle.jpg");
    assert_eq!(auth.state, AuthState::LoggedIn);
    assert_eq!(attempt.stage, Stage::Puzzle);
    assert_eq!(attempt.answers.len(), 2);
}

#[test]
fn a_failed_login_ends_the_attempt() {
    let mut auth = AuthSession::new();
    let mut attempt = Attempt::new(limit(0.1));
    attempt.begin(&mut auth);
    attempt.on_page(&mut auth, LOGIN, String::new());
    attempt.on_page(&mut auth, LOGIN, String::new());
    attempt.on_login_result(&mut auth, true);
    let r = attempt.on_page(&mut auth, LOGIN, String::new());
    assert!(matches!(r, Request::Finish(AttemptOutcome::Failure(ErrorKind::Auth))));
    assert_eq!(auth.state, AuthState::LoggedOut);

    let mut attempt = Attempt::new(limit(0.1));
    attempt.begin(&mut auth);
    attempt.on_page(&mut auth, LOGIN, String::new());
    attempt.on_page(&mut auth, LOGIN, String::new());
    let r = attempt.on_login_result(&mut auth, false);
    assert!(matches!(r, Request::Finish(AttemptOutcome::Failure(ErrorKind::Network))));
}

#[test]
fn options_that_fail_are_passed_over() {
    let mut auth = AuthSession::new();
    let mut attempt = Attempt::new(limit(0.1));
    attempt.begin(&mut auth);
    attempt.on_page(&mut auth, GATED, puzzle_page());
    let r = attempt.on_picture(&picture([200, 0, 0]));
    assert_eq!(label_of(&r), "PosterX");
    // the lookup finds nothing for the first poster
    let r = attempt.on_lookup(&Vec::new());
    assert_eq!(label_of(&r), "PosterY");
    assert_eq!(attempt.current, 1);
    let r = attempt.on_lookup(&vec!["https://img.example/y.jpg".to_string()]);
    assert_eq!(url_of(&r), "https://img.example/y.jpg");
    let r = attempt.on_picture(&picture([199, 1, 1]));
    assert!(matches!(r, Request::Score));
    let r = attempt.on_score(Some(0.05f64.to_bits()));
    match &r {
        Request::Submit { value } => assert_eq!(value, "val2"),
        _ => panic!("nothing was submitted"),
    }
}

#[test]
fn every_way_of_losing_an_option_goes_on_to_the_next() {
    let mut auth = AuthSession::new();
    let mut attempt = Attempt::new(limit(0.1));
    attempt.begin(&mut auth);
    attempt.on_page(&mut auth, GATED, puzzle_page());
    attempt.on_picture(&picture([200, 0, 0]));
    // the first poster's picture is none
    attempt.on_lookup(&vec!["https://img.example/x.jpg".to_string()]);
    let r = attempt.on_picture(b"no picture");
    assert_eq!(label_of(&r), "PosterY");
    // the second poster cannot be measured
    attempt.on_lookup(&vec!["https://img.example/y.jpg".to_string()]);
    attempt.on_picture(&picture([0, 0, 200]));
    let r = attempt.on_score(None);
    assert!(matches!(r, Request::Finish(AttemptOutcome::Failure(ErrorKind::NoMatch))));
}

#[test]
fn a_failed_request_for_an_option_loses_only_that_option() {
    let mut auth = AuthSession::new();
    let mut attempt = Attempt::new(limit(0.1));
    attempt.begin(&mut auth);
    attempt.on_page(&mut auth, GATED, puzzle_page());
    attempt.on_picture(&picture([200, 0, 0]));
    let r = attempt.on_failure(&mut auth);
    assert_eq!(label_of(&r), "PosterY");
    attempt.on_lookup(&vec!["https://img.example/y.jpg".to_string()]);
    let r = attempt.on_failure(&mut auth);
    assert!(matches!(r, Request::Finish(AttemptOutcome::Failure(ErrorKind::NoMatch))));
    assert_eq!(auth.state, AuthState::LoggedIn);
}

#[test]
fn failures_outside_the_options_end_the_attempt_at_once() {
    let mut auth = AuthSession::new();
    let mut attempt = Attempt::new(limit(0.1));
    attempt.begin(&mut auth);
    let r = attempt.on_failure(&mut auth);
    assert!(matches!(r, Request::Finish(AttemptOutcome::Failure(ErrorKind::Network))));

    let mut attempt = Attempt::new(limit(0.1));
    attempt.begin(&mut auth);
    attempt.on_page(&mut auth, GATED, puzzle_page());
    let r = attempt.on_failure(&mut auth);
    assert!(matches!(r, Request::Finish(AttemptOutcome::Failure(ErrorKind::Network))));

    let mut attempt = Attempt::new(limit(0.1));
    attempt.begin(&mut auth);
    attempt.on_page(&mut auth, GATED, puzzle_page());
    let r = attempt.on_picture(b"no picture");
    assert!(matches!(r, Request::Finish(AttemptOutcome::Failure(ErrorKind::Parse))));

    let (mut attempt, _) = run_to_choice(0.1, 0.03, 0.4);
    let r = attempt.on_failure(&mut auth);
    assert!(matches!(r, Request::Finish(AttemptOutcome::Failure(ErrorKind::Network))));
}

#[test]
fn a_page_that_is_not_understood_is_a_parse_error() {
    let mut auth = AuthSession::new();
    let mut attempt = Attempt::new(limit(0.1));
    attempt.begin(&mut auth);
    let page = "<html><body><input type=\"radio\" name=\"answer\" value=\"1\">One<br></body></html>";
    let r = attempt.on_page(&mut auth, GATED, page.to_string());
    assert!(matches!(r, Request::Finish(AttemptOutcome::Failure(ErrorKind::Parse))));
}

#[test]
fn what_was_not_asked_for_ends_the_attempt() {
    let mut auth = AuthSession::new();
    let mut attempt = Attempt::new(limit(0.1));
    assert_eq!(attempt.stage, Stage::Idle);
    let r = attempt.on_picture(&picture([1, 2, 3]));
    assert!(matches!(r, Request::Finish(AttemptOutcome::Failure(ErrorKind::Lock))));
    let mut attempt = Attempt::new(limit(0.1));
    attempt.begin(&mut auth);
    assert!(matches!(attempt.on_score(Some(0)), Request::Finish(AttemptOutcome::Failure(ErrorKind::Lock))));
    assert!(matches!(attempt.on_lookup(&Vec::new()), Request::Finish(AttemptOutcome::Failure(ErrorKind::Lock))));
    assert!(matches!(attempt.on_submitted(DONE), Request::Finish(AttemptOutcome::Failure(ErrorKind::Lock))));
    assert!(matches!(attempt.on_page(&mut auth, GATED, puzzle_page()), Request::Finish(AttemptOutcome::Failure(ErrorKind::Lock))));
    assert!(attempt.pictures().is_none());
}

#[test]
fn a_new_attempt_starts_from_scratch() {
    let (mut attempt, _) = run_to_choice(0.1, 0.03, 0.4);
    let mut auth = AuthSession::new();
    assert!(matches!(attempt.begin(&mut auth), Request::Auth(AuthRequest::GetGatedPage)));
    assert_eq!(attempt.stage, Stage::Page);
    assert!(attempt.answers.is_empty());
    assert!(attempt.kaptcha.img_bytes.is_none());
    assert_eq!(attempt.current, 0);
    assert_eq!(attempt.limit, limit(0.1));
}

#[test]
fn the_two_pictures_to_measure_are_the_normalized_ones() {
    let mut auth = AuthSession::new();
    let mut attempt = Attempt::new(limit(0.1));
    attempt.begin(&mut auth);
    attempt.on_page(&mut auth, GATED, puzzle_page());
    attempt.on_picture(&picture([200, 0, 0]));
    attempt.on_lookup(&vec!["https://img.example/x.jpg".to_string()]);
    attempt.on_picture(&picture([0, 200, 0]));
    let (puzzle, option) = attempt.pictures().unwrap();
    let puzzle = image::load_from_memory_with_format(puzzle, ImageFormat::Jpeg).unwrap().to_rgb8();
    let option = image::load_from_memory_with_format(option, ImageFormat::Jpeg).unwrap().to_rgb8();
    assert_eq!(puzzle.dimensions(), (120, 200));
    assert_eq!(option.dimensions(), (120, 200));
    assert!(puzzle.get_pixel(5, 5).0[0] > 150);
    assert!(option.get_pixel(5, 5).0[1] > 150);
}

#[test]
fn the_answer_form_names_the_value() {
    let form = answer_form("val1");
    let pairs: Vec<(&str, &str)> = form.iter().map(|f| (f.name.as_str(), f.value.as_str())).collect();
    assert_eq!(pairs, vec![("answer", "val1"), ("submit", "\u{63d0}\u{4ea4}")]);
}

#[test]
fn the_mark_of_success_decides_the_outcome() {
    assert_eq!(read_submission(DONE), AttemptOutcome::Success);
    assert_eq!(read_submission("\u{7b7e}\u{5230}\u{6210}\u{529f}"), AttemptOutcome::Success);
    assert_eq!(read_submission("\u{7b7e}\u{5230}\u{6210}"), AttemptOutcome::Failure(ErrorKind::Submission));
    assert_eq!(read_submission(""), AttemptOutcome::Failure(ErrorKind::Submission));
}

#[test]
fn an_option_that_has_its_picture_keeps_it() {
    let mut auth = AuthSession::new();
    let mut attempt = Attempt::new(limit(0.1));
    attempt.begin(&mut auth);
    attempt.on_page(&mut auth, GATED, puzzle_page());
    attempt.on_picture(&picture([200, 0, 0]));
    attempt.on_lookup(&vec!["https://img.example/x.jpg".to_string()]);
    assert_eq!(attempt.stage, Stage::Picture);
    // the option comes by its picture before the fetch is reported
    assert!(attempt.answers[0].get_img(&picture([0, 200, 0])).is_ok());
    let kept = attempt.answers[0].img_bytes.clone().unwrap();
    let r = attempt.on_picture(b"no picture");
    assert!(matches!(r, Request::Score));
    assert_eq!(attempt.stage, Stage::Score);
    assert_eq!(attempt.answers[0].img_bytes.clone().unwrap(), kept);
    let (_, option) = attempt.pictures().unwrap();
    assert_eq!(option, &kept);
}

#[test]
fn a_normalized_picture_moves_the_attempt_on() {
    let mut auth = AuthSession::new();
    let mut attempt = Attempt::new(limit(0.1));
    assert!(!attempt.needs_picture());
    attempt.begin(&mut auth);
    attempt.on_page(&mut auth, GATED, puzzle_page());
    assert!(attempt.needs_picture());
    let r = attempt.on_normalized(Some(vec![1, 2, 3]));
    assert_eq!(label_of(&r), "PosterX");
    assert_eq!(attempt.kaptcha.img_bytes, Some(vec![1, 2, 3]));
    assert!(!attempt.needs_picture());
    attempt.on_lookup(&vec!["https://img.example/x.jpg".to_string()]);
    assert!(attempt.needs_picture());
    // no picture for the first poster: on to the second
    let r = attempt.on_normalized(None);
    assert_eq!(label_of(&r), "PosterY");
    attempt.on_lookup(&vec!["https://img.example/y.jpg".to_string()]);
    let r = attempt.on_normalized(Some(vec![4, 5]));
    assert!(matches!(r, Request::Score));
    assert_eq!(attempt.answers[1].img_bytes, Some(vec![4, 5]));
    assert!(attempt.normalized_for(b"whatever").is_none());
    let r = attempt.on_normalized(Some(vec![6]));
    assert!(matches!(r, Request::Finish(AttemptOutcome::Failure(ErrorKind::Lock))));
}

#[test]
fn a_missing_puzzle_picture_ends_the_attempt() {
    let mut auth = AuthSession::new();
    let mut attempt = Attempt::new(limit(0.1));
    attempt.begin(&mut auth);
    attempt.on_page(&mut auth, GATED, puzzle_page());
    let r = attempt.on_normalized(None);
    assert!(matches!(r, Request::Finish(AttemptOutcome::Failure(ErrorKind::Parse))));
    let mut idle = Attempt::new(limit(0.1));
    assert!(matches!(idle.reject(), Request::Finish(AttemptOutcome::Failure(ErrorKind::Lock))));
    assert_eq!(idle.stage, Stage::Done);
}
