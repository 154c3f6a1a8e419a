use std::path::PathBuf;
use tjuptatt::bot::accounts_from_pairs;
use tjuptatt::bot::choose_mode;
use tjuptatt::bot::cookie_file_name;
use tjuptatt::bot::enabled_users;
use tjuptatt::bot::get_users_vec;
use tjuptatt::bot::Mode;
use tjuptatt::bot::TjuPtUser;
use tjuptatt::command::tjurls::ATTENDANCE;
use tjuptatt::command::tjurls::BASE;
use tjuptatt::command::tjurls::LOGIN;
use tjuptatt::command::tjurls::TAKELOGIN;
use tjuptatt::command::Dirs;
use tjuptatt::command::CONFIG_FILENAME;
use tjuptatt::config::EmailConfig;
use tjuptatt::config::GlobalConfig;
use tjuptatt::config::UserConfig;
use tjuptatt::email_bot::compose;
use tjuptatt::email_bot::mailbox;
use tjuptatt::error::AttemptOutcome;
use tjuptatt::error::ErrorKind;
use tjuptatt::attempt::Request;
use tjuptatt::picparser::score_key;
use tjuptatt::schedule::TimeOfDay;
use tjuptatt::session::AuthRequest;
use tjuptatt::session::AuthState;
use tjuptatt::session::Saved;
use tjuptatt::text::decimal;

fn account(enable: bool, id: &str, email: Option<&str>, retry: Option<u8>) -> UserConfig {
    UserConfig::new(enable, id.to_string(), "pw".to_string(), email.map(|e| e.to_string()), retry)
}

#[test]
fn names_and_passwords_are_paired() {
    assert_eq!(get_users_vec(vec!["a", "1", "b", "2"]), vec![("a", "1"), ("b", "2")]);
    assert_eq!(get_users_vec(vec!["a", "1", "b"]), vec![("a", "1")]);
    assert_eq!(get_users_vec(vec!["a"]), Vec::<(&str, &str)>::new());
    assert_eq!(get_users_vec(Vec::new()), Vec::<(&str, &str)>::new());
}

#[test]
fn accounts_named_on_the_command_line_are_enabled() {
    let accounts = accounts_from_pairs(&vec![("a", "1"), ("b", "2")], Some(4));
    assert_eq!(accounts.len(), 2);
    assert!(accounts[0].enable() && accounts[1].enable());
    assert_eq!((accounts[0].id(), accounts[0].pwd()), ("a", "1"));
    assert_eq!((accounts[1].id(), accounts[1].pwd()), ("b", "2"));
    assert_eq!(accounts[0].retry(), 4);
    assert_eq!(accounts[0].email(), None);
    let accounts = accounts_from_pairs(&vec![("a", "1")], None);
    assert_eq!(accounts[0].retry(), 3);
}

#[test]
fn only_enabled_accounts_take_part() {
    let users = vec![
        account(true, "a", None, None),
        account(false, "b", None, Some(9)),
        account(true, "c", None, Some(2)),
        account(false, "d", None, None),
    ];
    let global = GlobalConfig::new(5, EmailConfig::default());
    let taking_part = enabled_users(users, &global);
    assert_eq!(taking_part.len(), 2);
    assert_eq!(taking_part[0].id(), "a");
    assert_eq!(taking_part[0].retry(), 5);
    assert_eq!(taking_part[1].id(), "c");
    assert_eq!(taking_part[1].retry(), 2);
    assert!(enabled_users(Vec::new(), &global).is_empty());
}

#[test]
fn the_first_request_on_the_command_line_decides_the_mode() {
    assert_eq!(choose_mode(true, true, true, true), Mode::Init);
    assert_eq!(choose_mode(false, true, true, true), Mode::Uninstall);
    assert_eq!(choose_mode(false, false, true, true), Mode::Users);
    assert_eq!(choose_mode(false, false, false, true), Mode::Config);
    assert_eq!(choose_mode(false, false, false, false), Mode::File);
}

#[test]
fn the_session_file_is_named_after_the_account() {
    assert_eq!(cookie_file_name("alice"), "alice_cookie.json");
    assert_eq!(cookie_file_name(""), "_cookie.json");
    let kept = TjuPtUser::from_config(account(true, "alice", None, None), Some(PathBuf::from("/var/state")));
    assert_eq!(kept.cookie_file().as_deref(), Some("alice_cookie.json"));
    assert_eq!(kept.status_dir().as_deref(), Some(PathBuf::from("/var/state").as_path()));
    let not_kept = TjuPtUser::from_config(account(true, "alice", None, None), None);
    assert_eq!(not_kept.cookie_file(), None);
    assert_eq!(not_kept.config().id(), "alice");
}

#[test]
fn an_account_that_keeps_no_session_loads_and_saves_nothing() {
    let mut user = TjuPtUser::from_config(account(true, "alice", None, None), None);
    assert!(user.load_cookie(Saved::Contents(b"junk")).is_ok());
    assert!(user.load_cookie(Saved::Unreadable).is_ok());
    assert_eq!(user.save_cookie().unwrap(), None);
}

#[test]
fn an_account_that_keeps_its_session_loads_and_saves_it() {
    let mut user = TjuPtUser::from_config(account(true, "alice", None, None), Some(PathBuf::from("state")));
    assert!(user.load_cookie(Saved::Missing).is_ok());
    assert_eq!(user.save_cookie().unwrap(), Some(Vec::new()));
    assert!(user.load_cookie(Saved::Contents(b"")).is_ok());
    assert_eq!(user.save_cookie().unwrap(), Some(Vec::new()));
    assert!(matches!(user.load_cookie(Saved::Contents(b"junk")), Err(ErrorKind::Parse)));
    assert!(matches!(user.load_cookie(Saved::Unreadable), Err(ErrorKind::Lock)));
    assert_eq!(user.save_cookie().unwrap(), Some(Vec::new()));
    assert!(user.clear_cookie().is_ok());
    let session = user.take_session();
    assert_eq!(session.jar().iter_any().count(), 0);
    user.put_session(session);
    assert_eq!(user.auth_state(), AuthState::LoggedOut);
}

const GATED: &str = "https://tjupt.org/attendance.php";
const LOGIN_PAGE: &str = "https://tjupt.org/login.php";

#[test]
fn a_run_is_bounded_by_the_settings_of_the_account() {
    assert_eq!(TjuPtUser::from_config(account(true, "alice", None, Some(2)), None).max_attempts(), 2);
    assert_eq!(TjuPtUser::from_config(account(true, "alice", None, None), None).max_attempts(), 3);
    assert_eq!(TjuPtUser::from_config(account(true, "alice", None, Some(0)), None).max_attempts(), 1);
}

#[test]
fn a_run_of_failing_attempts_makes_as_many_as_allowed() {
    for bound in 1..=5u8 {
        let mut user = TjuPtUser::from_config(account(true, "alice", None, Some(bound)), None);
        let mut request = user.att_now(0, 0);
        let mut begun = 0;
        let outcome = loop {
            match request {
                Request::Auth(AuthRequest::GetGatedPage) => {
                    begun += 1;
                    request = user.on_failure();
                }
                Request::Finish(outcome) => break outcome,
                _ => panic!("nothing else was to be asked for"),
            }
        };
        assert_eq!(begun, bound);
        assert_eq!(user.attempts(), bound);
        assert_eq!(outcome, AttemptOutcome::Failure(ErrorKind::Network));
    }
}

#[test]
fn a_run_returns_the_last_failure() {
    let mut user = TjuPtUser::from_config(account(true, "alice", None, Some(2)), None);
    let r = user.att_now(0, 0);
    assert!(matches!(r, Request::Auth(AuthRequest::GetGatedPage)));
    // the first attempt cannot reach the site, so the second begins
    let r = user.on_failure();
    assert!(matches!(r, Request::Auth(AuthRequest::GetGatedPage)));
    assert_eq!(user.attempts(), 1);
    // the second finds a page without options
    let r = user.on_page(GATED, "<html><body>done</body></html>".to_string());
    assert!(matches!(r, Request::Finish(AttemptOutcome::Failure(ErrorKind::AlreadyCompleted))));
    assert_eq!(user.attempts(), 2);
    assert_eq!(user.auth_state(), AuthState::LoggedIn);
}

#[test]
fn a_run_with_one_attempt_ends_with_that_attempt() {
    let mut user = TjuPtUser::from_config(account(true, "alice", None, Some(1)), None);
    user.att_now(0, 0);
    let r = user.on_page(LOGIN_PAGE, String::new());
    assert!(matches!(r, Request::Auth(AuthRequest::GetLoginPage)));
    assert_eq!(user.auth_state(), AuthState::Authenticating);
    let r = user.on_page(LOGIN_PAGE, String::new());
    assert!(matches!(r, Request::Auth(AuthRequest::PostLogin)));
    let r = user.on_login_result(false);
    assert!(matches!(r, Request::Finish(AttemptOutcome::Failure(ErrorKind::Network))));
    assert_eq!(user.attempts(), 1);
    assert_eq!(user.auth_state(), AuthState::LoggedOut);
}

#[test]
fn a_new_run_counts_from_the_start() {
    let mut user = TjuPtUser::from_config(account(true, "alice", None, Some(1)), None);
    user.att_now(0, 0);
    assert!(matches!(user.on_failure(), Request::Finish(AttemptOutcome::Failure(ErrorKind::Network))));
    assert_eq!(user.attempts(), 1);
    assert!(matches!(user.att_now(0, 0), Request::Auth(AuthRequest::GetGatedPage)));
    assert_eq!(user.attempts(), 0);
    assert!(user.pictures().is_none());
}

#[test]
fn a_run_goes_through_a_whole_check_in() {
    let page = "<html><body><table><tr><td id=\"outer\"><img src=\"/pic/puzzle.jpg\"><form>\
                <input type=\"radio\" name=\"answer\" value=\"val1\">PosterX<br>\
                <input type=\"radio\" name=\"answer\" value=\"val2\">PosterY<br>\
                </form></td></tr></table></body></html>";
    let picture = {
        let picture = image::RgbImage::from_pixel(30, 30, image::Rgb([9, 9, 200]));
        let mut out = Vec::new();
        picture.write_to(&mut std::io::Cursor::new(&mut out), image::ImageFormat::Jpeg).unwrap();
        out
    };
    let limit = score_key(0.1f64.to_bits()).unwrap();
    let mut user = TjuPtUser::from_config(account(true, "alice", None, Some(3)), None);
    user.att_now(limit, 0);
    let r = user.on_page(GATED, page.to_string());
    assert!(matches!(&r, Request::GetPicture { url } if url == "https://tjupt.org/pic/puzzle.jpg"));
    let r = user.on_picture(&picture);
    assert!(matches!(&r, Request::Lookup { label } if label == "PosterX"));
    let r = user.on_lookup(&vec!["https://img.example/x.jpg".to_string()]);
    assert!(matches!(&r, Request::GetPicture { url } if url == "https://img.example/x.jpg"));
    let r = user.on_picture(&picture);
    assert!(matches!(r, Request::Score));
    assert!(user.pictures().is_some());
    let r = user.on_score(Some(0.03f64.to_bits()));
    assert!(matches!(&r, Request::Lookup { label } if label == "PosterY"));
    let r = user.on_lookup(&vec!["https://img.example/y.jpg".to_string()]);
    assert!(matches!(r, Request::GetPicture { .. }));
    let r = user.on_picture(&picture);
    assert!(matches!(r, Request::Score));
    let r = user.on_score(Some(0.4f64.to_bits()));
    assert!(matches!(&r, Request::Submit { value } if value == "val1"));
    // the site does not acknowledge: the next attempt begins
    let r = user.on_submitted("<html>no</html>");
    assert!(matches!(r, Request::Auth(AuthRequest::GetGatedPage)));
    assert_eq!(user.attempts(), 1);
    let r = user.on_page(GATED, page.to_string());
    assert!(matches!(r, Request::GetPicture { .. }));
}

#[test]
fn a_final_failure_is_noticed_when_notices_are_on() {
    let user = TjuPtUser::from_config(account(true, "alice", Some("a@example.org"), None), None);
    let notice = user.notice(true, AttemptOutcome::Failure(ErrorKind::NoMatch)).unwrap();
    assert_eq!(notice.recipient, "a@example.org");
    assert_eq!(notice.message, "alice \u{7b7e}\u{5230}\u{5931}\u{8d25}");
    assert!(user.notice(false, AttemptOutcome::Failure(ErrorKind::NoMatch)).is_none());
    assert!(user.notice(true, AttemptOutcome::Success).is_none());
    let silent = TjuPtUser::from_config(account(true, "bob", None, None), None);
    assert!(silent.notice(true, AttemptOutcome::Failure(ErrorKind::Auth)).is_none());
}

#[test]
fn a_notice_is_composed_for_its_receiver() {
    let settings = EmailConfig::new("bot@example.org".to_string(), "pw".to_string(), None, None, None);
    let mail = compose(&settings, "a@example.org", "alice failed");
    assert_eq!(mail.from, "TJUPT_BOT <bot@example.org>");
    assert_eq!(mail.to, "YOU <a@example.org>");
    assert_eq!(mail.subject, "TJUPT BOT STATUS");
    assert_eq!(mail.body, "alice failed");
    let settings = EmailConfig::new("bot".to_string(), "pw".to_string(), Some("noreply@example.org".to_string()), None, None);
    assert_eq!(compose(&settings, "x", "").from, "TJUPT_BOT <noreply@example.org>");
    assert_eq!(mailbox("A", "b@c"), "A <b@c>");
}

#[test]
fn the_places_are_read_back() {
    let dirs = Dirs::new(PathBuf::from("/cfg"), PathBuf::from("/cfg").join(CONFIG_FILENAME), PathBuf::from("/state"));
    assert_eq!(dirs.config_dir(), &PathBuf::from("/cfg"));
    assert_eq!(dirs.config_path(), &PathBuf::from("/cfg/config.toml"));
    assert_eq!(dirs.state_dir(), &PathBuf::from("/state"));
}

#[test]
fn the_addresses_of_the_site_share_its_origin() {
    assert_eq!(BASE, "https://tjupt.org");
    for url in [LOGIN, ATTENDANCE, TAKELOGIN] {
        assert!(url.starts_with(BASE));
    }
    assert!(LOGIN.contains("login.php"));
    assert!(!ATTENDANCE.contains("login.php"));
}

#[test]
fn numbers_are_written_in_decimal() {
    assert_eq!(decimal(0), "0");
    assert_eq!(decimal(7), "7");
    assert_eq!(decimal(10), "10");
    assert_eq!(decimal(465), "465");
    assert_eq!(decimal(1_234_567_890), "1234567890");
    assert_eq!(decimal(u64::MAX), "18446744073709551615");
}

#[test]
fn a_run_waits_for_the_next_trigger_time() {
    let mut config = account(true, "alice", None, Some(2));
    config.set_schedule(&vec![TimeOfDay::new(9, 0, 0).unwrap(), TimeOfDay::new(21, 0, 0).unwrap()], 2_000);
    let mut user = TjuPtUser::from_config(config, None);
    // Two in the morning UTC is ten on the site's clock.
    let r = user.att_now(0, 2 * 3_600_000);
    assert!(matches!(r, Request::Wait { ms } if ms == 11 * 3_600_000 - 2_000));
    assert_eq!(user.attempts(), 0);
    let r = user.on_waited();
    assert!(matches!(r, Request::Auth(AuthRequest::GetGatedPage)));
    assert_eq!(user.attempts(), 0);
    let r = user.on_failure();
    assert!(matches!(r, Request::Auth(AuthRequest::GetGatedPage)));
    assert_eq!(user.attempts(), 1);
}

#[test]
fn a_run_at_the_trigger_time_begins_at_once() {
    let mut config = account(true, "alice", None, None);
    config.set_schedule(&vec![TimeOfDay::new(10, 0, 0).unwrap()], 0);
    let mut user = TjuPtUser::from_config(config, None);
    let r = user.att_now(0, 2 * 3_600_000);
    assert!(matches!(r, Request::Auth(AuthRequest::GetGatedPage)));
    let mut early = account(true, "bob", None, None);
    early.set_schedule(&vec![TimeOfDay::new(10, 0, 0).unwrap()], 5_000);
    let mut user = TjuPtUser::from_config(early, None);
    let r = user.att_now(0, 2 * 3_600_000 - 4_000);
    assert!(matches!(r, Request::Auth(AuthRequest::GetGatedPage)));
}

#[test]
fn a_wait_that_was_not_asked_for_counts_as_a_failed_attempt() {
    let mut user = TjuPtUser::from_config(account(true, "alice", None, Some(2)), None);
    user.att_now(0, 0);
    let r = user.on_waited();
    assert!(matches!(r, Request::Auth(AuthRequest::GetGatedPage)));
    assert_eq!(user.attempts(), 1);
    let r = user.on_waited();
    assert!(matches!(r, Request::Finish(AttemptOutcome::Failure(ErrorKind::Lock))));
    assert_eq!(user.attempts(), 2);
}

#[test]
fn a_report_during_the_wait_counts_as_a_failed_attempt() {
    let mut config = account(true, "alice", None, Some(1));
    config.set_schedule(&vec![TimeOfDay::new(9, 0, 0).unwrap()], 0);
    let mut user = TjuPtUser::from_config(config, None);
    assert!(matches!(user.att_now(0, 0), Request::Wait { .. }));
    let r = user.on_lookup(&Vec::new());
    assert!(matches!(r, Request::Finish(AttemptOutcome::Failure(ErrorKind::Lock))));
}

#[test]
fn a_run_takes_in_a_normalized_picture() {
    let page = "<html><body><table><tr><td id=\"outer\"><img src=\"/pic/puzzle.jpg\"><form>\
                <input type=\"radio\" name=\"answer\" value=\"val1\">PosterX<br>\
                </form></td></tr></table></body></html>";
    let mut user = TjuPtUser::from_config(account(true, "alice", None, Some(1)), None);
    user.att_now(score_key(0.1f64.to_bits()).unwrap(), 0);
    user.on_page(GATED, page.to_string());
    let r = user.on_normalized(Some(vec![1, 2, 3]));
    assert!(matches!(&r, Request::Lookup { label } if label == "PosterX"));
    user.on_lookup(&vec!["https://img.example/x.jpg".to_string()]);
    let r = user.on_normalized(Some(vec![4, 5]));
    assert!(matches!(r, Request::Score));
    let (puzzle, option) = user.pictures().unwrap();
    assert_eq!((puzzle, option), (&vec![1u8, 2, 3], &vec![4u8, 5]));
    let mut other = TjuPtUser::from_config(account(true, "bob", None, Some(1)), None);
    other.att_now(0, 0);
    other.on_page(GATED, page.to_string());
    let r = other.on_normalized(None);
    assert!(matches!(r, Request::Finish(AttemptOutcome::Failure(ErrorKind::Parse))));
}
