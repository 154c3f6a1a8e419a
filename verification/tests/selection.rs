use tjuptatt::error::ErrorKind;
use tjuptatt::picparser::score_key;
use tjuptatt::picparser::INFINITY_KEY;
use tjuptatt::picparser::select_best;
use tjuptatt::picparser::Answer;
use tjuptatt::picparser::Kaptcha;

fn key(score: f64) -> u64 {
    score_key(score.to_bits()).unwrap()
}

fn option(name: &str, value: &str, score: Option<f64>) -> Answer {
    let mut a = Answer::new(name.to_string(), value.to_string());
    if let Some(s) = score {
        a.set_score(s.to_bits());
    }
    a
}

fn puzzle_with_picture() -> Kaptcha {
    let mut k = Kaptcha::new("https://tjupt.org/pic.jpg".to_string());
    k.img_bytes = Some(vec![1, 2, 3]);
    k
}

#[test]
fn the_closer_poster_is_selected() {
    let answers = vec![option("PosterX", "val1", Some(0.03)), option("PosterY", "val2", Some(0.4))];
    let picked = puzzle_with_picture().compare_with_answers(&answers, key(0.1)).unwrap();
    assert_eq!(picked.value, "val1");
    assert_eq!(picked.name, "PosterX");
}

#[test]
fn no_poster_within_a_tighter_threshold() {
    let answers = vec![option("PosterX", "val1", Some(0.03)), option("PosterY", "val2", Some(0.4))];
    let picked = puzzle_with_picture().compare_with_answers(&answers, key(0.02));
    assert!(matches!(picked, Err(ErrorKind::NoMatch)));
}

#[test]
fn the_lowest_score_wins_wherever_it_stands() {
    let answers = vec![
        option("a", "1", Some(0.09)),
        option("b", "2", Some(0.5)),
        option("c", "3", Some(0.01)),
        option("d", "4", Some(0.05)),
    ];
    assert_eq!(select_best(&answers, key(0.1)), Some(2));
}

#[test]
fn of_equal_scores_the_first_wins() {
    let answers = vec![
        option("a", "1", Some(0.5)),
        option("b", "2", Some(0.02)),
        option("c", "3", Some(0.02)),
        option("d", "4", Some(0.02)),
    ];
    assert_eq!(select_best(&answers, key(0.1)), Some(1));
}

#[test]
fn a_score_equal_to_the_threshold_qualifies() {
    let answers = vec![option("a", "1", Some(0.1))];
    assert_eq!(select_best(&answers, key(0.1)), Some(0));
}

#[test]
fn options_without_a_score_are_passed_over() {
    let answers = vec![option("a", "1", None), option("b", "2", Some(0.07)), option("c", "3", None)];
    assert_eq!(select_best(&answers, key(0.1)), Some(1));
    let none = vec![option("a", "1", None), option("b", "2", None)];
    assert_eq!(select_best(&none, key(0.1)), None);
}

#[test]
fn no_options_no_match() {
    let answers: Vec<Answer> = Vec::new();
    assert_eq!(select_best(&answers, key(0.1)), None);
    let picked = puzzle_with_picture().compare_with_answers(&answers, key(0.1));
    assert!(matches!(picked, Err(ErrorKind::NoMatch)));
}

#[test]
fn a_score_that_is_no_number_never_qualifies() {
    let answers = vec![option("a", "1", Some(f64::NAN)), option("b", "2", Some(0.3))];
    assert!(answers[0].score.is_none());
    assert_eq!(select_best(&answers, key(f64::INFINITY)), Some(1));
    assert_eq!(select_best(&answers, key(0.1)), None);
}

#[test]
fn an_infinite_score_is_never_selected() {
    let answers = vec![option("a", "1", Some(f64::INFINITY))];
    assert_eq!(select_best(&answers, key(f64::INFINITY)), None);
    assert_eq!(select_best(&answers, u64::MAX), None);
    let picked = puzzle_with_picture().compare_with_answers(&answers, key(f64::INFINITY));
    assert!(matches!(picked, Err(ErrorKind::NoMatch)));
    let more = vec![option("a", "1", Some(f64::INFINITY)), option("b", "2", Some(f64::MAX))];
    assert_eq!(select_best(&more, key(f64::INFINITY)), Some(1));
    assert_eq!(key(f64::INFINITY), INFINITY_KEY);
}

#[test]
fn nothing_qualifies_below_a_negative_threshold() {
    let answers = vec![option("a", "1", Some(0.0)), option("b", "2", Some(0.01))];
    assert_eq!(select_best(&answers, key(-0.5)), None);
}

#[test]
fn without_a_puzzle_picture_nothing_is_compared() {
    let answers = vec![option("a", "1", Some(0.0))];
    let puzzle = Kaptcha::new("https://tjupt.org/pic.jpg".to_string());
    assert!(matches!(puzzle.compare_with_answers(&answers, key(0.1)), Err(ErrorKind::Parse)));
}

#[test]
fn keys_order_scores_as_numbers_do() {
    let scores = [
        f64::NEG_INFINITY,
        -1.0e300,
        -2.5,
        -1.0,
        -f64::MIN_POSITIVE,
        0.0,
        f64::MIN_POSITIVE,
        0.02,
        0.03,
        0.1,
        0.4,
        1.0,
        f64::MAX,
        f64::INFINITY,
    ];
    for a in scores {
        for b in scores {
            assert_eq!(key(a) <= key(b), a <= b);
            assert_eq!(key(a) == key(b), a == b);
        }
    }
}

#[test]
fn both_zeros_share_a_key() {
    assert_eq!(key(0.0), key(-0.0));
    assert_eq!(key(0.0), 0x8000_0000_0000_0000);
}

#[test]
fn exact_keys_of_some_numbers() {
    assert_eq!(key(1.0), 0x8000_0000_0000_0000 + 0x3ff0_0000_0000_0000);
    assert_eq!(key(-1.0), 0x8000_0000_0000_0000 - 0x3ff0_0000_0000_0000);
    assert_eq!(key(f64::INFINITY), 0xfff0_0000_0000_0000);
    assert_eq!(key(f64::NEG_INFINITY), 0x0010_0000_0000_0000);
}

#[test]
fn what_is_no_number_has_no_key() {
    assert_eq!(score_key(f64::NAN.to_bits()), None);
    assert_eq!(score_key(0x7ff0_0000_0000_0001), None);
    assert_eq!(score_key(0xfff8_0000_0000_0000), None);
    assert_eq!(score_key(u64::MAX), None);
}

#[test]
fn a_new_option_has_nothing_found() {
    let a = Answer::new("label".to_string(), "7".to_string());
    assert_eq!(a.name, "label");
    assert_eq!(a.value, "7");
    assert!(a.img_url.is_none() && a.img_bytes.is_none() && a.score.is_none());
    let b = Answer::from(("label".to_string(), "7".to_string()));
    assert_eq!((b.name.as_str(), b.value.as_str()), ("label", "7"));
    let k = Kaptcha::from("u".to_string());
    assert_eq!(k.url, "u");
    assert!(k.needs_img());
}

#[test]
fn the_first_record_resolves_an_option() {
    let mut a = Answer::new("label".to_string(), "7".to_string());
    let found = vec!["https://img/1.jpg".to_string(), "https://img/2.jpg".to_string()];
    assert!(a.resolve(&found).is_ok());
    assert_eq!(a.img_url.as_deref(), Some("https://img/1.jpg"));
    let mut b = Answer::new("label".to_string(), "7".to_string());
    assert!(matches!(b.resolve(&Vec::new()), Err(ErrorKind::NotFound)));
    assert!(b.img_url.is_none());
}

#[test]
fn a_copy_of_an_option_keeps_every_field() {
    let mut a = option("label", "7", Some(0.25));
    a.img_url = Some("u".to_string());
    a.img_bytes = Some(vec![9, 8, 7]);
    let b = a.clone();
    assert_eq!(b.name, "label");
    assert_eq!(b.value, "7");
    assert_eq!(b.img_url.as_deref(), Some("u"));
    assert_eq!(b.img_bytes, Some(vec![9, 8, 7]));
    assert_eq!(b.score, Some(key(0.25)));
}
