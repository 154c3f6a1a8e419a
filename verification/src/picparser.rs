//! The puzzle picture, the options, and the choice among them.
//!
//! How unlike two pictures are is measured outside this library, as a binary64
//! number: lower is more alike, zero is identical. Here such a number is
//! carried as a key, an integer that grows with it, so that the choice can be
//! made, and proved, on integers.

use vstd::prelude::*;
use std::io::Cursor;
use crate::error::ErrorKind;
use crate::text::clone_opt_bytes;
use crate::text::clone_opt_text;
use crate::text::opt_bytes;
use crate::text::opt_text;

verus! {

/// Width in pixels to which every picture is brought before it is measured.
pub const PICTURE_WIDTH: u32 = 120;

/// Height in pixels to which every picture is brought before it is measured.
pub const PICTURE_HEIGHT: u32 = 200;

/// The sign bit of a binary64 bit pattern.
pub const SIGN_BIT: u64 = 0x8000_0000_0000_0000;

/// The bit pattern of positive infinity; a greater magnitude is no number.
pub const INFINITY_BITS: u64 = 0x7ff0_0000_0000_0000;

/// The bit pattern without its sign.
pub open spec fn magnitude(bits: u64) -> int {
    if bits >= SIGN_BIT {
        bits - SIGN_BIT
    } else {
        bits as int
    }
}

/// The bit pattern stands for a number, infinities included.
pub open spec fn is_number(bits: u64) -> bool {
    magnitude(bits) <= INFINITY_BITS
}

/// Where the number with this bit pattern stands among all numbers: of two
/// numbers the greater has the greater rank, and the two zeros share rank 0.
pub open spec fn rank(bits: u64) -> int {
    if bits >= SIGN_BIT {
        -magnitude(bits)
    } else {
        magnitude(bits)
    }
}

/// The key of a bit pattern: its rank moved into the unsigned range. What is
/// no number has no key.
pub open spec fn key_of(bits: u64) -> Option<u64> {
    if is_number(bits) {
        Some((SIGN_BIT + rank(bits)) as u64)
    } else {
        None
    }
}

/// The key of the binary64 number with the given bit pattern, by which scores
/// and the threshold are compared; `None` if the pattern is no number.
pub fn score_key(bits: u64) -> (r: Option<u64>)
    ensures
        r == key_of(bits),
{
    if bits >= SIGN_BIT {
        let m: u64 = bits - SIGN_BIT;
        if m <= INFINITY_BITS {
            Some(SIGN_BIT - m)
        } else {
            None
        }
    } else if bits <= INFINITY_BITS {
        Some(SIGN_BIT + bits)
    } else {
        None
    }
}

/// Keys order bit patterns as ranks do, and equal keys mean equal ranks.
pub proof fn lemma_keys_follow_rank(a: u64, b: u64)
    requires
        is_number(a),
        is_number(b),
    ensures
        key_of(a).unwrap() <= key_of(b).unwrap() <==> rank(a) <= rank(b),
        key_of(a).unwrap() == key_of(b).unwrap() <==> rank(a) == rank(b),
{
}

/// One selectable option of a puzzle.
pub struct Answer {
    /// The label shown beside the option.
    pub name: String,
    /// What the form submits for the option.
    pub value: String,
    /// Where a picture for the label was found.
    pub img_url: Option<String>,
    /// That picture, brought to the common size.
    pub img_bytes: Option<Vec<u8>>,
    /// The key of the score of that picture against the puzzle.
    pub score: Option<u64>,
}

/// An option as the contracts see it.
pub struct AnswerView {
    pub name: Seq<char>,
    pub value: Seq<char>,
    pub img_url: Option<Seq<char>>,
    pub img_bytes: Option<Seq<u8>>,
    pub score: Option<u64>,
}

impl View for Answer {
    type V = AnswerView;

    open spec fn view(&self) -> AnswerView {
        AnswerView {
            name: self.name@,
            value: self.value@,
            img_url: opt_text(self.img_url),
            img_bytes: opt_bytes(self.img_bytes),
            score: self.score,
        }
    }
}

/// The options of a list as the contracts see them.
pub open spec fn answer_views(answers: Seq<Answer>) -> Seq<AnswerView> {
    answers.map_values(|a: Answer| a@)
}

/// The key of positive infinity, from which the search for the lowest score
/// starts: only a score below it can be the lowest.
pub const INFINITY_KEY: u64 = 0xfff0_0000_0000_0000;

/// `INFINITY_KEY` is the key of positive infinity, and the keys below it are
/// those of the numbers below positive infinity.
pub proof fn lemma_keys_below_infinity(bits: u64)
    requires
        is_number(bits),
    ensures
        key_of(INFINITY_BITS) == Some(INFINITY_KEY),
        key_of(bits).unwrap() <= INFINITY_KEY,
        key_of(bits).unwrap() < INFINITY_KEY <==> bits != INFINITY_BITS,
{
}

/// The option at `i` has a score within the limit, and a finite one: an
/// infinite score is never better than no score at all.
pub open spec fn qualifies(answers: Seq<AnswerView>, limit: u64, i: int) -> bool {
    0 <= i < answers.len() && answers[i].score is Some && answers[i].score.unwrap() <= limit
        && answers[i].score.unwrap() < INFINITY_KEY
}

/// The option at `i` is the one to pick: it qualifies, no qualifying option
/// has a lower score, and none before it has the same.
pub open spec fn is_best(answers: Seq<AnswerView>, limit: u64, i: int) -> bool {
    &&& qualifies(answers, limit, i)
    &&& forall|j: int| qualifies(answers, limit, j) ==> answers[i].score.unwrap() <= (#[trigger] answers[j]).score.unwrap()
    &&& forall|j: int| 0 <= j < i && qualifies(answers, limit, j) ==> answers[i].score.unwrap() < (#[trigger] answers[j]).score.unwrap()
}

/// At most one option is the one to pick.
pub proof fn lemma_best_is_unique(answers: Seq<AnswerView>, limit: u64, i: int, j: int)
    requires
        is_best(answers, limit, i),
        is_best(answers, limit, j),
    ensures
        i == j,
{
    if i < j {
        assert(answers[j].score.unwrap() < answers[i].score.unwrap());
        assert(answers[i].score.unwrap() <= answers[j].score.unwrap());
    } else if j < i {
        assert(answers[i].score.unwrap() < answers[j].score.unwrap());
        assert(answers[j].score.unwrap() <= answers[i].score.unwrap());
    }
}

/// Among the first `n` options, the one to pick, if any of them qualifies.
proof fn lemma_best_among(answers: Seq<AnswerView>, limit: u64, n: int) -> (r: Option<int>)
    requires
        0 <= n <= answers.len(),
    ensures
        r is None ==> forall|j: int| 0 <= j < n ==> !qualifies(answers, limit, j),
        r matches Some(i) ==> {
            &&& 0 <= i < n
            &&& qualifies(answers, limit, i)
            &&& forall|j: int|
                0 <= j < n && qualifies(answers, limit, j) ==> answers[i].score.unwrap() <= (
                #[trigger] answers[j]).score.unwrap()
            &&& forall|j: int|
                0 <= j < i && qualifies(answers, limit, j) ==> answers[i].score.unwrap() < (
                #[trigger] answers[j]).score.unwrap()
        },
    decreases n,
{
    if n == 0 {
        None
    } else {
        let before = lemma_best_among(answers, limit, n - 1);
        if qualifies(answers, limit, n - 1) {
            match before {
                None => Some(n - 1),
                Some(i) => if answers[n - 1].score.unwrap() < answers[i].score.unwrap() {
                    Some(n - 1)
                } else {
                    Some(i)
                },
            }
        } else {
            before
        }
    }
}

/// Whenever some option has a score within the limit, there is an option to
/// pick: one with the lowest such score and, of several, the first.
pub proof fn lemma_some_qualifies_one_is_best(answers: Seq<AnswerView>, limit: u64)
    requires
        exists|i: int| qualifies(answers, limit, i),
    ensures
        exists|i: int| is_best(answers, limit, i),
        best_of(answers, limit) is Some,
        is_best(answers, limit, best_of(answers, limit).unwrap()),
{
    let witness = choose|i: int| qualifies(answers, limit, i);
    let best = lemma_best_among(answers, limit, answers.len() as int);
    assert(qualifies(answers, limit, witness));
    assert(best is Some);
    assert(is_best(answers, limit, best.unwrap()));
}

/// When no option has a score within the limit, and so too when there are no
/// options at all, there is no option to pick.
pub proof fn lemma_none_qualifies_none_is_best(answers: Seq<AnswerView>, limit: u64)
    requires
        forall|i: int| !qualifies(answers, limit, i),
    ensures
        forall|i: int| !is_best(answers, limit, i),
        best_of(answers, limit) is None,
{
    assert forall|i: int| !is_best(answers, limit, i) by {
        if is_best(answers, limit, i) {
            assert(qualifies(answers, limit, i));
        }
    }
}

/// The position of the option to pick, if there is one.
pub open spec fn best_of(answers: Seq<AnswerView>, limit: u64) -> Option<int> {
    if exists|i: int| is_best(answers, limit, i) {
        Some(choose|i: int| is_best(answers, limit, i))
    } else {
        None
    }
}

/// The position of the option to pick, if any option qualifies.
///
/// Options without a score are passed over, and so are options whose score
/// is infinite. Among the options whose score is within `limit`, the one
/// with the lowest score wins, and of several with that score the first.
pub fn select_best(answers: &Vec<Answer>, limit: u64) -> (r: Option<usize>)
    ensures
        r is Some <==> exists|i: int| qualifies(answer_views(answers@), limit, i),
        r matches Some(i) ==> is_best(answer_views(answers@), limit, i as int),
        best_of(answer_views(answers@), limit) == match r {
            Some(i) => Some(i as int),
            None => None,
        },
{
    let ghost views = answer_views(answers@);
    let mut best: Option<usize> = None;
    let mut best_score: u64 = 0;
    let mut i: usize = 0;
    while i < answers.len()
        invariant
            0 <= i <= answers.len(),
            views == answer_views(answers@),
            views.len() == answers.len(),
            best is None ==> forall|j: int| 0 <= j < i ==> !qualifies(views, limit, j),
            best matches Some(b) ==> {
                &&& b < i
                &&& qualifies(views, limit, b as int)
                &&& best_score == views[b as int].score.unwrap()
                &&& forall|j: int| 0 <= j < i && qualifies(views, limit, j) ==> best_score <= (#[trigger] views[j]).score.unwrap()
                &&& forall|j: int| 0 <= j < b && qualifies(views, limit, j) ==> best_score < (#[trigger] views[j]).score.unwrap()
            },
        decreases answers.len() - i,
    {
        assert(views[i as int] == answers@[i as int]@);
        match answers[i].score {
            Some(score) => {
                if score <= limit && score < INFINITY_KEY && (best.is_none() || score < best_score) {
                    best = Some(i);
                    best_score = score;
                }
            },
            None => {},
        }
        i = i + 1;
    }
    proof {
        match best {
            Some(b) => {
                lemma_best_is_unique(views, limit, b as int, best_of(views, limit).unwrap());
            },
            None => {
                assert forall|i: int| !is_best(views, limit, i) by {
                    if is_best(views, limit, i) {
                        assert(qualifies(views, limit, i));
                    }
                }
            },
        }
    }
    best
}

/// The puzzle picture of one check-in.
pub struct Kaptcha {
    /// Where the picture is.
    pub url: String,
    /// The picture, brought to the common size.
    pub img_bytes: Option<Vec<u8>>,
}

/// A puzzle as the contracts see it.
pub struct KaptchaView {
    pub url: Seq<char>,
    pub img_bytes: Option<Seq<u8>>,
}

impl View for Kaptcha {
    type V = KaptchaView;

    open spec fn view(&self) -> KaptchaView {
        KaptchaView { url: self.url@, img_bytes: opt_bytes(self.img_bytes) }
    }
}

/// `image::ImageError`, the error of the `image` crate's decoders and
/// encoders. Nothing inside it is visible here.
#[verifier::external_type_specification]
#[verifier::external_body]
pub struct ExImageError(image::ImageError);

/// The `image` crate's reader, resize and writer in a row:
/// `io::Reader::decode` with the format set to JPEG, `imageops::resize` with
/// the nearest-neighbour filter, `ImageBuffer::write_to` as JPEG. An error of
/// the decoder or the encoder comes back as it is. Nothing is stated of the
/// bytes that come out: the decoder works with the instructions that the
/// processor at hand offers, and its results differ a little between them.
///
/// `ImageBuffer::new`, which the resize calls, panics when the picture asked
/// for is larger than a vector can be. A JPEG picture is at most 65535
/// pixels wide, so with sizes up to 1024 no buffer of the resize comes near
/// that.
#[verifier::external_body]
fn resize_jpeg(raw: &[u8], width: u32, height: u32) -> (r: Result<Vec<u8>, image::ImageError>)
    requires
        0 < width <= 1024,
        0 < height <= 1024,
{
    let mut reader = image::io::Reader::new(Cursor::new(raw));
    reader.set_format(image::ImageFormat::Jpeg);
    let picture = reader.decode()?;
    let small = image::imageops::resize(&picture, width, height, image::imageops::FilterType::Nearest);
    let mut out = Vec::new();
    small.write_to(&mut Cursor::new(&mut out), image::ImageFormat::Jpeg)?;
    Ok(out)
}

/// What bringing a picture to the common size comes to, given what the
/// resize gave: the bytes that came out, as they are, or `Parse` if it
/// failed.
pub fn normalized_from(resized: Result<Vec<u8>, image::ImageError>) -> (r: Result<Vec<u8>, ErrorKind>)
    ensures
        match resized {
            Ok(out) => r is Ok && r.unwrap()@ == out@,
            Err(_) => r == Err::<Vec<u8>, ErrorKind>(ErrorKind::Parse),
        },
{
    match resized {
        Ok(out) => Ok(out),
        Err(_) => Err(ErrorKind::Parse),
    }
}

/// The picture brought to the common size, ready to be measured; `Parse` if
/// the bytes cannot be read as a JPEG picture and written again.
///
/// The bytes that come out are the decoder's and the encoder's; what is made
/// of them is stated where they are taken in: [`Kaptcha::take_img`],
/// [`Answer::take_img`].
pub fn normalize_picture(raw: &[u8]) -> (r: Result<Vec<u8>, ErrorKind>)
    ensures
        r is Err ==> r == Err::<Vec<u8>, ErrorKind>(ErrorKind::Parse),
{
    normalized_from(resize_jpeg(raw, PICTURE_WIDTH, PICTURE_HEIGHT))
}

/// What normalizing gave, as the bytes if there are any.
pub fn picture_of(normalized: Result<Vec<u8>, ErrorKind>) -> (r: Option<Vec<u8>>)
    ensures
        match normalized {
            Ok(out) => r is Some && r.unwrap()@ == out@,
            Err(_) => r is None,
        },
{
    match normalized {
        Ok(out) => Some(out),
        Err(_) => None,
    }
}

impl Kaptcha {
    /// A puzzle whose picture is at `url` and has not been fetched.
    pub fn new(url: String) -> (r: Self)
        ensures
            r@ == (KaptchaView { url: url@, img_bytes: None }),
    {
        Self { url, img_bytes: None }
    }

    /// Whether the picture still has to be fetched.
    pub fn needs_img(&self) -> (r: bool)
        ensures
            r == (self@.img_bytes is None),
    {
        self.img_bytes.is_none()
    }

    /// Takes in the picture as it came out of normalizing, `None` if the
    /// bytes fetched were no picture. A puzzle that has its picture keeps it.
    /// Otherwise the picture is kept, or, if there is none, refused with
    /// `Parse`.
    pub fn take_img(&mut self, normalized: Option<Vec<u8>>) -> (r: Result<(), ErrorKind>)
        ensures
            final(self)@.url == old(self)@.url,
            old(self)@.img_bytes is Some ==> r is Ok && final(self)@ == old(self)@,
            old(self)@.img_bytes is None ==> match normalized {
                Some(out) => r is Ok && final(self)@.img_bytes == Some(out@),
                None => r == Err::<(), ErrorKind>(ErrorKind::Parse) && final(self)@.img_bytes is None,
            },
    {
        if self.img_bytes.is_none() {
            match normalized {
                Some(out) => {
                    self.img_bytes = Some(out);
                    Ok(())
                },
                None => Err(ErrorKind::Parse),
            }
        } else {
            Ok(())
        }
    }

    /// Takes in the fetched picture. A puzzle that has its picture keeps it;
    /// otherwise the bytes are brought to the common size and kept, or, if
    /// they are no picture, refused with `Parse`.
    pub fn get_img(&mut self, raw: &[u8]) -> (r: Result<(), ErrorKind>)
        ensures
            final(self)@.url == old(self)@.url,
            old(self)@.img_bytes is Some ==> r is Ok && final(self)@ == old(self)@,
            old(self)@.img_bytes is None ==> (r is Ok <==> final(self)@.img_bytes is Some),
            r is Err ==> r == Err::<(), ErrorKind>(ErrorKind::Parse),
    {
        if self.img_bytes.is_none() {
            self.take_img(picture_of(normalize_picture(raw)))
        } else {
            Ok(())
        }
    }

    /// The option that matches the puzzle.
    ///
    /// Without a puzzle picture nothing was measured, and the result is
    /// `Parse`. Otherwise the option with the lowest score within `limit_min`
    /// is returned, the first of several; `NoMatch` if there is none.
    pub fn compare_with_answers(&self, answers: &Vec<Answer>, limit_min: u64) -> (r: Result<Answer, ErrorKind>)
        ensures
            self@.img_bytes is None ==> r == Err::<Answer, ErrorKind>(ErrorKind::Parse),
            self@.img_bytes is Some ==> match r {
                Ok(a) => exists|i: int| is_best(answer_views(answers@), limit_min, i) && a@ == #[trigger] answer_views(answers@)[i],
                Err(e) => e == ErrorKind::NoMatch && forall|i: int| !qualifies(answer_views(answers@), limit_min, i),
            },
            self@.img_bytes is Some ==> match best_of(answer_views(answers@), limit_min) {
                Some(i) => r is Ok && r.unwrap()@ == answer_views(answers@)[i],
                None => r == Err::<Answer, ErrorKind>(ErrorKind::NoMatch),
            },
    {
        if self.img_bytes.is_none() {
            return Err(ErrorKind::Parse);
        }
        match select_best(answers, limit_min) {
            Some(i) => {
                assert(answer_views(answers@)[i as int] == answers@[i as int]@);
                Ok(answers[i].clone())
            },
            None => Err(ErrorKind::NoMatch),
        }
    }
}

impl Answer {
    /// An option with its label and its form value, and nothing found yet.
    pub fn new(name: String, value: String) -> (r: Self)
        ensures
            r@ == (AnswerView { name: name@, value: value@, img_url: None, img_bytes: None, score: None }),
    {
        Self { name, value, img_url: None, img_bytes: None, score: None }
    }

    /// Takes in what the lookup service found under the label: the picture
    /// address of each record, in the order of the records. The first one
    /// becomes the option's; with no record the result is `NotFound`.
    pub fn resolve(&mut self, found: &Vec<String>) -> (r: Result<(), ErrorKind>)
        ensures
            final(self)@.name == old(self)@.name,
            final(self)@.value == old(self)@.value,
            final(self)@.img_bytes == old(self)@.img_bytes,
            final(self)@.score == old(self)@.score,
            found.len() > 0 ==> r is Ok && final(self)@.img_url == Some(found@[0]@),
            found.len() == 0 ==> r == Err::<(), ErrorKind>(ErrorKind::NotFound) && final(self)@.img_url == old(self)@.img_url,
    {
        if found.len() > 0 {
            self.img_url = Some(found[0].clone());
            Ok(())
        } else {
            Err(ErrorKind::NotFound)
        }
    }

    /// Whether the option's picture still has to be fetched.
    pub fn needs_img(&self) -> (r: bool)
        ensures
            r == (self@.img_bytes is None),
    {
        self.img_bytes.is_none()
    }

    /// Takes in the picture as it came out of normalizing, `None` if the
    /// bytes fetched were no picture. An option that has its picture keeps
    /// it: a picture is taken in once. Otherwise the picture is kept, or, if
    /// there is none, refused with `Parse`, and the option stays without one.
    pub fn take_img(&mut self, normalized: Option<Vec<u8>>) -> (r: Result<(), ErrorKind>)
        ensures
            final(self)@.name == old(self)@.name,
            final(self)@.value == old(self)@.value,
            final(self)@.img_url == old(self)@.img_url,
            final(self)@.score == old(self)@.score,
            old(self)@.img_bytes is Some ==> r is Ok && final(self)@ == old(self)@,
            old(self)@.img_bytes is None ==> match normalized {
                Some(out) => r is Ok && final(self)@.img_bytes == Some(out@),
                None => r == Err::<(), ErrorKind>(ErrorKind::Parse) && final(self)@.img_bytes is None,
            },
    {
        if self.img_bytes.is_none() {
            match normalized {
                Some(out) => {
                    self.img_bytes = Some(out);
                    Ok(())
                },
                None => Err(ErrorKind::Parse),
            }
        } else {
            Ok(())
        }
    }

    /// Takes in the fetched picture. An option that has its picture keeps it:
    /// a picture is taken in once. Otherwise the bytes are brought to the
    /// common size and kept, or, if they are no picture, refused with
    /// `Parse`, and the option stays without one.
    pub fn get_img(&mut self, raw: &[u8]) -> (r: Result<(), ErrorKind>)
        ensures
            final(self)@.name == old(self)@.name,
            final(self)@.value == old(self)@.value,
            final(self)@.img_url == old(self)@.img_url,
            final(self)@.score == old(self)@.score,
            old(self)@.img_bytes is Some ==> r is Ok && final(self)@ == old(self)@,
            old(self)@.img_bytes is None ==> (r is Ok <==> final(self)@.img_bytes is Some),
            r is Err ==> r == Err::<(), ErrorKind>(ErrorKind::Parse),
    {
        if self.img_bytes.is_none() {
            self.take_img(picture_of(normalize_picture(raw)))
        } else {
            Ok(())
        }
    }

    /// Takes in the score of the option's picture against the puzzle, as the
    /// bit pattern of a binary64 number. What is no number leaves the option
    /// without a score.
    pub fn set_score(&mut self, bits: u64)
        ensures
            final(self)@ == (AnswerView { score: key_of(bits), ..old(self)@ }),
    {
        self.score = score_key(bits);
    }
}

impl Clone for Answer {
    fn clone(&self) -> (r: Self)
        ensures
            r@ == self@,
    {
        Answer {
            name: self.name.clone(),
            value: self.value.clone(),
            img_url: clone_opt_text(&self.img_url),
            img_bytes: clone_opt_bytes(&self.img_bytes),
            score: self.score,
        }
    }
}

impl From<String> for Kaptcha {
    fn from(value: String) -> (r: Self)
    {
        Kaptcha { url: value, img_bytes: None }
    }
}

impl vstd::std_specs::convert::FromSpecImpl<String> for Kaptcha {
    open spec fn obeys_from_spec() -> bool {
        true
    }

    open spec fn from_spec(value: String) -> Self {
        Kaptcha { url: value, img_bytes: None }
    }
}

impl From<(String, String)> for Answer {
    fn from(value: (String, String)) -> (r: Self)
    {
        Answer { name: value.0, value: value.1, img_url: None, img_bytes: None, score: None }
    }
}

impl vstd::std_specs::convert::FromSpecImpl<(String, String)> for Answer {
    open spec fn obeys_from_spec() -> bool {
        true
    }

    open spec fn from_spec(value: (String, String)) -> Self {
        Answer { name: value.0, value: value.1, img_url: None, img_bytes: None, score: None }
    }
}

} // verus!
