//! The check-in page: its options and its puzzle picture.
//!
//! The page is HTML. Finding elements in it is left to the `scraper` crate;
//! what is made of the elements found is decided here.

use vstd::prelude::*;
use scraper::Html;
use scraper::Selector;
use crate::command::tjurls::BASE;
use crate::error::ErrorKind;
use crate::picparser::Answer;
use crate::picparser::answer_views;
use crate::picparser::AnswerView;
use crate::text::has_suffix;
use crate::text::opt_text;
use crate::text::str_ends_with;

verus! {

/// Selects the inputs that stand for the options.
pub const OPTION_SELECTOR: &'static str = "input[type=\"radio\"]";

/// The attribute of an option's input that holds what the form submits.
pub const VALUE_ATTR: &'static str = "value";

/// Selects the region of the page that shows the puzzle.
pub const REGION_SELECTOR: &'static str = "td[id=\"outer\"]";

/// Selects pictures inside a region.
pub const IMAGE_SELECTOR: &'static str = "img";

/// The attribute of a picture that holds its address.
pub const SRC_ATTR: &'static str = "src";

/// How the address of a puzzle picture ends.
pub const IMAGE_SUFFIX: &'static str = ".jpg";

/// What was read off one element of a page.
pub struct Found {
    /// The text that follows the element directly, if text does.
    pub sibling_text: Option<String>,
    /// The value of the attribute asked for, if the element has it.
    pub attr: Option<String>,
}

impl View for Found {
    type V = (Option<Seq<char>>, Option<Seq<char>>);

    open spec fn view(&self) -> (Option<Seq<char>>, Option<Seq<char>>) {
        (opt_text(self.sibling_text), opt_text(self.attr))
    }
}

/// What was read off each element of a list.
pub open spec fn found_views(found: Seq<Found>) -> Seq<(Option<Seq<char>>, Option<Seq<char>>)> {
    found.map_values(|f: Found| f@)
}

/// What was read off the pictures of each region of a list.
pub open spec fn region_views(regions: Seq<Vec<Option<String>>>) -> Seq<Seq<Option<Seq<char>>>> {
    regions.map_values(|r: Vec<Option<String>>| r@.map_values(|s: Option<String>| opt_text(s)))
}

/// For each element of the page that the selector matches: the text that
/// follows it directly and the value of its attribute `attr`. `None` where
/// the selector is not one.
pub uninterp spec fn elements_of(html: Seq<char>, selector: Seq<char>, attr: Seq<char>) -> Option<Seq<(Option<Seq<char>>, Option<Seq<char>>)>>;

/// For each element of the page that `outer` matches: the value of the
/// attribute `attr` of each element inside it that `inner` matches. `None`
/// where one of the selectors is not one.
pub uninterp spec fn nested_of(html: Seq<char>, outer: Seq<char>, inner: Seq<char>, attr: Seq<char>) -> Option<Seq<Seq<Option<Seq<char>>>>>;

/// `Html::parse_document` and `Html::select` of the `scraper` crate, with
/// the selector read by `Selector::parse`. Of each element matched, in the
/// order in which `select` yields them, two things are handed out: the text
/// of the next sibling, if that is a text node (`NodeRef::next_sibling`,
/// `Node::as_text`), and the value of the attribute (`Element::attr`).
#[verifier::external_body]
fn select_elements(html: &str, selector: &str, attr: &str) -> (r: Option<Vec<Found>>)
    ensures
        match r {
            Some(found) => elements_of(html@, selector@, attr@) == Some(found_views(found@)),
            None => elements_of(html@, selector@, attr@) is None,
        },
{
    let selector = Selector::parse(selector).ok()?;
    Some(Html::parse_document(html).select(&selector).map(|e| Found {
        sibling_text: e.next_sibling().and_then(|n| n.value().as_text().map(|t| t.to_string())),
        attr: e.value().attr(attr).map(|v| v.to_string()),
    }).collect())
}

/// `Html::parse_document`, `Html::select` and, on each element matched,
/// `ElementRef::select`, with both selectors read by `Selector::parse`. Of
/// each inner element the value of the attribute is handed out
/// (`Element::attr`), in the order in which `select` yields them.
#[verifier::external_body]
fn select_nested(html: &str, outer: &str, inner: &str, attr: &str) -> (r: Option<Vec<Vec<Option<String>>>>)
    ensures
        match r {
            Some(regions) => nested_of(html@, outer@, inner@, attr@) == Some(region_views(regions@)),
            None => nested_of(html@, outer@, inner@, attr@) is None,
        },
{
    let outer = Selector::parse(outer).ok()?;
    let inner = Selector::parse(inner).ok()?;
    Some(Html::parse_document(html).select(&outer).map(|e| {
        e.select(&inner).map(|i| i.value().attr(attr).map(|v| v.to_string())).collect()
    }).collect())
}

/// The option that an input stands for, if it has both a label after it and
/// a value.
pub open spec fn option_of(found: (Option<Seq<char>>, Option<Seq<char>>)) -> Option<AnswerView> {
    match found {
        (Some(label), Some(value)) => Some(
            AnswerView { name: label, value, img_url: None, img_bytes: None, score: None },
        ),
        _ => None,
    }
}

/// The options that the inputs stand for, in the order of the inputs; inputs
/// that lack a label or a value are left out.
pub open spec fn options_of(found: Seq<(Option<Seq<char>>, Option<Seq<char>>)>) -> Seq<AnswerView>
    decreases found.len(),
{
    if found.len() == 0 {
        Seq::empty()
    } else {
        let before = options_of(found.drop_last());
        match option_of(found.last()) {
            Some(option) => before.push(option),
            None => before,
        }
    }
}

/// The address of the puzzle picture as the page gives it: that of the first
/// picture of the first region, if there is one and it has an address.
pub open spec fn image_src_of(regions: Seq<Seq<Option<Seq<char>>>>) -> Option<Seq<char>> {
    if regions.len() > 0 && regions[0].len() > 0 {
        regions[0][0]
    } else {
        None
    }
}

/// One puzzle: where its picture is, and its options in the order of the
/// page.
pub struct Challenge {
    pub image_url: String,
    pub options: Vec<Answer>,
}

/// A puzzle as the contracts see it.
pub struct ChallengeView {
    pub image_url: Seq<char>,
    pub options: Seq<AnswerView>,
}

impl View for Challenge {
    type V = ChallengeView;

    open spec fn view(&self) -> ChallengeView {
        ChallengeView { image_url: self.image_url@, options: answer_views(self.options@) }
    }
}

/// The puzzle that the elements read off a page make up.
///
/// A page without options means that the check-in is done already
/// (`AlreadyCompleted`), whatever else the page holds. Otherwise the puzzle
/// picture must be there, and its address, resolved against the site's
/// origin, must end like a JPEG file's; if not, the page is not understood
/// (`Parse`). The same holds where the elements could not be read at all.
pub open spec fn challenge_from(
    inputs: Option<Seq<(Option<Seq<char>>, Option<Seq<char>>)>>,
    regions: Option<Seq<Seq<Option<Seq<char>>>>>,
) -> Result<ChallengeView, ErrorKind> {
    match inputs {
        None => Err(ErrorKind::Parse),
        Some(inputs) => if options_of(inputs).len() == 0 {
            Err(ErrorKind::AlreadyCompleted)
        } else {
            match regions {
                None => Err(ErrorKind::Parse),
                Some(regions) => match image_src_of(regions) {
                    None => Err(ErrorKind::Parse),
                    Some(src) => if has_suffix(BASE@ + src, IMAGE_SUFFIX@) {
                        Ok(ChallengeView { image_url: BASE@ + src, options: options_of(inputs) })
                    } else {
                        Err(ErrorKind::Parse)
                    },
                },
            }
        },
    }
}

/// The puzzle that a page holds.
pub open spec fn challenge_of(html: Seq<char>) -> Result<ChallengeView, ErrorKind> {
    challenge_from(
        elements_of(html, OPTION_SELECTOR@, VALUE_ATTR@),
        nested_of(html, REGION_SELECTOR@, IMAGE_SELECTOR@, SRC_ATTR@),
    )
}

/// The result as the contracts see it.
pub open spec fn challenge_result_view(r: Result<Challenge, ErrorKind>) -> Result<ChallengeView, ErrorKind> {
    match r {
        Ok(c) => Ok(c@),
        Err(e) => Err(e),
    }
}

/// The inputs as the contracts see them.
pub open spec fn inputs_view(inputs: Option<Vec<Found>>) -> Option<Seq<(Option<Seq<char>>, Option<Seq<char>>)>> {
    match inputs {
        Some(found) => Some(found_views(found@)),
        None => None,
    }
}

/// The regions as the contracts see them.
pub open spec fn regions_view(regions: Option<Vec<Vec<Option<String>>>>) -> Option<Seq<Seq<Option<Seq<char>>>>> {
    match regions {
        Some(regions) => Some(region_views(regions@)),
        None => None,
    }
}

/// The options that the inputs of a page stand for, in the order of the
/// inputs. An input without a label after it, or without a value, is passed
/// over.
pub fn extract_options(inputs: &Vec<Found>) -> (r: Vec<Answer>)
    ensures
        answer_views(r@) == options_of(found_views(inputs@)),
{
    let ghost views = found_views(inputs@);
    let mut options: Vec<Answer> = Vec::new();
    let mut i: usize = 0;
    assert(views.take(0) =~= Seq::empty());
    assert(answer_views(options@) =~= Seq::empty());
    while i < inputs.len()
        invariant
            0 <= i <= inputs.len(),
            views == found_views(inputs@),
            answer_views(options@) == options_of(views.take(i as int)),
        decreases inputs.len() - i,
    {
        let ghost before = options@;
        proof {
            assert(views.take(i + 1).drop_last() == views.take(i as int));
            assert(views.take(i + 1).last() == inputs@[i as int]@);
        }
        match (&inputs[i].sibling_text, &inputs[i].attr) {
            (Some(label), Some(value)) => {
                let option = Answer::new(label.clone(), value.clone());
                options.push(option);
                assert(answer_views(options@) =~= answer_views(before).push(option@));
            },
            _ => {},
        }
        i = i + 1;
    }
    assert(views.take(i as int) == views);
    options
}

/// The address of the puzzle picture as the page gives it: that of the first
/// picture of the first region, if there is one and it has an address.
pub fn locate_image(regions: &Vec<Vec<Option<String>>>) -> (r: Option<String>)
    ensures
        opt_text(r) == image_src_of(region_views(regions@)),
{
    if regions.len() > 0 && regions[0].len() > 0 {
        assert(region_views(regions@)[0] == regions@[0]@.map_values(|s: Option<String>| opt_text(s)));
        assert(region_views(regions@)[0][0] == opt_text(regions@[0]@[0]));
        match &regions[0][0] {
            Some(src) => Some(src.clone()),
            None => None,
        }
    } else {
        None
    }
}

/// The puzzle that the elements read off a page make up; see
/// [`challenge_from`].
pub fn assemble_challenge(inputs: Option<Vec<Found>>, regions: Option<Vec<Vec<Option<String>>>>) -> (r: Result<Challenge, ErrorKind>)
    ensures
        challenge_result_view(r) == challenge_from(inputs_view(inputs), regions_view(regions)),
{
    let inputs = match inputs {
        Some(inputs) => inputs,
        None => {
            return Err(ErrorKind::Parse);
        },
    };
    let options = extract_options(&inputs);
    if options.len() == 0 {
        return Err(ErrorKind::AlreadyCompleted);
    }
    let regions = match regions {
        Some(regions) => regions,
        None => {
            return Err(ErrorKind::Parse);
        },
    };
    let src = match locate_image(&regions) {
        Some(src) => src,
        None => {
            return Err(ErrorKind::Parse);
        },
    };
    let mut image_url = String::from_str(BASE);
    image_url.append(src.as_str());
    if !str_ends_with(image_url.as_str(), IMAGE_SUFFIX) {
        return Err(ErrorKind::Parse);
    }
    Ok(Challenge { image_url, options })
}

/// The puzzle that the check-in page holds.
pub fn parse_challenge(html: &str) -> (r: Result<Challenge, ErrorKind>)
    ensures
        challenge_result_view(r) == challenge_of(html@),
{
    let inputs = select_elements(html, OPTION_SELECTOR, VALUE_ATTR);
    let regions = select_nested(html, REGION_SELECTOR, IMAGE_SELECTOR, SRC_ATTR);
    assemble_challenge(inputs, regions)
}

/// A page without options is told apart from one that is not understood:
/// whatever the rest of the page holds, the result is `AlreadyCompleted`.
pub proof fn lemma_no_options_is_already_completed(
    inputs: Seq<(Option<Seq<char>>, Option<Seq<char>>)>,
    regions: Option<Seq<Seq<Option<Seq<char>>>>>,
)
    requires
        options_of(inputs).len() == 0,
    ensures
        challenge_from(Some(inputs), regions) == Err::<ChallengeView, ErrorKind>(ErrorKind::AlreadyCompleted),
{
}

/// A page without inputs has no options.
pub proof fn lemma_no_inputs_no_options()
    ensures
        options_of(Seq::empty()).len() == 0,
{
}

} // verus!
