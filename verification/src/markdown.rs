//! From markup to Markdown.
//!
//! The conversion is the work of the `htmd` crate. This module tells it
//! which elements to drop and how to write the two parts of a definition
//! list, and cleans what it returns.
//!
//! `htmd` fails hard on some markup. Before it is called, the markup is
//! read by the parser that `htmd` itself reads with and written out again,
//! so that every text of the page and every value of an attribute stands
//! in one known form; markup whose written form is not [`plain`] is
//! refused with `ConversionFailed`.

use vstd::prelude::*;
use htmd::{Element, HtmlToMarkdown};
use html5ever::tendril::TendrilSink;
use html5ever::{parse_document, serialize, ParseOpts};
use markup5ever_rcdom::{RcDom, SerializableHandle};
use crate::error::{DocError, ErrorModel};
use crate::plain::{is_plain, plain};
use crate::text::{clean_markdown, normalize};

verus! {

/// The error of `std::io`, which `htmd` reports failures with.
#[verifier::external_type_specification]
#[verifier::external_body]
pub struct ExIoError(std::io::Error);

/// The markup as `html5ever` writes it after reading it as a whole page
/// into the tree of `markup5ever_rcdom`: each text with `&`, `<`, `>` and
/// the no-break space written as references, but the text of a script, a
/// style sheet and the like as it stands, and each attribute's value
/// between double quotes; `None` where reading or writing fails.
pub uninterp spec fn canonical(markup: Seq<char>) -> Option<Seq<char>>;

/// The Markdown that `htmd` makes of `markup` when the elements named in
/// `dropped` are left out with all they hold, those named in `terms` are
/// written by [`term_line`] and those named in `descriptions` by
/// [`description_line`]; `None` where `htmd` fails.
pub uninterp spec fn converted(
    markup: Seq<char>,
    dropped: Seq<Seq<char>>,
    terms: Seq<Seq<char>>,
    descriptions: Seq<Seq<char>>,
) -> Option<Seq<char>>;

/// The converter's outcome as the contracts read it: the Markdown, or
/// `None` for a failure.
pub open spec fn outcome_text(made: Result<String, std::io::Error>) -> Option<Seq<char>> {
    match made {
        Ok(markdown) => Some(markdown@),
        Err(_) => None,
    }
}

/// A definition's term: its text, a colon and a line break.
pub fn term_line(content: &str) -> (line: String)
    ensures
        line@ == content@ + seq![':', '\n'],
{
    let mut line = content.to_owned();
    line.push(':');
    line.push('\n');
    line
}

/// A definition's description: its text and a line break.
pub fn description_line(content: &str) -> (line: String)
    ensures
        line@ == content@.push('\n'),
{
    let mut line = content.to_owned();
    line.push('\n');
    line
}

/// Calls `html5ever::parse_document` with the tree of
/// `markup5ever_rcdom` and the default options, through `from_utf8` and
/// `read_from`, which is how `htmd` reads markup; then
/// `html5ever::serialize` on the document. The contract claims only that
/// the outcome depends on the markup alone, and gives it its name.
#[verifier::external_body]
pub(crate) fn canonical_markup(markup: &str) -> (made: Result<String, std::io::Error>)
    ensures
        outcome_text(made) == canonical(markup@),
{
    let parser = parse_document(RcDom::default(), ParseOpts::default());
    let dom = parser.from_utf8().read_from(&mut markup.as_bytes())?;
    let mut written = Vec::new();
    serialize(&mut written, &SerializableHandle::from(dom.document.clone()), Default::default())?;
    Ok(String::from_utf8_lossy(&written).into_owned())
}

/// Calls `htmd`: a converter is built with `HtmlToMarkdownBuilder`'s
/// `skip_tags` and `add_handler` and run with `HtmlToMarkdown::convert`.
/// The contract claims only that the outcome depends on the four arguments
/// alone, and gives it its name.
///
/// What is required is what keeps `htmd` from failing hard. It refuses an
/// empty list of tags. It cuts a text that begins like a numbered line at
/// a place that it finds by counting characters, which is wrong once a
/// numeral of more than one byte is among them; such a numeral is in the
/// page's text, or comes of a reference when `htmd` reads the text's
/// references once more. And it adds the place of a list's item to the
/// list's `start`, which overflows for a `start` near the largest number.
/// The written form of the markup holds every text that `htmd` will see
/// and every `start`, so a written form that is [`plain`] has none of
/// these. How deep elements may nest without exhausting the stack is not
/// bounded here.
#[verifier::external_body]
pub(crate) fn convert_markup(
    markup: &str,
    dropped: Vec<&str>,
    terms: Vec<&str>,
    descriptions: Vec<&str>,
) -> (made: Result<String, std::io::Error>)
    requires
        dropped.len() > 0,
        terms.len() > 0,
        descriptions.len() > 0,
        canonical(markup@) matches Some(written) && plain(written),
    ensures
        outcome_text(made) == converted(
            markup@,
            dropped.deep_view(),
            terms.deep_view(),
            descriptions.deep_view(),
        ),
{
    HtmlToMarkdown::builder()
        .skip_tags(dropped)
        .add_handler(terms, |element: Element| Some(term_line(element.content)))
        .add_handler(descriptions, |element: Element| Some(description_line(element.content)))
        .build()
        .convert(markup)
}

/// The elements that are left out of the Markdown with all they hold:
/// scripts, style sheets and buttons.
pub open spec fn dropped_tags() -> Seq<Seq<char>> {
    seq!["script"@, "style"@, "button"@]
}

/// The elements that hold a definition's term.
pub open spec fn term_tags() -> Seq<Seq<char>> {
    seq!["dt"@]
}

/// The elements that hold a definition's description.
pub open spec fn description_tags() -> Seq<Seq<char>> {
    seq!["dd"@]
}

/// The cause given where markup is refused before the converter sees it.
pub const REFUSED: &'static str =
    "the markup holds a numeral from outside ASCII, a reference to one, or ten digits in a row";

/// What the converter's outcome becomes: the Markdown is cleaned, and a
/// failure is `ConversionFailed`, whatever its cause.
pub open spec fn finished(outcome: Option<Seq<char>>, result: Result<String, DocError>) -> bool {
    match outcome {
        Some(markdown) => result matches Ok(text) && text@ == normalize(markdown),
        None => result matches Err(error) && error@ matches ErrorModel::ConversionFailed(_),
    }
}

/// What converting `markup` gives. Markup that cannot be written out is
/// `ConversionFailed`. Markup whose written form is not plain is
/// `ConversionFailed` with [`REFUSED`] for the cause, and the converter is
/// not called. Any other markup is converted with scripts, style sheets and
/// buttons dropped and the parts of a definition list written line by
/// line, and what the converter returns is [`finished`].
pub open spec fn converted_to(markup: Seq<char>, result: Result<String, DocError>) -> bool {
    match canonical(markup) {
        None => result matches Err(error) && error@ matches ErrorModel::ConversionFailed(_),
        Some(written) => if plain(written) {
            finished(converted(markup, dropped_tags(), term_tags(), description_tags()), result)
        } else {
            result matches Err(error) && error@ == ErrorModel::ConversionFailed(REFUSED@)
        },
    }
}

/// Cleans the Markdown that the converter made, or wraps its failure, with
/// the failure's own text, as `Display` writes it, for the cause.
pub fn finish_conversion(made: Result<String, std::io::Error>) -> (result: Result<String, DocError>)
    ensures
        finished(outcome_text(made), result),
        made matches Err(failure) ==> result matches Err(DocError::ConversionFailed(cause))
            && vstd::string::to_string_from_display_ensures::<std::io::Error>(&failure, cause),
{
    match made {
        Ok(markdown) => Ok(clean_markdown(markdown.as_str())),
        Err(error) => Err(DocError::ConversionFailed(error.to_string())),
    }
}

/// The markup `input` as clean Markdown.
pub fn html_to_md(input: &str) -> (result: Result<String, DocError>)
    ensures
        converted_to(input@, result),
{
    let written = match canonical_markup(input) {
        Ok(written) => written,
        Err(error) => {
            return Err(DocError::ConversionFailed(error.to_string()));
        },
    };
    if !is_plain(written.as_str()) {
        return Err(DocError::ConversionFailed(REFUSED.to_owned()));
    }
    let dropped = vec!["script", "style", "button"];
    let terms = vec!["dt"];
    let descriptions = vec!["dd"];
    proof {
        assert(dropped.deep_view() == dropped_tags());
        assert(terms.deep_view() == term_tags());
        assert(descriptions.deep_view() == description_tags());
    }
    finish_conversion(convert_markup(input, dropped, terms, descriptions))
}

} // verus!
