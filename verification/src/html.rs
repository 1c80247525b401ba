//! Reading markup: the elements that a selector finds in a page.
//!
//! Parsing and matching are the work of the `scraper` crate. The functions
//! here hand it text and take text back; what it answers is not proved, only
//! named, and the rest of the library reasons from those names.

use vstd::prelude::*;
use scraper::{Html, Selector};

verus! {

/// The two attributes of one element that a listing is read by.
#[derive(PartialEq, Eq, Debug)]
pub struct ListingEntry {
    /// The element's title, where it has one: for an item's link, a text
    /// that ends in a space and the item's name.
    pub title: Option<String>,
    /// The element's class, where it has one: for an item's link, the token
    /// of the item's kind.
    pub class: Option<String>,
}

/// What a [`ListingEntry`] holds, as sequences of characters.
pub ghost struct EntryModel {
    pub title: Option<Seq<char>>,
    pub class: Option<Seq<char>>,
}

impl View for ListingEntry {
    type V = EntryModel;

    open spec fn view(&self) -> EntryModel {
        EntryModel { title: self.title.deep_view(), class: self.class.deep_view() }
    }
}

impl DeepView for ListingEntry {
    type V = EntryModel;

    open spec fn deep_view(&self) -> EntryModel {
        self@
    }
}

/// The inner markup of each element of `document` that `selector` matches,
/// in the order in which `scraper` finds them, when `document` is parsed as
/// a whole page; `None` where `scraper` refuses `selector`.
pub uninterp spec fn selected_inner_html(document: Seq<char>, selector: Seq<char>) -> Option<
    Seq<Seq<char>>,
>;

/// For each element of `fragment` that `selector` matches, in the order in
/// which `scraper` finds them on its walk through the tree, the values of
/// its attributes `title` and `class`, when `fragment` is parsed as a piece
/// of a page's body; `None` where `scraper` refuses `selector`.
pub uninterp spec fn selected_entries(
    fragment: Seq<char>,
    selector: Seq<char>,
    title: Seq<char>,
    class: Seq<char>,
) -> Option<Seq<EntryModel>>;

/// Calls `scraper`: `Selector::parse` on `selector`, `Html::parse_document`
/// on `document`, `Html::select`, and `ElementRef::inner_html` on each
/// element found. The contract claims only that the answer depends on the
/// two texts alone, and gives it its name.
#[verifier::external_body]
pub(crate) fn select_inner_html(document: &str, selector: &str) -> (found: Option<Vec<String>>)
    ensures
        found.deep_view() == selected_inner_html(document@, selector@),
{
    let selector = Selector::parse(selector).ok()?;
    let document = Html::parse_document(document);
    let mut found = Vec::new();
    for element in document.select(&selector) {
        found.push(element.inner_html());
    }
    Some(found)
}

/// Calls `scraper`: `Selector::parse` on `selector`, `Html::parse_fragment`
/// on `fragment`, `Html::root_element`, `ElementRef::select`, which walks
/// the tree in document order, and `ElementRef::attr` twice on each element
/// found. The contract claims only that the answer depends on the four
/// texts alone, and gives it its name.
#[verifier::external_body]
pub(crate) fn select_entries(fragment: &str, selector: &str, title: &str, class: &str) -> (found:
    Option<Vec<ListingEntry>>)
    ensures
        found.deep_view() == selected_entries(fragment@, selector@, title@, class@),
{
    let selector = Selector::parse(selector).ok()?;
    let fragment = Html::parse_fragment(fragment);
    let mut found = Vec::new();
    for element in fragment.root_element().select(&selector) {
        found.push(
            ListingEntry {
                title: element.attr(title).map(str::to_owned),
                class: element.attr(class).map(str::to_owned),
            },
        );
    }
    Some(found)
}

} // verus!
