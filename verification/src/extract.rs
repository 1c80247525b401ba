//! Finding the documentation in a page: the one region that holds it.

use vstd::prelude::*;
use crate::error::{text_result, DocError, ErrorModel};
use crate::html::{select_inner_html, selected_inner_html};

verus! {

/// The selector of the region that holds a page's documentation.
pub const MAIN_CONTENT: &'static str = "#main-content";

/// The one region among those found; `ContentNotFound` where none was
/// found, where more than one was, and where the search itself was refused.
/// The first of several is not taken for the one.
pub open spec fn sole_region_spec(found: Option<Seq<Seq<char>>>) -> Result<Seq<char>, ErrorModel> {
    match found {
        Some(regions) => if regions.len() == 1 {
            Ok(regions[0])
        } else {
            Err(ErrorModel::ContentNotFound)
        },
        None => Err(ErrorModel::ContentNotFound),
    }
}

/// The inner markup of the documentation region of the page `html`.
pub open spec fn extract_spec(html: Seq<char>) -> Result<Seq<char>, ErrorModel> {
    sole_region_spec(selected_inner_html(html, MAIN_CONTENT@))
}

/// The one region among those found, or `ContentNotFound`.
pub fn sole_region(found: Option<Vec<String>>) -> (region: Result<String, DocError>)
    ensures
        text_result(region) == sole_region_spec(found.deep_view()),
{
    match found {
        Some(mut regions) => {
            if regions.len() == 1 {
                let ghost texts = regions.deep_view();
                let region = regions.pop();
                match region {
                    Some(region) => {
                        assert(region@ == texts[0]);
                        Ok(region)
                    },
                    None => Err(DocError::ContentNotFound),
                }
            } else {
                Err(DocError::ContentNotFound)
            }
        },
        None => Err(DocError::ContentNotFound),
    }
}

/// The inner markup of the documentation region of the page `html`, or
/// `ContentNotFound` where the page does not hold exactly one such region.
pub fn extract(html: &str) -> (region: Result<String, DocError>)
    ensures
        text_result(region) == extract_spec(html@),
{
    sole_region(select_inner_html(html, MAIN_CONTENT))
}

/// Extraction succeeds on exactly one ground: one region was found. With
/// none and with two or more it fails with `ContentNotFound`.
pub proof fn lemma_sole_region_iff(found: Option<Seq<Seq<char>>>)
    ensures
        sole_region_spec(found) is Ok <==> found is Some && found->0.len() == 1,
        sole_region_spec(found) is Err ==> sole_region_spec(found) == Err::<
            Seq<char>,
            ErrorModel,
        >(ErrorModel::ContentNotFound),
        sole_region_spec(found) is Ok ==> sole_region_spec(found) == Ok::<Seq<char>, ErrorModel>(
            found->0[0],
        ),
{
}

} // verus!
