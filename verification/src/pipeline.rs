//! One resolution, step by step.
//!
//! Fetching a page is not the library's work. The library decides what to
//! fetch and what to make of the answer; the caller performs each fetch and
//! hands the reply back:
//!
//! 1. [`begin`] with an identifier gives the first step;
//! 2. a step is either an address to fetch, or the end with its result;
//! 3. [`advance`] with the reply to a fetch gives the next step.
//!
//! A resolution fetches one page where the kind is known or the path is the
//! library's root, and two where the kind is found out from the listing of
//! the item's container: the second address depends on the first answer.

use vstd::prelude::*;
use crate::error::{DocError, ErrorModel};
use crate::fetch::{page_of, page_spec, Reply, ReplyModel};
use crate::identifier::{IdentifierModel, ResourceIdentifier};
use crate::infer::{infer_from_listing, infer_spec, plan_inference, InferencePlan};
use crate::item_type::ItemType;
use crate::resolver::{module_url, resolve, resolve_spec};
use crate::text::{process_html_content, processed};

verus! {

/// What the page being fetched is for.
#[derive(Copy, Clone, PartialEq, Eq, Structural, Debug)]
pub enum Stage {
    /// The page of the container, to find out the item's kind.
    Listing,
    /// The page of the item itself.
    Page,
}

/// A resolution that waits for the reply to a fetch.
#[derive(Debug)]
pub struct Pending {
    id: ResourceIdentifier,
    stage: Stage,
}

/// What a [`Pending`] holds.
pub ghost struct PendingModel {
    pub id: IdentifierModel,
    pub stage: Stage,
}

impl View for Pending {
    type V = PendingModel;

    closed spec fn view(&self) -> PendingModel {
        PendingModel { id: self.id@, stage: self.stage }
    }
}

/// What to do next.
#[derive(Debug)]
pub enum Step {
    /// Fetch `url` and call [`advance`] with `pending` and the reply.
    Fetch { url: String, pending: Pending },
    /// The resolution is over: the Markdown, or the failure that ended it.
    Done(Result<String, DocError>),
}

/// The step asks for `url`, on behalf of `id` at `stage`.
pub open spec fn fetches(step: Step, url: Seq<char>, id: IdentifierModel, stage: Stage) -> bool {
    step matches Step::Fetch { url: asked, pending } && asked@ == url && pending@ == (PendingModel {
        id,
        stage,
    })
}

/// The step ends the resolution with `error`.
pub open spec fn fails(step: Step, error: ErrorModel) -> bool {
    step matches Step::Done(Err(e)) && e@ == error
}

/// The step on which the resolution of `id` begins. With a kind, the item's
/// page is fetched at once. Without one, a path of one segment is the
/// library's root, a module; a longer path has its container's page
/// fetched first, for the listing.
pub open spec fn begun(id: IdentifierModel, step: Step) -> bool {
    match id.kind {
        Some(kind) => match resolve_spec(id, kind) {
            Ok(url) => fetches(step, url, id, Stage::Page),
            Err(error) => fails(step, error),
        },
        None => if id.segments.len() == 1 {
            fetches(step, module_url(id), id, Stage::Page)
        } else {
            fetches(step, module_url(id.container()), id, Stage::Listing)
        },
    }
}

/// The step that follows `reply`. A fetch that failed ends the resolution
/// with `TransportError`, a status that reports no success with
/// `HttpStatus`. A listing gives the kind and with it the item's address,
/// or its failure ends the resolution. The item's page is processed, and
/// that ends the resolution either way.
pub open spec fn advanced(pending: PendingModel, reply: ReplyModel, step: Step) -> bool {
    match page_spec(reply) {
        Err(error) => fails(step, error),
        Ok(page) => match pending.stage {
            Stage::Listing => match infer_spec(page, pending.id.segments.last()) {
                Ok(kind) => match resolve_spec(pending.id, kind) {
                    Ok(url) => fetches(step, url, pending.id, Stage::Page),
                    Err(error) => fails(step, error),
                },
                Err(error) => fails(step, error),
            },
            Stage::Page => step matches Step::Done(result) && processed(page, result),
        },
    }
}

impl Pending {
    /// The identifier being resolved.
    pub fn identifier(&self) -> (id: &ResourceIdentifier)
        ensures
            id@ == self@.id,
    {
        &self.id
    }

    /// What the page being fetched is for.
    pub fn stage(&self) -> (stage: Stage)
        ensures
            stage == self@.stage,
    {
        self.stage
    }
}

/// The step that fetches the page of `id` as a `kind`.
fn fetch_page(id: ResourceIdentifier, kind: ItemType) -> (step: Step)
    ensures
        match resolve_spec(id@, kind) {
            Ok(url) => fetches(step, url, id@, Stage::Page),
            Err(error) => fails(step, error),
        },
{
    match resolve(&id, kind) {
        Ok(url) => Step::Fetch { url, pending: Pending { id, stage: Stage::Page } },
        Err(error) => Step::Done(Err(error)),
    }
}

/// Begins the resolution of `id`.
pub fn begin(id: ResourceIdentifier) -> (step: Step)
    ensures
        begun(id@, step),
        step is Fetch,
{
    match id.kind() {
        Some(kind) => fetch_page(id, kind),
        None => match plan_inference(&id) {
            InferencePlan::Known(kind) => fetch_page(id, kind),
            InferencePlan::Listing(url) => Step::Fetch {
                url,
                pending: Pending { id, stage: Stage::Listing },
            },
        },
    }
}

/// Takes the reply to the fetch that `pending` waits for, and gives the
/// next step.
pub fn advance(pending: Pending, reply: Reply) -> (step: Step)
    ensures
        advanced(pending@, reply@, step),
{
    match page_of(reply) {
        Err(error) => Step::Done(Err(error)),
        Ok(page) => match pending.stage {
            Stage::Listing => match infer_from_listing(page.as_str(), pending.id.name()) {
                Ok(kind) => fetch_page(pending.id, kind),
                Err(error) => Step::Done(Err(error)),
            },
            Stage::Page => Step::Done(process_html_content(page.as_str())),
        },
    }
}

/// A resolution fetches at most two pages: the step after a listing is the
/// item's page or the end, and the step after the item's page is the end.
pub proof fn lemma_two_fetches_at_most(pending: PendingModel, reply: ReplyModel, step: Step)
    requires
        advanced(pending, reply, step),
    ensures
        pending.stage == Stage::Page ==> step is Done,
        step matches Step::Fetch { pending: next, .. } ==> pending.stage == Stage::Listing
            && next@.stage == Stage::Page && next@.id == pending.id,
{
}

/// A resolution ends with text only after the item's page was fetched and
/// processed whole: no text comes of a listing or of a reply without page.
pub proof fn lemma_text_comes_of_the_page(pending: PendingModel, reply: ReplyModel, step: Step)
    requires
        advanced(pending, reply, step),
        step matches Step::Done(Ok(_)),
    ensures
        pending.stage == Stage::Page,
        page_spec(reply) is Ok,
        step matches Step::Done(result) && processed(page_spec(reply)->Ok_0, result),
{
}

/// A reply that brought no page ends the resolution, whatever the stage,
/// with the error that the reply amounts to: the status of a response that
/// reports no success, the transport's account where no answer came.
pub proof fn lemma_failed_fetch_ends(pending: PendingModel, reply: ReplyModel, step: Step)
    requires
        advanced(pending, reply, step),
        page_spec(reply) is Err,
    ensures
        fails(step, page_spec(reply)->Err_0),
{
}

} // verus!
