//! From an identifier and a kind to the address of the documentation page.

use vstd::prelude::*;
use vstd::string::StringExecFns;
use crate::chars::{append_joined, join};
use crate::error::{text_result, DocError, ErrorModel};
use crate::identifier::{IdentifierModel, ResourceIdentifier};
use crate::item_type::ItemType;

verus! {

/// The version written into an address: the one given, or `latest`.
pub open spec fn version_text(version: Option<Seq<char>>) -> Seq<char> {
    match version {
        Some(text) => text,
        None => "latest"@,
    }
}

/// The address of a module's page: the host, the library, the version, the
/// whole path with `/` between its segments, and `index.html`.
pub open spec fn module_url(id: IdentifierModel) -> Seq<char> {
    "https://docs.rs/"@ + id.segments.first() + "/"@ + version_text(id.version) + "/"@ + join(
        id.segments,
        "/"@,
    ) + "/index.html"@
}

/// The address of the page of an item that is no module: the host, the
/// library, the version, the path of the container with `/` between its
/// segments, and a file named by the kind's token and the item's name.
pub open spec fn item_url(id: IdentifierModel, kind: ItemType) -> Seq<char> {
    "https://docs.rs/"@ + id.segments.first() + "/"@ + version_text(id.version) + "/"@ + join(
        id.segments.drop_last(),
        "/"@,
    ) + "/"@ + kind.token() + "."@ + id.segments.last() + ".html"@
}

/// The address of the page of `id` taken as a `kind`. A module needs no
/// container; any other kind needs one, and there is none where the path
/// has a single segment. The kind stored in `id` plays no part.
pub open spec fn resolve_spec(id: IdentifierModel, kind: ItemType) -> Result<
    Seq<char>,
    ErrorModel,
> {
    if kind == ItemType::Module {
        Ok(module_url(id))
    } else if id.segments.len() < 2 {
        Err(ErrorModel::InvalidIdentifier)
    } else {
        Ok(item_url(id, kind))
    }
}

/// The address of the page of `id` taken as a `kind`.
pub fn resolve(id: &ResourceIdentifier, kind: ItemType) -> (url: Result<String, DocError>)
    ensures
        text_result(url) == resolve_spec(id@, kind),
{
    let segments = id.segments();
    let count = segments.len();
    let is_module = kind == ItemType::Module;
    if !is_module && count < 2 {
        return Err(DocError::InvalidIdentifier);
    }
    let version = match id.version() {
        Some(text) => text,
        None => "latest",
    };
    let mut url = String::new();
    url.append("https://docs.rs/");
    url.append(id.library());
    url.append("/");
    url.append(version);
    url.append("/");
    if is_module {
        append_joined(&mut url, segments, count, "/");
        url.append("/index.html");
        proof {
            assert(segments.deep_view().take(count as int) == id@.segments);
            assert(url@ == module_url(id@));
        }
    } else {
        append_joined(&mut url, segments, count - 1, "/");
        url.append("/");
        url.append(kind.as_str());
        url.append(".");
        url.append(id.name());
        url.append(".html");
        proof {
            assert(segments.deep_view().take(count - 1) == id@.segments.drop_last());
            assert(url@ == item_url(id@, kind));
        }
    }
    Ok(url)
}

/// A path of one segment resolves as a module and as nothing else.
pub proof fn lemma_single_segment_is_module_only(id: IdentifierModel, kind: ItemType)
    requires
        id.segments.len() == 1,
        kind != ItemType::Module,
    ensures
        resolve_spec(id, kind) == Err::<Seq<char>, ErrorModel>(ErrorModel::InvalidIdentifier),
{
}

/// Resolution fails on exactly one ground: a kind other than module asked
/// of a path without container.
pub proof fn lemma_resolve_fails_iff(id: IdentifierModel, kind: ItemType)
    ensures
        resolve_spec(id, kind) is Err <==> kind != ItemType::Module && id.segments.len() < 2,
        resolve_spec(id, kind) is Err ==> resolve_spec(id, kind) == Err::<Seq<char>, ErrorModel>(
            ErrorModel::InvalidIdentifier,
        ),
{
}

} // verus!
