//! Finding out the kind of an item from the page of the module that lists
//! it: the title of the item's link ends in the item's name, and the class
//! of the link is the token of the item's kind.

use vstd::prelude::*;
use vstd::pervasive::unreached;
use crate::chars::chars_of;
use crate::error::{result_model, DocError, ErrorModel};
use crate::extract::{extract, extract_spec};
use crate::html::{select_entries, selected_entries, EntryModel, ListingEntry};
use crate::identifier::{IdentifierModel, ResourceIdentifier};
use crate::item_type::ItemType;
use crate::resolver::{module_url, resolve};

verus! {

/// The selector of the elements that a listing is scanned over: those that
/// have a title. Which of them name the item is decided afterwards, by
/// [`names_item`], and not by the selector.
pub const TITLED: &'static str = "[title]";

/// The attribute that holds an entry's title.
pub const TITLE: &'static str = "title";

/// The attribute that holds an entry's class.
pub const CLASS: &'static str = "class";

/// How the kind of an item is to be found out.
#[derive(PartialEq, Eq, Debug)]
pub enum InferencePlan {
    /// The kind is known without looking anything up.
    Known(ItemType),
    /// The kind is in the listing of the item's container, at this address.
    Listing(String),
}

/// The plan for `id`: a path of one segment is the library's root, a
/// module; for a longer path the page of its container is to be read.
pub open spec fn planned(id: IdentifierModel, plan: InferencePlan) -> bool {
    if id.segments.len() == 1 {
        plan == InferencePlan::Known(ItemType::Module)
    } else {
        plan matches InferencePlan::Listing(url) && url@ == module_url(id.container())
    }
}

/// How the kind of the item that `id` names is to be found out.
pub fn plan_inference(id: &ResourceIdentifier) -> (plan: InferencePlan)
    ensures
        planned(id@, plan),
{
    match id.container() {
        Some(container) => match resolve(&container, ItemType::Module) {
            Ok(url) => InferencePlan::Listing(url),
            // A module always has an address.
            Err(_) => unreached(),
        },
        None => InferencePlan::Known(ItemType::Module),
    }
}

/// Whether `title` ends in a space followed by `name`, character for
/// character.
pub open spec fn names_item(title: Seq<char>, name: Seq<char>) -> bool {
    &&& title.len() > name.len()
    &&& title[title.len() - name.len() - 1] == ' '
    &&& title.skip(title.len() - name.len()) == name
}

/// The kind that an entry gives for the item `name`: the entry's title
/// names the item and its class is the token of a kind.
pub open spec fn entry_kind(entry: EntryModel, name: Seq<char>) -> Option<ItemType> {
    match (entry.title, entry.class) {
        (Some(title), Some(class)) => if names_item(title, name) {
            match ItemType::parse_spec(class) {
                Ok(kind) => Some(kind),
                Err(_) => None,
            }
        } else {
            None
        },
        _ => None,
    }
}

/// The kind that the first entry to give one gives, or `ResourceNotFound`
/// where no entry gives one.
pub open spec fn scan_spec(entries: Seq<EntryModel>, name: Seq<char>) -> Result<
    ItemType,
    ErrorModel,
>
    decreases entries.len(),
{
    if entries.len() == 0 {
        Err(ErrorModel::ResourceNotFound)
    } else {
        match entry_kind(entries.first(), name) {
            Some(kind) => Ok(kind),
            None => scan_spec(entries.drop_first(), name),
        }
    }
}

/// The kind of the item `name` as the page `html` of its container lists
/// it: the documentation region is taken out of the page, its titled
/// elements are found, and they are scanned in order.
pub open spec fn infer_spec(html: Seq<char>, name: Seq<char>) -> Result<ItemType, ErrorModel> {
    match extract_spec(html) {
        Ok(region) => match selected_entries(region, TITLED@, TITLE@, CLASS@) {
            Some(entries) => scan_spec(entries, name),
            None => Err(ErrorModel::ResourceNotFound),
        },
        Err(error) => Err(error),
    }
}

/// Whether `title` ends in a space followed by `name`.
pub fn ends_with_name(title: &[char], name: &[char]) -> (ends: bool)
    ensures
        ends == names_item(title@, name@),
{
    let n = name.len();
    if title.len() <= n {
        return false;
    }
    let offset = title.len() - n;
    if title[offset - 1] != ' ' {
        return false;
    }
    let ghost tail = title@.skip(offset as int);
    let mut i: usize = 0;
    while i < n
        invariant
            i <= n,
            n == name.len(),
            offset + n == title.len(),
            tail == title@.skip(offset as int),
            tail.take(i as int) == name@.take(i as int),
        decreases n - i,
    {
        if title[offset + i] != name[i] {
            assert(tail[i as int] != name@[i as int]);
            return false;
        }
        assert(tail.take(i + 1) == tail.take(i as int).push(tail[i as int]));
        assert(name@.take(i + 1) == name@.take(i as int).push(name@[i as int]));
        i += 1;
    }
    assert(tail.take(n as int) == tail);
    assert(name@.take(n as int) == name@);
    true
}

/// The kind that `entry` gives for the item `name`.
pub fn kind_of_entry(entry: &ListingEntry, name: &[char]) -> (kind: Option<ItemType>)
    ensures
        kind == entry_kind(entry@, name@),
{
    match (&entry.title, &entry.class) {
        (Some(title), Some(class)) => {
            let title = chars_of(title.as_str());
            if ends_with_name(&title, name) {
                match ItemType::parse(class.as_str()) {
                    Ok(kind) => Some(kind),
                    Err(_) => None,
                }
            } else {
                None
            }
        },
        _ => None,
    }
}

/// The kind of the item `name` by the entries of a listing, taken in order.
pub fn scan_listing(entries: &Vec<ListingEntry>, name: &str) -> (kind: Result<ItemType, DocError>)
    ensures
        result_model(kind) == scan_spec(entries.deep_view(), name@),
{
    let wanted = chars_of(name);
    let ghost all = entries.deep_view();
    let mut i: usize = 0;
    assert(all.skip(0) == all);
    while i < entries.len()
        invariant
            i <= entries.len(),
            all == entries.deep_view(),
            wanted@ == name@,
            scan_spec(all, name@) == scan_spec(all.skip(i as int), name@),
        decreases entries.len() - i,
    {
        proof {
            assert(all.skip(i as int).first() == entries[i as int]@);
            assert(all.skip(i as int).drop_first() == all.skip(i + 1));
        }
        match kind_of_entry(&entries[i], &wanted) {
            Some(kind) => {
                return Ok(kind);
            },
            None => {},
        }
        i += 1;
    }
    Err(DocError::ResourceNotFound)
}

/// The kind of the item `name` as the page `html` of its container lists it.
pub fn infer_from_listing(html: &str, name: &str) -> (kind: Result<ItemType, DocError>)
    ensures
        result_model(kind) == infer_spec(html@, name@),
{
    match extract(html) {
        Ok(region) => match select_entries(region.as_str(), TITLED, TITLE, CLASS) {
            Some(entries) => scan_listing(&entries, name),
            None => Err(DocError::ResourceNotFound),
        },
        Err(error) => Err(error),
    }
}

/// A title names an item exactly where it is some text, a space and the
/// item's name.
pub proof fn lemma_names_item_iff(title: Seq<char>, name: Seq<char>)
    ensures
        names_item(title, name) <==> exists|before: Seq<char>| title == before + seq![' '] + name,
{
    if names_item(title, name) {
        let before = title.take(title.len() - name.len() - 1);
        assert(title == before + seq![' '] + name);
    }
    if exists|before: Seq<char>| title == before + seq![' '] + name {
        let before = choose|before: Seq<char>| title == before + seq![' '] + name;
        assert(title.skip(title.len() - name.len()) == name);
        assert(title[title.len() - name.len() - 1] == ' ');
    }
}

/// Where some entry gives a kind and none before it does, the scan gives
/// that entry's kind: of two entries that both name the item, the first in
/// the order of the listing decides.
pub proof fn lemma_scan_takes_first(entries: Seq<EntryModel>, name: Seq<char>, i: int)
    requires
        0 <= i < entries.len(),
        entry_kind(entries[i], name) is Some,
        forall|j: int| 0 <= j < i ==> entry_kind(entries[j], name) is None,
    ensures
        scan_spec(entries, name) == Ok::<ItemType, ErrorModel>(entry_kind(entries[i], name)->0),
    decreases i,
{
    if i > 0 {
        let rest = entries.drop_first();
        assert forall|j: int| 0 <= j < i - 1 implies entry_kind(rest[j], name) is None by {
            assert(rest[j] == entries[j + 1]);
        }
        lemma_scan_takes_first(rest, name, i - 1);
    }
}

/// The scan fails exactly where no entry gives a kind, and then with
/// `ResourceNotFound`.
pub proof fn lemma_scan_fails_iff(entries: Seq<EntryModel>, name: Seq<char>)
    ensures
        scan_spec(entries, name) is Err <==> forall|i: int|
            0 <= i < entries.len() ==> entry_kind(entries[i], name) is None,
        scan_spec(entries, name) is Err ==> scan_spec(entries, name) == Err::<
            ItemType,
            ErrorModel,
        >(ErrorModel::ResourceNotFound),
    decreases entries.len(),
{
    if entries.len() > 0 {
        let rest = entries.drop_first();
        lemma_scan_fails_iff(rest, name);
        if entry_kind(entries.first(), name) is None {
            if scan_spec(rest, name) is Err {
                assert forall|i: int| 0 <= i < entries.len() implies entry_kind(
                    entries[i],
                    name,
                ) is None by {
                    if i > 0 {
                        assert(rest[i - 1] == entries[i]);
                    }
                }
            } else {
                let j = choose|j: int| 0 <= j < rest.len() && !(entry_kind(rest[j], name) is None);
                assert(rest[j] == entries[j + 1]);
            }
        }
    }
}

} // verus!
