//! Resource identifiers: the path of an item, split into its segments, with
//! the kind and the version that the caller may have given.

use vstd::prelude::*;
use crate::chars::{chars_of, string_of_range, join};
use crate::error::DocError;
use crate::item_type::ItemType;

verus! {

/// Whether the separator `::` begins at position `i` of `s`.
pub open spec fn is_separator(s: Seq<char>, i: int) -> bool {
    0 <= i && i + 1 < s.len() && s[i] == ':' && s[i + 1] == ':'
}

/// The least position at or after `from` where a separator begins, or the
/// length of `s` where there is none.
pub open spec fn next_separator(s: Seq<char>, from: int) -> int
    decreases s.len() - from,
{
    if from + 1 >= s.len() {
        s.len() as int
    } else if s[from] == ':' && s[from + 1] == ':' {
        from
    } else {
        next_separator(s, from + 1)
    }
}

/// The segments of a path: the text between separators, read from the left.
/// A separator is used once, so `a:::b` is `a` and `:b`; a path without
/// separator is one segment, and so is the empty path.
pub open spec fn split_spec(s: Seq<char>) -> Seq<Seq<char>>
    decreases s.len(),
{
    let i = next_separator(s, 0);
    if 0 <= i && i + 2 <= s.len() {
        seq![s.take(i)] + split_spec(s.skip(i + 2))
    } else {
        seq![s]
    }
}

/// `next_separator` finds the first separator that begins at or after `from`.
pub proof fn lemma_next_separator(s: Seq<char>, from: int)
    requires
        0 <= from,
    ensures
        from <= next_separator(s, from) || next_separator(s, from) == s.len(),
        next_separator(s, from) <= s.len(),
        next_separator(s, from) < s.len() ==> is_separator(s, next_separator(s, from)),
        forall|j: int| from <= j < next_separator(s, from) ==> !is_separator(s, j),
    decreases s.len() - from,
{
    if from + 1 >= s.len() {
    } else if s[from] == ':' && s[from + 1] == ':' {
    } else {
        lemma_next_separator(s, from + 1);
    }
}

/// A path has at least one segment.
pub proof fn lemma_split_nonempty(s: Seq<char>)
    ensures
        split_spec(s).len() >= 1,
    decreases s.len(),
{
    let i = next_separator(s, 0);
    if 0 <= i && i + 2 <= s.len() {
        lemma_split_nonempty(s.skip(i + 2));
    }
}

/// Joining the first part to the others puts the separator after it.
proof fn lemma_join_first(first: Seq<char>, rest: Seq<Seq<char>>, sep: Seq<char>)
    requires
        rest.len() >= 1,
    ensures
        join(seq![first] + rest, sep) == first + sep + join(rest, sep),
    decreases rest.len(),
{
    let all = seq![first] + rest;
    if rest.len() == 1 {
        assert(all.drop_last() == seq![first]);
        assert(join(seq![first], sep) == first);
    } else {
        assert(all.drop_last() == seq![first] + rest.drop_last());
        lemma_join_first(first, rest.drop_last(), sep);
        assert(join(all, sep) == (first + sep + join(rest.drop_last(), sep)) + sep + rest.last());
        assert(join(all, sep) == first + sep + (join(rest.drop_last(), sep) + sep + rest.last()));
    }
}

/// Splitting loses nothing: the segments joined by `::` are the path.
pub proof fn lemma_join_split(s: Seq<char>)
    ensures
        join(split_spec(s), seq![':', ':']) == s,
    decreases s.len(),
{
    let sep = seq![':', ':'];
    let i = next_separator(s, 0);
    if 0 <= i && i + 2 <= s.len() {
        let rest = s.skip(i + 2);
        lemma_next_separator(s, 0);
        lemma_join_split(rest);
        lemma_split_nonempty(rest);
        lemma_join_first(s.take(i), split_spec(rest), sep);
        assert(s.take(i) + sep + rest == s);
    } else {
        assert(join(seq![s], sep) == s);
    }
}

/// No segment of a path holds a separator.
pub proof fn lemma_segments_hold_no_separator(s: Seq<char>, k: int)
    requires
        0 <= k < split_spec(s).len(),
    ensures
        forall|j: int| !is_separator(split_spec(s)[k], j),
    decreases s.len(),
{
    let i = next_separator(s, 0);
    lemma_next_separator(s, 0);
    if 0 <= i && i + 2 <= s.len() {
        if k == 0 {
            assert(split_spec(s)[0] == s.take(i));
            assert forall|j: int| !is_separator(s.take(i), j) by {
                if is_separator(s.take(i), j) {
                    assert(is_separator(s, j));
                }
            }
        } else {
            lemma_segments_hold_no_separator(s.skip(i + 2), k - 1);
            assert(split_spec(s)[k] == split_spec(s.skip(i + 2))[k - 1]);
        }
    } else {
        assert(split_spec(s)[0] == s);
        assert forall|j: int| !is_separator(s, j) by {
            if is_separator(s, j) {
                assert(0 <= j < i);
            }
        }
    }
}

/// The segments of `resource`.
pub fn split_path(resource: &str) -> (segments: Vec<String>)
    ensures
        segments.deep_view() == split_spec(resource@),
        segments.len() >= 1,
{
    let text = chars_of(resource);
    let n = text.len();
    let mut segments: Vec<String> = Vec::new();
    let mut start: usize = 0;
    let mut i: usize = 0;
    assert(text@.skip(0) == text@);
    assert(segments.deep_view() == Seq::<Seq<char>>::empty());
    while i < n
        invariant
            start <= i <= n,
            n == text.len(),
            text@ == resource@,
            split_spec(text@) == segments.deep_view() + split_spec(text@.skip(start as int)),
            next_separator(text@.skip(start as int), 0) == next_separator(
                text@.skip(start as int),
                i - start,
            ),
        decreases n - i,
    {
        let ghost tail = text@.skip(start as int);
        if i + 1 < n && text[i] == ':' && text[i + 1] == ':' {
            let segment = string_of_range(&text, start, i);
            proof {
                assert(next_separator(tail, i - start) == i - start);
                assert(tail.take(i - start) == text@.subrange(start as int, i as int));
                assert(tail.skip(i - start + 2) == text@.skip(i + 2));
                assert(split_spec(tail) == seq![segment@] + split_spec(text@.skip(i + 2)));
                assert(segments.deep_view().push(segment@) == segments.deep_view() + seq![
                    segment@,
                ]);
            }
            let ghost before = segments.deep_view();
            segments.push(segment);
            assert(segments.deep_view() == before.push(segment@));
            i += 2;
            start = i;
        } else {
            i += 1;
        }
    }
    let last = string_of_range(&text, start, n);
    proof {
        let tail = text@.skip(start as int);
        assert(next_separator(tail, n - start) == tail.len());
        assert(split_spec(tail) == seq![tail]);
        assert(last@ == tail);
        assert(segments.deep_view().push(last@) == segments.deep_view() + seq![last@]);
    }
    let ghost before = segments.deep_view();
    segments.push(last);
    assert(segments.deep_view() == before.push(last@));
    segments
}

/// What an identifier says: the segments of the path, the library's name
/// first; the kind, where the caller gave one; the version, where the caller
/// gave one. An absent version stays absent: no default is stored.
pub ghost struct IdentifierModel {
    pub segments: Seq<Seq<char>>,
    pub kind: Option<ItemType>,
    pub version: Option<Seq<char>>,
}

impl IdentifierModel {
    /// The path has a segment, and a kind other than module has a container
    /// to be found in: the library's segment and one more.
    pub open spec fn well_formed(self) -> bool {
        &&& self.segments.len() >= 1
        &&& (self.kind matches Some(kind) && kind != ItemType::Module ==> self.segments.len() >= 2)
    }

    /// The identifier of the module that lists the item: the path without
    /// its final segment, as a module, at the same version.
    pub open spec fn container(self) -> IdentifierModel {
        IdentifierModel {
            segments: self.segments.drop_last(),
            kind: Some(ItemType::Module),
            version: self.version,
        }
    }
}

/// The path of a documented item, with the kind and version asked for.
#[derive(PartialEq, Eq, Debug)]
pub struct ResourceIdentifier {
    segments: Vec<String>,
    kind: Option<ItemType>,
    version: Option<String>,
}

impl View for ResourceIdentifier {
    type V = IdentifierModel;

    closed spec fn view(&self) -> IdentifierModel {
        IdentifierModel {
            segments: self.segments.deep_view(),
            kind: self.kind,
            version: self.version.deep_view(),
        }
    }
}

impl ResourceIdentifier {
    #[verifier::type_invariant]
    spec fn well_formed(&self) -> bool {
        self@.well_formed()
    }

    /// The identifier with these segments, or `InvalidIdentifier` where they
    /// are none or too few for the kind.
    pub fn from_segments(
        segments: Vec<String>,
        kind: Option<ItemType>,
        version: Option<String>,
    ) -> (made: Result<ResourceIdentifier, DocError>)
        ensures
            ({
                let model = IdentifierModel {
                    segments: segments.deep_view(),
                    kind,
                    version: version.deep_view(),
                };
                match made {
                    Ok(id) => model.well_formed() && id@ == model,
                    Err(e) => !model.well_formed() && e == DocError::InvalidIdentifier,
                }
            }),
    {
        let needs_container = match kind {
            Some(kind) => kind != ItemType::Module,
            None => false,
        };
        if segments.len() == 0 || (needs_container && segments.len() < 2) {
            Err(DocError::InvalidIdentifier)
        } else {
            Ok(ResourceIdentifier { segments, kind, version })
        }
    }

    /// The identifier that `resource` names, split at each `::`, or
    /// `InvalidIdentifier` where a kind other than module is asked of a path
    /// of one segment.
    pub fn new(resource: &str, kind: Option<ItemType>, version: Option<&str>) -> (made: Result<
        ResourceIdentifier,
        DocError,
    >)
        ensures
            ({
                let model = IdentifierModel {
                    segments: split_spec(resource@),
                    kind,
                    version: version.deep_view(),
                };
                match made {
                    Ok(id) => model.well_formed() && id@ == model,
                    Err(e) => !model.well_formed() && e == DocError::InvalidIdentifier,
                }
            }),
    {
        let version = match version {
            Some(text) => Some(text.to_owned()),
            None => None,
        };
        Self::from_segments(split_path(resource), kind, version)
    }

    /// The segments of the path, the library's name first.
    pub fn segments(&self) -> (segments: &Vec<String>)
        ensures
            segments.deep_view() == self@.segments,
            self@.well_formed(),
    {
        proof {
            use_type_invariant(self);
        }
        &self.segments
    }

    /// The kind that the caller gave.
    pub fn kind(&self) -> (kind: Option<ItemType>)
        ensures
            kind == self@.kind,
            self@.well_formed(),
    {
        proof {
            use_type_invariant(self);
        }
        self.kind
    }

    /// The version that the caller gave.
    pub fn version(&self) -> (version: Option<&str>)
        ensures
            version.deep_view() == self@.version,
    {
        match &self.version {
            Some(text) => Some(text.as_str()),
            None => None,
        }
    }

    /// The name of the library: the first segment.
    pub fn library(&self) -> (name: &str)
        ensures
            name@ == self@.segments.first(),
    {
        proof {
            use_type_invariant(self);
        }
        self.segments[0].as_str()
    }

    /// The name of the item: the final segment.
    pub fn name(&self) -> (name: &str)
        ensures
            name@ == self@.segments.last(),
    {
        proof {
            use_type_invariant(self);
        }
        self.segments[self.segments.len() - 1].as_str()
    }

    /// The identifier of the module that lists this item, or `None` where
    /// the path is the library's root and has no container.
    pub fn container(&self) -> (container: Option<ResourceIdentifier>)
        ensures
            match container {
                Some(id) => self@.segments.len() >= 2 && id@ == self@.container(),
                None => self@.segments.len() == 1,
            },
    {
        proof {
            use_type_invariant(self);
        }
        let n = self.segments.len();
        if n < 2 {
            return None;
        }
        let mut segments: Vec<String> = Vec::new();
        let mut i: usize = 0;
        while i < n - 1
            invariant
                i <= n - 1,
                n == self.segments.len(),
                segments.deep_view() == self.segments.deep_view().take(i as int),
            decreases n - 1 - i,
        {
            let ghost before = segments.deep_view();
            let segment = self.segments[i].clone();
            segments.push(segment);
            assert(segments.deep_view() == before.push(self.segments[i as int]@));
            i += 1;
        }
        assert(self.segments.deep_view().take(n - 1) == self.segments.deep_view().drop_last());
        let version = match &self.version {
            Some(text) => Some(text.clone()),
            None => None,
        };
        Some(ResourceIdentifier { segments, kind: Some(ItemType::Module), version })
    }
}

} // verus!
