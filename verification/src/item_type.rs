//! The kinds of item that a documentation page can describe, and the token
//! by which each is written in a page's address and in a listing's markup.

use vstd::prelude::*;
use crate::chars::{chars_of, same_chars};
use crate::error::DocError;

verus! {

/// The kind of a documented item.
#[derive(Copy, Clone, PartialEq, Eq, Structural, Debug, Hash)]
pub enum ItemType {
    /// A module; the root of a library is one.
    Module,
    /// An `extern crate` declaration.
    ExternCrate,
    /// A `use` declaration.
    Import,
    /// A struct.
    Struct,
    /// A union.
    Union,
    /// An enum.
    Enum,
    /// A function.
    Function,
    /// A type alias.
    TypeAlias,
    /// A static item.
    Static,
    /// A trait.
    Trait,
    /// An implementation.
    Impl,
    /// A method that a trait requires.
    TyMethod,
    /// A method that a trait or a type provides.
    Method,
    /// A field of a struct.
    StructField,
    /// A variant of an enum.
    Variant,
    /// A macro.
    Macro,
    /// A primitive type.
    Primitive,
    /// An associated type.
    AssocType,
    /// A constant.
    Constant,
    /// An associated constant.
    AssocConst,
    /// A foreign type.
    ForeignType,
    /// A keyword.
    Keyword,
    /// An attribute macro.
    ProcAttribute,
    /// A derive macro.
    ProcDerive,
    /// A trait alias.
    TraitAlias,
    /// A built-in attribute.
    Attribute,
}

impl ItemType {
    /// The token of a kind: lower case, the same in addresses and in markup.
    pub open spec fn token(self) -> Seq<char> {
        match self {
            ItemType::Module => "mod"@,
            ItemType::ExternCrate => "externcrate"@,
            ItemType::Import => "import"@,
            ItemType::Struct => "struct"@,
            ItemType::Union => "union"@,
            ItemType::Enum => "enum"@,
            ItemType::Function => "fn"@,
            ItemType::TypeAlias => "type"@,
            ItemType::Static => "static"@,
            ItemType::Trait => "trait"@,
            ItemType::Impl => "impl"@,
            ItemType::TyMethod => "tymethod"@,
            ItemType::Method => "method"@,
            ItemType::StructField => "structfield"@,
            ItemType::Variant => "variant"@,
            ItemType::Macro => "macro"@,
            ItemType::Primitive => "primitive"@,
            ItemType::AssocType => "associatedtype"@,
            ItemType::Constant => "constant"@,
            ItemType::AssocConst => "associatedconstant"@,
            ItemType::ForeignType => "foreigntype"@,
            ItemType::Keyword => "keyword"@,
            ItemType::ProcAttribute => "attr"@,
            ItemType::ProcDerive => "derive"@,
            ItemType::TraitAlias => "traitalias"@,
            ItemType::Attribute => "attribute"@,
        }
    }

    /// The place of a kind in the order of declaration, from 0.
    pub open spec fn ordinal(self) -> int {
        match self {
            ItemType::Module => 0,
            ItemType::ExternCrate => 1,
            ItemType::Import => 2,
            ItemType::Struct => 3,
            ItemType::Union => 4,
            ItemType::Enum => 5,
            ItemType::Function => 6,
            ItemType::TypeAlias => 7,
            ItemType::Static => 8,
            ItemType::Trait => 9,
            ItemType::Impl => 10,
            ItemType::TyMethod => 11,
            ItemType::Method => 12,
            ItemType::StructField => 13,
            ItemType::Variant => 14,
            ItemType::Macro => 15,
            ItemType::Primitive => 16,
            ItemType::AssocType => 17,
            ItemType::Constant => 18,
            ItemType::AssocConst => 19,
            ItemType::ForeignType => 20,
            ItemType::Keyword => 21,
            ItemType::ProcAttribute => 22,
            ItemType::ProcDerive => 23,
            ItemType::TraitAlias => 24,
            ItemType::Attribute => 25,
        }
    }

    /// Whether some kind is written `text`.
    pub open spec fn is_token(text: Seq<char>) -> bool {
        exists|kind: ItemType| kind.token() == text
    }

    /// The kind that is written `text`, where there is one.
    pub open spec fn kind_of(text: Seq<char>) -> ItemType {
        choose|kind: ItemType| kind.token() == text
    }

    /// What parsing `text` gives: its kind, or `UnknownKind` where it is no
    /// token. No text falls back to a default kind.
    pub open spec fn parse_spec(text: Seq<char>) -> Result<ItemType, DocError> {
        if Self::is_token(text) {
            Ok(Self::kind_of(text))
        } else {
            Err(DocError::UnknownKind)
        }
    }

    /// Every kind, in the order of declaration.
    pub fn all() -> (kinds: [ItemType; 26])
        ensures
            forall|kind: ItemType|
                0 <= #[trigger] kind.ordinal() < 26 && kinds@[kind.ordinal()] == kind,
    {
        [
            ItemType::Module,
            ItemType::ExternCrate,
            ItemType::Import,
            ItemType::Struct,
            ItemType::Union,
            ItemType::Enum,
            ItemType::Function,
            ItemType::TypeAlias,
            ItemType::Static,
            ItemType::Trait,
            ItemType::Impl,
            ItemType::TyMethod,
            ItemType::Method,
            ItemType::StructField,
            ItemType::Variant,
            ItemType::Macro,
            ItemType::Primitive,
            ItemType::AssocType,
            ItemType::Constant,
            ItemType::AssocConst,
            ItemType::ForeignType,
            ItemType::Keyword,
            ItemType::ProcAttribute,
            ItemType::ProcDerive,
            ItemType::TraitAlias,
            ItemType::Attribute,
        ]
    }

    /// The token of this kind.
    pub fn as_str(self) -> (token: &'static str)
        ensures
            token@ == self.token(),
    {
        match self {
            ItemType::Module => "mod",
            ItemType::ExternCrate => "externcrate",
            ItemType::Import => "import",
            ItemType::Struct => "struct",
            ItemType::Union => "union",
            ItemType::Enum => "enum",
            ItemType::Function => "fn",
            ItemType::TypeAlias => "type",
            ItemType::Static => "static",
            ItemType::Trait => "trait",
            ItemType::Impl => "impl",
            ItemType::TyMethod => "tymethod",
            ItemType::Method => "method",
            ItemType::StructField => "structfield",
            ItemType::Variant => "variant",
            ItemType::Macro => "macro",
            ItemType::Primitive => "primitive",
            ItemType::AssocType => "associatedtype",
            ItemType::Constant => "constant",
            ItemType::AssocConst => "associatedconstant",
            ItemType::ForeignType => "foreigntype",
            ItemType::Keyword => "keyword",
            ItemType::ProcAttribute => "attr",
            ItemType::ProcDerive => "derive",
            ItemType::TraitAlias => "traitalias",
            ItemType::Attribute => "attribute",
        }
    }

    /// The token of this kind, as an owned string.
    pub fn to_string(&self) -> (token: String)
        ensures
            token@ == self.token(),
    {
        self.as_str().to_owned()
    }

    /// The kind that `token` names. The match is exact and case-sensitive.
    pub fn parse(token: &str) -> (parsed: Result<ItemType, DocError>)
        ensures
            parsed == Self::parse_spec(token@),
    {
        let text = chars_of(token);
        let kinds = Self::all();
        let mut i: usize = 0;
        while i < 26
            invariant
                i <= 26,
                text@ == token@,
                forall|kind: ItemType|
                    0 <= #[trigger] kind.ordinal() < 26 && kinds@[kind.ordinal()] == kind,
                forall|j: int| 0 <= j < i ==> (#[trigger] kinds@[j]).token() != token@,
            decreases 26 - i,
        {
            let kind = kinds[i];
            let name = chars_of(kind.as_str());
            if same_chars(&text, &name) {
                proof {
                    lemma_token_injective(kind, Self::kind_of(token@));
                }
                return Ok(kind);
            }
            i += 1;
        }
        assert forall|kind: ItemType| kind.token() != token@ by {
            assert(kinds@[kind.ordinal()] == kind);
        }
        Err(DocError::UnknownKind)
    }
}

/// The length, first and last character of a kind's token: enough to tell
/// any two kinds apart.
spec fn shape(kind: ItemType) -> (nat, char, char) {
    match kind {
        ItemType::Module => (3, 'm', 'd'),
        ItemType::ExternCrate => (11, 'e', 'e'),
        ItemType::Import => (6, 'i', 't'),
        ItemType::Struct => (6, 's', 't'),
        ItemType::Union => (5, 'u', 'n'),
        ItemType::Enum => (4, 'e', 'm'),
        ItemType::Function => (2, 'f', 'n'),
        ItemType::TypeAlias => (4, 't', 'e'),
        ItemType::Static => (6, 's', 'c'),
        ItemType::Trait => (5, 't', 't'),
        ItemType::Impl => (4, 'i', 'l'),
        ItemType::TyMethod => (8, 't', 'd'),
        ItemType::Method => (6, 'm', 'd'),
        ItemType::StructField => (11, 's', 'd'),
        ItemType::Variant => (7, 'v', 't'),
        ItemType::Macro => (5, 'm', 'o'),
        ItemType::Primitive => (9, 'p', 'e'),
        ItemType::AssocType => (14, 'a', 'e'),
        ItemType::Constant => (8, 'c', 't'),
        ItemType::AssocConst => (18, 'a', 't'),
        ItemType::ForeignType => (11, 'f', 'e'),
        ItemType::Keyword => (7, 'k', 'd'),
        ItemType::ProcAttribute => (4, 'a', 'r'),
        ItemType::ProcDerive => (6, 'd', 'e'),
        ItemType::TraitAlias => (10, 't', 's'),
        ItemType::Attribute => (9, 'a', 'e'),
    }
}

proof fn lemma_shape(kind: ItemType)
    ensures
        shape(kind) == (kind.token().len(), kind.token().first(), kind.token().last()),
{
    match kind {
        ItemType::Module => {
            reveal_strlit("mod");
        },
        ItemType::ExternCrate => {
            reveal_strlit("externcrate");
        },
        ItemType::Import => {
            reveal_strlit("import");
        },
        ItemType::Struct => {
            reveal_strlit("struct");
        },
        ItemType::Union => {
            reveal_strlit("union");
        },
        ItemType::Enum => {
            reveal_strlit("enum");
        },
        ItemType::Function => {
            reveal_strlit("fn");
        },
        ItemType::TypeAlias => {
            reveal_strlit("type");
        },
        ItemType::Static => {
            reveal_strlit("static");
        },
        ItemType::Trait => {
            reveal_strlit("trait");
        },
        ItemType::Impl => {
            reveal_strlit("impl");
        },
        ItemType::TyMethod => {
            reveal_strlit("tymethod");
        },
        ItemType::Method => {
            reveal_strlit("method");
        },
        ItemType::StructField => {
            reveal_strlit("structfield");
        },
        ItemType::Variant => {
            reveal_strlit("variant");
        },
        ItemType::Macro => {
            reveal_strlit("macro");
        },
        ItemType::Primitive => {
            reveal_strlit("primitive");
        },
        ItemType::AssocType => {
            reveal_strlit("associatedtype");
        },
        ItemType::Constant => {
            reveal_strlit("constant");
        },
        ItemType::AssocConst => {
            reveal_strlit("associatedconstant");
        },
        ItemType::ForeignType => {
            reveal_strlit("foreigntype");
        },
        ItemType::Keyword => {
            reveal_strlit("keyword");
        },
        ItemType::ProcAttribute => {
            reveal_strlit("attr");
        },
        ItemType::ProcDerive => {
            reveal_strlit("derive");
        },
        ItemType::TraitAlias => {
            reveal_strlit("traitalias");
        },
        ItemType::Attribute => {
            reveal_strlit("attribute");
        },
    }
}

/// No two kinds share a token.
pub proof fn lemma_token_injective(a: ItemType, b: ItemType)
    requires
        a.token() == b.token(),
    ensures
        a == b,
{
    lemma_shape(a);
    lemma_shape(b);
}

/// Writing a kind as its token and parsing that token gives the kind back.
pub proof fn lemma_parse_round_trip(kind: ItemType)
    ensures
        ItemType::parse_spec(kind.token()) == Ok::<ItemType, DocError>(kind),
{
    assert(ItemType::is_token(kind.token()));
    lemma_token_injective(ItemType::kind_of(kind.token()), kind);
}

/// A text that parses is the token of the kind it parses to, and of no other.
pub proof fn lemma_parse_is_inverse(text: Seq<char>, kind: ItemType)
    ensures
        ItemType::parse_spec(text) == Ok::<ItemType, DocError>(kind) <==> kind.token() == text,
{
    if kind.token() == text {
        lemma_parse_round_trip(kind);
    }
}

} // verus!
