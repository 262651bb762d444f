//! The closed set of product categories, their names on the wire, and their
//! counterparts in the remote procedure schema.

use crate::text::same_text;
use vstd::prelude::*;

verus! {

/// Product category of a sale. The set is closed: there is no fallback
/// variant for an unknown name.
#[derive(Clone, Copy, Debug, PartialEq, Eq, Structural)]
pub enum Category {
    Electronics,
    Clothing,
    HomeGoods,
    Beauty,
}

/// Category as the remote procedure schema spells it. The two enumerations
/// are tied by [`Category::to_remote`] alone, never by position.
#[derive(Clone, Copy, Debug, PartialEq, Eq, Structural)]
pub enum RemoteCategory {
    Electronica,
    Ropa,
    Hogar,
    Belleza,
}

/// The name under which a category appears in a JSON body.
pub open spec fn wire_name_of(category: Category) -> Seq<char> {
    match category {
        Category::Electronics => "Electronica"@,
        Category::Clothing => "Ropa"@,
        Category::HomeGoods => "Hogar"@,
        Category::Beauty => "Belleza"@,
    }
}

/// The category that a JSON body names, if it names one.
pub open spec fn category_named(name: Seq<char>) -> Option<Category> {
    if name == "Electronica"@ {
        Some(Category::Electronics)
    } else if name == "Ropa"@ {
        Some(Category::Clothing)
    } else if name == "Hogar"@ {
        Some(Category::HomeGoods)
    } else if name == "Belleza"@ {
        Some(Category::Beauty)
    } else {
        None
    }
}

/// The remote schema's counterpart of a category.
pub open spec fn remote_of(category: Category) -> RemoteCategory {
    match category {
        Category::Electronics => RemoteCategory::Electronica,
        Category::Clothing => RemoteCategory::Ropa,
        Category::HomeGoods => RemoteCategory::Hogar,
        Category::Beauty => RemoteCategory::Belleza,
    }
}

impl Category {
    /// The name of this category in a JSON body.
    pub fn wire_name(self) -> (name: &'static str)
        ensures
            name@ == wire_name_of(self),
    {
        match self {
            Category::Electronics => "Electronica",
            Category::Clothing => "Ropa",
            Category::HomeGoods => "Hogar",
            Category::Beauty => "Belleza",
        }
    }

    /// Looks a category up by its name in a JSON body. The match is exact:
    /// case and surrounding space count.
    pub fn from_wire_name(name: &str) -> (found: Option<Category>)
        ensures
            found == category_named(name@),
    {
        if same_text(name, "Electronica") {
            Some(Category::Electronics)
        } else if same_text(name, "Ropa") {
            Some(Category::Clothing)
        } else if same_text(name, "Hogar") {
            Some(Category::HomeGoods)
        } else if same_text(name, "Belleza") {
            Some(Category::Beauty)
        } else {
            None
        }
    }

    /// Maps this category to the remote schema by an explicit table.
    pub fn to_remote(self) -> (remote: RemoteCategory)
        ensures
            remote == remote_of(self),
    {
        match self {
            Category::Electronics => RemoteCategory::Electronica,
            Category::Clothing => RemoteCategory::Ropa,
            Category::HomeGoods => RemoteCategory::Hogar,
            Category::Beauty => RemoteCategory::Belleza,
        }
    }
}

/// A category is found again under its own wire name, and under no other
/// name.
pub proof fn lemma_wire_names_round_trip(category: Category, name: Seq<char>)
    ensures
        category_named(wire_name_of(category)) == Some(category),
        category_named(name) == Some(category) <==> name == wire_name_of(category),
{
    reveal_strlit("Electronica");
    reveal_strlit("Ropa");
    reveal_strlit("Hogar");
    reveal_strlit("Belleza");
    assert("Electronica"@.len() == 11);
    assert("Ropa"@.len() == 4);
    assert("Hogar"@.len() == 5);
    assert("Belleza"@.len() == 7);
}

/// The table to the remote schema is one-to-one and reaches every remote
/// category.
pub proof fn lemma_remote_mapping_is_bijective(a: Category, b: Category, remote: RemoteCategory)
    ensures
        remote_of(a) == remote_of(b) ==> a == b,
        exists|c: Category| remote_of(c) == remote,
{
    match remote {
        RemoteCategory::Electronica => assert(remote_of(Category::Electronics) == remote),
        RemoteCategory::Ropa => assert(remote_of(Category::Clothing) == remote),
        RemoteCategory::Hogar => assert(remote_of(Category::HomeGoods) == remote),
        RemoteCategory::Belleza => assert(remote_of(Category::Beauty) == remote),
    }
}

} // verus!
