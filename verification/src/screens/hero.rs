//! The Heroes screen: a searchable, filterable gallery of heroes.

use vstd::prelude::*;

verus! {

/// The primary attribute the gallery is narrowed to.
#[derive(Debug, Clone, Copy, PartialEq, Eq, Structural, Default)]
pub enum HeroFilter {
    #[default]
    All,
    Strength,
    Agility,
    Intelligence,
    Universal,
}

impl HeroFilter {
    /// The choices, in the order the filter control lists them.
    pub fn all() -> (filters: [HeroFilter; 5])
        ensures
            filters@ == seq![
                HeroFilter::All,
                HeroFilter::Strength,
                HeroFilter::Agility,
                HeroFilter::Intelligence,
                HeroFilter::Universal,
            ],
    {
        [HeroFilter::All, HeroFilter::Strength, HeroFilter::Agility, HeroFilter::Intelligence, HeroFilter::Universal]
    }

    /// The message key of the choice's label.
    pub fn label_key(self) -> (key: &'static str)
        ensures
            key@ == match self {
                HeroFilter::All => "heroes-filter-all"@,
                HeroFilter::Strength => "heroes-filter-strength"@,
                HeroFilter::Agility => "heroes-filter-agility"@,
                HeroFilter::Intelligence => "heroes-filter-intelligence"@,
                HeroFilter::Universal => "heroes-filter-universal"@,
            },
    {
        match self {
            HeroFilter::All => "heroes-filter-all",
            HeroFilter::Strength => "heroes-filter-strength",
            HeroFilter::Agility => "heroes-filter-agility",
            HeroFilter::Intelligence => "heroes-filter-intelligence",
            HeroFilter::Universal => "heroes-filter-universal",
        }
    }
}

/// The heroes of the gallery, as `(name, primary attribute)`.
pub open spec fn gallery_heroes() -> Seq<(Seq<char>, Seq<char>)> {
    seq![
        ("Anti-Mage"@, "Agility"@),
        ("Axe"@, "Strength"@),
        ("Crystal Maiden"@, "Intelligence"@),
        ("Drow Ranger"@, "Agility"@),
        ("Earthshaker"@, "Strength"@),
        ("Invoker"@, "Universal"@),
        ("Juggernaut"@, "Agility"@),
        ("Lina"@, "Intelligence"@),
        ("Pudge"@, "Strength"@),
        ("Shadow Fiend"@, "Agility"@),
    ]
}

pub struct HeroScreen {
    pub search_query: String,
    pub filter: HeroFilter,
}

impl HeroScreen {
    /// An empty search showing every attribute.
    pub fn new() -> (screen: Self)
        ensures
            screen.search_query@.len() == 0,
            screen.filter == HeroFilter::All,
    {
        HeroScreen { search_query: String::new(), filter: HeroFilter::All }
    }

    /// The heroes the gallery shows, as `(name, primary attribute)`.
    pub fn heroes() -> (heroes: [(&'static str, &'static str); 10])
        ensures
            heroes@.len() == gallery_heroes().len(),
            forall|i: int|
                0 <= i < heroes@.len() ==> (#[trigger] heroes@[i]).0@ == gallery_heroes()[i].0
                    && heroes@[i].1@ == gallery_heroes()[i].1,
    {
        [
            ("Anti-Mage", "Agility"),
            ("Axe", "Strength"),
            ("Crystal Maiden", "Intelligence"),
            ("Drow Ranger", "Agility"),
            ("Earthshaker", "Strength"),
            ("Invoker", "Universal"),
            ("Juggernaut", "Agility"),
            ("Lina", "Intelligence"),
            ("Pudge", "Strength"),
            ("Shadow Fiend", "Agility"),
        ]
    }
}

impl Default for HeroScreen {
    fn default() -> (screen: Self)
        ensures
            screen.search_query@.len() == 0,
            screen.filter == HeroFilter::All,
    {
        Self::new()
    }
}

} // verus!
