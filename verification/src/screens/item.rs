//! The Items screen: a searchable gallery of items with their gold costs.

use vstd::prelude::*;

verus! {

/// The items of the gallery, as `(name, gold cost)`.
pub open spec fn gallery_items() -> Seq<(Seq<char>, Option<u32>)> {
    seq![
        ("Tango"@, Some(90u32)),
        ("Clarity"@, Some(50u32)),
        ("Salve"@, Some(100u32)),
        ("Faerie Fire"@, Some(70u32)),
        ("Ward"@, Some(50u32)),
        ("Dust"@, Some(80u32)),
        ("Power Treads"@, Some(1400u32)),
        ("Blink Dagger"@, Some(2250u32)),
        ("Black King Bar"@, Some(4050u32)),
        ("Butterfly"@, Some(4975u32)),
        ("Divine Rapier"@, Some(5950u32)),
        ("Refresher"@, Some(5000u32)),
    ]
}

pub struct ItemScreen {
    pub search_query: String,
}

impl ItemScreen {
    /// An empty search.
    pub fn new() -> (screen: Self)
        ensures
            screen.search_query@.len() == 0,
    {
        ItemScreen { search_query: String::new() }
    }

    /// The items the gallery shows, as `(name, gold cost)`.
    pub fn items() -> (items: [(&'static str, Option<u32>); 12])
        ensures
            items@.len() == gallery_items().len(),
            forall|i: int|
                0 <= i < items@.len() ==> (#[trigger] items@[i]).0@ == gallery_items()[i].0
                    && items@[i].1 == gallery_items()[i].1,
    {
        [
            ("Tango", Some(90)),
            ("Clarity", Some(50)),
            ("Salve", Some(100)),
            ("Faerie Fire", Some(70)),
            ("Ward", Some(50)),
            ("Dust", Some(80)),
            ("Power Treads", Some(1400)),
            ("Blink Dagger", Some(2250)),
            ("Black King Bar", Some(4050)),
            ("Butterfly", Some(4975)),
            ("Divine Rapier", Some(5950)),
            ("Refresher", Some(5000)),
        ]
    }
}

impl Default for ItemScreen {
    fn default() -> (screen: Self)
        ensures
            screen.search_query@.len() == 0,
    {
        Self::new()
    }
}

} // verus!
