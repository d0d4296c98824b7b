//! Navigation glyphs of the sidebar.

use vstd::prelude::*;
use crate::app::Route;
use crate::icons::nav;

verus! {

/// The glyph shown for a route.
pub fn get_route_icon(route: Route) -> (glyph: &'static str)
    ensures
        glyph == match route {
            Route::Dashboard => nav::DASHBOARD,
            Route::Friends => nav::FRIENDS,
            Route::Matches => nav::MATCHES,
            Route::Heroes => nav::HEROES,
            Route::Items => nav::ITEMS,
            Route::Settings => nav::SETTINGS,
        },
{
    match route {
        Route::Dashboard => nav::DASHBOARD,
        Route::Friends => nav::FRIENDS,
        Route::Matches => nav::MATCHES,
        Route::Heroes => nav::HEROES,
        Route::Items => nav::ITEMS,
        Route::Settings => nav::SETTINGS,
    }
}

} // verus!
