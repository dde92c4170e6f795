//! The colours of the two browsers, which follow the light or dark theme of the
//! interface: the light theme uses the complement of each dark-theme colour.
use vstd::prelude::*;

verus! {

/// A colour by its red, green and blue channels.
#[derive(Clone, Copy, Debug, PartialEq, Eq, Structural)]
pub struct Rgb {
    pub r: u8,
    pub g: u8,
    pub b: u8,
}

/// The colours in which the browsers draw.
#[derive(Clone, Copy, Debug, PartialEq, Eq, Structural)]
pub struct RouteColors {
    /// The outlines of the static obstacles.
    pub obstacles: Rgb,
    /// The routes of the individuals and the outlines of the moving obstacles.
    pub routes: Rgb,
}

/// The colour whose every channel is 255 minus that of `c`.
pub open spec fn complement(c: Rgb) -> Rgb {
    Rgb { r: (255 - c.r) as u8, g: (255 - c.g) as u8, b: (255 - c.b) as u8 }
}

/// The colours of the browsers in the dark theme (`dark_mode`) or the light one.
pub open spec fn theme_colors(dark_mode: bool) -> RouteColors {
    if dark_mode {
        RouteColors {
            obstacles: Rgb { r: 124, g: 252, b: 0 },
            routes: Rgb { r: 255, g: 255, b: 255 },
        }
    } else {
        RouteColors {
            obstacles: Rgb { r: (255 - 124) as u8, g: (255 - 252) as u8, b: (255 - 0) as u8 },
            routes: Rgb { r: 0, g: 0, b: 0 },
        }
    }
}

/// The colours of the browsers in the dark theme (`dark_mode`) or the light one.
pub fn route_colors(dark_mode: bool) -> (c: RouteColors)
    ensures
        c == theme_colors(dark_mode),
        dark_mode ==> c.obstacles == (Rgb { r: 124, g: 252, b: 0 }) && c.routes == (Rgb {
            r: 255,
            g: 255,
            b: 255,
        }),
        !dark_mode ==> c.obstacles == (Rgb { r: 131, g: 3, b: 255 }) && c.routes == (Rgb {
            r: 0,
            g: 0,
            b: 0,
        }),
{
    if dark_mode {
        RouteColors {
            obstacles: Rgb { r: 124, g: 252, b: 0 },
            routes: Rgb { r: 255, g: 255, b: 255 },
        }
    } else {
        RouteColors {
            obstacles: Rgb { r: 255 - 124, g: 255 - 252, b: 255 - 0 },
            routes: Rgb { r: 0, g: 0, b: 0 },
        }
    }
}

/// Every colour of the light theme is the complement of the dark-theme one.
pub proof fn lemma_light_theme_is_complement()
    ensures
        theme_colors(false).obstacles == complement(theme_colors(true).obstacles),
        theme_colors(false).routes == complement(theme_colors(true).routes),
{
}

} // verus!
