//! The food sprite's placement and colour that a remote service may send.

use vstd::prelude::*;

verus! {

/// Placement (in whole pixels) and colour of the food sprite.
#[derive(Clone, Copy, PartialEq, Eq, Debug, Structural)]
pub struct SpriteConfig {
    pub x: i32,
    pub y: i32,
    pub r: i32,
    pub g: i32,
    pub b: i32,
}

/// The configuration used where the service sends nothing usable.
pub open spec fn default_sprite_config() -> SpriteConfig {
    SpriteConfig { x: 400, y: 200, r: 255, g: 200, b: 0 }
}

impl Default for SpriteConfig {
    fn default() -> (c: Self)
        ensures
            c == default_sprite_config(),
    {
        SpriteConfig { x: 400, y: 200, r: 255, g: 200, b: 0 }
    }
}

/// A colour channel as the service sends it: a JSON integer, kept as its
/// low 32 bits, or the fallback where the field is absent or not an integer.
pub open spec fn channel_or(v: Option<i64>, fallback: i32) -> i32 {
    match v {
        Some(n) => n as i32,
        None => fallback,
    }
}

impl SpriteConfig {
    /// Builds a configuration from the fields found in the service's JSON
    /// reply, each missing field taking its default: `x` and `y` are the
    /// reply's coordinates already cut to whole pixels, `r`, `g` and `b`
    /// its integer colour channels.
    pub fn from_json_fields(
        x: Option<i32>,
        y: Option<i32>,
        r: Option<i64>,
        g: Option<i64>,
        b: Option<i64>,
    ) -> (c: SpriteConfig)
        ensures
            c.x == (match x { Some(v) => v, None => 400i32 }),
            c.y == (match y { Some(v) => v, None => 200i32 }),
            c.r == channel_or(r, 255),
            c.g == channel_or(g, 200),
            c.b == channel_or(b, 0),
    {
        let x = match x { Some(v) => v, None => 400 };
        let y = match y { Some(v) => v, None => 200 };
        let r = match r { Some(v) => v as i32, None => 255 };
        let g = match g { Some(v) => v as i32, None => 200 };
        let b = match b { Some(v) => v as i32, None => 0 };
        SpriteConfig { x, y, r, g, b }
    }
}

} // verus!
