use vstd::prelude::*;
use crate::config::{FallingConfig, FlakeType};
use crate::random::{get_random_i64, get_random_usize, in_draw_range};
use crate::scene::Scene;

verus! {

/// One falling particle. Its position is in stage units with the origin at the
/// top-left corner of the stage; `deleted` is set once it has fallen below
/// the stage.
#[derive(Debug, PartialEq, Eq)]
pub struct FallingObject {
    pub x: i64,
    pub y: i64,
    pub speed: i32,
    pub angle: i32,
    pub color: String,
    pub radius: i32,
    pub type_: FlakeType,
    pub text: String,
    pub deleted: bool,
}

/// One drawing operation on the host's 2D surface.
#[derive(Debug, PartialEq, Eq)]
pub enum DrawCommand {
    /// Clear the rectangle from the origin to `(width, height)`.
    Clear { width: i64, height: i64 },
    /// Fill a full disc centred on `(x, y)`.
    Circle { x: i64, y: i64, radius: i32, color: String },
    /// Fill an axis-aligned square whose top-left corner is `(x, y)`.
    Square { x: i64, y: i64, side: i64, color: String },
    /// Fill `text` at `(x, y)` in a serif font of `font_px` pixels.
    Text { x: i64, y: i64, font_px: i64, color: String, text: String },
}

/// `v` clamped to the range of `i64`.
pub open spec fn clamp_i64(v: int) -> int {
    if v > i64::MAX {
        i64::MAX as int
    } else if v < i64::MIN {
        i64::MIN as int
    } else {
        v
    }
}

/// The particle one frame later: it drifts sideways by `angle * speed` and
/// falls by `speed`; positions saturate at the bounds of `i64`.
pub open spec fn advanced(p: FallingObject) -> FallingObject {
    FallingObject {
        x: clamp_i64(p.x + p.angle * p.speed) as i64,
        y: clamp_i64(p.y + p.speed) as i64,
        ..p
    }
}

/// How a particle is drawn.
pub open spec fn draw_of(p: FallingObject) -> DrawCommand {
    match p.type_ {
        FlakeType::Circle => DrawCommand::Circle { x: p.x, y: p.y, radius: p.radius, color: p.color },
        FlakeType::Square => DrawCommand::Square {
            x: p.x,
            y: p.y,
            side: (2 * p.radius) as i64,
            color: p.color,
        },
        FlakeType::Text => DrawCommand::Text {
            x: p.x,
            y: p.y,
            font_px: (5 * p.radius) as i64,
            color: p.color,
            text: p.text,
        },
    }
}

/// The particle made from the drawn values `x`, `speed`, `angle`, `radius`
/// and the palette entry at `color_index`.
pub open spec fn made_from(
    c: FallingConfig,
    x: i64,
    speed: i32,
    angle: i32,
    radius: i32,
    color_index: int,
) -> FallingObject {
    FallingObject {
        x,
        y: 0,
        speed,
        angle,
        color: c.colors@[color_index],
        radius,
        type_: c.type_,
        text: c.text,
        deleted: false,
    }
}

/// What holds of every particle spawned under `c` on a stage `width` wide:
/// it starts on the top edge, each attribute lies in its range (and is the
/// range's bound when the range is a single point), its colour is a palette
/// entry, its shape and text are the configuration's, and it is alive.
pub open spec fn spawned_under(c: FallingConfig, width: i64, p: FallingObject) -> bool {
    &&& in_draw_range(p.x as int, 0, width as int)
    &&& p.y == 0
    &&& in_draw_range(p.speed as int, c.min_speed as int, c.max_speed as int)
    &&& in_draw_range(p.angle as int, c.min_angle as int, c.max_angle as int)
    &&& in_draw_range(p.radius as int, c.min_radius as int, c.max_radius as int)
    &&& exists|i: int| 0 <= i < c.colors@.len() && p.color == #[trigger] c.colors@[i]
    &&& p.type_ == c.type_
    &&& p.text == c.text
    &&& !p.deleted
}

fn add_clamped(a: i64, b: i64) -> (r: i64)
    ensures
        r == clamp_i64(a + b),
{
    if b > 0 && a > i64::MAX - b {
        i64::MAX
    } else if b < 0 && a < i64::MIN - b {
        i64::MIN
    } else {
        a + b
    }
}

impl FallingObject {
    /// A new particle on the top edge of `scene`'s stage, its attributes
    /// drawn from the ranges of the scene's configuration.
    pub fn new(scene: &Scene) -> (r: Self)
        requires
            scene.wf(),
        ensures
            spawned_under(scene.config, scene.stage_width, r),
    {
        let c = &scene.config;
        let x = get_random_i64(0, scene.stage_width);
        let speed = get_random_i64(c.min_speed as i64, c.max_speed as i64) as i32;
        let angle = get_random_i64(c.min_angle as i64, c.max_angle as i64) as i32;
        let radius = get_random_i64(c.min_radius as i64, c.max_radius as i64) as i32;
        let color_index = get_random_usize(0, c.colors.len());
        Self::with_draws(c, x, speed, angle, radius, color_index)
    }

    /// The particle made from given draws: on the top edge at `x`, with the
    /// palette entry at `color_index`, shape and text copied from `config`.
    pub fn with_draws(
        config: &FallingConfig,
        x: i64,
        speed: i32,
        angle: i32,
        radius: i32,
        color_index: usize,
    ) -> (r: Self)
        requires
            color_index < config.colors@.len(),
        ensures
            r == made_from(*config, x, speed, angle, radius, color_index as int),
    {
        FallingObject {
            x,
            y: 0,
            speed,
            angle,
            color: config.colors[color_index].clone(),
            radius,
            type_: config.type_,
            text: config.text.clone(),
            deleted: false,
        }
    }

    /// Moves the particle one frame on and returns its new `y`.
    pub fn update(&mut self) -> (r: i64)
        ensures
            *final(self) == advanced(*old(self)),
            r == final(self).y,
    {
        let a = self.angle as i64;
        let s = self.speed as i64;
        assert(-0x4000_0000_0000_0000 <= a * s <= 0x4000_0000_0000_0000) by (nonlinear_arith)
            requires
                -0x8000_0000 <= a <= 0x8000_0000,
                -0x8000_0000 <= s <= 0x8000_0000,
        ;
        let drift: i64 = a * s;
        self.x = add_clamped(self.x, drift);
        self.y = add_clamped(self.y, self.speed as i64);
        self.y
    }

    /// The command that draws this particle.
    pub fn render(&self) -> (r: DrawCommand)
        ensures
            r == draw_of(*self),
    {
        match self.type_ {
            FlakeType::Circle => DrawCommand::Circle {
                x: self.x,
                y: self.y,
                radius: self.radius,
                color: self.color.clone(),
            },
            FlakeType::Square => DrawCommand::Square {
                x: self.x,
                y: self.y,
                side: 2 * self.radius as i64,
                color: self.color.clone(),
            },
            FlakeType::Text => DrawCommand::Text {
                x: self.x,
                y: self.y,
                font_px: 5 * self.radius as i64,
                color: self.color.clone(),
                text: self.text.clone(),
            },
        }
    }

    /// An equal particle.
    pub fn copy(&self) -> (r: Self)
        ensures
            r == *self,
    {
        FallingObject {
            x: self.x,
            y: self.y,
            speed: self.speed,
            angle: self.angle,
            color: self.color.clone(),
            radius: self.radius,
            type_: self.type_,
            text: self.text.clone(),
            deleted: self.deleted,
        }
    }
}

} // verus!
