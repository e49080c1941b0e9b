use vstd::prelude::*;

verus! {

/// The shape a particle is drawn as.
#[derive(Copy, Clone, PartialEq, Eq, Structural, Debug)]
pub enum FlakeType {
    Square,
    Text,
    Circle,
}

/// The immutable description of an effect: how many particles appear per
/// frame, the ranges their attributes are drawn from, their colours and shape,
/// and the selector of the element the drawing surface is mounted on.
///
/// Lengths (radius, speed) are in stage units; the angle is the horizontal
/// drift per unit of fall.
pub struct FallingConfig {
    pub frequency: u8,
    pub min_radius: i32,
    pub max_radius: i32,
    pub min_speed: i32,
    pub max_speed: i32,
    pub min_angle: i32,
    pub max_angle: i32,
    pub colors: Vec<String>,
    pub type_: FlakeType,
    pub text: String,
    pub el: String,
}

impl FallingConfig {
    /// A non-empty palette, and `min <= max` for each range, radii not negative.
    pub open spec fn wf(&self) -> bool {
        &&& 0 <= self.min_radius <= self.max_radius
        &&& self.min_speed <= self.max_speed
        &&& self.min_angle <= self.max_angle
        &&& self.colors@.len() > 0
    }

    pub fn new(
        frequency: u8,
        min_radius: i32,
        max_radius: i32,
        min_speed: i32,
        max_speed: i32,
        min_angle: i32,
        max_angle: i32,
        colors: Vec<String>,
        type_: FlakeType,
        text: String,
        el: String,
    ) -> (r: FallingConfig)
        requires
            0 <= min_radius <= max_radius,
            min_speed <= max_speed,
            min_angle <= max_angle,
            colors@.len() > 0,
        ensures
            r.wf(),
            r.frequency == frequency,
            r.min_radius == min_radius,
            r.max_radius == max_radius,
            r.min_speed == min_speed,
            r.max_speed == max_speed,
            r.min_angle == min_angle,
            r.max_angle == max_angle,
            r.colors == colors,
            r.type_ == type_,
            r.text == text,
            r.el == el,
    {
        FallingConfig {
            frequency,
            min_radius,
            max_radius,
            min_speed,
            max_speed,
            min_angle,
            max_angle,
            colors,
            type_,
            text,
            el,
        }
    }
}

} // verus!
