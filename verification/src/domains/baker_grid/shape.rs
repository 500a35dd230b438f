use vstd::prelude::*;

use crate::sampling::choose_one;

verus! {

/// The marks that tell the goals of the Baker grid apart.
#[derive(Debug, Clone, Copy, PartialEq, Eq, Hash, Structural)]
pub enum Shape {
    BlueSquare,
    BlueCircle,
    GreenSquare,
    GreenCircle,
}

impl Shape {
    /// One of the four shapes, drawn at random.
    pub fn random(rng: &mut rand::rngs::ThreadRng) -> (r: Shape)
        ensures
            r == Shape::BlueSquare || r == Shape::BlueCircle || r == Shape::GreenSquare || r
                == Shape::GreenCircle,
    {
        let shapes = [Shape::BlueSquare, Shape::BlueCircle, Shape::GreenSquare, Shape::GreenCircle];
        match choose_one(shapes.as_slice(), rng) {
            Some(s) => s,
            None => Shape::BlueSquare,
        }
    }
}

} // verus!
