//! Bodies, the things that move inside a system.

use crate::error::Error;
use crate::world::temporal::Temporal;
use crate::world::vector::Vector3;
use crate::SystemCoordsRepr;
use vstd::prelude::*;

verus! {

/// What kind of thing a body is.
#[derive(Clone, Copy, Debug, PartialEq, Eq, Structural)]
pub enum BodyType {
    Planet,
    Asteroid,
    Station,
}

impl BodyType {
    /// The body type that a number stands for.
    pub open spec fn of(value: u32) -> BodyType {
        if value == 0 {
            BodyType::Planet
        } else if value == 1 {
            BodyType::Asteroid
        } else {
            BodyType::Station
        }
    }

    /// The body type numbered `value`; only 0, 1 and 2 number one.
    pub fn from(value: u32) -> (kind: BodyType)
        requires
            value <= 2,
        ensures
            kind == BodyType::of(value),
    {
        if value == 0 {
            BodyType::Planet
        } else if value == 1 {
            BodyType::Asteroid
        } else {
            BodyType::Station
        }
    }
}

/// A body of a system: its kind, where it is and how fast it moves.
#[derive(Clone, Copy, Debug, PartialEq, Eq)]
pub struct Body {
    pub body_type: BodyType,
    pub coords: Vector3<SystemCoordsRepr>,
    pub velocity: Vector3<SystemCoordsRepr>,
}

impl Body {
    /// A body at rest at `coords`.
    pub fn new(body_type: BodyType, coords: Vector3<SystemCoordsRepr>) -> (body: Body)
        ensures
            body == (Body { body_type, coords, velocity: Vector3 { x: 0, y: 0, z: 0 } }),
    {
        Body { body_type, coords, velocity: Vector3::new(0, 0, 0) }
    }
}

impl Body {
    /// The body `self` moved to where `made` is: time changes where a body
    /// is, and neither its kind nor its velocity.
    pub open spec fn moved_to(self, made: Body) -> Body {
        Body { coords: made.coords, ..self }
    }
}

impl Temporal for Body {
    /// Advances the body: it moves to where the body is that `advance`
    /// makes of it, or stays where it was where `advance` fails. Its kind
    /// and its velocity stay, whatever `advance` makes of them.
    fn update<A: Fn(&Body) -> Result<Body, Error>>(&mut self, advance: &A) -> (done: Result<
        (),
        Error,
    >)
        ensures
            final(self).body_type == old(self).body_type,
            final(self).velocity == old(self).velocity,
            match done {
                Ok(_) => exists|made: Body| #[trigger]
                    advance.ensures((old(self),), Ok::<Body, Error>(made)) && *final(self) == old(
                        self,
                    ).moved_to(made),
                Err(error) => advance.ensures((old(self),), Err::<Body, Error>(error))
                    && *final(self) == *old(self),
            },
    {
        match advance(self) {
            Ok(made) => {
                self.coords = made.coords;
                Ok(())
            },
            Err(error) => Err(error),
        }
    }
}

} // verus!
