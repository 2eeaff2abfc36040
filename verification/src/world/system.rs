//! Star systems.

use crate::error::Error;
use crate::world::body::Body;
use crate::world::temporal::Temporal;
use crate::world::vector::Vector3;
use crate::{GalaxyCoordsRepr, GalaxyOffsetRepr};
use vstd::prelude::*;

verus! {

/// What a system has at its centre.
#[derive(Clone, Copy, Debug, PartialEq, Eq, Structural)]
pub enum CenterType {
    OneStar,
    TwoStars,
    ThreeStars,
    BlackHole,
    NeutronStar,
}

impl Default for CenterType {
    fn default() -> (center: CenterType)
        ensures
            center == CenterType::OneStar,
    {
        CenterType::OneStar
    }
}

impl CenterType {
    /// The centre type that a number stands for.
    pub open spec fn of(value: u32) -> CenterType {
        if value == 0 {
            CenterType::OneStar
        } else if value == 1 {
            CenterType::TwoStars
        } else if value == 2 {
            CenterType::ThreeStars
        } else if value == 3 {
            CenterType::BlackHole
        } else {
            CenterType::NeutronStar
        }
    }

    /// The centre type numbered `value`; only 0 to 4 number one.
    pub fn from(value: u32) -> (center: CenterType)
        requires
            value <= 4,
        ensures
            center == CenterType::of(value),
    {
        if value == 0 {
            CenterType::OneStar
        } else if value == 1 {
            CenterType::TwoStars
        } else if value == 2 {
            CenterType::ThreeStars
        } else if value == 3 {
            CenterType::BlackHole
        } else {
            CenterType::NeutronStar
        }
    }
}

/// A star system: where it lies in the galaxy, what is at its centre, and the
/// bodies it owns, in order.
#[derive(Clone, Debug)]
pub struct System {
    pub coords: Vector3<GalaxyCoordsRepr>,
    pub offset: Vector3<GalaxyOffsetRepr>,
    pub center_type: CenterType,
    pub bodies: Vec<Body>,
}

/// A system as a value: its bodies as a sequence.
pub struct SystemView {
    pub coords: Vector3<GalaxyCoordsRepr>,
    pub offset: Vector3<GalaxyOffsetRepr>,
    pub center_type: CenterType,
    pub bodies: Seq<Body>,
}

impl View for System {
    type V = SystemView;

    open spec fn view(&self) -> SystemView {
        SystemView {
            coords: self.coords,
            offset: self.offset,
            center_type: self.center_type,
            bodies: self.bodies@,
        }
    }
}

impl System {
    /// A system without bodies.
    pub fn new(
        coords: Vector3<GalaxyCoordsRepr>,
        offset: Vector3<GalaxyOffsetRepr>,
        center_type: CenterType,
    ) -> (system: System)
        ensures
            system@ == (SystemView { coords, offset, center_type, bodies: Seq::empty() }),
    {
        System { coords, offset, center_type, bodies: Vec::new() }
    }
}

impl System {
    /// Whether `after` are the bodies `before` once each was advanced with
    /// the outcome that `outcomes` holds for it: the bodies are as many and
    /// in the same order, each of the kind and with the velocity that it
    /// had; a body that was advanced is where it was made to be, and a body
    /// whose advance failed is where it was.
    pub open spec fn advanced(
        before: Seq<Body>,
        outcomes: Seq<Result<Body, Error>>,
        after: Seq<Body>,
    ) -> bool {
        &&& outcomes.len() == before.len()
        &&& after.len() == before.len()
        &&& forall|i: int|
            0 <= i < before.len() ==> {
                &&& (#[trigger] after[i]).body_type == before[i].body_type
                &&& after[i].velocity == before[i].velocity
                &&& after[i].coords == match outcomes[i] {
                    Ok(made) => made.coords,
                    Err(_) => before[i].coords,
                }
            }
    }

    /// The outcome of a whole update, from the outcomes of its parts in
    /// their order: success where every part succeeded, else the first
    /// failure.
    pub open spec fn outcome<T>(outcomes: Seq<Result<T, Error>>) -> Result<(), Error>
        decreases outcomes.len(),
    {
        if outcomes.len() == 0 {
            Ok(())
        } else {
            match (Self::outcome(outcomes.drop_last()), outcomes.last()) {
                (Err(error), _) => Err(error),
                (Ok(_), Err(error)) => Err(error),
                (Ok(_), Ok(_)) => Ok(()),
            }
        }
    }

    /// Whether `after` is the system `before` once it was updated with
    /// `advance`, which gave the outcomes `outcomes` for its bodies: the
    /// bodies are advanced with these, and nothing else has changed.
    pub open spec fn updated<A: Fn(&Body) -> Result<Body, Error>>(
        before: System,
        advance: A,
        outcomes: Seq<Result<Body, Error>>,
        after: System,
    ) -> bool {
        &&& after.coords == before.coords
        &&& after.offset == before.offset
        &&& after.center_type == before.center_type
        &&& Self::advanced(before.bodies@, outcomes, after.bodies@)
        &&& forall|i: int|
            0 <= i < outcomes.len() ==> advance.ensures(
                (&before.bodies@[i],),
                #[trigger] outcomes[i],
            )
    }
}

impl Temporal for System {
    /// Advances the system by advancing each of its bodies with `advance`,
    /// in their order. A body's failure does not keep the others from being
    /// advanced: every body is advanced, a body whose advance failed stays
    /// as it was, and the first failure, if there was one, is the system's.
    fn update<A: Fn(&Body) -> Result<Body, Error>>(&mut self, advance: &A) -> (done: Result<
        (),
        Error,
    >)
        ensures
            exists|outcomes: Seq<Result<Body, Error>>| #[trigger]
                Self::updated(*old(self), *advance, outcomes, *final(self)) && done
                    == Self::outcome(outcomes),
    {
        let mut done: Result<(), Error> = Ok(());
        let ghost mut outcomes: Seq<Result<Body, Error>> = Seq::empty();
        let mut at: usize = 0;
        while at < self.bodies.len()
            invariant
                forall|body: &Body| advance.requires((body,)),
                self.coords == old(self).coords,
                self.offset == old(self).offset,
                self.center_type == old(self).center_type,
                at <= self.bodies@.len(),
                self.bodies@.len() == old(self).bodies@.len(),
                outcomes.len() == at,
                forall|i: int|
                    at <= i < self.bodies@.len() ==> self.bodies@[i] == old(self).bodies@[i],
                forall|i: int|
                    0 <= i < at ==> #[trigger] self.bodies@[i] == match outcomes[i] {
                        Ok(made) => old(self).bodies@[i].moved_to(made),
                        Err(_) => old(self).bodies@[i],
                    },
                forall|i: int|
                    0 <= i < at ==> advance.ensures(
                        (&old(self).bodies@[i],),
                        #[trigger] outcomes[i],
                    ),
                done == Self::outcome(outcomes),
            decreases self.bodies@.len() - at,
        {
            let mut body = self.bodies[at];
            let ghost was = body;
            let updated = body.update(advance);
            self.bodies[at] = body;
            let ghost outcome: Result<Body, Error> = if updated is Ok {
                Ok(
                    choose|made: Body| #[trigger]
                        advance.ensures((&was,), Ok::<Body, Error>(made)) && body == was.moved_to(
                            made,
                        ),
                )
            } else {
                Err(updated->Err_0)
            };
            let ghost earlier = outcomes;
            proof {
                outcomes = earlier.push(outcome);
                assert(outcomes.drop_last() =~= earlier);
            }
            if let Err(error) = updated {
                if done.is_ok() {
                    done = Err(error);
                }
            }
            at = at + 1;
        }
        proof {
            assert(Self::updated(*old(self), *advance, outcomes, *self));
        }
        done
    }
}

impl Default for System {
    fn default() -> (system: System)
        ensures
            system@ == (SystemView {
                coords: Vector3 { x: 0, y: 0, z: 0 },
                offset: Vector3 { x: 0, y: 0, z: 0 },
                center_type: CenterType::OneStar,
                bodies: Seq::empty(),
            }),
    {
        System {
            coords: Vector3::new(0, 0, 0),
            offset: Vector3::new(0, 0, 0),
            center_type: CenterType::OneStar,
            bodies: Vec::new(),
        }
    }
}

} // verus!
