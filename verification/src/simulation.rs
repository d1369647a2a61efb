//! A record of eight array fields, held in any domain.
//!
//! The record type is written once, with the domain as its parameter. Its
//! list of fields, its borrowed form and its operations follow for every
//! domain from the one declaration.

use vstd::prelude::*;
use crate::array::IntArray;
use crate::domain::Arcd;
use crate::domain::Domain;
use crate::domain::Owned;
use crate::domain::Partial;
use crate::fields::ArrayFields;
use crate::generic::Generic;
use crate::hlist::HCons;
use crate::hlist::HNil;
use crate::mapper::AllSatisfy;
use crate::presence::AllPresent;
use crate::presence::IsPresent;
use crate::project::arcs;
use crate::project::views;
use crate::to_ref::RefGeneric;
use crate::to_ref::ToRef;
use crate::unwrap::build;

verus! {

/// The type that holds one array field in the domain `D`.
pub type Field<D> = <D as Domain<IntArray>>::Repr;

/// The list of the eight fields of a [`SimulationState`] in the domain `D`.
pub type Fields<D> = HCons<
    Field<D>,
    HCons<
        Field<D>,
        HCons<
            Field<D>,
            HCons<Field<D>, HCons<Field<D>, HCons<Field<D>, HCons<Field<D>, HCons<Field<D>, HNil>>>>>,
        >,
    >,
>;

/// The state of a particle simulation, every field in the domain `D`.
///
/// Every quantity is held as a flat array of integers.
pub struct SimulationState<D: Domain<IntArray>> {
    pub positions: Field<D>,
    pub velocities: Field<D>,
    pub particle_types: Field<D>,
    pub is_active_mask: Field<D>,
    pub density_field: Field<D>,
    pub event_timestamps: Field<D>,
    pub connectivity_matrix: Field<D>,
    pub sensor_readings: Field<D>,
}

/// A simulation state that is still being put together: every field is
/// optional.
pub type PartialSimulationState = SimulationState<Partial>;

/// A simulation state whose fields are in shared ownership.
pub type SimulationStateArcs = SimulationState<Arcd>;

/// A simulation state whose fields are read-only views.
pub type SimulationStateView<'a> = SimulationState<crate::domain::View<'a>>;

impl<D: Domain<IntArray>> Generic for SimulationState<D> {
    type Repr = Fields<D>;

    open spec fn repr(self) -> Fields<D> {
        HCons {
            head: self.positions,
            tail: HCons {
                head: self.velocities,
                tail: HCons {
                    head: self.particle_types,
                    tail: HCons {
                        head: self.is_active_mask,
                        tail: HCons {
                            head: self.density_field,
                            tail: HCons {
                                head: self.event_timestamps,
                                tail: HCons {
                                    head: self.connectivity_matrix,
                                    tail: HCons { head: self.sensor_readings, tail: HNil },
                                },
                            },
                        },
                    },
                },
            },
        }
    }

    open spec fn from_repr(repr: Fields<D>) -> Self {
        SimulationState {
            positions: repr.head,
            velocities: repr.tail.head,
            particle_types: repr.tail.tail.head,
            is_active_mask: repr.tail.tail.tail.head,
            density_field: repr.tail.tail.tail.tail.head,
            event_timestamps: repr.tail.tail.tail.tail.tail.head,
            connectivity_matrix: repr.tail.tail.tail.tail.tail.tail.head,
            sensor_readings: repr.tail.tail.tail.tail.tail.tail.tail.head,
        }
    }

    proof fn lemma_from_into(self) {
    }

    proof fn lemma_into_from(repr: Fields<D>) {
        assert(repr.tail.tail.tail.tail.tail.tail.tail.tail == HNil);
    }

    fn into(self) -> (repr: Fields<D>) {
        HCons {
            head: self.positions,
            tail: HCons {
                head: self.velocities,
                tail: HCons {
                    head: self.particle_types,
                    tail: HCons {
                        head: self.is_active_mask,
                        tail: HCons {
                            head: self.density_field,
                            tail: HCons {
                                head: self.event_timestamps,
                                tail: HCons {
                                    head: self.connectivity_matrix,
                                    tail: HCons { head: self.sensor_readings, tail: HNil },
                                },
                            },
                        },
                    },
                },
            },
        }
    }

    fn from(repr: Fields<D>) -> (record: Self) {
        let HCons { head: positions, tail } = repr;
        let HCons { head: velocities, tail } = tail;
        let HCons { head: particle_types, tail } = tail;
        let HCons { head: is_active_mask, tail } = tail;
        let HCons { head: density_field, tail } = tail;
        let HCons { head: event_timestamps, tail } = tail;
        let HCons { head: connectivity_matrix, tail } = tail;
        let HCons { head: sensor_readings, tail: _ } = tail;
        SimulationState {
            positions,
            velocities,
            particle_types,
            is_active_mask,
            density_field,
            event_timestamps,
            connectivity_matrix,
            sensor_readings,
        }
    }
}

impl<'a, D: Domain<IntArray>> ToRef<'a> for SimulationState<D> where Field<D>: 'a {
    type Output = <Fields<D> as ToRef<'a>>::Output;

    open spec fn refs(&'a self) -> <Fields<D> as ToRef<'a>>::Output {
        self.repr().refs()
    }

    fn to_ref(&'a self) -> (out: <Fields<D> as ToRef<'a>>::Output) {
        HCons {
            head: &self.positions,
            tail: HCons {
                head: &self.velocities,
                tail: HCons {
                    head: &self.particle_types,
                    tail: HCons {
                        head: &self.is_active_mask,
                        tail: HCons {
                            head: &self.density_field,
                            tail: HCons {
                                head: &self.event_timestamps,
                                tail: HCons {
                                    head: &self.connectivity_matrix,
                                    tail: HCons { head: &self.sensor_readings, tail: HNil },
                                },
                            },
                        },
                    },
                },
            },
        }
    }
}

impl<'a, D: Domain<IntArray>> RefGeneric<'a> for SimulationState<D> where Field<D>: 'a {
    proof fn lemma_refs(&'a self) {
    }
}

impl ArrayFields for SimulationState<Owned> {
    type Partial = SimulationState<Partial>;

    type Arcs = SimulationState<Arcd>;

    type Views<'a> = SimulationState<crate::domain::View<'a>>;

    /// Builds the state from a partial one: every field of the result is
    /// what the field of that name held. A partial state with a missing
    /// field comes back unchanged.
    fn build(partial: SimulationState<Partial>) -> (res: Result<
        SimulationState<Owned>,
        SimulationState<Partial>,
    >)
        ensures
            match res {
                Ok(state) => {
                    &&& partial.positions == Some(state.positions)
                    &&& partial.velocities == Some(state.velocities)
                    &&& partial.particle_types == Some(state.particle_types)
                    &&& partial.is_active_mask == Some(state.is_active_mask)
                    &&& partial.density_field == Some(state.density_field)
                    &&& partial.event_timestamps == Some(state.event_timestamps)
                    &&& partial.connectivity_matrix == Some(state.connectivity_matrix)
                    &&& partial.sensor_readings == Some(state.sensor_readings)
                },
                Err(p) => {
                    &&& p == partial
                    &&& (partial.positions is None || partial.velocities is None
                        || partial.particle_types is None || partial.is_active_mask is None
                        || partial.density_field is None || partial.event_timestamps is None
                        || partial.connectivity_matrix is None || partial.sensor_readings is None)
                },
            },
    {
        build(partial)
    }

    /// Borrows the state as views: every field of the result shows the
    /// elements of the field of that name.
    fn views<'a>(&'a self) -> (v: SimulationState<crate::domain::View<'a>>) where
        Self: RefGeneric<'a>,

        ensures
            v.positions@ == self.positions@,
            v.velocities@ == self.velocities@,
            v.particle_types@ == self.particle_types@,
            v.is_active_mask@ == self.is_active_mask@,
            v.density_field@ == self.density_field@,
            v.event_timestamps@ == self.event_timestamps@,
            v.connectivity_matrix@ == self.connectivity_matrix@,
            v.sensor_readings@ == self.sensor_readings@,
    {
        views(self)
    }

    /// Moves the state into shared handles: every field of the result has
    /// the elements of the field of that name.
    fn arcs(self) -> (s: SimulationState<Arcd>)
        ensures
            s.positions@ == self.positions@,
            s.velocities@ == self.velocities@,
            s.particle_types@ == self.particle_types@,
            s.is_active_mask@ == self.is_active_mask@,
            s.density_field@ == self.density_field@,
            s.event_timestamps@ == self.event_timestamps@,
            s.connectivity_matrix@ == self.connectivity_matrix@,
            s.sensor_readings@ == self.sensor_readings@,
    {
        arcs(self)
    }
}

impl SimulationState<Partial> {
    /// Whether every field is populated. Every field is asked, and the
    /// verdicts are folded into one.
    pub fn all_fields_present(&self) -> (all: bool)
        ensures
            all == (self.positions is Some && self.velocities is Some && self.particle_types is Some
                && self.is_active_mask is Some && self.density_field is Some
                && self.event_timestamps is Some && self.connectivity_matrix is Some
                && self.sensor_readings is Some),
    {
        let refs = self.to_ref();
        proof {
            refs.lemma_fold_accepted();
        }
        let all = refs.all_satisfy(IsPresent);
        proof {
            refs.lemma_fold(all);
        }
        all
    }
}

} // verus!
