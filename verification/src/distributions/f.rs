//! The F distribution: its generators and its two degrees of freedom.

use vstd::prelude::*;
use crate::engine::{generate_random_state, initial_state, is_zero};
use crate::seeds::{adjust_seeds, adjusted};

verus! {

/// What an F distribution is made of.
pub struct FDistributionView {
    /// The states of the eight generators: for each of the two chi-square
    /// deviates three for the gamma sampler and one for the uniform deviate
    /// that one degree of freedom needs.
    pub states: Seq<Seq<u32>>,
    /// The degrees of freedom of the numerator.
    pub degree_of_freedom_1: nat,
    /// The degrees of freedom of the denominator.
    pub degree_of_freedom_2: nat,
}

/// The F distribution with whole numbers of degrees of freedom.
pub struct FDistribution {
    /// Numerator: the generator of the uniform deviates of the gamma sampler.
    pub xyzuv_u_gamma_1: [u32; 5],
    /// Numerator: the first generator of the normal deviates.
    pub xyzuv_n_0_gamma_1: [u32; 5],
    /// Numerator: the second generator of the normal deviates.
    pub xyzuv_n_1_gamma_1: [u32; 5],
    /// Numerator: the generator of the uniform deviate.
    pub xyzuv_uniform_1: [u32; 5],
    /// Denominator: the generator of the uniform deviates of the gamma
    /// sampler.
    pub xyzuv_u_gamma_2: [u32; 5],
    /// Denominator: the first generator of the normal deviates.
    pub xyzuv_n_0_gamma_2: [u32; 5],
    /// Denominator: the second generator of the normal deviates.
    pub xyzuv_n_1_gamma_2: [u32; 5],
    /// Denominator: the generator of the uniform deviate.
    pub xyzuv_uniform_2: [u32; 5],
    degree_of_freedom_1: u64,
    degree_of_freedom_2: u64,
}

impl View for FDistribution {
    type V = FDistributionView;

    closed spec fn view(&self) -> FDistributionView {
        FDistributionView {
            states: seq![
                self.xyzuv_u_gamma_1@,
                self.xyzuv_n_0_gamma_1@,
                self.xyzuv_n_1_gamma_1@,
                self.xyzuv_uniform_1@,
                self.xyzuv_u_gamma_2@,
                self.xyzuv_n_0_gamma_2@,
                self.xyzuv_n_1_gamma_2@,
                self.xyzuv_uniform_2@,
            ],
            degree_of_freedom_1: self.degree_of_freedom_1 as nat,
            degree_of_freedom_2: self.degree_of_freedom_2 as nat,
        }
    }
}

/// What is said when degrees of freedom are refused.
pub open spec fn refusal() -> Seq<char> {
    "Degrees of freedom must be natural numbers. The parameters will remain unchanged."@
}

impl FDistribution {
    /// Whether the distribution is one that the constructor and the setter
    /// can have left: eight generators, none of them stuck, and at least
    /// one degree of freedom on either side.
    pub open spec fn wf(&self) -> bool {
        &&& self@.states.len() == 8
        &&& forall|k: int| 0 <= k < 8 ==> !is_zero(#[trigger] self@.states[k])
        &&& self@.degree_of_freedom_1 >= 1
        &&& self@.degree_of_freedom_2 >= 1
    }

    /// The distribution with one degree of freedom on either side, its
    /// generators seeded with the adjusted seeds.
    pub fn new(seeds: [u32; 8_usize]) -> (r: Self)
        ensures
            r.wf(),
            r@.degree_of_freedom_1 == 1,
            r@.degree_of_freedom_2 == 1,
            forall|k: int|
                0 <= k < 8 ==> #[trigger] r@.states[k] == initial_state(adjusted(seeds@)[k]),
    {
        let adjusted_seeds = adjust_seeds(seeds);
        Self {
            xyzuv_u_gamma_1: generate_random_state(adjusted_seeds[0]),
            xyzuv_n_0_gamma_1: generate_random_state(adjusted_seeds[1]),
            xyzuv_n_1_gamma_1: generate_random_state(adjusted_seeds[2]),
            xyzuv_uniform_1: generate_random_state(adjusted_seeds[3]),
            degree_of_freedom_1: 1_u64,
            xyzuv_u_gamma_2: generate_random_state(adjusted_seeds[4]),
            xyzuv_n_0_gamma_2: generate_random_state(adjusted_seeds[5]),
            xyzuv_n_1_gamma_2: generate_random_state(adjusted_seeds[6]),
            xyzuv_uniform_2: generate_random_state(adjusted_seeds[7]),
            degree_of_freedom_2: 1_u64,
        }
    }

    /// The degrees of freedom of the numerator and of the denominator.
    pub fn degrees_of_freedom(&self) -> (r: (u64, u64))
        ensures
            r.0 == self@.degree_of_freedom_1,
            r.1 == self@.degree_of_freedom_2,
    {
        (self.degree_of_freedom_1, self.degree_of_freedom_2)
    }

    /// Sets the degrees of freedom, each of which must be at least one;
    /// otherwise nothing changes.
    pub fn try_set_params(&mut self, degree_of_freedom_1: u64, degree_of_freedom_2: u64) -> (r:
        Result<(u64, u64), &'static str>)
        ensures
            degree_of_freedom_1 >= 1 && degree_of_freedom_2 >= 1 ==> r == Ok::<
                (u64, u64),
                &'static str,
            >((degree_of_freedom_1, degree_of_freedom_2)) && final(self)@ == (FDistributionView {
                degree_of_freedom_1: degree_of_freedom_1 as nat,
                degree_of_freedom_2: degree_of_freedom_2 as nat,
                ..old(self)@
            }),
            degree_of_freedom_1 < 1 || degree_of_freedom_2 < 1 ==> r is Err && r->Err_0@
                == refusal() && *final(self) == *old(self),
            old(self).wf() ==> final(self).wf(),
    {
        if degree_of_freedom_1 < 1_u64 || degree_of_freedom_2 < 1_u64 {
            Err("Degrees of freedom must be natural numbers. The parameters will remain unchanged.")
        } else {
            self.degree_of_freedom_1 = degree_of_freedom_1;
            self.degree_of_freedom_2 = degree_of_freedom_2;
            Ok((degree_of_freedom_1, degree_of_freedom_2))
        }
    }
}

} // verus!
