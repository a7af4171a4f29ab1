//! Student's t distribution: its generators and its degrees of freedom.

use vstd::prelude::*;
use crate::engine::{generate_random_state, initial_state, is_zero};
use crate::seeds::{adjust_seeds, adjusted};

verus! {

/// What a t distribution is made of.
pub struct TDistributionView {
    /// The states of the five generators: two for the normal sampler, three
    /// for the gamma sampler.
    pub states: Seq<Seq<u32>>,
    /// The degrees of freedom.
    pub degree_of_freedom: nat,
}

/// How a sample is made, which depends on the degrees of freedom.
#[derive(Clone, Copy, Debug, PartialEq, Eq, Structural)]
pub enum TMethod {
    /// One degree of freedom: a standard Cauchy deviate.
    Cauchy,
    /// Two degrees of freedom: a normal deviate over the root of an
    /// exponential one.
    NormalOverExponential,
    /// More: a normal deviate over the root of a gamma deviate whose shape
    /// is half the degrees of freedom.
    NormalOverGamma,
}

/// Student's t distribution with a whole number of degrees of freedom.
pub struct TDistribution {
    /// The first generator of the normal sampler.
    pub xyzuv_n_0: [u32; 5],
    /// The second generator of the normal sampler.
    pub xyzuv_n_1: [u32; 5],
    /// The generator of the uniform deviates of the gamma sampler.
    pub xyzuv_u_gamma: [u32; 5],
    /// The first generator of the normal deviates of the gamma sampler.
    pub xyzuv_n_0_gamma: [u32; 5],
    /// The second generator of the normal deviates of the gamma sampler.
    pub xyzuv_n_1_gamma: [u32; 5],
    degree_of_freedom: u64,
}

impl View for TDistribution {
    type V = TDistributionView;

    closed spec fn view(&self) -> TDistributionView {
        TDistributionView {
            states: seq![
                self.xyzuv_n_0@,
                self.xyzuv_n_1@,
                self.xyzuv_u_gamma@,
                self.xyzuv_n_0_gamma@,
                self.xyzuv_n_1_gamma@,
            ],
            degree_of_freedom: self.degree_of_freedom as nat,
        }
    }
}

/// What is said when degrees of freedom are refused.
pub open spec fn refusal() -> Seq<char> {
    "The degree of freedom must be a natural number. The parameter remains unchanged."@
}

/// The method for `degree_of_freedom` degrees of freedom.
pub open spec fn method_for(degree_of_freedom: nat) -> TMethod {
    if degree_of_freedom == 1 {
        TMethod::Cauchy
    } else if degree_of_freedom == 2 {
        TMethod::NormalOverExponential
    } else {
        TMethod::NormalOverGamma
    }
}

impl TDistribution {
    /// Whether the distribution is one that the constructor and the setter
    /// can have left: five generators, none of them stuck, and at least one
    /// degree of freedom.
    pub open spec fn wf(&self) -> bool {
        &&& self@.states.len() == 5
        &&& forall|k: int| 0 <= k < 5 ==> !is_zero(#[trigger] self@.states[k])
        &&& self@.degree_of_freedom >= 1
    }

    /// The distribution with one degree of freedom, its generators seeded
    /// with the adjusted seeds.
    pub fn new(seeds: [u32; 5_usize]) -> (r: Self)
        ensures
            r.wf(),
            r@.degree_of_freedom == 1,
            forall|k: int|
                0 <= k < 5 ==> #[trigger] r@.states[k] == initial_state(adjusted(seeds@)[k]),
    {
        let adjusted_seeds = adjust_seeds(seeds);
        Self {
            xyzuv_n_0: generate_random_state(adjusted_seeds[0]),
            xyzuv_n_1: generate_random_state(adjusted_seeds[1]),
            xyzuv_u_gamma: generate_random_state(adjusted_seeds[2]),
            xyzuv_n_0_gamma: generate_random_state(adjusted_seeds[3]),
            xyzuv_n_1_gamma: generate_random_state(adjusted_seeds[4]),
            degree_of_freedom: 1_u64,
        }
    }

    /// The degrees of freedom.
    pub fn degree_of_freedom(&self) -> (r: u64)
        ensures
            r == self@.degree_of_freedom,
    {
        self.degree_of_freedom
    }

    /// How a sample is made with the present degrees of freedom.
    pub fn method(&self) -> (r: TMethod)
        ensures
            r == method_for(self@.degree_of_freedom),
    {
        if self.degree_of_freedom == 1_u64 {
            TMethod::Cauchy
        } else if self.degree_of_freedom == 2_u64 {
            TMethod::NormalOverExponential
        } else {
            TMethod::NormalOverGamma
        }
    }

    /// Sets the degrees of freedom, which must be at least one; otherwise
    /// nothing changes.
    pub fn try_set_params(&mut self, degree_of_freedom: u64) -> (r: Result<u64, &'static str>)
        ensures
            degree_of_freedom >= 1 ==> r == Ok::<u64, &'static str>(degree_of_freedom)
                && final(self)@ == (TDistributionView {
                degree_of_freedom: degree_of_freedom as nat,
                ..old(self)@
            }),
            degree_of_freedom < 1 ==> r is Err && r->Err_0@ == refusal() && *final(self) == *old(
                self,
            ),
            old(self).wf() ==> final(self).wf(),
    {
        if degree_of_freedom < 1_u64 {
            Err("The degree of freedom must be a natural number. The parameter remains unchanged.")
        } else {
            self.degree_of_freedom = degree_of_freedom;
            Ok(degree_of_freedom)
        }
    }
}

} // verus!
