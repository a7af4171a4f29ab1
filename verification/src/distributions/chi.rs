//! The chi distribution: its generators and its degrees of freedom.

use vstd::prelude::*;
use crate::engine::{generate_random_state, initial_state, is_zero};
use crate::seeds::{adjust_seeds, adjusted};

verus! {

/// What a chi distribution is made of.
pub struct ChiView {
    /// The states of the four generators: three for the gamma sampler, one
    /// for the uniform deviate that one degree of freedom needs.
    pub states: Seq<Seq<u32>>,
    /// The degrees of freedom.
    pub degree_of_freedom: nat,
}

/// The chi distribution with a whole number of degrees of freedom.
pub struct Chi {
    /// The generator of the uniform deviates of the gamma sampler.
    pub xyzuv_u_gamma: [u32; 5],
    /// The first generator of the normal deviates of the gamma sampler.
    pub xyzuv_n_0_gamma: [u32; 5],
    /// The second generator of the normal deviates of the gamma sampler.
    pub xyzuv_n_1_gamma: [u32; 5],
    /// The generator of the uniform deviate for one degree of freedom.
    pub xyzuv_uniform: [u32; 5],
    degree_of_freedom: u64,
}

impl View for Chi {
    type V = ChiView;

    closed spec fn view(&self) -> ChiView {
        ChiView {
            states: seq![
                self.xyzuv_u_gamma@,
                self.xyzuv_n_0_gamma@,
                self.xyzuv_n_1_gamma@,
                self.xyzuv_uniform@,
            ],
            degree_of_freedom: self.degree_of_freedom as nat,
        }
    }
}

/// What is said when degrees of freedom are refused.
pub open spec fn refusal() -> Seq<char> {
    "自由度は自然数である必要があります。確率変数のパラメータは前回の設定を維持します。"@
}

impl Chi {
    /// Whether the distribution is one that the constructor and the setter
    /// can have left: four generators, none of them stuck, and at least one
    /// degree of freedom.
    pub open spec fn wf(&self) -> bool {
        &&& self@.states.len() == 4
        &&& forall|k: int| 0 <= k < 4 ==> !is_zero(#[trigger] self@.states[k])
        &&& self@.degree_of_freedom >= 1
    }

    /// The distribution with one degree of freedom, its generators seeded
    /// with the adjusted seeds.
    pub fn new(seeds: [u32; 4_usize]) -> (r: Self)
        ensures
            r.wf(),
            r@.degree_of_freedom == 1,
            forall|k: int|
                0 <= k < 4 ==> #[trigger] r@.states[k] == initial_state(adjusted(seeds@)[k]),
    {
        let adjusted_seeds = adjust_seeds(seeds);
        Self {
            xyzuv_u_gamma: generate_random_state(adjusted_seeds[0]),
            xyzuv_n_0_gamma: generate_random_state(adjusted_seeds[1]),
            xyzuv_n_1_gamma: generate_random_state(adjusted_seeds[2]),
            xyzuv_uniform: generate_random_state(adjusted_seeds[3]),
            degree_of_freedom: 1_u64,
        }
    }

    /// The degrees of freedom.
    pub fn degree_of_freedom(&self) -> (r: u64)
        ensures
            r == self@.degree_of_freedom,
    {
        self.degree_of_freedom
    }

    /// Sets the degrees of freedom, which must be at least one; otherwise
    /// nothing changes.
    pub fn try_set_params(&mut self, degree_of_freedom: u64) -> (r: Result<u64, &'static str>)
        ensures
            degree_of_freedom >= 1 ==> r == Ok::<u64, &'static str>(degree_of_freedom)
                && final(self)@ == (ChiView {
                degree_of_freedom: degree_of_freedom as nat,
                ..old(self)@
            }),
            degree_of_freedom < 1 ==> r is Err && r->Err_0@ == refusal() && *final(self) == *old(
                self,
            ),
            old(self).wf() ==> final(self).wf(),
    {
        if degree_of_freedom < 1_u64 {
            Err("自由度は自然数である必要があります。確率変数のパラメータは前回の設定を維持します。")
        } else {
            self.degree_of_freedom = degree_of_freedom;
            Ok(degree_of_freedom)
        }
    }
}

} // verus!
