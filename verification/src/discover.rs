//! One discovery pass over every registered integration.
//!
//! The discoverer gates each integration on its preflight check, hands the
//! enabled ones to the surrounding runtime to probe concurrently, and
//! flattens the per-integration contributions into one aggregate, keeping
//! integrations in registration order and each integration's lights in its
//! own enumeration order. A total failure of one integration becomes an
//! empty contribution and never disturbs another's.
use vstd::prelude::*;

use crate::config::CuteLightsConfig;
use crate::error::LightError;
use crate::integrations::Integration;
use crate::lights::Light;

verus! {

/// The vendors a discovery pass can draw from.
#[derive(Debug, Clone, Copy, PartialEq, Eq, Structural)]
pub enum Vendor {
    Govee,
    OpenRgb,
}

/// Fault isolation at the task boundary: a total discovery failure of one
/// integration becomes an empty contribution, never an error to the
/// aggregate caller.
pub fn absorb_failure(outcome: Result<Vec<Light>, LightError>) -> (r: Vec<Light>)
    ensures
        (match outcome {
            Ok(lights) => r == lights,
            Err(_) => r@ == Seq::<Light>::empty(),
        }),
{
    match outcome {
        Ok(lights) => lights,
        Err(_) => Vec::new(),
    }
}

/// The aggregate order: integrations first to last, each integration's
/// lights in its own order, no global reordering.
pub open spec fn flatten_contributions(s: Seq<Seq<Light>>) -> Seq<Light>
    decreases s.len(),
{
    if s.len() == 0 {
        Seq::empty()
    } else {
        s[0] + flatten_contributions(s.drop_first())
    }
}

/// Fault-isolation law: an integration that contributes nothing leaves
/// every other integration's lights exactly in place in the aggregate.
pub proof fn lemma_empty_contribution_isolated(s: Seq<Seq<Light>>, i: int)
    requires
        0 <= i < s.len(),
        s[i] == Seq::<Light>::empty(),
    ensures
        flatten_contributions(s) == flatten_contributions(s.remove(i)),
    decreases i,
{
    if i == 0 {
        assert(s.remove(0) =~= s.drop_first());
        assert(s[0] + flatten_contributions(s.drop_first()) =~= flatten_contributions(
            s.drop_first(),
        ));
    } else {
        lemma_empty_contribution_isolated(s.drop_first(), i - 1);
        assert(s.remove(i).drop_first() =~= s.drop_first().remove(i - 1));
        assert(s.remove(i)[0] == s[0]);
    }
}

/// Preflight gating law: an integration whose preflight fails joins no
/// plan — whatever was registered before stays exactly as it was, and in
/// particular a vendor absent from the plan stays absent, so nothing runs
/// and nothing is contributed for it.
pub proof fn lemma_preflight_gate(plan: Seq<Vendor>, vendor: Vendor)
    ensures
        Discoverer::spec_register(plan, false, vendor) == plan,
        !plan.contains(vendor) ==> !Discoverer::spec_register(plan, false, vendor).contains(
            vendor,
        ),
{
}

/// Orchestrates one discovery pass: the read-only configuration snapshot,
/// and the integrations whose preflight passed, in registration order.
pub struct Discoverer {
    pub config: CuteLightsConfig,
    pub selected: Vec<Vendor>,
}

impl Discoverer {
    /// A fresh pass over the given configuration snapshot, with nothing
    /// registered yet.
    pub fn new(config: CuteLightsConfig) -> (d: Discoverer)
        ensures
            d.config == config,
            d.selected@ == Seq::<Vendor>::empty(),
    {
        Discoverer { config, selected: Vec::new() }
    }

    /// The plan after gating one integration: it joins exactly when its
    /// preflight passes.
    pub open spec fn spec_register(plan: Seq<Vendor>, enabled: bool, vendor: Vendor) -> Seq<
        Vendor,
    > {
        if enabled {
            plan.push(vendor)
        } else {
            plan
        }
    }

    /// Gate one integration: it joins the pass exactly when its preflight
    /// passes. A vendor whose preflight fails is not registered, so no
    /// discovery task runs, no network traffic happens and nothing is
    /// contributed for it.
    pub fn register<I: Integration>(&mut self)
        ensures
            final(self).config == old(self).config,
            final(self).selected@ == Self::spec_register(
                old(self).selected@,
                I::spec_enabled(old(self).config),
                I::spec_vendor(),
            ),
    {
        if I::preflight(&self.config) {
            self.selected.push(I::vendor());
        }
    }

    /// Join the pass: every registered integration has delivered its
    /// error-absorbed contribution, one per registration, and the
    /// aggregate is their flattening in registration order.
    pub fn run(self, contributions: Vec<Vec<Light>>) -> (r: Vec<Light>)
        requires
            contributions@.len() == self.selected@.len(),
        ensures
            r@ == flatten_contributions(contributions@.map_values(|v: Vec<Light>| v@)),
    {
        let ghost orig = contributions@.map_values(|v: Vec<Light>| v@);
        let mut contributions = contributions;
        let mut out: Vec<Light> = Vec::new();
        while contributions.len() > 0
            invariant
                flatten_contributions(orig) == out@ + flatten_contributions(
                    contributions@.map_values(|v: Vec<Light>| v@),
                ),
            decreases contributions@.len(),
        {
            let ghost before = contributions@.map_values(|v: Vec<Light>| v@);
            let mut first = contributions.remove(0);
            proof {
                assert(contributions@.map_values(|v: Vec<Light>| v@) =~= before.drop_first());
                assert(first@ == before[0]);
            }
            let ghost done = out@;
            while first.len() > 0
                invariant
                    done + before[0] == out@ + first@,
                decreases first@.len(),
            {
                let x = first.remove(0);
                out.push(x);
                proof {
                    assert(out@ + first@ =~= done + before[0]);
                }
            }
            proof {
                assert(out@ =~= done + before[0]);
            }
        }
        proof {
            assert(flatten_contributions(orig) =~= out@);
        }
        out
    }
}

} // verus!
