//! The estimation engine: prior/posterior state machine, predict and update
//! recurrences, and the deferred-finalization protocol.
//!
//! The filter keeps a prior estimate (always defined) and an optional
//! posterior estimate. `update` fuses one measurement into the running
//! posterior; `predict` finalizes the accumulated posterior (if any) and
//! propagates it one time step through the process model. The matrices are
//! opaque `nalgebra` values; the contracts pin down which stored values each
//! operation replaces, which it leaves alone, and how the two-state
//! prior/posterior machine moves.

use vstd::prelude::*;
use nalgebra::{ComplexField, SMatrix, Scalar, SimdValue};
use crate::algebra::{
    mat_add, mat_copy, mat_identity, mat_mul, mat_scale, mat_sub, mat_transpose, mat_try_inverse,
    mat_zeros, scalar_half,
};

verus! {

/// Error reported by an operation that fails recoverably, leaving the
/// filter unchanged.
#[derive(Clone, Copy, Debug, PartialEq, Eq, Structural)]
pub enum KalmanError {
    /// The innovation covariance `S = C*P*C^T + R` is not invertible, so no
    /// gain can be computed and the measurement cannot be fused.
    SingularInnovationCovariance,
}

/// A state vector paired with its covariance matrix.
#[verifier::reject_recursive_types(N)]
#[verifier::reject_recursive_types(F)]
struct VecMat<const N: usize, F> {
    x: SMatrix<F, N, 1>,
    P: SMatrix<F, N, N>,
}

/// Linear state-space Kalman filter over `nalgebra` fixed-size matrices.
///
/// `Nx` is the state dimension, `Nu` the control dimension, and `F` the
/// scalar field type; the measurement dimension is chosen per `update` call.
/// The posterior estimate is one optional state/covariance pair, so the
/// malformed combination of a posterior state without its covariance (or the
/// other way round) cannot be represented at all.
#[verifier::reject_recursive_types(Nx)]
#[verifier::reject_recursive_types(Nu)]
#[verifier::reject_recursive_types(F)]
pub struct KalmanFilter<const Nx: usize, const Nu: usize, F> {
    A: SMatrix<F, Nx, Nx>,
    B: Option<SMatrix<F, Nx, Nu>>,
    Q: SMatrix<F, Nx, Nx>,
    prio: VecMat<Nx, F>,
    post: Option<VecMat<Nx, F>>,
    last_u: Option<SMatrix<F, Nu, 1>>,
    fused: Ghost<nat>,
}

impl<const Nx: usize, const Nu: usize, F: Scalar + SimdValue + ComplexField + Copy> KalmanFilter<Nx, Nu, F> {
    /// The state transition matrix `A`.
    pub closed spec fn transition(&self) -> SMatrix<F, Nx, Nx> {
        self.A
    }

    /// The control-input matrix `B`; `None` means zero control coupling.
    pub closed spec fn control(&self) -> Option<SMatrix<F, Nx, Nu>> {
        self.B
    }

    /// The process noise covariance matrix `Q`.
    pub closed spec fn noise(&self) -> SMatrix<F, Nx, Nx> {
        self.Q
    }

    /// The prior (pre-measurement) state vector.
    pub closed spec fn prior_state(&self) -> SMatrix<F, Nx, 1> {
        self.prio.x
    }

    /// The prior (pre-measurement) covariance matrix.
    pub closed spec fn prior_covariance(&self) -> SMatrix<F, Nx, Nx> {
        self.prio.P
    }

    /// Whether a posterior estimate is currently defined.
    pub closed spec fn has_posterior(&self) -> bool {
        self.post is Some
    }

    /// The posterior state vector; meaningful only while a posterior is
    /// defined.
    pub closed spec fn posterior_state(&self) -> SMatrix<F, Nx, 1> {
        match self.post {
            Some(post) => post.x,
            None => vstd::pervasive::arbitrary(),
        }
    }

    /// The posterior covariance matrix; meaningful only while a posterior is
    /// defined.
    pub closed spec fn posterior_covariance(&self) -> SMatrix<F, Nx, Nx> {
        match self.post {
            Some(post) => post.P,
            None => vstd::pervasive::arbitrary(),
        }
    }

    /// The control input remembered by the retroactive control-input
    /// protocol; `None` means no control contribution is currently applied.
    pub closed spec fn remembered_input(&self) -> Option<SMatrix<F, Nu, 1>> {
        self.last_u
    }

    /// How many measurements have been fused since the most recent predict
    /// (or since construction).
    pub closed spec fn updates_since_predict(&self) -> nat {
        self.fused@
    }

    /// Posterior-definedness invariant: the posterior estimate is defined
    /// exactly when at least one measurement has been fused since the most
    /// recent predict (or since construction).
    pub open spec fn wf(&self) -> bool {
        self.has_posterior() <==> self.updates_since_predict() > 0
    }

    /// Both filters hold the same process model (`A`, `B`, `Q`).
    pub open spec fn same_model(&self, other: &Self) -> bool {
        &&& self.transition() == other.transition()
        &&& self.control() == other.control()
        &&& self.noise() == other.noise()
    }

    /// Both filters hold the same prior and the same (possibly undefined)
    /// posterior estimate.
    pub open spec fn same_estimate(&self, other: &Self) -> bool {
        &&& self.prior_state() == other.prior_state()
        &&& self.prior_covariance() == other.prior_covariance()
        &&& self.same_posterior(other)
        &&& self.updates_since_predict() == other.updates_since_predict()
    }

    /// Both filters hold the same (possibly undefined) posterior estimate.
    pub open spec fn same_posterior(&self, other: &Self) -> bool {
        &&& self.has_posterior() == other.has_posterior()
        &&& self.has_posterior() ==> {
            &&& self.posterior_state() == other.posterior_state()
            &&& self.posterior_covariance() == other.posterior_covariance()
        }
    }

    /// Build a filter from the process model and the initial estimate: the
    /// prior is `(x_init, P_init)` and no posterior is defined. An absent
    /// control matrix means zero control coupling.
    pub fn new(
        A: SMatrix<F, Nx, Nx>,
        B: Option<SMatrix<F, Nx, Nu>>,
        Q: SMatrix<F, Nx, Nx>,
        x_init: SMatrix<F, Nx, 1>,
        P_init: SMatrix<F, Nx, Nx>,
    ) -> (r: Self)
        ensures
            r.wf(),
            r.transition() == A,
            r.control() == B,
            r.noise() == Q,
            r.prior_state() == x_init,
            r.prior_covariance() == P_init,
            !r.has_posterior(),
            r.remembered_input() is None,
            r.updates_since_predict() == 0,
    {
        KalmanFilter {
            A,
            B,
            Q,
            prio: VecMat { x: x_init, P: P_init },
            post: None,
            last_u: None,
            fused: Ghost(0),
        }
    }

    /// Replace the state transition matrix; the current estimate is not
    /// touched.
    pub fn set_A(&mut self, new_A: SMatrix<F, Nx, Nx>)
        ensures
            final(self).transition() == new_A,
            final(self).control() == old(self).control(),
            final(self).noise() == old(self).noise(),
            final(self).same_estimate(old(self)),
            final(self).remembered_input() == old(self).remembered_input(),
    {
        self.A = new_A;
    }

    /// Replace the control-input matrix; `None` means zero control coupling.
    /// The current estimate is not touched.
    pub fn set_B(&mut self, new_B: Option<SMatrix<F, Nx, Nu>>)
        ensures
            final(self).control() == new_B,
            final(self).transition() == old(self).transition(),
            final(self).noise() == old(self).noise(),
            final(self).same_estimate(old(self)),
            final(self).remembered_input() == old(self).remembered_input(),
    {
        self.B = new_B;
    }

    /// Advance one time step with zero control input; equivalent to
    /// [`Self::predict_with_input`] with the zero vector.
    pub fn predict(&mut self)
        requires
            old(self).wf(),
        ensures
            final(self).wf(),
            !final(self).has_posterior(),
            final(self).updates_since_predict() == 0,
            final(self).same_model(old(self)),
            final(self).remembered_input() == old(self).remembered_input(),
    {
        let u: SMatrix<F, Nu, 1> = mat_zeros();
        self.predict_with_input(u)
    }

    /// Advance one time step. With no posterior pending this propagates the
    /// prior directly: `x <- A*x + B*u`, `P <- A*P*A^T + Q`. With a posterior
    /// pending, the deferred updates are finalized first: the posterior
    /// covariance is combined with the still-current prior covariance
    /// (`P_post <- P_post * P_prio`), symmetrized as the mean with its own
    /// transpose, and the propagation starts from the posterior instead; the
    /// posterior is then cleared.
    pub fn predict_with_input(&mut self, u: SMatrix<F, Nu, 1>)
        requires
            old(self).wf(),
        ensures
            final(self).wf(),
            !final(self).has_posterior(),
            final(self).updates_since_predict() == 0,
            final(self).same_model(old(self)),
            final(self).remembered_input() == old(self).remembered_input(),
    {
        match &self.post {
            // Simple prediction, no new observations.
            None => {
                let ax = mat_mul(&self.A, &self.prio.x);
                let new_x = match &self.B {
                    Some(b) => {
                        let bu = mat_mul(b, &u);
                        mat_add(&ax, &bu)
                    },
                    None => ax,
                };
                let ap = mat_mul(&self.A, &self.prio.P);
                let at = mat_transpose(&self.A);
                let apat = mat_mul(&ap, &at);
                let new_P = mat_add(&apat, &self.Q);
                self.prio.x = new_x;
                self.prio.P = new_P;
            },
            // Prediction based on new observations: finalize the deferred
            // posterior covariance, symmetrize it, and propagate from the
            // posterior.
            Some(post) => {
                let pp = mat_mul(&post.P, &self.prio.P);
                let ppt = mat_transpose(&pp);
                let psum = mat_add(&pp, &ppt);
                let half: F = scalar_half();
                let psym = mat_scale(&psum, half);
                let ax = mat_mul(&self.A, &post.x);
                let new_x = match &self.B {
                    Some(b) => {
                        let bu = mat_mul(b, &u);
                        mat_add(&ax, &bu)
                    },
                    None => ax,
                };
                let ap = mat_mul(&self.A, &psym);
                let at = mat_transpose(&self.A);
                let apat = mat_mul(&ap, &at);
                let new_P = mat_add(&apat, &self.Q);
                self.prio.x = new_x;
                self.prio.P = new_P;
                self.post = None;
            },
        }
        self.fused = Ghost(0);
    }

    /// Retroactively replace the control contribution held in the prior
    /// state: the contribution `B*u` of the previously remembered input is
    /// subtracted, the contribution of the new input is added, and the new
    /// input is remembered for subsequent removal. Passing `None` clears the
    /// remembered contribution. With an absent control matrix the coupling
    /// is zero and only the remembered input changes.
    pub fn control_input(&mut self, u: Option<SMatrix<F, Nu, 1>>)
        requires
            old(self).wf(),
        ensures
            final(self).wf(),
            final(self).remembered_input() == u,
            final(self).same_model(old(self)),
            old(self).control() is None
                ==> final(self).prior_state() == old(self).prior_state(),
            old(self).remembered_input() is None && u is None
                ==> final(self).prior_state() == old(self).prior_state(),
            final(self).prior_covariance() == old(self).prior_covariance(),
            final(self).same_posterior(old(self)),
            final(self).updates_since_predict() == old(self).updates_since_predict(),
    {
        if let Some(b) = &self.B {
            if let Some(prev) = &self.last_u {
                let bu = mat_mul(b, prev);
                self.prio.x = mat_sub(&self.prio.x, &bu);
            }
            if let Some(next) = &u {
                let bu = mat_mul(b, next);
                self.prio.x = mat_add(&self.prio.x, &bu);
            }
        }
        self.last_u = u;
    }

    /// Fuse one measurement into the running estimate, given the observation
    /// matrix `C`, the measurement noise covariance `R`, and the observed
    /// vector `y`. The innovation is weighted by the gain
    /// `K = P*C^T*(C*P*C^T + R)^-1`; the first update since the last predict
    /// sets the posterior to `(x + K*(y - C*x), I - K*C)`, and every further
    /// update corrects the existing posterior in place
    /// (`x_post + K*(y - C*x)`, `P_post - K*C`), both against the unchanged
    /// prior. When the innovation covariance is singular the filter is left
    /// exactly as it was and the error says so.
    pub fn update<const Ny: usize>(
        &mut self,
        C: &SMatrix<F, Ny, Nx>,
        R: &SMatrix<F, Ny, Ny>,
        y: &SMatrix<F, Ny, 1>,
    ) -> (r: Result<(), KalmanError>)
        requires
            old(self).wf(),
        ensures
            final(self).wf(),
            final(self).same_model(old(self)),
            final(self).prior_state() == old(self).prior_state(),
            final(self).prior_covariance() == old(self).prior_covariance(),
            final(self).remembered_input() == old(self).remembered_input(),
            r is Ok ==> final(self).has_posterior(),
            r is Ok ==> final(self).updates_since_predict()
                == old(self).updates_since_predict() + 1,
            r is Err ==> *final(self) == *old(self)
                && r == Err::<(), KalmanError>(KalmanError::SingularInnovationCovariance),
    {
        // Measurement prediction residual.
        let cx = mat_mul(C, &self.prio.x);
        let y_res = mat_sub(y, &cx);

        // Innovation (pre-fit residual) covariance.
        let cp = mat_mul(C, &self.prio.P);
        let ct = mat_transpose(C);
        let cpct = mat_mul(&cp, &ct);
        let s = mat_add(&cpct, R);

        // Optimal Kalman gain; a singular innovation covariance leaves the
        // filter untouched.
        let s_inv = match mat_try_inverse(&s) {
            Some(m) => m,
            None => {
                return Err(KalmanError::SingularInnovationCovariance);
            },
        };
        let pct = mat_mul(&self.prio.P, &ct);
        let gain = mat_mul(&pct, &s_inv);
        let ky = mat_mul(&gain, &y_res);
        let kc = mat_mul(&gain, C);

        // Updated (a posteriori) estimate.
        let new_post = match &self.post {
            Some(post) => VecMat { x: mat_add(&post.x, &ky), P: mat_sub(&post.P, &kc) },
            None => {
                let id: SMatrix<F, Nx, Nx> = mat_identity();
                VecMat { x: mat_add(&self.prio.x, &ky), P: mat_sub(&id, &kc) }
            },
        };
        self.post = Some(new_post);
        self.fused = Ghost(self.fused@ + 1);
        Ok(())
    }

    /// The current best state estimate: the posterior state vector if a
    /// posterior is defined, otherwise the prior state vector. Read-only.
    pub fn get_state(&self) -> (r: SMatrix<F, Nx, 1>)
        ensures
            self.has_posterior() ==> r == self.posterior_state(),
            !self.has_posterior() ==> r == self.prior_state(),
    {
        match &self.post {
            Some(post) => mat_copy(&post.x),
            None => mat_copy(&self.prio.x),
        }
    }

    /// The covariance of the current best estimate: the posterior covariance
    /// if a posterior is defined, otherwise the prior covariance. Read-only.
    pub fn get_covariance(&self) -> (r: SMatrix<F, Nx, Nx>)
        ensures
            self.has_posterior() ==> r == self.posterior_covariance(),
            !self.has_posterior() ==> r == self.prior_covariance(),
    {
        match &self.post {
            Some(post) => mat_copy(&post.P),
            None => mat_copy(&self.prio.P),
        }
    }
}

/// Posterior-definedness law: in any well-formed filter the posterior
/// estimate is defined exactly when at least one measurement has been fused
/// since the most recent predict (or since construction). Construction and
/// every operation above establish and preserve `wf`, so every reachable
/// filter satisfies this.
pub proof fn lemma_posterior_definedness<const Nx: usize, const Nu: usize, F: Scalar + SimdValue + ComplexField + Copy>(
    f: &KalmanFilter<Nx, Nu, F>,
)
    requires
        f.wf(),
    ensures
        f.has_posterior() <==> f.updates_since_predict() > 0,
{
}

} // verus!
