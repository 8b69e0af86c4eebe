//! The relayer height-wait adapter: it couples block production to
//! data-availability synchronization.
//!
//! A deployment either has a relayer — production waits until the
//! relayer's finalized DA height reaches the requested height, and a
//! resolved wait never certifies less than was asked — or has none, in
//! which case the DA layer is assumed frozen at height zero: a request
//! for height zero resolves immediately and any other request is a
//! configuration mismatch, rejected rather than silently wrong.
//!
//! The cooperative suspension of a live deployment is driven from
//! outside the core: a surrounding task re-polls [`MaybeRelayerAdapter::wait_step`]
//! with a refreshed relayer view until the wait stops being pending.

use vstd::prelude::*;

use crate::types::{DaBlockHeight, ProducerError};

verus! {

/// The relayer capability a deployment was constructed with: either a
/// synchronized external relayer, or the frozen-at-zero stand-in.
#[derive(Clone, Copy, Debug, PartialEq, Eq, Structural)]
pub enum MaybeRelayerAdapter {
    /// A relayer is configured; the field is the DA height it has
    /// finalized in the view this adapter holds.
    Enabled { finalized_da_height: DaBlockHeight },
    /// No relayer: the DA layer is frozen at height zero.
    Disabled,
}

/// One poll of the cooperative wait.
#[derive(Clone, Copy, Debug, PartialEq, Eq, Structural)]
pub enum WaitOutcome {
    /// The wait is resolved: `da_height` is certified, never below the
    /// requested height.
    Ready { da_height: DaBlockHeight },
    /// A relayer is configured but has not reached the requested height
    /// yet; poll again once its view advances.
    Pending,
    /// No relayer is configured and a height above zero was requested;
    /// waiting longer cannot help.
    Rejected,
}

impl MaybeRelayerAdapter {
    /// Whether a wait for the given height resolves against this view.
    pub open spec fn wait_succeeds(self, height: DaBlockHeight) -> bool {
        match self {
            MaybeRelayerAdapter::Enabled { finalized_da_height } => finalized_da_height >= height,
            MaybeRelayerAdapter::Disabled => height == 0,
        }
    }

    /// The DA height a resolved wait certifies.
    pub open spec fn resolved_da_height(self) -> DaBlockHeight {
        match self {
            MaybeRelayerAdapter::Enabled { finalized_da_height } => finalized_da_height,
            MaybeRelayerAdapter::Disabled => 0,
        }
    }

    /// One poll of the cooperative wait for the requested DA height:
    /// ready with a certified height (never below the request), pending
    /// while a configured relayer is still behind, or rejected outright
    /// when no relayer can ever certify a nonzero height.
    pub fn wait_step(&self, height: DaBlockHeight) -> (r: WaitOutcome)
        ensures
            self.wait_succeeds(height) <==> r == (WaitOutcome::Ready {
                da_height: self.resolved_da_height(),
            }),
            !self.wait_succeeds(height) && (self matches MaybeRelayerAdapter::Enabled { .. })
                ==> r == WaitOutcome::Pending,
            !self.wait_succeeds(height) && self == MaybeRelayerAdapter::Disabled ==> r
                == WaitOutcome::Rejected,
            r matches WaitOutcome::Ready { da_height } ==> da_height >= height,
    {
        match self {
            MaybeRelayerAdapter::Enabled { finalized_da_height } => {
                if *finalized_da_height >= height {
                    WaitOutcome::Ready { da_height: *finalized_da_height }
                } else {
                    WaitOutcome::Pending
                }
            },
            MaybeRelayerAdapter::Disabled => {
                if height == 0 {
                    WaitOutcome::Ready { da_height: 0 }
                } else {
                    WaitOutcome::Rejected
                }
            },
        }
    }

    /// Resolves the wait for the requested DA height against this view.
    /// With a relayer, certifies its finalized height — never less than
    /// was requested — or fails with a synchronization error while the
    /// relayer is behind this request.  Without one, height zero resolves
    /// to zero immediately and anything else is a configuration error.
    pub fn wait_for_at_least(&self, height: DaBlockHeight) -> (r: Result<
        DaBlockHeight,
        ProducerError,
    >)
        ensures
            self.wait_succeeds(height) ==> r == Ok::<DaBlockHeight, ProducerError>(
                self.resolved_da_height(),
            ),
            !self.wait_succeeds(height) && (self matches MaybeRelayerAdapter::Enabled {
                finalized_da_height,
            }) ==> r == Err::<DaBlockHeight, ProducerError>(
                ProducerError::SynchronizationError {
                    required: height,
                    finalized: self.resolved_da_height(),
                },
            ),
            !self.wait_succeeds(height) && self == MaybeRelayerAdapter::Disabled ==> r == Err::<
                DaBlockHeight,
                ProducerError,
            >(ProducerError::ConfigurationError),
            r matches Ok(h) ==> h >= height && h == self.resolved_da_height(),
    {
        match self {
            MaybeRelayerAdapter::Enabled { finalized_da_height } => {
                if *finalized_da_height >= height {
                    Ok(*finalized_da_height)
                } else {
                    Err(ProducerError::SynchronizationError {
                        required: height,
                        finalized: *finalized_da_height,
                    })
                }
            },
            MaybeRelayerAdapter::Disabled => {
                if height == 0 {
                    Ok(0)
                } else {
                    Err(ProducerError::ConfigurationError)
                }
            },
        }
    }
}

} // verus!
