use block_producer::relayer::{MaybeRelayerAdapter, WaitOutcome};
use block_producer::types::ProducerError;

#[test]
fn disabled_relayer_height_zero_returns_zero_immediately() {
    let relayer = MaybeRelayerAdapter::Disabled;
    assert_eq!(relayer.wait_for_at_least(0), Ok(0));
    assert_eq!(relayer.wait_step(0), WaitOutcome::Ready { da_height: 0 });
}

#[test]
fn disabled_relayer_nonzero_height_is_configuration_error() {
    let relayer = MaybeRelayerAdapter::Disabled;
    let err = relayer.wait_for_at_least(5).unwrap_err();
    assert_eq!(err, ProducerError::ConfigurationError);
    assert!(err.message().contains("above zero without a relayer"));
    assert_eq!(relayer.wait_step(5), WaitOutcome::Rejected);
}

#[test]
fn enabled_relayer_never_certifies_less_than_requested() {
    let relayer = MaybeRelayerAdapter::Enabled { finalized_da_height: 10 };
    let certified = relayer.wait_for_at_least(7).unwrap();
    assert!(certified >= 7);
    assert_eq!(certified, 10);
    assert_eq!(relayer.wait_step(7), WaitOutcome::Ready { da_height: 10 });
}

#[test]
fn enabled_relayer_behind_request_is_pending_or_synchronization_error() {
    let relayer = MaybeRelayerAdapter::Enabled { finalized_da_height: 3 };
    assert_eq!(relayer.wait_step(7), WaitOutcome::Pending);
    assert_eq!(
        relayer.wait_for_at_least(7),
        Err(ProducerError::SynchronizationError { required: 7, finalized: 3 })
    );
}

#[test]
fn enabled_relayer_exactly_at_request_resolves() {
    let relayer = MaybeRelayerAdapter::Enabled { finalized_da_height: 7 };
    assert_eq!(relayer.wait_for_at_least(7), Ok(7));
}
