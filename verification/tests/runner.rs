use ddns::dns::AddressFamily;
use ddns::exit_code::{ApiFailureKind, ErrorClass};
use ddns::interface::Ipv4Address;
use ddns::reconcile::{Op, OpRunner, RecordAddress};

fn three_ops() -> Vec<Op> {
    vec![
        Op::Update {
            family: AddressFamily::V4,
            record_id: String::from("r1"),
            content: RecordAddress::V4(Ipv4Address { bits: 1 }),
        },
        Op::Create {
            family: AddressFamily::V4,
            content: RecordAddress::V4(Ipv4Address { bits: 2 }),
        },
        Op::Delete { family: AddressFamily::V4, record_id: String::from("r3") },
    ]
}

#[test]
fn runner_offers_ops_in_order() {
    let mut runner = OpRunner::new(three_ops());
    assert_eq!(runner.current_index(), Some(0));
    runner.op_succeeded();
    assert_eq!(runner.current_index(), Some(1));
    runner.op_succeeded();
    assert_eq!(runner.current_index(), Some(2));
    runner.op_succeeded();
    assert_eq!(runner.current_index(), None);
    assert!(!runner.failed);
}

#[test]
fn second_failure_stops_the_third() {
    let mut runner = OpRunner::new(three_ops());
    runner.op_succeeded();
    assert_eq!(runner.current_index(), Some(1));
    runner.op_failed();
    // Fail-fast: the third operation is never offered.
    assert_eq!(runner.current_index(), None);
    // The failure identifies the failing operation.
    let failure = runner.failure(ApiFailureKind::Invalid);
    assert_eq!(failure.op_index, 1);
    assert_eq!(
        *runner.op_at(failure.op_index),
        Op::Create {
            family: AddressFamily::V4,
            content: RecordAddress::V4(Ipv4Address { bits: 2 })
        }
    );
}

#[test]
fn provider_rejection_is_user_actionable() {
    let mut runner = OpRunner::new(three_ops());
    runner.op_failed();
    let rejected = runner.failure(ApiFailureKind::ErrorResponse).to_exit_error();
    assert_eq!(rejected.class, ErrorClass::ProviderApi { user_actionable: true });
    assert_eq!(rejected.exit_code, 2);
    let transport = runner.failure(ApiFailureKind::Invalid).to_exit_error();
    assert_eq!(transport.class, ErrorClass::ProviderApi { user_actionable: false });
    assert_eq!(transport.exit_code, 1);
}
