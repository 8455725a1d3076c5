use bytewax::cluster::{
    communication_plan, default_addresses, join_outcome, supervise, CommunicationPlan,
    SupervisorAction, WorkerDied,
};
use bytewax::pump::{EpochRegression, Pump, PumpAction};
use bytewax::routing::{exchange_hash, scatter_hash, CAPTURE_WORKER};
use bytewax::worker::{keep_polling, phase, retain_flagged, WorkerPhase};
use std::hash::Hasher;

#[test]
fn pump_fails_on_epoch_regression() {
    let mut pump = Pump::new();
    let mut results = Vec::new();
    for epoch in [0u64, 0, 1, 3, 2] {
        results.push(pump.pump(Some(epoch)));
    }
    assert_eq!(results[0], Ok(PumpAction::Send { epoch: 0 }));
    assert_eq!(results[1], Ok(PumpAction::Send { epoch: 0 }));
    assert_eq!(results[2], Ok(PumpAction::Send { epoch: 1 }));
    assert_eq!(results[3], Ok(PumpAction::Send { epoch: 3 }));
    assert_eq!(results[4], Err(EpochRegression { current: 3, requested: 2 }));
    assert!(pump.input_remains());
}

#[test]
fn pump_exhaustion_is_permanent() {
    let mut pump = Pump::new();
    assert!(pump.input_remains());
    assert_eq!(pump.pump(Some(5)), Ok(PumpAction::Send { epoch: 5 }));
    assert_eq!(pump.pump(None), Ok(PumpAction::Exhausted));
    assert!(!pump.input_remains());
    assert_eq!(pump.pump(Some(6)), Ok(PumpAction::Exhausted));
    assert!(!pump.input_remains());
}

#[test]
fn singleton_input_epochs_are_all_sent() {
    // The input [(0,"a"), (0,"b"), (1,"c")] pumps three sends.
    let mut pump = Pump::new();
    let sent: Vec<_> = [0u64, 0, 1].iter().map(|e| pump.pump(Some(*e)).unwrap()).collect();
    assert_eq!(
        sent,
        vec![
            PumpAction::Send { epoch: 0 },
            PumpAction::Send { epoch: 0 },
            PumpAction::Send { epoch: 1 }
        ]
    );
    assert_eq!(pump.pump(None), Ok(PumpAction::Exhausted));
}

#[test]
fn exchange_hash_is_the_default_hasher_over_the_digest() {
    let digest = b"some key digest".to_vec();
    let mut hasher = std::collections::hash_map::DefaultHasher::new();
    hasher.write(&digest);
    assert_eq!(exchange_hash(&digest), hasher.finish());
    assert_eq!(exchange_hash(&digest), exchange_hash(&digest.clone()));
    assert_ne!(exchange_hash(b"a"), exchange_hash(b"b"));
}

#[test]
fn equal_keys_route_to_the_same_worker() {
    for workers in 1u64..9 {
        let a = exchange_hash(b"key") % workers;
        let b = exchange_hash(&b"key".to_vec()) % workers;
        assert_eq!(a, b);
        assert!(a < workers);
    }
    assert_eq!(CAPTURE_WORKER, 0);
}

#[test]
fn scatter_hash_spreads_over_workers() {
    let mut seen = [false; 4];
    for _ in 0..400 {
        seen[(scatter_hash() % 4) as usize] = true;
    }
    assert!(seen.iter().all(|s| *s));
}

#[test]
fn worker_phases() {
    assert_eq!(phase(2, 1, false), WorkerPhase::Running);
    assert_eq!(phase(0, 1, false), WorkerPhase::Draining);
    assert_eq!(phase(0, 0, false), WorkerPhase::Stopped);
    assert_eq!(phase(3, 3, true), WorkerPhase::Stopped);
    assert!(keep_polling(1, 0, false));
    assert!(keep_polling(0, 1, false));
    assert!(!keep_polling(0, 0, false));
}

#[test]
fn interrupt_stops_an_unbounded_run() {
    // An endless input keeps a pump active; the interrupt flag ends the
    // loop and the supervisor fails the run without waiting.
    assert!(!keep_polling(1, 1, true));
    assert_eq!(supervise(0, 4, true), SupervisorAction::Interrupt);
}

#[test]
fn retain_flagged_keeps_order() {
    let items = vec!["a", "b", "c", "d"];
    let keep = vec![true, false, true, false];
    assert_eq!(retain_flagged(items, &keep), vec!["a", "c"]);
    assert_eq!(retain_flagged(Vec::<u8>::new(), &Vec::new()), Vec::<u8>::new());
}

#[test]
fn single_process_plan() {
    match communication_plan(3, 0, 0, None) {
        CommunicationPlan::Process { threads } => assert_eq!(threads, 3),
        _ => panic!("expected a single-process plan"),
    }
}

#[test]
fn cluster_plan_defaults_to_local_ports() {
    assert_eq!(
        default_addresses(3),
        vec!["localhost:2101", "localhost:2102", "localhost:2103"]
    );
    assert!(default_addresses(0).is_empty());
    match communication_plan(2, 1, 2, None) {
        CommunicationPlan::Cluster { threads, process, addresses } => {
            assert_eq!(threads, 2);
            assert_eq!(process, 1);
            assert_eq!(addresses, vec!["localhost:2101", "localhost:2102"]);
        }
        _ => panic!("expected a cluster plan"),
    }
    let given = vec!["h1:1".to_string(), "h2:2".to_string()];
    match communication_plan(1, 0, 2, Some(given.clone())) {
        CommunicationPlan::Cluster { addresses, .. } => assert_eq!(addresses, given),
        _ => panic!("expected a cluster plan"),
    }
}

#[test]
fn supervisor_decisions() {
    assert_eq!(supervise(4, 4, false), SupervisorAction::Join);
    assert_eq!(supervise(4, 4, true), SupervisorAction::Join);
    assert_eq!(supervise(1, 4, false), SupervisorAction::Wait);
    assert_eq!(supervise(1, 4, true), SupervisorAction::Interrupt);
}

#[test]
fn join_outcome_reports_first_dead_worker() {
    assert_eq!(join_outcome(&vec![true, true]), Ok(()));
    assert_eq!(join_outcome(&vec![]), Ok(()));
    assert_eq!(join_outcome(&vec![true, false, false]), Err(WorkerDied { index: 1 }));
}
