use ferrokrait::chain::LayerId;
use ferrokrait::error::TreeError;
use ferrokrait::pacer::{FramePacer, REPORT_INTERVAL_MS};
use ferrokrait::tree::{Candidate, NodeTree, Phase, Reply, Request};
use std::time::Duration;

#[test]
fn pacer_keeps_the_rate_it_was_made_for() {
    assert_eq!(FramePacer::new(Some(60)).target_rate, Some(60));
    assert_eq!(FramePacer::new(Some(1)).target_rate, Some(1));
    assert_eq!(FramePacer::new(None).target_rate, None);
    assert_eq!(REPORT_INTERVAL_MS, 500);
}

#[test]
fn pacer_is_built_towards_its_rate() {
    let pacer = FramePacer::new(Some(50));
    assert_eq!(pacer.helper.target_rate(), 50.0);
    let uncapped = FramePacer::new(None);
    assert!(uncapped.helper.target_rate().is_infinite());
}

#[test]
fn start_iteration_reports_the_time_that_passed() {
    let mut pacer = FramePacer::new(None);
    spin_sleep::sleep(Duration::from_millis(20));
    let first = pacer.start_iteration();
    assert!(first.nanos >= 20_000_000);
    spin_sleep::sleep(Duration::from_millis(5));
    let second = pacer.start_iteration();
    assert!(second.nanos >= 5_000_000);
    assert_eq!(pacer.target_rate, None);
}

#[test]
fn uncapped_pacer_does_not_wait() {
    let mut pacer = FramePacer::new(None);
    pacer.start_iteration();
    for _ in 0..1000 {
        pacer.helper.loop_sleep();
    }
    let elapsed = pacer.start_iteration();
    assert!(elapsed.nanos < 1_000_000_000);
}

#[test]
fn tree_makes_its_pacer_when_it_asks_for_one() {
    let mut tree = NodeTree::new();
    assert!(tree.pacer().is_none());
    assert_eq!(tree.run(Some(30)), Ok(Request::ConfigurePacer(Some(30))));
    assert_eq!(tree.phase(), Phase::Configuring);
    let pacer = tree.pacer().expect("the tree asks for a pacer");
    assert_eq!(pacer.target_rate, Some(30));
    assert_eq!(tree.advance(Reply::PacerConfigured), Request::StartIteration);
    assert!(tree.pacer().is_none());
}

#[test]
fn hundred_iterations_hold_the_target_rate() {
    let node = Candidate { is_node: true, ancestors: vec![LayerId(5), LayerId(1), LayerId(0)] };
    let mut tree = NodeTree::new().add_node(&node);
    let mut request = tree.run(Some(60)).unwrap();
    let mut pacer: Option<FramePacer> = None;
    let mut deltas: Vec<u128> = Vec::new();
    let mut updates = 0usize;
    let end = loop {
        let reply = match request {
            Request::Idle => panic!("a started tree asks for something"),
            Request::Invoke(call) => {
                if call.hook != ferrokrait::node::Hook::Ready {
                    updates += 1;
                }
                Reply::HookDone
            }
            Request::ConfigurePacer(_) => {
                pacer = tree.pacer();
                Reply::PacerConfigured
            }
            Request::StartIteration => {
                let delta = pacer.as_mut().unwrap().start_iteration();
                deltas.push(delta.nanos);
                Reply::IterationStarted(delta)
            }
            Request::PollCancellation => Reply::CancellationPolled(deltas.len() > 100),
            Request::PollInput => Reply::InputPolled(false),
            Request::EndIteration => {
                pacer.as_mut().unwrap().helper.loop_sleep();
                Reply::IterationPaced
            }
            Request::Stop(cause) => break cause,
        };
        request = tree.advance(reply);
    };
    assert_eq!(end, TreeError::Cancelled);
    assert_eq!(updates, 100);
    // the first delta counts from the pacer's making; the hundred after it are whole iterations
    let measured = &deltas[1..];
    assert_eq!(measured.len(), 100);
    let average = measured.iter().sum::<u128>() as f64 / 100.0 / 1e9;
    let target = 1.0 / 60.0;
    assert!(average >= target * 0.99, "average {average} s is under the target {target} s");
    assert!(average <= target * 3.0, "average {average} s is far over the target {target} s");
}
