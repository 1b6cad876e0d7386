use crate::chain::LayerId;
use crate::error::TreeError;
use crate::node::{dispatch_plan, Delta, Hook, Invocation};
use crate::tree::{tree_plan, Phase, Reply, Request, TreeModel};
use vstd::prelude::*;

verus! {

/// The tree after each of `replies` in turn.
pub open spec fn replay(tree: TreeModel, replies: Seq<Reply>) -> TreeModel
    decreases replies.len(),
{
    if replies.len() == 0 {
        tree
    } else {
        replay(tree, replies.drop_last()).step(replies.last())
    }
}

/// The requests that the tree gives in return for `replies`, one for each.
pub open spec fn issued(tree: TreeModel, replies: Seq<Reply>) -> Seq<Request> {
    Seq::new(replies.len(), |i: int| replay(tree, replies.take(i + 1)).pending())
}

/// `count` hooks in a row that return.
pub open spec fn hooks_done(count: nat) -> Seq<Reply> {
    Seq::new(count, |i: int| Reply::HookDone)
}

/// The requests to make `calls`, one after the other.
pub open spec fn invokes(calls: Seq<Invocation>) -> Seq<Request> {
    Seq::new(calls.len(), |i: int| Request::Invoke(calls[i]))
}

/// Replaying two runs of replies one after the other is replaying them as
/// one.
pub proof fn replay_concat(tree: TreeModel, first: Seq<Reply>, second: Seq<Reply>)
    ensures
        replay(tree, first + second) == replay(replay(tree, first), second),
    decreases second.len(),
{
    if second.len() == 0 {
        assert(first + second =~= first);
    } else {
        assert((first + second).drop_last() =~= first + second.drop_last());
        replay_concat(tree, first, second.drop_last());
    }
}

/// The requests given for two runs of replies are those given for the
/// first, then those that the tree so reached gives for the second.
pub proof fn issued_concat(tree: TreeModel, first: Seq<Reply>, second: Seq<Reply>)
    ensures
        issued(tree, first + second) == issued(tree, first) + issued(replay(tree, first), second),
{
    let whole = first + second;
    assert forall|i: int| 0 <= i < whole.len() implies #[trigger] issued(tree, whole)[i] == (issued(
        tree,
        first,
    ) + issued(replay(tree, first), second))[i] by {
        if i < first.len() {
            assert(whole.take(i + 1) =~= first.take(i + 1));
        } else {
            assert(whole.take(i + 1) =~= first + second.take(i + 1 - first.len()));
            replay_concat(tree, first, second.take(i + 1 - first.len()));
        }
    }
    assert(issued(tree, whole) =~= issued(tree, first) + issued(replay(tree, first), second));
}

/// The phase in which call `at` of a dispatch of `hook` is under way.
pub open spec fn dispatching(hook: Hook, delta: Delta, at: usize) -> Phase {
    match hook {
        Hook::Ready => Phase::Readying { at },
        Hook::KeyInput => Phase::Notifying { delta, at },
        Hook::Update(_) => Phase::Updating { delta, at },
    }
}

/// The phase that follows the last call of a dispatch of `hook`, in a tree
/// that has calls to make.
pub open spec fn following(hook: Hook, delta: Delta) -> Phase {
    match hook {
        Hook::Ready => Phase::Configuring,
        Hook::KeyInput => Phase::Updating { delta, at: 0 },
        Hook::Update(_) => Phase::Pacing,
    }
}

/// `tree` in another phase.
pub open spec fn in_phase(tree: TreeModel, phase: Phase) -> TreeModel {
    TreeModel { chains: tree.chains, phase, target_rate: tree.target_rate }
}

proof fn dispatch_reaches(tree: TreeModel, hook: Hook, delta: Delta, count: nat)
    requires
        tree.valid(),
        tree.size() > 0,
        tree.phase == dispatching(hook, delta, 0),
        hook matches Hook::Update(carried) ==> carried == delta,
        count <= tree.size(),
    ensures
        replay(tree, hooks_done(count)) == in_phase(
            tree,
            if count < tree.size() {
                dispatching(hook, delta, count as usize)
            } else {
                following(hook, delta)
            },
        ),
    decreases count,
{
    if count > 0 {
        assert(hooks_done(count).drop_last() =~= hooks_done((count - 1) as nat));
        assert(hooks_done(count).last() == Reply::HookDone);
        dispatch_reaches(tree, hook, delta, (count - 1) as nat);
    } else {
        assert(tree == in_phase(tree, tree.phase));
    }
}

/// Once the first call of a dispatch is under way, and as long as every hook
/// returns, the tree asks for the remaining calls in the order of the plan,
/// each once, and then for what follows the dispatch.
pub proof fn dispatch_runs_the_plan(tree: TreeModel, hook: Hook, delta: Delta)
    requires
        tree.valid(),
        tree.size() > 0,
        tree.phase == dispatching(hook, delta, 0),
        hook matches Hook::Update(carried) ==> carried == delta,
    ensures
        tree.pending() == Request::Invoke(tree_plan(hook, tree.chains)[0]),
        tree_plan(hook, tree.chains).len() == tree.size(),
        replay(tree, hooks_done(tree.size())) == in_phase(tree, following(hook, delta)),
        issued(tree, hooks_done(tree.size())) == invokes(tree_plan(hook, tree.chains)).skip(1)
            + seq![in_phase(tree, following(hook, delta)).pending()],
{
    let size = tree.size();
    let replies = hooks_done(size);
    crate::tree::tree_plan_same_targets(Hook::Ready, hook, tree.chains);
    dispatch_reaches(tree, hook, delta, size);
    let expected = invokes(tree_plan(hook, tree.chains)).skip(1) + seq![
        in_phase(tree, following(hook, delta)).pending(),
    ];
    assert forall|i: int| 0 <= i < size implies #[trigger] issued(tree, replies)[i]
        == expected[i] by {
        assert(replies.take(i + 1) =~= hooks_done((i + 1) as nat));
        dispatch_reaches(tree, hook, delta, (i + 1) as nat);
    }
    assert(issued(tree, replies) =~= expected);
}

/// Starting an idle tree dispatches `ready` first: as long as every hook
/// returns, the tree asks for each `ready` call of the plan once, node by
/// node in insertion order and, within a node, layer by layer from the base,
/// and only then for the pacer, with which the main loop begins.
pub proof fn ready_comes_first(tree: TreeModel, target_rate: Option<u32>)
    requires
        tree.valid(),
        !tree.is_running(),
        target_rate != Some(0u32),
    ensures
        ({
            let started = tree.started(target_rate);
            let replies = hooks_done(tree.size());
            &&& seq![started.pending()] + issued(started, replies) == invokes(
                tree_plan(Hook::Ready, tree.chains),
            ) + seq![Request::ConfigurePacer(target_rate)]
            &&& replay(started, replies) == in_phase(started, Phase::Configuring)
            &&& replay(started, replies).step(Reply::PacerConfigured) == in_phase(
                started,
                Phase::Starting,
            )
        }),
{
    let started = tree.started(target_rate);
    let replies = hooks_done(tree.size());
    let plan = invokes(tree_plan(Hook::Ready, tree.chains));
    if tree.size() > 0 {
        dispatch_runs_the_plan(started, Hook::Ready, Delta { nanos: 0 });
        assert(seq![started.pending()] + issued(started, replies) =~= plan + seq![
            Request::ConfigurePacer(target_rate),
        ]);
    } else {
        assert(replies =~= Seq::<Reply>::empty());
        assert(seq![started.pending()] + issued(started, replies) =~= plan + seq![
            Request::ConfigurePacer(target_rate),
        ]);
    }
}

/// One iteration as the driver meets it: the elapsed time, and whether a key
/// is held.
pub struct Frame {
    pub delta: Delta,
    pub any_key: bool,
}

/// The replies of one whole iteration in which nothing fails and nobody
/// cancels: the elapsed time, no cancellation, whether a key is held, every
/// hook returning, and the end of the pacing wait.
pub open spec fn iteration_replies(size: nat, frame: Frame) -> Seq<Reply> {
    seq![
        Reply::IterationStarted(frame.delta),
        Reply::CancellationPolled(false),
        Reply::InputPolled(frame.any_key),
    ] + (if frame.any_key {
        hooks_done(size)
    } else {
        Seq::empty()
    }) + hooks_done(size) + seq![Reply::IterationPaced]
}

/// The requests of one whole iteration in which nothing fails and nobody
/// cancels, from the poll for cancellation to the start of the next
/// iteration.
pub open spec fn iteration_requests(chains: Seq<Seq<LayerId>>, frame: Frame) -> Seq<Request> {
    seq![Request::PollCancellation, Request::PollInput] + (if frame.any_key {
        invokes(tree_plan(Hook::KeyInput, chains))
    } else {
        Seq::empty()
    }) + invokes(tree_plan(Hook::Update(frame.delta), chains)) + seq![
        Request::EndIteration,
        Request::StartIteration,
    ]
}

/// One iteration of the main loop. After the elapsed time is known the tree
/// polls for cancellation, then asks the input source; it dispatches
/// `on_key_input` to every layer of every node exactly when a key is held,
/// and never otherwise; it then dispatches `update` to every layer of every
/// node, each once and all with the iteration's own `delta`; it lets the
/// pacer wait, and starts the next iteration.
pub proof fn one_iteration(tree: TreeModel, frame: Frame)
    requires
        tree.valid(),
        tree.phase == Phase::Starting,
    ensures
        issued(tree, iteration_replies(tree.size(), frame)) == iteration_requests(
            tree.chains,
            frame,
        ),
        replay(tree, iteration_replies(tree.size(), frame)) == tree,
{
    let delta = frame.delta;
    let any_key = frame.any_key;
    let size = tree.size();
    let opening = seq![
        Reply::IterationStarted(delta),
        Reply::CancellationPolled(false),
        Reply::InputPolled(any_key),
    ];
    let keys = if any_key {
        hooks_done(size)
    } else {
        Seq::<Reply>::empty()
    };
    let closing = seq![Reply::IterationPaced];
    let key_plan = tree_plan(Hook::KeyInput, tree.chains);
    let update_plan = tree_plan(Hook::Update(delta), tree.chains);
    crate::tree::tree_plan_same_targets(Hook::Ready, Hook::KeyInput, tree.chains);
    crate::tree::tree_plan_same_targets(Hook::Ready, Hook::Update(delta), tree.chains);

    // the three polls
    let polled = in_phase(tree, Phase::Polling { delta });
    let sensed = in_phase(tree, Phase::Sensing { delta });
    let entered = sensed.step(Reply::InputPolled(any_key));
    assert(opening.drop_last() =~= seq![
        Reply::IterationStarted(delta),
        Reply::CancellationPolled(false),
    ]);
    assert(opening.drop_last().drop_last() =~= seq![Reply::IterationStarted(delta)]);
    assert(opening.drop_last().drop_last().drop_last() =~= Seq::<Reply>::empty());
    assert(replay(tree, opening.drop_last().drop_last().drop_last()) == tree);
    assert(replay(tree, opening.drop_last().drop_last()) == polled);
    assert(replay(tree, opening.drop_last()) == sensed);
    assert(replay(tree, opening) == entered);
    assert(opening.take(1) =~= opening.drop_last().drop_last());
    assert(opening.take(2) =~= opening.drop_last());
    assert(opening.take(3) =~= opening);
    assert(issued(tree, opening) =~= seq![
        Request::PollCancellation,
        Request::PollInput,
        entered.pending(),
    ]);

    // the two dispatches
    let updating = in_phase(tree, tree.updating(delta));
    if any_key && size > 0 {
        dispatch_runs_the_plan(entered, Hook::KeyInput, delta);
        assert(replay(entered, keys) == updating);
    } else {
        assert(entered == updating);
        assert(keys =~= Seq::<Reply>::empty() || size == 0);
        assert(hooks_done(0) =~= Seq::<Reply>::empty());
        assert(replay(entered, keys) == updating);
        assert(issued(entered, keys) =~= Seq::<Request>::empty());
    }
    let paced = in_phase(tree, Phase::Pacing);
    if size > 0 {
        dispatch_runs_the_plan(updating, Hook::Update(delta), delta);
    } else {
        assert(hooks_done(0) =~= Seq::<Reply>::empty());
        assert(issued(updating, hooks_done(size)) =~= Seq::<Request>::empty());
    }
    assert(replay(updating, hooks_done(size)) == paced);

    // the pacing wait
    assert(closing.drop_last() =~= Seq::<Reply>::empty());
    assert(replay(paced, closing.drop_last()) == paced);
    assert(replay(paced, closing) == tree);
    assert(closing.take(1) =~= closing);
    assert(issued(paced, closing) =~= seq![Request::StartIteration]);

    // all of it
    let replies = iteration_replies(size, frame);
    assert(replies == ((opening + keys) + hooks_done(size)) + closing);
    replay_concat(tree, opening, keys);
    issued_concat(tree, opening, keys);
    replay_concat(tree, opening + keys, hooks_done(size));
    issued_concat(tree, opening + keys, hooks_done(size));
    replay_concat(tree, (opening + keys) + hooks_done(size), closing);
    issued_concat(tree, (opening + keys) + hooks_done(size), closing);
    let expected = seq![Request::PollCancellation, Request::PollInput] + (if any_key {
        invokes(key_plan)
    } else {
        Seq::empty()
    }) + invokes(update_plan) + seq![Request::EndIteration, Request::StartIteration];
    assert(issued(tree, replies) =~= expected);
}

/// The replies of several whole iterations, one after the other.
pub open spec fn loop_replies(size: nat, frames: Seq<Frame>) -> Seq<Reply>
    decreases frames.len(),
{
    if frames.len() == 0 {
        Seq::empty()
    } else {
        loop_replies(size, frames.drop_last()) + iteration_replies(size, frames.last())
    }
}

/// The requests of several whole iterations, one after the other.
pub open spec fn loop_requests(chains: Seq<Seq<LayerId>>, frames: Seq<Frame>) -> Seq<Request>
    decreases frames.len(),
{
    if frames.len() == 0 {
        Seq::empty()
    } else {
        loop_requests(chains, frames.drop_last()) + iteration_requests(chains, frames.last())
    }
}

/// The main loop repeats. Over any number of iterations in which nothing
/// fails and nobody cancels, the tree asks in each for the same things in
/// the same order: `update` reaches every layer of every node once in every
/// iteration, with that iteration's `delta`, and `on_key_input` does so in
/// the iterations in which a key is held, and in no other.
pub proof fn the_loop_repeats(tree: TreeModel, frames: Seq<Frame>)
    requires
        tree.valid(),
        tree.phase == Phase::Starting,
    ensures
        issued(tree, loop_replies(tree.size(), frames)) == loop_requests(tree.chains, frames),
        replay(tree, loop_replies(tree.size(), frames)) == tree,
    decreases frames.len(),
{
    if frames.len() == 0 {
        assert(issued(tree, Seq::<Reply>::empty()) =~= Seq::<Request>::empty());
    } else {
        let earlier = loop_replies(tree.size(), frames.drop_last());
        let latest = iteration_replies(tree.size(), frames.last());
        the_loop_repeats(tree, frames.drop_last());
        one_iteration(tree, frames.last());
        replay_concat(tree, earlier, latest);
        issued_concat(tree, earlier, latest);
    }
}

/// The replies of a run that goes well until somebody cancels it: every
/// `ready` hook returns, the pacer is set up, some iterations pass, and at
/// the polling point of the next one a cancellation request is there.
pub open spec fn run_replies(size: nat, frames: Seq<Frame>, last: Delta) -> Seq<Reply> {
    hooks_done(size) + seq![Reply::PacerConfigured] + loop_replies(size, frames) + seq![
        Reply::IterationStarted(last),
        Reply::CancellationPolled(true),
    ]
}

/// A whole run, from `run` to its end by cancellation. The tree asks for the
/// `ready` calls, each once and in order; then for the pacer, with the rate
/// that `run` was given; then, iteration by iteration, for what the
/// iteration is made of; and once the cancellation request is seen, it asks
/// for nothing more of that iteration and stops with `Cancelled`.
pub proof fn a_whole_run(
    tree: TreeModel,
    target_rate: Option<u32>,
    frames: Seq<Frame>,
    last: Delta,
)
    requires
        tree.valid(),
        !tree.is_running(),
        target_rate != Some(0u32),
    ensures
        ({
            let started = tree.started(target_rate);
            let replies = run_replies(tree.size(), frames, last);
            &&& seq![started.pending()] + issued(started, replies) == invokes(
                tree_plan(Hook::Ready, tree.chains),
            ) + seq![Request::ConfigurePacer(target_rate), Request::StartIteration] + loop_requests(
                tree.chains,
                frames,
            ) + seq![Request::PollCancellation, Request::Stop(TreeError::Cancelled)]
            &&& replay(started, replies) == in_phase(
                started,
                Phase::Stopped { cause: TreeError::Cancelled },
            )
        }),
{
    let size = tree.size();
    let started = tree.started(target_rate);
    let readying = hooks_done(size);
    let configuring = seq![Reply::PacerConfigured];
    let looping = loop_replies(size, frames);
    let closing = seq![Reply::IterationStarted(last), Reply::CancellationPolled(true)];
    let configured = in_phase(started, Phase::Configuring);
    let starting = in_phase(started, Phase::Starting);
    let polling = in_phase(started, Phase::Polling { delta: last });
    let stopped = in_phase(started, Phase::Stopped { cause: TreeError::Cancelled });

    ready_comes_first(tree, target_rate);

    assert(configuring.drop_last() =~= Seq::<Reply>::empty());
    assert(replay(configured, configuring.drop_last()) == configured);
    assert(replay(configured, configuring) == starting);
    assert(configuring.take(1) =~= configuring);
    assert(issued(configured, configuring) =~= seq![Request::StartIteration]);

    the_loop_repeats(starting, frames);

    assert(closing.drop_last() =~= seq![Reply::IterationStarted(last)]);
    assert(closing.drop_last().drop_last() =~= Seq::<Reply>::empty());
    assert(replay(starting, closing.drop_last().drop_last()) == starting);
    assert(replay(starting, closing.drop_last()) == polling);
    assert(replay(starting, closing) == stopped);
    assert(closing.take(1) =~= closing.drop_last());
    assert(closing.take(2) =~= closing);
    assert(issued(starting, closing) =~= seq![
        Request::PollCancellation,
        Request::Stop(TreeError::Cancelled),
    ]);

    let replies = run_replies(size, frames, last);
    assert(replies == ((readying + configuring) + looping) + closing);
    replay_concat(started, readying, configuring);
    issued_concat(started, readying, configuring);
    replay_concat(started, readying + configuring, looping);
    issued_concat(started, readying + configuring, looping);
    replay_concat(started, (readying + configuring) + looping, closing);
    issued_concat(started, (readying + configuring) + looping, closing);
    let expected = invokes(tree_plan(Hook::Ready, tree.chains)) + seq![
        Request::ConfigurePacer(target_rate),
        Request::StartIteration,
    ] + loop_requests(tree.chains, frames) + seq![
        Request::PollCancellation,
        Request::Stop(TreeError::Cancelled),
    ];
    assert(replay(started, readying + configuring) == starting);
    assert(replay(started, (readying + configuring) + looping) == starting);
    let opening = seq![started.pending()] + issued(started, readying);
    assert(opening == invokes(tree_plan(Hook::Ready, tree.chains)) + seq![
        Request::ConfigurePacer(target_rate),
    ]);
    assert(issued(started, replies) == ((issued(started, readying) + seq![
        Request::StartIteration,
    ]) + loop_requests(tree.chains, frames)) + seq![
        Request::PollCancellation,
        Request::Stop(TreeError::Cancelled),
    ]);
    assert(seq![started.pending()] + issued(started, replies) =~= ((opening + seq![
        Request::StartIteration,
    ]) + loop_requests(tree.chains, frames)) + seq![
        Request::PollCancellation,
        Request::Stop(TreeError::Cancelled),
    ]);
    assert(opening + seq![Request::StartIteration] =~= invokes(
        tree_plan(Hook::Ready, tree.chains),
    ) + seq![Request::ConfigurePacer(target_rate), Request::StartIteration]);
    assert(seq![started.pending()] + issued(started, replies) =~= expected);
}

/// While no key is held, no `on_key_input` call is asked for: over any
/// number of such iterations, none of the tree's requests is one.
pub proof fn idle_keys_fire_nothing(tree: TreeModel, frames: Seq<Frame>)
    requires
        tree.valid(),
        tree.phase == Phase::Starting,
        forall|i: int| 0 <= i < frames.len() ==> !(#[trigger] frames[i]).any_key,
    ensures
        forall|k: int|
            0 <= k < issued(tree, loop_replies(tree.size(), frames)).len() ==> !(
            #[trigger] issued(tree, loop_replies(tree.size(), frames))[k] matches Request::Invoke(
                call,
            ) && call.hook == Hook::KeyInput),
{
    the_loop_repeats(tree, frames);
    no_key_input_among(tree.chains, frames);
}

proof fn updates_are_updates(chains: Seq<Seq<LayerId>>, delta: Delta)
    ensures
        forall|k: int|
            0 <= k < tree_plan(Hook::Update(delta), chains).len() ==> (#[trigger] tree_plan(
                Hook::Update(delta),
                chains,
            )[k]).hook == Hook::Update(delta),
{
    crate::tree::tree_plan_same_targets(Hook::Update(delta), Hook::Update(delta), chains);
}

proof fn no_key_input_among(chains: Seq<Seq<LayerId>>, frames: Seq<Frame>)
    requires
        forall|i: int| 0 <= i < frames.len() ==> !(#[trigger] frames[i]).any_key,
    ensures
        forall|k: int|
            0 <= k < loop_requests(chains, frames).len() ==> !(#[trigger] loop_requests(
                chains,
                frames,
            )[k] matches Request::Invoke(call) && call.hook == Hook::KeyInput),
    decreases frames.len(),
{
    if frames.len() > 0 {
        let earlier = loop_requests(chains, frames.drop_last());
        let latest = iteration_requests(chains, frames.last());
        assert forall|i: int| 0 <= i < frames.drop_last().len() implies !(
        #[trigger] frames.drop_last()[i]).any_key by {
            assert(frames.drop_last()[i] == frames[i]);
        }
        no_key_input_among(chains, frames.drop_last());
        updates_are_updates(chains, frames.last().delta);
        let plan = tree_plan(Hook::Update(frames.last().delta), chains);
        assert forall|k: int| 0 <= k < latest.len() implies !(#[trigger] latest[k] matches Request::Invoke(
            call,
        ) && call.hook == Hook::KeyInput) by {
            if 2 <= k < 2 + plan.len() {
                assert(latest[k] == Request::Invoke(plan[k - 2]));
            }
        }
        assert forall|k: int| 0 <= k < loop_requests(chains, frames).len() implies !(
        #[trigger] loop_requests(chains, frames)[k] matches Request::Invoke(call) && call.hook
            == Hook::KeyInput) by {
            if k < earlier.len() {
                assert(loop_requests(chains, frames)[k] == earlier[k]);
            } else {
                assert(loop_requests(chains, frames)[k] == latest[k - earlier.len()]);
            }
        }
    }
}

/// Whether each of `replies` answers the request that was pending when it
/// came.
pub open spec fn answered(tree: TreeModel, replies: Seq<Reply>) -> bool {
    forall|i: int|
        0 <= i < replies.len() ==> (#[trigger] replay(tree, replies.take(i))).answers(replies[i])
}

/// Whether `phase` is one of the main loop's own.
pub open spec fn in_main_loop(phase: Phase) -> bool {
    phase is Starting || phase is Polling || phase is Sensing || phase is Notifying
        || phase is Updating || phase is Pacing
}

spec fn ready_shape(started: TreeModel, replies: Seq<Reply>) -> bool {
    let reached = replay(started, replies);
    &&& reached.chains == started.chains
    &&& reached.target_rate == started.target_rate
    &&& reached.valid()
    &&& reached.phase != Phase::Idle
    &&& reached.phase matches Phase::Readying { at } ==> replies == hooks_done(at as nat)
    &&& reached.phase == Phase::Configuring ==> replies == hooks_done(started.size())
    &&& in_main_loop(reached.phase) ==> replies.len() > started.size() && replies.take(
        started.size() as int,
    ) == hooks_done(started.size())
}

proof fn ready_shape_holds(tree: TreeModel, target_rate: Option<u32>, replies: Seq<Reply>)
    requires
        tree.valid(),
        !tree.is_running(),
        target_rate != Some(0u32),
        answered(tree.started(target_rate), replies),
    ensures
        ready_shape(tree.started(target_rate), replies),
    decreases replies.len(),
{
    let started = tree.started(target_rate);
    let size = started.size();
    if replies.len() == 0 {
        assert(replies =~= hooks_done(0));
    } else {
        let before = replies.drop_last();
        let last = replies.last();
        assert forall|i: int| 0 <= i < before.len() implies (#[trigger] replay(
            started,
            before.take(i),
        )).answers(before[i]) by {
            assert(before.take(i) =~= replies.take(i));
        }
        ready_shape_holds(tree, target_rate, before);
        let reached = replay(started, before);
        assert(replies.take(replies.len() - 1) =~= before);
        assert(reached.answers(last));
        assert(replay(started, replies) == reached.step(last));
        match reached.phase {
            Phase::Readying { at } => {
                if last == Reply::HookDone {
                    assert(before == hooks_done(at as nat));
                    assert(replies.len() == at + 1);
                    assert forall|i: int| 0 <= i < replies.len() implies #[trigger] replies[i]
                        == Reply::HookDone by {
                        if i < at {
                            assert(replies[i] == before[i]);
                        }
                    }
                    assert(replies =~= hooks_done((at + 1) as nat));
                }
            },
            Phase::Configuring => {
                assert(replies.take(size as int) =~= before);
            },
            _ => {
                if in_main_loop(reached.phase) {
                    assert(replies.take(size as int) =~= before.take(size as int));
                }
            },
        }
    }
}

/// The main loop begins only after `ready` has gone through the whole tree.
/// Whenever a started tree, each of whose requests was answered, stands in
/// the main loop (so whenever an `update` or `on_key_input` call is under
/// way), the first replies were as many returning hooks as the tree has
/// calls: those for which it asked for the `ready` calls, each once and in
/// order.
pub proof fn loop_begins_after_ready(
    tree: TreeModel,
    target_rate: Option<u32>,
    replies: Seq<Reply>,
)
    requires
        tree.valid(),
        !tree.is_running(),
        target_rate != Some(0u32),
        answered(tree.started(target_rate), replies),
        in_main_loop(replay(tree.started(target_rate), replies).phase),
    ensures
        replies.len() > tree.size(),
        replies.take(tree.size() as int) == hooks_done(tree.size()),
        issued(tree.started(target_rate), replies).take(tree.size() as int) == issued(
            tree.started(target_rate),
            hooks_done(tree.size()),
        ),
{
    ready_shape_holds(tree, target_rate, replies);
    let started = tree.started(target_rate);
    let size = tree.size() as int;
    assert forall|i: int| 0 <= i < size implies #[trigger] issued(started, replies).take(size)[i]
        == issued(started, hooks_done(tree.size()))[i] by {
        assert(replies.take(i + 1) =~= replies.take(size).take(i + 1));
    }
    assert(issued(started, replies).take(size) =~= issued(started, hooks_done(tree.size())));
}

/// An `on_key_input` call is under way only in the phase that the tree
/// enters when the input source reports a key held: when it reports none,
/// the tree goes on to `update` and asks for no `on_key_input` call in that
/// iteration.
pub proof fn key_input_needs_a_key(tree: TreeModel, reply: Reply)
    requires
        tree.valid(),
    ensures
        (tree.pending() matches Request::Invoke(call) && call.hook == Hook::KeyInput)
            <==> tree.phase is Notifying,
        tree.step(reply).phase is Notifying ==> tree.phase is Notifying || (tree.phase is Sensing
            && reply == Reply::InputPolled(true)),
        tree.phase is Sensing && reply == Reply::InputPolled(false) ==> tree.step(reply).phase
            == tree.updating(tree.phase->Sensing_delta),
{
    crate::tree::tree_plan_same_targets(Hook::Ready, Hook::KeyInput, tree.chains);
    crate::tree::tree_plan_same_targets(Hook::Ready, Hook::Ready, tree.chains);
    if let Phase::Updating { delta, at } = tree.phase {
        crate::tree::tree_plan_same_targets(Hook::Ready, Hook::Update(delta), tree.chains);
    }
}

/// Validity lasts: starting a valid idle tree with a positive rate or none,
/// and any reply to a valid tree, give a valid tree with the same nodes.
pub proof fn validity_lasts(tree: TreeModel, target_rate: Option<u32>, reply: Reply)
    requires
        tree.valid(),
    ensures
        tree.step(reply).valid(),
        tree.step(reply).chains == tree.chains,
        tree.step(reply).target_rate == tree.target_rate,
        !tree.is_running() && target_rate != Some(0u32) ==> tree.started(target_rate).valid(),
        tree.started(target_rate).chains == tree.chains,
{
}

/// The guard never comes down: no reply takes a running tree back to idle,
/// and none takes a stopped tree anywhere.
pub proof fn running_is_for_good(tree: TreeModel, reply: Reply)
    ensures
        tree.is_running() ==> tree.step(reply).is_running(),
        tree.phase is Stopped ==> tree.step(reply) == tree,
        !tree.is_running() ==> tree.step(reply) == tree,
{
}

proof fn filter_keeps_all<A>(items: Seq<A>, wanted: spec_fn(A) -> bool)
    requires
        forall|i: int| 0 <= i < items.len() ==> wanted(#[trigger] items[i]),
    ensures
        items.filter(wanted) == items,
    decreases items.len(),
{
    reveal(Seq::filter);
    if items.len() > 0 {
        filter_keeps_all(items.drop_last(), wanted);
        assert(items.drop_last().push(items.last()) =~= items);
    }
}

proof fn filter_keeps_none<A>(items: Seq<A>, wanted: spec_fn(A) -> bool)
    requires
        forall|i: int| 0 <= i < items.len() ==> !wanted(#[trigger] items[i]),
    ensures
        items.filter(wanted) == Seq::<A>::empty(),
    decreases items.len(),
{
    reveal(Seq::filter);
    if items.len() > 0 {
        filter_keeps_none(items.drop_last(), wanted);
    } else {
        assert(items =~= Seq::<A>::empty());
    }
}

/// The calls of a tree's plan go to its nodes only.
pub proof fn tree_plan_stays_in_tree(hook: Hook, chains: Seq<Seq<LayerId>>)
    requires
        chains.len() <= usize::MAX,
    ensures
        forall|k: int|
            0 <= k < tree_plan(hook, chains).len() ==> (#[trigger] tree_plan(hook, chains)[k]).node
                < chains.len(),
    decreases chains.len(),
{
    if chains.len() > 0 {
        tree_plan_stays_in_tree(hook, chains.drop_last());
    }
}

/// Within one dispatch to a tree every layer of every node is called exactly
/// once, and in the order of the node's chain: the calls of the tree's plan
/// that go to one node are, in their order, that node's own calls.
pub proof fn each_node_gets_its_chain(hook: Hook, chains: Seq<Seq<LayerId>>, node: usize)
    requires
        chains.len() <= usize::MAX,
        node < chains.len(),
    ensures
        tree_plan(hook, chains).filter(|call: Invocation| call.node == node) == dispatch_plan(
            hook,
            node,
            chains[node as int],
        ),
    decreases chains.len(),
{
    let to_node = |call: Invocation| call.node == node;
    let earlier = tree_plan(hook, chains.drop_last());
    let latest = dispatch_plan(hook, (chains.len() - 1) as usize, chains.last());
    Seq::filter_distributes_over_add(earlier, latest, to_node);
    tree_plan_stays_in_tree(hook, chains.drop_last());
    if node == chains.len() - 1 {
        filter_keeps_none(earlier, to_node);
        filter_keeps_all(latest, to_node);
        assert(Seq::<Invocation>::empty() + latest =~= latest);
    } else {
        each_node_gets_its_chain(hook, chains.drop_last(), node);
        filter_keeps_none(latest, to_node);
        assert(earlier.filter(to_node) + Seq::<Invocation>::empty() =~= earlier.filter(to_node));
    }
}

/// A hook that fails ends the run: whichever call was under way, no further
/// call of that dispatch is asked for, and the tree stops with
/// `DispatchFailure`.
pub proof fn failure_stops_the_tree(tree: TreeModel)
    requires
        tree.phase is Readying || tree.phase is Notifying || tree.phase is Updating,
    ensures
        tree.step(Reply::HookFailed).phase == (Phase::Stopped { cause: TreeError::DispatchFailure }),
        tree.step(Reply::HookFailed).pending() == Request::Stop(TreeError::DispatchFailure),
{
}

/// Nothing but a failing hook or a cancellation request ends the run.
pub proof fn stops_only_on_failure_or_cancellation(tree: TreeModel, reply: Reply)
    requires
        !(tree.phase is Stopped),
        tree.step(reply).phase is Stopped,
    ensures
        (reply == Reply::HookFailed && (tree.phase is Readying || tree.phase is Notifying
            || tree.phase is Updating)) || (reply == Reply::CancellationPolled(true) && tree.phase
            is Polling),
{
}

/// The pacer is never asked for a rate of zero.
pub proof fn pacer_rate_is_positive(tree: TreeModel)
    requires
        tree.valid(),
    ensures
        tree.pending() matches Request::ConfigurePacer(Some(rate)) ==> rate > 0,
{
}

/// A cancellation request is acted on at the polling point and nowhere else:
/// the tree stops with `Cancelled` there, before it asks the input source or
/// makes any call of that iteration, and no other reply makes it stop so.
pub proof fn cancellation_stops_the_tree(tree: TreeModel, reply: Reply)
    requires
        !(tree.phase is Stopped),
    ensures
        tree.step(reply).phase == (Phase::Stopped { cause: TreeError::Cancelled }) <==> tree.phase
            is Polling && reply == Reply::CancellationPolled(true),
        tree.phase is Polling && reply == Reply::CancellationPolled(false) ==> tree.step(
            reply,
        ).pending() == Request::PollInput,
{
}

} // verus!
