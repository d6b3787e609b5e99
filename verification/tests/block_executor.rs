use casper_node_logic::block_executor::{
    Action, BlockExecutor, CommitResult, Event, ExecutedBlock, ExecutionResult, FinalizedBlock,
    PROTOCOL_VERSION_MAJOR,
};
use casper_node_logic::hash32::Hash32;

type Ev = Event<&'static str, u32, u8>;
type Act = Action<&'static str, u32, u8>;

fn h(b: u8) -> Hash32 {
    Hash32::new([b; 32])
}

fn block(n: usize) -> FinalizedBlock {
    FinalizedBlock { deploy_hashes: (0..n).map(|i| h(i as u8 + 10)).collect(), height: 3 }
}

#[test]
fn empty_block_is_answered_at_once() {
    let mut executor = BlockExecutor::new(h(1));
    let action: Act = executor.handle_event(Ev::ExecuteBlock { finalized_block: block(0), responder: 7 }, 0);
    match action {
        Action::Respond { responder, executed_block } => {
            assert_eq!(responder, 7);
            assert_eq!(executed_block, ExecutedBlock { finalized_block: block(0), post_state_hash: h(1) });
        }
        _ => panic!("expected an answer"),
    }
}

#[test]
fn block_runs_through_read_execute_commit_answer() {
    let mut executor = BlockExecutor::new(h(1));
    let action: Act = executor.handle_event(Ev::ExecuteBlock { finalized_block: block(2), responder: 7 }, 0);
    match action {
        Action::GetDeploys { deploy_hashes, responder, .. } => {
            assert_eq!(deploy_hashes, vec![h(10), h(11)]);
            assert_eq!(responder, 7);
        }
        _ => panic!("expected a read of the deploys"),
    }

    let action: Act = executor.handle_event(
        Ev::GotBlockDeploys { finalized_block: block(2), deploys: vec!["a", "b"], responder: 7 },
        1234,
    );
    match action {
        Action::Execute { request, .. } => {
            assert_eq!(request.parent_state_hash, h(1));
            assert_eq!(request.block_time, 1234);
            assert_eq!(request.deploys, vec!["a", "b"]);
            assert_eq!(request.protocol_version_major, PROTOCOL_VERSION_MAJOR);
        }
        _ => panic!("expected an execution"),
    }

    let results = vec![
        ExecutionResult::Success { effect: 100, cost: 1 },
        ExecutionResult::Failure { error: "oops".to_string(), effect: 200, cost: 2 },
    ];
    let action: Act = executor.handle_event(
        Ev::ExecutedBlockDeploys { finalized_block: block(2), result: Ok(results), responder: 7 },
        0,
    );
    let remaining = match action {
        Action::Commit { state_hash, effect, remaining, .. } => {
            assert_eq!(state_hash, h(1));
            assert_eq!(effect, 100);
            assert_eq!(remaining.len(), 1);
            remaining
        }
        _ => panic!("expected a commit"),
    };

    let action: Act = executor.handle_event(
        Ev::CommittedBlockDeploys {
            finalized_block: block(2),
            commit_result: Ok(CommitResult::Success { state_root: h(2) }),
            execution_results: remaining,
            responder: 7,
        },
        0,
    );
    assert_eq!(executor.post_state_hash, h(2));
    let remaining = match action {
        Action::Commit { state_hash, effect, remaining, .. } => {
            assert_eq!(state_hash, h(2));
            assert_eq!(effect, 200);
            assert!(remaining.is_empty());
            remaining
        }
        _ => panic!("expected a commit"),
    };

    let action: Act = executor.handle_event(
        Ev::CommittedBlockDeploys {
            finalized_block: block(2),
            commit_result: Ok(CommitResult::Success { state_root: h(3) }),
            execution_results: remaining,
            responder: 7,
        },
        0,
    );
    match action {
        Action::Respond { executed_block, .. } => assert_eq!(executed_block.post_state_hash, h(3)),
        _ => panic!("expected an answer"),
    }
}

#[test]
fn unexpected_commit_keeps_the_state_hash() {
    let mut executor = BlockExecutor::new(h(1));
    let action: Act = executor.handle_event(
        Ev::CommittedBlockDeploys {
            finalized_block: block(1),
            commit_result: Ok(CommitResult::Unexpected),
            execution_results: vec![],
            responder: 7,
        },
        0,
    );
    assert_eq!(executor.post_state_hash, h(1));
    assert!(matches!(action, Action::Respond { .. }));
}
