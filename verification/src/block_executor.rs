//! The block executor: executes the deploys of a finalized block, commits
//! their effects one after another on top of the current post state hash,
//! and answers with the executed block.
//!
//! Storage, execution and commits are outside work; [`BlockExecutor::handle_event`]
//! decides, from the executor's state and an event, the next state and the
//! action to perform, whose outcome comes back as the next event. Deploys,
//! effects and responders pass through untouched, of types `D`, `E` and `R`.

use vstd::prelude::*;

use crate::hash32::{Digest, Hash32};

verus! {

/// The protocol version that execution requests and commits are made with.
pub const PROTOCOL_VERSION_MAJOR: u32 = 1;

/// A finalized block, as far as its execution goes.
#[derive(Clone, Debug, PartialEq, Eq)]
pub struct FinalizedBlock {
    pub deploy_hashes: Vec<Hash32>,
    pub height: u64,
}

impl FinalizedBlock {
    /// Whether the block has no deploys.
    pub fn is_empty(&self) -> (r: bool)
        ensures
            r == (self.deploy_hashes@.len() == 0),
    {
        self.deploy_hashes.len() == 0
    }
}

/// A block after execution, with the state hash after its effects.
#[derive(Clone, Debug, PartialEq, Eq)]
pub struct ExecutedBlock {
    pub finalized_block: FinalizedBlock,
    pub post_state_hash: Digest,
}

/// The result of executing one deploy: its effects either way.
#[derive(Clone, Debug, PartialEq, Eq)]
pub enum ExecutionResult<E> {
    Success { effect: E, cost: u64 },
    Failure { error: String, effect: E, cost: u64 },
}

impl<E> ExecutionResult<E> {
    /// The effects of the execution.
    pub open spec fn effect(self) -> E {
        match self {
            ExecutionResult::Success { effect, .. } => effect,
            ExecutionResult::Failure { effect, .. } => effect,
        }
    }
}

/// The outcome of a commit that went through.
#[derive(Clone, Debug, PartialEq, Eq)]
pub enum CommitResult {
    /// The effects were committed, giving this state root.
    Success { state_root: Digest },
    /// The commit ended in an unexpected state.
    Unexpected,
}

/// A request to execute deploys on top of a state.
#[derive(Clone, Debug, PartialEq, Eq)]
pub struct ExecuteRequest<D> {
    pub parent_state_hash: Digest,
    pub block_time: u64,
    pub deploys: Vec<D>,
    pub protocol_version_major: u32,
}

/// An event of the block executor.
pub enum Event<D, E, R> {
    /// Execute a block and answer through the responder.
    ExecuteBlock { finalized_block: FinalizedBlock, responder: R },
    /// The block's deploys, read from storage in order.
    GotBlockDeploys { finalized_block: FinalizedBlock, deploys: Vec<D>, responder: R },
    /// The results of executing the deploys, or no state at the root.
    ExecutedBlockDeploys {
        finalized_block: FinalizedBlock,
        result: Result<Vec<ExecutionResult<E>>, ()>,
        responder: R,
    },
    /// The outcome of committing one result's effects, with the results
    /// still to commit.
    CommittedBlockDeploys {
        finalized_block: FinalizedBlock,
        commit_result: Result<CommitResult, String>,
        execution_results: Vec<ExecutionResult<E>>,
        responder: R,
    },
}

/// The events of a reactor that can run a block executor: those it can
/// make from the executor's events.
pub trait ReactorEvent<D, E, R>: From<Event<D, E, R>> {

}

impl<T: From<Event<D, E, R>>, D, E, R> ReactorEvent<D, E, R> for T {

}

/// What the block executor asks for.
pub enum Action<D, E, R> {
    /// Answer with the executed block.
    Respond { responder: R, executed_block: ExecutedBlock },
    /// Read the deploys with these hashes from storage, then report them
    /// with `GotBlockDeploys`.
    GetDeploys { finalized_block: FinalizedBlock, deploy_hashes: Vec<Hash32>, responder: R },
    /// Execute the deploys, then report with `ExecutedBlockDeploys`.
    Execute { finalized_block: FinalizedBlock, request: ExecuteRequest<D>, responder: R },
    /// Commit the effects on top of the state, then report with
    /// `CommittedBlockDeploys`, handing back the remaining results.
    Commit {
        finalized_block: FinalizedBlock,
        protocol_version_major: u32,
        state_hash: Digest,
        effect: E,
        remaining: Vec<ExecutionResult<E>>,
        responder: R,
    },
}

/// The block executor's state: the post state hash of the last commit.
pub struct BlockExecutor {
    pub post_state_hash: Digest,
}

/// Whether an event can be handled: the state of an executed block must
/// exist, and commits must not fail.
pub open spec fn event_handled<D, E, R>(event: Event<D, E, R>) -> bool {
    match event {
        Event::ExecutedBlockDeploys { result, .. } => result is Ok,
        Event::CommittedBlockDeploys { commit_result, .. } => commit_result is Ok,
        _ => true,
    }
}

/// Whether the action answers with the block at this post state hash.
pub open spec fn answers<D, E, R>(action: Action<D, E, R>, responder: R, finalized_block: FinalizedBlock, post_state_hash: Digest) -> bool {
    action == (Action::<D, E, R>::Respond {
        responder,
        executed_block: ExecutedBlock { finalized_block, post_state_hash },
    })
}

/// Whether the action reads the block's deploys.
pub open spec fn reads_deploys<D, E, R>(action: Action<D, E, R>, responder: R, finalized_block: FinalizedBlock) -> bool {
    action matches Action::GetDeploys { finalized_block: b, deploy_hashes, responder: resp } && b == finalized_block
        && deploy_hashes@ == finalized_block.deploy_hashes@ && resp == responder
}

/// Whether the action executes the deploys on top of the state at
/// `block_time`.
pub open spec fn executes<D, E, R>(
    action: Action<D, E, R>,
    responder: R,
    finalized_block: FinalizedBlock,
    state_hash: Digest,
    block_time: u64,
    deploys: Seq<D>,
) -> bool {
    action matches Action::Execute { finalized_block: b, request, responder: resp } && b == finalized_block
        && request.parent_state_hash == state_hash && request.block_time == block_time && request.deploys@
        == deploys && request.protocol_version_major == PROTOCOL_VERSION_MAJOR && resp == responder
}

/// The action for the results still to commit, on top of `state_hash`:
/// the first one's effects are committed, or, once none remain, the block
/// is answered with that state hash.
pub open spec fn results_action<D, E, R>(
    state_hash: Digest,
    finalized_block: FinalizedBlock,
    results: Seq<ExecutionResult<E>>,
    responder: R,
    action: Action<D, E, R>,
) -> bool {
    if results.len() == 0 {
        answers(action, responder, finalized_block, state_hash)
    } else {
        action matches Action::Commit {
            finalized_block: b,
            protocol_version_major: v,
            state_hash: h,
            effect,
            remaining,
            responder: resp,
        } && b == finalized_block && v == PROTOCOL_VERSION_MAJOR && h == state_hash && effect
            == results[0].effect() && remaining@ == results.drop_first() && resp == responder
    }
}

impl BlockExecutor {
    /// A block executor at the given post state hash.
    pub fn new(post_state_hash: Digest) -> (r: BlockExecutor)
        ensures
            r.post_state_hash == post_state_hash,
    {
        BlockExecutor { post_state_hash }
    }

    /// The first action for a block: an empty block is answered at once
    /// with the current post state hash; otherwise its deploys are read.
    pub fn execute<D, E, R>(&self, finalized_block: FinalizedBlock, responder: R) -> (r: Action<D, E, R>)
        ensures
            finalized_block.deploy_hashes@.len() == 0 ==> answers(r, responder, finalized_block, self.post_state_hash),
            finalized_block.deploy_hashes@.len() != 0 ==> reads_deploys(r, responder, finalized_block),
    {
        if finalized_block.is_empty() {
            return Action::Respond {
                responder,
                executed_block: ExecutedBlock { finalized_block, post_state_hash: self.post_state_hash },
            };
        }
        let deploy_hashes = finalized_block.deploy_hashes.clone();
        Action::GetDeploys { finalized_block, deploy_hashes, responder }
    }

    /// The request to execute the deploys on top of the current post state
    /// hash, at `block_time`.
    pub fn create_execute_request_from<D>(&self, deploys: Vec<D>, block_time: u64) -> (r: ExecuteRequest<D>)
        ensures
            r.parent_state_hash == self.post_state_hash,
            r.block_time == block_time,
            r.deploys@ == deploys@,
            r.protocol_version_major == PROTOCOL_VERSION_MAJOR,
    {
        ExecuteRequest {
            parent_state_hash: self.post_state_hash,
            block_time,
            deploys,
            protocol_version_major: PROTOCOL_VERSION_MAJOR,
        }
    }

    /// The action that executes the deploys.
    pub fn execute_deploys<D, E, R>(
        &self,
        finalized_block: FinalizedBlock,
        deploys: Vec<D>,
        block_time: u64,
        responder: R,
    ) -> (r: Action<D, E, R>)
        ensures
            executes(r, responder, finalized_block, self.post_state_hash, block_time, deploys@),
    {
        let request = self.create_execute_request_from(deploys, block_time);
        Action::Execute { finalized_block, request, responder }
    }

    /// The action for the results still to commit: the next one's effects
    /// are committed on top of the current post state hash, or the block is
    /// answered once none remain.
    pub fn process_execution_results<D, E, R>(
        &self,
        finalized_block: FinalizedBlock,
        execution_results: Vec<ExecutionResult<E>>,
        responder: R,
    ) -> (r: Action<D, E, R>)
        ensures
            results_action(self.post_state_hash, finalized_block, execution_results@, responder, r),
    {
        let mut results = execution_results;
        if results.len() == 0 {
            return Action::Respond {
                responder,
                executed_block: ExecutedBlock { finalized_block, post_state_hash: self.post_state_hash },
            };
        }
        let first = results.remove(0);
        let effect = match first {
            ExecutionResult::Success { effect, .. } => effect,
            ExecutionResult::Failure { effect, .. } => effect,
        };
        Action::Commit {
            finalized_block,
            protocol_version_major: PROTOCOL_VERSION_MAJOR,
            state_hash: self.post_state_hash,
            effect,
            remaining: results,
            responder,
        }
    }

    /// Handles an event at time `now`: the next action, with the post state
    /// hash moved to the state root of each successful commit.
    pub fn handle_event<D, E, R>(&mut self, event: Event<D, E, R>, now: u64) -> (r: Action<D, E, R>)
        requires
            event_handled(event),
        ensures
            match event {
                Event::CommittedBlockDeploys { commit_result: Ok(CommitResult::Success { state_root }), .. } =>
                    final(self).post_state_hash == state_root,
                _ => final(self).post_state_hash == old(self).post_state_hash,
            },
            match event {
                Event::ExecuteBlock { finalized_block, responder } => if finalized_block.deploy_hashes@.len()
                    == 0 {
                    answers(r, responder, finalized_block, old(self).post_state_hash)
                } else {
                    reads_deploys(r, responder, finalized_block)
                },
                Event::GotBlockDeploys { finalized_block, deploys, responder } => executes(
                    r,
                    responder,
                    finalized_block,
                    old(self).post_state_hash,
                    now,
                    deploys@,
                ),
                Event::ExecutedBlockDeploys { finalized_block, result: Ok(results), responder } => results_action(
                    old(self).post_state_hash,
                    finalized_block,
                    results@,
                    responder,
                    r,
                ),
                Event::CommittedBlockDeploys { finalized_block, execution_results, responder, .. } =>
                    results_action(final(self).post_state_hash, finalized_block, execution_results@, responder, r),
                _ => true,
            },
    {
        match event {
            Event::ExecuteBlock { finalized_block, responder } => self.execute(finalized_block, responder),
            Event::GotBlockDeploys { finalized_block, deploys, responder } => self.execute_deploys(
                finalized_block,
                deploys,
                now,
                responder,
            ),
            Event::ExecutedBlockDeploys { finalized_block, result, responder } => match result {
                Ok(results) => self.process_execution_results(finalized_block, results, responder),
                Err(()) => {
                    proof {
                        assert(false);
                    }
                    self.process_execution_results(finalized_block, Vec::new(), responder)
                },
            },
            Event::CommittedBlockDeploys { finalized_block, commit_result, execution_results, responder } => {
                match commit_result {
                    Ok(CommitResult::Success { state_root }) => {
                        self.post_state_hash = state_root;
                    },
                    Ok(CommitResult::Unexpected) => {},
                    Err(_) => {
                        proof {
                            assert(false);
                        }
                    },
                }
                self.process_execution_results(finalized_block, execution_results, responder)
            },
        }
    }
}

} // verus!
