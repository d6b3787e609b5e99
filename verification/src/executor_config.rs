//! Configuration of the Wasm executor and its builder.

use vstd::prelude::*;

verus! {

/// How Wasm is executed.
#[derive(Copy, Clone, Debug, PartialEq, Eq, Structural)]
pub enum ExecutorKind {
    /// Ahead of time compiled Wasm. This is the default executor kind.
    Compiled,
}

/// The executor's configuration.
#[derive(Copy, Clone, Debug)]
pub struct ExecutorConfig {
    pub memory_limit: u32,
    pub executor_kind: ExecutorKind,
}

/// Builds an [`ExecutorConfig`]; every setting must be given.
pub struct ExecutorConfigBuilder {
    pub memory_limit: Option<u32>,
    pub executor_kind: Option<ExecutorKind>,
}

impl Default for ExecutorConfigBuilder {
    fn default() -> (r: Self)
        ensures
            r.memory_limit is None,
            r.executor_kind is None,
    {
        ExecutorConfigBuilder { memory_limit: None, executor_kind: None }
    }
}

impl ExecutorConfigBuilder {
    /// A builder with nothing set.
    pub fn new() -> (r: ExecutorConfigBuilder)
        ensures
            r.memory_limit is None,
            r.executor_kind is None,
    {
        ExecutorConfigBuilder::default()
    }

    /// Sets the memory limit.
    pub fn with_memory_limit(self, memory_limit: u32) -> (r: Self)
        ensures
            r.memory_limit == Some(memory_limit),
            r.executor_kind == self.executor_kind,
    {
        let mut s = self;
        s.memory_limit = Some(memory_limit);
        s
    }

    /// Sets the executor kind.
    pub fn with_executor_kind(self, executor_kind: ExecutorKind) -> (r: Self)
        ensures
            r.executor_kind == Some(executor_kind),
            r.memory_limit == self.memory_limit,
    {
        let mut s = self;
        s.executor_kind = Some(executor_kind);
        s
    }

    /// Builds the configuration. Fails, naming the first missing setting,
    /// when the memory limit or the executor kind is not set.
    pub fn build(self) -> (r: Result<ExecutorConfig, &'static str>)
        ensures
            match (self.memory_limit, self.executor_kind) {
                (Some(m), Some(k)) => r matches Ok(c) && c.memory_limit == m && c.executor_kind == k,
                (None, _) => r matches Err(msg) && msg@ == "Memory limit is not set"@,
                (Some(_), None) => r matches Err(msg) && msg@ == "Executor kind is not set"@,
            },
    {
        let memory_limit = match self.memory_limit {
            Some(m) => m,
            None => return Err("Memory limit is not set"),
        };
        let executor_kind = match self.executor_kind {
            Some(k) => k,
            None => return Err("Executor kind is not set"),
        };
        Ok(ExecutorConfig { memory_limit, executor_kind })
    }
}

} // verus!
