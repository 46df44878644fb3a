//! The lifecycle of the node's services: starting the gRPC node and the TSS
//! node, the metrics registry they hold in the registry service, and shutting
//! them (and the EVM relayer) down.
use vstd::prelude::*;

verus! {

/// The errors of starting a service.
#[derive(Debug, PartialEq, Eq, Structural)]
pub enum NodeError {
    NodeAlreadyRunning,
}

/// What a service holds between start and shutdown.
#[derive(Debug)]
pub struct NodeLifecycle {
    /// The peer id of the node's network key, once started.
    pub own_peer_id: Option<[u8; 32]>,
    /// The id of its metrics registry in the registry service.
    pub registry: Option<u64>,
    /// Whether a shutdown signal is ready to be sent to its tasks.
    pub shutdown_armed: bool,
}

/// The steps of a shutdown.
#[derive(Debug)]
pub struct ShutdownPlan {
    /// Send the shutdown signal to the service's tasks.
    pub send_signal: bool,
    /// The registry to remove from the registry service.
    pub remove_registry: Option<u64>,
}

impl NodeLifecycle {
    /// A service that has not started.
    pub fn new() -> (r: Self)
        ensures
            r.own_peer_id is None,
            r.registry is None,
            !r.shutdown_armed,
    {
        NodeLifecycle { own_peer_id: None, registry: None, shutdown_armed: false }
    }

    /// Starts the service unless its tasks are still running. A started
    /// service knows its own peer id, holds the fresh metrics registry
    /// `new_registry` and has a shutdown signal ready; the registry it held
    /// before is returned, to be removed from the registry service.
    pub fn start(&mut self, is_running: bool, own_peer_id: [u8; 32], new_registry: u64) -> (r: Result<
        Option<u64>,
        NodeError,
    >)
        ensures
            is_running ==> r == Err::<Option<u64>, NodeError>(NodeError::NodeAlreadyRunning) && *final(self)
                == *old(self),
            !is_running ==> r == Ok::<Option<u64>, NodeError>(old(self).registry) && final(self).own_peer_id
                == Some(own_peer_id) && final(self).registry == Some(new_registry) && final(self).shutdown_armed,
    {
        if is_running {
            return Err(NodeError::NodeAlreadyRunning);
        }
        self.own_peer_id = Some(own_peer_id);
        let removed = self.swap_registry(Some(new_registry));
        self.shutdown_armed = true;
        Ok(removed)
    }

    /// Records `new` as the service's registry and gives the one to remove
    /// from the registry service.
    pub fn swap_registry(&mut self, new: Option<u64>) -> (r: Option<u64>)
        ensures
            r == old(self).registry,
            final(self).registry == new,
            final(self).shutdown_armed == old(self).shutdown_armed,
            final(self).own_peer_id == old(self).own_peer_id,
    {
        let old = self.registry;
        self.registry = new;
        old
    }

    /// Shuts the service down: nothing to do when its tasks are not running;
    /// otherwise the signal is sent if it is ready, and the registry removed.
    pub fn shutdown(&mut self, is_running: bool) -> (r: Option<ShutdownPlan>)
        ensures
            !is_running ==> r is None && *final(self) == *old(self),
            is_running ==> (r matches Some(p) && p.send_signal == old(self).shutdown_armed && p.remove_registry == old(
                self,
            ).registry && final(self).registry is None && !final(self).shutdown_armed && final(self).own_peer_id
                == old(self).own_peer_id),
    {
        if !is_running {
            return None;
        }
        let plan = ShutdownPlan { send_signal: self.shutdown_armed, remove_registry: self.registry };
        self.shutdown_armed = false;
        self.registry = None;
        Some(plan)
    }
}

} // verus!
