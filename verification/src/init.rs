//! Init system: service records, their lifecycle, and the manager that
//! starts and stops them by name.
//!
//! Forking and signalling processes belongs to the platform layer; here
//! lives the service state machine and the registry keyed by unique
//! names in registration order.

use vstd::prelude::*;

verus! {

/// Service lifecycle states.
#[derive(Clone, Copy, Debug, PartialEq, Eq, Structural)]
pub enum ServiceState {
    /// Not started
    Inactive,
    /// Starting
    Activating,
    /// Running
    Active,
    /// Stopping
    Deactivating,
    /// Failed
    Failed,
}

/// Service kinds.
#[derive(Clone, Copy, Debug, PartialEq, Eq, Structural)]
pub enum ServiceType {
    /// Plain service: the main process
    Simple,
    /// Forking service
    Forking,
    /// One-shot service
    OneShot,
    /// Service that notifies readiness
    Notify,
}

/// Restart policies.
#[derive(Clone, Copy, Debug, PartialEq, Eq, Structural)]
pub enum RestartPolicy {
    /// Never restart
    No,
    /// Always restart
    Always,
    /// Restart on failure
    OnFailure,
    /// Restart on abnormal exit
    OnAbnormal,
}

/// A service definition.
#[derive(Debug)]
pub struct ServiceConfig {
    /// Service name
    pub name: String,
    /// Service kind
    pub service_type: ServiceType,
    /// Executable path
    pub exec_start: String,
    /// Hard dependencies
    pub requires: Vec<String>,
    /// Soft dependencies
    pub wants: Vec<String>,
    /// Services to order after
    pub after: Vec<String>,
    /// Restart policy
    pub restart: RestartPolicy,
}

/// Init errors.
#[derive(Clone, Copy, Debug, PartialEq, Eq, Structural)]
pub enum InitError {
    /// No service of that name
    ServiceNotFound,
    /// Service already running
    AlreadyRunning,
    /// Service not running
    NotRunning,
    /// Dependency cycle detected
    DependencyCycle,
    /// Failed to start the service
    StartFailed,
}

/// One managed service.
#[derive(Debug)]
pub struct Service {
    /// Definition
    config: ServiceConfig,
    /// Current state
    state: ServiceState,
    /// Main process id, while running
    pid: Option<u32>,
    /// How many times the service was restarted
    restart_count: u32,
}

impl Service {
    /// Spec view of the service name.
    pub closed spec fn spec_name(&self) -> Seq<char> {
        self.config.name@
    }

    /// Spec view of the state.
    pub closed spec fn spec_state(&self) -> ServiceState {
        self.state
    }

    /// Spec view of the process id.
    pub closed spec fn spec_pid(&self) -> Option<u32> {
        self.pid
    }

    /// Spec view of the restart count.
    pub closed spec fn spec_restart_count(&self) -> u32 {
        self.restart_count
    }

    /// An inactive service from its definition.
    pub fn new(config: ServiceConfig) -> (r: Self)
        ensures
            r.spec_name() == config.name@,
            r.spec_state() == ServiceState::Inactive,
            r.spec_pid() is None,
            r.spec_restart_count() == 0,
    {
        Service { config, state: ServiceState::Inactive, pid: None, restart_count: 0 }
    }

    /// Start an inactive service. Forking belongs to the platform layer;
    /// the record moves to active under the placeholder process id.
    pub fn start(&mut self) -> (r: Result<(), InitError>)
        ensures
            final(self).spec_name() == old(self).spec_name(),
            final(self).spec_restart_count() == old(self).spec_restart_count(),
            if old(self).spec_state() == ServiceState::Inactive {
                r is Ok && final(self).spec_state() == ServiceState::Active && final(self).spec_pid() == Some(1000u32)
            } else {
                r == Err::<(), InitError>(InitError::AlreadyRunning) && final(self).spec_state()
                    == old(self).spec_state() && final(self).spec_pid() == old(self).spec_pid()
            },
    {
        match self.state {
            ServiceState::Inactive => {},
            _ => {
                return Err(InitError::AlreadyRunning);
            },
        }
        self.state = ServiceState::Activating;
        self.pid = Some(1000);
        self.state = ServiceState::Active;
        Ok(())
    }

    /// Stop an active service. Signalling belongs to the platform layer;
    /// the record returns to inactive.
    pub fn stop(&mut self) -> (r: Result<(), InitError>)
        ensures
            final(self).spec_name() == old(self).spec_name(),
            final(self).spec_restart_count() == old(self).spec_restart_count(),
            if old(self).spec_state() == ServiceState::Active {
                r is Ok && final(self).spec_state() == ServiceState::Inactive && final(self).spec_pid() is None
            } else {
                r == Err::<(), InitError>(InitError::NotRunning) && final(self).spec_state() == old(self).spec_state() && final(self).spec_pid() == old(self).spec_pid()
            },
    {
        match self.state {
            ServiceState::Active => {},
            _ => {
                return Err(InitError::NotRunning);
            },
        }
        self.state = ServiceState::Deactivating;
        self.pid = None;
        self.state = ServiceState::Inactive;
        Ok(())
    }

    /// Restart: stop, then start, counting the restart. Only an active
    /// service restarts.
    pub fn restart(&mut self) -> (r: Result<(), InitError>)
        requires
            old(self).spec_restart_count() < u32::MAX,
        ensures
            final(self).spec_name() == old(self).spec_name(),
            if old(self).spec_state() == ServiceState::Active {
                r is Ok && final(self).spec_state() == ServiceState::Active && final(self).spec_restart_count() == old(self).spec_restart_count() + 1
            } else {
                r == Err::<(), InitError>(InitError::NotRunning) && final(self).spec_state() == old(self).spec_state() && final(self).spec_restart_count() == old(self).spec_restart_count()
            },
    {
        match self.stop() {
            Ok(_) => {},
            Err(e) => {
                return Err(e);
            },
        }
        match self.start() {
            Ok(_) => {},
            Err(e) => {
                return Err(e);
            },
        }
        self.restart_count = self.restart_count + 1;
        Ok(())
    }

    /// The current state.
    pub fn get_state(&self) -> (r: ServiceState)
        ensures
            r == self.spec_state(),
    {
        self.state
    }
}

/// The init system: every service, registered under a unique name, in
/// registration order.
#[derive(Debug)]
pub struct InitSystem {
    /// The services
    services: Vec<Service>,
}

impl InitSystem {
    /// The services as a sequence.
    pub closed spec fn spec_services(&self) -> Seq<Service> {
        self.services@
    }

    /// Registry well-formedness: service names are unique.
    pub open spec fn wf(&self) -> bool {
        forall|i: int, j: int|
            0 <= i < j < self.spec_services().len() ==> #[trigger] self.spec_services()[i].spec_name()
                != #[trigger] self.spec_services()[j].spec_name()
    }

    /// Index of the service with a name, if registered.
    pub open spec fn index_of(&self, name: Seq<char>) -> int {
        choose|i: int| 0 <= i < self.spec_services().len() && self.spec_services()[i].spec_name() == name
    }

    /// Whether a name is registered.
    pub open spec fn has_service(&self, name: Seq<char>) -> bool {
        exists|i: int| 0 <= i < self.spec_services().len() && #[trigger] self.spec_services()[i].spec_name() == name
    }

    /// An empty init system.
    pub fn new() -> (r: Self)
        ensures
            r.wf(),
            r.spec_services().len() == 0,
    {
        InitSystem { services: Vec::new() }
    }

    /// Index of the service with a name, if registered.
    fn find(&self, name: &String) -> (r: Option<usize>)
        ensures
            match r {
                Some(i) => i < self.spec_services().len() && self.spec_services()[i as int].spec_name()
                    == name@,
                None => !self.has_service(name@),
            },
    {
        let n = self.services.len();
        let mut i: usize = 0;
        while i < n
            invariant
                i <= n,
                n == self.spec_services().len(),
                forall|k: int| 0 <= k < i ==> #[trigger] self.spec_services()[k].spec_name() != name@,
            decreases n - i,
        {
            if self.services[i].config.name == *name {
                return Some(i);
            }
            i = i + 1;
        }
        None
    }

    /// Register a service under its configured name: a new name appends
    /// an inactive service, a known name replaces that service.
    pub fn register_service(&mut self, config: ServiceConfig) -> (r: Result<(), InitError>)
        requires
            old(self).wf(),
        ensures
            final(self).wf(),
            r is Ok,
            final(self).has_service(config.name@),
            if old(self).has_service(config.name@) {
                final(self).spec_services().len() == old(self).spec_services().len()
            } else {
                final(self).spec_services().len() == old(self).spec_services().len() + 1
            },
    {
        let key = config.name.clone();
        let service = Service::new(config);
        match self.find(&key) {
            Some(i) => {
                proof {
                    assert(old(self).spec_services()[i as int].spec_name() == key@);
                }
                self.services[i] = service;
                proof {
                    assert(self.spec_services()[i as int].spec_name() == key@);
                    assert forall|a: int, b: int|
                        0 <= a < b < self.spec_services().len() implies #[trigger] self.spec_services()[a].spec_name()
                        != #[trigger] self.spec_services()[b].spec_name() by {
                        if a != i && b != i {
                            assert(self.spec_services()[a] == old(self).spec_services()[a]);
                            assert(self.spec_services()[b] == old(self).spec_services()[b]);
                        } else if a == i {
                            assert(self.spec_services()[b] == old(self).spec_services()[b]);
                            assert(old(self).spec_services()[b].spec_name() != key@);
                        } else {
                            assert(self.spec_services()[a] == old(self).spec_services()[a]);
                            assert(old(self).spec_services()[a].spec_name() != key@);
                        }
                    }
                }
            },
            None => {
                self.services.push(service);
                proof {
                    assert(self.spec_services()[self.spec_services().len() - 1].spec_name() == key@);
                    assert forall|a: int, b: int|
                        0 <= a < b < self.spec_services().len() implies #[trigger] self.spec_services()[a].spec_name()
                        != #[trigger] self.spec_services()[b].spec_name() by {
                        if b < self.spec_services().len() - 1 {
                            assert(self.spec_services()[a] == old(self).spec_services()[a]);
                            assert(self.spec_services()[b] == old(self).spec_services()[b]);
                        } else {
                            assert(self.spec_services()[a] == old(self).spec_services()[a]);
                            assert(!old(self).has_service(key@));
                        }
                    }
                }
            },
        }
        Ok(())
    }

    /// Start every service, in registration order; the first one that is
    /// not inactive stops the sweep with its error.
    pub fn start_all(&mut self) -> (r: Result<(), InitError>)
        requires
            old(self).wf(),
        ensures
            final(self).wf(),
            final(self).spec_services().len() == old(self).spec_services().len(),
            r is Ok ==> forall|i: int|
                0 <= i < final(self).spec_services().len() ==> #[trigger] final(self).spec_services()[i].spec_state() == ServiceState::Active,
    {
        let n = self.services.len();
        let mut i: usize = 0;
        while i < n
            invariant
                i <= n,
                n == self.spec_services().len(),
                n == old(self).spec_services().len(),
                self.wf(),
                forall|k: int|
                    0 <= k < i ==> #[trigger] self.spec_services()[k].spec_state()
                        == ServiceState::Active,
            decreases n - i,
        {
            let ghost pre = self.services@;
            let outcome = self.services[i].start();
            proof {
                assert(self.services@.len() == pre.len());
                assert forall|k: int|
                    0 <= k < i implies #[trigger] self.spec_services()[k].spec_state()
                    == ServiceState::Active by {
                    assert(self.spec_services()[k] == pre[k]);
                }
                assert forall|a: int, b: int|
                    0 <= a < b < self.spec_services().len() implies #[trigger] self.spec_services()[a].spec_name()
                    != #[trigger] self.spec_services()[b].spec_name() by {
                    assert(self.spec_services()[a].spec_name() == pre[a].spec_name());
                    assert(self.spec_services()[b].spec_name() == pre[b].spec_name());
                }
            }
            match outcome {
                Ok(_) => {},
                Err(e) => {
                    return Err(e);
                },
            }
            i = i + 1;
        }
        Ok(())
    }

    /// Start the service with a name; unknown names are refused.
    pub fn start_service(&mut self, name: &String) -> (r: Result<(), InitError>)
        requires
            old(self).wf(),
        ensures
            final(self).wf(),
            final(self).spec_services().len() == old(self).spec_services().len(),
            !old(self).has_service(name@) ==> r == Err::<(), InitError>(InitError::ServiceNotFound)
                && final(self).spec_services() == old(self).spec_services(),
    {
        let i = match self.find(name) {
            Some(i) => i,
            None => {
                return Err(InitError::ServiceNotFound);
            },
        };
        let ghost pre = self.services@;
        let outcome = self.services[i].start();
        proof {
            assert(self.services@.len() == pre.len());
            assert forall|a: int, b: int|
                0 <= a < b < self.spec_services().len() implies #[trigger] self.spec_services()[a].spec_name()
                != #[trigger] self.spec_services()[b].spec_name() by {
                assert(self.spec_services()[a].spec_name() == pre[a].spec_name());
                assert(self.spec_services()[b].spec_name() == pre[b].spec_name());
            }
        }
        outcome
    }

    /// Stop the service with a name; unknown names are refused.
    pub fn stop_service(&mut self, name: &String) -> (r: Result<(), InitError>)
        requires
            old(self).wf(),
        ensures
            final(self).wf(),
            final(self).spec_services().len() == old(self).spec_services().len(),
            !old(self).has_service(name@) ==> r == Err::<(), InitError>(InitError::ServiceNotFound)
                && final(self).spec_services() == old(self).spec_services(),
    {
        let i = match self.find(name) {
            Some(i) => i,
            None => {
                return Err(InitError::ServiceNotFound);
            },
        };
        let ghost pre = self.services@;
        let outcome = self.services[i].stop();
        proof {
            assert(self.services@.len() == pre.len());
            assert forall|a: int, b: int|
                0 <= a < b < self.spec_services().len() implies #[trigger] self.spec_services()[a].spec_name()
                != #[trigger] self.spec_services()[b].spec_name() by {
                assert(self.spec_services()[a].spec_name() == pre[a].spec_name());
                assert(self.spec_services()[b].spec_name() == pre[b].spec_name());
            }
        }
        outcome
    }

    /// The state of the service with a name, if registered.
    pub fn get_service_status(&self, name: &String) -> (r: Option<ServiceState>)
        requires
            self.wf(),
        ensures
            match r {
                Some(s) => self.has_service(name@) && s == self.spec_services()[self.index_of(
                    name@,
                )].spec_state(),
                None => !self.has_service(name@),
            },
    {
        match self.find(name) {
            Some(i) => {
                proof {
                    assert(self.has_service(name@));
                    let j = self.index_of(name@);
                    if j != i as int {
                        assert(self.spec_services()[j].spec_name() == name@);
                        assert(self.spec_services()[i as int].spec_name() == name@);
                    }
                }
                Some(self.services[i].get_state())
            },
            None => None,
        }
    }

    /// Every service's name and state, in registration order.
    pub fn list_services(&self) -> (r: Vec<(String, ServiceState)>)
        ensures
            r@.len() == self.spec_services().len(),
            forall|i: int|
                0 <= i < r@.len() ==> (#[trigger] r@[i]).0@ == self.spec_services()[i].spec_name()
                    && r@[i].1 == self.spec_services()[i].spec_state(),
    {
        let mut out: Vec<(String, ServiceState)> = Vec::new();
        let n = self.services.len();
        let mut i: usize = 0;
        while i < n
            invariant
                i <= n,
                n == self.spec_services().len(),
                out@.len() == i,
                forall|k: int|
                    0 <= k < i ==> (#[trigger] out@[k]).0@ == self.spec_services()[k].spec_name(),
                forall|k: int|
                    0 <= k < i ==> (#[trigger] out@[k]).1 == self.spec_services()[k].spec_state(),
            decreases n - i,
        {
            let name = self.services[i].config.name.clone();
            let state = self.services[i].get_state();
            let ghost out_pre = out@;
            out.push((name, state));
            proof {
                assert forall|k: int|
                    0 <= k < i + 1 implies (#[trigger] out@[k]).0@ == self.spec_services()[k].spec_name()
                    && out@[k].1 == self.spec_services()[k].spec_state() by {
                    if k < i {
                        assert(out_pre[k].0@ == self.spec_services()[k].spec_name());
                        assert(out_pre[k].1 == self.spec_services()[k].spec_state());
                        assert(out@[k] == out_pre[k]);
                    } else {
                        assert(out@[k] == out_pre.push((name, state)).last());
                        assert(out@[k].0 == name);
                        assert(out@[k].1 == state);
                    }
                }
            }
            i = i + 1;
        }
        out
    }
}

} // verus!
