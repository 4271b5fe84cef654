use vstd::prelude::*;

use vstd::string::StringExecFns;

use crate::cache::RetrievalError;
use crate::exit_cell::{ExitCell, ExitGuard};
use crate::runtime_spec::{pod_id, spec_pod_id, RuntimeSpec};
use crate::waiter::FALLBACK_EXIT_STATUS;

verus! {

/// Where an instance stands in its life: built, running (or already exited —
/// the exit cell tells), or torn down.
#[derive(Clone, Copy, Debug, PartialEq, Eq, Structural)]
pub enum Phase {
    Created,
    Started,
    Deleted,
}

/// The failures the lifecycle operations surface to the host, one per
/// operation: an unreadable process spec, a failed container build, a failed
/// start, a failed signal delivery, and a failed cleanup. Module-loading and
/// waiter failures never appear here — they are absorbed locally.
#[derive(Clone, Copy, Debug, PartialEq, Eq, Structural)]
pub enum InstanceError {
    Config,
    Build,
    Start,
    Signal,
    Delete,
}

/// The configuration the shim host hands down for one instance.
pub struct InstanceConfig {
    pub containerd_address: String,
    pub namespace: String,
    pub bundle: String,
    pub systemd_cgroup: bool,
}

/// One wasm layer pulled out of the OCI image: its media type and content.
pub struct WasmLayer {
    pub media_type: String,
    pub data: Vec<u8>,
}

/// Everything the external container builder needs, fixed by the verified
/// planner: built as init and as a sibling, under the config's cgroup
/// driver, rooted at the derived runtime directory, with the loaded modules,
/// and carrying the pod identifier for log correlation.
pub struct ContainerPlan {
    pub bundle: String,
    pub root_path: String,
    pub as_init: bool,
    pub as_sibling: bool,
    pub systemd_cgroup: bool,
    pub modules: Vec<WasmLayer>,
    pub pod_id: Option<String>,
}

/// The module set used for the build: what loading returned, or none when
/// loading failed — a load failure degrades creation to the files inside the
/// image, it never aborts it.
pub fn modules_or_default(r: Result<Vec<WasmLayer>, RetrievalError>) -> (m: Vec<WasmLayer>)
    ensures
        r matches Ok(v) ==> m == v,
        r is Err ==> m@ == Seq::<WasmLayer>::empty(),
{
    match r {
        Ok(v) => v,
        Err(_) => Vec::new(),
    }
}

/// The runtime root under which the engine keeps one namespace's state.
pub open spec fn spec_rootdir(engine_name: Seq<char>, namespace: Seq<char>) -> Seq<char> {
    "/run/containerd/"@ + engine_name + "/"@ + namespace
}

/// Derives the root directory for the container's runtime state from the
/// engine's name and the configured namespace.
pub fn derive_rootdir(engine_name: &str, namespace: &str) -> (r: String)
    ensures
        r@ == spec_rootdir(engine_name@, namespace@),
{
    let mut r = String::new();
    r.append("/run/containerd/");
    r.append(engine_name);
    r.append("/");
    r.append(namespace);
    proof {
        assert(r@ =~= spec_rootdir(engine_name@, namespace@));
    }
    r
}

/// One container instance under this shim: its identity, where it stands in
/// its life, and the single-assignment slot its exit is recorded in. The
/// container handle itself is the external builder's value and lives with
/// the host; this value is what every lifecycle decision is made from.
pub struct Instance {
    pub id: String,
    pub phase: Phase,
    pub exit: ExitCell,
}

impl Instance {
    /// Creates the instance and the build plan from what the host gathered:
    /// the parsed process spec (or nothing, when the bundle's spec file could
    /// not be read — the one creation failure decided here) and the outcome
    /// of module loading, whose failure is absorbed into an empty module set.
    /// The new instance is in `Created` with an empty exit cell, and the plan
    /// pins every builder input.
    pub fn new(
        id: String,
        cfg: &InstanceConfig,
        engine_name: &str,
        loaded_spec: Option<RuntimeSpec>,
        modules: Result<Vec<WasmLayer>, RetrievalError>,
    ) -> (r: Result<(Instance, ContainerPlan), InstanceError>)
        ensures
            loaded_spec is None ==> (r matches Err(e) && e == InstanceError::Config),
            loaded_spec is Some ==> r is Ok,
            r matches Ok(p) ==> (p.0.id == id && p.0.phase == Phase::Created && p.0.exit@ is None),
            r matches Ok(p) ==> (p.1.bundle == cfg.bundle && p.1.as_init && p.1.as_sibling
                && p.1.systemd_cgroup == cfg.systemd_cgroup && p.1.root_path@ == spec_rootdir(
                engine_name@,
                cfg.namespace@,
            )),
            r matches Ok(p) ==> (modules matches Ok(v) ==> p.1.modules == v),
            r matches Ok(p) ==> (modules is Err ==> p.1.modules@ == Seq::<WasmLayer>::empty()),
            loaded_spec matches Some(sp) ==> (r matches Ok(p) ==> (match p.1.pod_id {
                Some(v) => spec_pod_id(&sp) == Some(v@),
                None => spec_pod_id(&sp) is None,
            })),
    {
        let sp = match loaded_spec {
            Some(sp) => sp,
            None => {
                return Err(InstanceError::Config);
            },
        };
        let pod = pod_id(&sp);
        let mods = modules_or_default(modules);
        let root = derive_rootdir(engine_name, cfg.namespace.as_str());
        let plan = ContainerPlan {
            bundle: cfg.bundle.clone(),
            root_path: root,
            as_init: true,
            as_sibling: true,
            systemd_cgroup: cfg.systemd_cgroup,
            modules: mods,
            pod_id: pod,
        };
        let inst = Instance { id, phase: Phase::Created, exit: ExitCell::new() };
        Ok((inst, plan))
    }

    /// Marks the instance started and arms the guard that guarantees an exit
    /// record even if the monitoring task never commits one. The pid is
    /// returned unchanged as the externally visible identifier. The caller
    /// must have opened the process waiter on `pid` and launched the process,
    /// in that order — opening the waiter first is what rules out a missed
    /// termination — and must have come through every earlier step without
    /// failure: on any start failure this is never reached, so no guard
    /// exists and the exit cell stays empty.
    pub fn start(&mut self, pid: u32) -> (r: (u32, ExitGuard))
        requires
            old(self).phase == Phase::Created,
        ensures
            final(self).phase == Phase::Started,
            final(self).id == old(self).id,
            final(self).exit@ == old(self).exit@,
            r.0 == pid,
            r.1.is_armed(),
            r.1.fallback() == FALLBACK_EXIT_STATUS,
    {
        self.phase = Phase::Started;
        let guard = ExitGuard::new(FALLBACK_EXIT_STATUS);
        (pid, guard)
    }

    /// The recorded exit, or nothing while the process is still running: the
    /// idempotent core of `wait`, which the host parks on until a record
    /// exists. Once one does, every call returns that same record.
    pub fn try_wait(&self) -> (r: Option<(u32, i64)>)
        ensures
            r == self.exit@,
    {
        self.exit.get()
    }

    /// Records that the container's resources were released. The exit record,
    /// if any, is unaffected — cleanup never rewrites an exit code.
    pub fn mark_deleted(&mut self)
        ensures
            final(self).phase == Phase::Deleted,
            final(self).id == old(self).id,
            final(self).exit@ == old(self).exit@,
    {
        self.phase = Phase::Deleted;
    }
}

} // verus!
