use vstd::prelude::*;

use vstd::hash_map::StringHashMap;

verus! {

/// The annotation key under which the orchestrator records the pod that owns
/// a container.
pub open spec fn pod_id_key() -> Seq<char> {
    "io.kubernetes.cri.sandbox-id"@
}

/// The slice of a runtime process specification that this library reads: the
/// rootfs path, the process working directory, and the annotation map. The
/// host parses the bundle's specification file and hands the result over in
/// this form.
pub struct RuntimeSpec {
    pub root_path: String,
    pub process_cwd: String,
    pub annotations: Option<StringHashMap<String>>,
}

impl RuntimeSpec {
    /// A specification with the given rootfs path and working directory and
    /// no annotation map.
    pub fn new(root_path: String, process_cwd: String) -> (sp: RuntimeSpec)
        ensures
            sp.root_path == root_path,
            sp.process_cwd == process_cwd,
            sp.annotations is None,
    {
        RuntimeSpec { root_path, process_cwd, annotations: None }
    }

    /// The specification with one more annotation, the map being created on
    /// first use.
    pub fn with_annotation(self, key: String, value: String) -> (sp: RuntimeSpec)
        ensures
            sp.root_path == self.root_path,
            sp.process_cwd == self.process_cwd,
            sp.annotations matches Some(a) && a@ == (match self.annotations {
                Some(b) => b@.insert(key@, value),
                None => Map::<Seq<char>, String>::empty().insert(key@, value),
            }),
    {
        let mut a = match self.annotations {
            Some(a) => a,
            None => StringHashMap::new(),
        };
        a.insert(key, value);
        RuntimeSpec {
            root_path: self.root_path,
            process_cwd: self.process_cwd,
            annotations: Some(a),
        }
    }
}

/// The pod identifier a specification carries: the value under the well-known
/// annotation key, if the annotation map and the key both exist.
pub open spec fn spec_pod_id(sp: &RuntimeSpec) -> Option<Seq<char>> {
    match sp.annotations {
        Some(a) => if a@.contains_key(pod_id_key()) {
            Some(a@[pod_id_key()]@)
        } else {
            None
        },
        None => None,
    }
}

/// Returns the pod identifier recorded in the spec's annotations, if the
/// annotation map exists and carries the well-known key; nothing otherwise.
/// Pure and total: no side effects, no failure mode.
pub fn pod_id(sp: &RuntimeSpec) -> (r: Option<String>)
    ensures
        match r {
            Some(v) => spec_pod_id(sp) == Some(v@),
            None => spec_pod_id(sp) is None,
        },
{
    match &sp.annotations {
        Some(a) => match a.get("io.kubernetes.cri.sandbox-id") {
            Some(v) => Some(v.clone()),
            None => None,
        },
        None => None,
    }
}

} // verus!
