use vstd::prelude::*;

verus! {

/// Loading the wasm layers of an image failed. The coordinator treats this
/// as non-fatal: creation then proceeds with an empty module set.
#[derive(Clone, Copy, Debug, PartialEq, Eq, Structural)]
pub struct RetrievalError;

/// What the composition-time shim strategy supplies for building the module
/// loader: the connection target of the container daemon, the engine's name,
/// the layer media types it accepts, and whether an ahead-of-time compiler is
/// attached. The connection itself is the host's business; this value is what
/// the verified core knows of the client.
pub struct LoaderClient {
    pub containerd_address: String,
    pub namespace: String,
    pub engine_name: String,
    pub supported_layer_types: Vec<String>,
    pub has_precompiler: bool,
}

/// The process-wide slot for the module loader client: empty until one
/// initialization attempt succeeds, then holding that client for every later
/// caller. A failed attempt leaves the slot empty, so a later caller may
/// retry — failures are never cached.
pub struct ModuleLoaderCache {
    slot: Option<LoaderClient>,
}

impl View for ModuleLoaderCache {
    type V = Option<LoaderClient>;

    closed spec fn view(&self) -> Option<LoaderClient> {
        self.slot
    }
}

impl ModuleLoaderCache {
    /// What one attempt leaves in the slot: a cached client is kept whatever
    /// the attempt brought; otherwise a success fills the slot and a failure
    /// leaves it empty.
    pub open spec fn attempt_result(
        slot: Option<LoaderClient>,
        outcome: Result<LoaderClient, RetrievalError>,
    ) -> Option<LoaderClient> {
        match slot {
            Some(_) => slot,
            None => match outcome {
                Ok(c) => Some(c),
                Err(_) => None,
            },
        }
    }

    pub fn new() -> (c: ModuleLoaderCache)
        ensures
            c@ is None,
    {
        ModuleLoaderCache { slot: None }
    }

    /// The cached client, or nothing while no attempt has succeeded.
    pub fn get(&self) -> (r: Option<&LoaderClient>)
        ensures
            match r {
                Some(c) => self@ == Some(*c),
                None => self@ is None,
            },
    {
        self.slot.as_ref()
    }

    /// Completes one initialization attempt. The first stored client is kept
    /// over whatever a later attempt brings, so every caller shares it; a
    /// failure against an empty slot is handed back to the caller and caches
    /// nothing. The result is the client every caller of this attempt
    /// receives, or the failure each of them sees.
    pub fn complete_init(&mut self, outcome: Result<LoaderClient, RetrievalError>) -> (r: Result<
        &LoaderClient,
        RetrievalError,
    >)
        ensures
            final(self)@ == Self::attempt_result(old(self)@, outcome),
            r matches Ok(c) ==> final(self)@ == Some(*c),
            r is Err <==> (old(self)@ is None && outcome is Err),
    {
        match outcome {
            Ok(c) => {
                if self.slot.is_none() {
                    self.slot = Some(c);
                }
            },
            Err(e) => {
                if self.slot.is_none() {
                    return Err(e);
                }
            },
        }
        match self.slot.as_ref() {
            Some(c) => Ok(c),
            None => Err(RetrievalError),
        }
    }
}

/// The slot left by a sequence of attempts against an initially empty cache,
/// applied in order.
pub open spec fn attempts_result(outcomes: Seq<Result<LoaderClient, RetrievalError>>) -> Option<
    LoaderClient,
>
    decreases outcomes.len(),
{
    if outcomes.len() == 0 {
        None
    } else {
        ModuleLoaderCache::attempt_result(attempts_result(outcomes.drop_last()), outcomes.last())
    }
}

/// Failures are not cached: however many failing attempts run against an
/// empty cache, each one is reported and the slot stays empty, so a later
/// attempt still gets to retry.
pub proof fn lemma_failed_attempts_leave_empty(outcomes: Seq<Result<LoaderClient, RetrievalError>>)
    requires
        forall|i: int| 0 <= i < outcomes.len() ==> outcomes[i] is Err,
    ensures
        attempts_result(outcomes) is None,
    decreases outcomes.len(),
{
    if outcomes.len() > 0 {
        lemma_failed_attempts_leave_empty(outcomes.drop_last());
    }
}

/// The first successful attempt is the one every caller shares: once the
/// attempts up to some point hold failures only and that point succeeds, the
/// slot holds that point's client from then on, whatever the later attempts
/// bring.
pub proof fn lemma_first_success_shared(
    outcomes: Seq<Result<LoaderClient, RetrievalError>>,
    k: int,
)
    requires
        0 <= k < outcomes.len(),
        forall|i: int| 0 <= i < k ==> outcomes[i] is Err,
        outcomes[k] is Ok,
    ensures
        forall|n: int|
            k < n <= outcomes.len() ==> attempts_result(outcomes.take(n)) == Some(
                outcomes[k]->Ok_0,
            ),
    decreases outcomes.len(),
{
    assert forall|n: int|
        k < n <= outcomes.len() implies attempts_result(outcomes.take(n)) == Some(
        outcomes[k]->Ok_0,
    ) by {
        lemma_prefix_holds_success(outcomes, k, n);
    }
}

proof fn lemma_prefix_holds_success(
    outcomes: Seq<Result<LoaderClient, RetrievalError>>,
    k: int,
    n: int,
)
    requires
        0 <= k < n <= outcomes.len(),
        forall|i: int| 0 <= i < k ==> outcomes[i] is Err,
        outcomes[k] is Ok,
    ensures
        attempts_result(outcomes.take(n)) == Some(outcomes[k]->Ok_0),
    decreases n,
{
    let pre = outcomes.take(n);
    assert(pre.last() == outcomes[n - 1]);
    assert(pre.drop_last() =~= outcomes.take(n - 1));
    if n - 1 == k {
        lemma_failed_attempts_leave_empty(outcomes.take(k));
    } else {
        lemma_prefix_holds_success(outcomes, k, n - 1);
    }
}

} // verus!
