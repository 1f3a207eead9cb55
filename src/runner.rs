use crate::provision::texts;
use crate::registry::ProcessRegistry;
use vstd::prelude::*;

verus! {

/// Registers a child once it has been spawned. A spawn that failed leaves
/// the registry as it was and hands its error back.
pub fn record_spawn(registry: &mut ProcessRegistry, spawned: Result<u32, String>) -> (r: Result<u32, String>)
    ensures
        r == spawned,
        spawned matches Ok(pid) ==> final(registry)@ == old(registry)@.insert(pid),
        spawned is Err ==> final(registry)@ == old(registry)@,
{
    match spawned {
        Ok(pid) => {
            registry.insert(pid);
            Ok(pid)
        },
        Err(e) => Err(e),
    }
}

/// The arguments of the main application process: its entry script
/// followed by the caller's arguments.
pub fn launch_arguments(command_args: &Vec<String>) -> (r: Vec<String>)
    ensures
        texts(r@) == seq!["main.js"@] + texts(command_args@),
{
    let mut r: Vec<String> = Vec::new();
    r.push(String::from_str("main.js"));
    let mut i: usize = 0;
    while i < command_args.len()
        invariant
            i <= command_args.len(),
            texts(r@) =~= seq!["main.js"@] + texts(command_args@.take(i as int)),
        decreases command_args.len() - i,
    {
        let arg = command_args[i].clone();
        let ghost before = r@;
        r.push(arg);
        assert(texts(r@) =~= texts(before).push(arg@));
        assert(texts(command_args@.take(i + 1)) =~= texts(command_args@.take(i as int)).push(command_args@[i as int]@));
        i = i + 1;
    }
    assert(command_args@.take(i as int) =~= command_args@);
    r
}

/// Why the dependency install failed.
pub enum DependencyError {
    /// The installer process could not be started.
    SpawnFailed(String),
    /// Waiting for the installer process failed.
    WaitFailed(String),
    /// The installer exited with failure.
    Failed,
}

pub open spec fn dependency_error_text(e: DependencyError) -> Seq<char> {
    match e {
        DependencyError::SpawnFailed(m) => m@,
        DependencyError::WaitFailed(m) => m@,
        DependencyError::Failed => "Failed to install dependencies"@,
    }
}

impl DependencyError {
    pub fn message(&self) -> (r: String)
        ensures
            r@ == dependency_error_text(*self),
    {
        match self {
            DependencyError::SpawnFailed(m) => m.clone(),
            DependencyError::WaitFailed(m) => m.clone(),
            DependencyError::Failed => String::from_str("Failed to install dependencies"),
        }
    }
}

/// Concludes the blocking dependency install of child `pid`: `waited` is its
/// exit success, or why the wait failed. Once the wait completes the child
/// has exited and is no longer tracked, whether it succeeded or not; if the
/// wait itself failed the child may still run, so it stays tracked.
pub fn finish_dependency_install(registry: &mut ProcessRegistry, pid: u32, waited: Result<bool, String>) -> (r: Result<(), DependencyError>)
    ensures
        waited == Ok::<bool, String>(true) ==> r is Ok && final(registry)@ == old(registry)@.remove(pid),
        waited == Ok::<bool, String>(false) ==> r == Err::<(), DependencyError>(DependencyError::Failed) && final(registry)@ == old(registry)@.remove(pid),
        waited matches Err(e) ==> r == Err::<(), DependencyError>(DependencyError::WaitFailed(e)) && final(registry)@ == old(registry)@,
{
    match waited {
        Err(e) => Err(DependencyError::WaitFailed(e)),
        Ok(success) => {
            registry.remove(pid);
            if success {
                Ok(())
            } else {
                Err(DependencyError::Failed)
            }
        },
    }
}

/// When `record_spawn` took the registry from `before` to `after` on a
/// successful spawn, a snapshot of `after` (one listing exactly its
/// identifiers, as `ProcessRegistry::snapshot` returns) lists the spawned
/// identifier.
pub proof fn lemma_spawned_in_next_snapshot(
    before: Set<u32>,
    after: Set<u32>,
    spawned: Result<u32, String>,
    snapshot: Seq<u32>,
)
    requires
        spawned matches Ok(pid) ==> after == before.insert(pid),
        snapshot.to_set() == after,
    ensures
        spawned matches Ok(pid) ==> snapshot.contains(pid),
{
    if let Ok(pid) = spawned {
        assert(snapshot.to_set().contains(pid));
    }
}

} // verus!
