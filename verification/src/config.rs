//! The configuration record and its whitelist of executors.

use vstd::prelude::*;
use crate::errors::ErrorCode;
use crate::identity::Identity;

verus! {

/// The most executors that the whitelist may hold.
pub const MAX_EXECUTORS: usize = 10;

/// The singleton configuration: who administers it, where entry fees go,
/// and which executors may close positions on behalf of their owners.
#[derive(Clone, Debug, PartialEq, Eq)]
pub struct ProgramConfig {
    pub authority: Identity,
    pub treasury: Identity,
    pub authorized_executors: Vec<Identity>,
    pub bump: u8,
}

/// The configuration as a mathematical value: the whitelist is the
/// sequence of its executors in insertion order.
pub struct ConfigView {
    pub authority: Identity,
    pub treasury: Identity,
    pub executors: Seq<Identity>,
    pub bump: u8,
}

impl View for ProgramConfig {
    type V = ConfigView;

    open spec fn view(&self) -> ConfigView {
        ConfigView {
            authority: self.authority,
            treasury: self.treasury,
            executors: self.authorized_executors@,
            bump: self.bump,
        }
    }
}

/// Reported when the configuration has been created.
#[derive(Clone, Copy, Debug, PartialEq, Eq)]
pub struct ConfigInitialized {
    pub authority: Identity,
    pub treasury: Identity,
}

/// Reported when an executor has joined the whitelist.
#[derive(Clone, Copy, Debug, PartialEq, Eq)]
pub struct ExecutorAdded {
    pub executor: Identity,
}

/// Reported when an executor has been taken off the whitelist.
#[derive(Clone, Copy, Debug, PartialEq, Eq)]
pub struct ExecutorRemoved {
    pub executor: Identity,
}

/// The whitelist `executors` with every occurrence of `executor` taken
/// out and the order of the others kept.
pub open spec fn without(executors: Seq<Identity>, executor: Identity) -> Seq<Identity> {
    executors.filter(other_than(executor))
}

/// The test that holds of every identity but `executor`.
pub open spec fn other_than(executor: Identity) -> spec_fn(Identity) -> bool {
    |x: Identity| x != executor
}

/// A whitelist is valid when it is within capacity and names nobody twice.
pub open spec fn valid_whitelist(executors: Seq<Identity>) -> bool {
    executors.len() <= MAX_EXECUTORS && executors.no_duplicates()
}

impl ProgramConfig {
    /// The whitelist is within capacity and free of duplicates.
    pub open spec fn wf(&self) -> bool {
        valid_whitelist(self@.executors)
    }

    /// Whether `executor` is on the whitelist.
    pub open spec fn authorizes(&self, executor: Identity) -> bool {
        self@.executors.contains(executor)
    }

    /// Looks `executor` up in the whitelist.
    pub fn is_authorized(&self, executor: &Identity) -> (r: bool)
        ensures
            r == self.authorizes(*executor),
    {
        let mut i: usize = 0;
        while i < self.authorized_executors.len()
            invariant
                i <= self.authorized_executors.len(),
                forall|j: int| 0 <= j < i ==> self.authorized_executors@[j] != *executor,
            decreases self.authorized_executors.len() - i,
        {
            if self.authorized_executors[i] == *executor {
                return true;
            }
            i += 1;
        }
        false
    }
}

/// Creates the configuration with an empty whitelist.
pub fn initialize_config(authority: Identity, treasury: Identity, bump: u8) -> (r: (
    ProgramConfig,
    ConfigInitialized,
))
    ensures
        r.0@ == (ConfigView { authority, treasury, executors: Seq::empty(), bump }),
        r.0.wf(),
        r.1 == (ConfigInitialized { authority, treasury }),
{
    let config = ProgramConfig {
        authority,
        treasury,
        authorized_executors: Vec::new(),
        bump,
    };
    (config, ConfigInitialized { authority, treasury })
}

/// What `add_executor` does to a configuration: the configuration with
/// the executor at the end of its whitelist, or the reason for which the
/// request is rejected.
pub open spec fn add_outcome(config: ConfigView, caller: Identity, executor: Identity) -> Result<
    ConfigView,
    ErrorCode,
> {
    if caller != config.authority {
        Err(ErrorCode::Unauthorized)
    } else if config.executors.contains(executor) {
        Err(ErrorCode::ExecutorAlreadyExists)
    } else if config.executors.len() >= MAX_EXECUTORS {
        Err(ErrorCode::ExecutorListFull)
    } else {
        Ok(ConfigView { executors: config.executors.push(executor), ..config })
    }
}

/// Puts `executor` at the end of the whitelist. Only the authority may do
/// so; a duplicate and a full whitelist are rejected.
pub fn add_executor(config: &mut ProgramConfig, caller: Identity, executor: Identity) -> (r: Result<
    ExecutorAdded,
    ErrorCode,
>)
    ensures
        match add_outcome(old(config)@, caller, executor) {
            Ok(after) => r == Ok::<ExecutorAdded, ErrorCode>(ExecutorAdded { executor })
                && final(config)@ == after,
            Err(e) => r == Err::<ExecutorAdded, ErrorCode>(e) && *final(config) == *old(config),
        },
        old(config).wf() ==> final(config).wf(),
{
    if caller != config.authority {
        return Err(ErrorCode::Unauthorized);
    }
    if config.is_authorized(&executor) {
        return Err(ErrorCode::ExecutorAlreadyExists);
    }
    if config.authorized_executors.len() >= MAX_EXECUTORS {
        return Err(ErrorCode::ExecutorListFull);
    }
    config.authorized_executors.push(executor);
    Ok(ExecutorAdded { executor })
}

/// What `remove_executor` does to a configuration: the configuration
/// without the executor on its whitelist, or the reason for which the
/// request is rejected.
pub open spec fn remove_outcome(config: ConfigView, caller: Identity, executor: Identity) -> Result<
    ConfigView,
    ErrorCode,
> {
    if caller != config.authority {
        Err(ErrorCode::Unauthorized)
    } else {
        Ok(ConfigView { executors: without(config.executors, executor), ..config })
    }
}

/// Takes `executor` off the whitelist. Only the authority may do so;
/// removing an executor that is not listed changes nothing and is no error.
pub fn remove_executor(config: &mut ProgramConfig, caller: Identity, executor: Identity) -> (r:
    Result<ExecutorRemoved, ErrorCode>)
    ensures
        match remove_outcome(old(config)@, caller, executor) {
            Ok(after) => r == Ok::<ExecutorRemoved, ErrorCode>(ExecutorRemoved { executor })
                && final(config)@ == after,
            Err(e) => r == Err::<ExecutorRemoved, ErrorCode>(e) && *final(config) == *old(config),
        },
        old(config).wf() ==> final(config).wf(),
{
    if caller != config.authority {
        return Err(ErrorCode::Unauthorized);
    }
    let mut kept: Vec<Identity> = Vec::new();
    let mut i: usize = 0;
    while i < config.authorized_executors.len()
        invariant
            i <= config.authorized_executors.len(),
            *config == *old(config),
            kept@ == without(config.authorized_executors@.take(i as int), executor),
        decreases config.authorized_executors.len() - i,
    {
        let current = config.authorized_executors[i];
        proof {
            let all = config.authorized_executors@;
            assert(all.take(i + 1) =~= all.take(i as int).push(current));
            all.take(i as int).lemma_filter_push(current, other_than(executor));
        }
        if current != executor {
            kept.push(current);
        }
        i += 1;
    }
    proof {
        let all = config.authorized_executors@;
        assert(all.take(all.len() as int) =~= all);
        if old(config).wf() {
            lemma_without_keeps_validity(all, executor);
        }
    }
    config.authorized_executors = kept;
    Ok(ExecutorRemoved { executor })
}

/// Removal keeps a valid whitelist valid.
pub proof fn lemma_without_keeps_validity(executors: Seq<Identity>, executor: Identity)
    requires
        valid_whitelist(executors),
    ensures
        valid_whitelist(without(executors, executor)),
    decreases executors.len(),
{
    let keep = other_than(executor);
    executors.lemma_filter_len(keep);
    if executors.len() > 0 {
        let front = executors.drop_last();
        let last = executors.last();
        assert(executors =~= front.push(last));
        assert(front.no_duplicates());
        lemma_without_keeps_validity(front, executor);
        front.lemma_filter_push(last, keep);
        if front.filter(keep).contains(last) {
            front.lemma_filter_contains_rev(keep, last);
            let k = choose|k: int| 0 <= k < front.len() && front[k] == last;
            assert(executors[k] == executors[executors.len() - 1]);
        }
    }
}

/// Filtering out an executor that is not listed gives the same whitelist.
pub proof fn lemma_without_absent(executors: Seq<Identity>, executor: Identity)
    requires
        !executors.contains(executor),
    ensures
        without(executors, executor) == executors,
    decreases executors.len(),
{
    let keep = other_than(executor);
    reveal(Seq::filter);
    if executors.len() > 0 {
        let front = executors.drop_last();
        let last = executors.last();
        assert(executors =~= front.push(last));
        assert(executors[executors.len() - 1] != executor);
        assert forall|k: int| 0 <= k < front.len() implies front[k] != executor by {
            assert(executors[k] == front[k]);
        }
        lemma_without_absent(front, executor);
        front.lemma_filter_push(last, keep);
    } else {
        assert(executors.filter(keep) =~= executors);
    }
}

/// Removal is idempotent on executors that are not listed: when the
/// authority removes such an executor, the request succeeds and leaves the
/// configuration as it is, and so does the same request made again.
pub proof fn lemma_removing_absent_changes_nothing(
    config: ConfigView,
    caller: Identity,
    executor: Identity,
)
    requires
        caller == config.authority,
        !config.executors.contains(executor),
    ensures
        remove_outcome(config, caller, executor) == Ok::<ConfigView, ErrorCode>(config),
        remove_outcome(remove_outcome(config, caller, executor).unwrap(), caller, executor) == Ok::<
            ConfigView,
            ErrorCode,
        >(config),
{
    lemma_without_absent(config.executors, executor);
}

/// After a removal the executor is no longer listed, whatever the
/// whitelist held before.
pub proof fn lemma_removed_is_absent(executors: Seq<Identity>, executor: Identity)
    ensures
        !without(executors, executor).contains(executor),
        without(without(executors, executor), executor) == without(executors, executor),
{
    let keep = other_than(executor);
    let rest = without(executors, executor);
    if rest.contains(executor) {
        let k = choose|k: int| 0 <= k < rest.len() && rest[k] == executor;
        executors.lemma_filter_pred(keep, k);
    }
    lemma_without_absent(rest, executor);
}

} // verus!
