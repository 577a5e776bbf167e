//! The subgraph instance and its dispatch engine.
//!
//! An instance owns one host per data source, in manifest order, and is
//! the sole entry point for constructing that collection from a manifest
//! and for dispatching a trigger across it. Dispatch threads a single list
//! of pending entity operations through every interested host, strictly in
//! manifest order: the list produced by one host is the exact input of the
//! next, and the first failure aborts the whole dispatch.

use vstd::prelude::*;
use crate::chain::{EthereumBlock, EthereumCall, EthereumTrigger, Log, Transaction};
use crate::host::{CreationError, EntityOperation, ProcessError, RuntimeHost, RuntimeHostBuilder};
use crate::manifest::{DataSource, SubgraphManifest};

verus! {

/// A trigger together with the block-context data it resolved to: exactly
/// what the hosts receive. A log or call trigger carries the transaction
/// that produced it; a block trigger carries its call context.
#[derive(Clone, Copy, Debug)]
pub enum ResolvedTrigger {
    Log(Transaction, Log),
    Call(Transaction, EthereumCall),
    Block(EthereumCall),
}

/// Whether one host is interested in a resolved trigger, by the predicate
/// of the trigger's kind.
pub open spec fn host_matches<H: RuntimeHost>(
    host: H,
    block: EthereumBlock,
    trigger: ResolvedTrigger,
) -> bool {
    match trigger {
        ResolvedTrigger::Log(_, log) => host.matches_log_spec(log),
        ResolvedTrigger::Call(_, call) => host.matches_call_spec(call),
        ResolvedTrigger::Block(call) => host.matches_block_spec(block, call),
    }
}

/// Whether one host is interested in a trigger that has not been resolved
/// yet, by the predicate of the trigger's kind.
pub open spec fn trigger_interest<H: RuntimeHost>(
    host: H,
    block: EthereumBlock,
    trigger: EthereumTrigger,
) -> bool {
    match trigger {
        EthereumTrigger::Log(log) => host.matches_log_spec(log),
        EthereumTrigger::Call(call) => host.matches_call_spec(call),
        EthereumTrigger::Block(call) => host.matches_block_spec(block, call),
    }
}

/// The outcome of one host's processing step for a resolved trigger: the
/// next list of pending operations, or the failure's message.
pub open spec fn host_step<H: RuntimeHost>(
    host: H,
    block: EthereumBlock,
    trigger: ResolvedTrigger,
    operations: Seq<EntityOperation>,
) -> Result<Seq<EntityOperation>, Seq<char>> {
    match trigger {
        ResolvedTrigger::Log(transaction, log) => host.process_log_spec(
            block,
            transaction,
            log,
            operations,
        ),
        ResolvedTrigger::Call(transaction, call) => host.process_call_spec(
            block,
            transaction,
            call,
            operations,
        ),
        ResolvedTrigger::Block(_) => host.process_block_spec(block, operations),
    }
}

/// The outcome of dispatching a resolved trigger across `hosts` in order:
/// each interested host in turn transforms the pending operations, a host
/// that is not interested is skipped, and the first failure is the
/// dispatch's failure.
pub open spec fn dispatch<H: RuntimeHost>(
    hosts: Seq<H>,
    block: EthereumBlock,
    trigger: ResolvedTrigger,
    operations: Seq<EntityOperation>,
) -> Result<Seq<EntityOperation>, Seq<char>>
    decreases hosts.len(),
{
    if hosts.len() == 0 {
        Ok(operations)
    } else if host_matches(hosts[0], block, trigger) {
        match host_step(hosts[0], block, trigger, operations) {
            Ok(next) => dispatch(hosts.drop_first(), block, trigger, next),
            Err(message) => Err(message),
        }
    } else {
        dispatch(hosts.drop_first(), block, trigger, operations)
    }
}

/// The ordered subsequence of `hosts` interested in a resolved trigger.
pub open spec fn matching_hosts<H: RuntimeHost>(
    hosts: Seq<H>,
    block: EthereumBlock,
    trigger: ResolvedTrigger,
) -> Seq<H>
    decreases hosts.len(),
{
    if hosts.len() == 0 {
        Seq::empty()
    } else if host_matches(hosts[0], block, trigger) {
        seq![hosts[0]] + matching_hosts(hosts.drop_first(), block, trigger)
    } else {
        matching_hosts(hosts.drop_first(), block, trigger)
    }
}

/// The outcome of threading the pending operations through every host of
/// `hosts` in order, where every host processes.
pub open spec fn thread_through<H: RuntimeHost>(
    hosts: Seq<H>,
    block: EthereumBlock,
    trigger: ResolvedTrigger,
    operations: Seq<EntityOperation>,
) -> Result<Seq<EntityOperation>, Seq<char>>
    decreases hosts.len(),
{
    if hosts.len() == 0 {
        Ok(operations)
    } else {
        match host_step(hosts[0], block, trigger, operations) {
            Ok(next) => thread_through(hosts.drop_first(), block, trigger, next),
            Err(message) => Err(message),
        }
    }
}

/// Dispatching across a host collection is the same as threading the
/// operations through exactly the interested hosts, in their original
/// order: hosts that are not interested contribute nothing.
pub proof fn lemma_dispatch_is_thread_through_matching<H: RuntimeHost>(
    hosts: Seq<H>,
    block: EthereumBlock,
    trigger: ResolvedTrigger,
    operations: Seq<EntityOperation>,
)
    ensures
        dispatch(hosts, block, trigger, operations) == thread_through(
            matching_hosts(hosts, block, trigger),
            block,
            trigger,
            operations,
        ),
    decreases hosts.len(),
{
    if hosts.len() == 0 {
    } else if host_matches(hosts[0], block, trigger) {
        let matched = seq![hosts[0]] + matching_hosts(hosts.drop_first(), block, trigger);
        assert(matched[0] == hosts[0]);
        assert(matched.drop_first() =~= matching_hosts(hosts.drop_first(), block, trigger));
        match host_step(hosts[0], block, trigger, operations) {
            Ok(next) => {
                lemma_dispatch_is_thread_through_matching(
                    hosts.drop_first(),
                    block,
                    trigger,
                    next,
                );
            },
            Err(_) => {},
        }
    } else {
        lemma_dispatch_is_thread_through_matching(hosts.drop_first(), block, trigger, operations);
    }
}

/// Threading operations through a host sequence can be cut at any point
/// `m`: the whole chain is the chain over the first `m` hosts, followed —
/// if that prefix succeeded — by the chain over the rest, starting from
/// exactly the list the prefix produced. A failure inside the prefix is
/// the failure of the whole chain.
pub proof fn lemma_thread_through_split<H: RuntimeHost>(
    hosts: Seq<H>,
    block: EthereumBlock,
    trigger: ResolvedTrigger,
    operations: Seq<EntityOperation>,
    m: int,
)
    requires
        0 <= m <= hosts.len(),
    ensures
        thread_through(hosts, block, trigger, operations) == (match thread_through(
            hosts.take(m),
            block,
            trigger,
            operations,
        ) {
            Ok(mid) => thread_through(hosts.skip(m), block, trigger, mid),
            Err(message) => Err(message),
        }),
    decreases m,
{
    if m == 0 {
        assert(hosts.take(0) =~= Seq::<H>::empty());
        assert(hosts.skip(0) =~= hosts);
    } else {
        assert(hosts.take(m)[0] == hosts[0]);
        match host_step(hosts[0], block, trigger, operations) {
            Ok(next) => {
                assert(hosts.take(m).drop_first() =~= hosts.drop_first().take(m - 1));
                assert(hosts.drop_first().skip(m - 1) =~= hosts.skip(m));
                lemma_thread_through_split(hosts.drop_first(), block, trigger, next, m - 1);
            },
            Err(_) => {},
        }
    }
}

/// The sequential-threading law: if the first `m` hosts of the chain have
/// succeeded and produced `mid`, then the chain over the first `m + 1`
/// hosts is exactly host `m`'s own step applied to `mid` — the list passed
/// to each host is the list the previous host returned, and for `m == 0`
/// it is the dispatch's input list.
pub proof fn lemma_thread_through_step<H: RuntimeHost>(
    hosts: Seq<H>,
    block: EthereumBlock,
    trigger: ResolvedTrigger,
    operations: Seq<EntityOperation>,
    m: int,
    mid: Seq<EntityOperation>,
)
    requires
        0 <= m < hosts.len(),
        thread_through(hosts.take(m), block, trigger, operations) == Ok::<
            Seq<EntityOperation>,
            Seq<char>,
        >(mid),
    ensures
        thread_through(hosts.take(m + 1), block, trigger, operations) == host_step(
            hosts[m],
            block,
            trigger,
            mid,
        ),
{
    let prefix = hosts.take(m + 1);
    assert(prefix.take(m) =~= hosts.take(m));
    lemma_thread_through_split(prefix, block, trigger, operations, m);
    let tail = prefix.skip(m);
    assert(tail =~= seq![hosts[m]]);
    assert(tail[0] == hosts[m]);
    assert(tail.drop_first() =~= Seq::<H>::empty());
    match host_step(hosts[m], block, trigger, mid) {
        Ok(next) => {
            assert(thread_through(tail, block, trigger, mid) == thread_through(
                tail.drop_first(),
                block,
                trigger,
                next,
            ));
            assert(thread_through(tail.drop_first(), block, trigger, next) == Ok::<
                Seq<EntityOperation>,
                Seq<char>,
            >(next));
        },
        Err(message) => {
            assert(thread_through(tail, block, trigger, mid) == Err::<
                Seq<EntityOperation>,
                Seq<char>,
            >(message));
        },
    }
}

/// The short-circuit law: if the first `m` hosts of the chain succeeded
/// with `mid` and host `m`'s step fails, the whole chain fails with that
/// step's message — the hosts after position `m` never contribute.
pub proof fn lemma_thread_through_failure<H: RuntimeHost>(
    hosts: Seq<H>,
    block: EthereumBlock,
    trigger: ResolvedTrigger,
    operations: Seq<EntityOperation>,
    m: int,
    mid: Seq<EntityOperation>,
    message: Seq<char>,
)
    requires
        0 <= m < hosts.len(),
        thread_through(hosts.take(m), block, trigger, operations) == Ok::<
            Seq<EntityOperation>,
            Seq<char>,
        >(mid),
        host_step(hosts[m], block, trigger, mid) == Err::<Seq<EntityOperation>, Seq<char>>(
            message,
        ),
    ensures
        thread_through(hosts, block, trigger, operations) == Err::<
            Seq<EntityOperation>,
            Seq<char>,
        >(message),
{
    lemma_thread_through_split(hosts, block, trigger, operations, m);
    assert(hosts.skip(m)[0] == hosts[m]);
}

/// An instance of a subgraph: the runtime hosts of its data sources.
///
/// The hosts stand in the same order as the data sources in the subgraph
/// manifest, and the collection never changes after construction; trigger
/// dispatch walks it in that order.
pub struct SubgraphInstance<H: RuntimeHost> {
    hosts: Vec<H>,
}

impl<H: RuntimeHost> SubgraphInstance<H> {
    /// The hosts of this instance, in manifest order.
    pub closed spec fn hosts(&self) -> Seq<H> {
        self.hosts@
    }

    /// The number of hosts of this instance.
    pub fn host_count(&self) -> (r: usize)
        ensures
            r == self.hosts().len(),
    {
        self.hosts.len()
    }

    /// Whether any host of this instance is interested in the given log:
    /// true exactly when at least one host's log predicate is, and so
    /// false for an instance with no hosts.
    pub fn matches_log(&self, log: &Log) -> (r: bool)
        ensures
            r == exists|i: int|
                0 <= i < self.hosts().len() && self.hosts()[i].matches_log_spec(*log),
    {
        let n = self.hosts.len();
        let mut i: usize = 0;
        while i < n
            invariant
                0 <= i <= n,
                n == self.hosts().len(),
                forall|j: int| 0 <= j < i ==> !self.hosts()[j].matches_log_spec(*log),
            decreases n - i,
        {
            if self.hosts[i].matches_log(log) {
                return true;
            }
            i = i + 1;
        }
        false
    }

    /// Whether any host of this instance is interested in the given
    /// trigger, by the predicate of the trigger's kind: true exactly when
    /// at least one host's predicate is, and so false for an instance with
    /// no hosts.
    pub fn matches(&self, block: &EthereumBlock, trigger: &EthereumTrigger) -> (r: bool)
        ensures
            r == exists|i: int|
                0 <= i < self.hosts().len() && trigger_interest(
                    self.hosts()[i],
                    *block,
                    *trigger,
                ),
    {
        let n = self.hosts.len();
        let mut i: usize = 0;
        while i < n
            invariant
                0 <= i <= n,
                n == self.hosts().len(),
                forall|j: int|
                    0 <= j < i ==> !trigger_interest(self.hosts()[j], *block, *trigger),
            decreases n - i,
        {
            let interested = match trigger {
                EthereumTrigger::Log(log) => self.hosts[i].matches_log(log),
                EthereumTrigger::Call(call) => self.hosts[i].matches_call(call),
                EthereumTrigger::Block(call) => self.hosts[i].matches_block(block, call),
            };
            if interested {
                return true;
            }
            i = i + 1;
        }
        false
    }
}

/// How an executable dispatch result relates to the spec-level dispatch
/// outcome: the same operations on success, and on failure a host error
/// carrying the failing step's message.
pub open spec fn run_result_agrees<H: RuntimeHost>(
    r: Result<Vec<EntityOperation>, ProcessError>,
    hosts: Seq<H>,
    block: EthereumBlock,
    trigger: ResolvedTrigger,
    operations: Seq<EntityOperation>,
) -> bool {
    match dispatch(hosts, block, trigger, operations) {
        Ok(out) => r matches Ok(v) && v@ == out,
        Err(message) => r matches Err(ProcessError::HostFailed(e)) && e.message@ == message,
    }
}

impl<H: RuntimeHost> SubgraphInstance<H> {
    /// Dispatches one trigger across this instance's hosts.
    ///
    /// A log or call trigger is first resolved to the transaction that
    /// produced it; if the block context has none, the dispatch fails at
    /// once and no host runs. Otherwise the pending operations are
    /// threaded through every interested host in manifest order, and the
    /// first host failure aborts the dispatch with that host's error.
    pub fn process_trigger(
        &self,
        block: &EthereumBlock,
        trigger: EthereumTrigger,
        entity_operations: Vec<EntityOperation>,
    ) -> (r: Result<Vec<EntityOperation>, ProcessError>)
        ensures
            (match trigger {
                EthereumTrigger::Log(log) => (match block.transaction_for_log_spec(log) {
                    None => r == Err::<Vec<EntityOperation>, ProcessError>(
                        ProcessError::NoTransactionForLog,
                    ),
                    Some(transaction) => run_result_agrees(
                        r,
                        self.hosts(),
                        *block,
                        ResolvedTrigger::Log(transaction, log),
                        entity_operations@,
                    ),
                }),
                EthereumTrigger::Call(call) => (match block.transaction_for_call_spec(call) {
                    None => r == Err::<Vec<EntityOperation>, ProcessError>(
                        ProcessError::NoTransactionForCall,
                    ),
                    Some(transaction) => run_result_agrees(
                        r,
                        self.hosts(),
                        *block,
                        ResolvedTrigger::Call(transaction, call),
                        entity_operations@,
                    ),
                }),
                EthereumTrigger::Block(call) => run_result_agrees(
                    r,
                    self.hosts(),
                    *block,
                    ResolvedTrigger::Block(call),
                    entity_operations@,
                ),
            }),
    {
        match trigger {
            EthereumTrigger::Log(log) => match block.transaction_for_log(&log) {
                None => Err(ProcessError::NoTransactionForLog),
                Some(transaction) => self.run_hosts(
                    block,
                    ResolvedTrigger::Log(transaction, log),
                    entity_operations,
                ),
            },
            EthereumTrigger::Call(call) => match block.transaction_for_call(&call) {
                None => Err(ProcessError::NoTransactionForCall),
                Some(transaction) => self.run_hosts(
                    block,
                    ResolvedTrigger::Call(transaction, call),
                    entity_operations,
                ),
            },
            EthereumTrigger::Block(call) => self.run_hosts(
                block,
                ResolvedTrigger::Block(call),
                entity_operations,
            ),
        }
    }

    /// The fold engine: threads the pending operations through every host
    /// interested in the resolved trigger, in manifest order, as a chain
    /// of sequential steps. Step `i + 1` only starts once step `i` has
    /// produced the next list; the first failure short-circuits the chain.
    fn run_hosts(
        &self,
        block: &EthereumBlock,
        trigger: ResolvedTrigger,
        entity_operations: Vec<EntityOperation>,
    ) -> (r: Result<Vec<EntityOperation>, ProcessError>)
        ensures
            run_result_agrees(r, self.hosts(), *block, trigger, entity_operations@),
    {
        let mut operations = entity_operations;
        let ghost initial = operations@;
        let n = self.hosts.len();
        let mut i: usize = 0;
        proof {
            assert(self.hosts().skip(0) =~= self.hosts());
        }
        while i < n
            invariant
                0 <= i <= n,
                n == self.hosts().len(),
                initial == entity_operations@,
                dispatch(self.hosts(), *block, trigger, initial) == dispatch(
                    self.hosts().skip(i as int),
                    *block,
                    trigger,
                    operations@,
                ),
            decreases n - i,
        {
            let host = &self.hosts[i];
            proof {
                assert(self.hosts().skip(i as int)[0] == self.hosts()[i as int]);
                assert(self.hosts().skip(i as int).drop_first() =~= self.hosts().skip(
                    i as int + 1,
                ));
            }
            let interested = match &trigger {
                ResolvedTrigger::Log(_, log) => host.matches_log(log),
                ResolvedTrigger::Call(_, call) => host.matches_call(call),
                ResolvedTrigger::Block(call) => host.matches_block(block, call),
            };
            if interested {
                let ghost current = operations@;
                let step = match &trigger {
                    ResolvedTrigger::Log(transaction, log) => host.process_log(
                        block,
                        transaction,
                        log,
                        operations,
                    ),
                    ResolvedTrigger::Call(transaction, call) => host.process_call(
                        block,
                        transaction,
                        call,
                        operations,
                    ),
                    ResolvedTrigger::Block(_) => host.process_block(block, operations),
                };
                match step {
                    Ok(next) => {
                        operations = next;
                    },
                    Err(e) => {
                        proof {
                            assert(dispatch(self.hosts().skip(i as int), *block, trigger, current)
                                == Err::<Seq<EntityOperation>, Seq<char>>(e.message@));
                        }
                        return Err(ProcessError::HostFailed(e));
                    },
                }
            }
            i = i + 1;
        }
        proof {
            assert(self.hosts().skip(n as int) =~= Seq::<H>::empty());
        }
        Ok(operations)
    }
}

/// The hosts that building every data source of `data_sources` in order
/// yields: the successfully built hosts, in manifest order, failures left
/// out.
pub open spec fn built_hosts<B: RuntimeHostBuilder>(
    builder: B,
    manifest_id: Seq<char>,
    data_sources: Seq<DataSource>,
) -> Seq<B::Host>
    decreases data_sources.len(),
{
    if data_sources.len() == 0 {
        Seq::empty()
    } else {
        let init = built_hosts(builder, manifest_id, data_sources.drop_last());
        match builder.build_spec(manifest_id, data_sources.last()) {
            Ok(host) => init.push(host),
            Err(_) => init,
        }
    }
}

/// The messages of the data sources of `data_sources` that fail to build,
/// in manifest order.
pub open spec fn build_failures<B: RuntimeHostBuilder>(
    builder: B,
    manifest_id: Seq<char>,
    data_sources: Seq<DataSource>,
) -> Seq<Seq<char>>
    decreases data_sources.len(),
{
    if data_sources.len() == 0 {
        Seq::empty()
    } else {
        let init = build_failures(builder, manifest_id, data_sources.drop_last());
        match builder.build_spec(manifest_id, data_sources.last()) {
            Ok(_) => init,
            Err(message) => init.push(message),
        }
    }
}

/// There are no build failures exactly when every data source builds.
pub proof fn lemma_no_failures_iff_all_builds_ok<B: RuntimeHostBuilder>(
    builder: B,
    manifest_id: Seq<char>,
    data_sources: Seq<DataSource>,
)
    ensures
        build_failures(builder, manifest_id, data_sources).len() == 0 <==> (forall|i: int|
            0 <= i < data_sources.len() ==> builder.build_spec(manifest_id, data_sources[i])
                is Ok),
    decreases data_sources.len(),
{
    if data_sources.len() > 0 {
        lemma_no_failures_iff_all_builds_ok(builder, manifest_id, data_sources.drop_last());
        let prior = data_sources.drop_last();
        assert(forall|i: int| 0 <= i < prior.len() ==> prior[i] == data_sources[i]);
        if builder.build_spec(manifest_id, data_sources.last()) is Ok {
            if forall|i: int|
                0 <= i < prior.len() ==> builder.build_spec(manifest_id, prior[i]) is Ok {
                assert(forall|i: int|
                    0 <= i < data_sources.len() ==> builder.build_spec(
                        manifest_id,
                        data_sources[i],
                    ) is Ok) by {
                    assert(data_sources.last() == data_sources[data_sources.len() - 1]);
                }
            }
        } else {
            assert(!(builder.build_spec(manifest_id, data_sources[data_sources.len() - 1])
                is Ok));
        }
    }
}

/// When every data source builds, the instance's host order equals the
/// manifest's data-source order: there is one host per data source, and
/// host `i` is the host built for data source `i`.
pub proof fn lemma_all_builds_ok_hosts_in_manifest_order<B: RuntimeHostBuilder>(
    builder: B,
    manifest_id: Seq<char>,
    data_sources: Seq<DataSource>,
)
    requires
        forall|i: int|
            0 <= i < data_sources.len() ==> builder.build_spec(manifest_id, data_sources[i])
                is Ok,
    ensures
        built_hosts(builder, manifest_id, data_sources).len() == data_sources.len(),
        forall|i: int|
            0 <= i < data_sources.len() ==> built_hosts(builder, manifest_id, data_sources)[i]
                == builder.build_spec(manifest_id, data_sources[i])->Ok_0,
    decreases data_sources.len(),
{
    if data_sources.len() > 0 {
        let prior = data_sources.drop_last();
        assert(forall|i: int| 0 <= i < prior.len() ==> prior[i] == data_sources[i]);
        assert(data_sources.last() == data_sources[data_sources.len() - 1]);
        lemma_all_builds_ok_hosts_in_manifest_order(builder, manifest_id, prior);
    }
}

/// The failure messages joined with a comma between each two, in order.
pub open spec fn joined_with_commas(messages: Seq<Seq<char>>) -> Seq<char>
    decreases messages.len(),
{
    if messages.len() == 0 {
        Seq::empty()
    } else if messages.len() == 1 {
        messages[0]
    } else {
        messages[0] + ", "@ + joined_with_commas(messages.drop_first())
    }
}

/// The views of a list of strings.
pub open spec fn message_views(messages: Seq<String>) -> Seq<Seq<char>> {
    messages.map_values(|m: String| m@)
}

/// The message of an aggregated construction error, listing every
/// underlying build failure's message.
pub open spec fn creation_error_message(failure_messages: Seq<Seq<char>>) -> Seq<char> {
    "Errors loading data sources: "@ + joined_with_commas(failure_messages)
}

proof fn lemma_joined_push(messages: Seq<Seq<char>>, last: Seq<char>)
    ensures
        joined_with_commas(messages.push(last)) == (if messages.len() == 0 {
            last
        } else {
            joined_with_commas(messages) + ", "@ + last
        }),
    decreases messages.len(),
{
    let whole = messages.push(last);
    if messages.len() == 0 {
        assert(whole.len() == 1);
        assert(whole[0] == last);
    } else {
        assert(whole[0] == messages[0]);
        assert(whole.drop_first() =~= messages.drop_first().push(last));
        lemma_joined_push(messages.drop_first(), last);
        if messages.len() == 1 {
            assert(joined_with_commas(whole) == messages[0] + ", "@ + last);
            assert(joined_with_commas(messages) == messages[0]);
        } else {
            assert(joined_with_commas(whole) == messages[0] + ", "@ + (joined_with_commas(
                messages.drop_first(),
            ) + ", "@ + last));
            assert(messages[0] + ", "@ + (joined_with_commas(messages.drop_first()) + ", "@
                + last) =~= (messages[0] + ", "@ + joined_with_commas(messages.drop_first()))
                + ", "@ + last);
        }
    }
}

/// Joins error messages with a comma between each two.
fn join_with_commas(messages: &Vec<String>) -> (r: String)
    ensures
        r@ == joined_with_commas(message_views(messages@)),
{
    let mut r = String::new();
    let n = messages.len();
    let mut i: usize = 0;
    proof {
        assert(message_views(messages@.take(0)) =~= Seq::<Seq<char>>::empty());
    }
    while i < n
        invariant
            0 <= i <= n,
            n == messages@.len(),
            r@ == joined_with_commas(message_views(messages@.take(i as int))),
        decreases n - i,
    {
        proof {
            assert(message_views(messages@.take(i as int + 1)) =~= message_views(
                messages@.take(i as int),
            ).push(messages@[i as int]@));
            lemma_joined_push(message_views(messages@.take(i as int)), messages@[i as int]@);
        }
        if i > 0 {
            r.append(", ");
        }
        let message = &messages[i];
        r.append(message.as_str());
        i = i + 1;
    }
    proof {
        assert(messages@.take(n as int) =~= messages@);
    }
    r
}

impl<H: RuntimeHost> SubgraphInstance<H> {
    /// Constructs a subgraph instance from a manifest, building one host
    /// per data source in manifest order.
    ///
    /// Construction is all-or-nothing: if any data source fails to build,
    /// no instance is produced and the error's message aggregates every
    /// individual failure's description, in manifest order. Otherwise the
    /// instance's hosts are exactly the built hosts, in manifest order.
    pub fn from_manifest<B: RuntimeHostBuilder<Host = H>>(
        manifest: SubgraphManifest,
        host_builder: B,
    ) -> (r: Result<Self, CreationError>)
        ensures
            (match r {
                Ok(instance) => build_failures(
                    host_builder,
                    manifest.id@,
                    manifest.data_sources@,
                ).len() == 0 && instance.hosts() == built_hosts(
                    host_builder,
                    manifest.id@,
                    manifest.data_sources@,
                ),
                Err(e) => build_failures(host_builder, manifest.id@, manifest.data_sources@).len()
                    > 0 && e.message@ == creation_error_message(
                    build_failures(host_builder, manifest.id@, manifest.data_sources@),
                ),
            }),
    {
        let SubgraphManifest { id, data_sources } = manifest;
        let ghost all = data_sources@;
        let mut remaining = data_sources;
        let mut hosts: Vec<H> = Vec::new();
        let mut failures: Vec<String> = Vec::new();
        proof {
            assert(all.take(0) =~= Seq::<DataSource>::empty());
            assert(all.skip(0) =~= all);
        }
        while remaining.len() > 0
            invariant
                remaining@.len() <= all.len(),
                remaining@ == all.skip(all.len() - remaining@.len()),
                hosts@ == built_hosts(host_builder, id@, all.take(all.len() - remaining@.len())),
                message_views(failures@) == build_failures(
                    host_builder,
                    id@,
                    all.take(all.len() - remaining@.len()),
                ),
            decreases remaining@.len(),
        {
            let ghost i = all.len() - remaining@.len();
            let data_source = remaining.remove(0);
            proof {
                assert(data_source == all.skip(i)[0]);
                assert(all.skip(i)[0] == all[i]);
                assert(all.skip(i).drop_first() =~= all.skip(i + 1));
                assert(remaining@ == all.skip(i + 1));
                assert(all.take(i + 1).drop_last() =~= all.take(i));
                assert(all.take(i + 1).last() == all[i]);
            }
            match host_builder.build(&id, data_source) {
                Ok(host) => {
                    hosts.push(host);
                },
                Err(e) => {
                    proof {
                        assert(message_views(failures@.push(e.message)) =~= message_views(
                            failures@,
                        ).push(e.message@));
                    }
                    failures.push(e.message);
                },
            }
        }
        proof {
            assert(all.take(all.len() as int) =~= all);
        }
        if failures.len() > 0 {
            let joined = join_with_commas(&failures);
            let mut message = String::from_str("Errors loading data sources: ");
            message.append(joined.as_str());
            Err(CreationError { message })
        } else {
            Ok(SubgraphInstance { hosts })
        }
    }
}

} // verus!
