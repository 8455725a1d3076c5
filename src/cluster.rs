//! Decisions of the cluster executor: the communication layout of a run,
//! the default peer addresses, the supervising wait, and the outcome of
//! joining the workers.
use vstd::prelude::*;
use vstd::string::StringExecFns;

verus! {

/// The port of the first process where no addresses are given; process
/// `i` listens on this plus `i`.
pub const BASE_PORT: usize = 2101;

/// The decimal digit `d`.
pub open spec fn digit_char(d: nat) -> char {
    seq!['0', '1', '2', '3', '4', '5', '6', '7', '8', '9'][d as int]
}

/// The decimal notation of `n`, without leading zeros.
pub open spec fn decimal(n: nat) -> Seq<char>
    decreases n,
{
    if n < 10 {
        seq![digit_char(n)]
    } else {
        decimal(n / 10).push(digit_char(n % 10))
    }
}

/// The address `localhost:<port>`.
pub open spec fn localhost_at(port: nat) -> Seq<char> {
    seq!['l', 'o', 'c', 'a', 'l', 'h', 'o', 's', 't', ':'] + decimal(port)
}

/// Relies on std's `format!` with `{}` on a `usize`, which writes its
/// decimal notation.
#[verifier::external_body]
fn decimal_string(n: usize) -> (r: String)
    ensures
        r@ == decimal(n as nat),
{
    format!("{}", n)
}

/// The address `localhost:<port>`.
fn localhost_address(port: usize) -> (r: String)
    ensures
        r@ == localhost_at(port as nat),
{
    let digits = decimal_string(port);
    let host = String::from_str("localhost:");
    proof {
        reveal_strlit("localhost:");
    }
    let r = host.concat(digits.as_str());
    assert(r@ =~= localhost_at(port as nat));
    r
}

/// `addresses` are the default addresses of `processes` processes.
pub open spec fn is_default_addressing(addresses: Seq<String>, processes: usize) -> bool {
    &&& addresses.len() == processes
    &&& forall|i: int|
        0 <= i < processes ==> #[trigger] addresses[i]@ == localhost_at((BASE_PORT + i) as nat)
}

/// How the workers of a run communicate.
pub enum CommunicationPlan {
    /// All workers are threads of this process, sharing memory.
    Process { threads: usize },
    /// Workers span several processes, one address per process; this
    /// process is entry `process` of `addresses`.
    Cluster { threads: usize, process: usize, addresses: Vec<String> },
}

/// The addresses of `processes` processes on this host, at consecutive
/// ports from `BASE_PORT`.
pub fn default_addresses(processes: usize) -> (r: Vec<String>)
    requires
        processes + BASE_PORT <= usize::MAX,
    ensures
        is_default_addressing(r@, processes),
{
    let mut addresses: Vec<String> = Vec::new();
    let mut index: usize = 0;
    while index < processes
        invariant
            index <= processes,
            processes + BASE_PORT <= usize::MAX,
            addresses.len() == index,
            forall|i: int| 0 <= i < index ==> #[trigger] addresses[i]@ == localhost_at((BASE_PORT + i) as nat),
        decreases processes - index,
    {
        addresses.push(localhost_address(BASE_PORT + index));
        index = index + 1;
    }
    addresses
}

/// The communication layout for `threads` threads per process: one
/// process where `processes` is zero, else a cluster of `processes`
/// processes at `addresses`, or at the default local addresses where none
/// are given.
pub fn communication_plan(
    threads: usize,
    process: usize,
    processes: usize,
    addresses: Option<Vec<String>>,
) -> (r: CommunicationPlan)
    requires
        processes + BASE_PORT <= usize::MAX,
    ensures
        processes == 0 ==> (r == (CommunicationPlan::Process { threads })),
        processes > 0 ==> r is Cluster,
        processes > 0 ==> (r->Cluster_threads == threads && r->Cluster_process == process),
        processes > 0 && addresses is Some ==> (r->Cluster_addresses@ == addresses->0@),
        processes > 0 && addresses is None ==> is_default_addressing(
            r->Cluster_addresses@,
            processes,
        ),
{
    if processes == 0 {
        CommunicationPlan::Process { threads }
    } else {
        let addresses = match addresses {
            Some(given) => given,
            None => default_addresses(processes),
        };
        CommunicationPlan::Cluster { threads, process, addresses }
    }
}

/// What the supervising thread does after one poll interval.
#[derive(Debug, Clone, Copy, PartialEq, Eq, Structural)]
pub enum SupervisorAction {
    /// Every worker of this process has finished: join them.
    Join,
    /// An external interruption was seen: raise the shared interrupt flag
    /// and fail the run at once.
    Interrupt,
    /// Sleep one more interval.
    Wait,
}

/// The supervisor's decision with `finished` of `workers` workers done,
/// where `signalled` says whether an external interruption is pending.
pub fn supervise(finished: usize, workers: usize, signalled: bool) -> (r: SupervisorAction)
    ensures
        finished >= workers ==> r == SupervisorAction::Join,
        finished < workers && signalled ==> r == SupervisorAction::Interrupt,
        finished < workers && !signalled ==> r == SupervisorAction::Wait,
{
    if finished >= workers {
        SupervisorAction::Join
    } else if signalled {
        SupervisorAction::Interrupt
    } else {
        SupervisorAction::Wait
    }
}

/// Some worker thread of the run terminated abnormally; its diagnostics
/// were printed when it failed.
#[derive(Debug, Clone, Copy, PartialEq, Eq, Structural)]
pub struct WorkerDied {
    /// The position of the first such worker among the joined ones.
    pub index: usize,
}

/// The outcome of a run whose joined workers ended as `worker_ok` says:
/// success if every one ended normally, else one aggregate failure naming
/// the first that did not.
pub fn join_outcome(worker_ok: &Vec<bool>) -> (r: Result<(), WorkerDied>)
    ensures
        r is Ok <==> forall|i: int| 0 <= i < worker_ok.len() ==> #[trigger] worker_ok[i],
        r matches Err(died) ==> died.index < worker_ok.len() && !worker_ok[died.index as int]
            && forall|i: int| 0 <= i < died.index ==> #[trigger] worker_ok[i],
{
    let mut i: usize = 0;
    while i < worker_ok.len()
        invariant
            i <= worker_ok.len(),
            forall|j: int| 0 <= j < i ==> #[trigger] worker_ok[j],
        decreases worker_ok.len() - i,
    {
        if !worker_ok[i] {
            return Err(WorkerDied { index: i });
        }
        i = i + 1;
    }
    Ok(())
}

} // verus!
