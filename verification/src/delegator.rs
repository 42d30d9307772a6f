//! The asynchronous job delegator, as an explicit state machine: each state
//! names the one outside action to perform next (query capacity, push a
//! candidate, read the output queue, rest, stop), and each observed event
//! drives the transition. The running flag is consulted on every event, so
//! cancellation is honoured within a bounded number of events.

use vstd::prelude::*;
use vstd::string::StringSliceAdditionalSpecFns;

use crate::codec::{encode_nonce, from_hex_string, hex_decode, nonce_bytes_of, nonce_value_of};
use crate::digest::{random_u64, sha3_256, sha3_of};
use crate::miner::{solution_value, CuckooMinerSolution};

verus! {

/// The state shared between the delegator's worker and every job handle:
/// the job's immutable inputs, the cooperative running flag, and the
/// accumulating collection of accepted solutions.
pub struct JobSharedData {
    /// The job identifier, for later reference.
    pub job_id: u32,
    /// The hex-encoded header fragment before the nonce.
    pub pre_nonce: String,
    /// The hex-encoded header fragment after the nonce.
    pub post_nonce: String,
    /// The target difficulty accepted solutions must meet.
    pub difficulty: u64,
    /// Cleared to request cooperative shutdown of the worker.
    pub running_flag: bool,
    /// Set once any solution has been accepted.
    pub solution_found: bool,
    /// Accepted solutions, in the order they were accepted.
    pub solutions: Vec<CuckooMinerSolution>,
}

impl JobSharedData {
    /// Fresh shared state for one job: running, nothing found yet.
    pub fn new(job_id: u32, pre_nonce: &str, post_nonce: &str, difficulty: u64) -> (r:
        JobSharedData)
        ensures
            r.job_id == job_id,
            r.pre_nonce@ == pre_nonce@,
            r.post_nonce@ == post_nonce@,
            r.difficulty == difficulty,
            r.running_flag,
            !r.solution_found,
            r.solutions@ == Seq::<CuckooMinerSolution>::empty(),
    {
        JobSharedData {
            job_id,
            pre_nonce: pre_nonce.to_owned(),
            post_nonce: post_nonce.to_owned(),
            difficulty,
            running_flag: true,
            solution_found: false,
            solutions: Vec::new(),
        }
    }

    /// Pops one accepted solution if any is waiting; a single bounded
    /// operation, so a caller holds the state no longer than the pop itself.
    pub fn get_solution(&mut self) -> (r: Option<CuckooMinerSolution>)
        ensures
            old(self).solutions@.len() > 0 ==> (r matches Some(s) && s == old(
                self,
            ).solutions@.last() && final(self).solutions@ == old(self).solutions@.drop_last()),
            old(self).solutions@.len() == 0 ==> r is None && final(self).solutions@ == old(
                self,
            ).solutions@,
            final(self).job_id == old(self).job_id,
            final(self).pre_nonce == old(self).pre_nonce,
            final(self).post_nonce == old(self).post_nonce,
            final(self).difficulty == old(self).difficulty,
            final(self).running_flag == old(self).running_flag,
            final(self).solution_found == old(self).solution_found,
    {
        if self.solutions.len() > 0 {
            self.solutions.pop()
        } else {
            None
        }
    }

    /// Clears the running flag and nothing else: a request for cooperative
    /// shutdown that does not wait for the worker to exit.
    pub fn stop_jobs(&mut self)
        ensures
            !final(self).running_flag,
            final(self).job_id == old(self).job_id,
            final(self).pre_nonce == old(self).pre_nonce,
            final(self).post_nonce == old(self).post_nonce,
            final(self).difficulty == old(self).difficulty,
            final(self).solution_found == old(self).solution_found,
            final(self).solutions@ == old(self).solutions@,
    {
        self.running_flag = false;
    }
}

/// How accepted solutions are filtered against the target difficulty. The
/// comparison is an injected, documented policy of the job, not a hard-coded
/// rule of the delegator.
#[derive(Clone, Copy, Debug, PartialEq, Eq, Structural)]
pub enum DifficultyPolicy {
    /// Accept a solution whose digest value is at least the target.
    ValueAtLeast,
    /// Accept every solution the plugin claims, whatever the target.
    AcceptAll,
}

/// Whether a policy accepts a solution of the given digest value against a
/// target difficulty.
pub open spec fn policy_accepts(policy: DifficultyPolicy, value: u64, target: u64) -> bool {
    match policy {
        DifficultyPolicy::ValueAtLeast => value >= target,
        DifficultyPolicy::AcceptAll => true,
    }
}

/// Decides a policy at run time.
pub fn policy_accept(policy: DifficultyPolicy, value: u64, target: u64) -> (r: bool)
    ensures
        r == policy_accepts(policy, value, target),
{
    match policy {
        DifficultyPolicy::ValueAtLeast => value >= target,
        DifficultyPolicy::AcceptAll => true,
    }
}

/// A job's immutable inputs, hex fragments already decoded to bytes.
pub struct JobConfig {
    /// The job identifier.
    pub job_id: u32,
    /// Decoded header bytes before the nonce.
    pub pre_nonce: Vec<u8>,
    /// Decoded header bytes after the nonce.
    pub post_nonce: Vec<u8>,
    /// The target difficulty for accepted solutions.
    pub difficulty: u64,
}

/// The delegator's states. Each state is owed exactly one outside action;
/// the event that action produces drives the next transition.
#[derive(Clone, Copy, Debug, PartialEq, Eq, Structural)]
pub enum DelegatorPhase {
    /// Asynchronous processing is being started.
    Starting,
    /// The input queue's capacity is being queried.
    Filling,
    /// One candidate is being pushed to the input queue.
    Pushing,
    /// The output queue is being drained; whether anything has been pushed
    /// or popped in this pass.
    Draining { progressed: bool },
    /// Neither capacity nor output was available: a short bounded wait.
    Waiting,
    /// Shutdown was requested; the plugin is being told to stop.
    Stopping,
    /// The worker has finished cleanly.
    Stopped,
    /// A fatal error ended the job (start failure or plugin unloaded).
    Failed,
}

/// The outside action a phase is owed.
#[derive(Clone, Copy, Debug, PartialEq, Eq, Structural)]
pub enum DelegatorAction {
    /// Call the plugin's start-processing entry point.
    StartProcessing,
    /// Ask whether the input queue can accept more work.
    QueryCapacity,
    /// Synthesize one candidate and push it to the input queue.
    PushCandidate,
    /// Pop one solution from the output queue, without blocking.
    ReadOutput,
    /// Wait briefly to cap idle spinning; correctness does not depend on it.
    Rest,
    /// Call the plugin's stop-processing entry point, best-effort.
    StopProcessing,
    /// Leave the loop.
    Exit,
}

/// What the outside action reported back.
pub enum DelegatorEvent {
    /// The start-processing reply code.
    Started(u32),
    /// The queue-capacity reply code: 1 can accept more, 0 full.
    Capacity(u32),
    /// The push reply code: 1 accepted, 0 rejected (flow control).
    Pushed(u32),
    /// The read reply code and the record the plugin filled; the record is
    /// meaningful only when the code is 1.
    OutputRead(u32, CuckooMinerSolution),
    /// The short wait elapsed.
    Rested,
    /// The stop-processing reply code.
    StopAcknowledged(u32),
    /// A call found no plugin loaded: fatal, the plugin was unloaded from
    /// under the job.
    PluginGone,
}

/// The action each phase is owed.
pub open spec fn action_of(phase: DelegatorPhase) -> DelegatorAction {
    match phase {
        DelegatorPhase::Starting => DelegatorAction::StartProcessing,
        DelegatorPhase::Filling => DelegatorAction::QueryCapacity,
        DelegatorPhase::Pushing => DelegatorAction::PushCandidate,
        DelegatorPhase::Draining { .. } => DelegatorAction::ReadOutput,
        DelegatorPhase::Waiting => DelegatorAction::Rest,
        DelegatorPhase::Stopping => DelegatorAction::StopProcessing,
        DelegatorPhase::Stopped => DelegatorAction::Exit,
        DelegatorPhase::Failed => DelegatorAction::Exit,
    }
}

/// The phase one event moves the delegator to. The running flag is consulted
/// first: once it is cleared, any active phase turns to `Stopping` whatever
/// the event carried, so cancellation never waits on plugin progress. While
/// running, a `PluginGone` event is fatal; a reply code outside a call's
/// contract is flow control (treated as no capacity, push rejected, or
/// output empty), never an error that ends the job.
pub open spec fn phase_after(
    phase: DelegatorPhase,
    event: DelegatorEvent,
    running: bool,
) -> DelegatorPhase {
    if phase is Stopped || phase is Failed {
        phase
    } else if phase is Stopping {
        DelegatorPhase::Stopped
    } else if !running {
        DelegatorPhase::Stopping
    } else {
        match phase {
            DelegatorPhase::Starting => match event {
                DelegatorEvent::Started(raw) => if raw == 1 {
                    DelegatorPhase::Filling
                } else {
                    DelegatorPhase::Failed
                },
                DelegatorEvent::PluginGone => DelegatorPhase::Failed,
                _ => phase,
            },
            DelegatorPhase::Filling => match event {
                DelegatorEvent::Capacity(raw) => if raw == 1 {
                    DelegatorPhase::Pushing
                } else {
                    DelegatorPhase::Draining { progressed: false }
                },
                DelegatorEvent::PluginGone => DelegatorPhase::Failed,
                _ => phase,
            },
            DelegatorPhase::Pushing => match event {
                DelegatorEvent::Pushed(_) => DelegatorPhase::Filling,
                DelegatorEvent::PluginGone => DelegatorPhase::Failed,
                _ => phase,
            },
            DelegatorPhase::Draining { progressed } => match event {
                DelegatorEvent::OutputRead(raw, _) => if raw == 1 {
                    DelegatorPhase::Draining { progressed: true }
                } else if progressed {
                    DelegatorPhase::Filling
                } else {
                    DelegatorPhase::Waiting
                },
                DelegatorEvent::PluginGone => DelegatorPhase::Failed,
                _ => phase,
            },
            DelegatorPhase::Waiting => match event {
                DelegatorEvent::Rested => DelegatorPhase::Filling,
                DelegatorEvent::PluginGone => DelegatorPhase::Failed,
                _ => phase,
            },
            _ => phase,
        }
    }
}

/// The solution one event adds to the shared collection, if any: an output
/// popped while draining, with the running flag still set, whose digest
/// value the job's policy accepts against its target difficulty.
pub open spec fn accepted_solution_of(
    d: Delegator,
    event: DelegatorEvent,
    running: bool,
) -> Option<CuckooMinerSolution> {
    if running && (d.phase matches DelegatorPhase::Draining { .. }) {
        match event {
            DelegatorEvent::OutputRead(raw, sol) => if raw == 1 && policy_accepts(
                d.policy,
                solution_value(sol),
                d.config.difficulty,
            ) {
                Some(sol)
            } else {
                None
            },
            _ => None,
        }
    } else {
        None
    }
}

/// One asynchronous job's delegator: its immutable inputs, its current
/// phase, and the difficulty policy its solutions are filtered by.
pub struct Delegator {
    /// The job's immutable inputs.
    pub config: JobConfig,
    /// The current phase.
    pub phase: DelegatorPhase,
    /// The injected difficulty policy.
    pub policy: DifficultyPolicy,
}

impl Delegator {
    /// A delegator for one job, its hex fragments decoded once up front.
    pub fn new(
        job_id: u32,
        pre_nonce: &str,
        post_nonce: &str,
        difficulty: u64,
        policy: DifficultyPolicy,
    ) -> (r: Delegator)
        ensures
            r.config.job_id == job_id,
            r.config.pre_nonce@ == hex_decode(pre_nonce.spec_bytes()),
            r.config.post_nonce@ == hex_decode(post_nonce.spec_bytes()),
            r.config.difficulty == difficulty,
            r.phase == DelegatorPhase::Starting,
            r.policy == policy,
    {
        Delegator {
            config: JobConfig {
                job_id,
                pre_nonce: from_hex_string(pre_nonce),
                post_nonce: from_hex_string(post_nonce),
                difficulty,
            },
            phase: DelegatorPhase::Starting,
            policy,
        }
    }

    /// The outside action the current phase is owed.
    pub fn next_action(&self) -> (r: DelegatorAction)
        ensures
            r == action_of(self.phase),
    {
        match self.phase {
            DelegatorPhase::Starting => DelegatorAction::StartProcessing,
            DelegatorPhase::Filling => DelegatorAction::QueryCapacity,
            DelegatorPhase::Pushing => DelegatorAction::PushCandidate,
            DelegatorPhase::Draining { .. } => DelegatorAction::ReadOutput,
            DelegatorPhase::Waiting => DelegatorAction::Rest,
            DelegatorPhase::Stopping => DelegatorAction::StopProcessing,
            DelegatorPhase::Stopped => DelegatorAction::Exit,
            DelegatorPhase::Failed => DelegatorAction::Exit,
        }
    }

    /// Synthesizes one candidate: a fresh random 64-bit nonce, spliced
    /// big-endian between the decoded pre- and post-nonce fragments, and the
    /// SHA3-256 digest of the spliced header. Returns the nonce and digest.
    pub fn get_next_hash(&self) -> (r: (u64, [u8; 32]))
        ensures
            r.1@ == sha3_of(
                self.config.pre_nonce@ + nonce_bytes_of(r.0) + self.config.post_nonce@,
            ),
    {
        let nonce = random_u64();
        let nonce_bytes = encode_nonce(nonce);
        let mut header: Vec<u8> = Vec::new();
        let mut i: usize = 0;
        while i < self.config.pre_nonce.len()
            invariant
                i <= self.config.pre_nonce@.len(),
                header@ == self.config.pre_nonce@.take(i as int),
            decreases self.config.pre_nonce@.len() - i,
        {
            header.push(self.config.pre_nonce[i]);
            proof {
                assert(header@ =~= self.config.pre_nonce@.take(i as int + 1));
            }
            i = i + 1;
        }
        proof {
            assert(self.config.pre_nonce@.take(self.config.pre_nonce@.len() as int)
                =~= self.config.pre_nonce@);
        }
        let mut j: usize = 0;
        while j < 8
            invariant
                j <= 8,
                nonce_bytes@ == nonce_bytes_of(nonce),
                header@ == self.config.pre_nonce@ + nonce_bytes@.take(j as int),
            decreases 8 - j,
        {
            header.push(nonce_bytes[j]);
            proof {
                assert(header@ =~= self.config.pre_nonce@ + nonce_bytes@.take(j as int + 1));
            }
            j = j + 1;
        }
        proof {
            assert(nonce_bytes@.take(8) =~= nonce_bytes@);
        }
        let mut k: usize = 0;
        while k < self.config.post_nonce.len()
            invariant
                k <= self.config.post_nonce@.len(),
                nonce_bytes@ == nonce_bytes_of(nonce),
                header@ == self.config.pre_nonce@ + nonce_bytes@ + self.config.post_nonce@.take(
                    k as int,
                ),
            decreases self.config.post_nonce@.len() - k,
        {
            header.push(self.config.post_nonce[k]);
            proof {
                assert(header@ =~= self.config.pre_nonce@ + nonce_bytes@
                    + self.config.post_nonce@.take(k as int + 1));
            }
            k = k + 1;
        }
        proof {
            assert(self.config.post_nonce@.take(self.config.post_nonce@.len() as int)
                =~= self.config.post_nonce@);
            assert(header@ =~= self.config.pre_nonce@ + nonce_bytes_of(nonce)
                + self.config.post_nonce@);
        }
        let h = sha3_256(header.as_slice());
        (nonce, h)
    }

    /// Drives one transition: consults the running flag first, then moves by
    /// the event; an output popped while draining is filtered by the job's
    /// policy and, when accepted, appended to the shared collection with the
    /// found flag set. Everything else in the shared state is left alone.
    pub fn step(&mut self, event: DelegatorEvent, shared: &mut JobSharedData)
        ensures
            final(self).config == old(self).config,
            final(self).policy == old(self).policy,
            final(self).phase == phase_after(old(self).phase, event, old(shared).running_flag),
            final(shared).job_id == old(shared).job_id,
            final(shared).pre_nonce == old(shared).pre_nonce,
            final(shared).post_nonce == old(shared).post_nonce,
            final(shared).difficulty == old(shared).difficulty,
            final(shared).running_flag == old(shared).running_flag,
            match accepted_solution_of(*old(self), event, old(shared).running_flag) {
                Some(sol) => final(shared).solutions@ == old(shared).solutions@.push(sol)
                    && final(shared).solution_found,
                None => final(shared).solutions@ == old(shared).solutions@
                    && final(shared).solution_found == old(shared).solution_found,
            },
    {
        match self.phase {
            DelegatorPhase::Stopped => {
                return ;
            },
            DelegatorPhase::Failed => {
                return ;
            },
            DelegatorPhase::Stopping => {
                self.phase = DelegatorPhase::Stopped;
                return ;
            },
            _ => {},
        }
        if !shared.running_flag {
            self.phase = DelegatorPhase::Stopping;
            return ;
        }
        match self.phase {
            DelegatorPhase::Starting => {
                match event {
                    DelegatorEvent::Started(raw) => {
                        if raw == 1 {
                            self.phase = DelegatorPhase::Filling;
                        } else {
                            self.phase = DelegatorPhase::Failed;
                        }
                    },
                    DelegatorEvent::PluginGone => {
                        self.phase = DelegatorPhase::Failed;
                    },
                    _ => {},
                }
            },
            DelegatorPhase::Filling => {
                match event {
                    DelegatorEvent::Capacity(raw) => {
                        if raw == 1 {
                            self.phase = DelegatorPhase::Pushing;
                        } else {
                            self.phase = DelegatorPhase::Draining { progressed: false };
                        }
                    },
                    DelegatorEvent::PluginGone => {
                        self.phase = DelegatorPhase::Failed;
                    },
                    _ => {},
                }
            },
            DelegatorPhase::Pushing => {
                match event {
                    DelegatorEvent::Pushed(_) => {
                        self.phase = DelegatorPhase::Filling;
                    },
                    DelegatorEvent::PluginGone => {
                        self.phase = DelegatorPhase::Failed;
                    },
                    _ => {},
                }
            },
            DelegatorPhase::Draining { progressed } => {
                match event {
                    DelegatorEvent::OutputRead(raw, sol) => {
                        if raw == 1 {
                            let digest = sol.hash();
                            let value = nonce_value_from_digest(&digest);
                            if policy_accept(self.policy, value, self.config.difficulty) {
                                shared.solutions.push(sol);
                                shared.solution_found = true;
                            }
                            self.phase = DelegatorPhase::Draining { progressed: true };
                        } else if progressed {
                            self.phase = DelegatorPhase::Filling;
                        } else {
                            self.phase = DelegatorPhase::Waiting;
                        }
                    },
                    DelegatorEvent::PluginGone => {
                        self.phase = DelegatorPhase::Failed;
                    },
                    _ => {},
                }
            },
            DelegatorPhase::Waiting => {
                match event {
                    DelegatorEvent::Rested => {
                        self.phase = DelegatorPhase::Filling;
                    },
                    DelegatorEvent::PluginGone => {
                        self.phase = DelegatorPhase::Failed;
                    },
                    _ => {},
                }
            },
            _ => {},
        }
    }
}

/// The 64-bit value of a 32-byte digest: its first eight bytes, big-endian.
pub fn nonce_value_from_digest(digest: &[u8; 32]) -> (r: u64)
    ensures
        r == nonce_value_of(digest@),
{
    ((digest[0] as u64) << 56) | ((digest[1] as u64) << 48) | ((digest[2] as u64) << 40) | ((
    digest[3] as u64) << 32) | ((digest[4] as u64) << 24) | ((digest[5] as u64) << 16) | ((
    digest[6] as u64) << 8) | (digest[7] as u64)
}

/// Once the running flag is cleared, the delegator's action is `Exit` after
/// at most two further events, whatever the plugin reports meanwhile: the
/// job terminates within a bounded number of iterations.
pub proof fn lemma_stops_within_two_events(
    p: DelegatorPhase,
    e1: DelegatorEvent,
    e2: DelegatorEvent,
)
    ensures
        action_of(phase_after(phase_after(p, e1, false), e2, false)) == DelegatorAction::Exit,
{
}

} // verus!
