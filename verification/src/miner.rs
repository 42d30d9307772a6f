//! The miner facade and its data: the fixed-length solution record, the
//! miner configuration, and the construction discipline that applies every
//! configured plugin parameter in full or not at all.

use vstd::prelude::*;

use crate::codec::{decode_nonce, hex_decode, nonce_value_of};
use crate::delegator::{Delegator, DelegatorPhase, DifficultyPolicy, JobSharedData};
use crate::digest::{blake2b_256, blake2b_of};
use crate::error::{CuckooMinerError, ParameterFailure, ParameterRejection};
use crate::registry::Registry;
use crate::surface::{solve_outcome, spec_rejection_of};
use vstd::string::StringSliceAdditionalSpecFns;

verus! {

/// The fixed length of a claimed cycle: 42 edge nonces.
pub const CUCKOO_SOLUTION_SIZE: usize = 42;

/// One claimed cycle: 42 unsigned 32-bit edge nonces, plus the 8-byte
/// big-endian nonce that identifies the header which produced it. The host
/// enforces no arithmetic relationship between the elements.
#[derive(Clone, Copy, Debug)]
pub struct CuckooMinerSolution {
    /// The claimed cycle, filled by the plugin.
    pub solution_nonces: [u32; CUCKOO_SOLUTION_SIZE],
    /// The big-endian bytes of the nonce that produced the solved header.
    pub nonce: [u8; 8],
}

/// The big-endian bytes of one 32-bit edge nonce.
pub open spec fn be_u32_bytes(x: u32) -> Seq<u8> {
    seq![(x >> 24) as u8, (x >> 16) as u8, (x >> 8) as u8, x as u8]
}

/// The byte string a solution is digested over: each edge nonce in order,
/// big-endian.
pub open spec fn solution_bytes(nonces: Seq<u32>) -> Seq<u8>
    decreases nonces.len(),
{
    if nonces.len() == 0 {
        Seq::empty()
    } else {
        be_u32_bytes(nonces[0]) + solution_bytes(nonces.skip(1))
    }
}

/// Appending one edge nonce extends the digested bytes by its four bytes.
pub proof fn lemma_solution_bytes_push(nonces: Seq<u32>, x: u32)
    ensures
        solution_bytes(nonces.push(x)) == solution_bytes(nonces) + be_u32_bytes(x),
    decreases nonces.len(),
{
    if nonces.len() == 0 {
        let p = nonces.push(x);
        assert(p[0] == x);
        assert(p.skip(1) =~= Seq::<u32>::empty());
        assert(solution_bytes(Seq::<u32>::empty()) == Seq::<u8>::empty());
        assert(solution_bytes(p) =~= be_u32_bytes(x));
        assert(solution_bytes(nonces) + be_u32_bytes(x) =~= be_u32_bytes(x));
    } else {
        assert(nonces.push(x).skip(1) =~= nonces.skip(1).push(x));
        lemma_solution_bytes_push(nonces.skip(1), x);
        assert(solution_bytes(nonces.push(x)) =~= be_u32_bytes(nonces[0]) + (solution_bytes(
            nonces.skip(1),
        ) + be_u32_bytes(x)));
        assert(solution_bytes(nonces) + be_u32_bytes(x) =~= be_u32_bytes(nonces[0])
            + (solution_bytes(nonces.skip(1)) + be_u32_bytes(x)));
    }
}

/// The 64-bit value a solution is judged by: the first eight bytes of its
/// BLAKE2b digest, read big-endian.
pub open spec fn solution_value(sol: CuckooMinerSolution) -> u64 {
    nonce_value_of(blake2b_of(solution_bytes(sol.solution_nonces@)))
}

impl CuckooMinerSolution {
    /// A fresh solution record, all nonces zero.
    pub fn new() -> (r: CuckooMinerSolution)
        ensures
            r.solution_nonces@ == Seq::new(42, |i: int| 0u32),
            r.nonce@ == Seq::new(8, |i: int| 0u8),
    {
        let r = CuckooMinerSolution { solution_nonces: [0u32; 42], nonce: [0u8; 8] };
        proof {
            assert(r.solution_nonces@ =~= Seq::new(42, |i: int| 0u32));
            assert(r.nonce@ =~= Seq::new(8, |i: int| 0u8));
        }
        r
    }

    /// Replaces the claimed cycle, leaving the identifying nonce alone.
    pub fn set_solution(&mut self, nonces: [u32; CUCKOO_SOLUTION_SIZE])
        ensures
            final(self).solution_nonces@ == nonces@,
            final(self).nonce == old(self).nonce,
    {
        self.solution_nonces = nonces;
    }

    /// The identifying nonce read back as the 64-bit value it encodes.
    pub fn get_nonce_as_u64(&self) -> (r: u64)
        ensures
            r == nonce_value_of(self.nonce@),
    {
        decode_nonce(&self.nonce)
    }

    /// The claimed cycle widened to a vector of 64-bit values.
    pub fn to_u64s(&self) -> (r: Vec<u64>)
        ensures
            r@.len() == self.solution_nonces@.len(),
            forall|i: int|
                0 <= i < r@.len() ==> r@[i] == self.solution_nonces@[i] as u64,
    {
        let mut nonces: Vec<u64> = Vec::new();
        let mut i: usize = 0;
        while i < 42
            invariant
                i <= 42,
                nonces@.len() == i,
                forall|j: int| 0 <= j < i ==> nonces@[j] == self.solution_nonces@[j] as u64,
            decreases 42 - i,
        {
            nonces.push(self.solution_nonces[i] as u64);
            i = i + 1;
        }
        nonces
    }

    /// The solution's BLAKE2b digest over its edge nonces, each big-endian.
    pub fn hash(&self) -> (r: [u8; 32])
        ensures
            r@ == blake2b_of(solution_bytes(self.solution_nonces@)),
    {
        let mut bytes: Vec<u8> = Vec::new();
        let mut i: usize = 0;
        proof {
            assert(self.solution_nonces@.take(0) =~= Seq::<u32>::empty());
        }
        while i < 42
            invariant
                i <= 42,
                self.solution_nonces@.len() == 42,
                bytes@ == solution_bytes(self.solution_nonces@.take(i as int)),
            decreases 42 - i,
        {
            let n = self.solution_nonces[i];
            bytes.push((n >> 24) as u8);
            bytes.push((n >> 16) as u8);
            bytes.push((n >> 8) as u8);
            bytes.push(n as u8);
            proof {
                lemma_solution_bytes_push(self.solution_nonces@.take(i as int), n);
                assert(self.solution_nonces@.take(i as int + 1) =~= self.solution_nonces@.take(
                    i as int,
                ).push(n));
                assert(bytes@ =~= solution_bytes(self.solution_nonces@.take(i as int))
                    + be_u32_bytes(n));
            }
            i = i + 1;
        }
        proof {
            assert(self.solution_nonces@.take(42) =~= self.solution_nonces@);
        }
        blake2b_256(bytes.as_slice())
    }
}

impl Default for CuckooMinerSolution {
    /// A fresh solution record, all nonces zero.
    fn default() -> (r: CuckooMinerSolution)
        ensures
            r.solution_nonces@ == Seq::new(42, |i: int| 0u32),
            r.nonce@ == Seq::new(8, |i: int| 0u8),
    {
        CuckooMinerSolution::new()
    }
}

impl PartialEq for CuckooMinerSolution {
    /// Two solutions are equal when their claimed cycles agree element for
    /// element; the identifying nonce is not compared.
    fn eq(&self, other: &CuckooMinerSolution) -> (r: bool) {
        let mut i: usize = 0;
        while i < 42
            invariant
                i <= 42,
                forall|j: int| 0 <= j < i ==> self.solution_nonces@[j] == other.solution_nonces@[j],
            decreases 42 - i,
        {
            if self.solution_nonces[i] != other.solution_nonces[i] {
                return false;
            }
            i = i + 1;
        }
        proof {
            assert(self.solution_nonces@ =~= other.solution_nonces@);
        }
        true
    }
}

impl vstd::std_specs::cmp::PartialEqSpecImpl for CuckooMinerSolution {
    open spec fn obeys_eq_spec() -> bool {
        true
    }

    open spec fn eq_spec(&self, other: &CuckooMinerSolution) -> bool {
        self.solution_nonces@ == other.solution_nonces@
    }
}

/// The configuration a miner is built from: the plugin to load and the
/// parameters to apply to it, in order, all-or-nothing.
#[derive(Clone, Debug)]
pub struct CuckooMinerConfig {
    /// The full path of the plugin library to load.
    pub plugin_full_path: String,
    /// Named 32-bit parameters to set in the plugin, applied in order.
    pub parameter_list: Vec<(String, u32)>,
}

impl CuckooMinerConfig {
    /// An empty configuration: no path, no parameters.
    pub fn new() -> (r: CuckooMinerConfig)
        ensures
            r.plugin_full_path@ == Seq::<char>::empty(),
            r.parameter_list@ == Seq::<(String, u32)>::empty(),
    {
        CuckooMinerConfig { plugin_full_path: String::new(), parameter_list: Vec::new() }
    }
}

impl Default for CuckooMinerConfig {
    /// An empty configuration: no path, no parameters.
    fn default() -> (r: CuckooMinerConfig)
        ensures
            r.plugin_full_path@ == Seq::<char>::empty(),
            r.parameter_list@ == Seq::<(String, u32)>::empty(),
    {
        CuckooMinerConfig::new()
    }
}

/// A miner over one loaded plugin. A miner is usable only once every
/// configured parameter has been accepted by the plugin: a single rejection
/// is permanent, so a partially parameterised plugin is never mined with.
pub struct CuckooMiner {
    /// The configuration the miner was built from.
    pub config: CuckooMinerConfig,
    /// The registry of the loaded plugin the miner drives.
    pub registry: Registry,
    /// How many configured parameters the plugin has accepted so far.
    pub params_applied: usize,
    /// Whether the plugin has rejected any configured parameter.
    pub param_failed: bool,
}

/// The miner state after one set-parameter reply: an accepted reply applies
/// the pending parameter, any rejection is recorded for good.
pub open spec fn param_step(m: CuckooMiner, raw: u32) -> CuckooMiner {
    if raw == 0 {
        if m.params_applied < m.config.parameter_list@.len() {
            CuckooMiner { params_applied: (m.params_applied + 1) as usize, ..m }
        } else {
            m
        }
    } else {
        CuckooMiner { param_failed: true, ..m }
    }
}

/// The miner state after a whole sequence of set-parameter replies.
pub open spec fn miner_after_replies(m: CuckooMiner, replies: Seq<u32>) -> CuckooMiner
    decreases replies.len(),
{
    if replies.len() == 0 {
        m
    } else {
        miner_after_replies(param_step(m, replies[0]), replies.skip(1))
    }
}

impl CuckooMiner {
    /// Whether the miner is usable: its plugin fully loaded and every
    /// configured parameter accepted, none rejected.
    pub open spec fn ready(self) -> bool {
        self.registry.fully_loaded() && self.params_applied == self.config.parameter_list@.len()
            && !self.param_failed
    }

    /// Begins construction of a miner over a registry the caller has already
    /// loaded; refused when the registry holds no plugin. The configured
    /// parameters are applied next, one `set_parameter` reply at a time.
    pub fn new(config: CuckooMinerConfig, registry: Registry) -> (r: Result<
        CuckooMiner,
        CuckooMinerError,
    >)
        ensures
            registry.fully_loaded() ==> (r matches Ok(m) && m.config == config && m.registry
                == registry && m.params_applied == 0 && !m.param_failed),
            !registry.fully_loaded() ==> r == Err::<CuckooMiner, CuckooMinerError>(
                CuckooMinerError::PluginNotLoaded,
            ),
    {
        if registry.slots.is_complete() {
            Ok(CuckooMiner { config, registry, params_applied: 0, param_failed: false })
        } else {
            Err(CuckooMinerError::PluginNotLoaded)
        }
    }

    /// The next configured parameter awaiting the plugin's reply, if any.
    pub fn pending_parameter(&self) -> (r: Option<(String, u32)>)
        ensures
            self.params_applied < self.config.parameter_list@.len() ==> (r matches Some(p)
                && p.0@ == self.config.parameter_list@[self.params_applied as int].0@ && p.1
                == self.config.parameter_list@[self.params_applied as int].1),
            self.params_applied >= self.config.parameter_list@.len() ==> r is None,
    {
        if self.params_applied < self.config.parameter_list.len() {
            let entry = &self.config.parameter_list[self.params_applied];
            Some((entry.0.clone(), entry.1))
        } else {
            None
        }
    }

    /// Records the plugin's reply to setting the pending configured
    /// parameter. A zero reply applies it; any other reply rejects it for
    /// good, so the miner can never become ready afterwards. A reply with no
    /// parameter pending is recorded against an empty name.
    pub fn set_parameter(&mut self, raw: u32) -> (r: Result<(), CuckooMinerError>)
        ensures
            *final(self) == param_step(*old(self), raw),
            raw == 0 ==> r == Ok::<(), CuckooMinerError>(()),
            raw != 0 ==> (r matches Err(e) && e matches CuckooMinerError::ParameterError(f)
                && f.reason == spec_rejection_of(raw)),
            raw != 0 && old(self).params_applied < old(self).config.parameter_list@.len() ==> (
            r matches Err(e) && e matches CuckooMinerError::ParameterError(f) && f.name@ == old(
                self,
            ).config.parameter_list@[old(self).params_applied as int].0@ && f.value == old(
                self,
            ).config.parameter_list@[old(self).params_applied as int].1),
    {
        if raw == 0 {
            if self.params_applied < self.config.parameter_list.len() {
                self.params_applied = self.params_applied + 1;
            }
            Ok(())
        } else {
            self.param_failed = true;
            let (name, value) = if self.params_applied < self.config.parameter_list.len() {
                let entry = &self.config.parameter_list[self.params_applied];
                (entry.0.clone(), entry.1)
            } else {
                (String::new(), 0)
            };
            let reason = if raw == 1 {
                ParameterRejection::NotFound
            } else if raw == 2 {
                ParameterRejection::OutOfRange
            } else {
                ParameterRejection::Unknown(raw)
            };
            Err(CuckooMinerError::ParameterError(ParameterFailure { name, value, reason }))
        }
    }

    /// Whether the miner is usable, decided at run time.
    pub fn is_ready(&self) -> (r: bool)
        ensures
            r == self.ready(),
    {
        self.registry.slots.is_complete() && self.params_applied
            == self.config.parameter_list.len() && !self.param_failed
    }

    /// Maps the synchronous solve reply for a mine call: with a usable miner,
    /// reply 1 is a found solution (the plugin filled the caller's record),
    /// reply 0 is none found, and any other reply is an `UnexpectedResult`
    /// error. A miner that is not usable refuses the call.
    pub fn mine(&self, raw: u32) -> (r: Result<bool, CuckooMinerError>)
        ensures
            !self.ready() ==> r == Err::<bool, CuckooMinerError>(CuckooMinerError::PluginNotLoaded),
            self.ready() && raw == 1 ==> r == Ok::<bool, CuckooMinerError>(true),
            self.ready() && raw == 0 ==> r == Ok::<bool, CuckooMinerError>(false),
            self.ready() && raw != 0 && raw != 1 ==> r == Err::<bool, CuckooMinerError>(
                CuckooMinerError::UnexpectedResult(raw),
            ),
    {
        if !self.is_ready() {
            return Err(CuckooMinerError::PluginNotLoaded);
        }
        solve_outcome(raw)
    }

    /// Consumes the miner and hands back one asynchronous job: a delegator
    /// in its starting phase over the decoded header fragments, and fresh
    /// shared state with the running flag set. The caller gives the
    /// delegator to a dedicated worker and polls the shared state; this is a
    /// one-way transition from synchronous to asynchronous mode. A miner
    /// that is not usable refuses the call.
    pub fn notify(
        self,
        job_id: u32,
        pre_nonce: &str,
        post_nonce: &str,
        difficulty: u64,
        policy: DifficultyPolicy,
    ) -> (r: Result<(Delegator, JobSharedData), CuckooMinerError>)
        ensures
            self.ready() ==> (r matches Ok(job) && job.0.config.job_id == job_id
                && job.0.config.pre_nonce@ == hex_decode(pre_nonce.spec_bytes())
                && job.0.config.post_nonce@ == hex_decode(post_nonce.spec_bytes())
                && job.0.config.difficulty == difficulty && job.0.phase == DelegatorPhase::Starting
                && job.0.policy == policy && job.1.job_id == job_id && job.1.pre_nonce@
                == pre_nonce@ && job.1.post_nonce@ == post_nonce@ && job.1.difficulty == difficulty
                && job.1.running_flag && !job.1.solution_found && job.1.solutions@
                == Seq::<CuckooMinerSolution>::empty()),
            !self.ready() ==> (r matches Err(e) && e is PluginNotLoaded),
    {
        if !self.is_ready() {
            return Err(CuckooMinerError::PluginNotLoaded);
        }
        let delegator = Delegator::new(job_id, pre_nonce, post_nonce, difficulty, policy);
        let shared = JobSharedData::new(job_id, pre_nonce, post_nonce, difficulty);
        Ok((delegator, shared))
    }
}

/// A rejection is permanent: a miner that has recorded one parameter failure
/// stays failed under any further replies.
pub proof fn lemma_param_failure_stays(m: CuckooMiner, replies: Seq<u32>)
    requires
        m.param_failed,
    ensures
        miner_after_replies(m, replies).param_failed,
    decreases replies.len(),
{
    if replies.len() > 0 {
        lemma_param_failure_stays(param_step(m, replies[0]), replies.skip(1));
    }
}

/// Construction with a parameter set containing one rejected entry never
/// yields a usable miner, wherever the rejected entry stands in the set.
pub proof fn lemma_rejected_parameter_never_ready(m: CuckooMiner, replies: Seq<u32>)
    requires
        exists|i: int| 0 <= i < replies.len() && replies[i] != 0,
    ensures
        !miner_after_replies(m, replies).ready(),
    decreases replies.len(),
{
    let i = choose|i: int| 0 <= i < replies.len() && replies[i] != 0;
    if replies[0] != 0 {
        lemma_param_failure_stays(param_step(m, replies[0]), replies.skip(1));
    } else {
        assert(0 <= i - 1 < replies.skip(1).len() && replies.skip(1)[i - 1] != 0);
        lemma_rejected_parameter_never_ready(param_step(m, replies[0]), replies.skip(1));
    }
}

} // verus!
