use vstd::prelude::*;
use crate::codec::{
    base64_encode, base64_of, block_tx_result_of, decode_block_tx_result, decode_gas_used, gas_used_of,
};
use crate::error::{DecodeError, RunnerError};
use crate::fee::{estimate_fee, custom_fee, gas_limit_of, fee_amount_of, Coin, Fee, FeeSetting};
use crate::raw::{adapt_encoded, adapted_encoded, ok_payload};

verus! {

/// Where an execution stands.
#[derive(Debug, Clone, Copy, PartialEq, Eq, Structural)]
pub enum Phase {
    /// Waiting for the transaction to be signed for simulation.
    SignSimulation,
    /// Waiting for the runtime's answer to the simulation.
    AwaitSimulation,
    /// Waiting for the transaction to be signed with its final fee.
    SignCommit,
    /// Waiting for the runtime's answer to the block that carries the transaction.
    AwaitBlock,
    /// Finished; no further event is taken.
    Done,
}

/// What the runtime side reports back to the execution.
#[derive(Debug, Clone, PartialEq, Eq)]
pub enum Event {
    /// The messages were signed with the fee that was asked for.
    Signed { tx: Vec<u8> },
    /// The base64 raw result of the last call into the runtime.
    Response { raw: String },
}

/// What the runtime side has to do next.
#[derive(Debug, PartialEq, Eq)]
pub enum Action {
    /// Read the signer's sequence and account number afresh and sign the
    /// messages with this fee.
    Sign { fee: Fee },
    /// Simulate this transaction; nothing is committed.
    Simulate { tx_base64: String },
    /// Finalize one block that carries this transaction.
    FinalizeBlock { tx_base64: String },
    /// The execution is over, with this outcome (the transaction's result data, or an error).
    Finish { result: Result<Vec<u8>, RunnerError> },
}

/// The shape of an action, without its data.
#[derive(Debug, Clone, Copy, PartialEq, Eq, Structural)]
pub enum ActionKind {
    Sign,
    Simulate,
    FinalizeBlock,
    Finish { ok: bool },
}

/// The shape of an event, without its data.
#[derive(Debug, Clone, Copy, PartialEq, Eq, Structural)]
pub enum EventKind {
    Signed,
    Response,
}

pub open spec fn action_kind(a: Action) -> ActionKind {
    match a {
        Action::Sign { .. } => ActionKind::Sign,
        Action::Simulate { .. } => ActionKind::Simulate,
        Action::FinalizeBlock { .. } => ActionKind::FinalizeBlock,
        Action::Finish { result } => ActionKind::Finish { ok: result is Ok },
    }
}

pub open spec fn event_kind(e: Event) -> EventKind {
    match e {
        Event::Signed { .. } => EventKind::Signed,
        Event::Response { .. } => EventKind::Response,
    }
}

/// Whether an action carries on the execution: anything but a failed finish.
pub open spec fn succeeded(a: Action) -> bool {
    match a {
        Action::Finish { result } => result is Ok,
        _ => true,
    }
}

/// Which events a phase takes.
pub open spec fn accepts(p: Phase, e: EventKind) -> bool {
    match p {
        Phase::SignSimulation | Phase::SignCommit => e == EventKind::Signed,
        Phase::AwaitSimulation | Phase::AwaitBlock => e == EventKind::Response,
        Phase::Done => false,
    }
}

/// The phase in which an execution under this fee setting starts.
pub open spec fn start_phase(setting: FeeSetting) -> Phase {
    if setting.is_auto() { Phase::SignSimulation } else { Phase::SignCommit }
}

/// The phase after an accepted event; `ok` tells whether the runtime's
/// answer could be used.
pub open spec fn next_phase(p: Phase, ok: bool) -> Phase {
    match p {
        Phase::SignSimulation => Phase::AwaitSimulation,
        Phase::AwaitSimulation => if ok { Phase::SignCommit } else { Phase::Done },
        Phase::SignCommit => Phase::AwaitBlock,
        _ => Phase::Done,
    }
}

/// The shape of the action that follows an accepted event.
pub open spec fn next_action(p: Phase, ok: bool) -> ActionKind {
    match p {
        Phase::SignSimulation => ActionKind::Simulate,
        Phase::AwaitSimulation => if ok { ActionKind::Sign } else { ActionKind::Finish { ok: false } },
        Phase::SignCommit => ActionKind::FinalizeBlock,
        _ => ActionKind::Finish { ok },
    }
}

/// The fee under which the transaction is simulated: nothing, in the
/// chain's fee denomination, with no gas limit.
pub open spec fn is_simulation_fee(fee: Fee, fee_denom: Seq<char>) -> bool {
    &&& fee.gas_limit == 0
    &&& fee.amount.amount == 0
    &&& fee.amount.denom@ == fee_denom
}

/// The fee that an `Auto` setting derives from the gas that a simulation used.
pub open spec fn is_estimated_fee(fee: Fee, gas_used: u64, setting: FeeSetting) -> bool {
    match setting {
        FeeSetting::Auto { gas_price, gas_adjustment } => {
            &&& fee.gas_limit == gas_limit_of(gas_used, gas_adjustment)
            &&& fee.amount.amount == fee_amount_of(fee.gas_limit, gas_price.amount)
            &&& fee.amount.denom@ == gas_price.denom@
        },
        FeeSetting::Custom { .. } => false,
    }
}

/// The fee that a `Custom` setting fixes.
pub open spec fn is_custom_fee(fee: Fee, setting: FeeSetting) -> bool {
    match setting {
        FeeSetting::Custom { amount, gas_limit } => {
            &&& fee.gas_limit == gas_limit
            &&& fee.amount.amount == amount.amount
            &&& fee.amount.denom@ == amount.denom@
        },
        FeeSetting::Auto { .. } => false,
    }
}

/// The fee under which a transaction is simulated.
pub fn simulation_fee(fee_denom: &str) -> (r: Fee)
    ensures
        is_simulation_fee(r, fee_denom@),
{
    Fee { amount: Coin { denom: fee_denom.to_owned(), amount: 0 }, gas_limit: 0 }
}

/// The text in which a signed transaction is handed to the runtime.
pub fn encode_tx(tx: &Vec<u8>) -> (r: String)
    ensures
        r@ == base64_of(tx@),
{
    base64_encode(tx)
}

/// The outcome of the one transaction of a finalized block: its result
/// data where the chain accepted it (code 0), else its log as the error.
pub fn tx_outcome(code: u32, log: String, data: Vec<u8>) -> (r: Result<Vec<u8>, RunnerError>)
    ensures
        code == 0 ==> r == Ok::<Vec<u8>, RunnerError>(data),
        code != 0 ==> (r matches Err(RunnerError::ExecuteError { msg }) && msg == log),
{
    if code == 0 {
        Ok(data)
    } else {
        Err(RunnerError::ExecuteError { msg: log })
    }
}

/// The outcome that the encoded response of a finalized block stands for:
/// the outcome of its first transaction.
pub open spec fn block_outcome_matches(block: Seq<u8>, r: Result<Vec<u8>, RunnerError>) -> bool {
    match block_tx_result_of(block) {
        None => r matches Err(RunnerError::DecodeError(DecodeError::ProtoDecodeError { .. })),
        Some(None) => r matches Err(RunnerError::DecodeError(DecodeError::MissingTxResult)),
        Some(Some(t)) => if t.0 == 0 {
            r matches Ok(v) && v@ == t.2
        } else {
            r matches Err(RunnerError::ExecuteError { msg }) && msg@ == t.1
        },
    }
}

/// Reads the encoded response of a finalized block and judges its transaction.
pub fn block_outcome(block: &Vec<u8>) -> (r: Result<Vec<u8>, RunnerError>)
    ensures
        block_outcome_matches(block@, r),
{
    match decode_block_tx_result(block) {
        Ok(Some(t)) => tx_outcome(t.0, t.1, t.2),
        Ok(None) => Err(RunnerError::DecodeError(DecodeError::MissingTxResult)),
        Err(msg) => Err(RunnerError::DecodeError(DecodeError::ProtoDecodeError { msg })),
    }
}

/// One execution of a set of signed messages: resolve the fee, sign,
/// finalize one block, adapt the answer.
pub struct Execution {
    pub setting: FeeSetting,
    pub phase: Phase,
}

impl Execution {
    /// The setting is well formed, and only an `Auto` setting is ever in a
    /// simulation phase.
    pub open spec fn wf(&self) -> bool {
        &&& self.setting.wf()
        &&& (self.phase == Phase::SignSimulation || self.phase == Phase::AwaitSimulation)
            ==> self.setting.is_auto()
    }

    /// Begins an execution under `setting`. An `Auto` setting first asks for
    /// a transaction to simulate; a `Custom` one asks at once for the
    /// transaction to commit, with its fixed fee.
    pub fn start(setting: FeeSetting, fee_denom: &str) -> (r: (Execution, Action))
        requires
            setting.wf(),
        ensures
            r.0.wf(),
            r.0.setting == setting,
            r.0.phase == start_phase(setting),
            r.1 matches Action::Sign { fee } && (if setting.is_auto() {
                is_simulation_fee(fee, fee_denom@)
            } else {
                is_custom_fee(fee, setting)
            }),
    {
        if setting.requires_estimation() {
            let fee = simulation_fee(fee_denom);
            (Execution { setting, phase: Phase::SignSimulation }, Action::Sign { fee })
        } else {
            let fee = custom_fee(&setting);
            (Execution { setting, phase: Phase::SignCommit }, Action::Sign { fee })
        }
    }

    /// Whether the execution takes this event now.
    pub fn accepts(&self, event: &Event) -> (r: bool)
        ensures
            r == accepts(self.phase, event_kind(*event)),
    {
        match (self.phase, event) {
            (Phase::SignSimulation, Event::Signed { .. }) => true,
            (Phase::SignCommit, Event::Signed { .. }) => true,
            (Phase::AwaitSimulation, Event::Response { .. }) => true,
            (Phase::AwaitBlock, Event::Response { .. }) => true,
            _ => false,
        }
    }

    /// Takes one event and says what to do next.
    pub fn step(&mut self, event: Event) -> (a: Action)
        requires
            old(self).wf(),
            accepts(old(self).phase, event_kind(event)),
        ensures
            final(self).setting == old(self).setting,
            final(self).wf(),
            final(self).phase == next_phase(old(self).phase, succeeded(a)),
            action_kind(a) == next_action(old(self).phase, succeeded(a)),
            match (old(self).phase, event) {
                (Phase::SignSimulation, Event::Signed { tx }) =>
                    a matches Action::Simulate { tx_base64 } && tx_base64@ == base64_of(tx@),
                (Phase::SignCommit, Event::Signed { tx }) =>
                    a matches Action::FinalizeBlock { tx_base64 } && tx_base64@ == base64_of(tx@),
                (Phase::AwaitSimulation, Event::Response { raw }) => match a {
                    Action::Sign { fee } => ok_payload(raw@) matches Some(p)
                        && gas_used_of(p) matches Some(g)
                        && is_estimated_fee(fee, g, old(self).setting),
                    Action::Finish { result: Err(e) } => match ok_payload(raw@) {
                        None => adapted_encoded(raw@, Err(e)),
                        Some(p) => gas_used_of(p) is None
                            && e matches RunnerError::DecodeError(DecodeError::ProtoDecodeError { .. }),
                    },
                    _ => false,
                },
                (Phase::AwaitBlock, Event::Response { raw }) =>
                    a matches Action::Finish { result } && match ok_payload(raw@) {
                        None => adapted_encoded(raw@, result),
                        Some(p) => block_outcome_matches(p, result),
                    },
                _ => false,
            },
    {
        match (self.phase, event) {
            (Phase::SignSimulation, Event::Signed { tx }) => {
                self.phase = Phase::AwaitSimulation;
                Action::Simulate { tx_base64: encode_tx(&tx) }
            },
            (Phase::SignCommit, Event::Signed { tx }) => {
                self.phase = Phase::AwaitBlock;
                Action::FinalizeBlock { tx_base64: encode_tx(&tx) }
            },
            (Phase::AwaitSimulation, Event::Response { raw }) => {
                let adapted = adapt_encoded(raw.as_str());
                match adapted {
                    Ok(p) => match decode_gas_used(&p) {
                        Ok(g) => {
                            let fee = estimate_fee(g, &self.setting);
                            self.phase = Phase::SignCommit;
                            Action::Sign { fee }
                        },
                        Err(msg) => {
                            self.phase = Phase::Done;
                            Action::Finish {
                                result: Err(
                                    RunnerError::DecodeError(DecodeError::ProtoDecodeError { msg }),
                                ),
                            }
                        },
                    },
                    Err(e) => {
                        self.phase = Phase::Done;
                        Action::Finish { result: Err(e) }
                    },
                }
            },
            (Phase::AwaitBlock, Event::Response { raw }) => {
                self.phase = Phase::Done;
                match adapt_encoded(raw.as_str()) {
                    Ok(block) => Action::Finish { result: block_outcome(&block) },
                    Err(e) => Action::Finish { result: Err(e) },
                }
            },
            _ => {
                proof {
                    assert(false);
                }
                Action::Finish { result: Err(RunnerError::DecodeError(DecodeError::EmptyResult)) }
            },
        }
    }
}

} // verus!

verus! {

/// The shapes of the actions that a run of events yields from phase `p`.
/// Each event is given by its shape and by whether the runtime's answer
/// could be used; the run stops at the first event that its phase does not take.
pub open spec fn run_actions(p: Phase, events: Seq<(EventKind, bool)>) -> Seq<ActionKind>
    decreases events.len(),
{
    if events.len() == 0 || !accepts(p, events[0].0) {
        Seq::empty()
    } else {
        seq![next_action(p, events[0].1)] + run_actions(next_phase(p, events[0].1), events.skip(1))
    }
}

/// How many actions of shape `k` stand in `s`.
pub open spec fn count_kind(s: Seq<ActionKind>, k: ActionKind) -> nat
    decreases s.len(),
{
    if s.len() == 0 {
        0
    } else {
        (if s[0] == k { 1nat } else { 0nat }) + count_kind(s.skip(1), k)
    }
}

/// The phases from which a block has yet to be asked for.
pub open spec fn before_block(p: Phase) -> bool {
    p == Phase::SignSimulation || p == Phase::AwaitSimulation || p == Phase::SignCommit
}

proof fn lemma_run_head(p: Phase, events: Seq<(EventKind, bool)>, k: ActionKind)
    requires
        events.len() > 0,
        accepts(p, events[0].0),
    ensures
        count_kind(run_actions(p, events), k) == (if next_action(p, events[0].1) == k { 1nat } else { 0nat })
            + count_kind(run_actions(next_phase(p, events[0].1), events.skip(1)), k),
{
    let s = run_actions(p, events);
    let rest = run_actions(next_phase(p, events[0].1), events.skip(1));
    assert(s.skip(1) =~= rest);
}

proof fn lemma_no_simulation_after_commit(p: Phase, events: Seq<(EventKind, bool)>)
    requires
        p == Phase::SignCommit || p == Phase::AwaitBlock || p == Phase::Done,
    ensures
        count_kind(run_actions(p, events), ActionKind::Simulate) == 0,
        count_kind(run_actions(p, events), ActionKind::Sign) == 0,
    decreases events.len(),
{
    if events.len() > 0 && accepts(p, events[0].0) {
        lemma_run_head(p, events, ActionKind::Simulate);
        lemma_run_head(p, events, ActionKind::Sign);
        lemma_no_simulation_after_commit(next_phase(p, events[0].1), events.skip(1));
    }
}

proof fn lemma_blocks_from(p: Phase, events: Seq<(EventKind, bool)>)
    ensures
        count_kind(run_actions(p, events), ActionKind::FinalizeBlock)
            <= (if before_block(p) { 1nat } else { 0nat }),
        count_kind(run_actions(p, events), ActionKind::Finish { ok: true }) > 0
            ==> count_kind(run_actions(p, events), ActionKind::FinalizeBlock)
                == (if before_block(p) { 1nat } else { 0nat }),
    decreases events.len(),
{
    if events.len() > 0 && accepts(p, events[0].0) {
        lemma_run_head(p, events, ActionKind::FinalizeBlock);
        lemma_run_head(p, events, ActionKind::Finish { ok: true });
        lemma_blocks_from(next_phase(p, events[0].1), events.skip(1));
    }
}

/// Under a `Custom` fee setting an execution never asks for a simulation,
/// whatever events it is given.
pub proof fn custom_fee_never_simulates(setting: FeeSetting, events: Seq<(EventKind, bool)>)
    requires
        !setting.is_auto(),
    ensures
        count_kind(run_actions(start_phase(setting), events), ActionKind::Simulate) == 0,
{
    lemma_no_simulation_after_commit(start_phase(setting), events);
}

/// Under a `Custom` fee setting no fee is ever estimated: after the first
/// request to sign with the fixed fee, no further signing is asked for,
/// and estimation happens only on the way to such a request.
pub proof fn custom_fee_never_estimates(setting: FeeSetting, events: Seq<(EventKind, bool)>)
    requires
        !setting.is_auto(),
    ensures
        count_kind(run_actions(start_phase(setting), events), ActionKind::Sign) == 0,
{
    lemma_no_simulation_after_commit(start_phase(setting), events);
}

/// An execution asks for at most one block, whatever events it is given,
/// and one that finishes successfully has asked for exactly one.
pub proof fn one_block_per_execution(setting: FeeSetting, events: Seq<(EventKind, bool)>)
    ensures
        count_kind(run_actions(start_phase(setting), events), ActionKind::FinalizeBlock) <= 1,
        count_kind(run_actions(start_phase(setting), events), ActionKind::Finish { ok: true }) > 0
            ==> count_kind(run_actions(start_phase(setting), events), ActionKind::FinalizeBlock) == 1,
{
    lemma_blocks_from(start_phase(setting), events);
}

} // verus!
