//! What holds after every history of calls, from the empty ledger on.

use vstd::prelude::*;

use crate::call::Call;
use crate::host::EnvView;
use crate::ledger::{DataKey, LedgerView};
use crate::types::Address;

verus! {

/// One call in a history, with what it saw of the chain besides the ledger.
pub struct Step {
    pub call: Call,
    pub timestamp: u64,
    pub balances: Map<(Address, Address), i128>,
}

impl Step {
    /// What the call saw of the chain.
    pub open spec fn env(self, contract: Address, ledger: LedgerView) -> EnvView {
        EnvView { ledger, contract, timestamp: self.timestamp, balances: self.balances }
    }
}

/// The ledger after `steps`.
pub open spec fn ledger_after(contract: Address, steps: Seq<Step>) -> LedgerView
    decreases steps.len(),
{
    if steps.len() == 0 {
        LedgerView::empty()
    } else {
        let before = ledger_after(contract, steps.drop_last());
        let step = steps.last();
        step.call.after(step.env(contract, before))
    }
}

/// What the contract has in `token` after `steps`, from the transfers that its
/// accepted calls asked for.
pub open spec fn holdings(contract: Address, steps: Seq<Step>, token: Address) -> int
    decreases steps.len(),
{
    if steps.len() == 0 {
        0
    } else {
        let step = steps.last();
        let env = step.env(contract, ledger_after(contract, steps.drop_last()));
        holdings(contract, steps.drop_last(), token) + if step.call.accepted(env) {
            crate::laws::funds::flow(step.call.ops(env), contract, token)
        } else {
            0
        }
    }
}

impl Call {
    /// The call makes `contract` neither the treasury nor a party to an escrow.
    pub open spec fn keeps_out(self, contract: Address) -> bool {
        match self {
            Call::Initialize { treasury, .. } => treasury != contract,
            Call::UpdateTreasury { new_treasury } => new_treasury != contract,
            Call::CreateEscrow { mentor, learner, .. } => mentor != contract && learner != contract,
            _ => true,
        }
    }
}

/// The ledger is consistent after every history: among other things, the fee
/// never exceeds 10%, the escrows are numbered from 1 on without a gap, no two of
/// them share a session, an open escrow holds something, a released one holds
/// nothing, and only released ones are reviewed.
pub proof fn history_is_consistent(contract: Address, steps: Seq<Step>)
    ensures
        ledger_after(contract, steps).consistent(),
    decreases steps.len(),
{
    if steps.len() == 0 {
        crate::laws::consistency::empty_ledger_is_consistent();
    } else {
        history_is_consistent(contract, steps.drop_last());
        let step = steps.last();
        crate::laws::consistency::call_keeps_consistent(
            step.call,
            step.env(contract, ledger_after(contract, steps.drop_last())),
        );
    }
}

/// The contract can always pay: in every token it has at least what its open
/// escrows hold, provided that it never was the learner of an escrow itself.
pub proof fn contract_is_solvent(contract: Address, steps: Seq<Step>, token: Address)
    requires
        forall|i: int|
            0 <= i < steps.len() ==> (#[trigger] steps[i]).call.learner_is_not(contract),
    ensures
        holdings(contract, steps, token) >= ledger_after(contract, steps).owed(token),
        ledger_after(contract, steps).owed(token) >= 0,
    decreases steps.len(),
{
    history_is_consistent(contract, steps);
    crate::laws::funds::owed_is_not_negative(ledger_after(contract, steps), token);
    if steps.len() > 0 {
        let earlier = steps.drop_last();
        assert forall|i: int| 0 <= i < earlier.len() implies (
        #[trigger] earlier[i]).call.learner_is_not(contract) by {
            assert(earlier[i] == steps[i]);
        }
        contract_is_solvent(contract, earlier, token);
        history_is_consistent(contract, earlier);
        let step = steps.last();
        let env = step.env(contract, ledger_after(contract, earlier));
        assert(steps[steps.len() - 1].call.learner_is_not(contract));
        crate::laws::effects::call_effect(step.call, env);
        if step.call.accepted(env) {
            crate::laws::funds::call_keeps_funds(step.call, env, token);
        }
    }
}

/// Where the contract never was the treasury or a party to an escrow, it has in
/// every token exactly what its open escrows hold: nothing is kept back.
pub proof fn contract_keeps_nothing(contract: Address, steps: Seq<Step>, token: Address)
    requires
        forall|i: int| 0 <= i < steps.len() ==> (#[trigger] steps[i]).call.keeps_out(contract),
    ensures
        holdings(contract, steps, token) == ledger_after(contract, steps).owed(token),
    decreases steps.len(),
{
    if steps.len() > 0 {
        let earlier = steps.drop_last();
        assert forall|i: int| 0 <= i < earlier.len() implies (
        #[trigger] earlier[i]).call.keeps_out(contract) by {
            assert(earlier[i] == steps[i]);
        }
        contract_keeps_nothing(contract, earlier, token);
        history_is_consistent(contract, earlier);
        let step = steps.last();
        let env = step.env(contract, ledger_after(contract, earlier));
        assert(steps[steps.len() - 1].call.keeps_out(contract));
        lemma_no_party(contract, earlier, env);
        crate::laws::effects::call_effect(step.call, env);
        if step.call.accepted(env) {
            crate::laws::funds::call_keeps_funds(step.call, env, token);
        }
    }
}

/// Where no call makes the contract a party, it is none.
proof fn lemma_no_party(contract: Address, steps: Seq<Step>, now: EnvView)
    requires
        forall|i: int| 0 <= i < steps.len() ==> (#[trigger] steps[i]).call.keeps_out(contract),
        now.contract == contract,
        now.ledger == ledger_after(contract, steps),
    ensures
        now.contract_is_no_party(),
    decreases steps.len(),
{
    if steps.len() > 0 {
        let earlier = steps.drop_last();
        assert forall|i: int| 0 <= i < earlier.len() implies (
        #[trigger] earlier[i]).call.keeps_out(contract) by {
            assert(earlier[i] == steps[i]);
        }
        let step = steps.last();
        let env = step.env(contract, ledger_after(contract, earlier));
        assert(steps[steps.len() - 1].call.keeps_out(contract));
        lemma_no_party(contract, earlier, env);
        history_is_consistent(contract, earlier);
        lemma_step_no_party(step.call, env, now);
    }
}

/// A call that does not make the contract a party leaves it none.
proof fn lemma_step_no_party(call: Call, env: EnvView, now: EnvView)
    requires
        env.ledger.consistent(),
        env.contract_is_no_party(),
        call.keeps_out(env.contract),
        now.contract == env.contract,
        now.ledger == call.after(env),
    ensures
        now.contract_is_no_party(),
{
    crate::laws::effects::call_effect(call, env);
    let after = call.after(env);
    assert forall|id: u64| #[trigger] after.entries.contains_key(DataKey::Escrow(id)) implies {
        &&& after.escrow(id)->0.mentor != env.contract
        &&& after.escrow(id)->0.learner != env.contract
    } by {
        if env.ledger.entries.contains_key(DataKey::Escrow(id)) {
            crate::laws::lifecycle::escrow_keeps_terms(call, env, id);
        } else {
            lemma_new_escrow_only_by_creation(call, env, id);
            crate::laws::lifecycle::creation_adds_one_escrow(call, env);
        }
    }
    lemma_treasury_kept_out(call, env);
}

/// An escrow that was not there before comes from a creation.
proof fn lemma_new_escrow_only_by_creation(call: Call, env: EnvView, id: u64)
    requires
        env.ledger.consistent(),
        !env.ledger.entries.contains_key(DataKey::Escrow(id)),
        call.after(env).entries.contains_key(DataKey::Escrow(id)),
    ensures
        call is CreateEscrow,
        call.accepted(env),
        id == env.ledger.escrow_count() + 1,
{
    crate::laws::effects::call_effect(call, env);
    if call is Initialize && call.accepted(env) {
        crate::laws::effects::initialization_sets(call, env, DataKey::Escrow(id));
    }
}

/// A call that does not make the contract the treasury leaves the treasury apart.
proof fn lemma_treasury_kept_out(call: Call, env: EnvView)
    requires
        env.ledger.treasury() != Some(env.contract),
        call.keeps_out(env.contract),
    ensures
        call.after(env).treasury() != Some(env.contract),
{
    crate::laws::effects::call_effect(call, env);
    if call is Initialize && call.accepted(env) {
        crate::laws::effects::initialization_sets(call, env, DataKey::Treasury);
    }
}

} // verus!
