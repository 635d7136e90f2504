//! The trap registers of a hart, as far as the kernel writes them.

use crate::ops::Op;
use crate::usertrap::UserPending;
use vstd::prelude::*;

verus! {

/// The bits and the trap vector that the kernel's operations write: the
/// supervisor's interrupt enables, the delegation of the user's interrupts,
/// the counters that user mode may read, the trap vector, the pending
/// interrupts that the kernel raises or clears, and the status bits that
/// decide how the hart leaves a trap.
#[derive(Clone, Copy, Debug, PartialEq, Eq, Structural)]
pub struct HartState {
    pub sie_stimer: bool,
    pub sie_sext: bool,
    pub sie_ssoft: bool,
    pub sideleg_usoft: bool,
    pub sideleg_uext: bool,
    pub sideleg_utimer: bool,
    pub scounteren_cy: bool,
    pub scounteren_tm: bool,
    pub scounteren_ir: bool,
    pub stvec: usize,
    pub sip_ssoft: bool,
    pub pending: UserPending,
    pub sstatus_sie: bool,
    pub sstatus_spie: bool,
    pub sstatus_spp_user: bool,
}

/// The pending interrupts of `pending` with those of `raised` added.
pub open spec fn raised_on(pending: UserPending, raised: UserPending) -> UserPending {
    UserPending {
        soft: pending.soft || raised.soft,
        timer: pending.timer || raised.timer,
        external: pending.external || raised.external,
    }
}

impl HartState {
    /// The registers once `op` was done. An operation of a collaborator
    /// leaves them as they are.
    pub open spec fn after(self, op: Op) -> HartState {
        match op {
            Op::SieSetStimer => HartState { sie_stimer: true, ..self },
            Op::SieSetSext => HartState { sie_sext: true, ..self },
            Op::SieSetSsoft => HartState { sie_ssoft: true, ..self },
            Op::SidelegSetUsoft => HartState { sideleg_usoft: true, ..self },
            Op::SidelegSetUext => HartState { sideleg_uext: true, ..self },
            Op::SidelegSetUtimer => HartState { sideleg_utimer: true, ..self },
            Op::ScounterenSetCy => HartState { scounteren_cy: true, ..self },
            Op::ScounterenSetTm => HartState { scounteren_tm: true, ..self },
            Op::ScounterenSetIr => HartState { scounteren_ir: true, ..self },
            Op::StvecWrite { addr } => HartState { stvec: addr, ..self },
            Op::SipSetUtimer => HartState {
                pending: UserPending { timer: true, ..self.pending },
                ..self
            },
            Op::SipClearSsoft => HartState { sip_ssoft: false, ..self },
            Op::SstatusClearSie => HartState { sstatus_sie: false, ..self },
            Op::SstatusSetSpie => HartState { sstatus_spie: true, ..self },
            Op::SstatusSetSppUser => HartState { sstatus_spp_user: true, ..self },
            Op::RaisePending(raised) => HartState {
                pending: raised_on(self.pending, raised),
                ..self
            },
            _ => self,
        }
    }

    /// The registers once each of `ops` was done, in order.
    pub open spec fn after_all(self, ops: Seq<Op>) -> HartState
        decreases ops.len(),
    {
        if ops.len() == 0 {
            self
        } else {
            self.after(ops[0]).after_all(ops.drop_first())
        }
    }

    /// Does `op` on the registers.
    pub fn apply(&mut self, op: &Op)
        ensures
            *final(self) == old(self).after(*op),
    {
        let now = *self;
        *self =
        match op {
            Op::SieSetStimer => HartState { sie_stimer: true, ..now },
            Op::SieSetSext => HartState { sie_sext: true, ..now },
            Op::SieSetSsoft => HartState { sie_ssoft: true, ..now },
            Op::SidelegSetUsoft => HartState { sideleg_usoft: true, ..now },
            Op::SidelegSetUext => HartState { sideleg_uext: true, ..now },
            Op::SidelegSetUtimer => HartState { sideleg_utimer: true, ..now },
            Op::ScounterenSetCy => HartState { scounteren_cy: true, ..now },
            Op::ScounterenSetTm => HartState { scounteren_tm: true, ..now },
            Op::ScounterenSetIr => HartState { scounteren_ir: true, ..now },
            Op::StvecWrite { addr } => HartState { stvec: *addr, ..now },
            Op::SipSetUtimer => HartState {
                pending: UserPending { timer: true, ..now.pending },
                ..now
            },
            Op::SipClearSsoft => HartState { sip_ssoft: false, ..now },
            Op::SstatusClearSie => HartState { sstatus_sie: false, ..now },
            Op::SstatusSetSpie => HartState { sstatus_spie: true, ..now },
            Op::SstatusSetSppUser => HartState { sstatus_spp_user: true, ..now },
            Op::RaisePending(raised) => HartState {
                pending: UserPending {
                    soft: now.pending.soft || raised.soft,
                    timer: now.pending.timer || raised.timer,
                    external: now.pending.external || raised.external,
                },
                ..now
            },
            _ => now,
        };
    }

    /// Does each of `ops` on the registers, in order.
    pub fn apply_all(&mut self, ops: &Vec<Op>)
        ensures
            *final(self) == old(self).after_all(ops@),
    {
        let mut i: usize = 0;
        assert(ops@.skip(0) =~= ops@);
        while i < ops.len()
            invariant
                i <= ops.len(),
                self.after_all(ops@.skip(i as int)) == old(self).after_all(ops@),
            decreases ops.len() - i,
        {
            proof {
                let ghost rest = ops@.skip(i as int);
                assert(rest[0] == ops@[i as int]);
                assert(rest.drop_first() =~= ops@.skip(i + 1));
            }
            self.apply(&ops[i]);
            i = i + 1;
        }
        assert(ops@.skip(i as int).len() == 0);
    }
}

/// Doing a list of operations with one more at its end is doing the list,
/// then the one.
pub proof fn lemma_after_all_push(hart: HartState, ops: Seq<Op>, op: Op)
    ensures
        hart.after_all(ops.push(op)) == hart.after_all(ops).after(op),
    decreases ops.len(),
{
    if ops.len() == 0 {
        assert(ops.push(op).drop_first() =~= ops);
        assert(hart.after(op).after_all(ops) == hart.after(op));
    } else {
        assert(ops.push(op).drop_first() =~= ops.drop_first().push(op));
        assert(ops.push(op)[0] == ops[0]);
        lemma_after_all_push(hart.after(ops[0]), ops.drop_first(), op);
    }
}

/// Operations that are no write of the trap vector leave the trap vector
/// as it is.
pub proof fn lemma_trap_vector_is_kept(hart: HartState, ops: Seq<Op>)
    requires
        forall|i: int| 0 <= i < ops.len() ==> !(#[trigger] ops[i] is StvecWrite),
    ensures
        hart.after_all(ops).stvec == hart.stvec,
    decreases ops.len(),
{
    if ops.len() > 0 {
        assert(!(ops[0] is StvecWrite));
        assert forall|i: int| 0 <= i < ops.drop_first().len() implies !(
        #[trigger] ops.drop_first()[i] is StvecWrite) by {
            assert(ops.drop_first()[i] == ops[i + 1]);
        }
        lemma_trap_vector_is_kept(hart.after(ops[0]), ops.drop_first());
    }
}

} // verus!
