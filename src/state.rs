use vstd::prelude::*;

verus! {

/// Seconds that shares stay in escrow, fixed when the contract is set up.
pub const LOCK_DURATION: u64 = 600;

/// The identity of the connected messaging channel.
#[derive(Clone, Debug, PartialEq, Eq)]
pub struct ChannelInfo {
    pub channel_id: String,
    pub port_id: String,
}

impl ChannelInfo {
    /// A copy of this descriptor.
    pub fn duplicate(&self) -> (r: ChannelInfo)
        ensures
            r == *self,
    {
        ChannelInfo { channel_id: self.channel_id.clone(), port_id: self.port_id.clone() }
    }
}

/// Pool shares held in escrow for one owner.
#[derive(Clone, Copy, Debug, PartialEq, Eq, Structural)]
pub struct LockedShares {
    pub pool_id: u128,
    pub amount: u128,
    pub unlock_time: u64,
}

/// Everything the contract keeps between invocations.
#[derive(Clone, Debug)]
pub struct ContractState {
    /// Escrow period, in seconds, added to the confirmation time.
    pub lock_duration: u64,
    /// Telemetry counter, grown by inbound events.
    pub counter: u64,
    /// The connected channel, if any.
    pub channel_info: Option<ChannelInfo>,
    /// Whose pool-creation request awaits its confirmation.
    pub pending_sender: Option<String>,
    /// Escrow records; a later record for an owner shadows an earlier one.
    pub locked: Vec<(String, LockedShares)>,
}

/// The escrow map that a list of records stands for: the last record of each
/// owner wins.
pub open spec fn escrow_of(s: Seq<(String, LockedShares)>) -> Map<Seq<char>, LockedShares>
    decreases s.len(),
{
    if s.len() == 0 {
        Map::empty()
    } else {
        escrow_of(s.drop_last()).insert(s.last().0@, s.last().1)
    }
}

impl ContractState {
    /// The escrow map, keyed by owner address.
    pub open spec fn escrow(&self) -> Map<Seq<char>, LockedShares> {
        escrow_of(self.locked@)
    }

    /// A fresh state with the given lock period and nothing recorded.
    pub fn new(lock_duration: u64) -> (r: ContractState)
        ensures
            r.lock_duration == lock_duration,
            r.counter == 0,
            r.channel_info.is_none(),
            r.pending_sender.is_none(),
            r.escrow() == Map::<Seq<char>, LockedShares>::empty(),
    {
        ContractState {
            lock_duration,
            counter: 0,
            channel_info: None,
            pending_sender: None,
            locked: Vec::new(),
        }
    }

    /// The escrow record of `owner`, if there is one.
    pub fn locked_shares_of(&self, owner: &String) -> (r: Option<LockedShares>)
        ensures
            r == (if self.escrow().dom().contains(owner@) {
                Some(self.escrow()[owner@])
            } else {
                None::<LockedShares>
            }),
    {
        let mut found: Option<LockedShares> = None;
        let mut i: usize = 0;
        while i < self.locked.len()
            invariant
                i <= self.locked@.len(),
                found == (if escrow_of(self.locked@.subrange(0, i as int)).dom().contains(owner@) {
                    Some(escrow_of(self.locked@.subrange(0, i as int))[owner@])
                } else {
                    None::<LockedShares>
                }),
            decreases self.locked@.len() - i,
        {
            assert(self.locked@.subrange(0, i + 1).drop_last() == self.locked@.subrange(0, i as int));
            if self.locked[i].0 == *owner {
                found = Some(self.locked[i].1);
            }
            i = i + 1;
        }
        assert(self.locked@.subrange(0, self.locked@.len() as int) == self.locked@);
        found
    }

    /// Drops every escrow record of `owner`.
    pub fn remove_locked(&mut self, owner: &String)
        ensures
            final(self).escrow() == old(self).escrow().remove(owner@),
            final(self).lock_duration == old(self).lock_duration,
            final(self).counter == old(self).counter,
            final(self).channel_info == old(self).channel_info,
            final(self).pending_sender == old(self).pending_sender,
    {
        let mut kept: Vec<(String, LockedShares)> = Vec::new();
        let mut i: usize = 0;
        while i < self.locked.len()
            invariant
                i <= self.locked@.len(),
                escrow_of(kept@) == escrow_of(self.locked@.subrange(0, i as int)).remove(owner@),
            decreases self.locked@.len() - i,
        {
            let ghost prev = kept@;
            assert(self.locked@.subrange(0, i + 1).drop_last() == self.locked@.subrange(0, i as int));
            if self.locked[i].0 != *owner {
                let entry = (self.locked[i].0.clone(), self.locked[i].1);
                kept.push(entry);
                assert(kept@.drop_last() == prev);
                assert(escrow_of(kept@) =~= escrow_of(self.locked@.subrange(0, i + 1)).remove(owner@));
            } else {
                assert(escrow_of(kept@) =~= escrow_of(self.locked@.subrange(0, i + 1)).remove(owner@));
            }
            i = i + 1;
        }
        assert(self.locked@.subrange(0, self.locked@.len() as int) == self.locked@);
        self.locked = kept;
    }

    /// Records `shares` for `owner`, replacing any earlier record.
    pub fn set_locked(&mut self, owner: &String, shares: LockedShares)
        ensures
            final(self).escrow() == old(self).escrow().insert(owner@, shares),
            final(self).lock_duration == old(self).lock_duration,
            final(self).counter == old(self).counter,
            final(self).channel_info == old(self).channel_info,
            final(self).pending_sender == old(self).pending_sender,
    {
        self.remove_locked(owner);
        let ghost mid = self.locked@;
        self.locked.push((owner.clone(), shares));
        assert(self.locked@.drop_last() == mid);
        assert(self.escrow() =~= old(self).escrow().insert(owner@, shares));
    }
}

} // verus!
