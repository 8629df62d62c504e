use vstd::prelude::*;

use crate::identity::Identity;

verus! {

/// Seconds after creation from which the initializer may cancel whatever was deposited.
pub const DEFAULT_TIMEOUT_SECONDS: i64 = 86400;

/// The largest number of assets one party may put into a swap.
pub const MAX_NFTS: u8 = 3;

/// Every slot below `count` is set.
pub open spec fn all_set(flags: [bool; 3], count: u8) -> bool {
    forall|i: int| 0 <= i < count ==> flags@[i]
}

/// No slot below `count` is set.
pub open spec fn none_set(flags: [bool; 3], count: u8) -> bool {
    forall|i: int| 0 <= i < count ==> !flags@[i]
}

/// How many slots below `count` are still unset.
pub open spec fn unset_count(flags: [bool; 3], count: u8) -> nat {
    (if count > 0 && !flags@[0] { 1nat } else { 0nat })
        + (if count > 1 && !flags@[1] { 1nat } else { 0nat })
        + (if count > 2 && !flags@[2] { 1nat } else { 0nat })
}

/// Each flag set in `a` is set in `b`.
pub open spec fn flags_kept(a: [bool; 3], b: [bool; 3]) -> bool {
    forall|i: int| 0 <= i < 3 ==> a@[i] ==> b@[i]
}

/// Whether every slot below `count` is set.
pub fn all_slots_set(flags: &[bool; 3], count: u8) -> (r: bool)
    requires
        count <= 3,
    ensures
        r == all_set(*flags, count),
{
    let mut i: usize = 0;
    while i < count as usize
        invariant
            i <= count <= 3,
            forall|j: int| 0 <= j < i ==> flags@[j],
        decreases count - i,
    {
        if !flags[i] {
            return false;
        }
        i = i + 1;
    }
    true
}

/// Whether no slot below `count` is set.
pub fn no_slot_set(flags: &[bool; 3], count: u8) -> (r: bool)
    requires
        count <= 3,
    ensures
        r == none_set(*flags, count),
{
    let mut i: usize = 0;
    while i < count as usize
        invariant
            i <= count <= 3,
            forall|j: int| 0 <= j < i ==> !flags@[j],
        decreases count - i,
    {
        if flags[i] {
            return false;
        }
        i = i + 1;
    }
    true
}

/// The persisted record of one swap between an initializer (party A) and a taker (party B).
#[derive(Clone, Copy, Debug, PartialEq, Eq)]
pub struct EscrowAccount {
    pub initializer: Identity,
    pub taker: Identity,
    pub initializer_nft_count: u8,
    pub taker_nft_count: u8,
    pub initializer_nft_mints: [Identity; 3],
    pub taker_nft_mints: [Identity; 3],
    pub initializer_nft_deposited: [bool; 3],
    pub taker_nft_deposited: [bool; 3],
    pub initializer_nft_collected: [bool; 3],
    pub taker_nft_collected: [bool; 3],
    pub initializer_deposited: bool,
    pub taker_deposited: bool,
    pub initializer_collected: bool,
    pub taker_collected: bool,
    pub is_initialized: bool,
    pub bump: u8,
    pub created_at: i64,
    pub timeout_in_seconds: i64,
}

impl EscrowAccount {
    /// Bytes the persisted record takes, its 8-byte type tag included.
    pub fn space() -> (r: usize)
        ensures
            r == 300,
    {
        8 + 32 + 32 + 1 + 1 + (32 * 3) + (32 * 3) + (1 * 3) + (1 * 3) + (1 * 3) + (1 * 3) + 1 + 1
            + 1 + 1 + 1 + 1 + 8 + 8
    }

    /// A record that holds nothing, as storage holds it before initialization.
    pub fn empty() -> (r: EscrowAccount)
        ensures
            !r.is_initialized,
            r.wf(),
            r.initializer_nft_mints == r.taker_nft_mints,
            none_set(r.initializer_nft_deposited, 3) && none_set(r.taker_nft_deposited, 3),
            none_set(r.initializer_nft_collected, 3) && none_set(r.taker_nft_collected, 3),
            !r.initializer_deposited && !r.taker_deposited,
            !r.initializer_collected && !r.taker_collected,
            forall|i: int| 0 <= i < 3 ==> (#[trigger] r.initializer_nft_mints@[i])@ == Seq::new(32, |j: int| 0u8),
    {
        let z = Identity::zero();
        EscrowAccount {
            initializer: z,
            taker: z,
            initializer_nft_count: 0,
            taker_nft_count: 0,
            initializer_nft_mints: [z, z, z],
            taker_nft_mints: [z, z, z],
            initializer_nft_deposited: [false, false, false],
            taker_nft_deposited: [false, false, false],
            initializer_nft_collected: [false, false, false],
            taker_nft_collected: [false, false, false],
            initializer_deposited: false,
            taker_deposited: false,
            initializer_collected: false,
            taker_collected: false,
            is_initialized: false,
            bump: 0,
            created_at: 0,
            timeout_in_seconds: 0,
        }
    }

    /// Whether the record satisfies its invariant; a record written only by
    /// this library always does.
    pub fn is_well_formed(&self) -> (r: bool)
        ensures
            r == self.wf(),
    {
        if !self.is_initialized {
            return true;
        }
        if !(1 <= self.initializer_nft_count && self.initializer_nft_count <= MAX_NFTS) {
            return false;
        }
        if !(1 <= self.taker_nft_count && self.taker_nft_count <= MAX_NFTS) {
            return false;
        }
        let a = self.initializer_nft_count;
        let b = self.taker_nft_count;
        if self.initializer_deposited != all_slots_set(&self.initializer_nft_deposited, a)
            || self.taker_deposited != all_slots_set(&self.taker_nft_deposited, b)
            || self.initializer_collected != all_slots_set(&self.initializer_nft_collected, a)
            || self.taker_collected != all_slots_set(&self.taker_nft_collected, b) {
            return false;
        }
        if !(self.initializer_deposited && self.taker_deposited) {
            return no_slot_set(&self.initializer_nft_collected, a) && no_slot_set(
                &self.taker_nft_collected,
                b,
            );
        }
        true
    }

    /// The identity of the initializer (`true`) or of the taker (`false`).
    pub open spec fn party(self, is_initializer: bool) -> Identity {
        if is_initializer { self.initializer } else { self.taker }
    }

    pub open spec fn count(self, is_initializer: bool) -> u8 {
        if is_initializer { self.initializer_nft_count } else { self.taker_nft_count }
    }

    pub open spec fn mints(self, is_initializer: bool) -> [Identity; 3] {
        if is_initializer { self.initializer_nft_mints } else { self.taker_nft_mints }
    }

    pub open spec fn deposited(self, is_initializer: bool) -> [bool; 3] {
        if is_initializer { self.initializer_nft_deposited } else { self.taker_nft_deposited }
    }

    pub open spec fn collected(self, is_initializer: bool) -> [bool; 3] {
        if is_initializer { self.initializer_nft_collected } else { self.taker_nft_collected }
    }

    pub open spec fn fully_deposited(self, is_initializer: bool) -> bool {
        if is_initializer { self.initializer_deposited } else { self.taker_deposited }
    }

    pub open spec fn fully_collected(self, is_initializer: bool) -> bool {
        if is_initializer { self.initializer_collected } else { self.taker_collected }
    }

    /// Both parties have every declared asset in custody.
    pub open spec fn ready(self) -> bool {
        self.initializer_deposited && self.taker_deposited
    }

    /// Every declared slot of both parties has been released to its recipient.
    pub open spec fn all_collected(self) -> bool {
        all_set(self.initializer_nft_collected, self.initializer_nft_count) && all_set(
            self.taker_nft_collected,
            self.taker_nft_count,
        )
    }

    /// No declared slot of either party holds a deposit.
    pub open spec fn nothing_deposited(self) -> bool {
        none_set(self.initializer_nft_deposited, self.initializer_nft_count) && none_set(
            self.taker_nft_deposited,
            self.taker_nft_count,
        )
    }

    /// Declared slots of both parties not yet released.
    pub open spec fn uncollected(self) -> nat {
        unset_count(self.initializer_nft_collected, self.initializer_nft_count) + unset_count(
            self.taker_nft_collected,
            self.taker_nft_count,
        )
    }

    /// Whether the time `now` is past the record's timeout.
    pub open spec fn timed_out(self, now: i64) -> bool {
        now > self.created_at + self.timeout_in_seconds
    }

    /// No deposited or collected flag of `self` is unset in `other`.
    pub open spec fn flags_kept_in(self, other: EscrowAccount) -> bool {
        &&& flags_kept(self.initializer_nft_deposited, other.initializer_nft_deposited)
        &&& flags_kept(self.taker_nft_deposited, other.taker_nft_deposited)
        &&& flags_kept(self.initializer_nft_collected, other.initializer_nft_collected)
        &&& flags_kept(self.taker_nft_collected, other.taker_nft_collected)
    }

    /// What `initialize` fixes and nothing after it changes.
    pub open spec fn same_terms(self, other: EscrowAccount) -> bool {
        &&& self.initializer == other.initializer
        &&& self.taker == other.taker
        &&& self.initializer_nft_count == other.initializer_nft_count
        &&& self.taker_nft_count == other.taker_nft_count
        &&& self.initializer_nft_mints == other.initializer_nft_mints
        &&& self.taker_nft_mints == other.taker_nft_mints
        &&& self.bump == other.bump
        &&& self.created_at == other.created_at
        &&& self.timeout_in_seconds == other.timeout_in_seconds
    }

    /// The invariant of a live record: counts in range, cached flags agree with
    /// the slots, and nothing released before both sides were complete.
    pub open spec fn wf(self) -> bool {
        self.is_initialized ==> {
            &&& 1 <= self.initializer_nft_count <= 3
            &&& 1 <= self.taker_nft_count <= 3
            &&& self.initializer_deposited == all_set(
                self.initializer_nft_deposited,
                self.initializer_nft_count,
            )
            &&& self.taker_deposited == all_set(self.taker_nft_deposited, self.taker_nft_count)
            &&& self.initializer_collected == all_set(
                self.initializer_nft_collected,
                self.initializer_nft_count,
            )
            &&& self.taker_collected == all_set(self.taker_nft_collected, self.taker_nft_count)
            &&& !self.ready() ==> none_set(
                self.initializer_nft_collected,
                self.initializer_nft_count,
            ) && none_set(self.taker_nft_collected, self.taker_nft_count)
        }
    }
}

} // verus!
