//! Basic types: errors, schedules, fixed-point percentages, thresholds and
//! principal identities.
use vstd::prelude::*;

verus! {

/// Nanoseconds since the UNIX epoch.
pub type TimeNs = u64;

/// Dense index of a proposal (equal to its creation order) or of a log entry.
pub type Index = u64;

/// Signed voting power; a negative increment nullifies a prior vote.
pub type VotingPower = i128;

/// Errors returned by the engine's operations.
#[derive(Clone, Copy, Debug, PartialEq, Eq, Structural)]
pub enum ReturnError {
    GenericError,
    InputError,
    Unauthorized,
    Expired,
    InterCanisterCallError,
    MemoryError,
    ArithmeticError,
    InvalidIndex,
    AlreadyExists,
    IncorrectProposalState,
    StateTransitionError,
    DependentProposalNotSucceeded,
    DependentProposalNotReady,
    PreValidateFailed,
    PostValidateFailed,
    ExecutionFailed,
}

/// A point in time that is either absolute or relative to the moment it is
/// frozen.
#[derive(Clone, Copy, Debug, PartialEq, Eq, Structural)]
pub enum Schedule {
    /// Exactly at the given time.
    At(TimeNs),
    /// At conversion time plus the given interval.
    In(TimeNs),
}

/// The absolute time a relative interval lands on when frozen at `now`
/// (clamped at the largest representable time).
pub open spec fn frozen_time(now: TimeNs, delta: TimeNs) -> TimeNs {
    if now + delta <= u64::MAX {
        (now + delta) as TimeNs
    } else {
        u64::MAX
    }
}

/// The schedule after freezing it at `now`.
pub open spec fn frozen_schedule(s: Schedule, now: TimeNs) -> Schedule {
    match s {
        Schedule::At(t) => Schedule::At(t),
        Schedule::In(d) => Schedule::At(frozen_time(now, d)),
    }
}

impl Schedule {
    /// Freezes a relative schedule to an absolute one; absolute schedules stay.
    pub fn convert_to_absolute(&mut self, now: TimeNs)
        ensures
            *final(self) == frozen_schedule(*old(self), now),
    {
        match *self {
            Schedule::At(_) => {},
            Schedule::In(d) => {
                *self = Schedule::At(now.saturating_add(d));
            },
        }
    }

    pub fn is_absolute(&self) -> (r: bool)
        ensures
            r == (*self is At),
    {
        match self {
            Schedule::At(_) => true,
            Schedule::In(_) => false,
        }
    }

    /// True for an absolute time after `now`, and for every relative schedule.
    pub fn is_in_future(&self, now: TimeNs) -> (r: bool)
        ensures
            r == match *self {
                Schedule::At(t) => t > now,
                Schedule::In(_) => true,
            },
    {
        match self {
            Schedule::At(t) => *t > now,
            Schedule::In(_) => true,
        }
    }

    pub fn to_timestamp(&self) -> (r: Option<TimeNs>)
        ensures
            r == match *self {
                Schedule::At(t) => Some(t),
                Schedule::In(_) => None::<TimeNs>,
            },
    {
        match self {
            Schedule::At(t) => Some(*t),
            Schedule::In(_) => None,
        }
    }
}


/// Scale of the fixed-point percentage used for thresholds: `40_000` is 100%.
pub const PERCENT_SCALE: u16 = 40_000;

/// A fixed-point percentage; the scale depends on the width of `T`.
#[derive(Clone, Copy, Debug, PartialEq, Eq, Structural)]
pub struct Percentage<T>(pub T);

/// Percentages with basis-point precision scaled four times: `40_000` is 100%.
impl Percentage<u16> {
    pub fn from_percent(percent: u8) -> (r: Self)
        requires
            percent as int * 400 <= u16::MAX,
        ensures
            r.0 == percent as int * 400,
    {
        Percentage(percent as u16 * 400)
    }

    pub fn from_basis_points(basis_points: u16) -> (r: Self)
        requires
            basis_points as int * 4 <= u16::MAX,
        ensures
            r.0 == basis_points as int * 4,
    {
        Percentage(basis_points * 4)
    }

    /// Parts per million; the quotient is truncated to 16 bits.
    pub fn from_ppm(ppm: u32) -> (r: Self)
        ensures
            r.0 == (ppm / 25) as u16,
    {
        Percentage(#[verifier::truncate] ((ppm / 25) as u16))
    }

    /// Parts per billion; the quotient is truncated to 16 bits.
    pub fn from_ppb(ppb: u32) -> (r: Self)
        ensures
            r.0 == (ppb / 25_000) as u16,
    {
        Percentage(#[verifier::truncate] ((ppb / 25_000) as u16))
    }

    /// At most 100%.
    pub fn is_valid(&self) -> (r: bool)
        ensures
            r == (self.0 <= PERCENT_SCALE),
    {
        self.0 <= PERCENT_SCALE
    }
}

/// Percentages with part-per-billion precision scaled four times:
/// `4_000_000_000` is 100%.
impl Percentage<u32> {
    pub fn from_percent(percent: u8) -> (r: Self)
        requires
            percent as int * 40_000_000 <= u32::MAX,
        ensures
            r.0 == percent as int * 40_000_000,
    {
        Percentage(percent as u32 * 40_000_000)
    }

    pub fn from_basis_points(basis_points: u16) -> (r: Self)
        requires
            basis_points as int * 400_000 <= u32::MAX,
        ensures
            r.0 == basis_points as int * 400_000,
    {
        Percentage(basis_points as u32 * 400_000)
    }

    pub fn from_ppm(ppm: u32) -> (r: Self)
        requires
            ppm as int * 4_000 <= u32::MAX,
        ensures
            r.0 == ppm as int * 4_000,
    {
        Percentage(ppm * 4_000)
    }

    pub fn from_ppb(ppb: u32) -> (r: Self)
        requires
            ppb as int * 4 <= u32::MAX,
        ensures
            r.0 == ppb as int * 4,
    {
        Percentage(ppb * 4)
    }

    /// At most 100%.
    pub fn is_valid(&self) -> (r: bool)
        ensures
            r == (self.0 <= 4_000_000_000),
    {
        self.0 <= 4_000_000_000
    }
}

/// Quorum and pass rate that a proposal must meet.
#[derive(Clone, Copy, Debug, PartialEq, Eq, Structural)]
pub struct ProposalPassingThreshold {
    /// Share of the total voting power that must take part (yes, no or abstain).
    pub quorum: Percentage<u16>,
    /// Share of yes among yes and no votes needed to pass.
    pub passing_threshold: Percentage<u16>,
}

impl ProposalPassingThreshold {
    pub open spec fn valid(self) -> bool {
        self.quorum.0 <= PERCENT_SCALE && self.passing_threshold.0 <= PERCENT_SCALE
    }

    pub open spec fn gte(self, other: Self) -> bool {
        self.quorum.0 >= other.quorum.0 && self.passing_threshold.0 >= other.passing_threshold.0
    }

    /// Both components are at most 100%.
    pub fn is_valid(&self) -> (r: bool)
        ensures
            r == self.valid(),
    {
        self.quorum.is_valid() && self.passing_threshold.is_valid()
    }

    /// Both components are at least those of `other`.
    pub fn all_fields_gte(&self, other: &Self) -> (r: bool)
        ensures
            r == self.gte(*other),
    {
        self.quorum.0 >= other.quorum.0 && self.passing_threshold.0 >= other.passing_threshold.0
    }
}

impl Default for ProposalPassingThreshold {
    /// 20% quorum and 20% pass rate.
    fn default() -> (r: Self)
        ensures
            r.quorum.0 == 8_000 && r.passing_threshold.0 == 8_000,
    {
        ProposalPassingThreshold {
            quorum: Percentage::<u16>::from_percent(20),
            passing_threshold: Percentage::<u16>::from_percent(20),
        }
    }
}


/// Longest principal identity, in bytes.
pub const PRINCIPAL_MAX_LEN: usize = 29;

/// A principal identity (a caller or a canister), held as its raw bytes.
#[derive(Debug)]
pub struct StablePrincipal {
    bytes: Vec<u8>,
}

impl View for StablePrincipal {
    type V = Seq<u8>;

    closed spec fn view(&self) -> Seq<u8> {
        self.bytes@
    }
}

impl StablePrincipal {
    /// The principal with the given bytes; `None` when they are too long.
    pub fn from_slice(bytes: &[u8]) -> (r: Option<StablePrincipal>)
        ensures
            r is Some <==> bytes@.len() <= PRINCIPAL_MAX_LEN,
            r matches Some(p) ==> p@ == bytes@,
    {
        if bytes.len() > PRINCIPAL_MAX_LEN {
            return None;
        }
        let mut v: Vec<u8> = Vec::new();
        let mut i: usize = 0;
        while i < bytes.len()
            invariant
                i <= bytes@.len(),
                v@ == bytes@.subrange(0, i as int),
            decreases bytes@.len() - i,
        {
            v.push(bytes[i]);
            i = i + 1;
        }
        assert(v@ =~= bytes@);
        Some(StablePrincipal { bytes: v })
    }

    /// The anonymous principal: the single byte `0x04`.
    pub fn anonymous() -> (r: StablePrincipal)
        ensures
            r@ == seq![4u8],
    {
        let mut v: Vec<u8> = Vec::new();
        v.push(4u8);
        assert(v@ =~= seq![4u8]);
        StablePrincipal { bytes: v }
    }

    pub fn as_slice(&self) -> (r: &[u8])
        ensures
            r@ == self@,
    {
        self.bytes.as_slice()
    }

    pub fn len(&self) -> (r: usize)
        ensures
            r == self@.len(),
    {
        self.bytes.len()
    }
}

impl Clone for StablePrincipal {
    fn clone(&self) -> (r: Self)
        ensures
            r@ == self@,
    {
        let v = self.bytes.clone();
        assert(v@ =~= self.bytes@);
        StablePrincipal { bytes: v }
    }
}

impl PartialEq for StablePrincipal {
    fn eq(&self, other: &StablePrincipal) -> (r: bool) {
        if self.bytes.len() != other.bytes.len() {
            return false;
        }
        let mut i: usize = 0;
        while i < self.bytes.len()
            invariant
                self.bytes@.len() == other.bytes@.len(),
                i <= self.bytes@.len(),
                forall|j: int| 0 <= j < i ==> self.bytes@[j] == other.bytes@[j],
            decreases self.bytes@.len() - i,
        {
            if self.bytes[i] != other.bytes[i] {
                return false;
            }
            i = i + 1;
        }
        assert(self.bytes@ =~= other.bytes@);
        true
    }
}

impl vstd::std_specs::cmp::PartialEqSpecImpl for StablePrincipal {
    open spec fn obeys_eq_spec() -> bool {
        true
    }

    open spec fn eq_spec(&self, other: &StablePrincipal) -> bool {
        self@ == other@
    }
}

impl Eq for StablePrincipal {}

} // verus!
