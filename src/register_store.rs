use vstd::prelude::*;
use rand::Rng;

verus! {

/// Lowest value that the background ticker writes.
pub const TICK_MIN: u16 = 1;

/// Highest value that the background ticker writes.
pub const TICK_MAX: u16 = 200;

/// Relies on rand 0.8's `thread_rng().gen_range(low..=high)`: a value of
/// the inclusive range, which must not be empty.
#[verifier::external_body]
fn random_in_range(low: u16, high: u16) -> (r: u16)
    requires
        low <= high,
    ensures
        low <= r <= high,
{
    rand::thread_rng().gen_range(low..=high)
}

/// The controller's single 16-bit register. Beside the value it keeps, as
/// ghost state, every value that was ever stored in it, starting with the
/// initial one; the current value is always the last of them.
pub struct RegisterStore {
    value: u16,
    applied: Ghost<Seq<u16>>,
}

impl View for RegisterStore {
    type V = u16;

    closed spec fn view(&self) -> u16 {
        self.value
    }
}

impl RegisterStore {
    /// Every value that was stored, in order, the initial one first.
    pub closed spec fn applied_writes(&self) -> Seq<u16> {
        self.applied@
    }

    #[verifier::type_invariant]
    spec fn inv(&self) -> bool {
        &&& self.applied@.len() > 0
        &&& self.applied@.last() == self.value
    }

    /// A store that holds `initial`.
    pub fn new(initial: u16) -> (s: RegisterStore)
        ensures
            s@ == initial,
            s.applied_writes() == seq![initial],
    {
        let ghost first = seq![initial];
        RegisterStore { value: initial, applied: Ghost(first) }
    }

    /// The value held now. It is always the last value that a write stored
    /// whole, never a mix of two writes' bytes.
    pub fn read(&self) -> (r: u16)
        ensures
            r == self@,
            r == self.applied_writes().last(),
            self.applied_writes().contains(r),
    {
        proof {
            use_type_invariant(self);
            assert(self.applied@[self.applied@.len() - 1] == self.value);
        }
        self.value
    }

    /// Replaces the value; the new value is recorded as applied.
    pub fn write(&mut self, v: u16)
        ensures
            final(self)@ == v,
            final(self).applied_writes() == old(self).applied_writes().push(v),
    {
        proof {
            use_type_invariant(&*self);
        }
        let ghost next = self.applied@.push(v);
        *self = RegisterStore { value: v, applied: Ghost(next) };
    }

    /// One step of the background ticker: stores a value drawn from
    /// `TICK_MIN..=TICK_MAX`.
    pub fn tick(&mut self) -> (r: u16)
        ensures
            TICK_MIN <= r <= TICK_MAX,
            final(self)@ == r,
            final(self).applied_writes() == old(self).applied_writes().push(r),
    {
        let v = random_in_range(TICK_MIN, TICK_MAX);
        self.write(v);
        v
    }
}

} // verus!
