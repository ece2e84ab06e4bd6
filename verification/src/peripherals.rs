//! The peripherals of a chip as things that can be taken once.
//!
//! A peripheral is named by its index. Who takes one owns it from then on;
//! nobody can take it again.

use vstd::prelude::*;

verus! {

/// What can go wrong when a group of peripherals is taken.
#[derive(Debug, Copy, Clone, PartialEq, Eq, Structural)]
pub enum DefinePeripheralsError {
    /// A peripheral of the group was taken before.
    TakingPeripheral,
}

/// All peripherals of a chip, none of them taken.
pub struct Peripherals {
    count: usize,
}

/// The peripherals of a chip, each of them there or taken.
pub struct OptionalPeripherals {
    present: Vec<bool>,
}

/// The software interrupt that the executor runs on.
pub struct SWI;

/// Something that a group of peripherals of type `T` can be taken from.
pub trait TakePeripherals<T> {
    fn take_peripherals(&mut self) -> T;
}

impl View for OptionalPeripherals {
    type V = Seq<bool>;

    /// For each peripheral, whether it is still there.
    closed spec fn view(&self) -> Seq<bool> {
        self.present@
    }
}

impl Peripherals {
    /// The number of peripherals.
    pub closed spec fn spec_count(&self) -> nat {
        self.count as nat
    }

    /// Returns the `count` peripherals of a chip.
    pub fn new(count: usize) -> (p: Peripherals)
        ensures
            p.spec_count() == count,
    {
        Peripherals { count }
    }
}

impl OptionalPeripherals {
    /// Returns the peripherals of `peripherals`, all of them there.
    pub fn from_all(peripherals: Peripherals) -> (o: OptionalPeripherals)
        ensures
            o@.len() == peripherals.spec_count(),
            forall|i: int| 0 <= i < o@.len() ==> o@[i],
    {
        let mut present: Vec<bool> = Vec::new();
        let mut i: usize = 0;
        while i < peripherals.count
            invariant
                i <= peripherals.count,
                present@.len() == i,
                forall|j: int| 0 <= j < i ==> present@[j],
            decreases peripherals.count - i,
        {
            present.push(true);
            i += 1;
        }
        OptionalPeripherals { present }
    }

    /// Whether peripheral `index` is still there.
    pub fn is_present(&self, index: usize) -> (p: bool)
        ensures
            p <==> index < self@.len() && self@[index as int],
    {
        index < self.present.len() && self.present[index]
    }

    /// Takes peripheral `index`. Fails, and changes nothing, if it is not
    /// there.
    pub fn take(&mut self, index: usize) -> (r: Result<usize, DefinePeripheralsError>)
        ensures
            index < old(self)@.len() && old(self)@[index as int] ==> r == Ok::<
                usize,
                DefinePeripheralsError,
            >(index) && final(self)@ == old(self)@.update(index as int, false),
            !(index < old(self)@.len() && old(self)@[index as int]) ==> r.is_err() && final(self)@
                == old(self)@,
    {
        if index < self.present.len() && self.present[index] {
            self.present[index] = false;
            Ok(index)
        } else {
            Err(DefinePeripheralsError::TakingPeripheral)
        }
    }

    /// Takes the peripherals `wanted`, in that order. Fails at the first
    /// that is not there; those before it stay taken.
    pub fn take_from(&mut self, wanted: &Vec<usize>) -> (r: Result<
        Vec<usize>,
        DefinePeripheralsError,
    >)
        ensures
            final(self)@.len() == old(self)@.len(),
            r matches Ok(taken) ==> taken@ == wanted@ && forall|i: usize|
                i < final(self)@.len() ==> final(self)@[i as int] == (old(self)@[i as int]
                    && !wanted@.contains(i)),
            r matches Ok(_) ==> forall|k: int|
                0 <= k < wanted@.len() ==> (#[trigger] wanted@[k]) < old(self)@.len() && old(self)@[wanted@[k] as int],
            r.is_err() ==> exists|k: int|
                {
                    &&& 0 <= k < wanted@.len()
                    &&& !((#[trigger] wanted@[k]) < old(self)@.len() && old(self)@[wanted@[k] as int] && !wanted@.subrange(0, k).contains(wanted@[k]))
                    &&& forall|i: usize|
                        i < final(self)@.len() ==> final(self)@[i as int] == (old(self)@[i as int]
                            && !wanted@.subrange(0, k).contains(i))
                },
    {
        let mut taken: Vec<usize> = Vec::new();
        let mut k: usize = 0;
        while k < wanted.len()
            invariant
                k <= wanted@.len(),
                self@.len() == old(self)@.len(),
                taken@ == wanted@.subrange(0, k as int),
                forall|i: usize|
                    i < self@.len() ==> self@[i as int] == (old(self)@[i as int]
                        && !wanted@.subrange(0, k as int).contains(i)),
                forall|j: int|
                    0 <= j < k ==> (#[trigger] wanted@[j]) < old(self)@.len() && old(self)@[wanted@[j] as int],
            decreases wanted@.len() - k,
        {
            let ghost before = self@;
            match self.take(wanted[k]) {
                Ok(index) => {
                    taken.push(index);
                },
                Err(e) => {
                    proof {
                        let w = wanted@[k as int];
                        if w < old(self)@.len() && old(self)@[w as int] {
                            assert(!before[w as int]);
                            assert(wanted@.subrange(0, k as int).contains(w));
                        }
                    }
                    return Err(e);
                },
            }
            proof {
                let w = wanted@[k as int];
                assert(wanted@.subrange(0, k + 1) =~= wanted@.subrange(0, k as int).push(w));
                let s0 = wanted@.subrange(0, k as int);
                let s1 = wanted@.subrange(0, k + 1);
                assert(s1[k as int] == w);
                assert forall|i: usize| i < self@.len() implies self@[i as int] == (old(self)@[i as int] && !s1.contains(i)) by {
                    assert(before[i as int] == (old(self)@[i as int] && !s0.contains(i)));
                    if s1.contains(i) {
                        let j = choose|j: int| 0 <= j < s1.len() && s1[j] == i;
                        if j < k {
                            assert(s0[j] == i);
                        }
                    }
                    if s0.contains(i) {
                        let j = choose|j: int| 0 <= j < s0.len() && s0[j] == i;
                        assert(s1[j] == i);
                    }
                }
            }
            k += 1;
        }
        proof {
            assert(wanted@.subrange(0, k as int) =~= wanted@);
        }
        Ok(taken)
    }
}

/// Sets up the chip and returns its peripherals, all of them there.
pub fn init(count: usize) -> (o: OptionalPeripherals)
    ensures
        o@.len() == count,
        forall|i: int| 0 <= i < o@.len() ==> o@[i],
{
    OptionalPeripherals::from_all(Peripherals::new(count))
}

} // verus!
