//! The process-wide registry of window classes: each distinct class name is
//! registered with the native layer at most once.
//!
//! Callers serialise access to one registry with a single lock; under that
//! lock every sequence of calls behaves as the laws below state.

use vstd::prelude::*;
use crate::error::Error;

verus! {

/// What `ensure_registered` found.
#[derive(Clone, Copy, Debug, PartialEq, Eq, Structural)]
pub enum Registration {
    /// The class was registered before; nothing was done.
    AlreadyExisted,
    /// This call performed the native registration, and so owns the class.
    Registered,
}

/// The outcome of a registration request for `name` on a registry holding
/// `classes`, when the native registration succeeds.
pub open spec fn registration_step(classes: Set<Seq<u16>>, name: Seq<u16>) -> Registration {
    if classes.contains(name) {
        Registration::AlreadyExisted
    } else {
        Registration::Registered
    }
}

/// The classes held after successful requests for each of `names` in turn.
pub open spec fn registry_after(start: Set<Seq<u16>>, names: Seq<Seq<u16>>) -> Set<Seq<u16>>
    decreases names.len(),
{
    if names.len() == 0 {
        start
    } else {
        registry_after(start, names.drop_last()).insert(names.last())
    }
}

/// The outcome of the `i`-th of successful requests for each of `names` in turn.
pub open spec fn outcome_at(start: Set<Seq<u16>>, names: Seq<Seq<u16>>, i: int) -> Registration {
    registration_step(registry_after(start, names.subrange(0, i)), names[i])
}

/// Names of the window classes registered by this library, each once.
pub struct ClassRegistry {
    names: Vec<Vec<u16>>,
}

fn same_units(a: &Vec<u16>, b: &Vec<u16>) -> (r: bool)
    ensures
        r == (a@ == b@),
{
    if a.len() != b.len() {
        return false;
    }
    let mut i: usize = 0;
    while i < a.len()
        invariant
            a@.len() == b@.len(),
            i <= a@.len(),
            forall|j: int| 0 <= j < i ==> a@[j] == b@[j],
        decreases a@.len() - i,
    {
        if a[i] != b[i] {
            return false;
        }
        i = i + 1;
    }
    assert(a@ =~= b@);
    true
}

fn copy_units(a: &Vec<u16>) -> (r: Vec<u16>)
    ensures
        r@ == a@,
{
    let mut r: Vec<u16> = Vec::new();
    let mut i: usize = 0;
    while i < a.len()
        invariant
            i <= a@.len(),
            r@ == a@.subrange(0, i as int),
        decreases a@.len() - i,
    {
        r.push(a[i]);
        i = i + 1;
        assert(r@ =~= a@.subrange(0, i as int));
    }
    assert(r@ =~= a@);
    r
}

impl View for ClassRegistry {
    type V = Set<Seq<u16>>;

    closed spec fn view(&self) -> Set<Seq<u16>> {
        Set::new(|n: Seq<u16>| exists|i: int| 0 <= i < self.names@.len() && #[trigger] self.names@[i]@ == n)
    }
}

impl ClassRegistry {
    /// A registry that holds no class.
    pub fn new() -> (r: ClassRegistry)
        ensures
            r@ == Set::<Seq<u16>>::empty(),
    {
        let r = ClassRegistry { names: Vec::new() };
        assert(r@ =~= Set::<Seq<u16>>::empty());
        r
    }

    /// Whether a class of this name was registered.
    pub fn is_registered(&self, name: &Vec<u16>) -> (r: bool)
        ensures
            r == self@.contains(name@),
    {
        let mut i: usize = 0;
        while i < self.names.len()
            invariant
                i <= self.names@.len(),
                forall|j: int| 0 <= j < i ==> self.names@[j]@ != name@,
            decreases self.names@.len() - i,
        {
            if same_units(&self.names[i], name) {
                assert(self@.contains(name@));
                return true;
            }
            i = i + 1;
        }
        false
    }

    /// Registers the class `name` unless it is registered already.
    ///
    /// `register` performs the native registration and is called only when the
    /// name is new; it returns the class atom, or the native error code, which
    /// the error returned keeps.
    pub fn ensure_registered<F: FnOnce() -> Result<u16, u32>>(&mut self, name: &Vec<u16>, register: F) -> (r: Result<Registration, Error>)
        requires
            register.requires(()),
        ensures
            old(self)@.contains(name@) ==> r == Ok::<Registration, Error>(Registration::AlreadyExisted),
            r is Ok ==> r == Ok::<Registration, Error>(registration_step(old(self)@, name@)),
            match r {
                Ok(Registration::AlreadyExisted) => final(self)@ == old(self)@,
                Ok(Registration::Registered) => {
                    &&& final(self)@ == old(self)@.insert(name@)
                    &&& exists|atom: u16| #[trigger] register.ensures((), Ok::<u16, u32>(atom))
                },
                Err(Error::ClassRegistrationFailed(code)) => {
                    &&& !old(self)@.contains(name@)
                    &&& final(self)@ == old(self)@
                    &&& register.ensures((), Err::<u16, u32>(code))
                },
                Err(_) => false,
            },
    {
        if self.is_registered(name) {
            assert(old(self)@.insert(name@) =~= old(self)@);
            return Ok(Registration::AlreadyExisted);
        }
        let outcome = register();
        match outcome {
            Ok(atom) => {
                let ghost old_names = self.names@;
                self.names.push(copy_units(name));
                assert forall|n: Seq<u16>| self@.contains(n) == old(self)@.insert(name@).contains(n) by {
                    let k = old_names.len() as int;
                    assert(self.names@[k]@ == name@);
                    if old(self)@.contains(n) {
                        let i = choose|i: int| 0 <= i < old_names.len() && #[trigger] old_names[i]@ == n;
                        assert(self.names@[i]@ == n);
                    }
                    if self@.contains(n) && n != name@ {
                        let i = choose|i: int| 0 <= i < self.names@.len() && #[trigger] self.names@[i]@ == n;
                        assert(old_names[i]@ == n);
                    }
                }
                assert(self@ =~= old(self)@.insert(name@));
                Ok(Registration::Registered)
            },
            Err(code) => Err(Error::ClassRegistrationFailed(code)),
        }
    }
}

proof fn lemma_repeated_name(start: Set<Seq<u16>>, names: Seq<Seq<u16>>, n: Seq<u16>, i: int)
    requires
        0 < i <= names.len(),
        forall|j: int| 0 <= j < names.len() ==> names[j] == n,
    ensures
        registry_after(start, names.subrange(0, i)) == start.insert(n),
    decreases i,
{
    let p = names.subrange(0, i);
    assert(p.drop_last() =~= names.subrange(0, i - 1));
    if i == 1 {
        assert(registry_after(start, p.drop_last()) == start);
    } else {
        lemma_repeated_name(start, names, n, i - 1);
        assert(start.insert(n).insert(n) =~= start.insert(n));
    }
}

/// Requests that all name one class register it exactly once: on a registry
/// without the class the first request registers it, every later one finds it
/// already there, and the registry then holds that class besides the others.
pub proof fn lemma_registered_once(start: Set<Seq<u16>>, names: Seq<Seq<u16>>, n: Seq<u16>)
    requires
        !start.contains(n),
        names.len() > 0,
        forall|j: int| 0 <= j < names.len() ==> names[j] == n,
    ensures
        outcome_at(start, names, 0) == Registration::Registered,
        forall|i: int| 0 < i < names.len() ==> outcome_at(start, names, i) == Registration::AlreadyExisted,
        registry_after(start, names) == start.insert(n),
{
    assert(names.subrange(0, 0).len() == 0);
    assert forall|i: int| 0 < i < names.len() implies outcome_at(start, names, i) == Registration::AlreadyExisted by {
        lemma_repeated_name(start, names, n, i);
    }
    lemma_repeated_name(start, names, n, names.len() as int);
    assert(names.subrange(0, names.len() as int) =~= names);
}

} // verus!
