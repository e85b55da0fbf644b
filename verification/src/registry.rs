//! The server's connection registry: which identities are connected, and the
//! sink that delivers to each.

use vstd::prelude::*;
use vstd::string::StringExecFns;
use crate::message::names_view;

verus! {

/// Why an identity was not admitted.
#[derive(Debug, Clone, Copy, PartialEq, Eq, Structural)]
pub enum AdmitError {
    /// The identity is empty.
    EmptyIdentity,
    /// A connection under this identity is registered already.
    IdentityTaken,
}

/// Whether an identity is registered.
pub open spec fn registered<S>(entries: Seq<(Seq<char>, S)>, identity: Seq<char>) -> bool {
    exists|i: int| 0 <= i < entries.len() && (#[trigger] entries[i]).0 == identity
}

/// Where an identity is registered, if it is.
pub open spec fn position<S>(entries: Seq<(Seq<char>, S)>, identity: Seq<char>) -> int {
    choose|i: int| 0 <= i < entries.len() && (#[trigger] entries[i]).0 == identity
}

/// The sink that delivers to an identity, if it is registered.
pub open spec fn sink_of<S>(entries: Seq<(Seq<char>, S)>, identity: Seq<char>) -> Option<S> {
    if registered(entries, identity) {
        Some(entries[position(entries, identity)].1)
    } else {
        None
    }
}

/// The registered identities, in the order of their admission.
pub open spec fn identities<S>(entries: Seq<(Seq<char>, S)>) -> Seq<Seq<char>> {
    Seq::new(entries.len(), |i: int| entries[i].0)
}

/// No identity is empty and none is registered twice.
pub open spec fn well_formed<S>(entries: Seq<(Seq<char>, S)>) -> bool {
    &&& forall|i: int| 0 <= i < entries.len() ==> (#[trigger] entries[i]).0.len() > 0
    &&& forall|i: int, j: int|
        0 <= i < j < entries.len() ==> (#[trigger] entries[i]).0 != (#[trigger] entries[j]).0
}

/// Whether an attempt to register an identity is accepted, and if not, why:
/// an empty identity is refused, and so is one that is registered.
pub open spec fn admission<S>(entries: Seq<(Seq<char>, S)>, identity: Seq<char>) -> Result<
    (),
    AdmitError,
> {
    if identity.len() == 0 {
        Err(AdmitError::EmptyIdentity)
    } else if registered(entries, identity) {
        Err(AdmitError::IdentityTaken)
    } else {
        Ok(())
    }
}

/// The registry after an attempt to register an identity with a sink: one
/// entry more at the end where the attempt is accepted, and as before where
/// it is not.
pub open spec fn admitted<S>(entries: Seq<(Seq<char>, S)>, identity: Seq<char>, sink: S) -> Seq<
    (Seq<char>, S),
> {
    if admission(entries, identity) is Ok {
        entries.push((identity, sink))
    } else {
        entries
    }
}

/// The registry after an identity has left: without its entry, the others in
/// their order.
pub open spec fn removed<S>(entries: Seq<(Seq<char>, S)>, identity: Seq<char>) -> Seq<
    (Seq<char>, S),
> {
    if registered(entries, identity) {
        entries.remove(position(entries, identity))
    } else {
        entries
    }
}

/// In a well-formed registry an identity is found at one place only.
pub proof fn lemma_position_unique<S>(entries: Seq<(Seq<char>, S)>, identity: Seq<char>, i: int)
    requires
        well_formed(entries),
        0 <= i < entries.len(),
        entries[i].0 == identity,
    ensures
        registered(entries, identity),
        position(entries, identity) == i,
        sink_of(entries, identity) == Some(entries[i].1),
{
}

/// The connection registry: each connected identity with the sink that
/// delivers to it, in the order of admission.
pub struct Registry<S> {
    entries: Vec<(String, S)>,
}

/// The entries that a vector holds, each identity by its value.
pub open spec fn entries_view<S>(entries: Seq<(String, S)>) -> Seq<(Seq<char>, S)> {
    Seq::new(entries.len(), |i: int| (entries[i].0@, entries[i].1))
}

impl<S> View for Registry<S> {
    type V = Seq<(Seq<char>, S)>;

    closed spec fn view(&self) -> Seq<(Seq<char>, S)> {
        entries_view(self.entries@)
    }
}

impl<S> Registry<S> {
    /// What holds of every registry: see [`well_formed`].
    #[verifier::type_invariant]
    pub open spec fn wf(&self) -> bool {
        well_formed(self@)
    }

    /// A registry with nobody in it.
    pub fn new() -> (registry: Self)
        ensures
            registry@ == Seq::<(Seq<char>, S)>::empty(),
    {
        let entries: Vec<(String, S)> = Vec::new();
        Registry { entries }
    }

    /// Where `identity` is registered, if it is.
    fn find(&self, identity: &str) -> (found: Option<usize>)
        ensures
            match found {
                Some(i) => i < self.entries.len() && registered(self@, identity@) && position(
                    self@,
                    identity@,
                ) == i,
                None => !registered(self@, identity@),
            },
    {
        proof {
            use_type_invariant(self);
        }
        let wanted = String::from_str(identity);
        let mut i: usize = 0;
        while i < self.entries.len()
            invariant
                self.wf(),
                i <= self.entries.len(),
                wanted@ == identity@,
                forall|k: int| 0 <= k < i ==> (#[trigger] self@[k]).0 != identity@,
            decreases self.entries.len() - i,
        {
            if self.entries[i].0 == wanted {
                proof {
                    lemma_position_unique(self@, identity@, i as int);
                }
                return Some(i);
            }
            i += 1;
        }
        None
    }

    /// How many identities are registered.
    pub fn len(&self) -> (count: usize)
        ensures
            count == self@.len(),
    {
        self.entries.len()
    }

    /// Whether `identity` is registered.
    pub fn contains(&self, identity: &str) -> (found: bool)
        ensures
            found == registered(self@, identity@),
    {
        self.find(identity).is_some()
    }

    /// Registers `identity` with `sink`, unless the identity is empty or
    /// registered already. Checking and inserting are one step: of two
    /// attempts under one identity only the first is accepted.
    pub fn try_admit(&mut self, identity: String, sink: S) -> (outcome: Result<(), AdmitError>)
        ensures
            outcome == admission(old(self)@, identity@),
            final(self)@ == admitted(old(self)@, identity@, sink),
    {
        if identity.as_str().is_empty() {
            return Err(AdmitError::EmptyIdentity);
        }
        if self.find(identity.as_str()).is_some() {
            return Err(AdmitError::IdentityTaken);
        }
        proof {
            use_type_invariant(&*self);
        }
        let mut entries: Vec<(String, S)> = Vec::new();
        core::mem::swap(&mut self.entries, &mut entries);
        entries.push((identity, sink));
        assert(entries_view(entries@) =~= old(self)@.push((identity@, sink)));
        core::mem::swap(&mut self.entries, &mut entries);
        Ok(())
    }

    /// Takes `identity` out of the registry and tells whether it was there.
    /// Removing an identity that is not registered changes nothing.
    pub fn remove(&mut self, identity: &str) -> (was_registered: bool)
        ensures
            was_registered == registered(old(self)@, identity@),
            final(self)@ == removed(old(self)@, identity@),
    {
        match self.find(identity) {
            Some(i) => {
                proof {
                    use_type_invariant(&*self);
                }
                let mut entries: Vec<(String, S)> = Vec::new();
                core::mem::swap(&mut self.entries, &mut entries);
                entries.remove(i);
                assert(entries_view(entries@) =~= old(self)@.remove(i as int));
                core::mem::swap(&mut self.entries, &mut entries);
                true
            },
            None => false,
        }
    }

    /// The sink that delivers to `identity`, if it is registered.
    pub fn lookup(&self, identity: &str) -> (sink: Option<&S>)
        ensures
            match sink {
                Some(sink) => sink_of(self@, identity@) == Some(*sink),
                None => sink_of(self@, identity@) is None,
            },
    {
        match self.find(identity) {
            Some(i) => Some(&self.entries[i].1),
            None => None,
        }
    }

    /// The registered identities, copied out in the order of admission.
    pub fn snapshot(&self) -> (names: Vec<String>)
        ensures
            names_view(names@) == identities(self@),
    {
        let mut names: Vec<String> = Vec::new();
        let mut i: usize = 0;
        while i < self.entries.len()
            invariant
                i <= self.entries.len(),
                names.len() == i,
                forall|k: int| 0 <= k < i ==> (#[trigger] names[k])@ == self@[k].0,
            decreases self.entries.len() - i,
        {
            names.push(self.entries[i].0.clone());
            i += 1;
        }
        names
    }
}

/// Admission keeps the registry well formed.
pub proof fn lemma_admitted_well_formed<S>(
    entries: Seq<(Seq<char>, S)>,
    identity: Seq<char>,
    sink: S,
)
    requires
        well_formed(entries),
    ensures
        well_formed(admitted(entries, identity, sink)),
{
}

/// Removal keeps the registry well formed.
pub proof fn lemma_removed_well_formed<S>(entries: Seq<(Seq<char>, S)>, identity: Seq<char>)
    requires
        well_formed(entries),
    ensures
        well_formed(removed(entries, identity)),
{
}

/// An identity is registered after its admission exactly if it was
/// registered before or the attempt was accepted, and a second attempt under
/// the same identity is refused, whichever sink it brings: at any moment at
/// most one connection holds an identity.
pub proof fn lemma_admitted_once<S>(
    entries: Seq<(Seq<char>, S)>,
    identity: Seq<char>,
    first: S,
    second: S,
)
    requires
        well_formed(entries),
    ensures
        admission(entries, identity) is Ok ==> registered(
            admitted(entries, identity, first),
            identity,
        ),
        admission(admitted(entries, identity, first), identity) is Err,
        admitted(admitted(entries, identity, first), identity, second) == admitted(
            entries,
            identity,
            first,
        ),
        admission(entries, identity) is Ok ==> sink_of(admitted(entries, identity, first), identity)
            == Some(first),
{
    let after = admitted(entries, identity, first);
    if admission(entries, identity) is Ok {
        lemma_position_unique(after, identity, entries.len() as int);
    }
}

/// Admitting one identity leaves every other identity as it was: registered
/// or not, and with the same sink.
pub proof fn lemma_admitted_others<S>(
    entries: Seq<(Seq<char>, S)>,
    identity: Seq<char>,
    sink: S,
    other: Seq<char>,
)
    requires
        well_formed(entries),
        other != identity,
    ensures
        registered(admitted(entries, identity, sink), other) == registered(entries, other),
        sink_of(admitted(entries, identity, sink), other) == sink_of(entries, other),
{
    let after = admitted(entries, identity, sink);
    if registered(entries, other) {
        let p = position(entries, other);
        lemma_position_unique(after, other, p);
    }
}

/// After an identity has left it is no longer registered, nor among the
/// identities listed, and it can be admitted again.
pub proof fn lemma_removed_gone<S>(entries: Seq<(Seq<char>, S)>, identity: Seq<char>)
    requires
        well_formed(entries),
    ensures
        !registered(removed(entries, identity), identity),
        !identities(removed(entries, identity)).contains(identity),
        identity.len() > 0 ==> admission(removed(entries, identity), identity) is Ok,
        removed(removed(entries, identity), identity) == removed(entries, identity),
{
}

/// Removing one identity leaves every other identity as it was: registered
/// or not, and with the same sink.
pub proof fn lemma_removed_others<S>(
    entries: Seq<(Seq<char>, S)>,
    identity: Seq<char>,
    other: Seq<char>,
)
    requires
        well_formed(entries),
        other != identity,
    ensures
        registered(removed(entries, identity), other) == registered(entries, other),
        sink_of(removed(entries, identity), other) == sink_of(entries, other),
{
    let after = removed(entries, identity);
    if registered(entries, identity) {
        let p = position(entries, identity);
        if registered(entries, other) {
            let q = position(entries, other);
            let at = if q < p { q } else { q - 1 };
            lemma_position_unique(after, other, at);
        }
    }
}

/// The identities listed are exactly those that are registered.
pub proof fn lemma_identities_registered<S>(entries: Seq<(Seq<char>, S)>, identity: Seq<char>)
    ensures
        identities(entries).contains(identity) == registered(entries, identity),
{
    if registered(entries, identity) {
        let p = position(entries, identity);
        assert(identities(entries)[p] == identity);
    }
}

} // verus!
