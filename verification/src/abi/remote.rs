//! What a server that hands out interface objects over a network offers: the
//! interfaces it supports, registered by name.
use vstd::prelude::*;

use crate::abi::connection::{AbiExportable, AbiExportableImplementation};
use crate::abi::definition::AbiTraitDefinition;
use crate::traits::Model;

verus! {

/// How the server's background listener ended.
pub enum BackgroundListenerResult {
    /// A client told the server to quit.
    QuitNormally,
    /// The server could not bind to its address.
    FailedToBindSocket,
    /// Something unexpected went wrong.
    UnexpectedError,
    /// The server had already stopped.
    AlreadyStopped,
}

/// Connections without encryption.
pub struct UnencryptedStrategy;

/// An interface the server supports.
pub struct RegisteredTrait {
    /// The interface's name.
    pub name: String,
    /// The interface's newest definition.
    pub definition: AbiTraitDefinition,
    /// Whether clients can ask the server to make objects of it.
    pub constructible: bool,
}

/// The model of a registered interface: its definition, and whether clients
/// can ask for new objects of it.
pub struct RegisteredModel {
    pub definition: <AbiTraitDefinition as Model>::M,
    pub constructible: bool,
}

/// The position of the first interface called `name`.
fn find_name(traits: &Vec<RegisteredTrait>, name: &String) -> (r: Option<usize>)
    ensures
        r matches Some(i) ==> i < traits@.len() && traits@[i as int].name@ == name@,
        r is None ==> forall|j: int| 0 <= j < traits@.len() ==> traits@[j].name@ != name@,
{
    let mut i: usize = 0;
    while i < traits.len()
        invariant
            i <= traits.len(),
            forall|j: int| 0 <= j < i ==> traits@[j].name@ != name@,
        decreases traits.len() - i,
    {
        if traits[i].name == *name {
            return Some(i);
        }
        i = i + 1;
    }
    None
}

/// Collects the interfaces a server will support.
pub struct ServerBuilder {
    traits: Vec<RegisteredTrait>,
}

impl ServerBuilder {
    /// The supported interfaces, by name.
    pub closed spec fn supported(&self) -> Map<Seq<char>, RegisteredModel> {
        Map::new(
            |n: Seq<char>| exists|i: int| 0 <= i < self.traits@.len() && self.traits@[i].name@ == n,
            |n: Seq<char>| {
                let i = choose|i: int| 0 <= i < self.traits@.len() && self.traits@[i].name@ == n;
                RegisteredModel {
                    definition: self.traits@[i].definition.model(),
                    constructible: self.traits@[i].constructible,
                }
            },
        )
    }

    /// No two registered interfaces share a name.
    pub closed spec fn wf(&self) -> bool {
        forall|i: int, j: int|
            0 <= i < j < self.traits@.len() ==> self.traits@[i].name@ != self.traits@[j].name@
    }

    /// The names of the supported interfaces, each once.
    pub fn trait_names(&self) -> (r: Vec<String>)
        requires
            self.wf(),
        ensures
            crate::abi::server::distinct_names(r@.map_values(|s: String| s@)),
            forall|n: Seq<char>|
                #![trigger self.supported().dom().contains(n)]
                self.supported().dom().contains(n) <==> exists|i: int| 0 <= i < r@.len() && r@[i]@ == n,
    {
        let mut out: Vec<String> = Vec::new();
        let mut i: usize = 0;
        while i < self.traits.len()
            invariant
                self.wf(),
                i <= self.traits.len(),
                out@.len() == i,
                forall|j: int| 0 <= j < i ==> (#[trigger] out@[j])@ == self.traits@[j].name@,
            decreases self.traits.len() - i,
        {
            out.push(self.traits[i].name.clone());
            i = i + 1;
        }
        proof {
            let m = out@.map_values(|s: String| s@);
            assert forall|a: int, b: int| 0 <= a < m.len() && 0 <= b < m.len() && a != b implies m[a] != m[b] by {
                assert(m[a] == self.traits@[a].name@);
                assert(m[b] == self.traits@[b].name@);
                if a < b {
                } else {
                }
            }
            assert forall|n: Seq<char>| #[trigger] self.supported().dom().contains(n) <==> exists|k: int|
                0 <= k < out@.len() && out@[k]@ == n by {
                if self.supported().dom().contains(n) {
                    let k = choose|k: int| 0 <= k < self.traits@.len() && self.traits@[k].name@ == n;
                    assert(out@[k]@ == n);
                }
                if exists|k: int| 0 <= k < out@.len() && out@[k]@ == n {
                    let k = choose|k: int| 0 <= k < out@.len() && out@[k]@ == n;
                    assert(self.traits@[k].name@ == n);
                }
            }
        }
        out
    }

    /// A builder that supports no interface yet.
    pub fn new() -> (r: ServerBuilder)
        ensures
            r.wf(),
            r.supported() == Map::<Seq<char>, RegisteredModel>::empty(),
    {
        let r = ServerBuilder { traits: Vec::new() };
        assert(r.supported() =~= Map::<Seq<char>, RegisteredModel>::empty());
        r
    }

    fn register(self, entry: RegisteredTrait) -> (r: ServerBuilder)
        requires
            self.wf(),
        ensures
            r.wf(),
            r.supported() == self.supported().insert(
                entry.name@,
                RegisteredModel { definition: entry.definition.model(), constructible: entry.constructible },
            ),
    {
        let ghost key = entry.name@;
        let ghost value = RegisteredModel {
            definition: entry.definition.model(),
            constructible: entry.constructible,
        };
        let found = find_name(&self.traits, &entry.name);
        let ghost old_traits = self.traits@;
        let mut traits = self.traits;
        match found {
            Some(i) => {
                traits.set(i, entry);
            },
            None => {
                traits.push(entry);
            },
        }
        let r = ServerBuilder { traits };
        let ghost idx: int = match found {
            Some(i) => i as int,
            None => old_traits.len() as int,
        };
        assert(r.traits@[idx].name@ == key);
        assert(forall|j: int| 0 <= j < r.traits@.len() && j != idx ==> r.traits@[j] == old_traits[j]);
        assert(forall|j: int| 0 <= j < old_traits.len() && j != idx ==> old_traits[j].name@ != key);
        assert(r.wf());
        assert(r.supported() =~= self.supported().insert(key, value)) by {
            assert forall|n: Seq<char>| #[trigger] r.supported().dom().contains(n) <==> self.supported().insert(
                key,
                value,
            ).dom().contains(n) by {
                if n != key {
                    if r.supported().dom().contains(n) {
                        let k = choose|k: int| 0 <= k < r.traits@.len() && r.traits@[k].name@ == n;
                        assert(k != idx);
                        assert(old_traits[k].name@ == n);
                    }
                    if self.supported().dom().contains(n) {
                        let k = choose|k: int| 0 <= k < old_traits.len() && old_traits[k].name@ == n;
                        assert(k != idx);
                        assert(r.traits@[k].name@ == n);
                    }
                } else {
                    assert(r.traits@[idx].name@ == key);
                }
            }
            assert forall|n: Seq<char>| #[trigger] r.supported().dom().contains(n) implies r.supported()[n]
                == self.supported().insert(key, value)[n] by {
                let k = choose|k: int| 0 <= k < r.traits@.len() && r.traits@[k].name@ == n;
                if n == key {
                    assert(k == idx);
                } else {
                    assert(k != idx);
                    assert(old_traits[k].name@ == n);
                    let k2 = choose|k2: int| 0 <= k2 < old_traits.len() && old_traits[k2].name@ == n;
                    assert(k2 != idx);
                    assert(r.traits@[k2].name@ == n);
                    assert(k2 == k);
                }
            }
        }
        r
    }

    /// Adds support for interface objects of type `T` that the server's
    /// interfaces hand out or take, under the interface's name; an interface
    /// of the same name is replaced.
    pub fn add_secondary_trait<T: AbiExportable>(self) -> (r: ServerBuilder)
        requires
            self.wf(),
        ensures
            r.wf(),
            r.supported() == self.supported().insert(
                T::definition(T::latest_version()).0,
                RegisteredModel { definition: T::definition(T::latest_version()), constructible: false },
            ),
    {
        let latest = T::get_latest_version();
        let definition = T::get_definition(latest);
        let name = definition.name.clone();
        self.register(RegisteredTrait { name, definition, constructible: false })
    }

    /// Adds support for the interface `T` implements, whose objects clients can
    /// ask the server to make; an interface of the same name is replaced.
    pub fn add_primary_trait<T: AbiExportableImplementation>(self) -> (r: ServerBuilder)
        requires
            self.wf(),
        ensures
            r.wf(),
            r.supported() == self.supported().insert(
                <T::AbiInterface as AbiExportable>::definition(
                    <T::AbiInterface as AbiExportable>::latest_version(),
                ).0,
                RegisteredModel {
                    definition: <T::AbiInterface as AbiExportable>::definition(
                        <T::AbiInterface as AbiExportable>::latest_version(),
                    ),
                    constructible: true,
                },
            ),
    {
        let latest = <T::AbiInterface as AbiExportable>::get_latest_version();
        let definition = <T::AbiInterface as AbiExportable>::get_definition(latest);
        let name = definition.name.clone();
        self.register(RegisteredTrait { name, definition, constructible: true })
    }
}

} // verus!
