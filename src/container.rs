//! The registry: a map from keys to providers, with the registration and
//! resolution operations.
use crate::injectable::Inject;
use crate::key::{name_view, InjectionKey, KeyView};
use crate::provider::Provider;
use crate::resolved::Resolved;
use crate::scoped::Scoped;
use crate::shared::Shared;
use std::any::TypeId;
use std::sync::Arc;
use vstd::prelude::*;

verus! {

/// A convenient singleton type.
pub type Singleton<T> = Arc<T>;

/// The entries `s` hold exactly the map `m`: one entry per key, and each entry
/// carries the provider that `m` gives its key.
pub open spec fn entries_match(s: Seq<(InjectionKey, Provider)>, m: Map<KeyView, Provider>) -> bool {
    &&& m.dom().finite()
    &&& m.len() == s.len()
    &&& forall|i: int, j: int| 0 <= i < j < s.len() ==> s[i].0@ != s[j].0@
    &&& forall|i: int|
        0 <= i < s.len() ==> m.contains_key(#[trigger] s[i].0@) && m[s[i].0@] == s[i].1
    &&& forall|k: KeyView| #[trigger]
        m.contains_key(k) ==> exists|i: int| 0 <= i < s.len() && s[i].0@ == k
}

/// What the general lookup at key `k` may give: nothing when `k` has no
/// provider; otherwise nothing or a value of the provider's kind.
pub open spec fn resolved_from<T>(m: Map<KeyView, Provider>, k: KeyView, r: Option<Resolved<T>>) -> bool {
    &&& !m.contains_key(k) ==> r is None
    &&& r matches Some(v) ==> m.contains_key(k) && (v is Scoped <==> m[k] is Scoped)
}

/// What a scoped lookup at key `k` may give: a value only from a scoped
/// provider registered at `k`.
pub open spec fn scoped_from<T>(m: Map<KeyView, Provider>, k: KeyView, r: Option<T>) -> bool {
    r is Some ==> m.contains_key(k) && m[k] is Scoped
}

/// What a singleton lookup at key `k` may give: a handle only from a
/// singleton provider registered at `k`.
pub open spec fn singleton_from<T>(m: Map<KeyView, Provider>, k: KeyView, r: Option<Arc<T>>) -> bool {
    r is Some ==> m.contains_key(k) && m[k] is Singleton
}

/// The keys of `m` whose type descriptor is `tid`.
pub open spec fn keys_of_type(m: Map<KeyView, Provider>, tid: TypeId) -> Set<KeyView> {
    m.dom().filter(|k: KeyView| k.0 == tid)
}

/// `p` is the provider of some key of `m`.
pub open spec fn has_provider(m: Map<KeyView, Provider>, p: Provider) -> bool {
    exists|k: KeyView| m.contains_key(k) && m[k] == p
}

/// Insert-or-replace at `k`: `new` is `old` with `k` bound to its new
/// provider, and the result gives back the provider that was replaced.
pub open spec fn replaced_at(
    old: Map<KeyView, Provider>,
    new: Map<KeyView, Provider>,
    k: KeyView,
    r: Result<(), Provider>,
) -> bool {
    &&& new.contains_key(k)
    &&& new == old.insert(k, new[k])
    &&& r == (if old.contains_key(k) {
        Err::<(), Provider>(old[k])
    } else {
        Ok::<(), Provider>(())
    })
}

/// Insert-if-absent: `m` unchanged if `k` has a provider, else `m` with `k`
/// bound to `p`.
pub open spec fn insert_if_absent(m: Map<KeyView, Provider>, k: KeyView, p: Provider) -> Map<KeyView, Provider> {
    if m.contains_key(k) {
        m
    } else {
        m.insert(k, p)
    }
}

/// The position of the entry for `key` in `s`, or nothing if there is none.
fn find_entry(s: &Vec<(InjectionKey, Provider)>, key: &InjectionKey, m: Ghost<Map<KeyView, Provider>>) -> (r: Option<usize>)
    requires
        entries_match(s@, m@),
    ensures
        match r {
            Some(i) => i < s@.len() && s@[i as int].0@ == key@,
            None => !m@.contains_key(key@),
        },
{
    let mut i: usize = 0;
    while i < s.len()
        invariant
            entries_match(s@, m@),
            0 <= i <= s@.len(),
            forall|j: int| 0 <= j < i ==> s@[j].0@ != key@,
        decreases s@.len() - i,
    {
        if s[i].0.same_as(key) {
            return Some(i);
        }
        i = i + 1;
    }
    None
}

/// Represents a store to register and retrieve values.
pub struct Container {
    providers: Vec<(InjectionKey, Provider)>,
    model: Ghost<Map<KeyView, Provider>>,
}

impl View for Container {
    type V = Map<KeyView, Provider>;

    closed spec fn view(&self) -> Map<KeyView, Provider> {
        self.model@
    }
}

impl Container {
    #[verifier::type_invariant]
    spec fn inv(&self) -> bool {
        entries_match(self.providers@, self.model@)
    }

    /// Constructs an empty container.
    pub fn new() -> (r: Container)
        ensures
            r@ == Map::<KeyView, Provider>::empty(),
    {
        Container { providers: Vec::new(), model: Ghost(Map::empty()) }
    }

    /// Binds `key` to `provider`, replacing and giving back the provider that
    /// was bound to it.
    ///
    /// # Returns
    /// `Ok(())` if the key had no provider, or `Err(previous)`.
    pub fn add_provider_internal(&mut self, key: InjectionKey, provider: Provider) -> (r: Result<(), Provider>)
        ensures
            final(self)@ == old(self)@.insert(key@, provider),
            r == (if old(self)@.contains_key(key@) {
                Err::<(), Provider>(old(self)@[key@])
            } else {
                Ok::<(), Provider>(())
            }),
    {
        let mut taken = Container::new();
        std::mem::swap(self, &mut taken);
        proof {
            use_type_invariant(&taken);
        }
        let Container { mut providers, model } = taken;
        let ghost k = key@;
        let ghost new_model = model@.insert(k, provider);
        let found = find_entry(&providers, &key, model);
        let ghost s0 = providers@;
        match found {
            Some(i) => {
                providers.push((key, provider));
                let (_, previous) = providers.swap_remove(i);
                proof {
                    assert(previous == model@[k]);
                    assert(new_model.len() == model@.len()) by {
                        assert(model@.dom().insert(k) =~= model@.dom());
                    }
                    assert forall|a: int, b: int| 0 <= a < b < providers@.len() implies providers@[a].0@
                        != providers@[b].0@ by {
                        if a == i as int {
                            assert(s0[b].0@ != s0[i as int].0@);
                        } else if b == i as int {
                            assert(s0[a].0@ != s0[i as int].0@);
                        } else {
                            assert(providers@[a] == s0[a]);
                            assert(providers@[b] == s0[b]);
                        }
                    }
                    assert forall|a: int| 0 <= a < providers@.len() implies new_model.contains_key(
                        #[trigger] providers@[a].0@,
                    ) && new_model[providers@[a].0@] == providers@[a].1 by {
                        if a != i as int {
                            assert(providers@[a] == s0[a]);
                            assert(s0[a].0@ != s0[i as int].0@);
                        }
                    }
                    assert forall|q: KeyView| #[trigger] new_model.contains_key(q) implies exists|a: int|
                        0 <= a < providers@.len() && providers@[a].0@ == q by {
                        if q == k {
                            assert(providers@[i as int].0@ == q);
                        } else {
                            let a = choose|a: int| 0 <= a < s0.len() && s0[a].0@ == q;
                            assert(a != i as int);
                            assert(providers@[a] == s0[a]);
                        }
                    }
                }
                *self = Container { providers, model: Ghost(new_model) };
                Err(previous)
            },
            None => {
                providers.push((key, provider));
                proof {
                    assert(new_model.len() == model@.len() + 1);
                    assert forall|a: int| 0 <= a < providers@.len() implies new_model.contains_key(
                        #[trigger] providers@[a].0@,
                    ) && new_model[providers@[a].0@] == providers@[a].1 by {
                        if a < s0.len() {
                            assert(providers@[a] == s0[a]);
                        }
                    }
                    assert forall|q: KeyView| #[trigger] new_model.contains_key(q) implies exists|a: int|
                        0 <= a < providers@.len() && providers@[a].0@ == q by {
                        if q == k {
                            assert(providers@[s0.len() as int].0@ == q);
                        } else {
                            let a = choose|a: int| 0 <= a < s0.len() && s0[a].0@ == q;
                            assert(providers@[a] == s0[a]);
                        }
                    }
                }
                *self = Container { providers, model: Ghost(new_model) };
                Ok(())
            },
        }
    }

    /// Binds `key` to `provider` only if the key has no provider yet.
    ///
    /// # Returns
    /// `true` if the provider was added, `false` if the key was taken (the
    /// container is then unchanged).
    pub fn add_provider_if_absent(&mut self, key: InjectionKey, provider: Provider) -> (r: bool)
        ensures
            final(self)@ == insert_if_absent(old(self)@, key@, provider),
            r == !old(self)@.contains_key(key@),
    {
        if self.has_key(&key) {
            false
        } else {
            let _ = self.add_provider_internal(key, provider);
            true
        }
    }

    /// Binds the key of type `T` and the given name to `provider`, replacing
    /// the provider that was bound to it.
    pub fn add_provider<T: 'static>(&mut self, provider: Provider, name: Option<&str>) -> (r: Result<(), Provider>)
        ensures
            exists|k: KeyView|
                k.1 == name_view(name) && replaced_at(old(self)@, final(self)@, k, r)
                    && final(self)@[k] == provider,
    {
        let type_id = TypeId::of::<T>();
        let key = InjectionKey::new(type_id, name);
        let r = self.add_provider_internal(key, provider);
        assert(replaced_at(old(self)@, self@, key@, r));
        r
    }

    fn add_scoped_internal<T: Send + Sync + 'static>(&mut self, scoped: Scoped, name: Option<&str>) -> (r: Result<(), Provider>)
        ensures
            exists|k: KeyView|
                k.1 == name_view(name) && replaced_at(old(self)@, final(self)@, k, r)
                    && final(self)@[k] == Provider::Scoped(scoped),
    {
        self.add_provider::<T>(Provider::Scoped(scoped), name)
    }

    fn add_singleton_internal<T: Send + Sync + 'static>(&mut self, name: Option<&str>, shared: Shared) -> (r: Result<(), Provider>)
        ensures
            exists|k: KeyView|
                k.1 == name_view(name) && replaced_at(old(self)@, final(self)@, k, r)
                    && final(self)@[k] == Provider::Singleton(shared),
    {
        self.add_provider::<T>(Provider::Singleton(shared), name)
    }

    /// Adds a scoped factory function for the type `T`.
    ///
    /// # Returns
    /// `Ok(())` if the provider was added, or `Err(previous)` if there was a
    /// provider registered for that type, which the new one replaces.
    #[inline]
    pub fn add_scoped<T, F>(&mut self, f: F) -> (r: Result<(), Provider>)
        where
            T: Send + Sync + 'static,
            F: Fn() -> T + Send + Sync + 'static,
        requires
            f.requires(()),
        ensures
            exists|k: KeyView|
                k.1 == None::<Seq<char>> && replaced_at(old(self)@, final(self)@, k, r)
                    && final(self)@[k] matches Provider::Scoped(Scoped::Factory(_)),
    {
        self.add_scoped_internal::<T>(Scoped::from_factory(f), None)
    }

    /// Adds a scoped factory function for the type `T` under a name.
    ///
    /// # Returns
    /// `Ok(())` if the provider was added, or `Err(previous)` if there was a
    /// provider registered for that type and name, which the new one replaces.
    #[inline]
    pub fn add_scoped_with_name<T, F>(&mut self, name: &str, f: F) -> (r: Result<(), Provider>)
        where
            T: Send + Sync + 'static,
            F: Fn() -> T + Send + Sync + 'static,
        requires
            f.requires(()),
        ensures
            exists|k: KeyView|
                k.1 == Some(name@) && replaced_at(old(self)@, final(self)@, k, r)
                    && final(self)@[k] matches Provider::Scoped(Scoped::Factory(_)),
    {
        self.add_scoped_internal::<T>(Scoped::from_factory(f), Some(name))
    }

    /// Adds a singleton value of the type `T`.
    ///
    /// # Returns
    /// `Ok(())` if the provider was added, or `Err(previous)` if there was a
    /// provider registered for that type, which the new one replaces.
    #[inline]
    pub fn add_singleton<T: Send + Sync + 'static>(&mut self, value: T) -> (r: Result<(), Provider>)
        ensures
            exists|k: KeyView|
                k.1 == None::<Seq<char>> && replaced_at(old(self)@, final(self)@, k, r)
                    && final(self)@[k] matches Provider::Singleton(Shared::Instance(_)),
    {
        self.add_singleton_internal::<T>(None, Shared::new(value))
    }

    /// Adds a singleton value of the type `T` under a name.
    ///
    /// # Returns
    /// `Ok(())` if the provider was added, or `Err(previous)` if there was a
    /// provider registered for that type and name, which the new one replaces.
    #[inline]
    pub fn add_singleton_with_name<T: Send + Sync + 'static>(&mut self, name: &str, value: T) -> (r: Result<(), Provider>)
        ensures
            exists|k: KeyView|
                k.1 == Some(name@) && replaced_at(old(self)@, final(self)@, k, r)
                    && final(self)@[k] matches Provider::Singleton(Shared::Instance(_)),
    {
        self.add_singleton_internal::<T>(Some(name), Shared::new(value))
    }

    /// Adds a singleton of the type `T` that `f` builds, with the container, at
    /// first access; `f` is not run here.
    ///
    /// # Returns
    /// `Ok(())` if the provider was added, or `Err(previous)` if there was a
    /// provider registered for that type, which the new one replaces.
    #[inline]
    pub fn add_lazy_singleton<T, F>(&mut self, f: F) -> (r: Result<(), Provider>)
        where
            T: Send + Sync + 'static,
            F: FnOnce(&Container) -> T + Send + Sync + 'static,
        requires
            forall|c: &Container| f.requires((c,)),
        ensures
            exists|k: KeyView|
                k.1 == None::<Seq<char>> && replaced_at(old(self)@, final(self)@, k, r)
                    && final(self)@[k] matches Provider::Singleton(Shared::Lazy(_)),
    {
        self.add_singleton_internal::<T>(None, Shared::new_lazy(f))
    }

    /// Adds a singleton of the type `T` under a name, that `f` builds, with the
    /// container, at first access; `f` is not run here.
    ///
    /// # Returns
    /// `Ok(())` if the provider was added, or `Err(previous)` if there was a
    /// provider registered for that type and name, which the new one replaces.
    #[inline]
    pub fn add_lazy_singleton_with_name<T, F>(&mut self, name: &str, f: F) -> (r: Result<(), Provider>)
        where
            T: Send + Sync + 'static,
            F: FnOnce(&Container) -> T + Send + Sync + 'static,
        requires
            forall|c: &Container| f.requires((c,)),
        ensures
            exists|k: KeyView|
                k.1 == Some(name@) && replaced_at(old(self)@, final(self)@, k, r)
                    && final(self)@[k] matches Provider::Singleton(Shared::Lazy(_)),
    {
        self.add_singleton_internal::<T>(Some(name), Shared::new_lazy(f))
    }

    /// Adds a scoped provider of the type `T` that builds each value with
    /// [`Inject::inject`], which may resolve other values of the container.
    ///
    /// # Returns
    /// `Ok(())` if the provider was added, or `Err(previous)` if there was a
    /// provider registered for that type, which the new one replaces.
    #[inline]
    pub fn add_deps<T: Inject + Send + Sync + 'static>(&mut self) -> (r: Result<(), Provider>)
        ensures
            exists|k: KeyView|
                k.1 == None::<Seq<char>> && replaced_at(old(self)@, final(self)@, k, r)
                    && final(self)@[k] matches Provider::Scoped(Scoped::Construct(_)),
    {
        self.add_scoped_internal::<T>(Scoped::from_construct(|c: &Container| T::inject(c)), None)
    }

    /// Adds a scoped provider of the type `T` under a name, that builds each
    /// value with [`Inject::inject`].
    ///
    /// # Returns
    /// `Ok(())` if the provider was added, or `Err(previous)` if there was a
    /// provider registered for that type and name, which the new one replaces.
    #[inline]
    pub fn add_deps_with_name<T: Inject + Send + Sync + 'static>(&mut self, name: &str) -> (r: Result<(), Provider>)
        ensures
            exists|k: KeyView|
                k.1 == Some(name@) && replaced_at(old(self)@, final(self)@, k, r)
                    && final(self)@[k] matches Provider::Scoped(Scoped::Construct(_)),
    {
        self.add_scoped_internal::<T>(Scoped::from_construct(|c: &Container| T::inject(c)), Some(name))
    }

    /// Adds a scoped provider of the type `T` whose function receives the
    /// container, to resolve what it needs.
    ///
    /// # Returns
    /// `Ok(())` if the provider was added, or `Err(previous)` if there was a
    /// provider registered for that type, which the new one replaces.
    #[inline]
    pub fn add_deps_fn<T, F>(&mut self, f: F) -> (r: Result<(), Provider>)
        where
            T: Send + Sync + 'static,
            F: Fn(&Container) -> T + Send + Sync + 'static,
        requires
            forall|c: &Container| f.requires((c,)),
        ensures
            exists|k: KeyView|
                k.1 == None::<Seq<char>> && replaced_at(old(self)@, final(self)@, k, r)
                    && final(self)@[k] matches Provider::Scoped(Scoped::Construct(_)),
    {
        self.add_scoped_internal::<T>(Scoped::from_construct(f), None)
    }

    /// Adds a scoped provider of the type `T` under a name, whose function
    /// receives the container.
    ///
    /// # Returns
    /// `Ok(())` if the provider was added, or `Err(previous)` if there was a
    /// provider registered for that type and name, which the new one replaces.
    #[inline]
    pub fn add_deps_fn_with_name<T, F>(&mut self, name: &str, f: F) -> (r: Result<(), Provider>)
        where
            T: Send + Sync + 'static,
            F: Fn(&Container) -> T + Send + Sync + 'static,
        requires
            forall|c: &Container| f.requires((c,)),
        ensures
            exists|k: KeyView|
                k.1 == Some(name@) && replaced_at(old(self)@, final(self)@, k, r)
                    && final(self)@[k] matches Provider::Scoped(Scoped::Construct(_)),
    {
        self.add_scoped_internal::<T>(Scoped::from_construct(f), Some(name))
    }

    fn has_key(&self, key: &InjectionKey) -> (r: bool)
        ensures
            r == self@.contains_key(key@),
    {
        proof {
            use_type_invariant(self);
        }
        match find_entry(&self.providers, key, self.model) {
            Some(_) => true,
            None => false,
        }
    }

    /// Returns `true` if the container has a provider for `key`.
    #[inline]
    pub fn contains(&self, key: InjectionKey) -> (r: bool)
        ensures
            r == self@.contains_key(key@),
    {
        self.has_key(&key)
    }

    /// Removes the provider of `key` and returns it, or `None` if the key has
    /// no provider.
    pub fn remove(&mut self, key: InjectionKey) -> (r: Option<Provider>)
        ensures
            final(self)@ == old(self)@.remove(key@),
            r == (if old(self)@.contains_key(key@) {
                Some(old(self)@[key@])
            } else {
                None::<Provider>
            }),
    {
        let mut taken = Container::new();
        std::mem::swap(self, &mut taken);
        proof {
            use_type_invariant(&taken);
        }
        let Container { mut providers, model } = taken;
        let ghost k = key@;
        let ghost s0 = providers@;
        match find_entry(&providers, &key, model) {
            Some(i) => {
                let (_, removed) = providers.swap_remove(i);
                let ghost new_model = model@.remove(k);
                proof {
                    let last = s0.len() - 1;
                    assert(removed == model@[k]);
                    assert(model@.dom().remove(k).len() == model@.dom().len() - 1);
                    assert(new_model.dom() =~= model@.dom().remove(k));
                    assert forall|a: int| 0 <= a < providers@.len() implies providers@[a] == (if a
                        == i as int {
                        s0[last]
                    } else {
                        s0[a]
                    }) by {}
                    assert forall|a: int, b: int| 0 <= a < b < providers@.len() implies providers@[a].0@
                        != providers@[b].0@ by {
                        if a == i as int {
                            assert(s0[b].0@ != s0[last].0@);
                        } else {
                            assert(s0[a].0@ != s0[b].0@);
                        }
                    }
                    assert forall|a: int| 0 <= a < providers@.len() implies new_model.contains_key(
                        #[trigger] providers@[a].0@,
                    ) && new_model[providers@[a].0@] == providers@[a].1 by {
                        if a == i as int {
                            assert(s0[last].0@ != s0[i as int].0@);
                            assert(model@.contains_key(s0[last].0@));
                        } else {
                            assert(s0[a].0@ != s0[i as int].0@);
                            assert(model@.contains_key(s0[a].0@));
                        }
                    }
                    assert forall|q: KeyView| #[trigger] new_model.contains_key(q) implies exists|a: int|
                        0 <= a < providers@.len() && providers@[a].0@ == q by {
                        let a = choose|a: int| 0 <= a < s0.len() && s0[a].0@ == q;
                        assert(a != i as int);
                        if a == last {
                            assert(providers@[i as int].0@ == q);
                        } else {
                            assert(providers@[a].0@ == q);
                        }
                    }
                }
                *self = Container { providers, model: Ghost(new_model) };
                Some(removed)
            },
            None => {
                proof {
                    assert(model@.remove(k) =~= model@);
                }
                *self = Container { providers, model };
                None
            },
        }
    }

    /// Returns the number of providers in this container.
    #[inline]
    pub fn len(&self) -> (r: usize)
        ensures
            r == self@.len(),
    {
        proof {
            use_type_invariant(self);
        }
        self.providers.len()
    }

    /// Returns `true` if this container has no providers.
    #[inline]
    pub fn is_empty(&self) -> (r: bool)
        ensures
            r == (self@.len() == 0),
    {
        self.len() == 0
    }

    /// Removes all the providers of this container.
    #[inline]
    pub fn clear(&mut self)
        ensures
            final(self)@ == Map::<KeyView, Provider>::empty(),
    {
        *self = Container::new();
    }

    /// Returns the entries of this container: each key with its provider,
    /// every key once.
    #[inline]
    pub fn iter(&self) -> (r: &[(InjectionKey, Provider)])
        ensures
            entries_match(r@, self@),
    {
        proof {
            use_type_invariant(self);
        }
        self.providers.as_slice()
    }

    /// Returns the providers of this container, one for each key.
    pub fn providers(&self) -> (r: Vec<&Provider>)
        ensures
            r@.len() == self@.len(),
            forall|i: int| 0 <= i < r@.len() ==> has_provider(self@, *#[trigger] r@[i]),
    {
        let entries = self.iter();
        let mut out: Vec<&Provider> = Vec::new();
        let mut i: usize = 0;
        while i < entries.len()
            invariant
                entries_match(entries@, self@),
                0 <= i <= entries@.len(),
                out@.len() == i,
                forall|j: int| 0 <= j < i ==> *out@[j] == entries@[j].1,
            decreases entries@.len() - i,
        {
            out.push(&entries[i].1);
            i = i + 1;
        }
        proof {
            assert forall|j: int| 0 <= j < out@.len() implies has_provider(self@, *#[trigger] out@[j]) by {
                assert(self@.contains_key(entries@[j].0@));
            }
        }
        out
    }

    /// Resolves `provider` against this container: runs a scoped factory
    /// (handing it the container if it asks for it), or gets the shared value
    /// of a singleton (building a lazy one with the container at first
    /// access), then casts the value to `T`; nothing if it is not a `T`.
    pub fn get_resolver_for<T: Send + Sync + 'static>(&self, provider: &Provider) -> (r: Option<Resolved<T>>)
        ensures
            r matches Some(v) ==> (v is Scoped <==> provider is Scoped),
    {
        match provider {
            Provider::Scoped(x) => {
                let value = match x {
                    Scoped::Factory(_) => x.call_factory::<T>(),
                    Scoped::Construct(_) => x.call_construct::<T>(self),
                };
                match value {
                    Some(v) => Some(Resolved::Scoped(v)),
                    None => None,
                }
            },
            Provider::Singleton(x) => {
                let value = match x {
                    Shared::Instance(_) => x.get::<T>(),
                    Shared::Lazy(_) => x.get_with::<T>(self),
                };
                match value {
                    Some(v) => Some(Resolved::Singleton(v)),
                    None => None,
                }
            },
        }
    }

    /// Returns the value that the provider of `key` gives, as a `T`: nothing
    /// if the key has no provider, or if the value is not a `T`.
    pub fn get_with_key<T: Send + Sync + 'static>(&self, key: &InjectionKey) -> (r: Option<Resolved<T>>)
        ensures
            resolved_from(self@, key@, r),
    {
        proof {
            use_type_invariant(self);
        }
        match find_entry(&self.providers, key, self.model) {
            Some(i) => self.get_resolver_for::<T>(&self.providers[i].1),
            None => None,
        }
    }

    fn get_internal<T: Send + Sync + 'static>(&self, name: Option<&str>) -> (r: Option<Resolved<T>>)
        ensures
            exists|k: KeyView| k.1 == name_view(name) && resolved_from(self@, k, r),
    {
        let type_id = TypeId::of::<T>();
        let key = InjectionKey::new(type_id, name);
        let r = self.get_with_key::<T>(&key);
        assert(resolved_from(self@, key@, r));
        r
    }

    /// Returns the value registered for the type `T`, scoped or singleton, or
    /// `None` if no provider is registered for it.
    #[inline]
    pub fn get<T: Send + Sync + 'static>(&self) -> (r: Option<Resolved<T>>)
        ensures
            exists|k: KeyView| k.1 == None::<Seq<char>> && resolved_from(self@, k, r),
    {
        self.get_internal::<T>(None)
    }

    /// Returns the value registered for the type `T` and the name, scoped or
    /// singleton, or `None` if no provider is registered for them.
    #[inline]
    pub fn get_with_name<T: Send + Sync + 'static>(&self, name: &str) -> (r: Option<Resolved<T>>)
        ensures
            exists|k: KeyView| k.1 == Some(name@) && resolved_from(self@, k, r),
    {
        self.get_internal::<T>(Some(name))
    }

    fn get_scoped_internal<T: Send + Sync + 'static>(&self, name: Option<&str>) -> (r: Option<T>)
        ensures
            exists|k: KeyView| k.1 == name_view(name) && scoped_from(self@, k, r),
    {
        let resolved = self.get_internal::<T>(name);
        let ghost k = choose|k: KeyView| k.1 == name_view(name) && resolved_from(self@, k, resolved);
        let r = match resolved {
            Some(v) => v.into_scoped(),
            None => None,
        };
        assert(scoped_from(self@, k, r));
        r
    }

    fn get_singleton_internal<T: Send + Sync + 'static>(&self, name: Option<&str>) -> (r: Option<Singleton<T>>)
        ensures
            exists|k: KeyView| k.1 == name_view(name) && singleton_from(self@, k, r),
    {
        let resolved = self.get_internal::<T>(name);
        let ghost k = choose|k: KeyView| k.1 == name_view(name) && resolved_from(self@, k, resolved);
        let r = match resolved {
            Some(v) => v.into_singleton(),
            None => None,
        };
        assert(singleton_from(self@, k, r));
        r
    }

    /// Returns a new value of the type `T`, or `None` if no scoped provider is
    /// registered for it.
    #[inline]
    pub fn get_scoped<T: Send + Sync + 'static>(&self) -> (r: Option<T>)
        ensures
            exists|k: KeyView| k.1 == None::<Seq<char>> && scoped_from(self@, k, r),
    {
        self.get_scoped_internal::<T>(None)
    }

    /// Returns a new value of the type `T` and the name, or `None` if no scoped
    /// provider is registered for them.
    #[inline]
    pub fn get_scoped_with_name<T: Send + Sync + 'static>(&self, name: &str) -> (r: Option<T>)
        ensures
            exists|k: KeyView| k.1 == Some(name@) && scoped_from(self@, k, r),
    {
        self.get_scoped_internal::<T>(Some(name))
    }

    /// Returns the singleton of the type `T`, or `None` if no singleton
    /// provider is registered for it.
    #[inline]
    pub fn get_singleton<T: Send + Sync + 'static>(&self) -> (r: Option<Singleton<T>>)
        ensures
            exists|k: KeyView| k.1 == None::<Seq<char>> && singleton_from(self@, k, r),
    {
        self.get_singleton_internal::<T>(None)
    }

    /// Returns the singleton of the type `T` and the name, or `None` if no
    /// singleton provider is registered for them.
    #[inline]
    pub fn get_singleton_with_name<T: Send + Sync + 'static>(&self, name: &str) -> (r: Option<Singleton<T>>)
        ensures
            exists|k: KeyView| k.1 == Some(name@) && singleton_from(self@, k, r),
    {
        self.get_singleton_internal::<T>(Some(name))
    }

    /// Returns the values of every provider registered for the type `T`,
    /// under any name or none.
    pub fn get_all<T: Send + Sync + 'static>(&self) -> (r: Vec<Resolved<T>>)
        ensures
            r@.len() <= self@.len(),
            exists|tid: TypeId|
                r@.len() <= #[trigger] keys_of_type(self@, tid).len() && (keys_of_type(self@, tid).len()
                    == 0 ==> r@.len() == 0),
    {
        let type_id = TypeId::of::<T>();
        let entries = self.iter();
        let ghost keys = keys_of_type(self@, type_id);
        let mut out: Vec<Resolved<T>> = Vec::new();
        let mut i: usize = 0;
        let ghost mut seen: Set<KeyView> = Set::empty();
        while i < entries.len()
            invariant
                entries_match(entries@, self@),
                0 <= i <= entries@.len(),
                keys == keys_of_type(self@, type_id),
                seen.finite(),
                seen.subset_of(keys),
                out@.len() <= seen.len(),
                forall|q: KeyView| #[trigger] seen.contains(q) ==> exists|j: int| 0 <= j < i && entries@[j].0@ == q,
            decreases entries@.len() - i,
        {
            let (key, provider) = &entries[i];
            if key.type_id() == type_id {
                proof {
                    assert(!seen.contains(key@)) by {
                        if seen.contains(key@) {
                            let j = choose|j: int| 0 <= j < i && entries@[j].0@ == key@;
                            assert(entries@[j].0@ != entries@[i as int].0@);
                        }
                    }
                    assert(self@.contains_key(key@));
                    seen = seen.insert(key@);
                }
                match self.get_resolver_for::<T>(provider) {
                    Some(v) => out.push(v),
                    None => {},
                }
            }
            i = i + 1;
        }
        proof {
            vstd::set_lib::lemma_len_subset(seen, keys);
            vstd::set_lib::lemma_len_subset(keys, self@.dom());
        }
        out
    }
}

/// A clone holds the same keys, each with an alias of the original's provider.
impl Clone for Container {
    fn clone(&self) -> (r: Container)
        ensures
            r@.dom() == self@.dom(),
            forall|k: KeyView| #[trigger] r@.contains_key(k) ==> r@[k].spec_kind() == self@[k].spec_kind(),
    {
        proof {
            use_type_invariant(self);
        }
        let entries = self.iter();
        let mut providers: Vec<(InjectionKey, Provider)> = Vec::new();
        let ghost mut model: Map<KeyView, Provider> = Map::empty();
        let mut i: usize = 0;
        while i < entries.len()
            invariant
                entries_match(entries@, self@),
                0 <= i <= entries@.len(),
                providers@.len() == i,
                forall|j: int| 0 <= j < i ==> (#[trigger] providers@[j]).0@ == entries@[j].0@,
                entries_match(providers@, model),
                forall|q: KeyView| #[trigger]
                    model.contains_key(q) <==> exists|j: int| 0 <= j < i && entries@[j].0@ == q,
                forall|q: KeyView| #[trigger] model.contains_key(q) ==> model[q].spec_kind() == self@[q].spec_kind(),
            decreases entries@.len() - i,
        {
            let key = entries[i].0.clone();
            let provider = entries[i].1.clone();
            let ghost s0 = providers@;
            let ghost k = key@;
            proof {
                assert(!model.contains_key(k)) by {
                    if model.contains_key(k) {
                        let j = choose|j: int| 0 <= j < s0.len() && s0[j].0@ == k;
                        assert(entries@[j].0@ != entries@[i as int].0@);
                    }
                }
                assert(self@.contains_key(entries@[i as int].0@));
            }
            let ghost new_model = model.insert(k, provider);
            providers.push((key, provider));
            proof {
                assert(new_model.len() == model.len() + 1);
                assert forall|a: int| 0 <= a < providers@.len() implies new_model.contains_key(
                    #[trigger] providers@[a].0@,
                ) && new_model[providers@[a].0@] == providers@[a].1 by {
                    if a < s0.len() {
                        assert(providers@[a] == s0[a]);
                    }
                }
                assert forall|q: KeyView| #[trigger] new_model.contains_key(q) implies exists|a: int|
                    0 <= a < providers@.len() && providers@[a].0@ == q by {
                    if q == k {
                        assert(providers@[s0.len() as int].0@ == q);
                    } else {
                        let a = choose|a: int| 0 <= a < s0.len() && s0[a].0@ == q;
                        assert(providers@[a] == s0[a]);
                    }
                }
                assert forall|a: int, b: int| 0 <= a < b < providers@.len() implies providers@[a].0@
                    != providers@[b].0@ by {
                    if b < s0.len() {
                        assert(providers@[a] == s0[a]);
                        assert(providers@[b] == s0[b]);
                    } else {
                        assert(providers@[a] == s0[a]);
                        assert(entries@[a].0@ != entries@[b].0@);
                    }
                }
                assert forall|q: KeyView| #[trigger] new_model.contains_key(q) <==> exists|j: int|
                    0 <= j < i + 1 && entries@[j].0@ == q by {
                    if q == k {
                        assert(entries@[i as int].0@ == q);
                    } else if new_model.contains_key(q) {
                        assert(model.contains_key(q));
                    } else {
                        if exists|j: int| 0 <= j < i + 1 && entries@[j].0@ == q {
                            let j = choose|j: int| 0 <= j < i + 1 && entries@[j].0@ == q;
                            assert(j != i as int);
                            assert(model.contains_key(q));
                        }
                    }
                }
                model = new_model;
            }
            i = i + 1;
        }
        proof {
            assert forall|q: KeyView| #[trigger] model.contains_key(q) <==> self@.contains_key(q) by {
                if self@.contains_key(q) {
                    let j = choose|j: int| 0 <= j < entries@.len() && entries@[j].0@ == q;
                    assert(model.contains_key(q));
                }
                if model.contains_key(q) {
                    let j = choose|j: int| 0 <= j < i && entries@[j].0@ == q;
                    assert(self@.contains_key(entries@[j].0@));
                }
            }
            assert(model.dom() =~= self@.dom());
        }
        Container { providers, model: Ghost(model) }
    }
}

impl Default for Container {
    fn default() -> (r: Container)
        ensures
            r@ == Map::<KeyView, Provider>::empty(),
    {
        Container::new()
    }
}

} // verus!
