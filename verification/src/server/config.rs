//! Server service configuration: the named listeners a server serves, the
//! function that configures each worker's services, and the registry of
//! services by name and token that a worker builds from them.
//!
//! Maps are held as vectors of pairs whose keys are distinct;
//! inserting under a key that is present replaces its value in place.
use vstd::prelude::*;

verus! {

broadcast use vstd::string::group_string_axioms;

/// Identifies one of a server's services.
#[derive(Clone, Copy, Debug, Hash, PartialEq, Eq, Structural)]
pub struct Token(pub usize);

/// The index of the first pair of `s` whose key is `k`, or -1.
pub open spec fn key_index<K, V>(s: Seq<(K, V)>, k: K) -> int
    decreases s.len(),
{
    if s.len() == 0 {
        -1
    } else if s[0].0 == k {
        0
    } else {
        let i = key_index(s.drop_first(), k);
        if i < 0 {
            -1
        } else {
            i + 1
        }
    }
}

/// `key_index` is the first index whose key is `k`, or -1 when no key is.
pub proof fn key_index_first<K, V>(s: Seq<(K, V)>, k: K)
    ensures
        -1 <= key_index(s, k) < s.len(),
        key_index(s, k) >= 0 ==> s[key_index(s, k)].0 == k,
        forall|j: int| 0 <= j < s.len() && (key_index(s, k) < 0 || j < key_index(s, k)) ==> s[j].0 != k,
    decreases s.len(),
{
    if s.len() > 0 && s[0].0 != k {
        key_index_first(s.drop_first(), k);
        assert forall|j: int| 0 <= j < s.len() && (key_index(s, k) < 0 || j < key_index(s, k)) implies s[j].0
            != k by {
            if j > 0 {
                assert(s[j] == s.drop_first()[j - 1]);
            }
        }
    }
}

/// No two pairs of `s` have the same key.
pub open spec fn keys_distinct<K, V>(s: Seq<(K, V)>) -> bool {
    forall|i: int, j: int| 0 <= i < j < s.len() ==> s[i].0 != s[j].0
}

/// `s` with `v` under `k`: the value of the first pair with key `k` replaced,
/// or the pair added at the end.
pub open spec fn insert_key<K, V>(s: Seq<(K, V)>, k: K, v: V) -> Seq<(K, V)> {
    let i = key_index(s, k);
    if i >= 0 {
        s.update(i, (k, v))
    } else {
        s.push((k, v))
    }
}

/// Inserting keeps the keys distinct.
pub proof fn insert_key_distinct<K, V>(s: Seq<(K, V)>, k: K, v: V)
    requires
        keys_distinct(s),
    ensures
        keys_distinct(insert_key(s, k, v)),
{
    key_index_first(s, k);
}


/// A lookup after an insert finds the inserted value under its key, and
/// every other key as it was: present or absent, with the same value.
pub proof fn insert_then_lookup<K, V>(s: Seq<(K, V)>, k: K, v: V, other: K)
    ensures
        key_index(insert_key(s, k, v), k) >= 0,
        insert_key(s, k, v)[key_index(insert_key(s, k, v), k)].1 == v,
        other != k ==> (key_index(insert_key(s, k, v), other) >= 0 <==> key_index(s, other) >= 0),
        other != k && key_index(s, other) >= 0 ==> insert_key(s, k, v)[key_index(insert_key(s, k, v), other)]
            == s[key_index(s, other)],
{
    let t = insert_key(s, k, v);
    key_index_first(s, k);
    key_index_first(s, other);
    key_index_first(t, k);
    key_index_first(t, other);
    let i = key_index(s, k);
    let a = key_index(t, k);
    if i >= 0 {
        assert(t[i].0 == k);
        if a < i {
            assert(t[a] == s[a]);
        }
        assert(a == i);
    } else {
        assert(t[s.len() as int].0 == k);
        if a >= 0 && a < s.len() {
            assert(t[a] == s[a]);
        }
        assert(a == s.len());
    }
    if other != k {
        let j = key_index(s, other);
        let b = key_index(t, other);
        if j >= 0 {
            assert(t[j] == s[j]);
            if b >= 0 && b < j {
                assert(t[b] == s[b] || b == i);
            }
            assert(b == j);
        } else if b >= 0 {
            if b < s.len() {
                assert(t[b] == s[b] || b == i);
            }
        }
    }
}


/// A name is reported as not configured exactly when some registration of it
/// has a token without a service.
pub proof fn unconfigured_members<F>(names: Seq<(Seq<char>, Token)>, services: Seq<(Token, F)>, n: Seq<char>)
    ensures
        unconfigured(names, services).contains(n) <==> exists|i: int|
            0 <= i < names.len() && #[trigger] names[i].0 == n && key_index(services, names[i].1) < 0,
    decreases names.len(),
{
    if names.len() > 0 {
        let init = names.drop_last();
        let last = names.last();
        let ui = unconfigured(init, services);
        let u = unconfigured(names, services);
        unconfigured_members(init, services, n);
        let miss = key_index(services, last.1) < 0;
        if miss {
            assert(u == ui.push(last.0));
            if ui.contains(n) {
                let j = choose|j: int| 0 <= j < ui.len() && ui[j] == n;
                assert(u[j] == n);
            }
            if u.contains(n) && !ui.contains(n) {
                let j = choose|j: int| 0 <= j < u.len() && u[j] == n;
                if j < ui.len() {
                    assert(ui[j] == n);
                }
                assert(last.0 == n);
            }
            if last.0 == n {
                assert(u[ui.len() as int] == n);
            }
        } else {
            assert(u == ui);
        }
        if unconfigured(names, services).contains(n) {
            if !ui.contains(n) {
                assert(names[names.len() - 1].0 == n);
            } else {
                let i = choose|i: int| 0 <= i < init.len() && #[trigger] init[i].0 == n && key_index(services, init[i].1) < 0;
                assert(names[i] == init[i]);
            }
        }
        if exists|i: int| 0 <= i < names.len() && #[trigger] names[i].0 == n && key_index(services, names[i].1) < 0 {
            let i = choose|i: int| 0 <= i < names.len() && #[trigger] names[i].0 == n && key_index(services, names[i].1) < 0;
            if i < names.len() - 1 {
                assert(init[i] == names[i]);
                assert(ui.contains(n));
            } else {
                assert(last.0 == n && miss);
            }
        }
    }
}

/// Once a factory is registered under a token, no name registered with that
/// token is reported as not configured.
pub proof fn registered_is_configured<F>(names: Seq<(Seq<char>, Token)>, services: Seq<(Token, F)>, t: Token, f: F, n: Seq<char>)
    requires
        forall|i: int| 0 <= i < names.len() && #[trigger] names[i].0 == n ==> names[i].1 == t,
    ensures
        !unconfigured(names, insert_key(services, t, f)).contains(n),
{
    unconfigured_members(names, insert_key(services, t, f), n);
    insert_then_lookup(services, t, f, t);
}

/// The view of a pair whose key is a string.
pub open spec fn named<V>(p: (String, V)) -> (Seq<char>, V) {
    (p.0@, p.1)
}

/// The index of the pair of `v` whose key is `name`, as `key_index` says.
fn find_name<V>(v: &Vec<(String, V)>, name: &String) -> (r: Option<usize>)
    ensures
        match r {
            Some(i) => key_index(v@.map_values(|p: (String, V)| named(p)), name@) == i && i < v@.len(),
            None => key_index(v@.map_values(|p: (String, V)| named(p)), name@) == -1,
        },
{
    let ghost s = v@.map_values(|p: (String, V)| named(p));
    proof {
        key_index_first(s, name@);
    }
    let mut i: usize = 0;
    while i < v.len()
        invariant
            i <= v.len(),
            s == v@.map_values(|p: (String, V)| named(p)),
            forall|j: int| 0 <= j < i ==> s[j].0 != name@,
            -1 <= key_index(s, name@) < s.len(),
            key_index(s, name@) >= 0 ==> s[key_index(s, name@)].0 == name@,
            forall|j: int| 0 <= j < s.len() && (key_index(s, name@) < 0 || j < key_index(s, name@)) ==> s[j].0 != name@,
        decreases v.len() - i,
    {
        if v[i].0 == *name {
            assert(s[i as int].0 == name@);
            return Some(i);
        }
        assert(s[i as int].0 != name@);
        i = i + 1;
    }
    None
}

/// The index of the pair of `v` whose key is `t`, as `key_index` says.
fn find_token<V>(v: &Vec<(Token, V)>, t: Token) -> (r: Option<usize>)
    ensures
        match r {
            Some(i) => key_index(v@, t) == i && i < v@.len(),
            None => key_index(v@, t) == -1,
        },
{
    proof {
        key_index_first(v@, t);
    }
    let mut i: usize = 0;
    while i < v.len()
        invariant
            i <= v.len(),
            forall|j: int| 0 <= j < i ==> v@[j].0 != t,
            -1 <= key_index(v@, t) < v@.len(),
            key_index(v@, t) >= 0 ==> v@[key_index(v@, t)].0 == t,
            forall|j: int| 0 <= j < v@.len() && (key_index(v@, t) < 0 || j < key_index(v@, t)) ==> v@[j].0 != t,
        decreases v.len() - i,
    {
        if v[i].0.0 == t.0 {
            return Some(i);
        }
        i = i + 1;
    }
    None
}

/// Puts `val` under `t` in `v`.
fn insert_token<V>(v: &mut Vec<(Token, V)>, t: Token, val: V)
    ensures
        final(v)@ == insert_key(old(v)@, t, val),
{
    match find_token(v, t) {
        Some(i) => {
            v.set(i, (t, val));
        },
        None => {
            v.push((t, val));
        },
    }
}

/// Puts `val` under `name` in `v`.
fn insert_name<V>(v: &mut Vec<(String, V)>, name: String, val: V)
    ensures
        final(v)@.map_values(|p: (String, V)| named(p)) == insert_key(
            old(v)@.map_values(|p: (String, V)| named(p)),
            name@,
            val,
        ),
{
    let ghost s = old(v)@.map_values(|p: (String, V)| named(p));
    match find_name(v, &name) {
        Some(i) => {
            let ghost n = name@;
            v.set(i, (name, val));
            assert(v@.map_values(|p: (String, V)| named(p)) =~= s.update(i as int, (n, val)));
        },
        None => {
            let ghost n = name@;
            v.push((name, val));
            assert(v@.map_values(|p: (String, V)| named(p)) =~= s.push((n, val)));
        },
    }
}

/// What configures a worker's services: nothing yet (the services are
/// reported as not configured), or a configuration function.
pub enum RuntimeConfig<F> {
    NotConfigured,
    Configured(F),
}

pub struct ServiceConfig<L, F> {
    services: Vec<(String, L)>,
    apply: Option<RuntimeConfig<F>>,
    threads: usize,
    backlog: i32,
}

impl<L, F> ServiceConfig<L, F> {
    /// The listeners, each with the name of its service, in order of addition.
    pub closed spec fn listeners(&self) -> Seq<(Seq<char>, L)> {
        self.services@.map_values(|p: (String, L)| named(p))
    }

    pub closed spec fn runtime_config(&self) -> Option<RuntimeConfig<F>> {
        self.apply
    }

    /// The number of workers to start.
    pub closed spec fn threads(&self) -> usize {
        self.threads
    }

    pub closed spec fn backlog(&self) -> i32 {
        self.backlog
    }

    pub fn new(threads: usize, backlog: i32) -> (r: Self)
        ensures
            r.listeners() == Seq::<(Seq<char>, L)>::empty(),
            r.runtime_config() is None,
            r.threads() == threads,
            r.backlog() == backlog,
    {
        let r = ServiceConfig { threads, backlog, services: Vec::new(), apply: None };
        assert(r.listeners() =~= Seq::<(Seq<char>, L)>::empty());
        r
    }

    /// Set number of workers to start.
    pub fn workers(&mut self, num: usize)
        ensures
            final(self).threads() == num,
            final(self).listeners() == old(self).listeners(),
            final(self).runtime_config() == old(self).runtime_config(),
            final(self).backlog() == old(self).backlog(),
    {
        self.threads = num;
    }

    /// Add new service to server: the listener serves the service `name`.
    /// A configuration without a configuration function gets one that reports
    /// the services as not configured.
    pub fn listen(&mut self, name: &str, lst: L)
        ensures
            final(self).listeners() == old(self).listeners().push((name@, lst)),
            old(self).runtime_config() is None ==> final(self).runtime_config() == Some(
                RuntimeConfig::<F>::NotConfigured,
            ),
            old(self).runtime_config() is Some ==> final(self).runtime_config() == old(self).runtime_config(),
            final(self).threads() == old(self).threads(),
            final(self).backlog() == old(self).backlog(),
    {
        if self.apply.is_none() {
            self.apply = Some(RuntimeConfig::NotConfigured);
        }
        let ghost before = self.services@;
        let n = name.to_string();
        let ghost nv = n@;
        self.services.push((n, lst));
        assert(self.services@.map_values(|p: (String, L)| named(p)) =~= before.map_values(
            |p: (String, L)| named(p),
        ).push((nv, lst)));
    }

    /// Add new service to server: every listener bound for `name` serves it,
    /// in order.
    pub fn bind(&mut self, name: &str, sockets: Vec<L>)
        ensures
            final(self).listeners() == old(self).listeners() + sockets@.map_values(|l: L| (name@, l)),
            old(self).runtime_config() is None && sockets@.len() > 0 ==> final(self).runtime_config() == Some(
                RuntimeConfig::<F>::NotConfigured,
            ),
            !(old(self).runtime_config() is None && sockets@.len() > 0) ==> final(self).runtime_config()
                == old(self).runtime_config(),
            final(self).threads() == old(self).threads(),
            final(self).backlog() == old(self).backlog(),
    {
        let mut rest = sockets;
        let ghost all = rest@;
        let ghost start = self.listeners();
        let ghost start_config = self.apply;
        while rest.len() > 0
            invariant
                rest@ == all.subrange(all.len() - rest@.len(), all.len() as int),
                self.listeners() == start + all.subrange(0, all.len() - rest@.len()).map_values(
                    |l: L| (name@, l),
                ),
                start_config is None && rest@.len() < all.len() ==> self.apply == Some(
                    RuntimeConfig::<F>::NotConfigured,
                ),
                !(start_config is None && rest@.len() < all.len()) ==> self.apply == start_config,
                self.threads() == old(self).threads(),
                self.backlog() == old(self).backlog(),
                rest@.len() <= all.len(),
            decreases rest@.len(),
        {
            let ghost k = all.len() - rest@.len();
            let lst = rest.remove(0);
            assert(lst == all[k]);
            self.listen(name, lst);
            assert(all.subrange(0, k + 1).map_values(|l: L| (name@, l)) =~= all.subrange(0, k).map_values(
                |l: L| (name@, l),
            ).push((name@, lst)));
            assert(rest@ =~= all.subrange(all.len() - rest@.len(), all.len() as int));
        }
        assert(all.subrange(0, all.len() as int) =~= all);
    }

    /// Register service configuration function. This function get called
    /// during worker runtime configuration. It get executed in worker thread.
    pub fn apply(&mut self, f: F)
        ensures
            final(self).runtime_config() == Some(RuntimeConfig::Configured(f)),
            final(self).listeners() == old(self).listeners(),
            final(self).threads() == old(self).threads(),
            final(self).backlog() == old(self).backlog(),
    {
        self.apply = Some(RuntimeConfig::Configured(f));
    }
}

/// The names of `names` whose token has no service in `services`, in order.
pub open spec fn unconfigured<F>(names: Seq<(Seq<char>, Token)>, services: Seq<(Token, F)>) -> Seq<Seq<char>>
    decreases names.len(),
{
    if names.len() == 0 {
        Seq::empty()
    } else {
        let rest = unconfigured(names.drop_last(), services);
        if key_index(services, names.last().1) < 0 {
            rest.push(names.last().0)
        } else {
            rest
        }
    }
}

/// The registry a worker builds while it configures its services: the names
/// of the services it may configure with their tokens, the service factories
/// configured so far by token, and the futures to run before the services are
/// made.
pub struct ServiceRuntime<F, O> {
    names: Vec<(String, Token)>,
    services: Vec<(Token, F)>,
    onstart: Vec<O>,
}

impl<F, O> ServiceRuntime<F, O> {
    pub closed spec fn names(&self) -> Seq<(Seq<char>, Token)> {
        self.names@.map_values(|p: (String, Token)| named(p))
    }

    pub closed spec fn services(&self) -> Seq<(Token, F)> {
        self.services@
    }

    pub closed spec fn onstart(&self) -> Seq<O> {
        self.onstart@
    }

    /// Names and tokens are keys of maps: none occurs twice.
    pub open spec fn wf(&self) -> bool {
        keys_distinct(self.names()) && keys_distinct(self.services())
    }

    pub fn new(names: Vec<(String, Token)>) -> (r: Self)
        ensures
            r.names() == names@.map_values(|p: (String, Token)| named(p)),
            r.services() == Seq::<(Token, F)>::empty(),
            r.onstart() == Seq::<O>::empty(),
            keys_distinct(names@.map_values(|p: (String, Token)| named(p))) ==> r.wf(),
    {
        ServiceRuntime { names, services: Vec::new(), onstart: Vec::new() }
    }

    /// The names of the services that were not configured, in order.
    pub fn validate(&self) -> (r: Vec<String>)
        ensures
            r@.map_values(|s: String| s@) == unconfigured(self.names(), self.services()),
    {
        let mut r: Vec<String> = Vec::new();
        let ghost names = self.names();
        let mut i: usize = 0;
        while i < self.names.len()
            invariant
                i <= self.names@.len(),
                names == self.names(),
                names.len() == self.names@.len(),
                r@.map_values(|s: String| s@) == unconfigured(names.take(i as int), self.services()),
            decreases self.names@.len() - i,
        {
            let ghost before = r@;
            let t = self.names[i].1;
            let missing = find_token(&self.services, t).is_none();
            assert(names.take(i + 1).drop_last() =~= names.take(i as int));
            assert(names.take(i + 1).last() == names[i as int]);
            if missing {
                let n = self.names[i].0.clone();
                r.push(n);
                assert(r@.map_values(|s: String| s@) =~= before.map_values(|s: String| s@).push(names[i as int].0));
            }
            i = i + 1;
        }
        assert(names.take(names.len() as int) =~= names);
        r
    }

    /// Whether a service may be configured under `name`.
    pub fn has_name(&self, name: &str) -> (r: bool)
        ensures
            r == (key_index(self.names(), name@) >= 0),
    {
        let n = name.to_string();
        find_name(&self.names, &n).is_some()
    }

    /// Register service: the factory of the service registered under `name`.
    /// The name must have been registered.
    pub fn service(&mut self, name: &str, factory: F)
        requires
            key_index(old(self).names(), name@) >= 0,
        ensures
            final(self).services() == insert_key(
                old(self).services(),
                old(self).names()[key_index(old(self).names(), name@)].1,
                factory,
            ),
            final(self).names() == old(self).names(),
            final(self).onstart() == old(self).onstart(),
            old(self).wf() ==> final(self).wf(),
    {
        proof {
            if key_index(self.names(), name@) >= 0 && keys_distinct(self.services()) {
                insert_key_distinct(self.services(), self.names()[key_index(self.names(), name@)].1, factory);
            }
        }
        let n = name.to_string();
        match find_name(&self.names, &n) {
            Some(i) => {
                let token = self.names[i].1;
                insert_token(&mut self.services, token, factory);
            },
            None => {
                vstd::pervasive::unreached::<()>();
            },
        }
    }

    /// Execute future before services initialization.
    pub fn on_start(&mut self, fut: O)
        ensures
            final(self).onstart() == old(self).onstart().push(fut),
            final(self).names() == old(self).names(),
            final(self).services() == old(self).services(),
    {
        self.onstart.push(fut);
    }

    /// The configured factories by token and the futures to run first.
    pub fn into_parts(self) -> (r: (Vec<(Token, F)>, Vec<O>))
        ensures
            r.0@ == self.services(),
            r.1@ == self.onstart(),
    {
        (self.services, self.onstart)
    }
}

/// The view of a name entry: a token with its service's name and address.
pub open spec fn name_entry<A>(p: (Token, (String, A))) -> (Token, (Seq<char>, A)) {
    (p.0, (p.1.0@, p.1.1))
}

/// The services of a server as a worker sees them: the configuration
/// function, each token's service name and address, and each name's token.
pub struct ConfiguredService<C, A> {
    rt: C,
    names: Vec<(Token, (String, A))>,
    services: Vec<(String, Token)>,
}

impl<C, A> ConfiguredService<C, A> {
    pub closed spec fn config(&self) -> C {
        self.rt
    }

    pub closed spec fn names(&self) -> Seq<(Token, (Seq<char>, A))> {
        self.names@.map_values(|p: (Token, (String, A))| name_entry(p))
    }

    pub closed spec fn services(&self) -> Seq<(Seq<char>, Token)> {
        self.services@.map_values(|p: (String, Token)| named(p))
    }

    /// Tokens and names are keys of maps: none occurs twice.
    pub open spec fn wf(&self) -> bool {
        keys_distinct(self.names()) && keys_distinct(self.services())
    }

    pub fn new(rt: C) -> (r: Self)
        ensures
            r.wf(),
            r.config() == rt,
            r.names() == Seq::<(Token, (Seq<char>, A))>::empty(),
            r.services() == Seq::<(Seq<char>, Token)>::empty(),
    {
        let r = ConfiguredService { rt, names: Vec::new(), services: Vec::new() };
        assert(r.names() =~= Seq::<(Token, (Seq<char>, A))>::empty());
        assert(r.services() =~= Seq::<(Seq<char>, Token)>::empty());
        r
    }

    /// The configuration function.
    pub fn config_ref(&self) -> (r: &C)
        ensures
            *r == self.config(),
    {
        &self.rt
    }

    /// Whether a service is registered under `token`.
    pub fn has_token(&self, token: Token) -> (r: bool)
        ensures
            r == (key_index(self.names(), token) >= 0),
    {
        proof {
            key_index_mapped(self.names@, token, |p: (Token, (String, A))| name_entry(p));
        }
        find_token(&self.names, token).is_some()
    }

    /// Registers the service `name` listening on `addr` under `token`.
    pub fn stream(&mut self, token: Token, name: String, addr: A)
        ensures
            final(self).names() == insert_key(old(self).names(), token, (name@, addr)),
            final(self).services() == insert_key(old(self).services(), name@, token),
            final(self).config() == old(self).config(),
            old(self).wf() ==> final(self).wf(),
    {
        proof {
            if self.wf() {
                insert_key_distinct(self.names(), token, (name@, addr));
                insert_key_distinct(self.services(), name@, token);
            }
        }
        let ghost s = self.names();
        let ghost raw = self.names@;
        let n2 = name.clone();
        assert(raw.map_values(|p: (Token, (String, A))| name_entry(p)) =~= s);
        proof {
            key_index_mapped(raw, token, |p: (Token, (String, A))| name_entry(p));
        }
        match find_token(&self.names, token) {
            Some(i) => {
                self.names.set(i, (token, (name, addr)));
            },
            None => {
                self.names.push((token, (name, addr)));
            },
        }
        assert(self.names() =~= insert_key(s, token, (n2@, addr)));
        insert_name(&mut self.services, n2, token);
    }

    /// The name of the service registered under `token`, which must be
    /// registered.
    pub fn name(&self, token: Token) -> (r: &String)
        requires
            key_index(self.names(), token) >= 0,
        ensures
            r@ == self.names()[key_index(self.names(), token)].1.0,
    {
        proof {
            key_index_mapped(self.names@, token, |p: (Token, (String, A))| name_entry(p));
        }
        match find_token(&self.names, token) {
            Some(i) => &self.names[i].1.0,
            None => vstd::pervasive::unreached(),
        }
    }

    /// A registry for a worker: the names it may configure, with their tokens,
    /// and nothing configured yet.
    pub fn runtime<F, O>(&self) -> (r: ServiceRuntime<F, O>)
        ensures
            r.names() == self.services(),
            r.services() == Seq::<(Token, F)>::empty(),
            r.onstart() == Seq::<O>::empty(),
            self.wf() ==> r.wf(),
    {
        let mut names: Vec<(String, Token)> = Vec::new();
        let mut i: usize = 0;
        while i < self.services.len()
            invariant
                i <= self.services@.len(),
                names@.map_values(|p: (String, Token)| named(p)) =~= self.services().take(i as int),
            decreases self.services@.len() - i,
        {
            let ghost before = names@;
            let n = self.services[i].0.clone();
            let t = self.services[i].1;
            names.push((n, t));
            assert(names@.map_values(|p: (String, Token)| named(p)) =~= before.map_values(
                |p: (String, Token)| named(p),
            ).push(self.services()[i as int]));
            assert(self.services().take(i + 1) =~= self.services().take(i as int).push(self.services()[i as int]));
            i = i + 1;
        }
        assert(self.services().take(self.services@.len() as int) =~= self.services());
        ServiceRuntime::new(names)
    }
}

impl<C: Clone, A: Copy> ConfiguredService<C, A> {
    /// A copy for another worker: a copy of the configuration function and
    /// the same names, tokens and addresses.
    pub fn clone_factory(&self) -> (r: Self)
        ensures
            r.names() == self.names(),
            r.services() == self.services(),
            vstd::pervasive::cloned(self.config(), r.config()),
    {
        let mut names: Vec<(Token, (String, A))> = Vec::new();
        let mut i: usize = 0;
        while i < self.names.len()
            invariant
                i <= self.names@.len(),
                names@.map_values(|p: (Token, (String, A))| name_entry(p)) =~= self.names().take(i as int),
            decreases self.names@.len() - i,
        {
            let ghost before = names@;
            let t = self.names[i].0;
            let n = self.names[i].1.0.clone();
            let a = self.names[i].1.1;
            names.push((t, (n, a)));
            assert(names@.map_values(|p: (Token, (String, A))| name_entry(p)) =~= before.map_values(
                |p: (Token, (String, A))| name_entry(p),
            ).push(self.names()[i as int]));
            assert(self.names().take(i + 1) =~= self.names().take(i as int).push(self.names()[i as int]));
            i = i + 1;
        }
        assert(self.names().take(self.names@.len() as int) =~= self.names());
        let mut services: Vec<(String, Token)> = Vec::new();
        let mut j: usize = 0;
        while j < self.services.len()
            invariant
                j <= self.services@.len(),
                services@.map_values(|p: (String, Token)| named(p)) =~= self.services().take(j as int),
            decreases self.services@.len() - j,
        {
            let ghost before = services@;
            let n = self.services[j].0.clone();
            let t = self.services[j].1;
            services.push((n, t));
            assert(services@.map_values(|p: (String, Token)| named(p)) =~= before.map_values(
                |p: (String, Token)| named(p),
            ).push(self.services()[j as int]));
            assert(self.services().take(j + 1) =~= self.services().take(j as int).push(self.services()[j as int]));
            j = j + 1;
        }
        assert(self.services().take(self.services@.len() as int) =~= self.services());
        ConfiguredService { rt: self.rt.clone(), names, services }
    }
}

impl<C, A: Copy> ConfiguredService<C, A> {
    /// What a worker makes once configured: each configured service with the
    /// address of its listener, in the order of `services`. Every token must
    /// be registered.
    pub fn construction_plan<F>(&self, services: Vec<(Token, F)>) -> (r: Vec<(Token, A, F)>)
        requires
            forall|i: int| 0 <= i < services@.len() ==> key_index(self.names(), #[trigger] services@[i].0) >= 0,
        ensures
            r@.len() == services@.len(),
            forall|i: int|
                0 <= i < services@.len() ==> #[trigger] r@[i] == (
                    services@[i].0,
                    self.names()[key_index(self.names(), services@[i].0)].1.1,
                    services@[i].1,
                ),
    {
        let mut rest = services;
        let ghost all = rest@;
        let mut r: Vec<(Token, A, F)> = Vec::new();
        while rest.len() > 0
            invariant
                rest@ == all.subrange(all.len() - rest@.len(), all.len() as int),
                r@.len() == all.len() - rest@.len(),
                forall|i: int| 0 <= i < all.len() ==> key_index(self.names(), #[trigger] all[i].0) >= 0,
                forall|i: int|
                    0 <= i < r@.len() ==> #[trigger] r@[i] == (
                        all[i].0,
                        self.names()[key_index(self.names(), all[i].0)].1.1,
                        all[i].1,
                    ),
            decreases rest@.len(),
        {
            let ghost k = all.len() - rest@.len();
            let (token, factory) = rest.remove(0);
            assert((token, factory) == all[k]);
            let addr = self.address(token);
            r.push((token, addr, factory));
            assert(rest@ =~= all.subrange(all.len() - rest@.len(), all.len() as int));
        }
        r
    }

    /// What a worker does once its start-up futures have all finished, with
    /// `started` their results: services are made only when every start-up
    /// future succeeded, and then as `construction_plan` says; after a failed
    /// start-up none is made (`None`).
    pub fn plan_after_start<F, X>(&self, started: &Vec<Result<(), X>>, services: Vec<(Token, F)>) -> (r: Option<
        Vec<(Token, A, F)>,
    >)
        requires
            (forall|i: int| 0 <= i < started@.len() ==> #[trigger] started@[i] is Ok) ==> forall|i: int|
                0 <= i < services@.len() ==> key_index(self.names(), #[trigger] services@[i].0) >= 0,
        ensures
            r is None <==> exists|i: int| 0 <= i < started@.len() && #[trigger] started@[i] is Err,
            r matches Some(plan) ==> {
                &&& plan@.len() == services@.len()
                &&& forall|i: int|
                    0 <= i < services@.len() ==> #[trigger] plan@[i] == (
                        services@[i].0,
                        self.names()[key_index(self.names(), services@[i].0)].1.1,
                        services@[i].1,
                    )
            },
    {
        let mut i: usize = 0;
        while i < started.len()
            invariant
                i <= started@.len(),
                forall|j: int| 0 <= j < i ==> #[trigger] started@[j] is Ok,
            decreases started@.len() - i,
        {
            if started[i].is_err() {
                return None;
            }
            i = i + 1;
        }
        Some(self.construction_plan(services))
    }

    /// The address of the listener of the service registered under `token`.
    pub fn address(&self, token: Token) -> (r: A)
        requires
            key_index(self.names(), token) >= 0,
        ensures
            r == self.names()[key_index(self.names(), token)].1.1,
    {
        proof {
            key_index_mapped(self.names@, token, |p: (Token, (String, A))| name_entry(p));
        }
        match find_token(&self.names, token) {
            Some(i) => self.names[i].1.1,
            None => vstd::pervasive::unreached(),
        }
    }
}

/// Mapping the values of a sequence of pairs without touching the keys keeps
/// the index of every key.
pub proof fn key_index_mapped<K, V, W>(s: Seq<(K, V)>, k: K, f: spec_fn((K, V)) -> (K, W))
    requires
        forall|p: (K, V)| #[trigger] f(p).0 == p.0,
    ensures
        key_index(s.map_values(f), k) == key_index(s, k),
    decreases s.len(),
{
    if s.len() > 0 {
        assert(s.map_values(f).drop_first() =~= s.drop_first().map_values(f));
        key_index_mapped(s.drop_first(), k, f);
        assert(s.map_values(f)[0] == f(s[0]));
    }
}

} // verus!
