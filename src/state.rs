use vstd::prelude::*;
use vstd::utf8::{encode_utf8, encode_utf8_decode_utf8};

verus! {

/// The global configuration: who may administer, and which token manager holds the
/// bridged token.
#[derive(Clone, Debug, PartialEq, Eq)]
pub struct State {
    pub owner: String,
    pub pusd_manager: String,
}

/// What is registered for one remote chain.
#[derive(Clone, Debug, PartialEq, Eq)]
pub struct ChainSetting {
    pub job_id: String,
}

/// One route as listed: a remote chain and the job that serves it.
#[derive(Clone, Debug, PartialEq, Eq)]
pub struct ChainSettingInfo {
    pub chain_id: String,
    pub job_id: String,
}

/// The routes in a sequence, as pairs of chain and job.
pub open spec fn route_pairs(s: Seq<ChainSettingInfo>) -> Seq<(Seq<char>, Seq<char>)> {
    s.map_values(|e: ChainSettingInfo| (e.chain_id@, e.job_id@))
}

/// The map from chain to job that a sequence of routes with distinct chains denotes.
pub open spec fn pairs_map(s: Seq<(Seq<char>, Seq<char>)>) -> Map<Seq<char>, Seq<char>>
    decreases s.len(),
{
    if s.len() == 0 {
        Map::empty()
    } else {
        pairs_map(s.drop_last()).insert(s.last().0, s.last().1)
    }
}

/// No chain occurs twice.
pub open spec fn distinct_keys(s: Seq<(Seq<char>, Seq<char>)>) -> bool {
    forall|i: int, j: int| 0 <= i < j < s.len() ==> (#[trigger] s[i]).0 != (#[trigger] s[j]).0
}

proof fn lemma_pairs_map(s: Seq<(Seq<char>, Seq<char>)>, k: Seq<char>)
    requires
        distinct_keys(s),
    ensures
        pairs_map(s).contains_key(k) <==> exists|j: int| 0 <= j < s.len() && (#[trigger] s[j]).0 == k,
        forall|j: int|
            0 <= j < s.len() && (#[trigger] s[j]).0 == k ==> pairs_map(s).contains_key(k)
                && pairs_map(s)[k] == s[j].1,
    decreases s.len(),
{
    if s.len() > 0 {
        let t = s.drop_last();
        let n = s.len() - 1;
        assert(distinct_keys(t));
        lemma_pairs_map(t, k);
        if s[n].0 == k {
            assert forall|j: int| 0 <= j < s.len() && (#[trigger] s[j]).0 == k implies j == n by {
                if j != n {
                    assert(s[j].0 != s[n].0);
                }
            }
        } else {
            if exists|j: int| 0 <= j < s.len() && (#[trigger] s[j]).0 == k {
                let j = choose|j: int| 0 <= j < s.len() && (#[trigger] s[j]).0 == k;
                assert(t[j] == s[j]);
            }
            if exists|j: int| 0 <= j < t.len() && (#[trigger] t[j]).0 == k {
                let j = choose|j: int| 0 <= j < t.len() && (#[trigger] t[j]).0 == k;
                assert(s[j] == t[j]);
            }
            assert forall|j: int| 0 <= j < s.len() && (#[trigger] s[j]).0 == k implies pairs_map(
                s,
            ).contains_key(k) && pairs_map(s)[k] == s[j].1 by {
                assert(t[j] == s[j]);
            }
        }
    }
}

proof fn lemma_pairs_map_update(s: Seq<(Seq<char>, Seq<char>)>, i: int, v: (Seq<char>, Seq<char>))
    requires
        distinct_keys(s),
        0 <= i < s.len(),
        v.0 == s[i].0,
    ensures
        distinct_keys(s.update(i, v)),
        pairs_map(s.update(i, v)) == pairs_map(s).insert(v.0, v.1),
{
    let u = s.update(i, v);
    assert(distinct_keys(u)) by {
        assert forall|a: int, b: int| 0 <= a < b < u.len() implies (#[trigger] u[a]).0 != (
        #[trigger] u[b]).0 by {
            assert(s[a].0 != s[b].0);
        }
    }
    assert forall|k: Seq<char>| #[trigger]
        pairs_map(u).contains_key(k) == pairs_map(s).insert(v.0, v.1).contains_key(k) by {
        lemma_pairs_map(u, k);
        lemma_pairs_map(s, k);
        if exists|j: int| 0 <= j < s.len() && (#[trigger] s[j]).0 == k {
            let j = choose|j: int| 0 <= j < s.len() && (#[trigger] s[j]).0 == k;
            assert(u[j].0 == k);
        }
        if exists|j: int| 0 <= j < u.len() && (#[trigger] u[j]).0 == k {
            let j = choose|j: int| 0 <= j < u.len() && (#[trigger] u[j]).0 == k;
            assert(s[j].0 == k);
        }
    }
    assert forall|k: Seq<char>| #[trigger] pairs_map(u).contains_key(k) implies pairs_map(u)[k]
        == pairs_map(s).insert(v.0, v.1)[k] by {
        lemma_pairs_map(u, k);
        lemma_pairs_map(s, k);
        let j = choose|j: int| 0 <= j < u.len() && (#[trigger] u[j]).0 == k;
        if j != i {
            assert(s[j] == u[j]);
        }
    }
    assert(pairs_map(u) =~= pairs_map(s).insert(v.0, v.1));
}

proof fn lemma_pairs_map_insert(s: Seq<(Seq<char>, Seq<char>)>, i: int, v: (Seq<char>, Seq<char>))
    requires
        distinct_keys(s),
        0 <= i <= s.len(),
        forall|j: int| 0 <= j < s.len() ==> (#[trigger] s[j]).0 != v.0,
    ensures
        distinct_keys(s.insert(i, v)),
        pairs_map(s.insert(i, v)) == pairs_map(s).insert(v.0, v.1),
{
    let u = s.insert(i, v);
    assert forall|a: int, b: int| 0 <= a < b < u.len() implies (#[trigger] u[a]).0 != (
    #[trigger] u[b]).0 by {
        let sa = if a < i { a } else { a - 1 };
        let sb = if b < i { b } else { b - 1 };
        if a != i && b != i {
            assert(u[a] == s[sa]);
            assert(u[b] == s[sb]);
            assert(s[sa].0 != s[sb].0);
        } else if a == i {
            assert(u[b] == s[sb]);
        } else {
            assert(u[a] == s[sa]);
        }
    }
    assert forall|k: Seq<char>| #[trigger]
        pairs_map(u).contains_key(k) == pairs_map(s).insert(v.0, v.1).contains_key(k) by {
        lemma_pairs_map(u, k);
        lemma_pairs_map(s, k);
        assert(u[i] == v);
        if exists|j: int| 0 <= j < s.len() && (#[trigger] s[j]).0 == k {
            let j = choose|j: int| 0 <= j < s.len() && (#[trigger] s[j]).0 == k;
            if j < i {
                assert(u[j] == s[j]);
            } else {
                assert(u[j + 1] == s[j]);
            }
        }
        if exists|j: int| 0 <= j < u.len() && (#[trigger] u[j]).0 == k {
            let j = choose|j: int| 0 <= j < u.len() && (#[trigger] u[j]).0 == k;
            if j < i {
                assert(s[j] == u[j]);
            } else if j > i {
                assert(s[j - 1] == u[j]);
            }
        }
    }
    assert forall|k: Seq<char>| #[trigger] pairs_map(u).contains_key(k) implies pairs_map(u)[k]
        == pairs_map(s).insert(v.0, v.1)[k] by {
        lemma_pairs_map(u, k);
        lemma_pairs_map(s, k);
        let j = choose|j: int| 0 <= j < u.len() && (#[trigger] u[j]).0 == k;
        if j < i {
            assert(s[j] == u[j]);
        } else if j > i {
            assert(s[j - 1] == u[j]);
        }
    }
    assert(pairs_map(u) =~= pairs_map(s).insert(v.0, v.1));
}

proof fn lemma_key_bytes_injective(a: Seq<char>, b: Seq<char>)
    requires
        key_bytes(a) == key_bytes(b),
    ensures
        a == b,
{
    encode_utf8_decode_utf8(a);
    encode_utf8_decode_utf8(b);
}

/// Byte-wise lexicographic order, the order in which the store keeps its keys.
pub open spec fn bytes_lt(a: Seq<u8>, b: Seq<u8>) -> bool
    decreases a.len(),
{
    if a.len() == 0 {
        b.len() > 0
    } else if b.len() == 0 {
        false
    } else if a[0] != b[0] {
        a[0] < b[0]
    } else {
        bytes_lt(a.drop_first(), b.drop_first())
    }
}

/// The UTF-8 bytes of a chain identifier.
pub open spec fn key_bytes(k: Seq<char>) -> Seq<u8> {
    encode_utf8(k)
}

/// Chains in strictly ascending order of their bytes.
pub open spec fn ascending_keys(s: Seq<(Seq<char>, Seq<char>)>) -> bool {
    forall|i: int, j: int|
        0 <= i < j < s.len() ==> bytes_lt(key_bytes((#[trigger] s[i]).0), key_bytes((#[trigger] s[j]).0))
}

proof fn lemma_bytes_lt_irreflexive(a: Seq<u8>)
    ensures
        !bytes_lt(a, a),
    decreases a.len(),
{
    if a.len() > 0 {
        lemma_bytes_lt_irreflexive(a.drop_first());
    }
}

proof fn lemma_bytes_lt_transitive(a: Seq<u8>, b: Seq<u8>, c: Seq<u8>)
    requires
        bytes_lt(a, b),
        bytes_lt(b, c),
    ensures
        bytes_lt(a, c),
    decreases a.len(),
{
    if a.len() > 0 && b.len() > 0 && c.len() > 0 && a[0] == b[0] && b[0] == c[0] {
        lemma_bytes_lt_transitive(a.drop_first(), b.drop_first(), c.drop_first());
    }
}

proof fn lemma_bytes_lt_total(a: Seq<u8>, b: Seq<u8>)
    requires
        a != b,
    ensures
        bytes_lt(a, b) || bytes_lt(b, a),
    decreases a.len(),
{
    if a.len() > 0 && b.len() > 0 && a[0] == b[0] {
        if a.drop_first() == b.drop_first() {
            assert(a =~= seq![a[0]] + a.drop_first());
            assert(b =~= seq![b[0]] + b.drop_first());
        }
        lemma_bytes_lt_total(a.drop_first(), b.drop_first());
    } else if a.len() == 0 && b.len() == 0 {
        assert(a =~= b);
    }
}

proof fn lemma_ascending_distinct(s: Seq<(Seq<char>, Seq<char>)>)
    requires
        ascending_keys(s),
    ensures
        distinct_keys(s),
{
    assert forall|i: int, j: int| 0 <= i < j < s.len() implies (#[trigger] s[i]).0 != (
    #[trigger] s[j]).0 by {
        if s[i].0 == s[j].0 {
            lemma_bytes_lt_irreflexive(key_bytes(s[i].0));
        }
    }
}

/// Compares two byte strings in lexicographic order.
fn bytes_less(a: &[u8], b: &[u8]) -> (r: bool)
    ensures
        r == bytes_lt(a@, b@),
{
    let mut i: usize = 0;
    assert(a@.skip(0) =~= a@);
    assert(b@.skip(0) =~= b@);
    while i < a.len() && i < b.len()
        invariant
            i <= a@.len(),
            i <= b@.len(),
            bytes_lt(a@, b@) == bytes_lt(a@.skip(i as int), b@.skip(i as int)),
        decreases a@.len() - i,
    {
        let x = a[i];
        let y = b[i];
        assert(a@.skip(i as int)[0] == x);
        assert(b@.skip(i as int)[0] == y);
        if x != y {
            return x < y;
        }
        assert(a@.skip(i as int).drop_first() =~= a@.skip(i + 1));
        assert(b@.skip(i as int).drop_first() =~= b@.skip(i + 1));
        i = i + 1;
    }
    i < b.len()
}

/// Whether chain `a` sorts before chain `b`.
fn chain_less(a: &String, b: &String) -> (r: bool)
    ensures
        r == bytes_lt(key_bytes(a@), key_bytes(b@)),
{
    bytes_less(a.as_str().as_bytes(), b.as_str().as_bytes())
}

/// What registering `job` for `chain` does: the chain maps to the job, every other
/// chain keeps its job, and the chain is listed once.
pub open spec fn registered(
    before: ChainRegistry,
    after: ChainRegistry,
    chain: Seq<char>,
    job: Seq<char>,
) -> bool {
    &&& after.wf()
    &&& after@ == before@.insert(chain, job)
    &&& after.routes().len() == before.routes().len() + if before@.contains_key(chain) {
        0int
    } else {
        1int
    }
}

/// Registering the same chain twice leaves the later job registered, one entry for the
/// chain, and the registry otherwise as after the first registration.
pub proof fn lemma_register_twice(
    r0: ChainRegistry,
    r1: ChainRegistry,
    r2: ChainRegistry,
    chain: Seq<char>,
    job1: Seq<char>,
    job2: Seq<char>,
)
    requires
        r0.wf(),
        registered(r0, r1, chain, job1),
        registered(r1, r2, chain, job2),
    ensures
        r2@ == r0@.insert(chain, job2),
        r2@[chain] == job2,
        r2.routes().len() == r1.routes().len(),
        exists|i: int| 0 <= i < r2.routes().len() && (#[trigger] r2.routes()[i]).0 == chain,
        forall|i: int, j: int|
            0 <= i < r2.routes().len() && 0 <= j < r2.routes().len() && (#[trigger] r2.routes()[i]).0
                == chain && (#[trigger] r2.routes()[j]).0 == chain ==> i == j,
{
    assert(r2@ =~= r0@.insert(chain, job2));
    lemma_ascending_distinct(r2.routes());
    lemma_pairs_map(r2.routes(), chain);
    assert forall|i: int, j: int|
        0 <= i < r2.routes().len() && 0 <= j < r2.routes().len() && (#[trigger] r2.routes()[i]).0
            == chain && (#[trigger] r2.routes()[j]).0 == chain implies i == j by {
        if i < j {
            assert(r2.routes()[i].0 != r2.routes()[j].0);
        } else if j < i {
            assert(r2.routes()[j].0 != r2.routes()[i].0);
        }
    }
}

/// The registry of remote chains: each chain at most once, in ascending order.
pub struct ChainRegistry {
    entries: Vec<ChainSettingInfo>,
}

impl View for ChainRegistry {
    type V = Map<Seq<char>, Seq<char>>;

    open spec fn view(&self) -> Map<Seq<char>, Seq<char>> {
        pairs_map(self.routes())
    }
}

impl ChainRegistry {
    /// The routes as listed.
    pub closed spec fn routes(&self) -> Seq<(Seq<char>, Seq<char>)> {
        route_pairs(self.entries@)
    }

    /// Each chain is listed once, in ascending order.
    pub open spec fn wf(&self) -> bool {
        ascending_keys(self.routes())
    }

    /// A registry with no chain.
    pub fn new() -> (r: ChainRegistry)
        ensures
            r.wf(),
            r.routes().len() == 0,
            r@ == Map::<Seq<char>, Seq<char>>::empty(),
    {
        ChainRegistry { entries: Vec::new() }
    }

    /// The number of registered chains.
    pub fn len(&self) -> (r: usize)
        ensures
            r == self.routes().len(),
    {
        self.entries.len()
    }

    /// Where `chain_id` is listed, if it is.
    fn position(&self, chain_id: &String) -> (r: Option<usize>)
        requires
            self.wf(),
        ensures
            r.is_some() == self@.contains_key(chain_id@),
            r matches Some(i) ==> i < self.routes().len() && self.routes()[i as int].0 == chain_id@,
    {
        let mut i: usize = 0;
        while i < self.entries.len()
            invariant
                i <= self.entries@.len(),
                self.wf(),
                forall|j: int| 0 <= j < i ==> (#[trigger] self.routes()[j]).0 != chain_id@,
            decreases self.entries@.len() - i,
        {
            if self.entries[i].chain_id == *chain_id {
                proof {
                    lemma_ascending_distinct(self.routes());
                    lemma_pairs_map(self.routes(), chain_id@);
                    assert(self.routes()[i as int].0 == chain_id@);
                }
                return Some(i);
            }
            i = i + 1;
        }
        proof {
            lemma_ascending_distinct(self.routes());
            lemma_pairs_map(self.routes(), chain_id@);
        }
        None
    }

    /// The setting registered for `chain_id`; `None` where the chain was never registered.
    pub fn lookup(&self, chain_id: &String) -> (r: Option<ChainSetting>)
        requires
            self.wf(),
        ensures
            r.is_some() == self@.contains_key(chain_id@),
            r matches Some(s) ==> s.job_id@ == self@[chain_id@],
    {
        match self.position(chain_id) {
            Some(i) => {
                proof {
                    lemma_ascending_distinct(self.routes());
                    lemma_pairs_map(self.routes(), chain_id@);
                }
                Some(ChainSetting { job_id: self.entries[i].job_id.clone() })
            },
            None => None,
        }
    }

    /// Registers `setting` for `chain_id`, replacing what was registered for it before.
    pub fn register(&mut self, chain_id: String, setting: ChainSetting)
        requires
            old(self).wf(),
        ensures
            registered(*old(self), *final(self), chain_id@, setting.job_id@),
    {
        let ghost key = chain_id@;
        let ghost job = setting.job_id@;
        let ghost kb = key_bytes(key);
        let mut i: usize = 0;
        while i < self.entries.len()
            invariant
                i <= self.entries@.len(),
                self.wf(),
                kb == key_bytes(chain_id@),
                forall|j: int| 0 <= j < i ==> bytes_lt(key_bytes((#[trigger] self.routes()[j]).0), kb),
            ensures
                i <= self.entries@.len(),
                forall|j: int| 0 <= j < i ==> bytes_lt(key_bytes((#[trigger] self.routes()[j]).0), kb),
                i < self.entries@.len() ==> !bytes_lt(key_bytes(self.routes()[i as int].0), kb),
            decreases self.entries@.len() - i,
        {
            assert(self.routes()[i as int].0 == self.entries@[i as int].chain_id@);
            if !chain_less(&self.entries[i].chain_id, &chain_id) {
                break;
            }
            i = i + 1;
        }
        let ghost before = self.entries@;
        let ghost rs = route_pairs(before);
        proof {
            lemma_ascending_distinct(rs);
            lemma_pairs_map(rs, key);
        }
        let found = i < self.entries.len() && self.entries[i].chain_id == chain_id;
        let info = ChainSettingInfo { chain_id, job_id: setting.job_id };
        if found {
            proof {
                assert(rs[i as int].0 == key);
                lemma_pairs_map_update(rs, i as int, (key, job));
            }
            self.entries.set(i, info);
            proof {
                assert(route_pairs(self.entries@) =~= rs.update(i as int, (key, job)));
                let u = route_pairs(self.entries@);
                assert forall|a: int, b: int| 0 <= a < b < u.len() implies bytes_lt(
                    key_bytes((#[trigger] u[a]).0),
                    key_bytes((#[trigger] u[b]).0),
                ) by {
                    assert(u[a].0 == rs[a].0);
                    assert(u[b].0 == rs[b].0);
                }
            }
        } else {
            proof {
                if i < rs.len() {
                    assert(rs[i as int].0 == before[i as int].chain_id@);
                    if key_bytes(rs[i as int].0) == kb {
                        lemma_key_bytes_injective(rs[i as int].0, key);
                    }
                    lemma_bytes_lt_total(key_bytes(rs[i as int].0), kb);
                }
                assert forall|j: int| 0 <= j < rs.len() implies (#[trigger] rs[j]).0 != key by {
                    if j < i {
                        lemma_bytes_lt_irreflexive(kb);
                    } else if j > i {
                        lemma_bytes_lt_transitive(kb, key_bytes(rs[i as int].0), key_bytes(rs[j].0));
                        lemma_bytes_lt_irreflexive(kb);
                    }
                }
                lemma_pairs_map_insert(rs, i as int, (key, job));
            }
            self.entries.insert(i, info);
            proof {
                let u = route_pairs(self.entries@);
                assert(u =~= rs.insert(i as int, (key, job)));
                assert forall|a: int, b: int| 0 <= a < b < u.len() implies bytes_lt(
                    key_bytes((#[trigger] u[a]).0),
                    key_bytes((#[trigger] u[b]).0),
                ) by {
                    if b < i {
                        assert(u[a] == rs[a] && u[b] == rs[b]);
                    } else if b == i {
                        assert(u[a] == rs[a]);
                    } else if a < i {
                        assert(u[a] == rs[a] && u[b] == rs[b - 1]);
                        lemma_bytes_lt_transitive(key_bytes(rs[a].0), kb, key_bytes(rs[i as int].0));
                        if b - 1 > i {
                            lemma_bytes_lt_transitive(
                                key_bytes(rs[a].0),
                                key_bytes(rs[i as int].0),
                                key_bytes(rs[b - 1].0),
                            );
                        }
                    } else if a == i {
                        assert(u[b] == rs[b - 1]);
                        if b - 1 > i {
                            lemma_bytes_lt_transitive(
                                kb,
                                key_bytes(rs[i as int].0),
                                key_bytes(rs[b - 1].0),
                            );
                        }
                    } else {
                        assert(u[a] == rs[a - 1] && u[b] == rs[b - 1]);
                    }
                }
            }
        }
    }

    /// The registered routes, each chain once, in ascending order of chain.
    pub fn list(&self) -> (r: Vec<ChainSettingInfo>)
        ensures
            route_pairs(r@) == self.routes(),
    {
        let mut out: Vec<ChainSettingInfo> = Vec::new();
        let mut i: usize = 0;
        while i < self.entries.len()
            invariant
                i <= self.entries@.len(),
                out@.len() == i,
                route_pairs(out@) =~= self.routes().take(i as int),
            decreases self.entries@.len() - i,
        {
            let e = &self.entries[i];
            let ghost prev = out@;
            let c = e.chain_id.clone();
            let j = e.job_id.clone();
            out.push(ChainSettingInfo { chain_id: c, job_id: j });
            assert(route_pairs(out@)[i as int] == self.routes()[i as int]);
            assert(out@.drop_last() == prev);
            i = i + 1;
            assert(route_pairs(out@) =~= self.routes().take(i as int));
        }
        assert(self.routes().take(i as int) =~= self.routes());
        out
    }
}

} // verus!
