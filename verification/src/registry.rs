//! The asset registry: a key-value store mapping an asset identifier (the
//! UTF-8 bytes of an account id) to its display metadata.
//!
//! The store is modelled as an association list whose abstract value is the
//! `Map` obtained by folding the entries front to back, so a later write to
//! the same key wins. Lookups scan from the back and therefore return the
//! most recent write.

use vstd::prelude::*;

use crate::bytes::clone_bytes;

verus! {

/// Display metadata for one asset: the name shown in the dashboard and the
/// number of decimals the asset is displayed with.
pub struct TokenConfig {
    pub token_name: Vec<u8>,
    pub decimals: u8,
}

/// Abstract value of a `TokenConfig`.
pub struct TokenConfigV {
    pub token_name: Seq<u8>,
    pub decimals: u8,
}

impl View for TokenConfig {
    type V = TokenConfigV;

    open spec fn view(&self) -> TokenConfigV {
        TokenConfigV { token_name: self.token_name@, decimals: self.decimals }
    }
}

/// The abstract value of an entry list: a map where the last write wins.
pub open spec fn map_of(entries: Seq<(Seq<u8>, TokenConfigV)>) -> Map<Seq<u8>, TokenConfigV>
    decreases entries.len(),
{
    if entries.len() == 0 {
        Map::empty()
    } else {
        map_of(entries.drop_last()).insert(entries.last().0, entries.last().1)
    }
}

/// View of the registry's backing vector as a sequence of abstract entries.
pub open spec fn entries_view(config: Seq<(Vec<u8>, TokenConfig)>) -> Seq<(Seq<u8>, TokenConfigV)> {
    config.map_values(|e: (Vec<u8>, TokenConfig)| (e.0@, e.1@))
}

/// The registry owner: holds the asset configuration store.
pub struct Contract {
    pub config: Vec<(Vec<u8>, TokenConfig)>,
}

impl View for Contract {
    type V = Map<Seq<u8>, TokenConfigV>;

    open spec fn view(&self) -> Map<Seq<u8>, TokenConfigV> {
        map_of(entries_view(self.config@))
    }
}

/// A key that occurs in no entry is absent from the folded map.
pub proof fn lemma_absent_key(entries: Seq<(Seq<u8>, TokenConfigV)>, key: Seq<u8>)
    requires
        forall|k: int| 0 <= k < entries.len() ==> entries[k].0 != key,
    ensures
        !map_of(entries).contains_key(key),
    decreases entries.len(),
{
    if entries.len() > 0 {
        lemma_absent_key(entries.drop_last(), key);
    }
}

impl Contract {
    /// Creates an empty registry.
    pub fn new() -> (r: Contract)
        ensures
            r@ == Map::<Seq<u8>, TokenConfigV>::empty(),
    {
        let r = Contract { config: Vec::new() };
        proof {
            assert(entries_view(r.config@) =~= Seq::<(Seq<u8>, TokenConfigV)>::empty());
        }
        r
    }

    /// Writes one entry; a later write to the same key overrides an earlier one.
    pub fn add_token_config(&mut self, account_id: Vec<u8>, config: TokenConfig)
        ensures
            final(self)@ == old(self)@.insert(account_id@, config@),
    {
        let ghost pre = entries_view(self.config@);
        let ghost entry_v = (account_id@, config@);
        self.config.push((account_id, config));
        proof {
            let post = entries_view(self.config@);
            assert(post =~= pre.push(entry_v));
            assert(post.drop_last() =~= pre);
        }
    }

    /// Writes many entries in order; the last write to a key wins.
    pub fn add_token_configs(&mut self, configs: Vec<(Vec<u8>, TokenConfig)>)
        ensures
            final(self)@ == spec_put_all(old(self)@, entries_view(configs@)),
    {
        let n = configs.len();
        let ghost all = entries_view(configs@);
        let mut i: usize = 0;
        while i < n
            invariant
                n == all.len(),
                i <= n,
                configs@.len() == n,
                entries_view(configs@) == all,
                self@ == spec_put_all(old(self)@, all.take(i as int)),
            decreases n - i,
        {
            let (account_id, config) = entry_at(&configs, i);
            self.add_token_config(account_id, config);
            proof {
                assert(all.take(i + 1 as int).drop_last() =~= all.take(i as int));
            }
            i += 1;
        }
        proof {
            assert(all.take(n as int) =~= all);
        }
    }

    /// Looks up the configuration most recently written for `key`.
    pub fn lookup_config(&self, key: &Vec<u8>) -> (r: Option<&TokenConfig>)
        ensures
            match r {
                Some(c) => self@.contains_key(key@) && c@ == self@[key@],
                None => !self@.contains_key(key@),
            },
    {
        let ghost entries = entries_view(self.config@);
        proof {
            assert(entries.take(self.config@.len() as int) =~= entries);
        }
        let mut j: usize = self.config.len();
        while j > 0
            invariant
                j <= self.config@.len(),
                entries == entries_view(self.config@),
                forall|k: int| j <= k < entries.len() ==> entries[k].0 != key@,
                map_of(entries.take(j as int)).contains_key(key@) == self@.contains_key(key@),
                map_of(entries.take(j as int)).contains_key(key@) ==> map_of(
                    entries.take(j as int),
                )[key@] == self@[key@],
            decreases j,
        {
            proof {
                assert(entries.take(j as int).drop_last() =~= entries.take(j - 1 as int));
                assert(entries.take(j as int).last() == entries[j - 1 as int]);
            }
            if crate::bytes::eq_bytes(key, entry_key_slice(&self.config, j - 1)) {
                return Some(&self.config[j - 1].1);
            }
            j -= 1;
        }
        proof {
            assert(entries.take(0) =~= Seq::<(Seq<u8>, TokenConfigV)>::empty());
        }
        None
    }

    /// Returns, for each requested id in order, the id together with its
    /// configuration, or `None` for an id that was never written.
    pub fn get_config(&self, keys: Vec<Vec<u8>>) -> (r: Vec<(Vec<u8>, Option<TokenConfig>)>)
        ensures
            r@.len() == keys@.len(),
            forall|i: int|
                0 <= i < r@.len() ==> r@[i].0@ == keys@[i]@ && (match r@[i].1 {
                    Some(c) => self@.contains_key(keys@[i]@) && c@ == self@[keys@[i]@],
                    None => !self@.contains_key(keys@[i]@),
                }),
    {
        let mut r: Vec<(Vec<u8>, Option<TokenConfig>)> = Vec::new();
        let n = keys.len();
        let mut i: usize = 0;
        while i < n
            invariant
                n == keys@.len(),
                i <= n,
                r@.len() == i,
                forall|k: int|
                    0 <= k < i ==> r@[k].0@ == keys@[k]@ && (match r@[k].1 {
                        Some(c) => self@.contains_key(keys@[k]@) && c@ == self@[keys@[k]@],
                        None => !self@.contains_key(keys@[k]@),
                    }),
            decreases n - i,
        {
            let key = clone_bytes(&keys[i]);
            let found = match self.lookup_config(&keys[i]) {
                Some(c) => Some(copy_config(c)),
                None => None,
            };
            r.push((key, found));
            i += 1;
        }
        r
    }
}

/// The abstract effect of writing a list of entries in order.
pub open spec fn spec_put_all(
    m: Map<Seq<u8>, TokenConfigV>,
    entries: Seq<(Seq<u8>, TokenConfigV)>,
) -> Map<Seq<u8>, TokenConfigV>
    decreases entries.len(),
{
    if entries.len() == 0 {
        m
    } else {
        spec_put_all(m, entries.drop_last()).insert(entries.last().0, entries.last().1)
    }
}

/// Writing an entry and then looking its id up yields that entry's
/// configuration, and an id that no write ever used is reported absent.
pub proof fn lemma_registry_roundtrip(
    entries: Seq<(Seq<u8>, TokenConfigV)>,
    id: Seq<u8>,
    cfg: TokenConfigV,
    never_written: Seq<u8>,
)
    requires
        forall|k: int| 0 <= k < entries.len() ==> entries[k].0 != never_written,
    ensures
        map_of(entries.push((id, cfg))).contains_key(id),
        map_of(entries.push((id, cfg)))[id] == cfg,
        !map_of(entries).contains_key(never_written),
{
    assert(entries.push((id, cfg)).drop_last() =~= entries);
    lemma_absent_key(entries, never_written);
}

fn copy_config(c: &TokenConfig) -> (r: TokenConfig)
    ensures
        r@ == c@,
{
    TokenConfig { token_name: clone_bytes(&c.token_name), decimals: c.decimals }
}

fn entry_at(configs: &Vec<(Vec<u8>, TokenConfig)>, i: usize) -> (r: (Vec<u8>, TokenConfig))
    requires
        i < configs@.len(),
    ensures
        r.0@ == configs@[i as int].0@,
        r.1@ == configs@[i as int].1@,
{
    let key = clone_bytes(&configs[i].0);
    let cfg = copy_config(&configs[i].1);
    (key, cfg)
}

fn entry_key_slice<'a>(config: &'a Vec<(Vec<u8>, TokenConfig)>, i: usize) -> (r: &'a [u8])
    requires
        i < config@.len(),
    ensures
        r@ == config@[i as int].0@,
{
    config[i].0.as_slice()
}

} // verus!
