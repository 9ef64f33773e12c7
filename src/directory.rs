use vstd::prelude::*;

verus! {

/// One registered lock wallet.
pub struct WalletEntry {
    pub account: String,
    pub pool_id: u64,
    pub duration: u64,
    pub wallet: String,
}

/// The key under which a wallet is registered: its account, pool and duration.
pub open spec fn key_of(e: WalletEntry) -> (Seq<char>, u64, u64) {
    (e.account@, e.pool_id, e.duration)
}

/// What a list of entries registers; a later entry for a key replaces an
/// earlier one.
pub open spec fn directory_map(s: Seq<WalletEntry>) -> Map<(Seq<char>, u64, u64), Seq<char>>
    decreases s.len(),
{
    if s.len() == 0 {
        Map::empty()
    } else {
        directory_map(s.drop_last()).insert(key_of(s.last()), s.last().wallet@)
    }
}

/// Entries past `i` that do not register `k` leave its wallet as the first
/// `i` entries register it.
proof fn lemma_directory_prefix(s: Seq<WalletEntry>, i: int, k: (Seq<char>, u64, u64))
    requires
        0 <= i <= s.len(),
        forall|j: int| i <= j < s.len() ==> key_of(#[trigger] s[j]) != k,
    ensures
        directory_map(s).contains_key(k) == directory_map(s.take(i)).contains_key(k),
        directory_map(s).contains_key(k) ==> directory_map(s)[k] == directory_map(s.take(i))[k],
    decreases s.len(),
{
    if i == s.len() {
        assert(s.take(i) =~= s);
    } else {
        let t = s.drop_last();
        assert forall|j: int| i <= j < t.len() implies key_of(#[trigger] t[j]) != k by {
            assert(t[j] == s[j]);
        }
        lemma_directory_prefix(t, i, k);
        assert(t.take(i) =~= s.take(i));
        assert(key_of(s.last()) != k);
    }
}

/// The mapping from (account, pool, duration) to the lock wallet of that key.
pub struct Directory {
    pub entries: Vec<WalletEntry>,
}

impl View for Directory {
    type V = Map<(Seq<char>, u64, u64), Seq<char>>;

    open spec fn view(&self) -> Self::V {
        directory_map(self.entries@)
    }
}

impl Directory {
    pub fn new() -> (r: Directory)
        ensures
            r@ == Map::<(Seq<char>, u64, u64), Seq<char>>::empty(),
    {
        Directory { entries: Vec::new() }
    }

    /// The wallet registered for (account, pool, duration), if any.
    pub fn get(&self, account: &String, pool_id: u64, duration: u64) -> (r: Option<String>)
        ensures
            r is Some <==> self@.contains_key((account@, pool_id, duration)),
            r matches Some(w) ==> w@ == self@[(account@, pool_id, duration)],
    {
        let ghost k = (account@, pool_id, duration);
        let mut i: usize = self.entries.len();
        while i > 0
            invariant
                k == (account@, pool_id, duration),
                i <= self.entries@.len(),
                forall|j: int| i <= j < self.entries@.len() ==> key_of(#[trigger] self.entries@[j]) != k,
            decreases i,
        {
            let e = &self.entries[i - 1];
            if e.pool_id == pool_id && e.duration == duration && e.account == *account {
                proof {
                    let s = self.entries@;
                    lemma_directory_prefix(s, i as int, k);
                    assert(s.take(i as int).drop_last() =~= s.take(i as int - 1));
                    assert(s.take(i as int).last() == s[i as int - 1]);
                    assert(key_of(s[i as int - 1]) == k);
                    let m = directory_map(s.take(i as int));
                    assert(m == directory_map(s.take(i as int).drop_last()).insert(
                        k,
                        s[i as int - 1].wallet@,
                    ));
                    assert(m.contains_key(k));
                }
                return Some(e.wallet.clone());
            }
            i = i - 1;
        }
        proof {
            lemma_directory_prefix(self.entries@, 0, k);
            assert(self.entries@.take(0).len() == 0);
        }
        None
    }

    /// Registers `wallet` for (account, pool, duration).
    pub fn insert(&mut self, account: String, pool_id: u64, duration: u64, wallet: String)
        ensures
            final(self)@ == old(self)@.insert((account@, pool_id, duration), wallet@),
    {
        let ghost s = self.entries@;
        let e = WalletEntry { account, pool_id, duration, wallet };
        self.entries.push(e);
        proof {
            assert(self.entries@.drop_last() =~= s);
        }
    }
}

} // verus!
