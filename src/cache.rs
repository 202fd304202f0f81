//! Root keys already read, by signer contract. A signer contract's root key
//! changes only when the contract is upgraded, so it is read once and kept
//! until the caller says otherwise; keys of different contracts never mix.

use vstd::prelude::*;

use crate::curve::{bytes_equal, VerifyingKey};

verus! {

/// The contract-to-key map that a list of entries spells; a later entry
/// for the same contract wins.
pub open spec fn entries_map(s: Seq<(String, VerifyingKey)>) -> Map<Seq<char>, Seq<u8>>
    decreases s.len(),
{
    if s.len() == 0 {
        Map::empty()
    } else {
        entries_map(s.drop_last()).insert(s.last().0@, s.last().1@)
    }
}

/// No two entries name the same contract.
pub open spec fn keys_unique(s: Seq<(String, VerifyingKey)>) -> bool {
    forall|i: int, j: int| 0 <= i < j < s.len() ==> s[i].0@ != s[j].0@
}

proof fn lemma_absent(s: Seq<(String, VerifyingKey)>, k: Seq<char>)
    requires
        forall|i: int| 0 <= i < s.len() ==> (#[trigger] s[i]).0@ != k,
    ensures
        !entries_map(s).contains_key(k),
    decreases s.len(),
{
    if s.len() > 0 {
        assert(s.last() == s[s.len() - 1]);
        lemma_absent(s.drop_last(), k);
    }
}

proof fn lemma_present(s: Seq<(String, VerifyingKey)>, i: int)
    requires
        keys_unique(s),
        0 <= i < s.len(),
    ensures
        entries_map(s).contains_key(s[i].0@),
        entries_map(s)[s[i].0@] == s[i].1@,
    decreases s.len(),
{
    if i < s.len() - 1 {
        assert(s.drop_last()[i] == s[i]);
        lemma_present(s.drop_last(), i);
        assert(s.last() == s[s.len() - 1]);
    }
}

proof fn lemma_remove(s: Seq<(String, VerifyingKey)>, i: int)
    requires
        keys_unique(s),
        0 <= i < s.len(),
    ensures
        entries_map(s.remove(i)) == entries_map(s).remove(s[i].0@),
        keys_unique(s.remove(i)),
        forall|j: int| 0 <= j < s.remove(i).len() ==> (#[trigger] s.remove(i)[j]).0@ != s[i].0@,
    decreases s.len(),
{
    let k = s[i].0@;
    let init = s.drop_last();
    assert(s.last() == s[s.len() - 1]);
    if i == s.len() - 1 {
        assert(s.remove(i) =~= init);
        assert forall|j: int| 0 <= j < init.len() implies (#[trigger] init[j]).0@ != k by {
            assert(init[j] == s[j]);
        }
        lemma_absent(init, k);
        assert(entries_map(s.remove(i)) =~= entries_map(s).remove(k));
    } else {
        assert(init[i] == s[i]);
        lemma_remove(init, i);
        assert(s.remove(i) =~= init.remove(i).push(s.last()));
        assert(s.remove(i).drop_last() =~= init.remove(i));
        assert(s.last().0@ != k);
        assert(entries_map(s.remove(i)) =~= entries_map(s).remove(k));
    }
    assert forall|j: int| 0 <= j < s.remove(i).len() implies (#[trigger] s.remove(i)[j]).0@ != k by {
        if j < i {
            assert(s.remove(i)[j] == s[j]);
        } else {
            assert(s.remove(i)[j] == s[j + 1]);
        }
    }
}

/// `a` and `b` hold the same text.
fn same_text(a: &str, b: &str) -> (r: bool)
    ensures
        r == (a@ == b@),
{
    let r = bytes_equal(a.as_bytes(), b.as_bytes());
    proof {
        vstd::utf8::encode_utf8_decode_utf8(a@);
        vstd::utf8::encode_utf8_decode_utf8(b@);
    }
    r
}

/// Root keys by signer contract.
pub struct RootKeyCache {
    entries: Vec<(String, VerifyingKey)>,
}

impl View for RootKeyCache {
    type V = Map<Seq<char>, Seq<u8>>;

    closed spec fn view(&self) -> Map<Seq<char>, Seq<u8>> {
        entries_map(self.entries@)
    }
}

impl RootKeyCache {
    /// No two entries name the same contract; every method keeps this.
    pub closed spec fn wf(&self) -> bool {
        keys_unique(self.entries@)
    }

    /// A cache that holds no key.
    pub fn new() -> (r: RootKeyCache)
        ensures
            r.wf(),
            r@ == Map::<Seq<char>, Seq<u8>>::empty(),
    {
        RootKeyCache { entries: Vec::new() }
    }

    /// Where the entry for `contract_id` stands, if there is one.
    fn position(&self, contract_id: &str) -> (r: Option<usize>)
        ensures
            r matches Some(i) ==> i < self.entries@.len() && self.entries@[i as int].0@
                == contract_id@,
            r is None ==> forall|i: int|
                0 <= i < self.entries@.len() ==> (#[trigger] self.entries@[i]).0@ != contract_id@,
    {
        let mut i: usize = 0;
        while i < self.entries.len()
            invariant
                i <= self.entries@.len(),
                forall|j: int| 0 <= j < i ==> (#[trigger] self.entries@[j]).0@ != contract_id@,
            decreases self.entries@.len() - i,
        {
            if same_text(self.entries[i].0.as_str(), contract_id) {
                return Some(i);
            }
            i = i + 1;
        }
        None
    }

    /// The key kept for `contract_id`, if any.
    pub fn get(&self, contract_id: &str) -> (r: Option<VerifyingKey>)
        requires
            self.wf(),
        ensures
            r matches Some(key) ==> self@.contains_key(contract_id@) && key@ == self@[contract_id@],
            r is None ==> !self@.contains_key(contract_id@),
    {
        match self.position(contract_id) {
            Some(i) => {
                proof {
                    lemma_present(self.entries@, i as int);
                }
                Some(self.entries[i].1)
            },
            None => {
                proof {
                    lemma_absent(self.entries@, contract_id@);
                }
                None
            },
        }
    }

    /// Drops the key kept for `contract_id`, if any: the next read goes to
    /// the contract again.
    pub fn invalidate(&mut self, contract_id: &str)
        requires
            old(self).wf(),
        ensures
            final(self).wf(),
            final(self)@ == old(self)@.remove(contract_id@),
    {
        match self.position(contract_id) {
            Some(i) => {
                proof {
                    lemma_remove(self.entries@, i as int);
                }
                self.entries.remove(i);
            },
            None => {
                proof {
                    lemma_absent(self.entries@, contract_id@);
                    assert(self@.remove(contract_id@) =~= self@);
                }
            },
        }
    }

    /// Keeps `key` as the root key of `contract_id`, in place of any other.
    pub fn insert(&mut self, contract_id: String, key: VerifyingKey)
        requires
            old(self).wf(),
        ensures
            final(self).wf(),
            final(self)@ == old(self)@.insert(contract_id@, key@),
    {
        self.invalidate(contract_id.as_str());
        let ghost before = self.entries@;
        proof {
            assert forall|j: int| 0 <= j < before.len() implies (#[trigger] before[j]).0@
                != contract_id@ by {
                if before[j].0@ == contract_id@ {
                    lemma_present(before, j);
                }
            }
        }
        self.entries.push((contract_id, key));
        proof {
            assert(self.entries@.drop_last() =~= before);
            assert(self@ =~= old(self)@.insert(contract_id@, key@));
        }
    }
}

} // verus!
