//! The keyword -> expansion store, replaced wholesale on each update.

use vstd::prelude::*;

verus! {

/// The mapping denoted by a sequence of (keyword, expansion) pairs: every
/// pair is entered in order, so when a keyword appears more than once the
/// pair given last wins.
pub open spec fn entries_map(s: Seq<(String, String)>) -> Map<Seq<char>, Seq<char>>
    decreases s.len(),
{
    if s.len() == 0 {
        Map::empty()
    } else {
        entries_map(s.drop_last()).insert(s.last().0@, s.last().1@)
    }
}

/// Store of keyword -> expansion pairs. The whole table is replaced on each
/// `update`; `get` is an exact, case-sensitive lookup.
pub struct SnippetMap {
    pub entries: Vec<(String, String)>,
}

impl View for SnippetMap {
    type V = Map<Seq<char>, Seq<char>>;

    open spec fn view(&self) -> Map<Seq<char>, Seq<char>> {
        entries_map(self.entries@)
    }
}

impl SnippetMap {
    /// A store with no entries.
    pub fn new() -> (m: Self)
        ensures
            m@ == Map::<Seq<char>, Seq<char>>::empty(),
    {
        SnippetMap { entries: Vec::new() }
    }

    /// Atomically replace the entire stored mapping with the given entries.
    /// Duplicate keywords in the input resolve last-one-wins; an empty input
    /// clears the map. Nothing of the previous contents survives.
    pub fn update(&mut self, snippets: Vec<(String, String)>)
        ensures
            final(self)@ == entries_map(snippets@),
    {
        self.entries = snippets;
    }

    /// The expansion stored for an exact, case-sensitive match of the given
    /// keyword, or `None` if the keyword is absent. Never mutates the store.
    pub fn get(&self, keyword: &str) -> (r: Option<String>)
        ensures
            r is Some <==> self@.contains_key(keyword@),
            r matches Some(text) ==> text@ == self@[keyword@],
    {
        let key: String = keyword.to_owned();
        let ghost s = self.entries@;
        let ghost kw = keyword@;
        let mut i: usize = self.entries.len();
        proof {
            assert(s.take(i as int) =~= s);
        }
        while i > 0
            invariant
                i <= s.len(),
                s == self.entries@,
                kw == keyword@,
                key@ == kw,
                entries_map(s).contains_key(kw) == entries_map(s.take(i as int)).contains_key(kw),
                entries_map(s).contains_key(kw) ==> entries_map(s)[kw] == entries_map(
                    s.take(i as int),
                )[kw],
            decreases i,
        {
            i = i - 1;
            proof {
                assert(s.take(i + 1).drop_last() =~= s.take(i as int));
                assert(s.take(i + 1).last() == s[i as int]);
            }
            if self.entries[i].0 == key {
                return Some(self.entries[i].1.clone());
            }
        }
        proof {
            assert(s.take(0) =~= Seq::<(String, String)>::empty());
        }
        None
    }
}

/// Law: a lookup reflects only the entries given to the most recent `update`.
/// A keyword is found in the mapping an input denotes iff the input lists it;
/// entries of earlier updates, not repeated in the latest input, are
/// unreachable because the denoted mapping depends on that input alone.
pub proof fn lemma_map_keys_from_latest_input(s: Seq<(String, String)>, k: Seq<char>)
    ensures
        entries_map(s).contains_key(k) <==> (exists|i: int| 0 <= i < s.len() && s[i].0@ == k),
    decreases s.len(),
{
    if s.len() == 0 {
    } else {
        lemma_map_keys_from_latest_input(s.drop_last(), k);
        if s.last().0@ == k {
            assert(s[s.len() - 1].0@ == k);
        } else {
            if entries_map(s).contains_key(k) {
                let i = choose|i: int| 0 <= i < s.drop_last().len() && s.drop_last()[i].0@ == k;
                assert(s[i].0@ == k);
            }
            if exists|i: int| 0 <= i < s.len() && s[i].0@ == k {
                let i = choose|i: int| 0 <= i < s.len() && s[i].0@ == k;
                assert(i < s.len() - 1);
                assert(s.drop_last()[i].0@ == k);
            }
        }
    }
}

/// Law: when the latest input lists a keyword more than once, the pair given
/// last determines the stored expansion. The index `j` is the last position
/// of the keyword in the input; the denoted mapping holds that pair's text.
pub proof fn lemma_map_value_last_wins(s: Seq<(String, String)>, j: int)
    requires
        0 <= j < s.len(),
        forall|i: int| j < i < s.len() ==> s[i].0@ != s[j].0@,
    ensures
        entries_map(s).contains_key(s[j].0@),
        entries_map(s)[s[j].0@] == s[j].1@,
    decreases s.len(),
{
    if j == s.len() - 1 {
    } else {
        assert(s[s.len() - 1].0@ != s[j].0@);
        assert(s.drop_last()[j] == s[j]);
        assert(forall|i: int|
            j < i < s.drop_last().len() ==> s.drop_last()[i].0@ != s.drop_last()[j].0@);
        lemma_map_value_last_wins(s.drop_last(), j);
    }
}

} // verus!
