//! An association list from `String` keys to `String` values, viewed in
//! specifications as a `Map<Seq<char>, Seq<char>>`. A later insertion for a
//! key shadows every earlier one.

use vstd::prelude::*;

verus! {

/// A string-to-string mapping. This is the concrete form of every
/// `mapping<string, string>` of the pipeline: the environment snapshot, the
/// last step's output, raw step parameters, and resolved payloads.
#[derive(Debug)]
pub struct StrMap {
    entries: Vec<(String, String)>,
}

/// The map denoted by an entry list: entries are folded left to right, so the
/// rightmost (latest) entry for a key wins.
pub open spec fn map_of(entries: Seq<(String, String)>) -> Map<Seq<char>, Seq<char>>
    decreases entries.len(),
{
    if entries.len() == 0 {
        Map::empty()
    } else {
        map_of(entries.drop_last()).insert(entries.last().0@, entries.last().1@)
    }
}

impl View for StrMap {
    type V = Map<Seq<char>, Seq<char>>;

    closed spec fn view(&self) -> Map<Seq<char>, Seq<char>> {
        map_of(self.entries@)
    }
}

impl StrMap {
    /// The empty mapping.
    pub fn new() -> (r: Self)
        ensures
            r@ == Map::<Seq<char>, Seq<char>>::empty(),
    {
        StrMap { entries: Vec::new() }
    }

    /// Binds `key` to `value`, shadowing any earlier binding of `key`.
    pub fn insert(&mut self, key: String, value: String)
        ensures
            final(self)@ == old(self)@.insert(key@, value@),
    {
        let ghost pre = self.entries@;
        self.entries.push((key, value));
        proof {
            assert(self.entries@.drop_last() =~= pre);
        }
    }

    /// Looks `key` up, returning the latest value bound to it, if any.
    pub fn get<'a>(&'a self, key: &str) -> (r: Option<&'a String>)
        ensures
            match r {
                Some(v) => self@.dom().contains(key@) && v@ == self@[key@],
                None => !self@.dom().contains(key@),
            },
    {
        let query = String::from_str(key);
        let n = self.entries.len();
        let mut i: usize = 0;
        let mut found: Option<usize> = None;
        while i < n
            invariant
                i <= n,
                n == self.entries@.len(),
                query@ == key@,
                match found {
                    Some(j) => {
                        &&& j < i
                        &&& map_of(self.entries@.take(i as int)).dom().contains(key@)
                        &&& self.entries@[j as int].1@ == map_of(
                            self.entries@.take(i as int),
                        )[key@]
                    },
                    None => !map_of(self.entries@.take(i as int)).dom().contains(key@),
                },
            decreases n - i,
        {
            proof {
                assert(self.entries@.take(i + 1).drop_last() =~= self.entries@.take(i as int));
                assert(self.entries@.take(i + 1).last() == self.entries@[i as int]);
            }
            if self.entries[i].0 == query {
                found = Some(i);
            }
            i += 1;
        }
        proof {
            assert(self.entries@.take(n as int) =~= self.entries@);
        }
        match found {
            Some(j) => Some(&self.entries[j].1),
            None => None,
        }
    }
}

} // verus!
