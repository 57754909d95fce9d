//! A small string-keyed dictionary backed by a vector of pairs.
//!
//! Lookups see the most recently inserted binding for a key, so the
//! abstract value of a dictionary is a mathematical map in which later
//! insertions win.

use vstd::prelude::*;

verus! {

/// The map denoted by an association list, later pairs overriding
/// earlier ones.
pub open spec fn assoc_view<T: View>(s: Seq<(String, T)>) -> Map<Seq<char>, T::V>
    decreases s.len(),
{
    if s.len() == 0 {
        Map::empty()
    } else {
        assoc_view(s.drop_last()).insert(s.last().0@, s.last().1@)
    }
}

/// A string-keyed dictionary. Its view is a map from key characters to
/// the view of the stored value.
pub struct StrDict<T> {
    pairs: Vec<(String, T)>,
}

impl<T: View> View for StrDict<T> {
    type V = Map<Seq<char>, T::V>;

    closed spec fn view(&self) -> Map<Seq<char>, T::V> {
        assoc_view(self.pairs@)
    }
}

impl<T: View> StrDict<T> {
    /// The empty dictionary.
    pub fn new() -> (r: Self)
        ensures
            r@ == Map::<Seq<char>, T::V>::empty(),
    {
        StrDict { pairs: Vec::new() }
    }

    /// Bind `key` to `value`, replacing any earlier binding.
    pub fn insert(&mut self, key: String, value: T)
        ensures
            final(self)@ == old(self)@.insert(key@, value@),
    {
        let ghost gkey = key@;
        let ghost gval = value@;
        self.pairs.push((key, value));
        proof {
            assert(self.pairs@.drop_last() =~= old(self).pairs@);
            assert(self.pairs@.last().0@ == gkey);
            assert(self.pairs@.last().1@ == gval);
        }
    }

    /// Look a key up; the latest binding wins.
    pub fn get(&self, key: &str) -> (r: Option<&T>)
        ensures
            match r {
                Some(v) => self@.contains_key(key@) && v@ == self@[key@],
                None => !self@.contains_key(key@),
            },
    {
        let n = self.pairs.len();
        let mut i: usize = n;
        proof {
            assert(self.pairs@.take(n as int) =~= self.pairs@);
        }
        while i > 0
            invariant
                i <= n,
                n == self.pairs@.len(),
                assoc_view(self.pairs@).contains_key(key@) == assoc_view(
                    self.pairs@.take(i as int),
                ).contains_key(key@),
                assoc_view(self.pairs@).contains_key(key@) ==> assoc_view(self.pairs@)[key@]
                    == assoc_view(self.pairs@.take(i as int))[key@],
            decreases i,
        {
            let ghost pre = self.pairs@.take(i as int);
            proof {
                assert(pre.drop_last() =~= self.pairs@.take(i as int - 1));
                assert(pre.last() == self.pairs@[i as int - 1]);
            }
            let p = &self.pairs[i - 1];
            if crate::strutil::str_eq(key, p.0.as_str()) {
                return Some(&p.1);
            }
            i = i - 1;
        }
        proof {
            assert(self.pairs@.take(0) =~= Seq::<(String, T)>::empty());
        }
        None
    }

    /// Whether a binding for the key exists.
    pub fn contains_key(&self, key: &str) -> (r: bool)
        ensures
            r == self@.contains_key(key@),
    {
        self.get(key).is_some()
    }

    /// The stored pairs, in insertion order; for a key bound twice the
    /// later pair is the one the dictionary denotes.
    pub fn pairs(&self) -> (r: &Vec<(String, T)>)
        ensures
            assoc_view(r@) == self@,
    {
        &self.pairs
    }
}

/// The map denoted by a sequence of key/value pairs, later pairs
/// overriding earlier ones.
pub open spec fn pairs_map(ps: Seq<(Seq<char>, Seq<char>)>) -> Map<Seq<char>, Seq<char>>
    decreases ps.len(),
{
    if ps.len() == 0 {
        Map::empty()
    } else {
        pairs_map(ps.drop_last()).insert(ps.last().0, ps.last().1)
    }
}

/// Build a dictionary from key/value pairs, in order: a repeated key
/// keeps its last value.
#[verifier::loop_isolation(false)]
pub fn dict_from_pairs(pairs: Vec<(String, String)>) -> (r: StrDict<String>)
    ensures
        r@ == pairs_map(pairs.deep_view()),
{
    let ghost dv = pairs.deep_view();
    let mut dict: StrDict<String> = StrDict::new();
    let n = pairs.len();
    let mut i: usize = 0;
    proof {
        assert(dv.take(0) =~= Seq::<(Seq<char>, Seq<char>)>::empty());
    }
    while i < n
        invariant
            i <= n,
            dict@ == pairs_map(dv.take(i as int)),
        decreases n - i,
    {
        let p = &pairs[i];
        dict.insert(p.0.clone(), p.1.clone());
        proof {
            assert(dv.take(i as int + 1).drop_last() =~= dv.take(i as int));
            assert(dv.take(i as int + 1).last() == dv[i as int]);
            assert(dv[i as int] == (pairs@[i as int].0@, pairs@[i as int].1@));
        }
        i = i + 1;
    }
    proof {
        assert(dv.take(n as int) =~= dv);
    }
    dict
}

} // verus!
