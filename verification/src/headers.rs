//! The header collection of a response: an ordered multi-map of string pairs.
//! Insertion order is preserved, a name may occur more than once, and lookup
//! compares names without regard to ASCII case, per HTTP convention.

use vstd::prelude::*;
use crate::chars::{eq_ignore_ascii_case, str_eq_ci, valid_header_name, valid_header_value};

verus! {

/// An ordered multi-map of header pairs. Its view is the sequence of
/// (name, value) pairs in insertion order.
#[derive(Debug)]
pub struct HeaderMap {
    entries: Vec<(String, String)>,
}

impl View for HeaderMap {
    type V = Seq<(Seq<char>, Seq<char>)>;

    closed spec fn view(&self) -> Seq<(Seq<char>, Seq<char>)> {
        Seq::new(self.entries@.len(), |i: int| (self.entries@[i].0@, self.entries@[i].1@))
    }
}

/// Every pair is a well-formed header: a token name and a value free of
/// control characters.
pub open spec fn wf_entries(entries: Seq<(Seq<char>, Seq<char>)>) -> bool {
    forall|i: int|
        0 <= i < entries.len() ==> valid_header_name(#[trigger] entries[i].0)
            && valid_header_value(entries[i].1)
}

/// The value of the first entry whose name equals `name` up to ASCII case,
/// if any.
pub open spec fn first_value_ci(
    entries: Seq<(Seq<char>, Seq<char>)>,
    name: Seq<char>,
) -> Option<Seq<char>>
    decreases entries.len(),
{
    if entries.len() == 0 {
        None
    } else if str_eq_ci(entries[0].0, name) {
        Some(entries[0].1)
    } else {
        first_value_ci(entries.drop_first(), name)
    }
}

impl HeaderMap {
    /// All entries are well-formed headers.
    pub open spec fn wf(&self) -> bool {
        wf_entries(self@)
    }

    /// An empty header collection.
    pub fn new() -> (r: HeaderMap)
        ensures
            r@ == Seq::<(Seq<char>, Seq<char>)>::empty(),
            r.wf(),
    {
        let r = HeaderMap { entries: Vec::new() };
        proof {
            assert(r@ =~= Seq::<(Seq<char>, Seq<char>)>::empty());
        }
        r
    }

    /// The number of header pairs.
    pub fn len(&self) -> (n: usize)
        ensures
            n == self@.len(),
    {
        self.entries.len()
    }

    /// Add a well-formed pair at the end, keeping every existing entry in
    /// place.
    pub fn append(&mut self, name: String, value: String)
        requires
            valid_header_name(name@),
            valid_header_value(value@),
        ensures
            final(self)@ == old(self)@.push((name@, value@)),
            old(self).wf() ==> final(self).wf(),
    {
        let ghost pre = self@;
        self.entries.push((name, value));
        proof {
            assert(self@ =~= pre.push((name@, value@)));
        }
    }

    /// The name of the `i`-th pair, in insertion order.
    pub fn name_at(&self, i: usize) -> (r: &String)
        requires
            i < self@.len(),
        ensures
            r@ == self@[i as int].0,
    {
        &self.entries[i].0
    }

    /// The value of the `i`-th pair, in insertion order.
    pub fn value_at(&self, i: usize) -> (r: &String)
        requires
            i < self@.len(),
        ensures
            r@ == self@[i as int].1,
    {
        &self.entries[i].1
    }

    /// The value of the first pair whose name equals `name` up to ASCII
    /// case, or nothing when no name matches.
    pub fn get(&self, name: &str) -> (r: Option<&String>)
        ensures
            (match r {
                Some(v) => first_value_ci(self@, name@) == Some(v@),
                None => first_value_ci(self@, name@) is None,
            }),
    {
        let n = self.entries.len();
        let mut i: usize = 0;
        proof {
            assert(self@.skip(0) =~= self@);
        }
        while i < n
            invariant
                i <= n,
                n == self@.len(),
                first_value_ci(self@.skip(i as int), name@) == first_value_ci(self@, name@),
            decreases n - i,
        {
            let ghost tail = self@.skip(i as int);
            proof {
                assert(tail.len() == n - i);
                assert(tail[0] == self@[i as int]);
            }
            if eq_ignore_ascii_case(self.entries[i].0.as_str(), name) {
                return Some(&self.entries[i].1);
            }
            proof {
                assert(tail.drop_first() =~= self@.skip(i as int + 1));
            }
            i = i + 1;
        }
        proof {
            assert(self@.skip(n as int).len() == 0);
        }
        None
    }
}

} // verus!
