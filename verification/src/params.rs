//! Named string parameters: the query of a request and its headers.

use vstd::prelude::*;

verus! {

/// The mapping that a list of name/value pairs stands for: where a name occurs
/// more than once, the last pair with it counts.
pub open spec fn pairs_map(pairs: Seq<(String, String)>) -> Map<Seq<char>, Seq<char>>
    decreases pairs.len(),
{
    if pairs.len() == 0 {
        Map::empty()
    } else {
        pairs_map(pairs.drop_last()).insert(pairs.last().0@, pairs.last().1@)
    }
}

/// No name occurs twice among the pairs.
pub open spec fn names_distinct(pairs: Seq<(String, String)>) -> bool {
    forall|i: int, j: int|
        0 <= i < j < pairs.len() ==> (#[trigger] pairs[i]).0@ != (#[trigger] pairs[j]).0@
}

proof fn lemma_pairs_map_push(pairs: Seq<(String, String)>, pair: (String, String))
    ensures
        pairs_map(pairs.push(pair)) == pairs_map(pairs).insert(pair.0@, pair.1@),
{
    assert(pairs.push(pair).drop_last() =~= pairs);
}

proof fn lemma_pairs_map_lookup(pairs: Seq<(String, String)>, name: Seq<char>)
    requires
        names_distinct(pairs),
    ensures
        pairs_map(pairs).contains_key(name) <==> exists|i: int|
            0 <= i < pairs.len() && (#[trigger] pairs[i]).0@ == name,
        forall|i: int|
            0 <= i < pairs.len() && (#[trigger] pairs[i]).0@ == name ==> pairs_map(pairs)[name]
                == pairs[i].1@,
    decreases pairs.len(),
{
    if pairs.len() > 0 {
        let front = pairs.drop_last();
        lemma_pairs_map_lookup(front, name);
        if pairs.last().0@ == name {
            assert(pairs[pairs.len() - 1].0@ == name);
        } else {
            if pairs_map(pairs).contains_key(name) {
                let i = choose|i: int| 0 <= i < front.len() && (#[trigger] front[i]).0@ == name;
                assert(pairs[i].0@ == name);
            }
            assert forall|i: int|
                0 <= i < pairs.len() && (#[trigger] pairs[i]).0@ == name implies pairs_map(
                pairs,
            )[name] == pairs[i].1@ by {
                assert(front[i].0@ == name);
            }
        }
        if exists|i: int| 0 <= i < pairs.len() && (#[trigger] pairs[i]).0@ == name {
            let i = choose|i: int| 0 <= i < pairs.len() && (#[trigger] pairs[i]).0@ == name;
            if i < front.len() {
                assert(front[i].0@ == name);
            }
        }
    }
}

proof fn lemma_pairs_map_update(pairs: Seq<(String, String)>, at: int, pair: (String, String))
    requires
        names_distinct(pairs),
        0 <= at < pairs.len(),
        pairs[at].0@ == pair.0@,
    ensures
        pairs_map(pairs.update(at, pair)) =~= pairs_map(pairs).insert(pair.0@, pair.1@),
        names_distinct(pairs.update(at, pair)),
    decreases pairs.len(),
{
    let next = pairs.update(at, pair);
    let front = pairs.drop_last();
    assert forall|i: int, j: int| 0 <= i < j < next.len() implies (#[trigger] next[i]).0@ != (
    #[trigger] next[j]).0@ by {
        assert(pairs[i].0@ != pairs[j].0@);
    }
    if at == pairs.len() - 1 {
        assert(next.drop_last() =~= front);
    } else {
        assert(next.drop_last() =~= front.update(at, pair));
        assert(pairs[at].0@ != pairs[pairs.len() - 1].0@);
        lemma_pairs_map_update(front, at, pair);
    }
}

/// A finite mapping from names to values, as a request carries it in its
/// query and in its headers. A name occurs at most once.
#[derive(Debug)]
pub struct Params {
    pairs: Vec<(String, String)>,
}

impl View for Params {
    type V = Map<Seq<char>, Seq<char>>;

    closed spec fn view(&self) -> Map<Seq<char>, Seq<char>> {
        pairs_map(self.pairs@)
    }
}

impl Params {
    #[verifier::type_invariant]
    spec fn distinct(&self) -> bool {
        names_distinct(self.pairs@)
    }

    /// The mapping without any name.
    pub fn new() -> (params: Self)
        ensures
            params@ == Map::<Seq<char>, Seq<char>>::empty(),
    {
        Params { pairs: Vec::new() }
    }

    fn position(&self, name: &String) -> (at: Option<usize>)
        ensures
            match at {
                Some(i) => i < self.pairs.len() && self.pairs[i as int].0@ == name@,
                None => forall|i: int|
                    0 <= i < self.pairs.len() ==> (#[trigger] self.pairs[i]).0@ != name@,
            },
    {
        let mut i: usize = 0;
        while i < self.pairs.len()
            invariant
                i <= self.pairs.len(),
                forall|j: int| 0 <= j < i ==> (#[trigger] self.pairs[j]).0@ != name@,
            decreases self.pairs.len() - i,
        {
            if self.pairs[i].0 == *name {
                return Some(i);
            }
            i = i + 1;
        }
        None
    }

    /// Gives `name` the value `value`, in place of the value it had, if any.
    pub fn insert(&mut self, name: String, value: String)
        ensures
            final(self)@ == old(self)@.insert(name@, value@),
    {
        proof {
            use_type_invariant(&*self);
        }
        let found = self.position(&name);
        let mut pairs: Vec<(String, String)> = Vec::new();
        core::mem::swap(&mut self.pairs, &mut pairs);
        match found {
            Some(i) => {
                proof {
                    lemma_pairs_map_update(pairs@, i as int, (name, value));
                }
                pairs.set(i, (name, value));
            },
            None => {
                proof {
                    lemma_pairs_map_push(pairs@, (name, value));
                }
                pairs.push((name, value));
            },
        }
        core::mem::swap(&mut self.pairs, &mut pairs);
    }

    /// The value that `name` has, if it has one.
    pub fn get(&self, name: &String) -> (value: Option<String>)
        ensures
            match value {
                Some(v) => self@.contains_key(name@) && self@[name@] == v@,
                None => !self@.contains_key(name@),
            },
    {
        proof {
            use_type_invariant(self);
            lemma_pairs_map_lookup(self.pairs@, name@);
        }
        match self.position(name) {
            Some(i) => Some(self.pairs[i].1.clone()),
            None => None,
        }
    }

    /// The names with their values, each name once, in the order in which the
    /// names were first given.
    pub fn pairs(&self) -> (pairs: &Vec<(String, String)>)
        ensures
            names_distinct(pairs@),
            pairs_map(pairs@) == self@,
    {
        proof {
            use_type_invariant(self);
        }
        &self.pairs
    }
}

} // verus!
