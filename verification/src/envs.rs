//! What a command says about the environment of its child process.

use vstd::prelude::*;

verus! {

/// The text of a value, if there is one.
pub open spec fn opt_text(value: Option<String>) -> Option<Seq<char>> {
    match value {
        Some(value) => Some(value@),
        None => None,
    }
}

/// The map that a list of pairs stands for: each pair says of its name
/// either the value to set or, with `None`, that the name is removed; a
/// later pair overrides an earlier one.
pub open spec fn pairs_to_map(pairs: Seq<(Seq<char>, Option<Seq<char>>)>) -> Map<Seq<char>, Option<Seq<char>>>
    decreases pairs.len(),
{
    if pairs.len() == 0 {
        Map::empty()
    } else {
        pairs_to_map(pairs.drop_last()).insert(pairs.last().0, pairs.last().1)
    }
}

/// No two pairs of the list have the same name.
pub open spec fn distinct_names(pairs: Seq<(Seq<char>, Option<Seq<char>>)>) -> bool {
    forall|i: int, j: int| 0 <= i < j < pairs.len() ==> (#[trigger] pairs[i]).0 != (#[trigger] pairs[j]).0
}

/// A name is in the map of a list exactly if some pair of the list has it.
pub proof fn lemma_pairs_to_map_dom(pairs: Seq<(Seq<char>, Option<Seq<char>>)>, name: Seq<char>)
    ensures
        pairs_to_map(pairs).dom().contains(name) <==> exists|i: int|
            0 <= i < pairs.len() && (#[trigger] pairs[i]).0 == name,
    decreases pairs.len(),
{
    if pairs.len() > 0 {
        let front = pairs.drop_last();
        lemma_pairs_to_map_dom(front, name);
        if pairs_to_map(pairs).dom().contains(name) {
            if pairs.last().0 == name {
                assert(pairs[pairs.len() - 1].0 == name);
            } else {
                let i = choose|i: int| 0 <= i < front.len() && (#[trigger] front[i]).0 == name;
                assert(pairs[i].0 == name);
            }
        }
        if exists|i: int| 0 <= i < pairs.len() && (#[trigger] pairs[i]).0 == name {
            let i = choose|i: int| 0 <= i < pairs.len() && (#[trigger] pairs[i]).0 == name;
            if i < pairs.len() - 1 {
                assert(front[i].0 == name);
            }
        }
    }
}

/// Where no name occurs twice, the map of a list gives each pair's name
/// that pair's value.
pub proof fn lemma_pairs_to_map_value(pairs: Seq<(Seq<char>, Option<Seq<char>>)>, i: int)
    requires
        distinct_names(pairs),
        0 <= i < pairs.len(),
    ensures
        pairs_to_map(pairs).dom().contains(pairs[i].0),
        pairs_to_map(pairs)[pairs[i].0] == pairs[i].1,
    decreases pairs.len(),
{
    let front = pairs.drop_last();
    if i < pairs.len() - 1 {
        assert(pairs[i].0 != pairs[pairs.len() - 1].0);
        assert(front[i] == pairs[i]);
        assert forall|a: int, b: int| 0 <= a < b < front.len() implies (#[trigger] front[a]).0 != (
        #[trigger] front[b]).0 by {
            assert(front[a] == pairs[a] && front[b] == pairs[b]);
        }
        lemma_pairs_to_map_value(front, i);
    }
}

/// Where no name occurs twice, the map of a list knows as many names as
/// the list has pairs.
pub proof fn lemma_pairs_to_map_len(pairs: Seq<(Seq<char>, Option<Seq<char>>)>)
    requires
        distinct_names(pairs),
    ensures
        pairs_to_map(pairs).dom().finite(),
        pairs_to_map(pairs).dom().len() == pairs.len(),
    decreases pairs.len(),
{
    if pairs.len() > 0 {
        let front = pairs.drop_last();
        let name = pairs.last().0;
        assert forall|a: int, b: int| 0 <= a < b < front.len() implies (#[trigger] front[a]).0 != (
        #[trigger] front[b]).0 by {
            assert(front[a] == pairs[a] && front[b] == pairs[b]);
        }
        lemma_pairs_to_map_len(front);
        lemma_pairs_to_map_dom(front, name);
        if pairs_to_map(front).dom().contains(name) {
            let i = choose|i: int| 0 <= i < front.len() && (#[trigger] front[i]).0 == name;
            assert(pairs[i].0 == pairs[pairs.len() - 1].0);
        }
        assert(pairs_to_map(pairs).dom() =~= pairs_to_map(front).dom().insert(name));
    }
}

/// What a command says about environment variables, by name.
///
/// Of each name that it knows, it says either the value that the child
/// gets, or that the child does not get the variable even if the parent has
/// it. A variable whose name it does not know is inherited. No name is kept
/// twice.
#[derive(Debug)]
pub struct Envs {
    entries: Vec<(String, Option<String>)>,
}

impl View for Envs {
    type V = Map<Seq<char>, Option<Seq<char>>>;

    /// What is said of each name: `Some` of the value that it is set to,
    /// or `None` where it is removed.
    open spec fn view(&self) -> Map<Seq<char>, Option<Seq<char>>> {
        pairs_to_map(self.pairs())
    }
}

/// What `entries` say, in order.
pub open spec fn pairs_of(entries: Seq<(String, Option<String>)>) -> Seq<(Seq<char>, Option<Seq<char>>)> {
    Seq::new(entries.len(), |i: int| (entries[i].0@, opt_text(entries[i].1)))
}

impl Envs {
    /// What is said of each name, as pairs in the order kept.
    pub closed spec fn pairs(&self) -> Seq<(Seq<char>, Option<Seq<char>>)> {
        pairs_of(self.entries@)
    }

    #[verifier::type_invariant]
    closed spec fn inv(&self) -> bool {
        distinct_names(self.pairs())
    }

    /// Nothing said of any variable.
    pub fn new() -> (envs: Envs)
        ensures
            envs@ == Map::<Seq<char>, Option<Seq<char>>>::empty(),
            envs.pairs() == Seq::<(Seq<char>, Option<Seq<char>>)>::empty(),
    {
        let envs = Envs { entries: Vec::new() };
        assert(envs.pairs() =~= Seq::empty());
        envs
    }

    /// The place of `name` among the entries, if something is said of it.
    fn position(&self, name: &String) -> (at: Option<usize>)
        ensures
            match at {
                Some(i) => i < self.pairs().len() && self.pairs()[i as int].0 == name@,
                None => forall|i: int| 0 <= i < self.pairs().len() ==> (#[trigger] self.pairs()[i]).0 != name@,
            },
    {
        let mut i: usize = 0;
        while i < self.entries.len()
            invariant
                i <= self.entries.len(),
                self.pairs().len() == self.entries.len(),
                forall|j: int| 0 <= j < i ==> (#[trigger] self.pairs()[j]).0 != name@,
            decreases self.entries.len() - i,
        {
            if self.entries[i].0 == *name {
                return Some(i);
            }
            i += 1;
        }
        None
    }

    /// Of how many names something is said.
    pub fn len(&self) -> (n: usize)
        ensures
            n == self.pairs().len(),
            self@.dom().finite(),
            n == self@.dom().len(),
    {
        proof {
            use_type_invariant(self);
            lemma_pairs_to_map_len(self.pairs());
        }
        self.entries.len()
    }

    /// Says `value` of `name`, whatever was said of it before.
    fn put(&mut self, name: String, value: Option<String>)
        ensures
            final(self)@ == old(self)@.insert(name@, opt_text(value)),
    {
        proof {
            use_type_invariant(&*self);
        }
        let ghost before = self.pairs();
        let at = self.position(&name);
        let mut entries: Vec<(String, Option<String>)> = Vec::new();
        std::mem::swap(&mut entries, &mut self.entries);
        match at {
            Some(i) => {
                entries.set(i, (name, value));
                proof {
                    assert(pairs_of(entries@) =~= before.update(
                        i as int,
                        (name@, opt_text(value)),
                    ));
                    lemma_update_pair(before, i as int, opt_text(value));
                }
            },
            None => {
                entries.push((name, value));
                proof {
                    assert(pairs_of(entries@) =~= before.push((name@, opt_text(value))));
                    assert(pairs_of(entries@).drop_last() =~= before);
                }
            },
        }
        self.entries = entries;
    }

    /// Sets `name` to `value` for the child, whatever was said of it
    /// before.
    pub fn insert(&mut self, name: String, value: String)
        ensures
            final(self)@ == old(self)@.insert(name@, Some(value@)),
    {
        self.put(name, Some(value));
    }

    /// Removes `name` for the child: the child does not get the variable,
    /// even if the parent has it.
    pub fn remove(&mut self, name: &str)
        ensures
            final(self)@ == old(self)@.insert(name@, None),
    {
        self.put(name.to_owned(), None);
    }

    /// What is said of `name`: nothing, the value that it is set to, or,
    /// with `None` inside, that it is removed.
    pub fn get(&self, name: &str) -> (said: Option<&Option<String>>)
        ensures
            match said {
                Some(value) => self@.dom().contains(name@) && self@[name@] == opt_text(*value),
                None => !self@.dom().contains(name@),
            },
    {
        proof {
            use_type_invariant(self);
            lemma_pairs_to_map_dom(self.pairs(), name@);
        }
        let name: String = name.to_owned();
        match self.position(&name) {
            Some(i) => {
                proof {
                    lemma_pairs_to_map_value(self.pairs(), i as int);
                }
                Some(&self.entries[i].1)
            },
            None => None,
        }
    }

    /// Gives up what is said, as pairs of a name and what is said of it.
    ///
    /// No name occurs twice among the pairs, and together they say what
    /// `self` says.
    pub fn into_pairs(self) -> (entries: Vec<(String, Option<String>)>)
        ensures
            pairs_of(entries@) == self.pairs(),
            distinct_names(pairs_of(entries@)),
            pairs_to_map(pairs_of(entries@)) == self@,
    {
        proof {
            use_type_invariant(&self);
        }
        self.entries
    }
}

impl Clone for Envs {
    /// A copy that says the same of the same names, in the same order.
    fn clone(&self) -> (copy: Envs)
        ensures
            copy.pairs() == self.pairs(),
            copy@ == self@,
    {
        proof {
            use_type_invariant(self);
        }
        let mut entries: Vec<(String, Option<String>)> = Vec::new();
        let mut i: usize = 0;
        while i < self.entries.len()
            invariant
                i <= self.entries.len(),
                entries.len() == i,
                forall|j: int|
                    0 <= j < i ==> (#[trigger] entries@[j]).0@ == self.entries@[j].0@ && opt_text(
                        entries@[j].1,
                    ) == opt_text(self.entries@[j].1),
            decreases self.entries.len() - i,
        {
            let name = self.entries[i].0.clone();
            let value = match &self.entries[i].1 {
                Some(value) => Some(value.clone()),
                None => None,
            };
            entries.push((name, value));
            i += 1;
        }
        assert(pairs_of(entries@) =~= pairs_of(self.entries@));
        Envs { entries }
    }
}

/// Setting again the name of the pair at `i` changes the map of a list
/// without repeated names as replacing that pair's value does.
proof fn lemma_update_pair(
    pairs: Seq<(Seq<char>, Option<Seq<char>>)>,
    i: int,
    value: Option<Seq<char>>,
)
    requires
        distinct_names(pairs),
        0 <= i < pairs.len(),
    ensures
        distinct_names(pairs.update(i, (pairs[i].0, value))),
        pairs_to_map(pairs.update(i, (pairs[i].0, value))) == pairs_to_map(pairs).insert(
            pairs[i].0,
            value,
        ),
{
    let name = pairs[i].0;
    let after = pairs.update(i, (name, value));
    assert forall|a: int, b: int| 0 <= a < b < after.len() implies (#[trigger] after[a]).0 != (
    #[trigger] after[b]).0 by {
        assert(after[a].0 == pairs[a].0 && after[b].0 == pairs[b].0);
    }
    let left = pairs_to_map(after);
    let right = pairs_to_map(pairs).insert(name, value);
    assert forall|k: Seq<char>| left.dom().contains(k) <==> right.dom().contains(k) by {
        lemma_pairs_to_map_dom(after, k);
        lemma_pairs_to_map_dom(pairs, k);
        if left.dom().contains(k) {
            let j = choose|j: int| 0 <= j < after.len() && (#[trigger] after[j]).0 == k;
            assert(pairs[j].0 == k);
        }
        if right.dom().contains(k) {
            if k == name {
                assert(after[i].0 == k);
            } else {
                let j = choose|j: int| 0 <= j < pairs.len() && (#[trigger] pairs[j]).0 == k;
                assert(after[j].0 == k);
            }
        }
    }
    assert forall|k: Seq<char>| left.dom().contains(k) implies left[k] == right[k] by {
        lemma_pairs_to_map_dom(after, k);
        let j = choose|j: int| 0 <= j < after.len() && (#[trigger] after[j]).0 == k;
        lemma_pairs_to_map_value(after, j);
        if j != i {
            assert(pairs[j].0 == k);
            lemma_pairs_to_map_value(pairs, j);
            assert(pairs[j].0 != pairs[i].0);
        }
    }
    assert(left =~= right);
}

} // verus!
