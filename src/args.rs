//! The argument map: the string-keyed key/value set that drives one command.
use vstd::prelude::*;
use vstd::string::StringExecFns;

use crate::error::CliError;

verus! {

/// The map that a sequence of entries denotes, a later entry winning over an
/// earlier one with the same key.
pub open spec fn map_of(s: Seq<(String, String)>) -> Map<Seq<char>, Seq<char>>
    decreases s.len(),
{
    if s.len() == 0 {
        Map::empty()
    } else {
        map_of(s.drop_last()).insert(s.last().0@, s.last().1@)
    }
}

/// No two entries share a key.
pub open spec fn keys_unique(s: Seq<(String, String)>) -> bool {
    forall|i: int, j: int| 0 <= i < j < s.len() ==> s[i].0@ != s[j].0@
}

/// A name counts as given when the map holds it with a non-empty value.
pub open spec fn given(m: Map<Seq<char>, Seq<char>>, name: Seq<char>) -> bool {
    m.contains_key(name) && m[name].len() > 0
}

proof fn lemma_map_of_dom(s: Seq<(String, String)>, k: Seq<char>)
    ensures
        map_of(s).contains_key(k) <==> exists|i: int| 0 <= i < s.len() && s[i].0@ == k,
    decreases s.len(),
{
    if s.len() > 0 {
        lemma_map_of_dom(s.drop_last(), k);
        if map_of(s).contains_key(k) && k != s.last().0@ {
            let i = choose|i: int| 0 <= i < s.len() - 1 && s.drop_last()[i].0@ == k;
            assert(s[i].0@ == k);
        }
        if exists|i: int| 0 <= i < s.len() && s[i].0@ == k {
            let i = choose|i: int| 0 <= i < s.len() && s[i].0@ == k;
            if i < s.len() - 1 {
                assert(s.drop_last()[i].0@ == k);
            }
        }
    }
}

proof fn lemma_map_of_at(s: Seq<(String, String)>, i: int)
    requires
        keys_unique(s),
        0 <= i < s.len(),
    ensures
        map_of(s).contains_key(s[i].0@),
        map_of(s)[s[i].0@] == s[i].1@,
    decreases s.len(),
{
    if i < s.len() - 1 {
        assert(s.drop_last()[i] == s[i]);
        lemma_map_of_at(s.drop_last(), i);
    }
}

proof fn lemma_map_of_update(s: Seq<(String, String)>, i: int, e: (String, String))
    requires
        keys_unique(s),
        0 <= i < s.len(),
        s[i].0@ == e.0@,
    ensures
        map_of(s.update(i, e)) == map_of(s).insert(e.0@, e.1@),
    decreases s.len(),
{
    let t = s.update(i, e);
    if i == s.len() - 1 {
        assert(t.drop_last() =~= s.drop_last());
        assert(map_of(t) =~= map_of(s).insert(e.0@, e.1@));
    } else {
        assert(t.drop_last() =~= s.drop_last().update(i, e));
        lemma_map_of_update(s.drop_last(), i, e);
        assert(s.last().0@ != e.0@);
        assert(map_of(t) =~= map_of(s).insert(e.0@, e.1@));
    }
}

/// The views of a list of strings.
pub open spec fn texts(v: Seq<String>) -> Seq<Seq<char>> {
    v.map_values(|s: String| s@)
}

/// The map after the first `n` names were offered their positional values:
/// a name takes its value only where the map does not hold it yet.
pub open spec fn fill(m: Map<Seq<char>, Seq<char>>, names: Seq<Seq<char>>, vals: Seq<Seq<char>>, n: nat) -> Map<Seq<char>, Seq<char>>
    decreases n,
{
    if n == 0 {
        m
    } else {
        let p = fill(m, names, vals, (n - 1) as nat);
        let k = names[n - 1];
        if p.contains_key(k) {
            p
        } else {
            p.insert(k, vals[n - 1])
        }
    }
}

/// The map after every name that has a positional value was offered it.
pub open spec fn filled(m: Map<Seq<char>, Seq<char>>, names: Seq<Seq<char>>, vals: Seq<Seq<char>>) -> Map<Seq<char>, Seq<char>> {
    fill(m, names, vals, if names.len() <= vals.len() { names.len() } else { vals.len() })
}

/// Every name of `names` is given in `m`.
pub open spec fn all_given(m: Map<Seq<char>, Seq<char>>, names: Seq<Seq<char>>) -> bool {
    forall|i: int| 0 <= i < names.len() ==> given(m, #[trigger] names[i])
}

/// Offering positional values never drops or changes what the map held, and
/// every name that had a value offered ends up held.
pub proof fn lemma_fill_keeps_and_covers(m: Map<Seq<char>, Seq<char>>, names: Seq<Seq<char>>, vals: Seq<Seq<char>>, n: nat)
    requires
        n <= names.len(),
        n <= vals.len(),
    ensures
        forall|k: Seq<char>| #[trigger] m.contains_key(k) ==> fill(m, names, vals, n).contains_key(k) && fill(m, names, vals, n)[k] == m[k],
        forall|i: int| 0 <= i < n ==> fill(m, names, vals, n).contains_key(#[trigger] names[i]),
    decreases n,
{
    if n > 0 {
        lemma_fill_keeps_and_covers(m, names, vals, (n - 1) as nat);
        let p = fill(m, names, vals, (n - 1) as nat);
        assert forall|i: int| 0 <= i < n implies fill(m, names, vals, n).contains_key(#[trigger] names[i]) by {
            if i < n - 1 {
                assert(p.contains_key(names[i]));
            }
        }
    }
}

/// A string-keyed map from argument names to values.
#[derive(Debug, Clone)]
pub struct ArgMap {
    entries: Vec<(String, String)>,
}

impl View for ArgMap {
    type V = Map<Seq<char>, Seq<char>>;

    closed spec fn view(&self) -> Map<Seq<char>, Seq<char>> {
        map_of(self.entries@)
    }
}

impl ArgMap {
    /// Well-formedness: every key is held at most once.
    pub closed spec fn wf(&self) -> bool {
        keys_unique(self.entries@)
    }

    /// An empty map.
    pub fn new() -> (r: ArgMap)
        ensures
            r.wf(),
            r@ == Map::<Seq<char>, Seq<char>>::empty(),
    {
        ArgMap { entries: Vec::new() }
    }

    fn find(&self, key: &str) -> (r: Option<usize>)
        requires
            self.wf(),
        ensures
            match r {
                Some(i) => i < self.entries@.len() && self.entries@[i as int].0@ == key@,
                None => !self@.contains_key(key@),
            },
    {
        let k = String::from_str(key);
        let mut i: usize = 0;
        while i < self.entries.len()
            invariant
                i <= self.entries@.len(),
                k@ == key@,
                forall|j: int| 0 <= j < i ==> self.entries@[j].0@ != key@,
            decreases self.entries@.len() - i,
        {
            if self.entries[i].0 == k {
                return Some(i);
            }
            i = i + 1;
        }
        proof {
            lemma_map_of_dom(self.entries@, key@);
        }
        None
    }

    /// Whether the map holds `key`.
    pub fn contains_key(&self, key: &str) -> (r: bool)
        requires
            self.wf(),
        ensures
            r == self@.contains_key(key@),
    {
        match self.find(key) {
            Some(i) => {
                proof {
                    lemma_map_of_at(self.entries@, i as int);
                }
                true
            },
            None => false,
        }
    }

    /// The value held for `key`, if any.
    pub fn get(&self, key: &str) -> (r: Option<&String>)
        requires
            self.wf(),
        ensures
            match r {
                Some(v) => self@.contains_key(key@) && v@ == self@[key@],
                None => !self@.contains_key(key@),
            },
    {
        match self.find(key) {
            Some(i) => {
                proof {
                    lemma_map_of_at(self.entries@, i as int);
                }
                Some(&self.entries[i].1)
            },
            None => None,
        }
    }

    /// Whether `key` is held with a non-empty value.
    pub fn is_given(&self, key: &str) -> (r: bool)
        requires
            self.wf(),
        ensures
            r == given(self@, key@),
    {
        match self.get(key) {
            Some(v) => v.unicode_len() > 0,
            None => false,
        }
    }

    /// Sets every entry of `other`, its values winning over this map's.
    pub fn extend(&mut self, other: &ArgMap)
        requires
            old(self).wf(),
            other.wf(),
        ensures
            final(self).wf(),
            final(self)@ == old(self)@.union_prefer_right(other@),
    {
        let ghost m0 = self@;
        let mut i: usize = 0;
        while i < other.entries.len()
            invariant
                self.wf(),
                i <= other.entries@.len(),
                self@ == m0.union_prefer_right(map_of(other.entries@.take(i as int))),
            decreases other.entries@.len() - i,
        {
            let ghost t = other.entries@.take(i + 1);
            proof {
                assert(t.drop_last() =~= other.entries@.take(i as int));
                assert(m0.union_prefer_right(map_of(t)) =~= m0.union_prefer_right(
                    map_of(other.entries@.take(i as int)),
                ).insert(other.entries@[i as int].0@, other.entries@[i as int].1@));
            }
            let k = other.entries[i].0.clone();
            let v = other.entries[i].1.clone();
            self.insert(k, v);
            i = i + 1;
        }
        proof {
            assert(other.entries@.take(other.entries@.len() as int) =~= other.entries@);
        }
    }

    /// Sets `key` to `value`, replacing any earlier value.
    pub fn insert(&mut self, key: String, value: String)
        requires
            old(self).wf(),
        ensures
            final(self).wf(),
            final(self)@ == old(self)@.insert(key@, value@),
    {
        match self.find(key.as_str()) {
            Some(i) => {
                proof {
                    lemma_map_of_update(self.entries@, i as int, (key, value));
                }
                self.entries.set(i, (key, value));
            },
            None => {
                proof {
                    lemma_map_of_dom(self.entries@, key@);
                    assert(self.entries@.push((key, value)).drop_last() =~= self.entries@);
                }
                self.entries.push((key, value));
            },
        }
    }
}

/// Offers the positional values `args` to the names `names`, in order: the
/// `i`-th value is set for the `i`-th name where the map does not hold it yet.
/// Surplus values or names are left alone.
pub fn map_args(map: &mut ArgMap, names: &Vec<String>, args: &Vec<String>)
    requires
        old(map).wf(),
    ensures
        final(map).wf(),
        final(map)@ == filled(old(map)@, texts(names@), texts(args@)),
{
    let ghost m0 = map@;
    let n: usize = if names.len() <= args.len() { names.len() } else { args.len() };
    let mut i: usize = 0;
    while i < n
        invariant
            map.wf(),
            i <= n,
            n <= names@.len(),
            n <= args@.len(),
            n == (if names@.len() <= args@.len() { names@.len() } else { args@.len() }),
            map@ == fill(m0, texts(names@), texts(args@), i as nat),
        decreases n - i,
    {
        if !map.contains_key(names[i].as_str()) {
            map.insert(names[i].clone(), args[i].clone());
        }
        i = i + 1;
    }
}

/// The names of `names` that `map` does not give, in order.
pub fn missing_names(map: &ArgMap, names: &Vec<String>) -> (r: Vec<String>)
    requires
        map.wf(),
    ensures
        texts(r@) == texts(names@).filter(|k: Seq<char>| !given(map@, k)),
{
    let mut r: Vec<String> = Vec::new();
    let mut i: usize = 0;
    while i < names.len()
        invariant
            map.wf(),
            i <= names@.len(),
            texts(r@) == texts(names@).take(i as int).filter(|k: Seq<char>| !given(map@, k)),
        decreases names@.len() - i,
    {
        let ghost t = texts(names@);
        proof {
            assert(t.take(i + 1).drop_last() =~= t.take(i as int));
            assert(t.take(i + 1).last() == names@[i as int]@);
            reveal(Seq::filter);
        }
        if !map.is_given(names[i].as_str()) {
            let ghost r0 = r@;
            r.push(names[i].clone());
            proof {
                assert(texts(r@) =~= texts(r0).push(names@[i as int]@));
            }
        }
        i = i + 1;
    }
    proof {
        assert(texts(names@).take(names@.len() as int) =~= texts(names@));
    }
    r
}

/// The first name of `names` that `map` does not give, if any.
pub fn first_missing(map: &ArgMap, names: &Vec<String>) -> (r: Option<usize>)
    requires
        map.wf(),
    ensures
        match r {
            Some(i) => i < names@.len() && !given(map@, names@[i as int]@)
                && forall|j: int| 0 <= j < i ==> given(map@, #[trigger] names@[j]@),
            None => all_given(map@, texts(names@)),
        },
{
    let mut i: usize = 0;
    while i < names.len()
        invariant
            map.wf(),
            i <= names@.len(),
            forall|j: int| 0 <= j < i ==> given(map@, #[trigger] names@[j]@),
        decreases names@.len() - i,
    {
        if !map.is_given(names[i].as_str()) {
            return Some(i);
        }
        i = i + 1;
    }
    proof {
        assert forall|j: int| 0 <= j < names@.len() implies given(map@, #[trigger] texts(names@)[j]) by {
            assert(texts(names@)[j] == names@[j]@);
        }
    }
    None
}

/// Resolves the required `names` where no prompt can be served: offers the
/// positional `args`, then fails with the first required name still missing.
pub fn resolve(map: &mut ArgMap, names: &Vec<String>, args: &Vec<String>) -> (r: Result<(), CliError>)
    requires
        old(map).wf(),
    ensures
        final(map).wf(),
        final(map)@ == filled(old(map)@, texts(names@), texts(args@)),
        r is Ok <==> all_given(final(map)@, texts(names@)),
        r is Err ==> exists|i: int|
            0 <= i < names@.len() && !given(final(map)@, names@[i]@) && (forall|j: int|
                0 <= j < i ==> given(final(map)@, #[trigger] names@[j]@)) && (r matches Err(
                CliError::MissingArgument(k),
            ) && k@ == names@[i]@),
{
    map_args(map, names, args);
    match first_missing(map, names) {
        Some(i) => {
            proof {
                assert(texts(names@)[i as int] == names@[i as int]@);
            }
            Err(CliError::MissingArgument(names[i].clone()))
        },
        None => Ok(()),
    }
}

} // verus!
