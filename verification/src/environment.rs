//! The environment variables that a command sets for its child.

use std::collections::BTreeMap;
use std::fmt::{Debug, Formatter};

use vstd::prelude::*;

use crate::text::{text_before, text_before_irreflexive, text_before_transitive, text_order};

verus! {

/// Settings of variables, one after the other: name and value.
pub type Settings = Seq<(Seq<char>, Seq<char>)>;

/// Variables, each with its value.
pub type Variables = Map<Seq<char>, Seq<char>>;

/// Whether the names of the settings stand in strictly ascending order.
pub open spec fn ascending(s: Settings) -> bool {
    forall|i: int, j: int| 0 <= i < j < s.len() ==> #[trigger] text_before(s[i].0, s[j].0)
}

/// Whether the settings name `name` at position `i`.
pub open spec fn names_at(s: Settings, name: Seq<char>, i: int) -> bool {
    0 <= i < s.len() && s[i].0 == name
}

/// The variables that the settings set, each with its value.
pub open spec fn settings_map(s: Settings) -> Variables {
    Map::new(
        |name: Seq<char>| exists|i: int| names_at(s, name, i),
        |name: Seq<char>| s[choose|i: int| names_at(s, name, i)].1,
    )
}

/// The views of name and value in the pairs.
pub open spec fn pairs_view(pairs: Seq<(String, String)>) -> Settings {
    pairs.map_values(|p: (String, String)| (p.0@, p.1@))
}

/// In ascending settings no name occurs twice.
proof fn ascending_unique(s: Settings, i: int, j: int)
    requires
        ascending(s),
        0 <= i < s.len(),
        0 <= j < s.len(),
        s[i].0 == s[j].0,
    ensures
        i == j,
{
    text_before_irreflexive(s[i].0);
    if i < j {
        assert(text_before(s[i].0, s[j].0));
    } else if j < i {
        assert(text_before(s[j].0, s[i].0));
    }
}

/// Each ascending setting is in the map.
pub proof fn settings_map_at(s: Settings, i: int)
    requires
        ascending(s),
        0 <= i < s.len(),
    ensures
        settings_map(s).contains_key(s[i].0),
        settings_map(s)[s[i].0] == s[i].1,
{
    assert(names_at(s, s[i].0, i));
    let k = choose|k: int| names_at(s, s[i].0, k);
    ascending_unique(s, i, k);
}

/// Putting a value in place of another changes one entry of the map.
proof fn settings_map_replaced(s: Settings, i: int, value: Seq<char>)
    requires
        ascending(s),
        0 <= i < s.len(),
    ensures
        ascending(s.update(i, (s[i].0, value))),
        settings_map(s.update(i, (s[i].0, value))) == settings_map(s).insert(s[i].0, value),
{
    let t = s.update(i, (s[i].0, value));
    assert(forall|k: int| 0 <= k < s.len() ==> t[k].0 == #[trigger] s[k].0);
    assert(ascending(t)) by {
        assert forall|a: int, b: int| 0 <= a < b < t.len() implies #[trigger] text_before(
            t[a].0,
            t[b].0,
        ) by {
            assert(text_before(s[a].0, s[b].0));
        }
    }
    let m = settings_map(t);
    let n = settings_map(s).insert(s[i].0, value);
    assert forall|name: Seq<char>| m.contains_key(name) <==> n.contains_key(name) by {
        if m.contains_key(name) {
            let k = choose|k: int| names_at(t, name, k);
            assert(names_at(s, name, k));
        }
        if n.contains_key(name) {
            if name == s[i].0 {
                assert(names_at(t, name, i));
            } else {
                let k = choose|k: int| names_at(s, name, k);
                assert(names_at(t, name, k));
            }
        }
    }
    assert forall|name: Seq<char>| m.contains_key(name) implies m[name] == n[name] by {
        let k = choose|k: int| names_at(t, name, k);
        settings_map_at(t, k);
        settings_map_at(s, k);
        if k != i && name == s[i].0 {
            ascending_unique(s, i, k);
        }
    }
    assert(m =~= n);
}

/// Putting a setting between two others adds one entry to the map.
pub proof fn settings_map_inserted(s: Settings, i: int, name: Seq<char>, value: Seq<char>)
    requires
        ascending(s),
        0 <= i <= s.len(),
        forall|k: int| 0 <= k < i ==> text_before(#[trigger] s[k].0, name),
        forall|k: int| i <= k < s.len() ==> text_before(name, #[trigger] s[k].0),
    ensures
        ascending(s.insert(i, (name, value))),
        settings_map(s.insert(i, (name, value))) == settings_map(s).insert(name, value),
{
    let t = s.insert(i, (name, value));
    assert(forall|k: int| 0 <= k < i ==> #[trigger] t[k] == s[k]);
    assert(forall|k: int| i < k < t.len() ==> #[trigger] t[k] == s[k - 1]);
    assert(t[i] == (name, value));
    assert(ascending(t)) by {
        assert forall|a: int, b: int| 0 <= a < b < t.len() implies #[trigger] text_before(
            t[a].0,
            t[b].0,
        ) by {
            if b < i {
                assert(text_before(s[a].0, s[b].0));
            } else if a > i {
                assert(text_before(s[a - 1].0, s[b - 1].0));
            } else if a < i && b > i {
                assert(text_before(s[a].0, s[b - 1].0));
            }
        }
    }
    let m = settings_map(t);
    let n = settings_map(s).insert(name, value);
    assert forall|other: Seq<char>| m.contains_key(other) <==> n.contains_key(other) by {
        if m.contains_key(other) {
            let k = choose|k: int| names_at(t, other, k);
            if k < i {
                assert(names_at(s, other, k));
            } else if k > i {
                assert(names_at(s, other, k - 1));
            }
        }
        if n.contains_key(other) {
            if other == name {
                assert(names_at(t, other, i));
            } else {
                let k = choose|k: int| names_at(s, other, k);
                if k < i {
                    assert(names_at(t, other, k));
                } else {
                    assert(names_at(t, other, k + 1));
                }
            }
        }
    }
    assert forall|other: Seq<char>| m.contains_key(other) implies m[other] == n[other] by {
        let k = choose|k: int| names_at(t, other, k);
        settings_map_at(t, k);
        if k < i {
            settings_map_at(s, k);
            text_before_irreflexive(name);
        } else if k > i {
            settings_map_at(s, k - 1);
            text_before_irreflexive(name);
        }
    }
    assert(m =~= n);
}

/// Environment variables with their values, each name once, kept in ascending order of the
/// names.
#[derive(PartialEq)]
pub struct Environment {
    pairs: Vec<(String, String)>,
}

/// What a value is written to when it is printed.
#[verifier::external_type_specification]
#[verifier::external_body]
pub struct ExFormatter<'a>(Formatter<'a>);

/// The failure to write to a formatter.
#[verifier::external_type_specification]
#[verifier::external_body]
pub struct ExFmtError(std::fmt::Error);

/// Whether `after` and `res` are what can come of it when the variables, as a map, are handed to
/// the formatter `before` to be written for debugging.
pub uninterp spec fn map_debugged(
    map: Variables,
    before: Formatter,
    after: Formatter,
    res: std::fmt::Result,
) -> bool;

/// Calls `fmt` of `Debug` for std's `BTreeMap`, on the pairs as a map. What the formatter makes
/// of the map, and whether it can write it, depends on the formatter and is not stated.
#[verifier::external_body]
fn debug_map(pairs: &Vec<(String, String)>, f: &mut Formatter<'_>) -> (res: std::fmt::Result)
    requires
        ascending(pairs_view(pairs@)),
    ensures
        map_debugged(settings_map(pairs_view(pairs@)), *old(f), *final(f), res),
{
    pairs.iter().map(|pair| (&pair.0, &pair.1)).collect::<BTreeMap<_, _>>().fmt(f)
}

impl Debug for Environment {
    /// Writes the variables as a map from names to values.
    fn fmt(&self, f: &mut Formatter<'_>) -> (res: std::fmt::Result)
        ensures
            map_debugged(self@, *old(f), *final(f), res),
    {
        proof {
            use_type_invariant(self);
        }
        debug_map(&self.pairs, f)
    }
}

impl View for Environment {
    type V = Variables;

    closed spec fn view(&self) -> Variables {
        settings_map(self.settings())
    }
}

impl Environment {
    /// The variables in the order in which they are kept.
    pub closed spec fn settings(&self) -> Settings {
        pairs_view(self.pairs@)
    }

    #[verifier::type_invariant]
    spec fn sorted(&self) -> bool {
        ascending(self.settings())
    }

    /// An environment that sets nothing.
    pub fn new() -> (res: Environment)
        ensures
            res@ == Variables::empty(),
    {
        let res = Environment { pairs: Vec::new() };
        assert(res@ =~= Variables::empty());
        res
    }

    /// Sets the variable `name` to `value`, in place of what it was set to before.
    pub fn insert(self, name: String, value: String) -> (res: Environment)
        ensures
            res@ == self@.insert(name@, value@),
    {
        proof {
            use_type_invariant(&self);
        }
        let ghost before = self.settings();
        let mut pairs = self.pairs;
        let mut i: usize = 0;
        while i < pairs.len()
            invariant
                before == pairs_view(pairs@),
                ascending(before),
                i <= pairs.len(),
                forall|k: int| 0 <= k < i ==> text_before(#[trigger] before[k].0, name@),
                settings_map(before) == self@,
            ensures
                before == pairs_view(pairs@),
                ascending(before),
                i <= pairs.len(),
                settings_map(before) == self@,
                forall|k: int| 0 <= k < i ==> text_before(#[trigger] before[k].0, name@),
                forall|k: int| i <= k < before.len() ==> text_before(name@, #[trigger] before[k].0),
            decreases pairs.len() - i,
        {
            match text_order(pairs[i].0.as_str(), name.as_str()) {
                Some(true) => {
                    i = i + 1;
                },
                Some(false) => {
                    proof {
                        assert forall|k: int| i <= k < before.len() implies text_before(
                            name@,
                            #[trigger] before[k].0,
                        ) by {
                            if k > i {
                                assert(text_before(before[i as int].0, before[k].0));
                                text_before_transitive(name@, before[i as int].0, before[k].0);
                            }
                        }
                    }
                    break;
                },
                None => {
                    proof {
                        settings_map_replaced(before, i as int, value@);
                    }
                    pairs.set(i, (name, value));
                    assert(pairs_view(pairs@) =~= before.update(i as int, (name@, value@)));
                    return Environment { pairs };
                },
            }
        }
        proof {
            settings_map_inserted(before, i as int, name@, value@);
        }
        pairs.insert(i, (name, value));
        assert(pairs_view(pairs@) =~= before.insert(i as int, (name@, value@)));
        Environment { pairs }
    }

    /// The variables with their values, in ascending order of the names.
    pub fn into_pairs(self) -> (res: Vec<(String, String)>)
        ensures
            ascending(pairs_view(res@)),
            settings_map(pairs_view(res@)) == self@,
    {
        proof {
            use_type_invariant(&self);
        }
        self.pairs
    }
}

impl Clone for Environment {
    fn clone(&self) -> (res: Environment)
        ensures
            res@ == self@,
    {
        proof {
            use_type_invariant(self);
        }
        let mut pairs: Vec<(String, String)> = Vec::new();
        for pair in it: &self.pairs
            invariant
                it.seq().len() == self.pairs@.len(),
                forall|i: int| 0 <= i < self.pairs@.len() ==> *#[trigger] it.seq()[i] == self.pairs@[i],
                pairs@ == self.pairs@.take(it.index()),
        {
            pairs.push((pair.0.clone(), pair.1.clone()));
            assert(pairs@ =~= self.pairs@.take(it.index() + 1));
        }
        assert(pairs@ =~= self.pairs@);
        Environment { pairs }
    }
}

} // verus!
