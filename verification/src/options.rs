//! Query options: named texts that narrow what a call returns.

use vstd::prelude::*;
use crate::json::{distinct_names, lemma_object_value, member_values, representable, Json, JsonValue};

verus! {

/// Named options, each name at most once, in the order in which the names
/// were first given.
#[derive(Debug)]
pub struct QueryOptions {
    pairs: Vec<(String, String)>,
}

/// Whether no two of `pairs` have the same name.
pub open spec fn names_once(pairs: Seq<(Seq<char>, Seq<char>)>) -> bool {
    forall|i: int, j: int| 0 <= i < j < pairs.len() ==> (#[trigger] pairs[i]).0 != (#[trigger] pairs[j]).0
}

/// Whether `name` is the name of none of `pairs`.
pub open spec fn is_new(pairs: Seq<(Seq<char>, Seq<char>)>, name: Seq<char>) -> bool {
    forall|i: int| 0 <= i < pairs.len() ==> (#[trigger] pairs[i]).0 != name
}

/// The JSON object with one text member for each of `pairs`, in their order.
pub open spec fn options_object(pairs: Seq<(Seq<char>, Seq<char>)>) -> JsonValue {
    JsonValue::Object(Seq::new(pairs.len(), |i: int| (pairs[i].0, JsonValue::Text(pairs[i].1))))
}

/// The names and texts of `pairs` as sequences of characters.
pub open spec fn pairs_view(pairs: Seq<(String, String)>) -> Seq<(Seq<char>, Seq<char>)> {
    Seq::new(pairs.len(), |i: int| (pairs[i].0@, pairs[i].1@))
}

impl View for QueryOptions {
    type V = Seq<(Seq<char>, Seq<char>)>;

    /// The names with their texts, in order.
    closed spec fn view(&self) -> Seq<(Seq<char>, Seq<char>)> {
        pairs_view(self.pairs@)
    }
}

impl QueryOptions {
    #[verifier::type_invariant]
    spec fn well_formed(self) -> bool {
        names_once(self@)
    }

    /// No option.
    pub fn new() -> (options: QueryOptions)
        ensures
            options@ == Seq::<(Seq<char>, Seq<char>)>::empty(),
    {
        let options = QueryOptions { pairs: Vec::new() };
        assert(options@ =~= Seq::<(Seq<char>, Seq<char>)>::empty());
        options
    }

    /// How many options there are.
    pub fn len(&self) -> (n: usize)
        ensures
            n == self@.len(),
    {
        self.pairs.len()
    }

    /// These options with the text `value` for the option `name`.  A name
    /// that is there already keeps its place and takes the new text; a new
    /// one goes to the end.
    #[verifier::loop_isolation(false)]
    pub fn with(self, name: String, value: String) -> (options: QueryOptions)
        ensures
            names_once(self@),
            names_once(options@),
            is_new(self@, name@) ==> options@ == self@.push((name@, value@)),
            forall|i: int|
                0 <= i < self@.len() && (#[trigger] self@[i]).0 == name@ ==> options@ == self@.update(
                    i,
                    (name@, value@),
                ),
    {
        proof {
            use_type_invariant(&self);
        }
        let ghost before = self@;
        let mut pairs = self.pairs;
        assert(pairs_view(pairs@) == before);
        let mut i: usize = 0;
        while i < pairs.len()
            invariant
                i <= pairs.len(),
                pairs_view(pairs@) == before,
                names_once(before),
                forall|k: int| 0 <= k < i ==> (#[trigger] before[k]).0 != name@,
            decreases pairs.len() - i,
        {
            if pairs[i].0 == name {
                assert(before[i as int].0 == name@);
                pairs.set(i, (name, value));
                let ghost after = pairs_view(pairs@);
                assert(after =~= before.update(i as int, (name@, value@)));
                assert forall|a: int, b: int| 0 <= a < b < after.len() implies (#[trigger] after[a]).0
                    != (#[trigger] after[b]).0 by {
                    assert(after[a].0 == before[a].0);
                    assert(after[b].0 == before[b].0);
                }
                assert forall|k: int|
                    0 <= k < before.len() && (#[trigger] before[k]).0 == name@ implies k == i by {
                    if k < i {
                        assert(before[k].0 != before[i as int].0);
                    } else if k > i {
                        assert(before[i as int].0 != before[k].0);
                    }
                }
                return QueryOptions { pairs };
            }
            i = i + 1;
        }
        pairs.push((name, value));
        let ghost after = pairs_view(pairs@);
        assert(after =~= before.push((name@, value@)));
        assert forall|a: int, b: int| 0 <= a < b < after.len() implies (#[trigger] after[a]).0
            != (#[trigger] after[b]).0 by {
            assert(after[a] == before[a]);
            if b < before.len() {
                assert(after[b] == before[b]);
            }
        }
        QueryOptions { pairs }
    }

    /// The JSON object with a text member for each option.
    pub fn to_json(&self) -> (object: Json)
        ensures
            object@ == options_object(self@),
            representable(object),
            names_once(self@),
    {
        proof {
            use_type_invariant(self);
        }
        let mut members: Vec<(String, Json)> = Vec::with_capacity(self.pairs.len());
        let mut i: usize = 0;
        while i < self.pairs.len()
            invariant
                i <= self.pairs.len(),
                members@.len() == i,
                forall|k: int| 0 <= k < i ==> (#[trigger] members@[k]).0@ == self@[k].0,
                forall|k: int| 0 <= k < i ==> representable((#[trigger] members@[k]).1),
                forall|k: int| 0 <= k < i ==> (#[trigger] members@[k]).1@ == JsonValue::Text(self@[k].1),
            decreases self.pairs.len() - i,
        {
            let name = self.pairs[i].0.clone();
            let text = self.pairs[i].1.clone();
            members.push((name, Json::Text(text)));
            i = i + 1;
        }
        proof {
            lemma_object_value(members);
            assert(member_values(members@) =~= options_object(self@)->Object_0);
            assert(distinct_names(members@)) by {
                assert forall|a: int, b: int| 0 <= a < b < members@.len() implies (#[trigger] members@[a]).0@
                    != (#[trigger] members@[b]).0@ by {
                    assert(self@[a].0 != self@[b].0);
                }
            }
        }
        Json::Object(members)
    }
}

} // verus!
