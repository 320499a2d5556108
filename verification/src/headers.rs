//! The headers Vault replays: those of the identity check and those the signer
//! added, gathered under their names.
//!
//! A name is listed once, at the place where it was first seen, with every
//! value that was given under it in the order the values came.

use crate::encoding::{json_quote, json_string};
use crate::request::HeaderPairs;
use crate::text::{join, joined, views};
use vstd::prelude::*;
use vstd::string::StringExecFns;

verus! {

/// Header names with the values gathered under each.
pub type HeaderValues = Seq<(Seq<char>, Seq<Seq<char>>)>;

/// The distinct names in `pairs`, each at the place of its first occurrence.
pub open spec fn names_in_order(pairs: HeaderPairs) -> Seq<Seq<char>>
    decreases pairs.len(),
{
    if pairs.len() == 0 {
        Seq::empty()
    } else {
        let earlier = names_in_order(pairs.drop_last());
        if earlier.contains(pairs.last().0) {
            earlier
        } else {
            earlier.push(pairs.last().0)
        }
    }
}

/// The values given under `name` in `pairs`, in the order they were given.
pub open spec fn values_named(pairs: HeaderPairs, name: Seq<char>) -> Seq<Seq<char>> {
    pairs.filter(is_named(name)).map_values(value_of())
}

/// The test that a pair is given under `name`.
pub open spec fn is_named(name: Seq<char>) -> spec_fn((Seq<char>, Seq<char>)) -> bool {
    |pair: (Seq<char>, Seq<char>)| pair.0 == name
}

/// The value of a pair.
pub open spec fn value_of() -> spec_fn((Seq<char>, Seq<char>)) -> Seq<char> {
    |pair: (Seq<char>, Seq<char>)| pair.1
}

/// `pairs` gathered by name: every name once, in order of first occurrence,
/// with all the values given under it.
pub open spec fn merged(pairs: HeaderPairs) -> HeaderValues {
    names_in_order(pairs).map_values(|name: Seq<char>| (name, values_named(pairs, name)))
}

/// Whether `map` lists `name`.
pub open spec fn has_name(map: HeaderValues, name: Seq<char>) -> bool {
    exists|i: int| 0 <= i < map.len() && #[trigger] map[i].0 == name
}

/// A place where `map` lists `name`, if it does.
pub open spec fn place_of(map: HeaderValues, name: Seq<char>) -> int {
    choose|i: int| 0 <= i < map.len() && #[trigger] map[i].0 == name
}

/// `map` after one more value was given under `name`: appended to the values
/// of `name` where `map` lists it, listed last as a new name where not.
pub open spec fn with_value(map: HeaderValues, name: Seq<char>, value: Seq<char>) -> HeaderValues {
    if has_name(map, name) {
        let place = place_of(map, name);
        map.update(place, (name, map[place].1.push(value)))
    } else {
        map.push((name, seq![value]))
    }
}

/// Whether no name is listed twice and every name has a value.
pub open spec fn well_formed(map: HeaderValues) -> bool {
    &&& forall|i: int, j: int| 0 <= i < j < map.len() ==> #[trigger] map[i].0 != #[trigger] map[j].0
    &&& forall|i: int| 0 <= i < map.len() ==> (#[trigger] map[i]).1.len() > 0
}

/// Whether some pair in `pairs` is given under `name`.
pub open spec fn carries(pairs: HeaderPairs, name: Seq<char>) -> bool {
    exists|i: int| 0 <= i < pairs.len() && (#[trigger] pairs[i]).0 == name
}

/// The names in order are exactly the names that occur, each once.
pub proof fn lemma_names_in_order(pairs: HeaderPairs)
    ensures
        names_in_order(pairs).no_duplicates(),
        forall|name: Seq<char>| #[trigger]
            names_in_order(pairs).contains(name) <==> carries(pairs, name),
    decreases pairs.len(),
{
    if pairs.len() > 0 {
        let init = pairs.drop_last();
        let last = pairs.last();
        let earlier = names_in_order(init);
        lemma_names_in_order(init);
        assert forall|name: Seq<char>| #[trigger]
            names_in_order(pairs).contains(name) <==> carries(pairs, name) by {
            if earlier.contains(name) {
                // a pair that carries the name early on is still there
                let i = choose|i: int| 0 <= i < init.len() && (#[trigger] init[i]).0 == name;
                assert(pairs[i].0 == name);
            }
            if carries(pairs, name) {
                let i = choose|i: int| 0 <= i < pairs.len() && (#[trigger] pairs[i]).0 == name;
                if i < init.len() {
                    assert(init[i].0 == name);
                    assert(earlier.contains(name));
                    if !earlier.contains(last.0) {
                        assert(earlier.push(last.0)[earlier.index_of(name)] == name);
                    }
                } else if !earlier.contains(last.0) {
                    assert(earlier.push(last.0)[earlier.len() as int] == name);
                }
            }
        }
    }
}

/// One more pair adds its value to the values of its name and to no others.
pub proof fn lemma_values_named_push(pairs: HeaderPairs, pair: (Seq<char>, Seq<char>), name: Seq<char>)
    ensures
        values_named(pairs.push(pair), name) == if pair.0 == name {
            values_named(pairs, name).push(pair.1)
        } else {
            values_named(pairs, name)
        },
{
    pairs.lemma_filter_push(pair, is_named(name));
    if pair.0 == name {
        pairs.filter(is_named(name)).lemma_push_map_commute(value_of(), pair);
    }
}

/// A name has values exactly when it occurs.
pub proof fn lemma_values_named_len(pairs: HeaderPairs, name: Seq<char>)
    ensures
        values_named(pairs, name).len() > 0 <==> carries(pairs, name),
    decreases pairs.len(),
{
    if pairs.len() == 0 {
        assert(pairs.filter(is_named(name)).len() == 0) by {
            reveal(Seq::filter);
        }
    } else {
        let init = pairs.drop_last();
        let last = pairs.last();
        assert(init.push(last) =~= pairs);
        lemma_values_named_len(init, name);
        lemma_values_named_push(init, last, name);
        if carries(init, name) {
            let i = choose|i: int| 0 <= i < init.len() && (#[trigger] init[i]).0 == name;
            assert(pairs[i].0 == name);
        }
        if carries(pairs, name) && last.0 != name {
            let i = choose|i: int| 0 <= i < pairs.len() && (#[trigger] pairs[i]).0 == name;
            assert(init[i].0 == name);
        }
    }
}

/// Gathering lists no name twice and leaves no name without a value.
pub proof fn lemma_merged_well_formed(pairs: HeaderPairs)
    ensures
        well_formed(merged(pairs)),
        merged(pairs).len() == names_in_order(pairs).len(),
{
    lemma_names_in_order(pairs);
    let names = names_in_order(pairs);
    let map = merged(pairs);
    assert forall|i: int| 0 <= i < map.len() implies (#[trigger] map[i]).1.len() > 0 by {
        assert(names.contains(names[i]));
        lemma_values_named_len(pairs, names[i]);
    }
}

/// Gathering one more pair is recording one more value: under the name's
/// entry where the name was seen before, as a new last entry where not.
pub proof fn lemma_merged_push(pairs: HeaderPairs, pair: (Seq<char>, Seq<char>))
    ensures
        merged(pairs.push(pair)) == with_value(merged(pairs), pair.0, pair.1),
{
    let more = pairs.push(pair);
    let names = names_in_order(pairs);
    let map = merged(pairs);
    assert(more.drop_last() =~= pairs);
    lemma_names_in_order(pairs);
    assert forall|name: Seq<char>| #[trigger]
        values_named(more, name) == if pair.0 == name {
            values_named(pairs, name).push(pair.1)
        } else {
            values_named(pairs, name)
        } by {
        lemma_values_named_push(pairs, pair, name);
    }
    if names.contains(pair.0) {
        // the name has one entry, and only its values change
        let at = names.index_of(pair.0);
        assert(map[at].0 == pair.0);
        assert(place_of(map, pair.0) == at);
        assert(merged(more) =~~= map.update(at, (pair.0, map[at].1.push(pair.1))));
    } else {
        // the name is new, and its only value is the one just given
        assert(!has_name(map, pair.0)) by {
            if has_name(map, pair.0) {
                assert(names[place_of(map, pair.0)] == pair.0);
            }
        }
        lemma_values_named_len(pairs, pair.0);
        assert(values_named(pairs, pair.0) =~= Seq::empty());
        assert(merged(more) =~~= map.push((pair.0, seq![pair.1])));
    }
}

/// An ordered multi-map from header names to the values given under them.
#[derive(Debug)]
pub struct SignedHeaders {
    pub entries: Vec<(String, Vec<String>)>,
}

impl View for SignedHeaders {
    type V = HeaderValues;

    open spec fn view(&self) -> HeaderValues {
        self.entries.deep_view()
    }
}

impl SignedHeaders {
    /// Whether no name is listed twice and every name has a value.
    pub open spec fn wf(&self) -> bool {
        well_formed(self@)
    }

    /// No headers at all.
    pub fn new() -> (headers: SignedHeaders)
        ensures
            headers@ == Seq::<(Seq<char>, Seq<Seq<char>>)>::empty(),
            headers.wf(),
    {
        SignedHeaders { entries: Vec::new() }
    }

    /// Where `name` is listed, if it is.
    pub fn find(&self, name: &str) -> (place: Option<usize>)
        ensures
            place is Some <==> has_name(self@, name@),
            place matches Some(i) ==> i < self@.len() && self@[i as int].0 == name@,
            place matches Some(i) ==> forall|j: int| 0 <= j < i ==> (#[trigger] self@[j]).0 != name@,
    {
        let wanted = String::from_str(name);
        let mut i: usize = 0;
        while i < self.entries.len()
            invariant
                i <= self.entries.len(),
                wanted@ == name@,
                forall|j: int| 0 <= j < i ==> (#[trigger] self@[j]).0 != name@,
            decreases self.entries.len() - i,
        {
            if self.entries[i].0 == wanted {
                assert(self@[i as int].0 == name@);
                return Some(i);
            }
            i += 1;
        }
        None
    }

    /// Records one more value under `name`.
    pub fn append(&mut self, name: &str, value: &str)
        requires
            old(self).wf(),
        ensures
            final(self)@ == with_value(old(self)@, name@, value@),
            final(self).wf(),
    {
        let ghost before = self@;
        match self.find(name) {
            Some(i) => {
                let (key, mut values) = self.entries.remove(i);
                values.push(String::from_str(value));
                self.entries.insert(i, (key, values));
                assert(self@ =~~= before.update(i as int, (name@, before[i as int].1.push(value@))));
            },
            None => {
                let mut values: Vec<String> = Vec::new();
                values.push(String::from_str(value));
                self.entries.push((String::from_str(name), values));
                assert(self@ =~~= before.push((name@, seq![value@])));
            },
        }
    }
}

/// Gathers the headers the signer added and those of the request under their
/// names, the signer's first. Nothing is dropped and nothing overwritten: a
/// name given in both has the values of both.
pub fn merge_headers(signed: &Vec<(String, String)>, canonical: &Vec<(String, String)>) -> (headers:
    SignedHeaders)
    ensures
        headers@ == merged(signed.deep_view() + canonical.deep_view()),
        headers.wf(),
{
    let ghost all = signed.deep_view() + canonical.deep_view();
    let mut headers = SignedHeaders::new();
    let mut i: usize = 0;
    while i < signed.len()
        invariant
            i <= signed.len(),
            all == signed.deep_view() + canonical.deep_view(),
            headers@ == merged(all.take(i as int)),
            headers.wf(),
        decreases signed.len() - i,
    {
        proof {
            assert(all.take(i + 1) =~= all.take(i as int).push(all[i as int]));
            lemma_merged_push(all.take(i as int), all[i as int]);
        }
        headers.append(signed[i].0.as_str(), signed[i].1.as_str());
        i += 1;
    }
    let mut j: usize = 0;
    while j < canonical.len()
        invariant
            j <= canonical.len(),
            i == signed.len(),
            all == signed.deep_view() + canonical.deep_view(),
            headers@ == merged(all.take(i + j)),
            headers.wf(),
        decreases canonical.len() - j,
    {
        proof {
            assert(all.take(i + j + 1) =~= all.take(i + j).push(all[i + j]));
            lemma_merged_push(all.take(i + j), all[i + j]);
        }
        headers.append(canonical[j].0.as_str(), canonical[j].1.as_str());
        j += 1;
    }
    assert(all.take(i + j) =~= all);
    headers
}

/// Whether `map` lists `value` among the values of `name`.
pub open spec fn lists(map: HeaderValues, name: Seq<char>, value: Seq<char>) -> bool {
    exists|j: int| 0 <= j < map.len() && (#[trigger] map[j]).0 == name && map[j].1.contains(value)
}

/// How many values `map` holds, over all names.
pub open spec fn value_count(map: HeaderValues) -> nat
    decreases map.len(),
{
    if map.len() == 0 {
        0
    } else {
        value_count(map.drop_last()) + map.last().1.len()
    }
}

/// Every pair that is gathered is listed: its value stands under its name.
pub proof fn lemma_merged_lists_every_pair(pairs: HeaderPairs, i: int)
    requires
        0 <= i < pairs.len(),
    ensures
        lists(merged(pairs), pairs[i].0, pairs[i].1),
{
    let pair = pairs[i];
    let names = names_in_order(pairs);
    lemma_names_in_order(pairs);
    assert(names.contains(pair.0));
    let j = names.index_of(pair.0);
    let kept = pairs.filter(is_named(pair.0));
    pairs.lemma_filter_contains_rev(is_named(pair.0), pair);
    let k = kept.index_of(pair);
    assert(kept.map_values(value_of())[k] == pair.1);
    assert(merged(pairs)[j].1.contains(pair.1));
}

proof fn lemma_value_count_update(map: HeaderValues, place: int, entry: (Seq<char>, Seq<Seq<char>>))
    requires
        0 <= place < map.len(),
    ensures
        value_count(map.update(place, entry)) + map[place].1.len() == value_count(map)
            + entry.1.len(),
    decreases map.len(),
{
    let changed = map.update(place, entry);
    if place == map.len() - 1 {
        assert(changed.drop_last() =~= map.drop_last());
    } else {
        assert(changed.drop_last() =~= map.drop_last().update(place, entry));
        lemma_value_count_update(map.drop_last(), place, entry);
    }
}

/// Gathering holds as many values as there were pairs.
pub proof fn lemma_merged_value_count(pairs: HeaderPairs)
    ensures
        value_count(merged(pairs)) == pairs.len(),
    decreases pairs.len(),
{
    if pairs.len() > 0 {
        let init = pairs.drop_last();
        let last = pairs.last();
        let map = merged(init);
        assert(init.push(last) =~= pairs);
        lemma_merged_value_count(init);
        lemma_merged_push(init, last);
        if has_name(map, last.0) {
            let place = place_of(map, last.0);
            lemma_value_count_update(map, place, (last.0, map[place].1.push(last.1)));
        } else {
            assert(map.push((last.0, seq![last.1])).drop_last() =~= map);
        }
    }
}

/// Gathering more pairs lists at least the names of fewer: the names of a
/// part of the pairs are among the names of all of them.
pub proof fn lemma_names_of_part(part: HeaderPairs, all: HeaderPairs)
    requires
        forall|i: int| 0 <= i < part.len() ==> all.contains(#[trigger] part[i]),
    ensures
        names_in_order(part).len() <= names_in_order(all).len(),
{
    let few = names_in_order(part);
    let many = names_in_order(all);
    lemma_names_in_order(part);
    lemma_names_in_order(all);
    assert forall|name: Seq<char>| few.to_set().contains(name) implies many.to_set().contains(
        name,
    ) by {
        // a pair of the part that carries the name is also among all pairs
        let i = choose|i: int| 0 <= i < part.len() && (#[trigger] part[i]).0 == name;
        let j = all.index_of(part[i]);
        assert(all[j].0 == name);
    }
    few.unique_seq_to_set();
    many.unique_seq_to_set();
    vstd::seq_lib::seq_to_set_is_finite(many);
    vstd::set_lib::lemma_len_subset(few.to_set(), many.to_set());
}

/// Whether no two pairs share a name.
pub open spec fn names_differ(pairs: HeaderPairs) -> bool {
    forall|i: int, j: int|
        0 <= i < j < pairs.len() ==> (#[trigger] pairs[i]).0 != (#[trigger] pairs[j]).0
}

/// Where no two pairs share a name, there are as many names as pairs.
pub proof fn lemma_distinct_names_count(pairs: HeaderPairs)
    requires
        names_differ(pairs),
    ensures
        names_in_order(pairs).len() == pairs.len(),
    decreases pairs.len(),
{
    if pairs.len() > 0 {
        let init = pairs.drop_last();
        assert(names_differ(init)) by {
            assert forall|i: int, j: int| 0 <= i < j < init.len() implies (#[trigger] init[i]).0
                != (#[trigger] init[j]).0 by {
                assert(init[i] == pairs[i] && init[j] == pairs[j]);
            }
        }
        lemma_distinct_names_count(init);
        lemma_names_in_order(init);
        if carries(init, pairs.last().0) {
            // impossible: the last name would occur twice
            let i = choose|i: int| 0 <= i < init.len() && (#[trigger] init[i]).0 == pairs.last().0;
            assert(pairs[i].0 == pairs[pairs.len() - 1].0);
        }
    }
}

/// Nothing is lost when the signer's headers and the request's are gathered.
/// Every header of either source is listed under its name with its value; the
/// result lists at least as many names as either source has, which for a
/// source without repeated names is the number of its headers; and it holds
/// exactly as many values as both sources together, also where they share a
/// name.
pub proof fn lemma_merge_preserves_headers(signed: HeaderPairs, canonical: HeaderPairs)
    ensures
        forall|i: int|
            0 <= i < signed.len() ==> lists(
                merged(signed + canonical),
                (#[trigger] signed[i]).0,
                signed[i].1,
            ),
        forall|i: int|
            0 <= i < canonical.len() ==> lists(
                merged(signed + canonical),
                (#[trigger] canonical[i]).0,
                canonical[i].1,
            ),
        merged(signed + canonical).len() >= names_in_order(signed).len(),
        merged(signed + canonical).len() >= names_in_order(canonical).len(),
        names_differ(signed) ==> merged(signed + canonical).len() >= signed.len(),
        names_differ(canonical) ==> merged(signed + canonical).len() >= canonical.len(),
        value_count(merged(signed + canonical)) == signed.len() + canonical.len(),
        well_formed(merged(signed + canonical)),
{
    if names_differ(signed) {
        lemma_distinct_names_count(signed);
    }
    if names_differ(canonical) {
        lemma_distinct_names_count(canonical);
    }
    let all = signed + canonical;
    assert forall|i: int| 0 <= i < signed.len() implies lists(
        merged(all),
        (#[trigger] signed[i]).0,
        signed[i].1,
    ) by {
        lemma_merged_lists_every_pair(all, i);
    }
    assert forall|i: int| 0 <= i < canonical.len() implies lists(
        merged(all),
        (#[trigger] canonical[i]).0,
        canonical[i].1,
    ) by {
        lemma_merged_lists_every_pair(all, signed.len() + i);
    }
    assert forall|i: int| 0 <= i < signed.len() implies all.contains(#[trigger] signed[i]) by {
        assert(all[i] == signed[i]);
    }
    assert forall|i: int| 0 <= i < canonical.len() implies all.contains(
        #[trigger] canonical[i],
    ) by {
        assert(all[signed.len() + i] == canonical[i]);
    }
    lemma_names_of_part(signed, all);
    lemma_names_of_part(canonical, all);
    lemma_merged_well_formed(all);
    lemma_merged_value_count(all);
}

/// Each text as a JSON string literal.
pub open spec fn quoted(texts: Seq<Seq<char>>) -> Seq<Seq<char>> {
    texts.map_values(|text: Seq<char>| json_string(text))
}

/// The JSON array of the strings `values`, written without spaces.
pub open spec fn json_array(values: Seq<Seq<char>>) -> Seq<char> {
    "["@ + joined(quoted(values), ","@) + "]"@
}

/// One member of the JSON object: the name, a colon, the array of its values.
pub open spec fn json_member(entry: (Seq<char>, Seq<Seq<char>>)) -> Seq<char> {
    json_string(entry.0) + ":"@ + json_array(entry.1)
}

/// The JSON object that maps each name to the array of its values, in the
/// order of `map` and written without spaces. A single value is an array of
/// one.
pub open spec fn headers_json(map: HeaderValues) -> Seq<char> {
    "{"@ + joined(map.map_values(|entry: (Seq<char>, Seq<Seq<char>>)| json_member(entry)), ","@)
        + "}"@
}

/// Writes `values` as a JSON array of strings.
pub fn write_json_array(values: &Vec<String>) -> (text: String)
    ensures
        text@ == json_array(values.deep_view()),
{
    let mut literals: Vec<String> = Vec::new();
    let mut i: usize = 0;
    while i < values.len()
        invariant
            i <= values.len(),
            views(literals@) == quoted(values.deep_view()).take(i as int),
        decreases values.len() - i,
    {
        let literal = json_quote(values[i].as_str());
        proof {
            let all = quoted(values.deep_view());
            assert(all.take(i + 1) =~= all.take(i as int).push(literal@));
        }
        literals.push(literal);
        i += 1;
    }
    assert(quoted(values.deep_view()).take(i as int) =~= quoted(values.deep_view()));
    let mut text = String::from_str("[");
    text.append(join(&literals, ",").as_str());
    text.append("]");
    text
}

impl SignedHeaders {
    /// Writes the headers as the JSON object Vault expects: every name mapped to
    /// the array of its values.
    pub fn to_json(&self) -> (text: String)
        ensures
            text@ == headers_json(self@),
    {
        let ghost members = self@.map_values(
            |entry: (Seq<char>, Seq<Seq<char>>)| json_member(entry),
        );
        let mut written: Vec<String> = Vec::new();
        let mut i: usize = 0;
        while i < self.entries.len()
            invariant
                i <= self.entries.len(),
                members == self@.map_values(
                    |entry: (Seq<char>, Seq<Seq<char>>)| json_member(entry),
                ),
                views(written@) == members.take(i as int),
            decreases self.entries.len() - i,
        {
            let mut member = json_quote(self.entries[i].0.as_str());
            member.append(":");
            member.append(write_json_array(&self.entries[i].1).as_str());
            proof {
                assert(self@[i as int] == (
                    self.entries@[i as int].0@,
                    self.entries@[i as int].1.deep_view(),
                ));
                assert(members.take(i + 1) =~= members.take(i as int).push(member@));
            }
            written.push(member);
            i += 1;
        }
        assert(members.take(i as int) =~= members);
        let mut text = String::from_str("{");
        text.append(join(&written, ",").as_str());
        text.append("}");
        text
    }
}

} // verus!
