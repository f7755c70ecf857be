//! The evaluation context: ambient information for flag evaluation, carrying
//! an optional targeting key and a mapping of named custom field values, with
//! a precedence merge in which values already set always win.

use vstd::prelude::*;

use crate::field_value::EvaluationContextFieldValue;

verus! {

/// The mapping a sequence of key/value entries stands for: later entries
/// take precedence (a well-formed map never has two entries for one key).
spec fn map_of(s: Seq<(String, EvaluationContextFieldValue)>) -> Map<
    Seq<char>,
    EvaluationContextFieldValue,
>
    decreases s.len(),
{
    if s.len() == 0 {
        Map::empty()
    } else {
        map_of(s.drop_last()).insert(s.last().0@, s.last().1)
    }
}

/// No two entries share a key.
spec fn unique_keys(s: Seq<(String, EvaluationContextFieldValue)>) -> bool {
    forall|i: int, j: int| 0 <= i < j < s.len() ==> s[i].0@ != s[j].0@
}

/// What `map_of` contains: a key is bound exactly when some entry carries
/// it, and (with no repeated keys) each entry's key is bound to its value.
proof fn lemma_map_of_characterize(s: Seq<(String, EvaluationContextFieldValue)>)
    requires
        unique_keys(s),
    ensures
        forall|k: Seq<char>| #[trigger] map_of(s).contains_key(k) ==> exists|i: int|
            0 <= i < s.len() && s[i].0@ == k,
        forall|i: int| 0 <= i < s.len() ==> map_of(s).contains_key(#[trigger] s[i].0@)
            && map_of(s)[s[i].0@] == s[i].1,
    decreases s.len(),
{
    if s.len() > 0 {
        let t = s.drop_last();
        assert(forall|i: int| 0 <= i < t.len() ==> t[i] == s[i]);
        assert(unique_keys(t));
        lemma_map_of_characterize(t);
        assert(map_of(s) == map_of(t).insert(s.last().0@, s.last().1));
        assert forall|k: Seq<char>| #[trigger] map_of(s).contains_key(k) implies exists|i: int|
            0 <= i < s.len() && s[i].0@ == k by {
            if k == s.last().0@ {
                assert(0 <= s.len() - 1 < s.len() && s[s.len() - 1].0@ == k);
            } else {
                assert(map_of(t).contains_key(k));
                let i = choose|i: int| 0 <= i < t.len() && t[i].0@ == k;
                assert(t[i].0@ == k);
                assert(0 <= i < s.len() && s[i].0@ == k);
            }
        };
        assert forall|i: int| 0 <= i < s.len() implies map_of(s).contains_key(#[trigger] s[i].0@)
            && map_of(s)[s[i].0@] == s[i].1 by {
            if i == s.len() - 1 {
                assert(map_of(s)[s.last().0@] == s.last().1);
            } else {
                assert(t[i] == s[i]);
                assert(map_of(t).contains_key(s[i].0@) && map_of(t)[s[i].0@] == s[i].1);
                assert(s[i].0@ != s.last().0@);
            }
        };
    }
}

/// With no repeated keys, the mapping binds exactly as many keys as there
/// are entries.
proof fn lemma_map_of_dom_len(s: Seq<(String, EvaluationContextFieldValue)>)
    requires
        unique_keys(s),
    ensures
        map_of(s).dom().finite(),
        map_of(s).dom().len() == s.len(),
    decreases s.len(),
{
    if s.len() == 0 {
        assert(map_of(s).dom() =~= Set::<Seq<char>>::empty());
    } else {
        let t = s.drop_last();
        assert(forall|i: int| 0 <= i < t.len() ==> t[i] == s[i]);
        assert(unique_keys(t));
        lemma_map_of_dom_len(t);
        lemma_map_of_characterize(t);
        assert(!map_of(t).contains_key(s.last().0@)) by {
            if map_of(t).contains_key(s.last().0@) {
                let i = choose|i: int| 0 <= i < t.len() && t[i].0@ == s.last().0@;
                assert(s[i].0@ == s[s.len() - 1].0@);
            }
        };
        assert(map_of(s).dom() =~= map_of(t).dom().insert(s.last().0@));
    }
}

/// The custom fields of an evaluation context: a mapping from unique text
/// keys to field values. Insertion replaces the value bound to an existing
/// key; insertion order carries no meaning for the mapping's content.
#[derive(PartialEq)]
pub struct FieldMap {
    entries: Vec<(String, EvaluationContextFieldValue)>,
}

impl View for FieldMap {
    type V = Map<Seq<char>, EvaluationContextFieldValue>;

    /// The mapping's mathematical content: keys, as character sequences, to
    /// the values bound to them.
    closed spec fn view(&self) -> Map<Seq<char>, EvaluationContextFieldValue> {
        map_of(self.entries@)
    }
}

impl FieldMap {
    /// Well-formed: no two entries share a key. Constructors establish this
    /// and every operation preserves it.
    pub closed spec fn wf(&self) -> bool {
        unique_keys(self.entries@)
    }

    /// An empty mapping.
    pub fn new() -> (r: FieldMap)
        ensures
            r@ == Map::<Seq<char>, EvaluationContextFieldValue>::empty(),
            r.wf(),
    {
        FieldMap { entries: Vec::new() }
    }

    /// The position of the first entry carrying `key`, if any.
    fn index_of(&self, key: &String) -> (r: Option<usize>)
        ensures
            match r {
                Some(i) => i < self.entries@.len() && self.entries@[i as int].0@ == key@,
                None => forall|j: int| 0 <= j < self.entries@.len()
                    ==> self.entries@[j].0@ != key@,
            },
    {
        let mut i: usize = 0;
        while i < self.entries.len()
            invariant
                i <= self.entries@.len(),
                forall|j: int| 0 <= j < i ==> self.entries@[j].0@ != key@,
            decreases self.entries@.len() - i,
        {
            if self.entries[i].0 == *key {
                return Some(i);
            }
            i += 1;
        }
        None
    }

    /// Whether `key` is bound.
    pub fn contains_key(&self, key: &str) -> (r: bool)
        requires
            self.wf(),
        ensures
            r == self@.contains_key(key@),
    {
        let owned: String = key.to_owned();
        proof {
            lemma_map_of_characterize(self.entries@);
        }
        match self.index_of(&owned) {
            Some(_) => true,
            None => false,
        }
    }

    /// The value bound to `key`, or `None` when `key` is not bound.
    pub fn get(&self, key: &str) -> (r: Option<&EvaluationContextFieldValue>)
        requires
            self.wf(),
        ensures
            match r {
                Some(v) => self@.contains_key(key@) && *v == self@[key@],
                None => !self@.contains_key(key@),
            },
    {
        let owned: String = key.to_owned();
        proof {
            lemma_map_of_characterize(self.entries@);
        }
        match self.index_of(&owned) {
            Some(i) => Some(&self.entries[i].1),
            None => None,
        }
    }

    /// How many keys are bound.
    pub fn len(&self) -> (r: usize)
        requires
            self.wf(),
        ensures
            r == self@.dom().len(),
    {
        proof {
            lemma_map_of_dom_len(self.entries@);
        }
        self.entries.len()
    }

    /// Bind `key` to `value`: a fresh key is added, the value of an already
    /// bound key is replaced. Insertion never fails.
    pub fn insert(&mut self, key: String, value: EvaluationContextFieldValue)
        requires
            old(self).wf(),
        ensures
            final(self).wf(),
            final(self)@ == old(self)@.insert(key@, value),
    {
        let ghost s = self.entries@;
        match self.index_of(&key) {
            Some(i) => {
                self.entries[i] = (key, value);
                proof {
                    let s2 = self.entries@;
                    assert(s2 == s.update(i as int, (key, value)));
                    assert forall|a: int, b: int| 0 <= a < b < s2.len() implies s2[a].0@
                        != s2[b].0@ by {
                        assert(s[a].0@ != s[b].0@);
                        if a == i as int {
                            assert(s2[a].0@ == s[a].0@ && s2[b] == s[b]);
                        } else if b == i as int {
                            assert(s2[a] == s[a] && s2[b].0@ == s[b].0@);
                        } else {
                            assert(s2[a] == s[a] && s2[b] == s[b]);
                        }
                    };
                    lemma_map_of_characterize(s);
                    lemma_map_of_characterize(s2);
                    assert(map_of(s2) =~= map_of(s).insert(key@, value)) by {
                        assert forall|k: Seq<char>| map_of(s2).contains_key(k) implies map_of(
                            s,
                        ).insert(key@, value).contains_key(k) by {
                            let j = choose|j: int| 0 <= j < s2.len() && s2[j].0@ == k;
                            if j != i as int {
                                assert(s[j].0@ == k);
                            }
                        };
                        assert forall|k: Seq<char>|
                            map_of(s).insert(key@, value).contains_key(k) implies map_of(
                            s2,
                        ).contains_key(k) by {
                            if k == key@ {
                                assert(s2[i as int].0@ == k);
                            } else {
                                let j = choose|j: int| 0 <= j < s.len() && s[j].0@ == k;
                                assert(s2[j].0@ == k);
                            }
                        };
                        assert forall|k: Seq<char>| map_of(s2).contains_key(k) implies map_of(s2)[k]
                            == map_of(s).insert(key@, value)[k] by {
                            let j = choose|j: int| 0 <= j < s2.len() && s2[j].0@ == k;
                            assert(map_of(s2)[k] == s2[j].1);
                            if j == i as int {
                                assert(k == key@);
                            } else {
                                assert(s[j].0@ == k);
                                assert(map_of(s)[k] == s[j].1);
                                assert(s[j].0@ != s[i as int].0@);
                            }
                        };
                    };
                }
            },
            None => {
                self.entries.push((key, value));
                proof {
                    let s2 = self.entries@;
                    assert(s2.drop_last() =~= s);
                    assert(s2.last() == (key, value));
                    assert forall|a: int, b: int| 0 <= a < b < s2.len() implies s2[a].0@
                        != s2[b].0@ by {
                        if b == s2.len() - 1 {
                            assert(s[a].0@ != key@);
                        } else {
                            assert(s[a].0@ != s[b].0@);
                        }
                    };
                    assert(map_of(s2) == map_of(s).insert(key@, value));
                }
            },
        }
    }

    /// Copy each binding of `other` whose key is not yet bound here; keys
    /// already bound keep their value, whatever `other` binds them to.
    pub fn merge_missing(&mut self, other: &FieldMap)
        requires
            old(self).wf(),
            other.wf(),
        ensures
            final(self).wf(),
            final(self)@ == other@.union_prefer_right(old(self)@),
    {
        let ghost m0 = self@;
        let ghost os = other.entries@;
        let mut i: usize = 0;
        while i < other.entries.len()
            invariant
                i <= os.len(),
                os == other.entries@,
                unique_keys(os),
                self.wf(),
                self@ == map_of(os.take(i as int)).union_prefer_right(m0),
            decreases os.len() - i,
        {
            let ghost prefix = os.take(i as int);
            proof {
                assert(os.take(i as int + 1).drop_last() =~= prefix);
                assert(os.take(i as int + 1).last() == os[i as int]);
                assert(map_of(os.take(i as int + 1)) == map_of(prefix).insert(
                    os[i as int].0@,
                    os[i as int].1,
                ));
                assert(forall|j: int| 0 <= j < prefix.len() ==> prefix[j] == os[j]);
                assert(unique_keys(prefix));
                lemma_map_of_characterize(prefix);
            }
            let pair = &other.entries[i];
            if self.contains_key_owned(&pair.0) {
                proof {
                    // The key is already bound: since `other` has no repeated
                    // keys it is not in the prefix, so it is bound by `m0`,
                    // which takes precedence either way.
                    assert(!map_of(prefix).contains_key(os[i as int].0@)) by {
                        if map_of(prefix).contains_key(os[i as int].0@) {
                            let j = choose|j: int|
                                0 <= j < prefix.len() && prefix[j].0@ == os[i as int].0@;
                            assert(os[j].0@ == os[i as int].0@);
                        }
                    };
                    assert(m0.contains_key(os[i as int].0@));
                    assert(map_of(prefix).insert(os[i as int].0@, os[i as int].1)
                        .union_prefer_right(m0) =~= map_of(prefix).union_prefer_right(m0));
                }
            } else {
                self.insert(pair.0.clone(), pair.1.clone());
                proof {
                    // The key was absent from both `m0` and the prefix, so
                    // inserting it commutes with the union.
                    assert(!m0.contains_key(os[i as int].0@));
                    assert(map_of(prefix).insert(os[i as int].0@, os[i as int].1)
                        .union_prefer_right(m0) =~= map_of(prefix).union_prefer_right(m0).insert(
                        os[i as int].0@,
                        os[i as int].1,
                    ));
                }
            }
            i += 1;
        }
        proof {
            assert(os.take(os.len() as int) =~= os);
        }
    }

    /// Every binding, as key/value pairs: each pair is bound in the mapping,
    /// every bound key appears exactly once, and there are as many pairs as
    /// bound keys.
    pub fn entries(&self) -> (r: Vec<(String, EvaluationContextFieldValue)>)
        requires
            self.wf(),
        ensures
            r@.len() == self@.dom().len(),
            forall|i: int| 0 <= i < r@.len() ==> self@.contains_key(#[trigger] r@[i].0@)
                && self@[r@[i].0@] == r@[i].1,
            forall|i: int, j: int| 0 <= i < j < r@.len() ==> r@[i].0@ != r@[j].0@,
    {
        let mut entries: Vec<(String, EvaluationContextFieldValue)> = Vec::new();
        let mut i: usize = 0;
        while i < self.entries.len()
            invariant
                i <= self.entries@.len(),
                entries@ == self.entries@.take(i as int),
            decreases self.entries@.len() - i,
        {
            let pair = &self.entries[i];
            entries.push((pair.0.clone(), pair.1.clone()));
            proof {
                assert(entries@ =~= self.entries@.take(i as int + 1));
            }
            i += 1;
        }
        proof {
            assert(self.entries@.take(self.entries@.len() as int) =~= self.entries@);
            lemma_map_of_characterize(self.entries@);
            lemma_map_of_dom_len(self.entries@);
        }
        entries
    }

    /// Whether `key` is bound, for an already owned key.
    fn contains_key_owned(&self, key: &String) -> (r: bool)
        requires
            self.wf(),
        ensures
            r == self@.contains_key(key@),
    {
        proof {
            lemma_map_of_characterize(self.entries@);
        }
        match self.index_of(key) {
            Some(_) => true,
            None => false,
        }
    }
}

impl Clone for FieldMap {
    /// The clone has the same mathematical content as the original.
    fn clone(&self) -> (r: Self)
        ensures
            r@ == self@,
            self.wf() ==> r.wf(),
    {
        let mut entries: Vec<(String, EvaluationContextFieldValue)> = Vec::new();
        let mut i: usize = 0;
        while i < self.entries.len()
            invariant
                i <= self.entries@.len(),
                entries@ == self.entries@.take(i as int),
            decreases self.entries@.len() - i,
        {
            let pair = &self.entries[i];
            entries.push((pair.0.clone(), pair.1.clone()));
            proof {
                assert(entries@ =~= self.entries@.take(i as int + 1));
            }
            i += 1;
        }
        proof {
            assert(self.entries@.take(self.entries@.len() as int) =~= self.entries@);
        }
        FieldMap { entries }
    }
}

/// The targeting key a precedence merge leaves behind: the existing key
/// wins; only a missing one is adopted from the other context.
pub open spec fn merged_targeting_key(own: Option<String>, other: Option<String>) -> Option<
    String,
> {
    if own is Some {
        own
    } else {
        other
    }
}

/// The field mapping a precedence merge leaves behind: every binding of
/// `own` is kept as it is, and bindings of `other` fill the remaining keys.
pub open spec fn merged_fields(
    own: Map<Seq<char>, EvaluationContextFieldValue>,
    other: Map<Seq<char>, EvaluationContextFieldValue>,
) -> Map<Seq<char>, EvaluationContextFieldValue> {
    other.union_prefer_right(own)
}

/// The evaluation context provides ambient information for the purposes of
/// flag evaluation: an optional targeting key identifying the subject, and
/// custom fields such as data about the end user, the application or the
/// host, which providers may use for rule-based or fractional evaluation.
#[derive(PartialEq)]
pub struct EvaluationContext {
    /// The targeting key uniquely identifies the subject (end user, or
    /// client service) of a flag evaluation.
    pub targeting_key: Option<String>,
    /// The custom fields: unique text keys bound to typed field values.
    pub custom_fields: FieldMap,
}

impl EvaluationContext {
    /// Well-formed: the custom fields hold no repeated key.
    pub open spec fn wf(&self) -> bool {
        self.custom_fields.wf()
    }

    /// Set the targeting key, keeping the custom fields: builder-style
    /// construction.
    pub fn with_targeting_key(self, targeting_key: String) -> (r: Self)
        ensures
            r.targeting_key == Some(targeting_key),
            r.custom_fields == self.custom_fields,
    {
        Self { targeting_key: Some(targeting_key), ..self }
    }

    /// Bind `key` to `value` among the custom fields and return the updated
    /// context: builder-style insertion. An existing binding of `key` is
    /// replaced.
    pub fn with_custom_field(self, key: String, value: EvaluationContextFieldValue) -> (r: Self)
        requires
            self.wf(),
        ensures
            r.wf(),
            r.targeting_key == self.targeting_key,
            r.custom_fields@ == self.custom_fields@.insert(key@, value),
    {
        let mut updated = self;
        updated.add_custom_field(key, value);
        updated
    }

    /// Bind `key` to `value` among the custom fields, in place. An existing
    /// binding of `key` is replaced. Insertion never fails.
    pub fn add_custom_field(&mut self, key: String, value: EvaluationContextFieldValue)
        requires
            old(self).wf(),
        ensures
            final(self).wf(),
            final(self).targeting_key == old(self).targeting_key,
            final(self).custom_fields@ == old(self).custom_fields@.insert(key@, value),
    {
        self.custom_fields.insert(key, value);
    }

    /// Merge `other` into `self` where the corresponding part is not set:
    /// a missing targeting key is adopted from `other`, and each binding of
    /// `other` whose key is absent here is copied in. Everything already set
    /// on `self` wins, whatever `other` holds. Merging never fails.
    pub fn merge_missing(&mut self, other: &Self)
        requires
            old(self).wf(),
            other.wf(),
        ensures
            final(self).wf(),
            final(self).targeting_key == merged_targeting_key(
                old(self).targeting_key,
                other.targeting_key,
            ),
            final(self).custom_fields@ == merged_fields(
                old(self).custom_fields@,
                other.custom_fields@,
            ),
    {
        if self.targeting_key.is_none() {
            if let Some(targeting_key) = &other.targeting_key {
                self.targeting_key = Some(targeting_key.clone());
            }
        }
        self.custom_fields.merge_missing(&other.custom_fields);
    }
}

impl Default for EvaluationContext {
    /// The empty context: no targeting key, no custom fields.
    fn default() -> (r: Self)
        ensures
            r.targeting_key is None,
            r.custom_fields@ == Map::<Seq<char>, EvaluationContextFieldValue>::empty(),
            r.wf(),
    {
        EvaluationContext { targeting_key: None, custom_fields: FieldMap::new() }
    }
}

impl Clone for EvaluationContext {
    /// The clone carries the same targeting key and the same field mapping.
    fn clone(&self) -> (r: Self)
        ensures
            r.targeting_key == self.targeting_key,
            r.custom_fields@ == self.custom_fields@,
            self.wf() ==> r.wf(),
    {
        EvaluationContext {
            targeting_key: match &self.targeting_key {
                Some(targeting_key) => Some(targeting_key.clone()),
                None => None,
            },
            custom_fields: self.custom_fields.clone(),
        }
    }
}

/// Law: binding the same key twice leaves exactly one binding under that
/// key, holding the latest value.
pub proof fn lemma_insert_same_key_replaces(
    fields: Map<Seq<char>, EvaluationContextFieldValue>,
    key: Seq<char>,
    first: EvaluationContextFieldValue,
    latest: EvaluationContextFieldValue,
)
    ensures
        fields.insert(key, first).insert(key, latest) == fields.insert(key, latest),
        fields.insert(key, first).insert(key, latest)[key] == latest,
{
    assert(fields.insert(key, first).insert(key, latest) =~= fields.insert(key, latest));
}

/// Law: merging with the empty context is a no-op — everything stays as it
/// was.
pub proof fn lemma_merge_missing_with_empty(
    targeting_key: Option<String>,
    fields: Map<Seq<char>, EvaluationContextFieldValue>,
)
    ensures
        merged_targeting_key(targeting_key, None) == targeting_key,
        merged_fields(fields, Map::<Seq<char>, EvaluationContextFieldValue>::empty()) == fields,
{
    assert(merged_fields(fields, Map::<Seq<char>, EvaluationContextFieldValue>::empty())
        =~= fields);
}

/// Law: merging another context into the empty one adopts it whole.
pub proof fn lemma_merge_missing_into_empty(
    targeting_key: Option<String>,
    fields: Map<Seq<char>, EvaluationContextFieldValue>,
)
    ensures
        merged_targeting_key(None, targeting_key) == targeting_key,
        merged_fields(Map::<Seq<char>, EvaluationContextFieldValue>::empty(), fields) == fields,
{
    assert(merged_fields(Map::<Seq<char>, EvaluationContextFieldValue>::empty(), fields)
        =~= fields);
}

/// Law: merging the same context in twice changes nothing the second time —
/// the first merge already filled every gap the other context could fill.
pub proof fn lemma_merge_missing_idempotent(
    own_targeting_key: Option<String>,
    own_fields: Map<Seq<char>, EvaluationContextFieldValue>,
    other_targeting_key: Option<String>,
    other_fields: Map<Seq<char>, EvaluationContextFieldValue>,
)
    ensures
        merged_targeting_key(
            merged_targeting_key(own_targeting_key, other_targeting_key),
            other_targeting_key,
        ) == merged_targeting_key(own_targeting_key, other_targeting_key),
        merged_fields(merged_fields(own_fields, other_fields), other_fields) == merged_fields(
            own_fields,
            other_fields,
        ),
{
    assert(merged_fields(merged_fields(own_fields, other_fields), other_fields) =~= merged_fields(
        own_fields,
        other_fields,
    ));
}

} // verus!
