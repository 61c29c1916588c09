//! The ordered string-keyed mapping that both assemblers accumulate into.
//!
//! `KvList` is an association list with unique keys: insertion order is kept
//! for rendering, while the mathematical model is the unordered `Map` from
//! key to value view, matching the structural equality the document format
//! uses.

use vstd::prelude::*;
use crate::bsonx::{
    array_into_bson, bool_into_bson, bson_array, bson_bool, bson_doc_entries, bson_i64,
    bson_is_document, document_into_bson, entries_of, i64_into_bson, insert_entry, new_document,
};

verus! {

/// An ordered mapping from string key to `V`, each key appearing once.
pub struct KvList<V> {
    pub entries: Vec<(String, V)>,
}

impl<V: View> KvList<V> {
    /// Keys are pairwise distinct.
    pub open spec fn wf(self) -> bool {
        forall|i: int, j: int|
            0 <= i < j < self.entries@.len() ==> self.entries@[i].0@ != self.entries@[j].0@
    }

    pub open spec fn list_model(s: Seq<(String, V)>) -> Map<Seq<char>, V::V>
        decreases s.len(),
    {
        if s.len() == 0 {
            Map::empty()
        } else {
            Self::list_model(s.drop_last()).insert(s.last().0@, s.last().1@)
        }
    }

    /// The unordered mathematical content of the list.
    pub open spec fn model(self) -> Map<Seq<char>, V::V> {
        Self::list_model(self.entries@)
    }

    pub proof fn lemma_model_absent(s: Seq<(String, V)>, k: Seq<char>)
        requires
            forall|i: int| 0 <= i < s.len() ==> s[i].0@ != k,
        ensures
            !Self::list_model(s).dom().contains(k),
        decreases s.len(),
    {
        if s.len() > 0 {
            Self::lemma_model_absent(s.drop_last(), k);
        }
    }

    pub proof fn lemma_model_at(s: Seq<(String, V)>, i: int)
        requires
            0 <= i < s.len(),
            forall|m: int, n: int| 0 <= m < n < s.len() ==> s[m].0@ != s[n].0@,
        ensures
            Self::list_model(s).dom().contains(s[i].0@),
            Self::list_model(s)[s[i].0@] == s[i].1@,
        decreases s.len(),
    {
        if i == s.len() - 1 {
        } else {
            Self::lemma_model_at(s.drop_last(), i);
        }
    }

    pub proof fn lemma_model_update(s: Seq<(String, V)>, i: int, v: V)
        requires
            0 <= i < s.len(),
            forall|m: int, n: int| 0 <= m < n < s.len() ==> s[m].0@ != s[n].0@,
        ensures
            Self::list_model(s.update(i, (s[i].0, v)))
                == Self::list_model(s).insert(s[i].0@, v@),
        decreases s.len(),
    {
        let t = s.update(i, (s[i].0, v));
        if i == s.len() - 1 {
            assert(t.drop_last() =~= s.drop_last());
            assert(Self::list_model(t) =~= Self::list_model(s).insert(s[i].0@, v@));
        } else {
            Self::lemma_model_update(s.drop_last(), i, v);
            assert(t.drop_last() =~= s.drop_last().update(i, (s[i].0, v)));
            Self::lemma_model_at(s, i);
            assert(Self::list_model(t) =~= Self::list_model(s).insert(s[i].0@, v@));
        }
    }

    pub proof fn lemma_model_push(s: Seq<(String, V)>, key: String, v: V)
        ensures
            Self::list_model(s.push((key, v))) == Self::list_model(s).insert(key@, v@),
    {
        assert(s.push((key, v)).drop_last() =~= s);
    }

    pub fn new() -> (r: Self)
        ensures
            r.wf(),
            r.model() == Map::<Seq<char>, V::V>::empty(),
            r.entries@.len() == 0,
    {
        KvList { entries: Vec::new() }
    }

    /// The position of `key`, if it is present.
    pub fn index_of(&self, key: &String) -> (r: Option<usize>)
        ensures
            match r {
                Some(i) => i < self.entries@.len() && self.entries@[i as int].0@ == key@,
                None => forall|i: int| 0 <= i < self.entries@.len() ==> self.entries@[i].0@ != key@,
            },
    {
        let mut i: usize = 0;
        while i < self.entries.len()
            invariant
                i <= self.entries@.len(),
                forall|m: int| 0 <= m < i ==> self.entries@[m].0@ != key@,
            decreases self.entries@.len() - i,
        {
            if self.entries[i].0 == *key {
                return Some(i);
            }
            i += 1;
        }
        None
    }

    /// Bind `key` to `v`: overwrite in place when present, append otherwise.
    pub fn upsert(&mut self, key: String, v: V)
        requires
            old(self).wf(),
        ensures
            final(self).wf(),
            final(self).model() == old(self).model().insert(key@, v@),
            forall|n: int|
                0 <= n < final(self).entries@.len() ==> (#[trigger] final(self).entries@[n].1) == v
                    || (n < old(self).entries@.len() && final(self).entries@[n] == old(
                    self,
                ).entries@[n]),
    {
        match self.index_of(&key) {
            Some(i) => {
                let (k, _prior) = self.entries.remove(i);
                self.entries.insert(i, (k, v));
                proof {
                    assert(self.entries@ =~= old(self).entries@.update(
                        i as int,
                        (old(self).entries@[i as int].0, v),
                    ));
                    Self::lemma_model_update(old(self).entries@, i as int, v);
                }
            },
            None => {
                self.entries.push((key, v));
                proof {
                    Self::lemma_model_push(old(self).entries@, key, v);
                }
            },
        }
    }
}

impl<V: View> View for KvList<V> {
    type V = Map<Seq<char>, V::V>;

    open spec fn view(&self) -> Map<Seq<char>, V::V> {
        self.model()
    }
}

/// One value bound to a key inside an operator sub-document.
pub enum Leaf {
    /// A serialized database value.
    Value(bson::Bson),
    /// A boolean marker, as used by existence tests and timestamp marks.
    Flag(bool),
    /// A signed integer delta.
    Delta(i64),
    /// A plain ordered sequence of values, as a membership list.
    Array(Vec<bson::Bson>),
    /// An ordered accumulation list, rendered under an "each" key.
    List(Vec<bson::Bson>),
}

/// The mathematical content of a `Leaf`.
pub enum LeafModel {
    Value(bson::Bson),
    Flag(bool),
    Delta(i64),
    Array(Seq<bson::Bson>),
    List(Seq<bson::Bson>),
}

impl View for Leaf {
    type V = LeafModel;

    open spec fn view(&self) -> LeafModel {
        match self {
            Leaf::Value(b) => LeafModel::Value(*b),
            Leaf::Flag(f) => LeafModel::Flag(*f),
            Leaf::Delta(i) => LeafModel::Delta(*i),
            Leaf::Array(v) => LeafModel::Array(v@),
            Leaf::List(v) => LeafModel::List(v@),
        }
    }
}

/// The model of a whole builder document: section key to sub-document,
/// sub-document key to leaf.
pub type DocModel = Map<Seq<char>, Map<Seq<char>, LeafModel>>;

/// The sub-document at `t`, or the empty one if `t` is unbound.
pub open spec fn sub_of(m: DocModel, t: Seq<char>) -> Map<Seq<char>, LeafModel> {
    if m.dom().contains(t) {
        m[t]
    } else {
        Map::empty()
    }
}

/// Bind `s` to `l` inside the sub-document at `t`, creating that
/// sub-document if absent and overwriting any prior binding of `s`.
pub open spec fn spec_set(m: DocModel, t: Seq<char>, s: Seq<char>, l: LeafModel) -> DocModel {
    m.insert(t, sub_of(m, t).insert(s, l))
}

/// The list after appending `b` at `s`: extended in call order when a list
/// is already there, started fresh otherwise.
pub open spec fn pushed_list(sub: Map<Seq<char>, LeafModel>, s: Seq<char>, b: bson::Bson) -> Seq<
    bson::Bson,
> {
    if sub.dom().contains(s) {
        match sub[s] {
            LeafModel::List(l) => l.push(b),
            _ => seq![b],
        }
    } else {
        seq![b]
    }
}

/// Append `b` to the accumulation list at `(t, s)`.
pub open spec fn spec_push(m: DocModel, t: Seq<char>, s: Seq<char>, b: bson::Bson) -> DocModel {
    m.insert(t, sub_of(m, t).insert(s, LeafModel::List(pushed_list(sub_of(m, t), s, b))))
}

/// Law: operators applied to two distinct top-level keys yield two
/// independent entries, and the order of the two calls does not affect
/// the resulting document.
pub proof fn lemma_distinct_top_keys_commute(
    m: DocModel,
    t1: Seq<char>,
    s1: Seq<char>,
    l1: LeafModel,
    t2: Seq<char>,
    s2: Seq<char>,
    l2: LeafModel,
)
    requires
        t1 != t2,
    ensures
        spec_set(spec_set(m, t1, s1, l1), t2, s2, l2) == spec_set(
            spec_set(m, t2, s2, l2),
            t1,
            s1,
            l1,
        ),
        spec_set(spec_set(m, t1, s1, l1), t2, s2, l2).dom().contains(t1),
        spec_set(spec_set(m, t1, s1, l1), t2, s2, l2).dom().contains(t2),
{
    assert(spec_set(spec_set(m, t1, s1, l1), t2, s2, l2) =~= spec_set(
        spec_set(m, t2, s2, l2),
        t1,
        s1,
        l1,
    ));
}

/// Law: within one top-level entry, calls on two distinct keys land in
/// independent bindings and commute.
pub proof fn lemma_distinct_sub_keys_commute(
    m: DocModel,
    t: Seq<char>,
    s1: Seq<char>,
    l1: LeafModel,
    s2: Seq<char>,
    l2: LeafModel,
)
    requires
        s1 != s2,
    ensures
        spec_set(spec_set(m, t, s1, l1), t, s2, l2) == spec_set(spec_set(m, t, s2, l2), t, s1, l1),
        sub_of(spec_set(spec_set(m, t, s1, l1), t, s2, l2), t).dom().contains(s1),
        sub_of(spec_set(spec_set(m, t, s1, l1), t, s2, l2), t).dom().contains(s2),
{
    assert(sub_of(spec_set(m, t, s1, l1), t).insert(s2, l2) =~= sub_of(
        spec_set(m, t, s2, l2),
        t,
    ).insert(s1, l1));
    assert(spec_set(spec_set(m, t, s1, l1), t, s2, l2) =~= spec_set(
        spec_set(m, t, s2, l2),
        t,
        s1,
        l1,
    ));
}

/// Law: appends to two distinct keys of one top-level entry land in
/// independent lists and commute.
pub proof fn lemma_push_distinct_sub_keys_commute(
    m: DocModel,
    t: Seq<char>,
    s1: Seq<char>,
    b1: bson::Bson,
    s2: Seq<char>,
    b2: bson::Bson,
)
    requires
        s1 != s2,
    ensures
        spec_push(spec_push(m, t, s1, b1), t, s2, b2) == spec_push(
            spec_push(m, t, s2, b2),
            t,
            s1,
            b1,
        ),
{
    assert(sub_of(spec_push(m, t, s1, b1), t).insert(
        s2,
        LeafModel::List(pushed_list(sub_of(spec_push(m, t, s1, b1), t), s2, b2)),
    ) =~= sub_of(spec_push(m, t, s2, b2), t).insert(
        s1,
        LeafModel::List(pushed_list(sub_of(spec_push(m, t, s2, b2), t), s1, b1)),
    ));
    assert(spec_push(spec_push(m, t, s1, b1), t, s2, b2) =~= spec_push(
        spec_push(m, t, s2, b2),
        t,
        s1,
        b1,
    ));
}

/// Law: appends under two distinct top-level keys are independent and
/// commute.
pub proof fn lemma_push_distinct_top_keys_commute(
    m: DocModel,
    t1: Seq<char>,
    s1: Seq<char>,
    b1: bson::Bson,
    t2: Seq<char>,
    s2: Seq<char>,
    b2: bson::Bson,
)
    requires
        t1 != t2,
    ensures
        spec_push(spec_push(m, t1, s1, b1), t2, s2, b2) == spec_push(
            spec_push(m, t2, s2, b2),
            t1,
            s1,
            b1,
        ),
{
    assert(spec_push(spec_push(m, t1, s1, b1), t2, s2, b2) =~= spec_push(
        spec_push(m, t2, s2, b2),
        t1,
        s1,
        b1,
    ));
}

/// Law: a last-write-wins operator applied twice to the same keys keeps
/// only the final value.
pub proof fn lemma_last_write_wins(
    m: DocModel,
    t: Seq<char>,
    s: Seq<char>,
    l1: LeafModel,
    l2: LeafModel,
)
    ensures
        spec_set(spec_set(m, t, s, l1), t, s, l2) == spec_set(m, t, s, l2),
{
    assert(sub_of(spec_set(m, t, s, l1), t).insert(s, l2) =~= sub_of(m, t).insert(s, l2));
    assert(spec_set(spec_set(m, t, s, l1), t, s, l2) =~= spec_set(m, t, s, l2));
}

/// The ordered list accumulated at `(t, s)`; empty when none is there.
pub open spec fn list_at(m: DocModel, t: Seq<char>, s: Seq<char>) -> Seq<bson::Bson> {
    if sub_of(m, t).dom().contains(s) {
        match sub_of(m, t)[s] {
            LeafModel::List(l) => l,
            _ => Seq::empty(),
        }
    } else {
        Seq::empty()
    }
}

/// Apply a whole sequence of appends to one place, in order.
pub open spec fn spec_push_all(m: DocModel, t: Seq<char>, s: Seq<char>, vs: Seq<bson::Bson>) -> DocModel
    decreases vs.len(),
{
    if vs.len() == 0 {
        m
    } else {
        spec_push(spec_push_all(m, t, s, vs.drop_last()), t, s, vs.last())
    }
}

/// Law: a sequence of appends on one place accumulates exactly the
/// appended values in call order — concatenated onto whatever list was
/// there, not sorted and not deduplicated.
pub proof fn lemma_push_all_concatenates(m: DocModel, t: Seq<char>, s: Seq<char>, vs: Seq<bson::Bson>)
    requires
        vs.len() > 0,
        sub_of(m, t).dom().contains(s) ==> sub_of(m, t)[s] is List,
    ensures
        spec_push_all(m, t, s, vs) == m.insert(
            t,
            sub_of(m, t).insert(s, LeafModel::List(list_at(m, t, s) + vs)),
        ),
    decreases vs.len(),
{
    if vs.len() == 1 {
        assert(vs.drop_last() =~= Seq::<bson::Bson>::empty());
        assert(spec_push_all(m, t, s, vs.drop_last()) == m);
        assert(pushed_list(sub_of(m, t), s, vs.last()) =~= list_at(m, t, s) + vs);
        assert(spec_push_all(m, t, s, vs) =~= m.insert(
            t,
            sub_of(m, t).insert(s, LeafModel::List(list_at(m, t, s) + vs)),
        ));
    } else {
        lemma_push_all_concatenates(m, t, s, vs.drop_last());
        let m1 = spec_push_all(m, t, s, vs.drop_last());
        assert(sub_of(m1, t) == sub_of(m, t).insert(
            s,
            LeafModel::List(list_at(m, t, s) + vs.drop_last()),
        ));
        assert(pushed_list(sub_of(m1, t), s, vs.last()) =~= list_at(m, t, s) + vs);
        assert(sub_of(m1, t).insert(s, LeafModel::List(list_at(m, t, s) + vs)) =~= sub_of(
            m,
            t,
        ).insert(s, LeafModel::List(list_at(m, t, s) + vs)));
        assert(spec_push_all(m, t, s, vs) =~= m.insert(
            t,
            sub_of(m, t).insert(s, LeafModel::List(list_at(m, t, s) + vs)),
        ));
    }
}

/// Law: the unique-add accumulation does not deduplicate locally:
/// appending the same value twice at a fresh place yields the
/// two-element list.
pub proof fn lemma_push_keeps_duplicates(m: DocModel, t: Seq<char>, s: Seq<char>, b: bson::Bson)
    requires
        !sub_of(m, t).dom().contains(s),
    ensures
        list_at(spec_push(spec_push(m, t, s, b), t, s, b), t, s) == seq![b, b],
{
    assert(list_at(spec_push(spec_push(m, t, s, b), t, s, b), t, s) =~= seq![b, b]);
}

/// How one rendered database value relates to a leaf of the model: markers
/// and deltas become the corresponding scalar values, and an accumulation
/// list becomes an embedded document holding the list under "$each".
pub open spec fn leaf_matches(b: bson::Bson, l: LeafModel) -> bool {
    match l {
        LeafModel::Value(v) => b == v,
        LeafModel::Flag(f) => b == bson_bool(f),
        LeafModel::Delta(i) => b == bson_i64(i),
        LeafModel::Array(s) => b == bson_array(s),
        LeafModel::List(s) => bson_is_document(b) && bson_doc_entries(b) == Map::<
            Seq<char>,
            bson::Bson,
        >::empty().insert("$each"@, bson_array(s)),
    }
}

/// The rendered entries of one sub-document match its model.
pub open spec fn entries_match_sub(
    es: Map<Seq<char>, bson::Bson>,
    sm: Map<Seq<char>, LeafModel>,
) -> bool {
    &&& es.dom() == sm.dom()
    &&& forall|k: Seq<char>| sm.dom().contains(k) ==> leaf_matches(#[trigger] es[k], sm[k])
}

/// The rendered value is an embedded document matching the sub-model.
pub open spec fn bson_matches_sub(b: bson::Bson, sm: Map<Seq<char>, LeafModel>) -> bool {
    &&& bson_is_document(b)
    &&& entries_match_sub(bson_doc_entries(b), sm)
}

/// The rendered entries of a whole document match the model.
pub open spec fn entries_match(es: Map<Seq<char>, bson::Bson>, m: DocModel) -> bool {
    &&& es.dom() == m.dom()
    &&& forall|k: Seq<char>| m.dom().contains(k) ==> bson_matches_sub(#[trigger] es[k], m[k])
}

/// Render one leaf as a database value.
fn leaf_into_bson(l: Leaf) -> (b: bson::Bson)
    ensures
        leaf_matches(b, l@),
{
    match l {
        Leaf::Value(v) => v,
        Leaf::Flag(f) => bool_into_bson(f),
        Leaf::Delta(i) => i64_into_bson(i),
        Leaf::Array(v) => array_into_bson(v),
        Leaf::List(v) => {
            let mut each_doc = new_document();
            let each_key = "$each".to_owned();
            let arr = array_into_bson(v);
            insert_entry(&mut each_doc, &each_key, arr);
            proof {
                assert(entries_of(each_doc) =~= Map::<Seq<char>, bson::Bson>::empty().insert(
                    "$each"@,
                    bson_array(v@),
                ));
            }
            document_into_bson(each_doc)
        },
    }
}

/// Render one sub-document.
fn sub_into_bson(sd: KvList<Leaf>) -> (d: bson::Document)
    requires
        sd.wf(),
    ensures
        entries_match_sub(entries_of(d), sd.model()),
{
    let ghost full = sd.model();
    let mut sd = sd;
    let mut out = new_document();
    let ghost mut built: Map<Seq<char>, LeafModel> = Map::empty();
    proof {
        assert(full =~= KvList::<Leaf>::list_model(sd.entries@).union_prefer_right(built));
    }
    while sd.entries.len() > 0
        invariant
            sd.wf(),
            entries_match_sub(entries_of(out), built),
            full == KvList::<Leaf>::list_model(sd.entries@).union_prefer_right(built),
            forall|n: int|
                0 <= n < sd.entries@.len() ==> !built.dom().contains(
                    #[trigger] sd.entries@[n].0@,
                ),
        decreases sd.entries@.len(),
    {
        let ghost pre = sd.entries@;
        let ghost built0 = built;
        if let Some((key, leaf)) = sd.entries.pop() {
            let ghost leafm = leaf@;
            let b = leaf_into_bson(leaf);
            insert_entry(&mut out, &key, b);
            proof {
                built = built0.insert(key@, leafm);
                assert(entries_of(out).dom() =~= built.dom());
                assert(full =~= KvList::<Leaf>::list_model(sd.entries@).union_prefer_right(
                    built,
                ));
            }
        }
    }
    proof {
        assert(full =~= built);
    }
    out
}

/// Law: a build from the empty model yields a document with no entries,
/// not one with empty operator groups.
pub proof fn lemma_empty_model_means_empty_entries(es: Map<Seq<char>, bson::Bson>)
    requires
        entries_match(es, Map::empty()),
    ensures
        es == Map::<Seq<char>, bson::Bson>::empty(),
{
    assert(es =~= Map::<Seq<char>, bson::Bson>::empty());
}

/// The document both assemblers accumulate into: two levels of unique-key
/// ordered mappings with `Leaf` values.
pub struct BuilderDocument {
    pub sections: KvList<KvList<Leaf>>,
}

impl BuilderDocument {
    /// Key uniqueness at both levels.
    pub open spec fn wf(self) -> bool {
        &&& self.sections.wf()
        &&& forall|i: int|
            0 <= i < self.sections.entries@.len() ==> (#[trigger] self.sections.entries@[i].1).wf()
    }

    pub open spec fn model(self) -> DocModel {
        self.sections.model()
    }

    pub fn new() -> (r: Self)
        ensures
            r.wf(),
            r.model() == Map::<Seq<char>, Map<Seq<char>, LeafModel>>::empty(),
    {
        BuilderDocument { sections: KvList::new() }
    }

    /// Render the accumulated document in the database's value format.
    pub fn into_bson_document(self) -> (r: bson::Document)
        requires
            self.wf(),
        ensures
            entries_match(entries_of(r), self.model()),
    {
        let ghost full = self.model();
        let mut sections = self.sections;
        let mut out = new_document();
        let ghost mut built: Map<Seq<char>, Map<Seq<char>, LeafModel>> = Map::empty();
        proof {
            assert(full =~= KvList::<KvList<Leaf>>::list_model(sections.entries@)
                .union_prefer_right(built));
        }
        while sections.entries.len() > 0
            invariant
                sections.wf(),
                forall|n: int|
                    0 <= n < sections.entries@.len() ==> (#[trigger] sections.entries@[n].1).wf(),
                entries_match(entries_of(out), built),
                full == KvList::<KvList<Leaf>>::list_model(sections.entries@).union_prefer_right(
                    built,
                ),
                forall|n: int|
                    0 <= n < sections.entries@.len() ==> !built.dom().contains(
                        #[trigger] sections.entries@[n].0@,
                    ),
            decreases sections.entries@.len(),
        {
            let ghost built0 = built;
            if let Some((key, sd)) = sections.entries.pop() {
                let ghost sdm = sd.model();
                let sub = sub_into_bson(sd);
                let b = document_into_bson(sub);
                insert_entry(&mut out, &key, b);
                proof {
                    built = built0.insert(key@, sdm);
                    assert(entries_of(out).dom() =~= built.dom());
                    assert(full =~= KvList::<KvList<Leaf>>::list_model(sections.entries@)
                        .union_prefer_right(built));
                }
            }
        }
        proof {
            assert(full =~= built);
        }
        out
    }

    /// Bind `sub` to `leaf` inside the sub-document at `top`.
    pub fn set_entry(&mut self, top: String, sub: String, leaf: Leaf)
        requires
            old(self).wf(),
        ensures
            final(self).wf(),
            final(self).model() == spec_set(old(self).model(), top@, sub@, leaf@),
    {
        match self.sections.index_of(&top) {
            Some(i) => {
                let ghost pre = self.sections.entries@;
                let (k, mut sd) = self.sections.entries.remove(i);
                sd.upsert(sub, leaf);
                self.sections.entries.insert(i, (k, sd));
                proof {
                    assert(self.sections.entries@ =~= pre.update(i as int, (pre[i as int].0, sd)));
                    KvList::<KvList<Leaf>>::lemma_model_at(pre, i as int);
                    KvList::<KvList<Leaf>>::lemma_model_update(pre, i as int, sd);
                    assert forall|n: int|
                        0 <= n < self.sections.entries@.len() implies (#[trigger] self.sections.entries@[n].1).wf() by {
                        if n != i {
                            assert(self.sections.entries@[n] == pre[n]);
                        }
                    }
                    assert(final(self).model() =~= spec_set(old(self).model(), top@, sub@, leaf@));
                }
            },
            None => {
                let mut sd = KvList::<Leaf>::new();
                sd.upsert(sub, leaf);
                self.sections.upsert(top, sd);
                proof {
                    KvList::<KvList<Leaf>>::lemma_model_absent(old(self).sections.entries@, top@);
                    assert(final(self).model() =~= spec_set(old(self).model(), top@, sub@, leaf@));
                }
            },
        }
    }

    /// Append `b` to the accumulation list bound to `sub` inside the
    /// sub-document at `top`, starting the list when absent.
    pub fn push_each_entry(&mut self, top: String, sub: String, b: bson::Bson)
        requires
            old(self).wf(),
        ensures
            final(self).wf(),
            final(self).model() == spec_push(old(self).model(), top@, sub@, b),
    {
        match self.sections.index_of(&top) {
            Some(i) => {
                let ghost pre = self.sections.entries@;
                let (k, mut sd) = self.sections.entries.remove(i);
                proof {
                    KvList::<KvList<Leaf>>::lemma_model_at(pre, i as int);
                }
                let ghost sdpre = sd.entries@;
                match sd.index_of(&sub) {
                    Some(j) => {
                        let (k2, prior) = sd.entries.remove(j);
                        let ghost priorm = prior@;
                        let fresh = match prior {
                            Leaf::List(mut v) => {
                                v.push(b);
                                Leaf::List(v)
                            },
                            _ => {
                                let mut v = Vec::new();
                                v.push(b);
                                Leaf::List(v)
                            },
                        };
                        sd.entries.insert(j, (k2, fresh));
                        proof {
                            assert(sd.entries@ =~= sdpre.update(j as int, (sdpre[j as int].0, fresh)));
                            KvList::<Leaf>::lemma_model_at(sdpre, j as int);
                            KvList::<Leaf>::lemma_model_update(sdpre, j as int, fresh);
                            assert(KvList::<Leaf>::list_model(sdpre)[sub@] == priorm);
                            assert(fresh@ == LeafModel::List(
                                pushed_list(KvList::<Leaf>::list_model(sdpre), sub@, b),
                            ));
                            assert(sd.model() == KvList::<Leaf>::list_model(sdpre).insert(
                                sub@,
                                LeafModel::List(pushed_list(KvList::<Leaf>::list_model(sdpre), sub@, b)),
                            ));
                        }
                    },
                    None => {
                        let mut v = Vec::new();
                        v.push(b);
                        proof {
                            KvList::<Leaf>::lemma_model_absent(sdpre, sub@);
                        }
                        sd.upsert(sub, Leaf::List(v));
                    },
                }
                self.sections.entries.insert(i, (k, sd));
                proof {
                    assert(self.sections.entries@ =~= pre.update(i as int, (pre[i as int].0, sd)));
                    KvList::<KvList<Leaf>>::lemma_model_update(pre, i as int, sd);
                    assert forall|n: int|
                        0 <= n < self.sections.entries@.len() implies (#[trigger] self.sections.entries@[n].1).wf() by {
                        if n != i {
                            assert(self.sections.entries@[n] == pre[n]);
                        }
                    }
                    assert(sub_of(old(self).model(), top@) == KvList::<Leaf>::list_model(sdpre));
                    assert(final(self).model() =~= spec_push(old(self).model(), top@, sub@, b));
                }
            },
            None => {
                let mut v = Vec::new();
                v.push(b);
                let mut sd = KvList::<Leaf>::new();
                sd.upsert(sub, Leaf::List(v));
                self.sections.upsert(top, sd);
                proof {
                    KvList::<KvList<Leaf>>::lemma_model_absent(old(self).sections.entries@, top@);
                    assert(final(self).model() =~= spec_push(old(self).model(), top@, sub@, b));
                }
            },
        }
    }
}

} // verus!
