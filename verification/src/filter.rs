//! The filter-clause assembler.
//!
//! Each comparison call serializes its value with the serializer bound to
//! the path's leaf node, renders the dotted path, and merges
//! `operator -> serialized value` into the per-path sub-document,
//! overwriting a prior value of the same operator and accumulating
//! different operators side by side. The first serialization failure is
//! captured and kept; the terminal build call surfaces it.

use vstd::prelude::*;
use crate::bsonx::entries_of;
use crate::doc::{entries_match, spec_set, BuilderDocument, DocModel, Leaf, LeafModel};
use crate::kp::{render, KeyPathNonInitialNodeLike};

verus! {

/// Accumulates per-path comparison operators for records of type `T`.
pub struct FilterBuilder<T> {
    pub document: BuilderDocument,
    pub error: Option<bson::ser::Error>,
    pub marker: core::marker::PhantomData<T>,
}

impl<T> FilterBuilder<T> {
    pub open spec fn wf(self) -> bool {
        self.document.wf()
    }

    pub open spec fn model(self) -> DocModel {
        self.document.model()
    }

    /// How one comparison call steps the builder, given the serialization
    /// outcome: on success the serialized value lands under the operator
    /// key of the path's sub-document and the error is untouched; on
    /// failure the document is untouched and the failure is kept only if
    /// it is the first.
    pub open spec fn comparison_step(
        pre: Self,
        post: Self,
        path: Seq<char>,
        op_key: Seq<char>,
        outcome: Result<bson::Bson, bson::ser::Error>,
    ) -> bool {
        match outcome {
            Ok(b) => post.model() == spec_set(pre.model(), path, op_key, LeafModel::Value(b))
                && post.error == pre.error,
            Err(e) => post.model() == pre.model() && post.error == (
            if pre.error.is_some() {
                pre.error
            } else {
                Some(e)
            }),
        }
    }

    /// An elementwise membership outcome: on success every element was
    /// serialized in order; on failure the kept error came from one of
    /// the elements.
    pub open spec fn membership_outcome<KP, V>(
        kp: KP,
        values: Seq<V>,
        outcome: Result<Vec<bson::Bson>, bson::ser::Error>,
    ) -> bool where KP: KeyPathNonInitialNodeLike<Origin = T, Current = V> {
        match outcome {
            Ok(bs) => bs@.len() == values.len() && forall|i: int|
                0 <= i < values.len() ==> kp.ser_ens(&values[i], Ok(#[trigger] bs@[i])),
            Err(e) => exists|i: int|
                #![trigger values[i]]
                0 <= i < values.len() && kp.ser_ens(&values[i], Err(e)),
        }
    }

    /// How one membership call steps the builder.
    pub open spec fn membership_step(
        pre: Self,
        post: Self,
        path: Seq<char>,
        outcome: Result<Vec<bson::Bson>, bson::ser::Error>,
    ) -> bool {
        match outcome {
            Ok(bs) => post.model() == spec_set(
                pre.model(),
                path,
                "$in"@,
                LeafModel::Array(bs@),
            ) && post.error == pre.error,
            Err(e) => post.model() == pre.model() && post.error == (
            if pre.error.is_some() {
                pre.error
            } else {
                Some(e)
            }),
        }
    }

    /// Law: every step keeps an already-captured error, so the first
    /// failure of a builder's lifetime is the one the build surfaces.
    pub proof fn lemma_error_sticky(
        pre: Self,
        post: Self,
        path: Seq<char>,
        op_key: Seq<char>,
        outcome: Result<bson::Bson, bson::ser::Error>,
        list_outcome: Result<Vec<bson::Bson>, bson::ser::Error>,
    )
        requires
            Self::comparison_step(pre, post, path, op_key, outcome) || Self::membership_step(
                pre,
                post,
                path,
                list_outcome,
            ),
            pre.error.is_some(),
        ensures
            post.error == pre.error,
    {
    }

    pub fn new() -> (r: Self)
        ensures
            r.wf(),
            r.model() == Map::<Seq<char>, Map<Seq<char>, LeafModel>>::empty(),
            r.error.is_none(),
    {
        FilterBuilder {
            document: BuilderDocument::new(),
            error: None,
            marker: core::marker::PhantomData,
        }
    }

    /// Surface the first captured error, or hand back the finished
    /// document, whose rendered entries match the accumulated model.
    pub fn try_build(self) -> (r: Result<bson::Document, bson::ser::Error>)
        requires
            self.wf(),
        ensures
            match self.error {
                Some(e) => r matches Err(e2) && e2 == e,
                None => r matches Ok(d) && entries_match(entries_of(d), self.model()),
            },
    {
        match self.error {
            Some(e) => Err(e),
            None => Ok(self.document.into_bson_document()),
        }
    }

    /// Merge one comparison outcome under `op_key` at `path`.
    pub fn apply_comparison(
        self,
        path: String,
        op_key: &str,
        serialized: Result<bson::Bson, bson::ser::Error>,
    ) -> (r: Self)
        requires
            self.wf(),
        ensures
            r.wf(),
            Self::comparison_step(self, r, path@, op_key@, serialized),
    {
        match serialized {
            Ok(b) => {
                let mut s = self;
                s.document.set_entry(path, op_key.to_owned(), Leaf::Value(b));
                s
            },
            Err(e) => {
                let mut s = self;
                if s.error.is_none() {
                    s.error = Some(e);
                }
                s
            },
        }
    }

    /// Merge one membership outcome at `path`, under the membership
    /// operator key.
    pub fn apply_membership(
        self,
        path: String,
        serialized: Result<Vec<bson::Bson>, bson::ser::Error>,
    ) -> (r: Self)
        requires
            self.wf(),
        ensures
            r.wf(),
            Self::membership_step(self, r, path@, serialized),
    {
        match serialized {
            Ok(bs) => {
                let mut s = self;
                s.document.set_entry(path, "$in".to_owned(), Leaf::Array(bs));
                s
            },
            Err(e) => {
                let mut s = self;
                if s.error.is_none() {
                    s.error = Some(e);
                }
                s
            },
        }
    }

    fn op<KP, V>(self, kp: KP, value: V, op_key: &str) -> (r: Self) where
        KP: KeyPathNonInitialNodeLike<Origin = T, Current = V>,

        requires
            self.wf(),
            kp.ser_req(&value),
        ensures
            r.wf(),
            exists|out: Result<bson::Bson, bson::ser::Error>|
                kp.ser_ens(&value, out) && Self::comparison_step(
                    self,
                    r,
                    kp.path_spec(),
                    op_key@,
                    out,
                ),
    {
        let ghost pre = self;
        let out = kp.serialize_value(&value);
        let path = render(&kp);
        let r = self.apply_comparison(path, op_key, out);
        proof {
            assert(kp.ser_ens(&value, out) && Self::comparison_step(
                pre,
                r,
                kp.path_spec(),
                op_key@,
                out,
            ));
        }
        r
    }

    pub fn eq<KP, V: PartialEq>(self, kp: KP, value: V) -> (r: Self) where
        KP: KeyPathNonInitialNodeLike<Origin = T, Current = V>,

        requires
            self.wf(),
            kp.ser_req(&value),
        ensures
            r.wf(),
            exists|out: Result<bson::Bson, bson::ser::Error>|
                kp.ser_ens(&value, out) && Self::comparison_step(
                    self,
                    r,
                    kp.path_spec(),
                    "$eq"@,
                    out,
                ),
    {
        self.op(kp, value, "$eq")
    }

    pub fn ne<KP, V: PartialEq>(self, kp: KP, value: V) -> (r: Self) where
        KP: KeyPathNonInitialNodeLike<Origin = T, Current = V>,

        requires
            self.wf(),
            kp.ser_req(&value),
        ensures
            r.wf(),
            exists|out: Result<bson::Bson, bson::ser::Error>|
                kp.ser_ens(&value, out) && Self::comparison_step(
                    self,
                    r,
                    kp.path_spec(),
                    "$ne"@,
                    out,
                ),
    {
        self.op(kp, value, "$ne")
    }

    pub fn gt<KP, V: PartialOrd>(self, kp: KP, value: V) -> (r: Self) where
        KP: KeyPathNonInitialNodeLike<Origin = T, Current = V>,

        requires
            self.wf(),
            kp.ser_req(&value),
        ensures
            r.wf(),
            exists|out: Result<bson::Bson, bson::ser::Error>|
                kp.ser_ens(&value, out) && Self::comparison_step(
                    self,
                    r,
                    kp.path_spec(),
                    "$gt"@,
                    out,
                ),
    {
        self.op(kp, value, "$gt")
    }

    pub fn gte<KP, V: PartialOrd>(self, kp: KP, value: V) -> (r: Self) where
        KP: KeyPathNonInitialNodeLike<Origin = T, Current = V>,

        requires
            self.wf(),
            kp.ser_req(&value),
        ensures
            r.wf(),
            exists|out: Result<bson::Bson, bson::ser::Error>|
                kp.ser_ens(&value, out) && Self::comparison_step(
                    self,
                    r,
                    kp.path_spec(),
                    "$gte"@,
                    out,
                ),
    {
        self.op(kp, value, "$gte")
    }

    pub fn lt<KP, V: PartialOrd>(self, kp: KP, value: V) -> (r: Self) where
        KP: KeyPathNonInitialNodeLike<Origin = T, Current = V>,

        requires
            self.wf(),
            kp.ser_req(&value),
        ensures
            r.wf(),
            exists|out: Result<bson::Bson, bson::ser::Error>|
                kp.ser_ens(&value, out) && Self::comparison_step(
                    self,
                    r,
                    kp.path_spec(),
                    "$lt"@,
                    out,
                ),
    {
        self.op(kp, value, "$lt")
    }

    pub fn lte<KP, V: PartialOrd>(self, kp: KP, value: V) -> (r: Self) where
        KP: KeyPathNonInitialNodeLike<Origin = T, Current = V>,

        requires
            self.wf(),
            kp.ser_req(&value),
        ensures
            r.wf(),
            exists|out: Result<bson::Bson, bson::ser::Error>|
                kp.ser_ens(&value, out) && Self::comparison_step(
                    self,
                    r,
                    kp.path_spec(),
                    "$lte"@,
                    out,
                ),
    {
        self.op(kp, value, "$lte")
    }

    /// Set the existence marker for an optional field's path; a later call
    /// on the same path overwrites the flag.
    pub fn existence<const EXISTS: bool, KP, V>(self, kp: KP) -> (r: Self) where
        KP: KeyPathNonInitialNodeLike<Origin = T, Current = Option<V>>,

        requires
            self.wf(),
        ensures
            r.wf(),
            r.model() == spec_set(
                self.model(),
                kp.path_spec(),
                "$exists"@,
                LeafModel::Flag(EXISTS),
            ),
            r.error == self.error,
    {
        let path = render(&kp);
        let mut s = self;
        s.document.set_entry(path, "$exists".to_owned(), Leaf::Flag(EXISTS));
        s
    }

    /// Serialize every element independently; the full list replaces any
    /// prior membership list for the path, and the first element failure
    /// is captured as the sticky error.
    pub fn is_in<KP, V>(self, kp: KP, values: Vec<V>) -> (r: Self) where
        KP: KeyPathNonInitialNodeLike<Origin = T, Current = V>,

        requires
            self.wf(),
            forall|i: int| 0 <= i < values@.len() ==> kp.ser_req(&values@[i]),
        ensures
            r.wf(),
            exists|out: Result<Vec<bson::Bson>, bson::ser::Error>|
                Self::membership_outcome(kp, values@, out) && Self::membership_step(
                    self,
                    r,
                    kp.path_spec(),
                    out,
                ),
    {
        let ghost pre = self;
        let mut bs: Vec<bson::Bson> = Vec::new();
        let mut failed: Option<bson::ser::Error> = None;
        let mut i: usize = 0;
        while i < values.len() && failed.is_none()
            invariant
                i <= values@.len(),
                forall|n: int| 0 <= n < values@.len() ==> kp.ser_req(&values@[n]),
                failed.is_none() ==> bs@.len() == i as int && forall|n: int|
                    0 <= n < i ==> kp.ser_ens(&values@[n], Ok(#[trigger] bs@[n])),
                failed matches Some(e) ==> (i < values@.len() && kp.ser_ens(
                    &values@[i as int],
                    Err(e),
                )),
            decreases values@.len() - i + (if failed.is_none() {
                1int
            } else {
                0int
            }),
        {
            match kp.serialize_value(&values[i]) {
                Ok(b) => {
                    bs.push(b);
                    i += 1;
                },
                Err(e) => {
                    failed = Some(e);
                },
            }
        }
        let path = render(&kp);
        match failed {
            Some(e) => {
                let ghost fi = i as int;
                let r = self.apply_membership(path, Err(e));
                proof {
                    assert(kp.ser_ens(&values@[fi], Err(e)));
                    assert(Self::membership_outcome(kp, values@, Err(e)));
                    assert(Self::membership_step(pre, r, kp.path_spec(), Err(e)));
                }
                r
            },
            None => {
                let ghost bsg = bs;
                let r = self.apply_membership(path, Ok(bs));
                proof {
                    assert(Self::membership_outcome(kp, values@, Ok(bsg)) && Self::membership_step(
                        pre,
                        r,
                        kp.path_spec(),
                        Ok(bsg),
                    ));
                }
                r
            },
        }
    }
}

} // verus!
