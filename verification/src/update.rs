//! The update-operator assembler.
//!
//! Calls accumulate into up to six top-level operator groups, each a
//! sub-document keyed by field path. Assignment-like groups are
//! last-write-wins per path; the two array groups accumulate an ordered
//! list per path in call order, with no deduplication. Group sub-documents
//! are created lazily, so a builder with no calls builds an empty
//! document. The first serialization failure is captured and kept.

use vstd::prelude::*;
use crate::bsonx::entries_of;
use crate::doc::{entries_match, spec_push, spec_set, BuilderDocument, DocModel, Leaf, LeafModel};
use crate::kp::{render, KeyPathNonInitialNodeLike};

verus! {

/// The integer-like value types an increment may address.
pub trait IntegerCurrent {

}

impl IntegerCurrent for i8 {

}

impl IntegerCurrent for i16 {

}

impl IntegerCurrent for i32 {

}

impl IntegerCurrent for i64 {

}

impl IntegerCurrent for isize {

}

impl IntegerCurrent for u8 {

}

impl IntegerCurrent for u16 {

}

impl IntegerCurrent for u32 {

}

impl IntegerCurrent for u64 {

}

impl IntegerCurrent for usize {

}

/// Accumulates per-path update operators for records of type `T`.
pub struct UpdateBuilder<T> {
    pub document: BuilderDocument,
    pub error: Option<bson::ser::Error>,
    pub marker: core::marker::PhantomData<T>,
}

impl<T> UpdateBuilder<T> {
    pub open spec fn wf(self) -> bool {
        self.document.wf()
    }

    pub open spec fn model(self) -> DocModel {
        self.document.model()
    }

    /// How one assignment-like call steps the builder, given the
    /// serialization outcome: on success the value replaces any prior
    /// binding of the path inside the group; on failure the document is
    /// untouched and the failure is kept only if it is the first.
    pub open spec fn assign_step(
        pre: Self,
        post: Self,
        group: Seq<char>,
        path: Seq<char>,
        outcome: Result<bson::Bson, bson::ser::Error>,
    ) -> bool {
        match outcome {
            Ok(b) => post.model() == spec_set(pre.model(), group, path, LeafModel::Value(b))
                && post.error == pre.error,
            Err(e) => post.model() == pre.model() && post.error == (
            if pre.error.is_some() {
                pre.error
            } else {
                Some(e)
            }),
        }
    }

    /// How one array-accumulation call steps the builder: on success the
    /// value is appended to the path's ordered list inside the group,
    /// starting the list on first use.
    pub open spec fn push_step(
        pre: Self,
        post: Self,
        group: Seq<char>,
        path: Seq<char>,
        outcome: Result<bson::Bson, bson::ser::Error>,
    ) -> bool {
        match outcome {
            Ok(b) => post.model() == spec_push(pre.model(), group, path, b) && post.error
                == pre.error,
            Err(e) => post.model() == pre.model() && post.error == (
            if pre.error.is_some() {
                pre.error
            } else {
                Some(e)
            }),
        }
    }

    /// Law: every step keeps an already-captured error, so the first
    /// failure of a builder's lifetime is the one the build surfaces.
    pub proof fn lemma_assign_error_sticky(
        pre: Self,
        post: Self,
        group: Seq<char>,
        path: Seq<char>,
        outcome: Result<bson::Bson, bson::ser::Error>,
    )
        requires
            Self::assign_step(pre, post, group, path, outcome) || Self::push_step(
                pre,
                post,
                group,
                path,
                outcome,
            ),
            pre.error.is_some(),
        ensures
            post.error == pre.error,
    {
    }

    pub fn new() -> (r: Self)
        ensures
            r.wf(),
            r.model() == Map::<Seq<char>, Map<Seq<char>, LeafModel>>::empty(),
            r.error.is_none(),
    {
        UpdateBuilder {
            document: BuilderDocument::new(),
            error: None,
            marker: core::marker::PhantomData,
        }
    }

    /// Surface the first captured error, or hand back the finished
    /// document, whose rendered entries match the accumulated model; a
    /// builder with no calls yields an empty document.
    pub fn try_build(self) -> (r: Result<bson::Document, bson::ser::Error>)
        requires
            self.wf(),
        ensures
            match self.error {
                Some(e) => r matches Err(e2) && e2 == e,
                None => r matches Ok(d) && entries_match(entries_of(d), self.model()),
            },
    {
        match self.error {
            Some(e) => Err(e),
            None => Ok(self.document.into_bson_document()),
        }
    }

    /// Merge one assignment outcome at `path`.
    pub fn apply_set(self, path: String, serialized: Result<bson::Bson, bson::ser::Error>) -> (r:
        Self)
        requires
            self.wf(),
        ensures
            r.wf(),
            Self::assign_step(self, r, "$set"@, path@, serialized),
    {
        match serialized {
            Ok(b) => {
                let mut s = self;
                s.document.set_entry("$set".to_owned(), path, Leaf::Value(b));
                s
            },
            Err(e) => {
                let mut s = self;
                if s.error.is_none() {
                    s.error = Some(e);
                }
                s
            },
        }
    }

    /// Merge one insert-time assignment outcome at `path`.
    pub fn apply_set_on_insert(
        self,
        path: String,
        serialized: Result<bson::Bson, bson::ser::Error>,
    ) -> (r: Self)
        requires
            self.wf(),
        ensures
            r.wf(),
            Self::assign_step(self, r, "$setOnInsert"@, path@, serialized),
    {
        match serialized {
            Ok(b) => {
                let mut s = self;
                s.document.set_entry("$setOnInsert".to_owned(), path, Leaf::Value(b));
                s
            },
            Err(e) => {
                let mut s = self;
                if s.error.is_none() {
                    s.error = Some(e);
                }
                s
            },
        }
    }

    /// Merge one list-push outcome at `path`.
    pub fn apply_push(self, path: String, serialized: Result<bson::Bson, bson::ser::Error>) -> (r:
        Self)
        requires
            self.wf(),
        ensures
            r.wf(),
            Self::push_step(self, r, "$push"@, path@, serialized),
    {
        match serialized {
            Ok(b) => {
                let mut s = self;
                s.document.push_each_entry("$push".to_owned(), path, b);
                s
            },
            Err(e) => {
                let mut s = self;
                if s.error.is_none() {
                    s.error = Some(e);
                }
                s
            },
        }
    }

    /// Merge one unique-add outcome at `path`: the accumulation mechanics
    /// are exactly those of the list push, with no local deduplication.
    pub fn apply_add_to_set(
        self,
        path: String,
        serialized: Result<bson::Bson, bson::ser::Error>,
    ) -> (r: Self)
        requires
            self.wf(),
        ensures
            r.wf(),
            Self::push_step(self, r, "$addToSet"@, path@, serialized),
    {
        match serialized {
            Ok(b) => {
                let mut s = self;
                s.document.push_each_entry("$addToSet".to_owned(), path, b);
                s
            },
            Err(e) => {
                let mut s = self;
                if s.error.is_none() {
                    s.error = Some(e);
                }
                s
            },
        }
    }

    /// Mark `path` as set to the current server time; last write wins.
    pub fn mark_current_date(self, path: String) -> (r: Self)
        requires
            self.wf(),
        ensures
            r.wf(),
            r.model() == spec_set(self.model(), "$currentDate"@, path@, LeafModel::Flag(true)),
            r.error == self.error,
    {
        let mut s = self;
        s.document.set_entry("$currentDate".to_owned(), path, Leaf::Flag(true));
        s
    }

    /// Associate `path` with a signed delta; a later call replaces, not
    /// adds to, the prior delta.
    pub fn apply_increment(self, path: String, amount: i64) -> (r: Self)
        requires
            self.wf(),
        ensures
            r.wf(),
            r.model() == spec_set(self.model(), "$inc"@, path@, LeafModel::Delta(amount)),
            r.error == self.error,
    {
        let mut s = self;
        s.document.set_entry("$inc".to_owned(), path, Leaf::Delta(amount));
        s
    }

    /// Assign a value to a field; last write per path wins.
    pub fn set<KP, V>(self, kp: KP, value: V) -> (r: Self) where
        KP: KeyPathNonInitialNodeLike<Origin = T, Current = V>,

        requires
            self.wf(),
            kp.ser_req(&value),
        ensures
            r.wf(),
            exists|out: Result<bson::Bson, bson::ser::Error>|
                kp.ser_ens(&value, out) && Self::assign_step(
                    self,
                    r,
                    "$set"@,
                    kp.path_spec(),
                    out,
                ),
    {
        let ghost pre = self;
        let out = kp.serialize_value(&value);
        let path = render(&kp);
        let r = self.apply_set(path, out);
        proof {
            assert(kp.ser_ens(&value, out) && Self::assign_step(
                pre,
                r,
                "$set"@,
                kp.path_spec(),
                out,
            ));
        }
        r
    }

    /// Assign a value applied only when the document is first inserted.
    pub fn set_on_insert<KP, V>(self, kp: KP, value: V) -> (r: Self) where
        KP: KeyPathNonInitialNodeLike<Origin = T, Current = V>,

        requires
            self.wf(),
            kp.ser_req(&value),
        ensures
            r.wf(),
            exists|out: Result<bson::Bson, bson::ser::Error>|
                kp.ser_ens(&value, out) && Self::assign_step(
                    self,
                    r,
                    "$setOnInsert"@,
                    kp.path_spec(),
                    out,
                ),
    {
        let ghost pre = self;
        let out = kp.serialize_value(&value);
        let path = render(&kp);
        let r = self.apply_set_on_insert(path, out);
        proof {
            assert(kp.ser_ens(&value, out) && Self::assign_step(
                pre,
                r,
                "$setOnInsert"@,
                kp.path_spec(),
                out,
            ));
        }
        r
    }

    /// Append one element to the ordered list accumulated for a
    /// sequence-valued field's path, preserving call order.
    pub fn push<KP, V>(self, kp: KP, value: V) -> (r: Self) where
        KP: KeyPathNonInitialNodeLike<Origin = T, Current = Vec<V>>,
        V: serde::Serialize,

        requires
            self.wf(),
        ensures
            r.wf(),
            exists|out: Result<bson::Bson, bson::ser::Error>|
                Self::push_step(self, r, "$push"@, kp.path_spec(), out),
    {
        let ghost pre = self;
        let out = bson::to_bson(&value);
        let path = render(&kp);
        let r = self.apply_push(path, out);
        proof {
            assert(Self::push_step(pre, r, "$push"@, kp.path_spec(), out));
        }
        r
    }

    /// Accumulate one element for a unique-add at the path: mechanics are
    /// identical to the list push, and duplicates are kept locally.
    pub fn add_to_set<KP, V>(self, kp: KP, value: V) -> (r: Self) where
        KP: KeyPathNonInitialNodeLike<Origin = T, Current = Vec<V>>,
        V: serde::Serialize,

        requires
            self.wf(),
        ensures
            r.wf(),
            exists|out: Result<bson::Bson, bson::ser::Error>|
                Self::push_step(self, r, "$addToSet"@, kp.path_spec(), out),
    {
        let ghost pre = self;
        let out = bson::to_bson(&value);
        let path = render(&kp);
        let r = self.apply_add_to_set(path, out);
        proof {
            assert(Self::push_step(pre, r, "$addToSet"@, kp.path_spec(), out));
        }
        r
    }

    /// Mark a timestamp-typed field as set to the current server time.
    pub fn current_date<KP>(self, kp: KP) -> (r: Self) where
        KP: KeyPathNonInitialNodeLike<Origin = T, UnderlyingType = bson::DateTime>,

        requires
            self.wf(),
        ensures
            r.wf(),
            r.model() == spec_set(
                self.model(),
                "$currentDate"@,
                kp.path_spec(),
                LeafModel::Flag(true),
            ),
            r.error == self.error,
    {
        let path = render(&kp);
        self.mark_current_date(path)
    }

    /// Associate an integer-typed field's path with a signed delta.
    pub fn inc<KP>(self, kp: KP, amount: i64) -> (r: Self) where
        KP: KeyPathNonInitialNodeLike<Origin = T>,
        KP::Current: IntegerCurrent,

        requires
            self.wf(),
        ensures
            r.wf(),
            r.model() == spec_set(self.model(), "$inc"@, kp.path_spec(), LeafModel::Delta(amount)),
            r.error == self.error,
    {
        let path = render(&kp);
        self.apply_increment(path, amount)
    }
}

} // verus!
