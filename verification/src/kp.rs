//! The typed path-node chain.
//!
//! A node represents one field-access step from a record's root: it knows
//! its origin record type, its current value type, its key segment, its
//! parent, and the serializer bound to the field. Rendering a node walks
//! the chain to the root and joins the key segments with a separator;
//! a root node renders as the empty string.

use vstd::prelude::*;
use vstd::string::StringExecFns;
use std::collections::HashMap;

verus! {

/// Any node of a path chain: a root, or one field access below one.
pub trait KeyPathNodeLike: Sized {
    type Origin;

    type Current;

    /// Whether nodes of this type are roots.
    spec fn is_root_spec() -> bool;

    /// The dotted path the chain renders to.
    spec fn path_spec(&self) -> Seq<char>;

    fn is_root() -> (b: bool)
        ensures
            b == Self::is_root_spec(),
    ;

    fn render_path(&self) -> (r: String)
        ensures
            r@ == self.path_spec(),
    ;
}

/// A root node: the zero-length path bound to a whole record type.
pub trait KeyPathInitialNodeLike: KeyPathNodeLike {

}

/// A non-root node: one field access with a key segment, a parent and a
/// serializer for its current value type.
pub trait KeyPathNonInitialNodeLike: KeyPathNodeLike {
    type ParentNodeTy: KeyPathNodeLike;

    type UnderlyingType;

    /// The node's own key segment.
    spec fn key_spec(&self) -> Seq<char>;

    /// The node's parent.
    spec fn parent_spec(&self) -> Self::ParentNodeTy;

    /// What the bound serializer asks of a value.
    spec fn ser_req(&self, v: &Self::Current) -> bool;

    /// What holds of a serialization outcome for a value.
    spec fn ser_ens(&self, v: &Self::Current, r: Result<bson::Bson, bson::ser::Error>) -> bool;

    fn key(&self) -> (r: String)
        ensures
            r@ == self.key_spec(),
    ;

    fn parent(&self) -> (r: &Self::ParentNodeTy)
        ensures
            *r == self.parent_spec(),
    ;

    /// Serialize a value with the serializer bound to this field.
    fn serialize_value(&self, v: &Self::Current) -> (r: Result<bson::Bson, bson::ser::Error>)
        requires
            self.ser_req(v),
        ensures
            self.ser_ens(v, r),
    ;
}

/// Declares which root node type stands for a record type.
pub trait KeyPathableAsRoot: Sized {
    type RootKeyPathNode: KeyPathInitialNodeLike<Origin = Self>;

    fn kp() -> Self::RootKeyPathNode;
}

/// Marks a field whose externally visible type is not statically known.
pub struct UnknownUnderlyingType;

/// Render a node's full dotted path by walking its chain to the root.
pub fn render<KP: KeyPathNodeLike>(node: &KP) -> (r: String)
    ensures
        r@ == node.path_spec(),
{
    node.render_path()
}

/// The root node bound to the record type `T`.
pub struct RootNode<T> {
    pub marker: core::marker::PhantomData<T>,
}

impl<T> RootNode<T> {
    pub fn new() -> (r: Self) {
        RootNode { marker: core::marker::PhantomData }
    }
}

impl<T> KeyPathNodeLike for RootNode<T> {
    type Origin = T;

    type Current = T;

    open spec fn is_root_spec() -> bool {
        true
    }

    open spec fn path_spec(&self) -> Seq<char> {
        Seq::empty()
    }

    fn is_root() -> (b: bool) {
        true
    }

    fn render_path(&self) -> (r: String) {
        String::new()
    }
}

impl<T> KeyPathInitialNodeLike for RootNode<T> {

}

/// A node for a field holding a single value of type `T`, with a
/// statically-known key segment and a serializer of type `F`.
pub struct TerminalKeyPathNode<Parent, T, U, F> where
    Parent: KeyPathNodeLike,
    F: Fn(&T) -> Result<bson::Bson, bson::ser::Error>,
 {
    pub key: &'static str,
    pub parent: Parent,
    pub serializer: F,
    pub marker: core::marker::PhantomData<(T, U)>,
}

impl<Parent, T, U, F> TerminalKeyPathNode<Parent, T, U, F> where
    Parent: KeyPathNodeLike,
    F: Fn(&T) -> Result<bson::Bson, bson::ser::Error>,
 {
    pub fn instance(key: &'static str, serializer: F, parent: Parent) -> (r: Self)
        ensures
            r.key == key,
            r.parent == parent,
            r.serializer == serializer,
            !Self::is_root_spec(),
            r.key_spec() == key@,
            r.parent_spec() == parent,
            r.path_spec() == (if Parent::is_root_spec() {
                key@
            } else {
                parent.path_spec() + "."@ + key@
            }),
            forall|v: &T| #[trigger] r.ser_req(v) == call_requires(serializer, (v,)),
            forall|v: &T, out: Result<bson::Bson, bson::ser::Error>|
                #[trigger] r.ser_ens(v, out) == call_ensures(serializer, (v,), out),
    {
        TerminalKeyPathNode { key, parent, serializer, marker: core::marker::PhantomData }
    }
}

impl<Parent, T, U, F> KeyPathNodeLike for TerminalKeyPathNode<Parent, T, U, F> where
    Parent: KeyPathNodeLike,
    F: Fn(&T) -> Result<bson::Bson, bson::ser::Error>,
 {
    type Origin = Parent::Origin;

    type Current = T;

    open spec fn is_root_spec() -> bool {
        false
    }

    open spec fn path_spec(&self) -> Seq<char> {
        if Parent::is_root_spec() {
            self.key@
        } else {
            self.parent.path_spec() + "."@ + self.key@
        }
    }

    fn is_root() -> (b: bool) {
        false
    }

    fn render_path(&self) -> (r: String) {
        if Parent::is_root() {
            self.key.to_owned()
        } else {
            let mut s = self.parent.render_path();
            s.append(".");
            s.append(self.key);
            s
        }
    }
}

impl<Parent, T, U, F> KeyPathNonInitialNodeLike for TerminalKeyPathNode<Parent, T, U, F> where
    Parent: KeyPathNodeLike,
    F: Fn(&T) -> Result<bson::Bson, bson::ser::Error>,
 {
    type ParentNodeTy = Parent;

    type UnderlyingType = U;

    open spec fn key_spec(&self) -> Seq<char> {
        self.key@
    }

    open spec fn parent_spec(&self) -> Parent {
        self.parent
    }

    open spec fn ser_req(&self, v: &T) -> bool {
        call_requires(self.serializer, (v,))
    }

    open spec fn ser_ens(&self, v: &T, r: Result<bson::Bson, bson::ser::Error>) -> bool {
        call_ensures(self.serializer, (v,), r)
    }

    fn key(&self) -> (r: String) {
        self.key.to_owned()
    }

    fn parent(&self) -> (r: &Parent) {
        &self.parent
    }

    fn serialize_value(&self, v: &T) -> (r: Result<bson::Bson, bson::ser::Error>) {
        (self.serializer)(v)
    }
}

/// A node for an associative-map field keyed by strings. Besides the
/// serializer for the whole map it carries the per-entry serializer that a
/// map-entry node inherits when a dynamic key is supplied.
pub struct HashMapKeyPathNode<Parent, V, U, F, G> where
    Parent: KeyPathNodeLike,
    F: Fn(&HashMap<String, V>) -> Result<bson::Bson, bson::ser::Error>,
    G: Fn(&V) -> Result<bson::Bson, bson::ser::Error> + Copy,
 {
    pub key: &'static str,
    pub parent: Parent,
    pub serializer: F,
    pub value_serializer: G,
    pub marker: core::marker::PhantomData<(V, U)>,
}

impl<Parent, V, U, F, G> HashMapKeyPathNode<Parent, V, U, F, G> where
    Parent: KeyPathNodeLike,
    F: Fn(&HashMap<String, V>) -> Result<bson::Bson, bson::ser::Error>,
    G: Fn(&V) -> Result<bson::Bson, bson::ser::Error> + Copy,
 {
    pub fn instance(key: &'static str, serializer: F, value_serializer: G, parent: Parent) -> (r:
        Self)
        ensures
            r.key == key,
            r.parent == parent,
            r.serializer == serializer,
            r.value_serializer == value_serializer,
            !Self::is_root_spec(),
            r.key_spec() == key@,
            r.parent_spec() == parent,
            r.path_spec() == (if Parent::is_root_spec() {
                key@
            } else {
                parent.path_spec() + "."@ + key@
            }),
            forall|v: &HashMap<String, V>| #[trigger] r.ser_req(v) == call_requires(
                serializer,
                (v,),
            ),
            forall|v: &HashMap<String, V>, out: Result<bson::Bson, bson::ser::Error>|
                #[trigger] r.ser_ens(v, out) == call_ensures(serializer, (v,), out),
    {
        HashMapKeyPathNode {
            key,
            parent,
            serializer,
            value_serializer,
            marker: core::marker::PhantomData,
        }
    }
}

impl<Parent, V, F, G> HashMapKeyPathNode<Parent, V, HashMap<String, V>, F, G> where
    Parent: KeyPathNodeLike,
    F: Fn(&HashMap<String, V>) -> Result<bson::Bson, bson::ser::Error>,
    G: Fn(&V) -> Result<bson::Bson, bson::ser::Error> + Copy,
 {
    /// Step into the entry named `key` at path-construction time.
    pub fn key(self, key: String) -> (r: HMKeyKeyPathNode<Self, V, G>)
        ensures
            r.key == key,
            r.parent == self,
            r.serializer == self.value_serializer,
            r.key_spec() == key@,
            r.parent_spec() == self,
            r.path_spec() == self.path_spec() + "."@ + key@,
            forall|v: &V| #[trigger] r.ser_req(v) == call_requires(self.value_serializer, (v,)),
            forall|v: &V, out: Result<bson::Bson, bson::ser::Error>|
                #[trigger] r.ser_ens(v, out) == call_ensures(self.value_serializer, (v,), out),
    {
        let value_serializer = self.value_serializer;
        HMKeyKeyPathNode {
            key,
            parent: self,
            serializer: value_serializer,
            marker: core::marker::PhantomData,
        }
    }
}

impl<Parent, V, U, F, G> KeyPathNodeLike for HashMapKeyPathNode<Parent, V, U, F, G> where
    Parent: KeyPathNodeLike,
    F: Fn(&HashMap<String, V>) -> Result<bson::Bson, bson::ser::Error>,
    G: Fn(&V) -> Result<bson::Bson, bson::ser::Error> + Copy,
 {
    type Origin = Parent::Origin;

    type Current = HashMap<String, V>;

    open spec fn is_root_spec() -> bool {
        false
    }

    open spec fn path_spec(&self) -> Seq<char> {
        if Parent::is_root_spec() {
            self.key@
        } else {
            self.parent.path_spec() + "."@ + self.key@
        }
    }

    fn is_root() -> (b: bool) {
        false
    }

    fn render_path(&self) -> (r: String) {
        if Parent::is_root() {
            self.key.to_owned()
        } else {
            let mut s = self.parent.render_path();
            s.append(".");
            s.append(self.key);
            s
        }
    }
}

impl<Parent, V, U, F, G> KeyPathNonInitialNodeLike for HashMapKeyPathNode<Parent, V, U, F, G> where
    Parent: KeyPathNodeLike,
    F: Fn(&HashMap<String, V>) -> Result<bson::Bson, bson::ser::Error>,
    G: Fn(&V) -> Result<bson::Bson, bson::ser::Error> + Copy,
 {
    type ParentNodeTy = Parent;

    type UnderlyingType = U;

    open spec fn key_spec(&self) -> Seq<char> {
        self.key@
    }

    open spec fn parent_spec(&self) -> Parent {
        self.parent
    }

    open spec fn ser_req(&self, v: &HashMap<String, V>) -> bool {
        call_requires(self.serializer, (v,))
    }

    open spec fn ser_ens(
        &self,
        v: &HashMap<String, V>,
        r: Result<bson::Bson, bson::ser::Error>,
    ) -> bool {
        call_ensures(self.serializer, (v,), r)
    }

    fn key(&self) -> (r: String) {
        self.key.to_owned()
    }

    fn parent(&self) -> (r: &Parent) {
        &self.parent
    }

    fn serialize_value(&self, v: &HashMap<String, V>) -> (r: Result<bson::Bson, bson::ser::Error>) {
        (self.serializer)(v)
    }
}

/// A node for one dynamically-named entry inside an associative-map field;
/// the key segment is a runtime string, and the serializer is the per-entry
/// conversion the map field was bound with.
pub struct HMKeyKeyPathNode<Parent, V, G> where
    Parent: KeyPathNodeLike,
    G: Fn(&V) -> Result<bson::Bson, bson::ser::Error> + Copy,
 {
    pub key: String,
    pub parent: Parent,
    pub serializer: G,
    pub marker: core::marker::PhantomData<V>,
}

impl<Parent, V, G> KeyPathNodeLike for HMKeyKeyPathNode<Parent, V, G> where
    Parent: KeyPathNodeLike,
    G: Fn(&V) -> Result<bson::Bson, bson::ser::Error> + Copy,
 {
    type Origin = Parent::Origin;

    type Current = V;

    open spec fn is_root_spec() -> bool {
        false
    }

    open spec fn path_spec(&self) -> Seq<char> {
        if Parent::is_root_spec() {
            self.key@
        } else {
            self.parent.path_spec() + "."@ + self.key@
        }
    }

    fn is_root() -> (b: bool) {
        false
    }

    fn render_path(&self) -> (r: String) {
        if Parent::is_root() {
            let mut s = String::new();
            s.append(self.key.as_str());
            s
        } else {
            let mut s = self.parent.render_path();
            s.append(".");
            s.append(self.key.as_str());
            s
        }
    }
}

impl<Parent, V, G> KeyPathNonInitialNodeLike for HMKeyKeyPathNode<Parent, V, G> where
    Parent: KeyPathNodeLike,
    G: Fn(&V) -> Result<bson::Bson, bson::ser::Error> + Copy,
 {
    type ParentNodeTy = Parent;

    type UnderlyingType = V;

    open spec fn key_spec(&self) -> Seq<char> {
        self.key@
    }

    open spec fn parent_spec(&self) -> Parent {
        self.parent
    }

    open spec fn ser_req(&self, v: &V) -> bool {
        call_requires(self.serializer, (v,))
    }

    open spec fn ser_ens(&self, v: &V, r: Result<bson::Bson, bson::ser::Error>) -> bool {
        call_ensures(self.serializer, (v,), r)
    }

    fn key(&self) -> (r: String) {
        let mut s = String::new();
        s.append(self.key.as_str());
        s
    }

    fn parent(&self) -> (r: &Parent) {
        &self.parent
    }

    fn serialize_value(&self, v: &V) -> (r: Result<bson::Bson, bson::ser::Error>) {
        (self.serializer)(v)
    }
}

} // verus!
