use vstd::prelude::*;

use crate::text::{ascii_lowercase, to_ascii_lowercase};

verus! {

/// A `namespace:key` pair naming persisted data. The namespace is kept in
/// ASCII lower case; the key is kept as given.
pub struct NamespacedKey {
    namespace: String,
    key: String,
}

impl NamespacedKey {
    /// The namespace as stored.
    pub closed spec fn namespace_view(&self) -> Seq<char> {
        self.namespace@
    }

    /// The key as stored.
    pub closed spec fn key_view(&self) -> Seq<char> {
        self.key@
    }

    /// Builds a key; the namespace is lower-cased (ASCII only), the key is copied.
    pub fn new(namespace: &str, key: &str) -> (res: Self)
        ensures
            res.namespace_view() == ascii_lowercase(namespace@),
            res.key_view() == key@,
    {
        broadcast use vstd::string::group_string_axioms;
        Self { namespace: to_ascii_lowercase(namespace), key: key.to_string() }
    }

    /// The stored namespace.
    pub fn namespace(&self) -> (res: &str)
        ensures
            res@ == self.namespace_view(),
    {
        self.namespace.as_str()
    }

    /// The stored key.
    pub fn key(&self) -> (res: &str)
        ensures
            res@ == self.key_view(),
    {
        self.key.as_str()
    }
}

} // verus!
