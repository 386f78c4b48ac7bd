//! The signing keys a validator trusts, found by key id.

use vstd::prelude::*;
use crate::text_map::TextMap;

verus! {

/// What a key needs besides its id: the parameters of its algorithm family.
#[derive(Debug, Clone)]
pub enum KeyParameters {
    /// An RSA public key: modulus and public exponent, each in base64url.
    Rsa { modulus: String, exponent: String },
    /// An elliptic-curve key.
    EllipticCurve,
    /// An octet key pair.
    OctetKeyPair,
    /// A symmetric octet key.
    OctetKey,
}

/// [`KeyParameters`] as contracts see them.
pub enum KeyParametersView {
    Rsa { modulus: Seq<char>, exponent: Seq<char> },
    EllipticCurve,
    OctetKeyPair,
    OctetKey,
}

impl View for KeyParameters {
    type V = KeyParametersView;

    open spec fn view(&self) -> KeyParametersView {
        match self {
            KeyParameters::Rsa { modulus, exponent } => KeyParametersView::Rsa {
                modulus: modulus@,
                exponent: exponent@,
            },
            KeyParameters::EllipticCurve => KeyParametersView::EllipticCurve,
            KeyParameters::OctetKeyPair => KeyParametersView::OctetKeyPair,
            KeyParameters::OctetKey => KeyParametersView::OctetKey,
        }
    }
}

/// One published signing key.
#[derive(Debug, Clone)]
pub struct Key {
    /// The id by which tokens name this key.
    pub key_id: Option<String>,
    /// The algorithm family of the key, with its parameters.
    pub parameters: KeyParameters,
    /// The signature algorithm the key declares, by name, such as `RS256`.
    pub key_algorithm: Option<String>,
}

/// A [`Key`] as contracts see it.
pub struct KeyView {
    pub key_id: Option<Seq<char>>,
    pub parameters: KeyParametersView,
    pub key_algorithm: Option<Seq<char>>,
}

impl View for Key {
    type V = KeyView;

    open spec fn view(&self) -> KeyView {
        KeyView {
            key_id: match self.key_id {
                Some(id) => Some(id@),
                None => None,
            },
            parameters: self.parameters@,
            key_algorithm: match self.key_algorithm {
                Some(name) => Some(name@),
                None => None,
            },
        }
    }
}

/// The views of a sequence of keys, in the same order.
pub open spec fn key_views(keys: Seq<Key>) -> Seq<KeyView> {
    keys.map_values(|key: Key| key@)
}

/// The first key of `keys` that carries the id `id`, if there is one.
pub open spec fn first_with_id(keys: Seq<KeyView>, id: Seq<char>) -> Option<KeyView>
    decreases keys.len(),
{
    if keys.len() == 0 {
        None
    } else {
        match first_with_id(keys.drop_last(), id) {
            Some(key) => Some(key),
            None => if keys.last().key_id == Some(id) {
                Some(keys.last())
            } else {
                None
            },
        }
    }
}

/// What `first_with_id` finds is first indeed: a key of the list that carries
/// the id, with no key before it that carries it too; and it finds nothing
/// only where no key of the list carries the id.
pub proof fn law_first_is_first(keys: Seq<KeyView>, id: Seq<char>)
    ensures
        match first_with_id(keys, id) {
            Some(first) => exists|i: int|
                0 <= i < keys.len() && #[trigger] keys[i] == first && first.key_id == Some(id)
                    && forall|j: int| 0 <= j < i ==> (#[trigger] keys[j]).key_id != Some(id),
            None => forall|i: int| 0 <= i < keys.len() ==> (#[trigger] keys[i]).key_id != Some(id),
        },
    decreases keys.len(),
{
    if keys.len() > 0 {
        let earlier = keys.drop_last();
        law_first_is_first(earlier, id);
        match first_with_id(earlier, id) {
            Some(first) => {
                let i = choose|i: int|
                    0 <= i < earlier.len() && #[trigger] earlier[i] == first && first.key_id
                        == Some(id) && forall|j: int|
                        0 <= j < i ==> (#[trigger] earlier[j]).key_id != Some(id);
                assert(keys[i] == first);
                assert forall|j: int| 0 <= j < i implies (#[trigger] keys[j]).key_id != Some(
                    id,
                ) by {
                    assert(keys[j] == earlier[j]);
                }
            },
            None => {
                assert forall|j: int| 0 <= j < keys.len() - 1 implies (#[trigger] keys[j]).key_id
                    != Some(id) by {
                    assert(keys[j] == earlier[j]);
                }
                if keys.last().key_id == Some(id) {
                    assert(keys[keys.len() - 1] == keys.last());
                }
            },
        }
    }
}

/// The lookup table that a list of keys stands for: each id that occurs in
/// the list leads to the first key that carries it.
pub open spec fn key_table(keys: Seq<KeyView>) -> Map<Seq<char>, KeyView> {
    Map::new(
        |id: Seq<char>| first_with_id(keys, id) is Some,
        |id: Seq<char>| first_with_id(keys, id)->0,
    )
}

/// A set of signing keys in which every key has an id and no id occurs twice.
/// It does not change once it is made, and finds a key in a number of steps
/// that grows with the logarithm of its size.
pub struct KeySet {
    keys: TextMap<Key>,
}

impl View for KeySet {
    type V = Map<Seq<char>, KeyView>;

    closed spec fn view(&self) -> Map<Seq<char>, KeyView> {
        Map::new(|id: Seq<char>| self.keys@.contains_key(id), |id: Seq<char>| self.keys@[id]@)
    }
}

/// Whether every key of the map stands under its own id.
spec fn filed_by_id(keys: Map<Seq<char>, Key>) -> bool {
    forall|id: Seq<char>| #[trigger] keys.contains_key(id) ==> keys[id]@.key_id == Some(id)
}

/// Whether the map holds, under each id, the first key of the list with that
/// id, and nothing else.
spec fn files_first(keys: Map<Seq<char>, Key>, listed: Seq<KeyView>) -> bool {
    forall|id: Seq<char>|
        match #[trigger] first_with_id(listed, id) {
            Some(first) => keys.contains_key(id) && keys[id]@ == first,
            None => !keys.contains_key(id),
        }
}

impl KeySet {
    #[verifier::type_invariant]
    spec fn well_formed(&self) -> bool {
        filed_by_id(self.keys@)
    }

    /// The set of the keys in `keys` that have an id. Where several keys share
    /// an id, the set holds the first of them.
    pub fn from_keys(keys: Vec<Key>) -> (set: KeySet)
        ensures
            set@ == key_table(key_views(keys@)),
    {
        let ghost source = key_views(keys@);
        let mut filed: TextMap<Key> = TextMap::new();
        for key in it: keys
            invariant
                it.seq() == keys@,
                source == key_views(keys@),
                filed_by_id(filed@),
                files_first(filed@, source.take(it.index() as int)),
        {
            let ghost n = it.index() as int;
            let ghost before = filed@;
            proof {
                assert(source.take(n + 1).drop_last() =~= source.take(n));
                assert(source.take(n + 1).last() == key@);
            }
            let fresh = match &key.key_id {
                Some(id) => if filed.contains_key(id.as_str()) {
                    None
                } else {
                    Some(id.clone())
                },
                None => None,
            };
            if let Some(id) = fresh {
                filed.insert(id, key);
            }
            proof {
                assert forall|other: Seq<char>|
                    match #[trigger] first_with_id(source.take(n + 1), other) {
                        Some(first) => filed@.contains_key(other) && filed@[other]@ == first,
                        None => !filed@.contains_key(other),
                    } by {
                    let earlier = first_with_id(source.take(n), other);
                    assert(earlier is Some ==> before.contains_key(other));
                }
            }
        }
        proof {
            assert(source.take(keys@.len() as int) =~= source);
        }
        let set = KeySet { keys: filed };
        assert(set@ =~= key_table(source));
        set
    }

    /// The key that the set holds under `key_id`, if it holds one. A key that
    /// is found carries the id that was asked for.
    pub fn find(&self, key_id: &str) -> (found: Option<&Key>)
        ensures
            match found {
                Some(key) => self@.contains_key(key_id@) && self@[key_id@] == key@ && key@.key_id
                    == Some(key_id@),
                None => !self@.contains_key(key_id@),
            },
    {
        proof {
            use_type_invariant(self);
        }
        self.keys.get(key_id)
    }
}

} // verus!
