//! The contract's stored records: asset definitions keyed by their lowercase asset type, and the
//! fee payment details of onboarded assets awaiting verification.

use crate::error::ContractError;
use crate::text::{
    lemma_lex_asymmetric, lemma_lex_irreflexive, lemma_lex_total, lemma_lex_transitive, lex_lt,
    lowercase, str_eq, text_lt, to_lowercase_text,
};
use crate::types::asset_definition::{AssetDefinitionV3, AssetDefinitionV3View};
use crate::types::fee_payment_detail::{FeePaymentDetail, FeePaymentDetailView};
use vstd::prelude::*;
use vstd::string::StringExecFns;

verus! {

/// A stored asset definition and its key.
pub struct DefinitionEntry {
    pub key: String,
    pub definition: AssetDefinitionV3,
}

/// The asset definitions of the contract, ordered by key.
pub struct AssetDefinitionStore {
    entries: Vec<DefinitionEntry>,
}

/// The definition stored under key `k` in `es` (the first one, should there be several).
pub open spec fn lookup<K, V>(es: Seq<(K, V)>, k: K) -> Option<V>
    decreases es.len(),
{
    if es.len() == 0 {
        None
    } else if es[0].0 == k {
        Some(es[0].1)
    } else {
        lookup(es.drop_first(), k)
    }
}

/// Whether the keys of `es` are in strictly ascending order.
pub open spec fn keys_ascending(es: Seq<(Seq<char>, AssetDefinitionV3View)>) -> bool {
    forall|i: int, j: int| 0 <= i < j < es.len() ==> lex_lt(#[trigger] es[i].0, #[trigger] es[j].0)
}

/// Nothing is found under a key that no entry has; with distinct keys, the entry at `i` is the
/// one found under its key.
pub proof fn lemma_lookup<K, V>(es: Seq<(K, V)>, k: K)
    ensures
        (forall|j: int| 0 <= j < es.len() ==> es[j].0 != k) ==> lookup(es, k) is None,
        (exists|j: int| 0 <= j < es.len() && es[j].0 == k) ==> lookup(es, k) is Some,
        forall|i: int|
            0 <= i < es.len() && es[i].0 == k && (forall|j: int|
                0 <= j < es.len() && j != i ==> es[j].0 != k) ==> lookup(es, k) == Some(es[i].1),
    decreases es.len(),
{
    if es.len() > 0 {
        lemma_lookup(es.drop_first(), k);
        assert forall|j: int| 0 <= j < es.drop_first().len() implies es.drop_first()[j] == es[j + 1] by {}
        if exists|j: int| 0 <= j < es.len() && es[j].0 == k {
            let j = choose|j: int| 0 <= j < es.len() && es[j].0 == k;
            if j > 0 {
                assert(es.drop_first()[j - 1].0 == k);
            }
        }
        assert forall|i: int|
            0 <= i < es.len() && es[i].0 == k && (forall|j: int|
                0 <= j < es.len() && j != i ==> es[j].0 != k) implies lookup(es, k) == Some(es[i].1) by {
            if i > 0 {
                assert(es[0].0 != k);
                assert forall|j: int|
                    0 <= j < es.drop_first().len() && j != i - 1 implies es.drop_first()[j].0 != k by {
                    assert(es[j + 1].0 != k);
                }
                assert(es.drop_first()[i - 1] == es[i]);
            }
        }
    }
}

/// What is found under a key is the value of an entry with that key.
pub proof fn lemma_lookup_found<K, V>(es: Seq<(K, V)>, k: K)
    ensures
        lookup(es, k) matches Some(v) ==> exists|i: int| 0 <= i < es.len() && es[i] == (k, v),
    decreases es.len(),
{
    if es.len() > 0 && es[0].0 != k {
        lemma_lookup_found(es.drop_first(), k);
        if let Some(v) = lookup(es, k) {
            let i = choose|i: int| 0 <= i < es.drop_first().len() && es.drop_first()[i] == (k, v);
            assert(es[i + 1] == (k, v));
        }
    } else if es.len() > 0 {
        assert(es[0] == (k, es[0].1));
    }
}

/// With ascending keys, the entry at `i` is the one found under its key.
pub proof fn lemma_lookup_at(es: Seq<(Seq<char>, AssetDefinitionV3View)>, i: int)
    requires
        keys_ascending(es),
        0 <= i < es.len(),
    ensures
        lookup(es, es[i].0) == Some(es[i].1),
{
    let k = es[i].0;
    assert forall|j: int| 0 <= j < es.len() && j != i implies es[j].0 != k by {
        lemma_lex_irreflexive(k);
        if j < i {
            assert(lex_lt(es[j].0, es[i].0));
        } else {
            assert(lex_lt(es[i].0, es[j].0));
        }
    }
    lemma_lookup(es, k);
}

impl View for AssetDefinitionStore {
    type V = Seq<(Seq<char>, AssetDefinitionV3View)>;

    closed spec fn view(&self) -> Seq<(Seq<char>, AssetDefinitionV3View)> {
        self.entries@.map_values(|e: DefinitionEntry| (e.key@, e.definition@))
    }
}

/// The message refusing a lookup of an asset type with no definition.
pub open spec fn missing_definition_message(asset_type: Seq<char>) -> Seq<char> {
    "no asset definition existed for asset type "@ + asset_type
}

impl AssetDefinitionStore {
    /// Whether every entry is stored under the lowercase form of its asset type and the keys
    /// ascend.
    pub closed spec fn wf(&self) -> bool {
        &&& forall|i: int|
            0 <= i < self.entries@.len() ==> (#[trigger] self.entries@[i]).key@ == lowercase(
                self.entries@[i].definition.asset_type@,
            )
        &&& keys_ascending(self@)
    }

    /// Every stored definition is stored under the lowercase form of its asset type, with keys
    /// ascending.
    pub proof fn lemma_wf_view(&self)
        requires
            self.wf(),
        ensures
            keys_ascending(self@),
            forall|i: int|
                0 <= i < self@.len() ==> (#[trigger] self@[i]).0 == lowercase(self@[i].1.asset_type@),
    {
        assert forall|i: int| 0 <= i < self@.len() implies (#[trigger] self@[i]).0 == lowercase(
            self@[i].1.asset_type@,
        ) by {
            assert(self@[i] == (self.entries@[i].key@, self.entries@[i].definition@));
        }
    }

    /// A store with no definitions.
    pub fn new() -> (res: Self)
        ensures
            res.wf(),
            res@ == Seq::<(Seq<char>, AssetDefinitionV3View)>::empty(),
    {
        let res = AssetDefinitionStore { entries: Vec::new() };
        assert(res@ =~= Seq::<(Seq<char>, AssetDefinitionV3View)>::empty());
        res
    }

    /// The index of the first entry whose key is not below `key`.
    fn position(&self, key: &str) -> (res: usize)
        requires
            self.wf(),
        ensures
            res <= self@.len(),
            forall|j: int| 0 <= j < res ==> lex_lt(#[trigger] self@[j].0, key@),
            res < self@.len() ==> !lex_lt(self@[res as int].0, key@),
    {
        let mut i: usize = 0;
        while i < self.entries.len()
            invariant
                i <= self@.len(),
                self@.len() == self.entries@.len(),
                forall|j: int| 0 <= j < i ==> lex_lt(#[trigger] self@[j].0, key@),
            decreases self@.len() - i,
        {
            assert(self@[i as int].0 == self.entries@[i as int].key@);
            if !text_lt(self.entries[i].key.as_str(), key) {
                return i;
            }
            i = i + 1;
        }
        i
    }

    /// The index of the entry stored under `key`, if any.
    fn find(&self, key: &str) -> (res: Option<usize>)
        requires
            self.wf(),
        ensures
            res matches Some(i) ==> i < self@.len() && self@[i as int].0 == key@,
            res is None ==> lookup(self@, key@) is None,
    {
        let i = self.position(key);
        if i < self.entries.len() && str_eq(self.entries[i].key.as_str(), key) {
            assert(self@[i as int].0 == self.entries@[i as int].key@);
            return Some(i);
        }
        proof {
            assert forall|j: int| 0 <= j < self@.len() implies self@[j].0 != key@ by {
                if j < i {
                    lemma_lex_irreflexive(key@);
                } else if j > i {
                    lemma_lex_total(self@[i as int].0, key@);
                    assert(lex_lt(self@[i as int].0, self@[j].0));
                    lemma_lex_asymmetric(self@[i as int].0, self@[j].0);
                } else {
                    assert(self@[i as int].0 == self.entries@[i as int].key@);
                }
            }
            lemma_lookup(self@, key@);
        }
        None
    }

    /// The definition of `asset_type` (matched by lowercase form), if any.
    pub fn may_load_asset_definition_by_type_v3(&self, asset_type: &str) -> (res: Option<
        AssetDefinitionV3,
    >)
        requires
            self.wf(),
        ensures
            match res {
                Some(d) => lookup(self@, lowercase(asset_type@)) == Some(d@),
                None => lookup(self@, lowercase(asset_type@)) is None,
            },
    {
        let key = to_lowercase_text(asset_type);
        match self.find(key.as_str()) {
            Some(i) => {
                proof {
                    lemma_lookup_at(self@, i as int);
                }
                assert(self@[i as int].1 == self.entries@[i as int].definition@);
                Some(self.entries[i].definition.copy())
            },
            None => None,
        }
    }

    /// The definition of `asset_type` (matched by lowercase form), or a record-not-found refusal.
    pub fn load_asset_definition_by_type_v3(&self, asset_type: &str) -> (res: Result<
        AssetDefinitionV3,
        ContractError,
    >)
        requires
            self.wf(),
        ensures
            match res {
                Ok(d) => lookup(self@, lowercase(asset_type@)) == Some(d@),
                Err(e) => {
                    &&& lookup(self@, lowercase(asset_type@)) is None
                    &&& e matches ContractError::RecordNotFound { explanation: x } && x@
                        == missing_definition_message(asset_type@)
                },
            },
    {
        match self.may_load_asset_definition_by_type_v3(asset_type) {
            Some(d) => Ok(d),
            None => Err(
                ContractError::RecordNotFound {
                    explanation: "no asset definition existed for asset type ".to_owned().concat(
                        asset_type,
                    ),
                },
            ),
        }
    }

    /// Inserts `entry` at index `i`, which keeps the keys ascending.
    fn insert_at(&mut self, i: usize, entry: DefinitionEntry)
        requires
            old(self).wf(),
            i <= old(self)@.len(),
            entry.key@ == lowercase(entry.definition.asset_type@),
            forall|j: int| 0 <= j < i ==> lex_lt(#[trigger] old(self)@[j].0, entry.key@),
            forall|j: int| i <= j < old(self)@.len() ==> lex_lt(entry.key@, #[trigger] old(self)@[j].0),
        ensures
            final(self).wf(),
            final(self)@ == old(self)@.insert(i as int, (entry.key@, entry.definition@)),
    {
        let ghost e = (entry.key@, entry.definition@);
        let ghost before = self@;
        self.entries.insert(i, entry);
        assert(self@ =~= before.insert(i as int, e));
        assert forall|a: int, b: int| 0 <= a < b < self@.len() implies lex_lt(
            #[trigger] self@[a].0,
            #[trigger] self@[b].0,
        ) by {
            if b < i {
            } else if b == i {
            } else if a < i {
                assert(lex_lt(self@[a].0, e.0));
                lemma_lex_transitive(self@[a].0, e.0, self@[b].0);
            } else if a == i {
            } else {
            }
        }
        assert forall|j: int| 0 <= j < self.entries@.len() implies (#[trigger] self.entries@[j]).key@
            == lowercase(self.entries@[j].definition.asset_type@) by {
            if j < i {
                assert(self.entries@[j] == old(self).entries@[j]);
            } else if j > i {
                assert(self.entries@[j] == old(self).entries@[j - 1]);
            }
        }
    }

    /// Adds a new definition under the lowercase form of its asset type, refusing one whose key
    /// is already taken.
    pub fn insert_asset_definition_v3(&mut self, definition: &AssetDefinitionV3) -> (res: Result<
        (),
        ContractError,
    >)
        requires
            old(self).wf(),
        ensures
            final(self).wf(),
            res is Ok <==> lookup(old(self)@, lowercase(definition.asset_type@)) is None,
            res is Ok ==> forall|k: Seq<char>|
                #[trigger] lookup(final(self)@, k) == if k == lowercase(definition.asset_type@) {
                    Some(definition@)
                } else {
                    lookup(old(self)@, k)
                },
            res matches Err(e) ==> final(self)@ == old(self)@ && e is RecordAlreadyExists,
    {
        let key = definition.storage_key();
        let i = self.position(key.as_str());
        if i < self.entries.len() && str_eq(self.entries[i].key.as_str(), key.as_str()) {
            assert(self@[i as int].0 == self.entries@[i as int].key@);
            proof {
                lemma_lookup(self@, key@);
            }
            let explanation = "unique constraints violated! record exists with asset type [".to_owned().concat(
                self.entries[i].definition.asset_type.as_str(),
            ).concat("]");
            return Err(ContractError::RecordAlreadyExists { explanation });
        }
        proof {
            assert forall|j: int| i <= j < self@.len() implies lex_lt(key@, #[trigger] self@[j].0) by {
                assert(self@[i as int].0 == self.entries@[i as int].key@);
                lemma_lex_total(self@[i as int].0, key@);
                if j > i {
                    lemma_lex_transitive(key@, self@[i as int].0, self@[j].0);
                }
            }
            assert forall|j: int| 0 <= j < self@.len() implies self@[j].0 != key@ by {
                lemma_lex_irreflexive(key@);
            }
            lemma_lookup(self@, key@);
        }
        let ghost before = self@;
        let entry = DefinitionEntry { key, definition: definition.copy() };
        self.insert_at(i, entry);
        proof {
            assert forall|k: Seq<char>| #[trigger] lookup(self@, k) == if k == lowercase(
                definition.asset_type@,
            ) {
                Some(definition@)
            } else {
                lookup(before, k)
            } by {
                if k == lowercase(definition.asset_type@) {
                    lemma_lookup_at(self@, i as int);
                } else {
                    if exists|j: int| 0 <= j < before.len() && before[j].0 == k {
                        let j = choose|j: int| 0 <= j < before.len() && before[j].0 == k;
                        lemma_lookup_at(before, j);
                        let j2 = if j < i { j } else { j + 1 };
                        assert(self@[j2] == before[j]);
                        lemma_lookup_at(self@, j2);
                    } else {
                        assert forall|j: int| 0 <= j < self@.len() implies self@[j].0 != k by {
                            if j < i {
                                assert(self@[j] == before[j]);
                            } else if j > i {
                                assert(self@[j] == before[j - 1]);
                            }
                        }
                        lemma_lookup(self@, k);
                        lemma_lookup(before, k);
                    }
                }
            }
        }
        Ok(())
    }

    /// Removes the entry at index `i`, which keeps the keys ascending.
    fn remove_at(&mut self, i: usize) -> (res: DefinitionEntry)
        requires
            old(self).wf(),
            i < old(self)@.len(),
        ensures
            final(self).wf(),
            final(self)@ == old(self)@.remove(i as int),
            (res.key@, res.definition@) == old(self)@[i as int],
            res.key@ == lowercase(res.definition.asset_type@),
    {
        let ghost before = self@;
        let res = self.entries.remove(i);
        assert(self@ =~= before.remove(i as int));
        assert forall|j: int| 0 <= j < self.entries@.len() implies (#[trigger] self.entries@[j]).key@
            == lowercase(self.entries@[j].definition.asset_type@) by {
            if j < i {
                assert(self.entries@[j] == old(self).entries@[j]);
            } else {
                assert(self.entries@[j] == old(self).entries@[j + 1]);
            }
        }
        assert forall|a: int, b: int| 0 <= a < b < self@.len() implies lex_lt(
            #[trigger] self@[a].0,
            #[trigger] self@[b].0,
        ) by {
            let a2 = if a < i { a } else { a + 1 };
            let b2 = if b < i { b } else { b + 1 };
            assert(self@[a] == before[a2]);
            assert(self@[b] == before[b2]);
        }
        res
    }

    /// Replaces the definition stored under the lowercase form of the new definition's asset
    /// type, refusing when there is none.
    pub fn replace_asset_definition_v3(&mut self, definition: &AssetDefinitionV3) -> (res: Result<
        (),
        ContractError,
    >)
        requires
            old(self).wf(),
        ensures
            final(self).wf(),
            res is Ok <==> lookup(old(self)@, lowercase(definition.asset_type@)) is Some,
            res is Ok ==> forall|k: Seq<char>|
                #[trigger] lookup(final(self)@, k) == if k == lowercase(definition.asset_type@) {
                    Some(definition@)
                } else {
                    lookup(old(self)@, k)
                },
            res matches Err(e) ==> final(self)@ == old(self)@ && (e matches ContractError::RecordNotFound {
                explanation: x,
            } && x@ == "no record exists to update for asset type ["@ + definition.asset_type@
                + "]"@),
    {
        let key = definition.storage_key();
        match self.find(key.as_str()) {
            None => {
                let explanation = "no record exists to update for asset type [".to_owned().concat(
                    definition.asset_type.as_str(),
                ).concat("]");
                Err(ContractError::RecordNotFound { explanation })
            },
            Some(i) => {
                let ghost before = self@;
                proof {
                    lemma_lookup_at(before, i as int);
                }
                self.remove_at(i);
                let ghost mid = self@;
                proof {
                    assert forall|j: int| 0 <= j < i implies lex_lt(#[trigger] mid[j].0, key@) by {
                        assert(mid[j] == before[j]);
                        assert(lex_lt(before[j].0, before[i as int].0));
                    }
                    assert forall|j: int| i <= j < mid.len() implies lex_lt(key@, #[trigger] mid[j].0) by {
                        assert(mid[j] == before[j + 1]);
                        assert(lex_lt(before[i as int].0, before[j + 1].0));
                    }
                }
                let entry = DefinitionEntry { key, definition: definition.copy() };
                self.insert_at(i, entry);
                proof {
                    assert(self@ =~= before.update(i as int, (key@, definition@)));
                    assert forall|k: Seq<char>| #[trigger] lookup(self@, k) == if k == lowercase(
                        definition.asset_type@,
                    ) {
                        Some(definition@)
                    } else {
                        lookup(before, k)
                    } by {
                        if k == lowercase(definition.asset_type@) {
                            lemma_lookup_at(self@, i as int);
                        } else if exists|j: int| 0 <= j < before.len() && before[j].0 == k {
                            let j = choose|j: int| 0 <= j < before.len() && before[j].0 == k;
                            lemma_lookup_at(before, j);
                            assert(j != i);
                            assert(self@[j] == before[j]);
                            lemma_lookup_at(self@, j);
                        } else {
                            assert forall|j: int| 0 <= j < self@.len() implies self@[j].0 != k by {
                                if j != i {
                                    assert(self@[j] == before[j]);
                                }
                            }
                            lemma_lookup(self@, k);
                            lemma_lookup(before, k);
                        }
                    }
                }
                Ok(())
            },
        }
    }

    /// Removes the definition of `asset_type` (matched by lowercase form) and returns its asset
    /// type as stored, refusing when there is none.
    pub fn delete_asset_definition_by_asset_type_v3(&mut self, asset_type: &str) -> (res: Result<
        String,
        ContractError,
    >)
        requires
            old(self).wf(),
        ensures
            final(self).wf(),
            res is Ok <==> lookup(old(self)@, lowercase(asset_type@)) is Some,
            res matches Ok(t) ==> t@ == lookup(old(self)@, lowercase(asset_type@))->0.asset_type@,
            res is Ok ==> forall|k: Seq<char>|
                #[trigger] lookup(final(self)@, k) == if k == lowercase(asset_type@) {
                    None
                } else {
                    lookup(old(self)@, k)
                },
            res matches Err(e) ==> final(self)@ == old(self)@ && (e matches ContractError::RecordNotFound {
                explanation: x,
            } && x@ == missing_definition_message(asset_type@)),
    {
        let key = to_lowercase_text(asset_type);
        match self.find(key.as_str()) {
            None => Err(
                ContractError::RecordNotFound {
                    explanation: "no asset definition existed for asset type ".to_owned().concat(
                        asset_type,
                    ),
                },
            ),
            Some(i) => {
                let ghost before = self@;
                proof {
                    lemma_lookup_at(before, i as int);
                }
                let entry = self.remove_at(i);
                proof {
                    assert forall|k: Seq<char>| #[trigger] lookup(self@, k) == if k == lowercase(
                        asset_type@,
                    ) {
                        None
                    } else {
                        lookup(before, k)
                    } by {
                        if k == lowercase(asset_type@) {
                            assert forall|j: int| 0 <= j < self@.len() implies self@[j].0 != k by {
                                let j2 = if j < i { j } else { j + 1 };
                                assert(self@[j] == before[j2]);
                                lemma_lex_irreflexive(k);
                                if j2 < i {
                                    assert(lex_lt(before[j2].0, before[i as int].0));
                                } else {
                                    assert(lex_lt(before[i as int].0, before[j2].0));
                                }
                            }
                            lemma_lookup(self@, k);
                        } else if exists|j: int| 0 <= j < before.len() && before[j].0 == k {
                            let j = choose|j: int| 0 <= j < before.len() && before[j].0 == k;
                            lemma_lookup_at(before, j);
                            let j2 = if j < i { j } else { j - 1 };
                            assert(self@[j2] == before[j]);
                            lemma_lookup_at(self@, j2);
                        } else {
                            assert forall|j: int| 0 <= j < self@.len() implies self@[j].0 != k by {
                                let j2 = if j < i { j } else { j + 1 };
                                assert(self@[j] == before[j2]);
                            }
                            lemma_lookup(self@, k);
                            lemma_lookup(before, k);
                        }
                    }
                }
                Ok(entry.definition.asset_type)
            },
        }
    }

    /// Every stored definition, in ascending order of key.
    pub fn list_asset_definitions_v3(&self) -> (res: Vec<AssetDefinitionV3>)
        requires
            self.wf(),
        ensures
            res@.len() == self@.len(),
            forall|i: int| 0 <= i < res@.len() ==> (#[trigger] res@[i])@ == self@[i].1,
    {
        let mut out: Vec<AssetDefinitionV3> = Vec::new();
        let mut i: usize = 0;
        while i < self.entries.len()
            invariant
                i <= self.entries@.len(),
                self@.len() == self.entries@.len(),
                out@.len() == i,
                forall|j: int| 0 <= j < i ==> (#[trigger] out@[j])@ == self@[j].1,
            decreases self.entries@.len() - i,
        {
            assert(self@[i as int].1 == self.entries@[i as int].definition@);
            out.push(self.entries[i].definition.copy());
            i = i + 1;
        }
        out
    }
}

} // verus!

verus! {

/// A stored fee payment detail and the asset type it was charged for.
pub struct FeeEntry {
    pub asset_type: String,
    pub detail: FeePaymentDetail,
}

/// The fee payment details of onboarded assets awaiting verification, one per scope address and
/// asset type.
pub struct FeePaymentStore {
    entries: Vec<FeeEntry>,
}

impl View for FeePaymentStore {
    type V = Seq<((Seq<char>, Seq<char>), FeePaymentDetailView)>;

    closed spec fn view(&self) -> Seq<((Seq<char>, Seq<char>), FeePaymentDetailView)> {
        self.entries@.map_values(
            |e: FeeEntry| ((e.detail.scope_address@, e.asset_type@), e.detail@),
        )
    }
}

/// Whether no two entries of `es` share a key.
pub open spec fn keys_distinct<K, V>(es: Seq<(K, V)>) -> bool {
    forall|i: int, j: int| 0 <= i < es.len() && 0 <= j < es.len() && i != j ==> es[i].0 != es[j].0
}

/// The message refusing a lookup of a missing fee payment detail.
pub open spec fn missing_fee_message(scope_address: Seq<char>, asset_type: Seq<char>) -> Seq<char> {
    "no fee payment detail existed for scope ["@ + scope_address + "] and asset type ["@ + asset_type
        + "]"@
}

impl FeePaymentStore {
    /// Whether no two stored details share a scope address and asset type.
    pub closed spec fn wf(&self) -> bool {
        keys_distinct(self@)
    }

    /// A store with no fee payment details.
    pub fn new() -> (res: Self)
        ensures
            res.wf(),
            res@ == Seq::<((Seq<char>, Seq<char>), FeePaymentDetailView)>::empty(),
    {
        let res = FeePaymentStore { entries: Vec::new() };
        assert(res@ =~= Seq::<((Seq<char>, Seq<char>), FeePaymentDetailView)>::empty());
        res
    }

    /// The index of the detail for `scope_address` and `asset_type`, if any.
    fn find(&self, scope_address: &str, asset_type: &str) -> (res: Option<usize>)
        requires
            self.wf(),
        ensures
            res matches Some(i) ==> i < self@.len() && self@[i as int].0 == (scope_address@, asset_type@)
                && lookup(self@, (scope_address@, asset_type@)) == Some(self@[i as int].1),
            res is None ==> lookup(self@, (scope_address@, asset_type@)) is None,
    {
        let ghost k = (scope_address@, asset_type@);
        let mut i: usize = 0;
        while i < self.entries.len()
            invariant
                i <= self.entries@.len(),
                self@.len() == self.entries@.len(),
                k == (scope_address@, asset_type@),
                self.wf(),
                forall|j: int| 0 <= j < i ==> self@[j].0 != k,
            decreases self.entries@.len() - i,
        {
            let ghost entry_key = (
                self.entries@[i as int].detail.scope_address@,
                self.entries@[i as int].asset_type@,
            );
            assert(self@[i as int].0 == entry_key);
            let same_scope = str_eq(self.entries[i].detail.scope_address.as_str(), scope_address);
            let same_type = str_eq(self.entries[i].asset_type.as_str(), asset_type);
            if same_scope && same_type {
                proof {
                    assert(self@[i as int].0 == k);
                    assert forall|j: int| 0 <= j < self@.len() && j != i implies self@[j].0 != k by {}
                    lemma_lookup(self@, k);
                }
                return Some(i);
            }
            assert(entry_key != k);
            i = i + 1;
        }
        proof {
            lemma_lookup(self@, k);
        }
        None
    }

    /// Stores `detail` for its scope address and `asset_type`, refusing when one is stored.
    pub fn insert_fee_payment_detail(&mut self, detail: &FeePaymentDetail, asset_type: &str) -> (res:
        Result<(), ContractError>)
        requires
            old(self).wf(),
        ensures
            final(self).wf(),
            res is Ok <==> lookup(old(self)@, (detail.scope_address@, asset_type@)) is None,
            res is Ok ==> forall|k: (Seq<char>, Seq<char>)|
                #[trigger] lookup(final(self)@, k) == if k == (detail.scope_address@, asset_type@) {
                    Some(detail@)
                } else {
                    lookup(old(self)@, k)
                },
            res matches Err(e) ==> final(self)@ == old(self)@ && e is RecordAlreadyExists,
    {
        if let Some(_) = self.find(detail.scope_address.as_str(), asset_type) {
            let explanation = "a fee payment detail already exists for scope [".to_owned().concat(
                detail.scope_address.as_str(),
            ).concat("] and asset type [").concat(asset_type).concat("]");
            return Err(ContractError::RecordAlreadyExists { explanation });
        }
        let ghost before = self@;
        let ghost key = (detail.scope_address@, asset_type@);
        self.entries.push(FeeEntry { asset_type: asset_type.to_owned(), detail: detail.copy() });
        proof {
            assert(self@ =~= before.push((key, detail@)));
            lemma_lookup(before, key);
            assert forall|i: int, j: int|
                0 <= i < self@.len() && 0 <= j < self@.len() && i != j implies self@[i].0
                != self@[j].0 by {
                if i < before.len() && j < before.len() {
                    assert(self@[i] == before[i] && self@[j] == before[j]);
                } else if i < before.len() {
                    assert(self@[i] == before[i]);
                } else if j < before.len() {
                    assert(self@[j] == before[j]);
                }
            }
            assert forall|k: (Seq<char>, Seq<char>)| #[trigger] lookup(self@, k) == if k == key {
                Some(detail@)
            } else {
                lookup(before, k)
            } by {
                lemma_lookup(self@, k);
                lemma_lookup(before, k);
                if k != key {
                    if exists|j: int| 0 <= j < before.len() && before[j].0 == k {
                        let j = choose|j: int| 0 <= j < before.len() && before[j].0 == k;
                        assert(self@[j] == before[j]);
                        assert forall|m: int| 0 <= m < before.len() && m != j implies before[m].0 != k by {}
                        assert forall|m: int| 0 <= m < self@.len() && m != j implies self@[m].0 != k by {
                            if m < before.len() {
                                assert(self@[m] == before[m]);
                            }
                        }
                    } else {
                        assert forall|m: int| 0 <= m < self@.len() implies self@[m].0 != k by {
                            if m < before.len() {
                                assert(self@[m] == before[m]);
                            }
                        }
                    }
                } else {
                    assert(self@[before.len() as int].0 == k);
                    assert forall|m: int| 0 <= m < self@.len() && m != before.len() implies self@[m].0 != k by {
                        assert(self@[m] == before[m]);
                    }
                }
            }
        }
        Ok(())
    }

    /// The detail for `scope_address` and `asset_type`, if any.
    pub fn may_load_fee_payment_detail(&self, scope_address: &str, asset_type: &str) -> (res: Option<
        FeePaymentDetail,
    >)
        requires
            self.wf(),
        ensures
            match res {
                Some(d) => lookup(self@, (scope_address@, asset_type@)) == Some(d@),
                None => lookup(self@, (scope_address@, asset_type@)) is None,
            },
    {
        match self.find(scope_address, asset_type) {
            Some(i) => {
                assert(self@[i as int].1 == self.entries@[i as int].detail@);
                Some(self.entries[i].detail.copy())
            },
            None => None,
        }
    }

    /// The detail for `scope_address` and `asset_type`, or a record-not-found refusal.
    pub fn load_fee_payment_detail(&self, scope_address: &str, asset_type: &str) -> (res: Result<
        FeePaymentDetail,
        ContractError,
    >)
        requires
            self.wf(),
        ensures
            match res {
                Ok(d) => lookup(self@, (scope_address@, asset_type@)) == Some(d@),
                Err(e) => lookup(self@, (scope_address@, asset_type@)) is None && (
                e matches ContractError::RecordNotFound { explanation: x } && x@
                    == missing_fee_message(scope_address@, asset_type@)),
            },
    {
        match self.may_load_fee_payment_detail(scope_address, asset_type) {
            Some(d) => Ok(d),
            None => {
                let explanation = "no fee payment detail existed for scope [".to_owned().concat(
                    scope_address,
                ).concat("] and asset type [").concat(asset_type).concat("]");
                Err(ContractError::RecordNotFound { explanation })
            },
        }
    }

    /// Removes the detail for `scope_address` and `asset_type`; nothing changes when there is
    /// none.
    pub fn delete_fee_payment_detail(&mut self, scope_address: &str, asset_type: &str)
        requires
            old(self).wf(),
        ensures
            final(self).wf(),
            forall|k: (Seq<char>, Seq<char>)|
                #[trigger] lookup(final(self)@, k) == if k == (scope_address@, asset_type@) {
                    None
                } else {
                    lookup(old(self)@, k)
                },
    {
        let ghost key = (scope_address@, asset_type@);
        match self.find(scope_address, asset_type) {
            None => {
                assert forall|k: (Seq<char>, Seq<char>)| #[trigger] lookup(self@, k) == if k == key {
                    None
                } else {
                    lookup(self@, k)
                } by {}
            },
            Some(i) => {
                let ghost before = self@;
                self.entries.remove(i);
                proof {
                    assert(self@ =~= before.remove(i as int));
                    assert forall|a: int, b: int|
                        0 <= a < self@.len() && 0 <= b < self@.len() && a != b implies self@[a].0
                        != self@[b].0 by {
                        let a2 = if a < i { a } else { a + 1 };
                        let b2 = if b < i { b } else { b + 1 };
                        assert(self@[a] == before[a2]);
                        assert(self@[b] == before[b2]);
                    }
                    assert forall|k: (Seq<char>, Seq<char>)| #[trigger] lookup(self@, k) == if k == key {
                        None
                    } else {
                        lookup(before, k)
                    } by {
                        lemma_lookup(self@, k);
                        lemma_lookup(before, k);
                        if k == key {
                            assert forall|m: int| 0 <= m < self@.len() implies self@[m].0 != k by {
                                let m2 = if m < i { m } else { m + 1 };
                                assert(self@[m] == before[m2]);
                            }
                        } else if exists|j: int| 0 <= j < before.len() && before[j].0 == k {
                            let j = choose|j: int| 0 <= j < before.len() && before[j].0 == k;
                            assert(j != i);
                            let j2 = if j < i { j } else { j - 1 };
                            assert(self@[j2] == before[j]);
                            assert forall|m: int| 0 <= m < before.len() && m != j implies before[m].0 != k by {}
                            assert forall|m: int| 0 <= m < self@.len() && m != j2 implies self@[m].0 != k by {
                                let m2 = if m < i { m } else { m + 1 };
                                assert(self@[m] == before[m2]);
                            }
                        } else {
                            assert forall|m: int| 0 <= m < self@.len() implies self@[m].0 != k by {
                                let m2 = if m < i { m } else { m + 1 };
                                assert(self@[m] == before[m2]);
                            }
                        }
                    }
                }
            },
        }
    }
}

} // verus!
