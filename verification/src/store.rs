//! The store contract: what an entity must offer, what a store keeps, and what
//! each of its four operations does to what it keeps.

use vstd::prelude::*;
use crate::ident::EntityId;
use crate::ident::hyphenated;

verus! {

/// What a store needs of the things it keeps: an identifier, one field whose
/// value no two of them may share, and a way to copy one.
pub trait Entity: Sized {
    /// The value of the identifier.
    spec fn key(&self) -> u128;

    /// The name of the field that must be unique.
    spec fn unique_name() -> Seq<char>;

    /// The value of the field that must be unique.
    spec fn unique_value(&self) -> Seq<char>;

    /// The identifier.
    fn id(&self) -> (r: EntityId)
        ensures
            r.value == self.key(),
    ;

    /// The name and the value of the field that must be unique.
    fn unique_field(&self) -> (r: (String, String))
        ensures
            r.0@ == Self::unique_name(),
            r.1@ == self.unique_value(),
    ;

    /// A copy of the entity.
    fn duplicate(&self) -> (r: Self)
        ensures
            r == *self,
    ;
}

/// Why a store refused an entity.
#[derive(Debug, Clone, PartialEq, Eq)]
pub enum StoreError {
    /// An entity that is already kept has this value in this field.
    UniqueViolation { field: String, value: String },
}

/// The name under which a clash of identifiers is reported.
pub open spec fn id_field() -> Seq<char> {
    "id"@
}

/// Whether some entity of `entities` has the identifier `key`.
pub open spec fn has_id<T: Entity>(entities: Seq<T>, key: u128) -> bool {
    exists|i: int| 0 <= i < entities.len() && #[trigger] entities[i].key() == key
}

/// Whether some entity of `entities` has `value` in its unique field.
pub open spec fn has_unique<T: Entity>(entities: Seq<T>, value: Seq<char>) -> bool {
    exists|i: int| 0 <= i < entities.len() && #[trigger] entities[i].unique_value() == value
}

/// What every store keeps true: no two entities share an identifier, and no
/// two share the value of the unique field.
pub open spec fn consistent<T: Entity>(entities: Seq<T>) -> bool {
    forall|i: int, j: int|
        0 <= i < j < entities.len() ==> #[trigger] entities[i].key() != #[trigger] entities[j].key()
            && entities[i].unique_value() != entities[j].unique_value()
}

/// The test that an entity passes unless its identifier is `key`.
pub open spec fn other_than<T: Entity>(key: u128) -> spec_fn(T) -> bool {
    |e: T| e.key() != key
}

/// `entities` without those whose identifier is `key`, the others in order.
pub open spec fn without_id<T: Entity>(entities: Seq<T>, key: u128) -> Seq<T> {
    entities.filter(other_than(key))
}

/// Whether `found` is what a query for `key` owes: an entity of `entities`
/// with that identifier where there is one, and nothing where there is none.
pub open spec fn is_query_result<T: Entity>(entities: Seq<T>, key: u128, found: Option<T>) -> bool {
    match found {
        Some(entity) => entity.key() == key && entities.contains(entity),
        None => !has_id(entities, key),
    }
}

/// Whether `error` is the refusal that inserting `entity` into `entities`
/// owes: a clash of identifiers is reported before a clash of unique values.
pub open spec fn is_refusal<T: Entity>(entities: Seq<T>, entity: T, error: StoreError) -> bool {
    match error {
        StoreError::UniqueViolation { field, value } => if has_id(entities, entity.key()) {
            field@ == id_field() && value@ == hyphenated(entity.key())
        } else {
            has_unique(entities, entity.unique_value()) && field@ == T::unique_name() && value@
                == entity.unique_value()
        },
    }
}

/// Whether inserting `entity` into `entities` is refused.
pub open spec fn clashes<T: Entity>(entities: Seq<T>, entity: T) -> bool {
    has_id(entities, entity.key()) || has_unique(entities, entity.unique_value())
}

/// The capability that the service functions work with. What a store keeps
/// is a sequence of entities, oldest first, that is always `consistent` and
/// never longer than the machine can count.
pub trait Store<T: Entity> {
    /// The entities kept, in the order in which they were inserted.
    spec fn entities(&self) -> Seq<T>;

    /// Keeps `entity` and hands it back, unless an entity already kept has
    /// its identifier or its unique value: then nothing changes.
    fn insert(&mut self, entity: T) -> (r: Result<T, StoreError>)
        ensures
            consistent(final(self).entities()),
            r is Err <==> clashes(old(self).entities(), entity),
            match r {
                Ok(stored) => stored == entity && final(self).entities() == old(
                    self,
                ).entities().push(entity),
                Err(error) => final(self).entities() == old(self).entities() && is_refusal(
                    old(self).entities(),
                    entity,
                    error,
                ),
            },
    ;

    /// The entity with the identifier `id`, if one is kept.
    fn query_by_id(&self, id: &EntityId) -> (r: Option<T>)
        ensures
            consistent(self.entities()),
            self.entities().len() <= usize::MAX,
            is_query_result(self.entities(), id.value, r),
    ;

    /// All entities, oldest first.
    fn list_all(&self) -> (r: Vec<T>)
        ensures
            consistent(self.entities()),
            r@ == self.entities(),
    ;

    /// Removes the entity with the identifier `id`; without one, nothing
    /// changes.
    fn delete(&mut self, id: &EntityId)
        ensures
            consistent(final(self).entities()),
            final(self).entities() == without_id(old(self).entities(), id.value),
    ;
}

/// Filtering changes nothing where every element passes.
pub proof fn lemma_filter_keeps_all<A>(s: Seq<A>, pred: spec_fn(A) -> bool)
    requires
        forall|i: int| 0 <= i < s.len() ==> pred(#[trigger] s[i]),
    ensures
        s.filter(pred) == s,
    decreases s.len(),
{
    reveal(Seq::filter);
    if s.len() > 0 {
        lemma_filter_keeps_all(s.drop_last(), pred);
        assert(s.drop_last().push(s.last()) =~= s);
    }
}

/// Removing an identifier that no entity has changes nothing.
pub proof fn lemma_without_absent<T: Entity>(entities: Seq<T>, key: u128)
    requires
        !has_id(entities, key),
    ensures
        without_id(entities, key) == entities,
{
    lemma_filter_keeps_all(entities, other_than(key));
}

/// Where identifiers are distinct, removing one removes the one entity that
/// has it.
pub proof fn lemma_without_present<T: Entity>(entities: Seq<T>, key: u128, at: int)
    requires
        consistent(entities),
        0 <= at < entities.len(),
        entities[at].key() == key,
    ensures
        without_id(entities, key) == entities.remove(at),
        consistent(entities.remove(at)),
{
    let pred = other_than::<T>(key);
    let before = entities.take(at);
    let one = seq![entities[at]];
    let after = entities.skip(at + 1);
    assert(entities =~= (before + one) + after);
    Seq::filter_distributes_over_add(before + one, after, pred);
    Seq::filter_distributes_over_add(before, one, pred);
    lemma_filter_keeps_all(before, pred);
    lemma_filter_keeps_all(after, pred);
    assert(one.filter(pred) =~= Seq::<T>::empty()) by {
        assert(one =~= Seq::<T>::empty().push(entities[at]));
        Seq::<T>::empty().lemma_filter_push(entities[at], pred);
        lemma_filter_keeps_all(Seq::<T>::empty(), pred);
    }
    assert(entities.remove(at) =~= before + after);
    assert(without_id(entities, key) =~= before + after);
}

/// Deleting from a consistent store leaves no entity with the identifier,
/// keeps every other identifier, removes at most one entity, and leaves the
/// store consistent.
pub proof fn delete_removes_one<T: Entity>(entities: Seq<T>, key: u128)
    requires
        consistent(entities),
    ensures
        consistent(without_id(entities, key)),
        !has_id(without_id(entities, key), key),
        forall|other: u128|
            other != key ==> (has_id(without_id(entities, key), other) <==> has_id(
                entities,
                other,
            )),
        without_id(entities, key).len() == if has_id(entities, key) {
            entities.len() - 1
        } else {
            entities.len() as int
        },
{
    let rest = without_id(entities, key);
    if has_id(entities, key) {
        let at = choose|i: int| 0 <= i < entities.len() && #[trigger] entities[i].key() == key;
        lemma_without_present(entities, key, at);
        assert forall|other: u128| other != key implies (has_id(rest, other) <==> has_id(
            entities,
            other,
        )) by {
            if has_id(entities, other) {
                let i = choose|i: int|
                    0 <= i < entities.len() && #[trigger] entities[i].key() == other;
                if i < at {
                    assert(rest[i].key() == other);
                } else {
                    assert(rest[i - 1].key() == other);
                }
            }
            if has_id(rest, other) {
                let i = choose|i: int| 0 <= i < rest.len() && #[trigger] rest[i].key() == other;
                if i < at {
                    assert(entities[i].key() == other);
                } else {
                    assert(entities[i + 1].key() == other);
                }
            }
        }
        if has_id(rest, key) {
            let i = choose|i: int| 0 <= i < rest.len() && #[trigger] rest[i].key() == key;
            if i < at {
                assert(entities[i].key() == key);
            } else {
                assert(entities[i + 1].key() == key);
            }
        }
    } else {
        lemma_without_absent(entities, key);
    }
}

/// Deleting twice is deleting once: on what a store keeps, a second removal
/// of the same identifier changes nothing.
pub proof fn delete_is_idempotent<T: Entity>(entities: Seq<T>, key: u128)
    ensures
        without_id(without_id(entities, key), key) == without_id(entities, key),
{
    let pred = other_than::<T>(key);
    let once = entities.filter(pred);
    assert forall|i: int| 0 <= i < once.len() implies pred(#[trigger] once[i]) by {
        entities.lemma_filter_pred(pred, i);
    }
    lemma_filter_keeps_all(once, pred);
}

/// The identifier `k` steps after `start`; after the greatest identifier
/// comes the least.
pub open spec fn step(start: u128, k: nat) -> u128 {
    ((start + k) % (u128::MAX + 1)) as u128
}

/// Whether `id` stands `k` steps after `start`, is not taken in `entities`,
/// and every identifier from `start` up to it is taken.
pub open spec fn is_unused_after<T: Entity>(entities: Seq<T>, start: u128, id: u128, k: nat) -> bool {
    &&& step(start, k) == id
    &&& !has_id(entities, id)
    &&& forall|j: nat| j < k ==> has_id(entities, #[trigger] step(start, j))
}

/// Whether `id` is the first identifier, counting from `start`, that no
/// entity of `entities` has. Where `start` itself is not taken, that is
/// `start`.
pub open spec fn is_nearest_unused<T: Entity>(entities: Seq<T>, start: u128, id: u128) -> bool {
    exists|k: nat| is_unused_after(entities, start, id, k)
}

/// As many entities are kept as consecutive identifiers are taken: a run of
/// `k` taken identifiers needs `k` entities.
pub proof fn lemma_run_fits<T: Entity>(entities: Seq<T>, start: u128, k: nat)
    requires
        k <= u128::MAX + 1,
        forall|j: nat| j < k ==> has_id(entities, #[trigger] step(start, j)),
    ensures
        k <= entities.len(),
    decreases k,
{
    if k > 0 {
        let last = step(start, (k - 1) as nat);
        assert(has_id(entities, last));
        let at = choose|i: int| 0 <= i < entities.len() && #[trigger] entities[i].key() == last;
        let rest = entities.remove(at);
        assert forall|j: nat| j < k - 1 implies has_id(rest, #[trigger] step(start, j)) by {
            let wanted = step(start, j);
            assert(wanted != last);
            assert(has_id(entities, wanted));
            let i = choose|i: int|
                0 <= i < entities.len() && #[trigger] entities[i].key() == wanted;
            if i < at {
                assert(rest[i].key() == wanted);
            } else {
                assert(rest[i - 1].key() == wanted);
            }
        }
        lemma_run_fits(rest, start, (k - 1) as nat);
    }
}

/// The first identifier that the store has not given out is the one that
/// was asked for, where that one is free.
pub proof fn nearest_unused_of_free<T: Entity>(entities: Seq<T>, start: u128, id: u128)
    requires
        is_nearest_unused(entities, start, id),
        !has_id(entities, start),
    ensures
        id == start,
{
    let k = choose|k: nat| is_unused_after(entities, start, id, k);
    if k > 0 {
        assert(has_id(entities, step(start, 0)));
    }
}

/// The first identifier, counting from `candidate`, that no entity of the
/// store has.
pub fn unused_id<T: Entity, S: Store<T>>(store: &S, candidate: EntityId) -> (id: EntityId)
    ensures
        is_nearest_unused(store.entities(), candidate.value, id.value),
{
    let mut value: u128 = candidate.value;
    let ghost mut steps: nat = 0;
    loop
        invariant
            value == step(candidate.value, steps),
            steps <= store.entities().len(),
            forall|j: nat| j < steps ==> has_id(store.entities(), #[trigger] step(candidate.value, j)),
        decreases store.entities().len() - steps,
    {
        let probe = EntityId { value };
        match store.query_by_id(&probe) {
            None => {
                assert(is_unused_after(store.entities(), candidate.value, value, steps));
                return probe;
            },
            Some(taken) => {
                proof {
                    let at = store.entities().index_of(taken);
                    assert(store.entities()[at].key() == value);
                }
            },
        }
        proof {
            steps = steps + 1;
            lemma_run_fits(store.entities(), candidate.value, steps);
        }
        value = if value == u128::MAX {
            0
        } else {
            value + 1
        };
    }
}

} // verus!
