//! A store that keeps its entities in memory, oldest first.
//!
//! The entities stand in one sequence, so that listing them gives the order
//! in which they were inserted; identifiers and unique values are looked up
//! by walking it.

use vstd::prelude::*;
use crate::ident::EntityId;
use crate::store::Entity;
use crate::store::Store;
use crate::store::StoreError;
use crate::store::consistent;
use crate::store::has_id;
use crate::store::has_unique;
use crate::store::lemma_without_absent;
use crate::store::lemma_without_present;

verus! {

/// The entities of one process, in the order in which they were inserted.
pub struct InMemoryStore<T: Entity> {
    items: Vec<T>,
}

impl<T: Entity> InMemoryStore<T> {
    #[verifier::type_invariant]
    spec fn kept_consistent(&self) -> bool {
        consistent(self.items@)
    }

    /// A store that keeps nothing yet.
    pub fn new() -> (r: Self)
        ensures
            r.entities() == Seq::<T>::empty(),
    {
        InMemoryStore { items: Vec::new() }
    }

    /// How many entities are kept.
    pub fn len(&self) -> (r: usize)
        ensures
            r == self.entities().len(),
    {
        self.items.len()
    }

    /// Whether nothing is kept.
    pub fn is_empty(&self) -> (r: bool)
        ensures
            r == (self.entities().len() == 0),
    {
        self.items.len() == 0
    }

    /// Hands out the entities and leaves the store empty.
    fn take_items(&mut self) -> (items: Vec<T>)
        ensures
            items@ == old(self).items@,
            final(self).items@ == Seq::<T>::empty(),
    {
        let mut taken = InMemoryStore { items: Vec::new() };
        core::mem::swap(self, &mut taken);
        taken.items
    }

    /// Where the entity with the identifier `key` stands, if one is kept.
    fn position_of_id(&self, key: u128) -> (r: Option<usize>)
        ensures
            self.items@.len() <= usize::MAX,
            match r {
                Some(at) => at < self.items@.len() && self.items@[at as int].key() == key,
                None => !has_id(self.items@, key),
            },
    {
        let mut at: usize = 0;
        while at < self.items.len()
            invariant
                at <= self.items@.len(),
                forall|i: int| 0 <= i < at ==> (#[trigger] self.items@[i]).key() != key,
            decreases self.items@.len() - at,
        {
            if self.items[at].id().value == key {
                return Some(at);
            }
            at += 1;
        }
        None
    }

    /// Where the entity with `value` in its unique field stands, if one is
    /// kept.
    fn position_of_unique(&self, value: &String) -> (r: Option<usize>)
        ensures
            match r {
                Some(at) => at < self.items@.len() && self.items@[at as int].unique_value()
                    == value@,
                None => !has_unique(self.items@, value@),
            },
    {
        let mut at: usize = 0;
        while at < self.items.len()
            invariant
                at <= self.items@.len(),
                forall|i: int|
                    0 <= i < at ==> (#[trigger] self.items@[i]).unique_value() != value@,
            decreases self.items@.len() - at,
        {
            let field = self.items[at].unique_field();
            if field.1 == *value {
                return Some(at);
            }
            at += 1;
        }
        None
    }
}

impl<T: Entity> Store<T> for InMemoryStore<T> {
    closed spec fn entities(&self) -> Seq<T> {
        self.items@
    }

    fn insert(&mut self, entity: T) -> (r: Result<T, StoreError>) {
        proof {
            use_type_invariant(&*self);
        }
        let id = entity.id();
        if self.position_of_id(id.value).is_some() {
            return Err(
                StoreError::UniqueViolation { field: "id".to_owned(), value: id.to_text() },
            );
        }
        let unique = entity.unique_field();
        if self.position_of_unique(&unique.1).is_some() {
            return Err(StoreError::UniqueViolation { field: unique.0, value: unique.1 });
        }
        let kept = entity.duplicate();
        let mut items = self.take_items();
        items.push(kept);
        self.items = items;
        Ok(entity)
    }

    fn query_by_id(&self, id: &EntityId) -> (r: Option<T>) {
        proof {
            use_type_invariant(self);
        }
        match self.position_of_id(id.value) {
            Some(at) => Some(self.items[at].duplicate()),
            None => None,
        }
    }

    fn list_all(&self) -> (r: Vec<T>) {
        proof {
            use_type_invariant(self);
        }
        let mut all: Vec<T> = Vec::new();
        let mut at: usize = 0;
        while at < self.items.len()
            invariant
                at <= self.items@.len(),
                all@ == self.items@.take(at as int),
            decreases self.items@.len() - at,
        {
            all.push(self.items[at].duplicate());
            assert(self.items@.take(at as int).push(self.items@[at as int])
                =~= self.items@.take(at + 1));
            at += 1;
        }
        assert(self.items@.take(at as int) =~= self.items@);
        all
    }

    fn delete(&mut self, id: &EntityId) {
        proof {
            use_type_invariant(&*self);
        }
        match self.position_of_id(id.value) {
            Some(at) => {
                proof {
                    lemma_without_present(self.items@, id.value, at as int);
                }
                let mut items = self.take_items();
                let _ = items.remove(at);
                self.items = items;
            },
            None => {
                proof {
                    lemma_without_absent(self.items@, id.value);
                }
            },
        }
    }
}

} // verus!
