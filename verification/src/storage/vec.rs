//! The capabilities of a `Vec`: the default backing collection, held in
//! memory, searched from the front.
use crate::item::{row_id_of, Item};
use crate::storage::{
    first_match, is_first_match, lemma_first_match_is, lemma_first_match_none, Find, FindMut,
    InsertItem, Records, RemoveByIndex, Storage,
};
use crate::Error;
use vstd::prelude::*;

verus! {

impl<T: Item> Records<T> for Vec<T> {
    open spec fn records(&self) -> Seq<T::V> {
        self@.map_values(|x: T| x@)
    }

    open spec fn takes(&self, v: T::V) -> bool {
        true
    }
}

impl<T: Item> Find<T> for Vec<T> {
    type Index = usize;

    fn find(&self, item: &T) -> (r: Option<(usize, &T)>) {
        let (pk, rid) = item.as_ref().get_row_id();
        let mut i: usize = 0;
        while i < self.len()
            invariant
                i <= self.len(),
                (pk@, rid@) == row_id_of::<T>(item@),
                forall|j: int| 0 <= j < i ==> row_id_of::<T>(#[trigger] self.records()[j]) != (pk@, rid@),
            decreases self.len() - i,
        {
            let (p, r) = self[i].as_ref().get_row_id();
            if *p == *pk && *r == *rid {
                proof {
                    assert(self.records()[i as int] == self[i as int]@);
                    assert(is_first_match::<T>(self.records(), (pk@, rid@), i as int));
                    lemma_first_match_is::<T>(self.records(), (pk@, rid@), i as int);
                }
                return Some((i, &self[i]));
            }
            proof {
                assert(self.records()[i as int] == self[i as int]@);
            }
            i = i + 1;
        }
        proof {
            lemma_first_match_none::<T>(self.records(), (pk@, rid@));
        }
        None
    }
}

impl<T: Item> FindMut<T> for Vec<T> {
    type Index = usize;

    fn find_mut(&mut self, item: &T) -> (r: Option<(usize, &mut T)>) {
        let (pk, rid) = item.as_ref().get_row_id();
        let mut i: usize = 0;
        while i < self.len()
            invariant
                i <= self.len(),
                *self == *old(self),
                (pk@, rid@) == row_id_of::<T>(item@),
                forall|j: int| 0 <= j < i ==> row_id_of::<T>(#[trigger] self.records()[j]) != (pk@, rid@),
            decreases self.len() - i,
        {
            let (p, r) = self[i].as_ref().get_row_id();
            if *p == *pk && *r == *rid {
                proof {
                    assert(self.records()[i as int] == self[i as int]@);
                    assert(is_first_match::<T>(self.records(), (pk@, rid@), i as int));
                    lemma_first_match_is::<T>(self.records(), (pk@, rid@), i as int);
                }
                return Some((i, &mut self[i]));
            }
            proof {
                assert(self.records()[i as int] == self[i as int]@);
            }
            i = i + 1;
        }
        proof {
            lemma_first_match_none::<T>(self.records(), (pk@, rid@));
        }
        None
    }
}

impl<T: Item> RemoveByIndex<T> for Vec<T> {
    type Index = usize;

    fn remove_by_index(&mut self, index: usize) -> (r: Option<T>) {
        if index < self.len() {
            let removed = self.remove(index);
            assert(self.records() =~= old(self).records().remove(index as int));
            Some(removed)
        } else {
            None
        }
    }
}

impl<T: Item> InsertItem<T> for Vec<T> {
    type Index = usize;

    fn insert_item(&mut self, item: &T) -> (r: Result<usize, Error>) {
        let index = self.len();
        let copy = item.clone();
        proof {
            T::lemma_clone(*item, copy);
        }
        self.push(copy);
        assert(self.records() =~= old(self).records().push(item@));
        Ok(index)
    }
}

impl<T: Item> Storage<T, usize> for Vec<T> {

}

} // verus!
