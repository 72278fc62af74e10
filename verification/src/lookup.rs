//! Finding entries of a document by id, and listing the children of a
//! category or of a subcategory.
//!
//! A lookup by id yields the first entry in storage order that carries the
//! id. A listing keeps storage order.

use vstd::prelude::*;
use crate::model::{
    Category, CategoryModel, Command, CommandModel, Document, DocumentModel, Subcategory,
    SubcategoryModel,
};
use crate::sequences::{
    first_match, is_first_match, lemma_filter_take_next, lemma_first_match_found,
    lemma_first_match_none,
};

verus! {

/// The categories that carry `id`.
pub open spec fn category_has_id(id: Seq<char>) -> spec_fn(CategoryModel) -> bool {
    |c: CategoryModel| c.id == id
}

/// The subcategories that carry `id`.
pub open spec fn subcategory_has_id(id: Seq<char>) -> spec_fn(SubcategoryModel) -> bool {
    |s: SubcategoryModel| s.id == id
}

/// The commands that carry `id`.
pub open spec fn command_has_id(id: Seq<char>) -> spec_fn(CommandModel) -> bool {
    |c: CommandModel| c.id == id
}

/// The subcategories whose parent is the category `category_id`.
pub open spec fn child_of_category(category_id: Seq<char>) -> spec_fn(SubcategoryModel) -> bool {
    |s: SubcategoryModel| s.parent_id == category_id
}

/// The commands that belong to the subcategory `subcategory_id`.
pub open spec fn in_subcategory(subcategory_id: Seq<char>) -> spec_fn(CommandModel) -> bool {
    |c: CommandModel| c.subcat == subcategory_id
}

impl DocumentModel {
    /// Where the first category with `id` stands.
    pub open spec fn category_index(self, id: Seq<char>) -> Option<int> {
        first_match(self.categories, category_has_id(id))
    }

    /// Where the first subcategory with `id` stands.
    pub open spec fn subcategory_index(self, id: Seq<char>) -> Option<int> {
        first_match(self.subcategories, subcategory_has_id(id))
    }

    /// Where the first command with `id` stands.
    pub open spec fn command_index(self, id: Seq<char>) -> Option<int> {
        first_match(self.commands, command_has_id(id))
    }

    /// The first category with `id`.
    pub open spec fn find_category(self, id: Seq<char>) -> Option<CategoryModel> {
        match self.category_index(id) {
            Some(i) => Some(self.categories[i]),
            None => None,
        }
    }

    /// The first subcategory with `id`.
    pub open spec fn find_subcategory(self, id: Seq<char>) -> Option<SubcategoryModel> {
        match self.subcategory_index(id) {
            Some(i) => Some(self.subcategories[i]),
            None => None,
        }
    }

    /// The first command with `id`.
    pub open spec fn find_command(self, id: Seq<char>) -> Option<CommandModel> {
        match self.command_index(id) {
            Some(i) => Some(self.commands[i]),
            None => None,
        }
    }

    /// The subcategories of the category `category_id`, in storage order.
    pub open spec fn subcategories_of(self, category_id: Seq<char>) -> Seq<SubcategoryModel> {
        self.subcategories.filter(child_of_category(category_id))
    }

    /// The commands of the subcategory `subcategory_id`, in storage order.
    pub open spec fn commands_in(self, subcategory_id: Seq<char>) -> Seq<CommandModel> {
        self.commands.filter(in_subcategory(subcategory_id))
    }
}

impl Document {
    /// The position of the first category whose id is `id`.
    pub(crate) fn category_position(&self, id: &String) -> (position: Option<usize>)
        ensures
            match position {
                Some(i) => self@.category_index(id@) == Some(i as int),
                None => self@.category_index(id@) is None,
            },
    {
        let mut i: usize = 0;
        while i < self.categories.len()
            invariant
                i <= self.categories.len(),
                forall|j: int| 0 <= j < i ==> (#[trigger] self@.categories[j]).id != id@,
            decreases self.categories.len() - i,
        {
            if self.categories[i].id == *id {
                proof {
                    assert(is_first_match(self@.categories, category_has_id(id@), i as int));
                    lemma_first_match_found(self@.categories, category_has_id(id@), i as int);
                }
                return Some(i);
            }
            i += 1;
        }
        proof {
            lemma_first_match_none(self@.categories, category_has_id(id@));
        }
        None
    }

    /// The position of the first subcategory whose id is `id`.
    pub(crate) fn subcategory_position(&self, id: &String) -> (position: Option<usize>)
        ensures
            match position {
                Some(i) => self@.subcategory_index(id@) == Some(i as int),
                None => self@.subcategory_index(id@) is None,
            },
    {
        let mut i: usize = 0;
        while i < self.subcategories.len()
            invariant
                i <= self.subcategories.len(),
                forall|j: int| 0 <= j < i ==> (#[trigger] self@.subcategories[j]).id != id@,
            decreases self.subcategories.len() - i,
        {
            if self.subcategories[i].id == *id {
                proof {
                    assert(is_first_match(self@.subcategories, subcategory_has_id(id@), i as int));
                    lemma_first_match_found(
                        self@.subcategories,
                        subcategory_has_id(id@),
                        i as int,
                    );
                }
                return Some(i);
            }
            i += 1;
        }
        proof {
            lemma_first_match_none(self@.subcategories, subcategory_has_id(id@));
        }
        None
    }

    /// The position of the first command whose id is `id`.
    pub(crate) fn command_position(&self, id: &String) -> (position: Option<usize>)
        ensures
            match position {
                Some(i) => self@.command_index(id@) == Some(i as int),
                None => self@.command_index(id@) is None,
            },
    {
        let mut i: usize = 0;
        while i < self.commands.len()
            invariant
                i <= self.commands.len(),
                forall|j: int| 0 <= j < i ==> (#[trigger] self@.commands[j]).id != id@,
            decreases self.commands.len() - i,
        {
            if self.commands[i].id == *id {
                proof {
                    assert(is_first_match(self@.commands, command_has_id(id@), i as int));
                    lemma_first_match_found(self@.commands, command_has_id(id@), i as int);
                }
                return Some(i);
            }
            i += 1;
        }
        proof {
            lemma_first_match_none(self@.commands, command_has_id(id@));
        }
        None
    }

    /// The first category whose id is `id`, if there is one.
    pub fn find_category(&self, id: &str) -> (found: Option<&Category>)
        ensures
            found.deep_view() == self@.find_category(id@),
    {
        let key = id.to_owned();
        match self.category_position(&key) {
            Some(i) => Some(&self.categories[i]),
            None => None,
        }
    }

    /// The first subcategory whose id is `id`, if there is one.
    pub fn find_subcategory(&self, id: &str) -> (found: Option<&Subcategory>)
        ensures
            found.deep_view() == self@.find_subcategory(id@),
    {
        let key = id.to_owned();
        match self.subcategory_position(&key) {
            Some(i) => Some(&self.subcategories[i]),
            None => None,
        }
    }

    /// The first command whose id is `id`, if there is one.
    pub fn find_command(&self, id: &str) -> (found: Option<&Command>)
        ensures
            found.deep_view() == self@.find_command(id@),
    {
        let key = id.to_owned();
        match self.command_position(&key) {
            Some(i) => Some(&self.commands[i]),
            None => None,
        }
    }

    /// The subcategories whose parent is `category_id`, in storage order.
    pub fn subcategories_of(&self, category_id: &str) -> (list: Vec<&Subcategory>)
        ensures
            list.deep_view() == self@.subcategories_of(category_id@),
    {
        let key = category_id.to_owned();
        let ghost keep = child_of_category(category_id@);
        let mut list: Vec<&Subcategory> = Vec::new();
        let mut i: usize = 0;
        assert(self@.subcategories.take(0) =~= Seq::empty());
        assert(list.deep_view() =~= Seq::empty());
        assert(Seq::<SubcategoryModel>::empty().filter(keep) =~= Seq::empty()) by {
            reveal(Seq::filter);
        }
        while i < self.subcategories.len()
            invariant
                i <= self.subcategories.len(),
                key@ == category_id@,
                keep == child_of_category(category_id@),
                list.deep_view() == self@.subcategories.take(i as int).filter(keep),
            decreases self.subcategories.len() - i,
        {
            let ghost before = list.deep_view();
            proof {
                lemma_filter_take_next(self@.subcategories, keep, i as int);
            }
            if self.subcategories[i].parent_id == key {
                list.push(&self.subcategories[i]);
                assert(list.deep_view() =~= before.push(self@.subcategories[i as int]));
            }
            i += 1;
        }
        assert(self@.subcategories.take(i as int) =~= self@.subcategories);
        list
    }

    /// The commands that belong to `subcategory_id`, in storage order.
    pub fn commands_in(&self, subcategory_id: &str) -> (list: Vec<&Command>)
        ensures
            list.deep_view() == self@.commands_in(subcategory_id@),
    {
        let key = subcategory_id.to_owned();
        let ghost keep = in_subcategory(subcategory_id@);
        let mut list: Vec<&Command> = Vec::new();
        let mut i: usize = 0;
        assert(self@.commands.take(0) =~= Seq::empty());
        assert(list.deep_view() =~= Seq::empty());
        assert(Seq::<CommandModel>::empty().filter(keep) =~= Seq::empty()) by {
            reveal(Seq::filter);
        }
        while i < self.commands.len()
            invariant
                i <= self.commands.len(),
                key@ == subcategory_id@,
                keep == in_subcategory(subcategory_id@),
                list.deep_view() == self@.commands.take(i as int).filter(keep),
            decreases self.commands.len() - i,
        {
            let ghost before = list.deep_view();
            proof {
                lemma_filter_take_next(self@.commands, keep, i as int);
            }
            if self.commands[i].subcat == key {
                list.push(&self.commands[i]);
                assert(list.deep_view() =~= before.push(self@.commands[i as int]));
            }
            i += 1;
        }
        assert(self@.commands.take(i as int) =~= self@.commands);
        list
    }
}

} // verus!
