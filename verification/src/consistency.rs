//! The consistency rules of a document: ids are unique within each table,
//! and every reference from a lower table resolves in the table above.
//!
//! Nothing enforces these rules when a document is built or changed. They
//! are stated here so that the laws of the library can say what holds of a
//! consistent document, and which operations keep a document consistent.

use vstd::prelude::*;
use crate::lookup::{category_has_id, command_has_id, subcategory_has_id};
use crate::model::{CommandModel, DocumentModel};
use crate::mutation::command_lacks_id;
use crate::sequences::{
    is_first_match, keys_are_distinct, lemma_filter_keeps_keys_distinct, lemma_first_match_found,
    lemma_first_match_is_exact,
};

verus! {

impl DocumentModel {
    /// No two categories share an id.
    pub open spec fn category_ids_are_unique(self) -> bool {
        forall|i: int, j: int|
            0 <= i < j < self.categories.len() ==> (#[trigger] self.categories[i]).id != (
            #[trigger] self.categories[j]).id
    }

    /// No two subcategories share an id.
    pub open spec fn subcategory_ids_are_unique(self) -> bool {
        forall|i: int, j: int|
            0 <= i < j < self.subcategories.len() ==> (#[trigger] self.subcategories[i]).id != (
            #[trigger] self.subcategories[j]).id
    }

    /// No two commands share an id.
    pub open spec fn command_ids_are_unique(self) -> bool {
        forall|i: int, j: int|
            0 <= i < j < self.commands.len() ==> (#[trigger] self.commands[i]).id != (
            #[trigger] self.commands[j]).id
    }

    /// Every subcategory names an existing category as its parent.
    pub open spec fn parents_resolve(self) -> bool {
        forall|i: int|
            0 <= i < self.subcategories.len() ==> self.find_category(
                (#[trigger] self.subcategories[i]).parent_id,
            ) is Some
    }

    /// Every command names an existing subcategory.
    pub open spec fn subcategories_resolve(self) -> bool {
        forall|i: int|
            0 <= i < self.commands.len() ==> self.find_subcategory(
                (#[trigger] self.commands[i]).subcat,
            ) is Some
    }

    /// All the consistency rules together.
    pub open spec fn is_consistent(self) -> bool {
        &&& self.category_ids_are_unique()
        &&& self.subcategory_ids_are_unique()
        &&& self.command_ids_are_unique()
        &&& self.parents_resolve()
        &&& self.subcategories_resolve()
    }
}

/// In a document whose category ids are unique, looking up the id of a
/// category finds that category.
pub proof fn law_unique_category_is_found(document: DocumentModel, i: int)
    requires
        document.category_ids_are_unique(),
        0 <= i < document.categories.len(),
    ensures
        document.category_index(document.categories[i].id) == Some(i),
        document.find_category(document.categories[i].id) == Some(document.categories[i]),
{
    let found = category_has_id(document.categories[i].id);
    assert(is_first_match(document.categories, found, i));
    lemma_first_match_found(document.categories, found, i);
}

/// In a document whose subcategory ids are unique, looking up the id of a
/// subcategory finds that subcategory.
pub proof fn law_unique_subcategory_is_found(document: DocumentModel, i: int)
    requires
        document.subcategory_ids_are_unique(),
        0 <= i < document.subcategories.len(),
    ensures
        document.subcategory_index(document.subcategories[i].id) == Some(i),
        document.find_subcategory(document.subcategories[i].id) == Some(
            document.subcategories[i],
        ),
{
    let found = subcategory_has_id(document.subcategories[i].id);
    assert(is_first_match(document.subcategories, found, i));
    lemma_first_match_found(document.subcategories, found, i);
}

/// In a document whose command ids are unique, looking up the id of a
/// command finds that command.
pub proof fn law_unique_command_is_found(document: DocumentModel, i: int)
    requires
        document.command_ids_are_unique(),
        0 <= i < document.commands.len(),
    ensures
        document.command_index(document.commands[i].id) == Some(i),
        document.find_command(document.commands[i].id) == Some(document.commands[i]),
{
    let found = command_has_id(document.commands[i].id);
    assert(is_first_match(document.commands, found, i));
    lemma_first_match_found(document.commands, found, i);
}

/// Deleting keeps a consistent document consistent.
pub proof fn law_delete_keeps_consistency(document: DocumentModel, command_id: Seq<char>)
    requires
        document.is_consistent(),
    ensures
        document.delete_command(command_id).is_consistent(),
{
    let keep = command_lacks_id(command_id);
    let id_of = |c: CommandModel| c.id;
    let after = document.delete_command(command_id);
    assert(keys_are_distinct(document.commands, id_of));
    lemma_filter_keeps_keys_distinct(document.commands, keep, id_of);
    assert(after.command_ids_are_unique()) by {
        assert forall|i: int, j: int| 0 <= i < j < after.commands.len() implies (
        #[trigger] after.commands[i]).id != (#[trigger] after.commands[j]).id by {
            assert(id_of(after.commands[i]) != id_of(after.commands[j]));
        }
    }
    assert(after.subcategories_resolve()) by {
        assert forall|i: int| 0 <= i < after.commands.len() implies after.find_subcategory(
            (#[trigger] after.commands[i]).subcat,
        ) is Some by {
            assert(after.commands.contains(after.commands[i]));
            document.commands.lemma_filter_contains_rev(keep, after.commands[i]);
            let k = choose|k: int|
                0 <= k < document.commands.len() && document.commands[k] == after.commands[i];
            assert(document.find_subcategory(document.commands[k].subcat) is Some);
        }
    }
}

/// Editing keeps a consistent document consistent, provided that the
/// subcategory named by the new content exists.
pub proof fn law_edit_keeps_consistency(document: DocumentModel, updated: CommandModel)
    requires
        document.is_consistent(),
        document.find_subcategory(updated.subcat) is Some,
    ensures
        document.edit_command(updated).is_consistent(),
{
    let after = document.edit_command(updated);
    lemma_first_match_is_exact(document.commands, command_has_id(updated.id));
    if let Some(at) = document.command_index(updated.id) {
        assert(after.command_ids_are_unique()) by {
            assert forall|i: int, j: int| 0 <= i < j < after.commands.len() implies (
            #[trigger] after.commands[i]).id != (#[trigger] after.commands[j]).id by {
                assert(after.commands[i].id == document.commands[i].id);
                assert(after.commands[j].id == document.commands[j].id);
            }
        }
        assert(after.subcategories_resolve()) by {
            assert forall|i: int| 0 <= i < after.commands.len() implies after.find_subcategory(
                (#[trigger] after.commands[i]).subcat,
            ) is Some by {
                if i != at {
                    assert(after.commands[i] == document.commands[i]);
                }
            }
        }
    }
}

/// Adding keeps a consistent document consistent, provided that the id of
/// the new command is not in use and that the subcategory it names exists.
pub proof fn law_add_keeps_consistency(
    document: DocumentModel,
    new_command: CommandModel,
    current_subcategory_id: Seq<char>,
)
    requires
        document.is_consistent(),
        document.find_command(new_command.id) is None,
        document.find_subcategory(new_command.subcat) is Some,
        document.add_command(new_command, current_subcategory_id) is Some,
    ensures
        document.add_command(new_command, current_subcategory_id).unwrap().is_consistent(),
{
    let after = document.add_command(new_command, current_subcategory_id).unwrap();
    lemma_first_match_is_exact(document.commands, command_has_id(new_command.id));
    assert(after.command_ids_are_unique()) by {
        assert forall|i: int, j: int| 0 <= i < j < after.commands.len() implies (
        #[trigger] after.commands[i]).id != (#[trigger] after.commands[j]).id by {
            assert(after.commands[i] == document.commands[i]);
            if j < document.commands.len() {
                assert(after.commands[j] == document.commands[j]);
            } else {
                assert(!command_has_id(new_command.id)(document.commands[i]));
            }
        }
    }
    assert(after.subcategories_resolve()) by {
        assert forall|i: int| 0 <= i < after.commands.len() implies after.find_subcategory(
            (#[trigger] after.commands[i]).subcat,
        ) is Some by {
            if i < document.commands.len() {
                assert(after.commands[i] == document.commands[i]);
            }
        }
    }
}

} // verus!
