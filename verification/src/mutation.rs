//! Adding, editing and deleting commands.
//!
//! Each operation reads a document and yields a new one; the document it
//! was given is never touched. Categories and subcategories are carried
//! over as they are.

use vstd::prelude::*;
use crate::lookup::command_has_id;
use crate::model::{Command, CommandModel, Document, DocumentModel};
use crate::sequences::{
    lemma_filter_idempotent, lemma_filter_keeps_all, lemma_filter_take_next,
    lemma_first_match_after_filter, lemma_first_match_found, lemma_first_match_is_exact,
    lemma_first_match_none,
};

verus! {

/// Why a command was not added.
#[derive(Debug, Clone, Copy, PartialEq, Eq, Structural)]
pub enum Rejection {
    /// The command names another subcategory than the one being shown.
    SubcategoryMismatch,
}

/// The commands that do not carry `id`.
pub open spec fn command_lacks_id(id: Seq<char>) -> spec_fn(CommandModel) -> bool {
    |c: CommandModel| c.id != id
}

impl DocumentModel {
    /// The document with `new_command` appended to its commands, provided
    /// that the command names the subcategory `current_subcategory_id`, the
    /// one being shown; nothing otherwise.
    pub open spec fn add_command(
        self,
        new_command: CommandModel,
        current_subcategory_id: Seq<char>,
    ) -> Option<DocumentModel> {
        if new_command.subcat == current_subcategory_id {
            Some(DocumentModel { commands: self.commands.push(new_command), ..self })
        } else {
            None
        }
    }

    /// The document after replacing, at its position, the first command
    /// that carries the id of `updated`; the document itself where no
    /// command carries it.
    pub open spec fn edit_command(self, updated: CommandModel) -> DocumentModel {
        match self.command_index(updated.id) {
            Some(i) => DocumentModel { commands: self.commands.update(i, updated), ..self },
            None => self,
        }
    }

    /// The document without the commands that carry `command_id`.
    pub open spec fn delete_command(self, command_id: Seq<char>) -> DocumentModel {
        DocumentModel { commands: self.commands.filter(command_lacks_id(command_id)), ..self }
    }
}

/// The line that reports a rejected addition on the diagnostic channel.
pub const SUBCATEGORY_MISMATCH_MESSAGE: &'static str =
    "Erreur: subcat de la commande ne correspond pas à la sous-catégorie courante.";

impl Rejection {
    /// The line to write to the diagnostic channel.
    pub fn message(&self) -> (text: String)
        ensures
            text@ == SUBCATEGORY_MISMATCH_MESSAGE@,
    {
        match self {
            Rejection::SubcategoryMismatch => SUBCATEGORY_MISMATCH_MESSAGE.to_owned(),
        }
    }
}

impl Document {
    /// Appends `new_command`, provided that it names the subcategory being
    /// shown; otherwise rejects it.
    pub fn add_command(&self, new_command: Command, current_subcategory_id: &str) -> (outcome:
        Result<Document, Rejection>)
        ensures
            match outcome {
                Ok(next) => self@.add_command(new_command@, current_subcategory_id@) == Some(next@),
                Err(reason) => {
                    &&& self@.add_command(new_command@, current_subcategory_id@) is None
                    &&& reason == Rejection::SubcategoryMismatch
                },
            },
    {
        let current = current_subcategory_id.to_owned();
        if new_command.subcat == current {
            let mut next = self.clone();
            let ghost before = next.commands.deep_view();
            next.commands.push(new_command);
            assert(next.commands.deep_view() =~= before.push(new_command@));
            Ok(next)
        } else {
            Err(Rejection::SubcategoryMismatch)
        }
    }

    /// Replaces the first command that carries the id of `updated`, at its
    /// position. Where no command carries that id, the result equals the
    /// document.
    pub fn edit_command(&self, updated: Command) -> (next: Document)
        ensures
            next@ == self@.edit_command(updated@),
    {
        let mut next = self.clone();
        match self.command_position(&updated.id) {
            Some(i) => {
                let ghost before = next.commands.deep_view();
                next.commands.set(i, updated);
                assert(next.commands.deep_view() =~= before.update(i as int, updated@));
            },
            None => {},
        }
        next
    }

    /// Removes every command that carries `command_id`. Where no command
    /// carries it, the result equals the document.
    pub fn delete_command(&self, command_id: &str) -> (next: Document)
        ensures
            next@ == self@.delete_command(command_id@),
    {
        let key = command_id.to_owned();
        let ghost keep = command_lacks_id(command_id@);
        let mut kept: Vec<Command> = Vec::new();
        let mut i: usize = 0;
        assert(self@.commands.take(0) =~= Seq::empty());
        assert(kept.deep_view() =~= Seq::empty());
        assert(Seq::<CommandModel>::empty().filter(keep) =~= Seq::empty()) by {
            reveal(Seq::filter);
        }
        while i < self.commands.len()
            invariant
                i <= self.commands.len(),
                key@ == command_id@,
                keep == command_lacks_id(command_id@),
                kept.deep_view() == self@.commands.take(i as int).filter(keep),
            decreases self.commands.len() - i,
        {
            let ghost before = kept.deep_view();
            proof {
                lemma_filter_take_next(self@.commands, keep, i as int);
            }
            if self.commands[i].id != key {
                kept.push(self.commands[i].clone());
                assert(kept.deep_view() =~= before.push(self@.commands[i as int]));
            }
            i += 1;
        }
        assert(self@.commands.take(i as int) =~= self@.commands);
        let categories = self.categories.clone();
        let subcategories = self.subcategories.clone();
        assert(categories.deep_view() =~= self.categories.deep_view());
        assert(subcategories.deep_view() =~= self.subcategories.deep_view());
        Document { categories, subcategories, commands: kept }
    }
}

/// Deleting the same id twice yields what deleting it once yields.
pub proof fn law_delete_is_idempotent(document: DocumentModel, command_id: Seq<char>)
    ensures
        document.delete_command(command_id).delete_command(command_id) == document.delete_command(
            command_id,
        ),
{
    lemma_filter_idempotent(document.commands, command_lacks_id(command_id));
}

/// Deleting an id that no command carries yields the document itself.
pub proof fn law_delete_of_absent_id_changes_nothing(
    document: DocumentModel,
    command_id: Seq<char>,
)
    requires
        document.find_command(command_id) is None,
    ensures
        document.delete_command(command_id) == document,
{
    lemma_first_match_is_exact(document.commands, command_has_id(command_id));
    lemma_filter_keeps_all(document.commands, command_lacks_id(command_id));
}

/// After deleting an id, no command carries it.
pub proof fn law_deleted_command_is_gone(document: DocumentModel, command_id: Seq<char>)
    ensures
        document.delete_command(command_id).find_command(command_id) is None,
{
    let kept = document.commands.filter(command_lacks_id(command_id));
    assert forall|j: int| 0 <= j < kept.len() implies !command_has_id(command_id)(
        #[trigger] kept[j],
    ) by {
        document.commands.lemma_filter_pred(command_lacks_id(command_id), j);
    }
    lemma_first_match_none(kept, command_has_id(command_id));
}

/// Deleting an id leaves the lookup of every other id as it was.
pub proof fn law_delete_keeps_other_commands(
    document: DocumentModel,
    command_id: Seq<char>,
    other_id: Seq<char>,
)
    requires
        other_id != command_id,
    ensures
        document.delete_command(command_id).find_command(other_id) == document.find_command(
            other_id,
        ),
{
    lemma_first_match_after_filter(
        document.commands,
        command_lacks_id(command_id),
        command_has_id(other_id),
    );
}

/// Editing with a command whose id no command carries yields the document
/// itself.
pub proof fn law_edit_of_absent_id_changes_nothing(document: DocumentModel, updated: CommandModel)
    requires
        document.find_command(updated.id) is None,
    ensures
        document.edit_command(updated) == document,
{
}

/// Editing keeps the number and the order of the commands: only the first
/// command with the id changes, and it becomes `updated`, which is then
/// what a lookup of the id finds.
pub proof fn law_edit_replaces_in_place(document: DocumentModel, updated: CommandModel)
    requires
        document.command_index(updated.id) is Some,
    ensures
        document.edit_command(updated).commands.len() == document.commands.len(),
        document.edit_command(updated).command_index(updated.id) == document.command_index(
            updated.id,
        ),
        document.edit_command(updated).find_command(updated.id) == Some(updated),
        forall|j: int|
            0 <= j < document.commands.len() && Some(j) != document.command_index(updated.id)
                ==> #[trigger] document.edit_command(updated).commands[j] == document.commands[j],
{
    let found = command_has_id(updated.id);
    lemma_first_match_is_exact(document.commands, found);
    let i = document.command_index(updated.id).unwrap();
    let after = document.commands.update(i, updated);
    assert(found(after[i]));
    assert forall|j: int| 0 <= j < i implies !found(#[trigger] after[j]) by {
        assert(after[j] == document.commands[j]);
    }
    lemma_first_match_found(after, found, i);
}

/// An accepted command becomes the last command; the commands before it
/// are those of the document, in their order. A command is accepted if
/// and only if it names the subcategory being shown, whatever its id.
pub proof fn law_add_appends(
    document: DocumentModel,
    new_command: CommandModel,
    current_subcategory_id: Seq<char>,
)
    ensures
        document.add_command(new_command, current_subcategory_id) is Some <==> new_command.subcat
            == current_subcategory_id,
        document.add_command(new_command, current_subcategory_id) matches Some(next) ==> {
            &&& next.commands.len() == document.commands.len() + 1
            &&& next.commands.last() == new_command
            &&& next.commands.drop_last() == document.commands
            &&& next.categories == document.categories
            &&& next.subcategories == document.subcategories
        },
{
    if document.add_command(new_command, current_subcategory_id) is Some {
        assert(document.commands.push(new_command).drop_last() =~= document.commands);
    }
}

} // verus!
