//! What each screen shows: the entries of the document that the current
//! navigation state selects, or which of them is missing.
//!
//! Resolution reads the document and the state and changes neither. It
//! looks at the selection of the current screen only; a selection that is
//! absent is looked up as the empty id.

use vstd::prelude::*;
use crate::model::{
    Category, CategoryModel, Command, CommandModel, Document, DocumentModel, Subcategory,
    SubcategoryModel,
};
use crate::consistency::{
    law_unique_category_is_found, law_unique_command_is_found, law_unique_subcategory_is_found,
};
use crate::mutation::law_deleted_command_is_gone;
use crate::navigation::{NavigationModel, NavigationState, ViewKind};

verus! {

/// The entry that a screen needs and the document does not hold.
#[derive(Debug, Clone, Copy, PartialEq, Eq, Structural)]
pub enum NotFound {
    /// No category carries the selected category id.
    Category,
    /// No subcategory carries the selected subcategory id.
    Subcategory,
    /// The selected subcategory exists, but no category carries the id of
    /// its parent.
    ParentCategory,
    /// No command carries the selected command id.
    Command,
}

/// The entries to show on the current screen, borrowed from the document.
#[derive(Debug, PartialEq, Eq)]
pub enum Resolved<'a> {
    Home { categories: &'a Vec<Category> },
    Subcategories { category: &'a Category, subcategories: Vec<&'a Subcategory> },
    Commands {
        category: &'a Category,
        subcategory: &'a Subcategory,
        commands: Vec<&'a Command>,
    },
    Detail { command: &'a Command },
}

/// What a `Resolved` stands for.
pub enum ResolvedModel {
    Home { categories: Seq<CategoryModel> },
    Subcategories { category: CategoryModel, subcategories: Seq<SubcategoryModel> },
    Commands { category: CategoryModel, subcategory: SubcategoryModel, commands: Seq<CommandModel> },
    Detail { command: CommandModel },
}

impl<'a> View for Resolved<'a> {
    type V = ResolvedModel;

    open spec fn view(&self) -> ResolvedModel {
        match self {
            Resolved::Home { categories } => ResolvedModel::Home {
                categories: categories.deep_view(),
            },
            Resolved::Subcategories { category, subcategories } => ResolvedModel::Subcategories {
                category: category.deep_view(),
                subcategories: subcategories.deep_view(),
            },
            Resolved::Commands { category, subcategory, commands } => ResolvedModel::Commands {
                category: category.deep_view(),
                subcategory: subcategory.deep_view(),
                commands: commands.deep_view(),
            },
            Resolved::Detail { command } => ResolvedModel::Detail { command: command.deep_view() },
        }
    }
}

/// The id to look up for a selection: the selected id, or the empty id
/// where nothing is selected.
pub open spec fn selected(selection: Option<Seq<char>>) -> Seq<char> {
    match selection {
        Some(id) => id,
        None => Seq::empty(),
    }
}

/// What the screen of `navigation` shows of `document`.
///
/// - Home: all categories, in storage order.
/// - Subcategories: the selected category and its subcategories, in
///   storage order; `NotFound::Category` where no category is selected by
///   the id.
/// - Commands: the selected subcategory, its parent category and its
///   commands, in storage order; `NotFound::Subcategory` where the
///   subcategory is missing, `NotFound::ParentCategory` where it exists and
///   its parent is missing.
/// - Detail: the selected command; `NotFound::Command` where it is missing.
pub open spec fn resolution(document: DocumentModel, navigation: NavigationModel) -> Result<
    ResolvedModel,
    NotFound,
> {
    match navigation.view {
        ViewKind::Home => Ok(ResolvedModel::Home { categories: document.categories }),
        ViewKind::Subcategories => {
            let id = selected(navigation.category_id);
            match document.find_category(id) {
                Some(category) => Ok(
                    ResolvedModel::Subcategories {
                        category,
                        subcategories: document.subcategories_of(id),
                    },
                ),
                None => Err(NotFound::Category),
            }
        },
        ViewKind::Commands => {
            let id = selected(navigation.subcategory_id);
            match document.find_subcategory(id) {
                Some(subcategory) => match document.find_category(subcategory.parent_id) {
                    Some(category) => Ok(
                        ResolvedModel::Commands {
                            category,
                            subcategory,
                            commands: document.commands_in(id),
                        },
                    ),
                    None => Err(NotFound::ParentCategory),
                },
                None => Err(NotFound::Subcategory),
            }
        },
        ViewKind::Detail => match document.find_command(selected(navigation.command_id)) {
            Some(command) => Ok(ResolvedModel::Detail { command }),
            None => Err(NotFound::Command),
        },
    }
}

/// The id to look up for a selection.
pub(crate) fn selected_id(selection: &Option<String>) -> (id: &str)
    ensures
        id@ == selected(selection.deep_view()),
{
    match selection {
        Some(id) => id.as_str(),
        None => {
            proof {
                reveal_strlit("");
            }
            assert(""@ =~= Seq::<char>::empty());
            ""
        },
    }
}

/// Computes what the screen of `navigation` shows of `document`.
pub fn resolve<'a>(document: &'a Document, navigation: &NavigationState) -> (shown: Result<
    Resolved<'a>,
    NotFound,
>)
    ensures
        match shown {
            Ok(entries) => resolution(document@, navigation@) == Ok::<ResolvedModel, NotFound>(
                entries@,
            ),
            Err(missing) => resolution(document@, navigation@) == Err::<ResolvedModel, NotFound>(
                missing,
            ),
        },
{
    match navigation.view {
        ViewKind::Home => Ok(Resolved::Home { categories: &document.categories }),
        ViewKind::Subcategories => {
            let id = selected_id(&navigation.category_id);
            match document.find_category(id) {
                Some(category) => Ok(
                    Resolved::Subcategories {
                        category,
                        subcategories: document.subcategories_of(id),
                    },
                ),
                None => Err(NotFound::Category),
            }
        },
        ViewKind::Commands => {
            let id = selected_id(&navigation.subcategory_id);
            match document.find_subcategory(id) {
                Some(subcategory) => match document.find_category(subcategory.parent_id.as_str()) {
                    Some(category) => Ok(
                        Resolved::Commands {
                            category,
                            subcategory,
                            commands: document.commands_in(id),
                        },
                    ),
                    None => Err(NotFound::ParentCategory),
                },
                None => Err(NotFound::Subcategory),
            }
        },
        ViewKind::Detail => {
            let id = selected_id(&navigation.command_id);
            match document.find_command(id) {
                Some(command) => Ok(Resolved::Detail { command }),
                None => Err(NotFound::Command),
            }
        },
    }
}

/// The home screen shows every category, in storage order, whatever is
/// selected.
pub proof fn law_home_shows_all_categories(document: DocumentModel, navigation: NavigationModel)
    requires
        navigation.view == ViewKind::Home,
    ensures
        resolution(document, navigation) == Ok::<ResolvedModel, NotFound>(
            ResolvedModel::Home { categories: document.categories },
        ),
{
}

/// In a document with unique ids, opening a category of the document
/// shows that category and exactly the subcategories that name it as
/// their parent, in storage order, whatever the state before.
pub proof fn law_subcategories_of_existing_category(
    document: DocumentModel,
    before: NavigationModel,
    c: int,
)
    requires
        document.category_ids_are_unique(),
        0 <= c < document.categories.len(),
    ensures
        resolution(document, before.show_subcategories(document.categories[c].id)) == Ok::<
            ResolvedModel,
            NotFound,
        >(
            ResolvedModel::Subcategories {
                category: document.categories[c],
                subcategories: document.subcategories.filter(
                    |s: SubcategoryModel| s.parent_id == document.categories[c].id,
                ),
            },
        ),
{
    law_unique_category_is_found(document, c);
}

/// In a document with unique ids, opening a subcategory of the document
/// whose parent category exists shows that category, that subcategory and
/// exactly the commands that name the subcategory, in storage order,
/// whatever the state before.
pub proof fn law_commands_of_existing_subcategory(
    document: DocumentModel,
    before: NavigationModel,
    s: int,
    c: int,
)
    requires
        document.category_ids_are_unique(),
        document.subcategory_ids_are_unique(),
        0 <= s < document.subcategories.len(),
        0 <= c < document.categories.len(),
        document.categories[c].id == document.subcategories[s].parent_id,
    ensures
        resolution(document, before.show_commands(document.subcategories[s].id)) == Ok::<
            ResolvedModel,
            NotFound,
        >(
            ResolvedModel::Commands {
                category: document.categories[c],
                subcategory: document.subcategories[s],
                commands: document.commands.filter(
                    |k: CommandModel| k.subcat == document.subcategories[s].id,
                ),
            },
        ),
{
    law_unique_subcategory_is_found(document, s);
    law_unique_category_is_found(document, c);
}

/// In a document with unique ids, opening the detail of a command of the
/// document shows that command, whatever the state before.
pub proof fn law_detail_of_existing_command(
    document: DocumentModel,
    before: NavigationModel,
    k: int,
)
    requires
        document.command_ids_are_unique(),
        0 <= k < document.commands.len(),
    ensures
        resolution(document, before.show_detail(document.commands[k].id)) == Ok::<
            ResolvedModel,
            NotFound,
        >(ResolvedModel::Detail { command: document.commands[k] }),
{
    law_unique_command_is_found(document, k);
}

/// Once a command id is deleted, its detail resolves to a missing command.
pub proof fn law_detail_of_deleted_command_is_missing(
    document: DocumentModel,
    before: NavigationModel,
    command_id: Seq<char>,
)
    ensures
        resolution(document.delete_command(command_id), before.show_detail(command_id)) == Err::<
            ResolvedModel,
            NotFound,
        >(NotFound::Command),
{
    law_deleted_command_is_gone(document, command_id);
}

} // verus!
