//! The catalogue: categories, subcategories and commands, and the document
//! that holds all three.
//!
//! Every type here is plain data. Its mathematical model (`CategoryModel`,
//! `SubcategoryModel`, `CommandModel`, `DocumentModel`) spells each string
//! as a sequence of characters; the contracts of the library speak of the
//! models only.

use vstd::prelude::*;

verus! {

/// A top-level entry of the catalogue.
#[derive(Debug, PartialEq, Eq)]
pub struct Category {
    pub id: String,
    pub name: String,
    pub icon: String,
}

/// Whether a subcategory ships with the guide or belongs to the user.
#[derive(Debug, Clone, Copy, PartialEq, Eq, Structural)]
pub enum SubcategoryKind {
    Base,
    User,
}

/// A group of commands below a category.
#[derive(Debug, PartialEq, Eq)]
pub struct Subcategory {
    pub id: String,
    pub name: String,
    pub parent_id: String,
    pub kind: SubcategoryKind,
}

/// One console command with its documentation.
#[derive(Debug, PartialEq, Eq)]
pub struct Command {
    pub id: String,
    pub subcat: String,
    pub action: String,
    pub description: String,
    pub syntaxes: Option<Vec<String>>,
    pub examples: Option<Vec<String>>,
    pub tips: Option<Vec<String>>,
}

/// The whole catalogue. It is stored and replaced as one value.
#[derive(Debug, PartialEq, Eq)]
pub struct Document {
    pub categories: Vec<Category>,
    pub subcategories: Vec<Subcategory>,
    pub commands: Vec<Command>,
}

/// What a `Category` stands for.
pub struct CategoryModel {
    pub id: Seq<char>,
    pub name: Seq<char>,
    pub icon: Seq<char>,
}

/// What a `Subcategory` stands for.
pub struct SubcategoryModel {
    pub id: Seq<char>,
    pub name: Seq<char>,
    pub parent_id: Seq<char>,
    pub kind: SubcategoryKind,
}

/// What a `Command` stands for.
pub struct CommandModel {
    pub id: Seq<char>,
    pub subcat: Seq<char>,
    pub action: Seq<char>,
    pub description: Seq<char>,
    pub syntaxes: Option<Seq<Seq<char>>>,
    pub examples: Option<Seq<Seq<char>>>,
    pub tips: Option<Seq<Seq<char>>>,
}

/// What a `Document` stands for: its three tables, in storage order.
pub struct DocumentModel {
    pub categories: Seq<CategoryModel>,
    pub subcategories: Seq<SubcategoryModel>,
    pub commands: Seq<CommandModel>,
}

impl DeepView for Category {
    type V = CategoryModel;

    open spec fn deep_view(&self) -> CategoryModel {
        CategoryModel { id: self.id@, name: self.name@, icon: self.icon@ }
    }
}

impl View for Category {
    type V = CategoryModel;

    open spec fn view(&self) -> CategoryModel {
        self.deep_view()
    }
}

impl DeepView for Subcategory {
    type V = SubcategoryModel;

    open spec fn deep_view(&self) -> SubcategoryModel {
        SubcategoryModel {
            id: self.id@,
            name: self.name@,
            parent_id: self.parent_id@,
            kind: self.kind,
        }
    }
}

impl View for Subcategory {
    type V = SubcategoryModel;

    open spec fn view(&self) -> SubcategoryModel {
        self.deep_view()
    }
}

impl DeepView for Command {
    type V = CommandModel;

    open spec fn deep_view(&self) -> CommandModel {
        CommandModel {
            id: self.id@,
            subcat: self.subcat@,
            action: self.action@,
            description: self.description@,
            syntaxes: self.syntaxes.deep_view(),
            examples: self.examples.deep_view(),
            tips: self.tips.deep_view(),
        }
    }
}

impl View for Command {
    type V = CommandModel;

    open spec fn view(&self) -> CommandModel {
        self.deep_view()
    }
}

impl DeepView for Document {
    type V = DocumentModel;

    open spec fn deep_view(&self) -> DocumentModel {
        DocumentModel {
            categories: self.categories.deep_view(),
            subcategories: self.subcategories.deep_view(),
            commands: self.commands.deep_view(),
        }
    }
}

impl View for Document {
    type V = DocumentModel;

    open spec fn view(&self) -> DocumentModel {
        self.deep_view()
    }
}

/// Copies an optional list of lines.
fn clone_lines(lines: &Option<Vec<String>>) -> (copy: Option<Vec<String>>)
    ensures
        copy.deep_view() == lines.deep_view(),
{
    match lines {
        Some(list) => {
            let copied = list.clone();
            assert(copied.deep_view() =~= list.deep_view());
            Some(copied)
        },
        None => None,
    }
}

impl Clone for Category {
    fn clone(&self) -> (copy: Category)
        ensures
            copy@ == self@,
    {
        Category { id: self.id.clone(), name: self.name.clone(), icon: self.icon.clone() }
    }
}

impl Clone for Subcategory {
    fn clone(&self) -> (copy: Subcategory)
        ensures
            copy@ == self@,
    {
        Subcategory {
            id: self.id.clone(),
            name: self.name.clone(),
            parent_id: self.parent_id.clone(),
            kind: self.kind,
        }
    }
}

impl Clone for Command {
    fn clone(&self) -> (copy: Command)
        ensures
            copy@ == self@,
    {
        Command {
            id: self.id.clone(),
            subcat: self.subcat.clone(),
            action: self.action.clone(),
            description: self.description.clone(),
            syntaxes: clone_lines(&self.syntaxes),
            examples: clone_lines(&self.examples),
            tips: clone_lines(&self.tips),
        }
    }
}

impl Clone for Document {
    fn clone(&self) -> (copy: Document)
        ensures
            copy@ == self@,
    {
        let categories = self.categories.clone();
        let subcategories = self.subcategories.clone();
        let commands = self.commands.clone();
        assert(categories.deep_view() =~= self.categories.deep_view());
        assert(subcategories.deep_view() =~= self.subcategories.deep_view());
        assert(commands.deep_view() =~= self.commands.deep_view());
        Document { categories, subcategories, commands }
    }
}

} // verus!
