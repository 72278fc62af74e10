use eos_guide::model::{Category, Command, Document, Subcategory, SubcategoryKind};
use eos_guide::mutation::Rejection;

fn category(id: &str, name: &str, icon: &str) -> Category {
    Category { id: id.to_string(), name: name.to_string(), icon: icon.to_string() }
}

fn subcategory(id: &str, name: &str, parent_id: &str, kind: SubcategoryKind) -> Subcategory {
    Subcategory {
        id: id.to_string(),
        name: name.to_string(),
        parent_id: parent_id.to_string(),
        kind,
    }
}

fn command(id: &str, subcat: &str, action: &str) -> Command {
    Command {
        id: id.to_string(),
        subcat: subcat.to_string(),
        action: action.to_string(),
        description: String::new(),
        syntaxes: None,
        examples: None,
        tips: None,
    }
}

fn small_document() -> Document {
    Document {
        categories: vec![
            category("syntax", "Syntaxe & Symboles", "🔤"),
            category("groups", "Groups", "👥"),
        ],
        subcategories: vec![
            subcategory("syntax-base", "Base", "syntax", SubcategoryKind::Base),
            subcategory("syntax-user", "Utilisateur", "syntax", SubcategoryKind::User),
            subcategory("groups-base", "Base", "groups", SubcategoryKind::Base),
            subcategory("groups-user", "Utilisateur", "groups", SubcategoryKind::User),
        ],
        commands: vec![
            Command {
                id: "at".to_string(),
                subcat: "syntax-base".to_string(),
                action: "Touche [At]".to_string(),
                description: "Définit un niveau (intensité, position, etc.).".to_string(),
                syntaxes: Some(vec!["[1][At][50][Enter]".to_string()]),
                examples: Some(vec!["[1][At][50][Enter] → met le canal 1 à 50%.".to_string()]),
                tips: Some(vec!["Toujours nécessite [Enter] sauf pour [Full][Full].".to_string()]),
            },
            command("group-create", "groups-base", "Créer un Group"),
            command("thru", "syntax-base", "Touche [Thru]"),
            command("group-recall", "groups-base", "Rappeler un Group"),
            command("full", "syntax-base", "Touche [Full]"),
        ],
    }
}

fn ids(document: &Document) -> Vec<&str> {
    document.commands.iter().map(|c| c.id.as_str()).collect()
}

#[test]
fn find_category_returns_the_entry_with_the_id() {
    let document = small_document();
    assert_eq!(document.find_category("groups"), Some(&document.categories[1]));
    assert_eq!(document.find_category("syntax").map(|c| c.name.as_str()), Some("Syntaxe & Symboles"));
    assert_eq!(document.find_category("patch"), None);
    assert_eq!(document.find_category(""), None);
    assert_eq!(document.find_category("Syntax"), None);
}

#[test]
fn find_subcategory_returns_the_entry_with_the_id() {
    let document = small_document();
    assert_eq!(document.find_subcategory("groups-base"), Some(&document.subcategories[2]));
    assert_eq!(
        document.find_subcategory("syntax-user").map(|s| s.kind),
        Some(SubcategoryKind::User)
    );
    assert_eq!(document.find_subcategory("syntax"), None);
}

#[test]
fn find_command_returns_the_entry_with_the_id() {
    let document = small_document();
    assert_eq!(document.find_command("thru"), Some(&document.commands[2]));
    assert_eq!(document.find_command("at").map(|c| c.action.as_str()), Some("Touche [At]"));
    assert_eq!(document.find_command("a"), None);
    assert_eq!(document.find_command("att"), None);
}

#[test]
fn lookups_return_the_first_of_entries_that_share_an_id() {
    let mut document = small_document();
    document.categories.push(category("syntax", "Second", "2"));
    document.subcategories.push(subcategory("syntax-base", "Second", "groups", SubcategoryKind::User));
    document.commands.push(command("at", "groups-base", "Second"));
    assert_eq!(document.find_category("syntax").map(|c| c.name.as_str()), Some("Syntaxe & Symboles"));
    assert_eq!(document.find_subcategory("syntax-base").map(|s| s.parent_id.as_str()), Some("syntax"));
    assert_eq!(document.find_command("at").map(|c| c.action.as_str()), Some("Touche [At]"));
}

#[test]
fn lookups_in_an_empty_document_find_nothing() {
    let document = Document { categories: vec![], subcategories: vec![], commands: vec![] };
    assert_eq!(document.find_category("syntax"), None);
    assert_eq!(document.find_subcategory("syntax-base"), None);
    assert_eq!(document.find_command("at"), None);
    assert!(document.subcategories_of("syntax").is_empty());
    assert!(document.commands_in("syntax-base").is_empty());
}

#[test]
fn subcategories_of_keeps_storage_order() {
    let document = small_document();
    let listed: Vec<&str> =
        document.subcategories_of("groups").iter().map(|s| s.id.as_str()).collect();
    assert_eq!(listed, vec!["groups-base", "groups-user"]);
    let listed: Vec<&str> =
        document.subcategories_of("syntax").iter().map(|s| s.id.as_str()).collect();
    assert_eq!(listed, vec!["syntax-base", "syntax-user"]);
    assert!(document.subcategories_of("patch").is_empty());
}

#[test]
fn commands_in_keeps_storage_order() {
    let document = small_document();
    let listed: Vec<&str> =
        document.commands_in("syntax-base").iter().map(|c| c.id.as_str()).collect();
    assert_eq!(listed, vec!["at", "thru", "full"]);
    let listed: Vec<&str> =
        document.commands_in("groups-base").iter().map(|c| c.id.as_str()).collect();
    assert_eq!(listed, vec!["group-create", "group-recall"]);
    assert!(document.commands_in("syntax-user").is_empty());
    assert!(document.commands_in("syntax").is_empty());
}

#[test]
fn add_command_with_matching_subcategory_appends_it() {
    let document = small_document();
    let added = document
        .add_command(command("x1", "syntax-base", "Test"), "syntax-base")
        .expect("the command names the subcategory being shown");
    assert_eq!(added.commands.len(), document.commands.len() + 1);
    assert_eq!(ids(&added), vec!["at", "group-create", "thru", "group-recall", "full", "x1"]);
    assert_eq!(added.commands.last(), Some(&command("x1", "syntax-base", "Test")));
    assert_eq!(added.categories, document.categories);
    assert_eq!(added.subcategories, document.subcategories);
    assert_eq!(document, small_document());
}

#[test]
fn add_command_with_other_subcategory_is_rejected() {
    let document = small_document();
    let outcome = document.add_command(command("x2", "groups-base", "Test"), "syntax-base");
    assert_eq!(outcome, Err(Rejection::SubcategoryMismatch));
    assert_eq!(document, small_document());
    assert_eq!(
        document.add_command(command("x2", "syntax-base", "Test"), ""),
        Err(Rejection::SubcategoryMismatch)
    );
    assert_eq!(
        document.add_command(command("x2", "syntax-base", "Test"), "syntax-bas"),
        Err(Rejection::SubcategoryMismatch)
    );
}

#[test]
fn add_command_does_not_look_at_ids_or_at_the_subcategory_table() {
    let document = small_document();
    let twice = document
        .add_command(command("at", "syntax-base", "Again"), "syntax-base")
        .expect("an id in use is accepted");
    assert_eq!(ids(&twice), vec!["at", "group-create", "thru", "group-recall", "full", "at"]);
    let orphan = document
        .add_command(command("x3", "nowhere", "Orphan"), "nowhere")
        .expect("a subcategory that does not exist is accepted");
    assert_eq!(orphan.commands.len(), 6);
    assert!(orphan.commands_in("nowhere").len() == 1);
}

#[test]
fn rejection_message_names_the_mismatch() {
    assert_eq!(
        Rejection::SubcategoryMismatch.message(),
        "Erreur: subcat de la commande ne correspond pas à la sous-catégorie courante."
    );
}

#[test]
fn edit_command_replaces_the_command_in_place() {
    let document = small_document();
    let mut updated = command("thru", "syntax-user", "Touche [Thru] bis");
    updated.tips = Some(vec!["Un".to_string(), "Deux".to_string()]);
    let edited = document.edit_command(updated.clone());
    assert_eq!(ids(&edited), vec!["at", "group-create", "thru", "group-recall", "full"]);
    assert_eq!(edited.commands[2], updated);
    assert_eq!(edited.commands[0], document.commands[0]);
    assert_eq!(edited.commands[1], document.commands[1]);
    assert_eq!(edited.commands[3], document.commands[3]);
    assert_eq!(edited.commands[4], document.commands[4]);
    assert_eq!(edited.categories, document.categories);
    assert_eq!(edited.subcategories, document.subcategories);
    assert_eq!(document, small_document());
}

#[test]
fn edit_command_replaces_only_the_first_of_commands_that_share_an_id() {
    let mut document = small_document();
    document.commands.push(command("at", "groups-base", "Second"));
    let edited = document.edit_command(command("at", "syntax-base", "Changed"));
    assert_eq!(edited.commands[0], command("at", "syntax-base", "Changed"));
    assert_eq!(edited.commands[5], command("at", "groups-base", "Second"));
    assert_eq!(edited.commands.len(), 6);
}

#[test]
fn edit_command_with_unknown_id_changes_nothing() {
    let document = small_document();
    let edited = document.edit_command(command("missing", "syntax-base", "Test"));
    assert_eq!(edited, document);
    let empty = Document { categories: vec![], subcategories: vec![], commands: vec![] };
    assert_eq!(empty.edit_command(command("at", "syntax-base", "Test")), empty);
}

#[test]
fn delete_command_removes_the_command() {
    let document = small_document();
    let deleted = document.delete_command("thru");
    assert_eq!(ids(&deleted), vec!["at", "group-create", "group-recall", "full"]);
    assert_eq!(deleted.commands[0], document.commands[0]);
    assert_eq!(deleted.commands[3], document.commands[4]);
    assert_eq!(deleted.categories, document.categories);
    assert_eq!(deleted.subcategories, document.subcategories);
    assert_eq!(deleted.find_command("thru"), None);
    assert_eq!(document, small_document());
}

#[test]
fn delete_command_removes_every_command_with_the_id() {
    let mut document = small_document();
    document.commands.insert(2, command("at", "groups-base", "Second"));
    document.commands.push(command("at", "syntax-user", "Third"));
    let deleted = document.delete_command("at");
    assert_eq!(ids(&deleted), vec!["group-create", "thru", "group-recall", "full"]);
}

#[test]
fn delete_command_twice_equals_once() {
    let document = small_document();
    let once = document.delete_command("at");
    let twice = once.delete_command("at");
    assert_eq!(twice, once);
    assert_eq!(ids(&twice), vec!["group-create", "thru", "group-recall", "full"]);
}

#[test]
fn delete_command_with_unknown_id_changes_nothing() {
    let document = small_document();
    assert_eq!(document.delete_command("missing"), document);
    assert_eq!(document.delete_command(""), document);
}

#[test]
fn delete_command_leaves_other_lookups_alone() {
    let document = small_document();
    let deleted = document.delete_command("group-create");
    for other in ["at", "thru", "group-recall", "full", "missing"] {
        assert_eq!(deleted.find_command(other), document.find_command(other));
    }
}

#[test]
fn delete_command_can_empty_the_table() {
    let document = Document {
        categories: vec![],
        subcategories: vec![],
        commands: vec![command("a", "s", "1"), command("a", "s", "2")],
    };
    assert!(document.delete_command("a").commands.is_empty());
}

#[test]
fn clone_copies_the_whole_document() {
    let document = small_document();
    let copy = document.clone();
    assert_eq!(copy, document);
    assert_eq!(copy.commands[0].syntaxes, Some(vec!["[1][At][50][Enter]".to_string()]));
    assert_eq!(copy.commands[1].syntaxes, None);
    assert_eq!(copy.subcategories[1].kind, SubcategoryKind::User);
    assert_eq!(document.commands[0].clone(), document.commands[0]);
    assert_eq!(document.categories[0].clone(), document.categories[0]);
    assert_eq!(document.subcategories[0].clone(), document.subcategories[0]);
}
