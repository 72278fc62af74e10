use eos_guide::model::{Category, Command, Document, Subcategory, SubcategoryKind};
use eos_guide::navigation::{NavigationState, ViewKind};
use eos_guide::resolve::{resolve, NotFound, Resolved};

fn entry(id: &str, subcat: &str, action: &str) -> Command {
    Command {
        id: id.to_string(),
        subcat: subcat.to_string(),
        action: action.to_string(),
        description: String::new(),
        syntaxes: None,
        examples: None,
        tips: None,
    }
}

fn at_command() -> Command {
    Command {
        id: "at".to_string(),
        subcat: "syntax-base".to_string(),
        action: "Touche [At]".to_string(),
        description: "Définit un niveau (intensité, position, etc.).".to_string(),
        syntaxes: Some(vec!["[1][At][50][Enter]".to_string()]),
        examples: Some(vec!["[1][At][50][Enter] → met le canal 1 à 50%.".to_string()]),
        tips: Some(vec!["Toujours nécessite [Enter] sauf pour [Full][Full].".to_string()]),
    }
}

fn seed_excerpt() -> Document {
    let group = |id: &str, name: &str, icon: &str| Category {
        id: id.to_string(),
        name: name.to_string(),
        icon: icon.to_string(),
    };
    let sub = |id: &str, name: &str, parent: &str, kind: SubcategoryKind| Subcategory {
        id: id.to_string(),
        name: name.to_string(),
        parent_id: parent.to_string(),
        kind,
    };
    Document {
        categories: vec![
            group("syntax", "Syntaxe & Symboles", "🔤"),
            group("live-blind", "Live / Blind", "👁️"),
            group("groups", "Groups", "👥"),
        ],
        subcategories: vec![
            sub("syntax-base", "Base", "syntax", SubcategoryKind::Base),
            sub("syntax-user", "Utilisateur", "syntax", SubcategoryKind::User),
            sub("groups-base", "Base", "groups", SubcategoryKind::Base),
            sub("groups-user", "Utilisateur", "groups", SubcategoryKind::User),
            sub("lost-base", "Base", "lost", SubcategoryKind::Base),
        ],
        commands: vec![
            at_command(),
            entry("thru", "syntax-base", "Touche [Thru]"),
            entry("group-create", "groups-base", "Créer un Group"),
            entry("full", "syntax-base", "Touche [Full]"),
            entry("stray", "lost-base", "Stray"),
            entry("orphan", "nowhere", "Orphan"),
        ],
    }
}

fn at(view: ViewKind, category: Option<&str>, subcategory: Option<&str>, command: Option<&str>) -> NavigationState {
    NavigationState {
        view,
        category_id: category.map(|s| s.to_string()),
        subcategory_id: subcategory.map(|s| s.to_string()),
        command_id: command.map(|s| s.to_string()),
    }
}

#[test]
fn home_shows_all_categories_in_storage_order() {
    let document = seed_excerpt();
    let shown = resolve(&document, &NavigationState::new());
    assert_eq!(shown, Ok(Resolved::Home { categories: &document.categories }));
    match shown {
        Ok(Resolved::Home { categories }) => {
            let listed: Vec<&str> = categories.iter().map(|c| c.id.as_str()).collect();
            assert_eq!(listed, vec!["syntax", "live-blind", "groups"]);
        }
        other => panic!("unexpected resolution: {:?}", other),
    }
}

#[test]
fn home_ignores_stale_selections() {
    let document = seed_excerpt();
    let state = at(ViewKind::Home, Some("missing"), Some("missing"), Some("missing"));
    assert_eq!(resolve(&document, &state), Ok(Resolved::Home { categories: &document.categories }));
}

#[test]
fn subcategories_shows_the_category_and_its_children() {
    let document = seed_excerpt();
    let mut state = NavigationState::new();
    state.show_subcategories("groups".to_string());
    match resolve(&document, &state) {
        Ok(Resolved::Subcategories { category, subcategories }) => {
            assert_eq!(category, &document.categories[2]);
            assert_eq!(subcategories, vec![&document.subcategories[2], &document.subcategories[3]]);
        }
        other => panic!("unexpected resolution: {:?}", other),
    }
}

#[test]
fn subcategories_of_a_category_without_children_is_an_empty_list() {
    let document = seed_excerpt();
    let mut state = NavigationState::new();
    state.show_subcategories("live-blind".to_string());
    assert_eq!(
        resolve(&document, &state),
        Ok(Resolved::Subcategories { category: &document.categories[1], subcategories: vec![] })
    );
}

#[test]
fn subcategories_of_unknown_category_is_not_found() {
    let document = seed_excerpt();
    let mut state = NavigationState::new();
    state.show_subcategories("lost".to_string());
    assert_eq!(resolve(&document, &state), Err(NotFound::Category));
}

#[test]
fn subcategories_without_selection_looks_up_the_empty_id() {
    let mut document = seed_excerpt();
    let state = at(ViewKind::Subcategories, None, Some("syntax-base"), Some("at"));
    assert_eq!(resolve(&document, &state), Err(NotFound::Category));

    document.categories.push(Category {
        id: String::new(),
        name: "Sans nom".to_string(),
        icon: String::new(),
    });
    document.subcategories.push(Subcategory {
        id: "blank-base".to_string(),
        name: "Base".to_string(),
        parent_id: String::new(),
        kind: SubcategoryKind::Base,
    });
    assert_eq!(
        resolve(&document, &state),
        Ok(Resolved::Subcategories {
            category: &document.categories[3],
            subcategories: vec![&document.subcategories[5]],
        })
    );
}

#[test]
fn commands_shows_category_subcategory_and_commands_in_storage_order() {
    let document = seed_excerpt();
    let mut state = NavigationState::new();
    state.show_commands("syntax-base".to_string());
    match resolve(&document, &state) {
        Ok(Resolved::Commands { category, subcategory, commands }) => {
            assert_eq!(category, &document.categories[0]);
            assert_eq!(subcategory, &document.subcategories[0]);
            assert_eq!(
                commands,
                vec![&document.commands[0], &document.commands[1], &document.commands[3]]
            );
            assert!(commands.iter().any(|c| c.action == "Touche [At]"));
            assert!(commands.iter().all(|c| c.subcat == "syntax-base"));
        }
        other => panic!("unexpected resolution: {:?}", other),
    }
}

#[test]
fn commands_of_every_valid_subcategory_resolve_to_it_and_its_parent() {
    let document = seed_excerpt();
    for (s, c) in [(0usize, 0usize), (1, 0), (2, 2), (3, 2)] {
        let mut state = NavigationState::new();
        state.show_commands(document.subcategories[s].id.clone());
        let expected: Vec<&Command> = document
            .commands
            .iter()
            .filter(|k| k.subcat == document.subcategories[s].id)
            .collect();
        assert_eq!(
            resolve(&document, &state),
            Ok(Resolved::Commands {
                category: &document.categories[c],
                subcategory: &document.subcategories[s],
                commands: expected,
            })
        );
    }
}

#[test]
fn commands_of_unknown_subcategory_is_not_found() {
    let document = seed_excerpt();
    let mut state = NavigationState::new();
    state.show_subcategories("syntax".to_string());
    state.show_commands("nowhere".to_string());
    assert_eq!(resolve(&document, &state), Err(NotFound::Subcategory));
}

#[test]
fn commands_of_subcategory_without_parent_is_a_distinct_not_found() {
    let document = seed_excerpt();
    let mut state = NavigationState::new();
    state.show_subcategories("syntax".to_string());
    state.show_commands("lost-base".to_string());
    assert_eq!(resolve(&document, &state), Err(NotFound::ParentCategory));
}

#[test]
fn commands_goes_by_the_parent_of_the_subcategory_not_by_the_selected_category() {
    let document = seed_excerpt();
    let state = at(ViewKind::Commands, Some("syntax"), Some("groups-base"), None);
    assert_eq!(
        resolve(&document, &state),
        Ok(Resolved::Commands {
            category: &document.categories[2],
            subcategory: &document.subcategories[2],
            commands: vec![&document.commands[2]],
        })
    );
}

#[test]
fn commands_without_selection_looks_up_the_empty_id() {
    let document = seed_excerpt();
    let state = at(ViewKind::Commands, Some("syntax"), None, None);
    assert_eq!(resolve(&document, &state), Err(NotFound::Subcategory));
}

#[test]
fn detail_shows_the_stored_command() {
    let document = seed_excerpt();
    let mut state = NavigationState::new();
    state.show_commands("syntax-base".to_string());
    state.show_detail("at".to_string());
    match resolve(&document, &state) {
        Ok(Resolved::Detail { command }) => {
            assert_eq!(command, &at_command());
            assert_eq!(command.syntaxes, Some(vec!["[1][At][50][Enter]".to_string()]));
        }
        other => panic!("unexpected resolution: {:?}", other),
    }
}

#[test]
fn detail_reaches_commands_that_no_listing_shows() {
    let document = seed_excerpt();
    let mut state = NavigationState::new();
    state.show_detail("orphan".to_string());
    assert_eq!(resolve(&document, &state), Ok(Resolved::Detail { command: &document.commands[5] }));
}

#[test]
fn detail_of_unknown_command_is_not_found() {
    let document = seed_excerpt();
    let mut state = NavigationState::new();
    state.show_detail("missing".to_string());
    assert_eq!(resolve(&document, &state), Err(NotFound::Command));
    let unselected = at(ViewKind::Detail, Some("syntax"), Some("syntax-base"), None);
    assert_eq!(resolve(&document, &unselected), Err(NotFound::Command));
}

#[test]
fn detail_of_deleted_command_is_not_found() {
    let document = seed_excerpt().delete_command("at");
    let mut state = NavigationState::new();
    state.show_detail("at".to_string());
    assert_eq!(resolve(&document, &state), Err(NotFound::Command));
}

#[test]
fn resolve_leaves_document_and_state_alone() {
    let document = seed_excerpt();
    let mut state = NavigationState::new();
    state.show_commands("syntax-base".to_string());
    let before = state.clone();
    let _ = resolve(&document, &state);
    assert_eq!(document, seed_excerpt());
    assert_eq!(state, before);
}
