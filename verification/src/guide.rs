//! The guide as a whole: the document and the navigation state, advanced
//! one event at a time.
//!
//! The guide performs no input or output. Loading takes what the store
//! held, and every step answers with the effect that the caller owes the
//! outside world: to persist the document, to report a line, or nothing.

use vstd::prelude::*;
use crate::model::{Command, CommandModel, Document, DocumentModel};
use crate::mutation::Rejection;
use crate::navigation::{NavigationModel, NavigationState};
use crate::resolve::{
    resolution, resolve, selected, selected_id, NotFound, Resolved, ResolvedModel,
};

verus! {

/// The key under which the document is kept in the store.
pub const STORAGE_KEY: &'static str = "eos_guide_state";

/// What the user asked for.
#[derive(Debug, PartialEq, Eq)]
pub enum Event {
    ShowSubcategories(String),
    ShowCommands(String),
    ShowDetail(String),
    GoHome,
    GoBack,
    AddCommand(Command),
    EditCommand(Command),
    DeleteCommand(String),
}

/// What an `Event` stands for.
pub enum EventModel {
    ShowSubcategories(Seq<char>),
    ShowCommands(Seq<char>),
    ShowDetail(Seq<char>),
    GoHome,
    GoBack,
    AddCommand(CommandModel),
    EditCommand(CommandModel),
    DeleteCommand(Seq<char>),
}

impl View for Event {
    type V = EventModel;

    open spec fn view(&self) -> EventModel {
        match self {
            Event::ShowSubcategories(id) => EventModel::ShowSubcategories(id@),
            Event::ShowCommands(id) => EventModel::ShowCommands(id@),
            Event::ShowDetail(id) => EventModel::ShowDetail(id@),
            Event::GoHome => EventModel::GoHome,
            Event::GoBack => EventModel::GoBack,
            Event::AddCommand(command) => EventModel::AddCommand(command@),
            Event::EditCommand(command) => EventModel::EditCommand(command@),
            Event::DeleteCommand(id) => EventModel::DeleteCommand(id@),
        }
    }
}

/// What the caller has to do after a step.
#[derive(Debug, Clone, Copy, PartialEq, Eq, Structural)]
pub enum Effect {
    /// Nothing.
    Idle,
    /// Write the guide's document to the store, replacing what is there.
    Persist,
    /// Write the rejection's message to the diagnostic channel.
    Report(Rejection),
}

/// The document and the navigation state, owned together.
#[derive(Debug, PartialEq, Eq)]
pub struct Guide {
    pub document: Document,
    pub navigation: NavigationState,
}

/// What a `Guide` stands for.
pub struct GuideModel {
    pub document: DocumentModel,
    pub navigation: NavigationModel,
}

impl View for Guide {
    type V = GuideModel;

    open spec fn view(&self) -> GuideModel {
        GuideModel { document: self.document@, navigation: self.navigation@ }
    }
}

impl GuideModel {
    /// The guide at startup, and the effect owed: the stored document where
    /// the store held one, else the seed, which is then to be persisted.
    pub open spec fn load(stored: Option<DocumentModel>, seed: DocumentModel) -> (
        GuideModel,
        Effect,
    ) {
        match stored {
            Some(document) => (
                GuideModel { document, navigation: NavigationModel::initial() },
                Effect::Idle,
            ),
            None => (
                GuideModel { document: seed, navigation: NavigationModel::initial() },
                Effect::Persist,
            ),
        }
    }

    /// The guide after `event`, and the effect owed.
    ///
    /// - A navigation event moves the navigation state and leaves the
    ///   document alone; nothing is owed.
    /// - Adding a command checks it against the subcategory selected in the
    ///   navigation state. Accepted, the new document is to be persisted;
    ///   rejected, the guide stays as it is and the rejection is to be
    ///   reported.
    /// - Editing a command whose id the document holds replaces it, and the
    ///   new document is to be persisted; otherwise the guide stays as it
    ///   is and nothing is owed.
    /// - Deleting removes every command with the id, and the document is to
    ///   be persisted whether or not one was removed.
    pub open spec fn apply(self, event: EventModel) -> (GuideModel, Effect) {
        match event {
            EventModel::ShowSubcategories(id) => (
                GuideModel { navigation: self.navigation.show_subcategories(id), ..self },
                Effect::Idle,
            ),
            EventModel::ShowCommands(id) => (
                GuideModel { navigation: self.navigation.show_commands(id), ..self },
                Effect::Idle,
            ),
            EventModel::ShowDetail(id) => (
                GuideModel { navigation: self.navigation.show_detail(id), ..self },
                Effect::Idle,
            ),
            EventModel::GoHome => (
                GuideModel { navigation: self.navigation.go_home(), ..self },
                Effect::Idle,
            ),
            EventModel::GoBack => (
                GuideModel { navigation: self.navigation.go_back(), ..self },
                Effect::Idle,
            ),
            EventModel::AddCommand(command) => match self.document.add_command(
                command,
                selected(self.navigation.subcategory_id),
            ) {
                Some(document) => (GuideModel { document, ..self }, Effect::Persist),
                None => (self, Effect::Report(Rejection::SubcategoryMismatch)),
            },
            EventModel::EditCommand(command) => if self.document.command_index(command.id)
                is Some {
                (
                    GuideModel { document: self.document.edit_command(command), ..self },
                    Effect::Persist,
                )
            } else {
                (self, Effect::Idle)
            },
            EventModel::DeleteCommand(id) => (
                GuideModel { document: self.document.delete_command(id), ..self },
                Effect::Persist,
            ),
        }
    }

    /// What the current screen shows.
    pub open spec fn resolution(self) -> Result<ResolvedModel, NotFound> {
        resolution(self.document, self.navigation)
    }
}

impl Guide {
    /// Starts the guide from what the store held: `stored` is the document
    /// read from it, or `None` where the store had none or what it had
    /// could not be read as a document. `seed` is the catalogue to start
    /// from in that case.
    pub fn load(stored: Option<Document>, seed: Document) -> (started: (Guide, Effect))
        ensures
            (started.0@, started.1) == GuideModel::load(stored.deep_view(), seed@),
    {
        match stored {
            Some(document) => (
                Guide { document, navigation: NavigationState::new() },
                Effect::Idle,
            ),
            None => (
                Guide { document: seed, navigation: NavigationState::new() },
                Effect::Persist,
            ),
        }
    }

    /// Advances the guide by one event and says what is owed for it.
    pub fn apply(&mut self, event: Event) -> (effect: Effect)
        ensures
            (final(self)@, effect) == old(self)@.apply(event@),
    {
        match event {
            Event::ShowSubcategories(id) => {
                self.navigation.show_subcategories(id);
                Effect::Idle
            },
            Event::ShowCommands(id) => {
                self.navigation.show_commands(id);
                Effect::Idle
            },
            Event::ShowDetail(id) => {
                self.navigation.show_detail(id);
                Effect::Idle
            },
            Event::GoHome => {
                self.navigation.go_home();
                Effect::Idle
            },
            Event::GoBack => {
                self.navigation.go_back();
                Effect::Idle
            },
            Event::AddCommand(command) => {
                let current = selected_id(&self.navigation.subcategory_id);
                match self.document.add_command(command, current) {
                    Ok(document) => {
                        self.document = document;
                        Effect::Persist
                    },
                    Err(reason) => Effect::Report(reason),
                }
            },
            Event::EditCommand(command) => {
                match self.document.command_position(&command.id) {
                    Some(_) => {
                        self.document = self.document.edit_command(command);
                        Effect::Persist
                    },
                    None => Effect::Idle,
                }
            },
            Event::DeleteCommand(id) => {
                self.document = self.document.delete_command(id.as_str());
                Effect::Persist
            },
        }
    }

    /// Computes what the current screen shows.
    pub fn resolve(&self) -> (shown: Result<Resolved<'_>, NotFound>)
        ensures
            match shown {
                Ok(entries) => self@.resolution() == Ok::<ResolvedModel, NotFound>(entries@),
                Err(missing) => self@.resolution() == Err::<ResolvedModel, NotFound>(missing),
            },
    {
        resolve(&self.document, &self.navigation)
    }
}

impl Clone for Guide {
    fn clone(&self) -> (copy: Guide)
        ensures
            copy@ == self@,
    {
        Guide { document: self.document.clone(), navigation: self.navigation.clone() }
    }
}

impl Effect {
    /// What the store holds once the caller has carried out the effect for
    /// a guide whose document is `document`, where it held `stored` before
    /// and every write succeeds.
    pub open spec fn store_after(self, stored: Option<DocumentModel>, document: DocumentModel)
        -> Option<DocumentModel> {
        match self {
            Effect::Persist => Some(document),
            _ => stored,
        }
    }
}

/// Loading what the store holds of a guide's document restores that
/// document, and owes nothing.
pub proof fn law_load_restores_stored_document(document: DocumentModel, seed: DocumentModel)
    ensures
        GuideModel::load(Some(document), seed).0.document == document,
        GuideModel::load(Some(document), seed).0.navigation == NavigationModel::initial(),
        GuideModel::load(Some(document), seed).1 == Effect::Idle,
{
}

/// After loading, once the effect owed is carried out, the store holds
/// the guide's document.
pub proof fn law_store_holds_document_after_load(
    stored: Option<DocumentModel>,
    seed: DocumentModel,
)
    ensures
        ({
            let (guide, effect) = GuideModel::load(stored, seed);
            effect.store_after(stored, guide.document) == Some(guide.document)
        }),
{
}

/// If the store holds the guide's document before an event, it holds the
/// guide's document again once the effect owed for the event is carried
/// out: a document that changed is always persisted.
pub proof fn law_store_follows_document(guide: GuideModel, event: EventModel)
    ensures
        ({
            let (next, effect) = guide.apply(event);
            effect.store_after(Some(guide.document), next.document) == Some(next.document)
        }),
{
}

/// Navigation events leave the document as it is; the other events leave
/// the navigation state as it is.
pub proof fn law_events_touch_one_half(guide: GuideModel, event: EventModel)
    ensures
        (event is AddCommand || event is EditCommand || event is DeleteCommand) ==> guide.apply(
            event,
        ).0.navigation == guide.navigation,
        !(event is AddCommand || event is EditCommand || event is DeleteCommand) ==> guide.apply(
            event,
        ).0.document == guide.document && guide.apply(event).1 == Effect::Idle,
{
}

} // verus!
