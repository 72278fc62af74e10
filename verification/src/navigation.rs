//! The navigation state machine: which screen is shown, and the selection
//! path that leads to it.
//!
//! A transition never fails and never looks at the document. Forward
//! transitions set one selection and leave the others as they were; only
//! `go_home` and `go_back` clear selections.

use vstd::prelude::*;

verus! {

/// The four screens of the guide, from the root down.
#[derive(Debug, Clone, Copy, PartialEq, Eq, Structural)]
pub enum ViewKind {
    Home,
    Subcategories,
    Commands,
    Detail,
}

/// The current screen and the ids selected on the way to it.
#[derive(Debug, PartialEq, Eq)]
pub struct NavigationState {
    pub view: ViewKind,
    pub category_id: Option<String>,
    pub subcategory_id: Option<String>,
    pub command_id: Option<String>,
}

/// What a `NavigationState` stands for: the screen, and each selection as
/// a sequence of characters.
pub struct NavigationModel {
    pub view: ViewKind,
    pub category_id: Option<Seq<char>>,
    pub subcategory_id: Option<Seq<char>>,
    pub command_id: Option<Seq<char>>,
}

impl View for NavigationState {
    type V = NavigationModel;

    open spec fn view(&self) -> NavigationModel {
        NavigationModel {
            view: self.view,
            category_id: self.category_id.deep_view(),
            subcategory_id: self.subcategory_id.deep_view(),
            command_id: self.command_id.deep_view(),
        }
    }
}

impl NavigationModel {
    /// The state at startup: the home screen, nothing selected.
    pub open spec fn initial() -> NavigationModel {
        NavigationModel {
            view: ViewKind::Home,
            category_id: None,
            subcategory_id: None,
            command_id: None,
        }
    }

    /// Opens the list of subcategories of a category.
    pub open spec fn show_subcategories(self, category_id: Seq<char>) -> NavigationModel {
        NavigationModel { view: ViewKind::Subcategories, category_id: Some(category_id), ..self }
    }

    /// Opens the list of commands of a subcategory.
    pub open spec fn show_commands(self, subcategory_id: Seq<char>) -> NavigationModel {
        NavigationModel { view: ViewKind::Commands, subcategory_id: Some(subcategory_id), ..self }
    }

    /// Opens the detail of a command.
    pub open spec fn show_detail(self, command_id: Seq<char>) -> NavigationModel {
        NavigationModel { view: ViewKind::Detail, command_id: Some(command_id), ..self }
    }

    /// Returns to the home screen and forgets every selection.
    pub open spec fn go_home(self) -> NavigationModel {
        NavigationModel::initial()
    }

    /// Moves one level up and forgets the selection of the level left.
    pub open spec fn go_back(self) -> NavigationModel {
        match self.view {
            ViewKind::Detail => NavigationModel {
                view: ViewKind::Commands,
                command_id: None,
                ..self
            },
            ViewKind::Commands => NavigationModel {
                view: ViewKind::Subcategories,
                subcategory_id: None,
                ..self
            },
            ViewKind::Subcategories => NavigationModel {
                view: ViewKind::Home,
                category_id: None,
                ..self
            },
            ViewKind::Home => self,
        }
    }

    /// The selections are exactly those of the levels above and including
    /// the current screen. This is what holds as long as each forward
    /// transition is taken from the screen directly above its target.
    pub open spec fn is_hierarchical(self) -> bool {
        match self.view {
            ViewKind::Home => {
                &&& self.category_id is None
                &&& self.subcategory_id is None
                &&& self.command_id is None
            },
            ViewKind::Subcategories => {
                &&& self.category_id is Some
                &&& self.subcategory_id is None
                &&& self.command_id is None
            },
            ViewKind::Commands => {
                &&& self.category_id is Some
                &&& self.subcategory_id is Some
                &&& self.command_id is None
            },
            ViewKind::Detail => {
                &&& self.category_id is Some
                &&& self.subcategory_id is Some
                &&& self.command_id is Some
            },
        }
    }
}

impl NavigationState {
    /// The state at startup: the home screen, nothing selected.
    pub fn new() -> (state: NavigationState)
        ensures
            state@ == NavigationModel::initial(),
    {
        NavigationState {
            view: ViewKind::Home,
            category_id: None,
            subcategory_id: None,
            command_id: None,
        }
    }

    /// From any screen, opens the subcategories of `category_id`.
    pub fn show_subcategories(&mut self, category_id: String)
        ensures
            final(self)@ == old(self)@.show_subcategories(category_id@),
    {
        self.view = ViewKind::Subcategories;
        self.category_id = Some(category_id);
    }

    /// From any screen, opens the commands of `subcategory_id`.
    pub fn show_commands(&mut self, subcategory_id: String)
        ensures
            final(self)@ == old(self)@.show_commands(subcategory_id@),
    {
        self.view = ViewKind::Commands;
        self.subcategory_id = Some(subcategory_id);
    }

    /// From any screen, opens the detail of `command_id`.
    pub fn show_detail(&mut self, command_id: String)
        ensures
            final(self)@ == old(self)@.show_detail(command_id@),
    {
        self.view = ViewKind::Detail;
        self.command_id = Some(command_id);
    }

    /// From any screen, returns to the home screen with nothing selected.
    pub fn go_home(&mut self)
        ensures
            final(self)@ == old(self)@.go_home(),
    {
        self.view = ViewKind::Home;
        self.category_id = None;
        self.subcategory_id = None;
        self.command_id = None;
    }

    /// Moves one level up; on the home screen nothing changes.
    pub fn go_back(&mut self)
        ensures
            final(self)@ == old(self)@.go_back(),
    {
        match self.view {
            ViewKind::Detail => {
                self.view = ViewKind::Commands;
                self.command_id = None;
            },
            ViewKind::Commands => {
                self.view = ViewKind::Subcategories;
                self.subcategory_id = None;
            },
            ViewKind::Subcategories => {
                self.view = ViewKind::Home;
                self.category_id = None;
            },
            ViewKind::Home => {},
        }
    }

    /// Whether there is a level to go back to, that is, whether the
    /// current screen is not the home screen.
    pub fn can_go_back(&self) -> (shown: bool)
        ensures
            shown == (self@.view != ViewKind::Home),
    {
        match self.view {
            ViewKind::Home => false,
            _ => true,
        }
    }
}

impl Clone for NavigationState {
    fn clone(&self) -> (copy: NavigationState)
        ensures
            copy@ == self@,
    {
        NavigationState {
            view: self.view,
            category_id: self.category_id.clone(),
            subcategory_id: self.subcategory_id.clone(),
            command_id: self.command_id.clone(),
        }
    }
}

impl Default for NavigationState {
    fn default() -> (state: NavigationState)
        ensures
            state@ == NavigationModel::initial(),
    {
        NavigationState::new()
    }
}

/// Going back right after opening a category's subcategories lands on the
/// home screen with no category selected, whatever the state before.
pub proof fn law_back_from_subcategories_is_home(before: NavigationModel, category_id: Seq<char>)
    ensures
        before.show_subcategories(category_id).go_back().view == ViewKind::Home,
        before.show_subcategories(category_id).go_back().category_id is None,
        before.show_subcategories(category_id).go_back().subcategory_id == before.subcategory_id,
        before.show_subcategories(category_id).go_back().command_id == before.command_id,
{
}

/// From a hierarchical state, a forward transition taken from the screen
/// directly above its target is undone exactly by `go_back`.
pub proof fn law_back_undoes_forward(before: NavigationModel, id: Seq<char>)
    requires
        before.is_hierarchical(),
    ensures
        before.view == ViewKind::Home ==> before.show_subcategories(id).go_back() == before,
        before.view == ViewKind::Subcategories ==> before.show_commands(id).go_back() == before,
        before.view == ViewKind::Commands ==> before.show_detail(id).go_back() == before,
{
}

/// Hierarchical states stay hierarchical: the initial state is one,
/// `go_home` and `go_back` keep the property, and so does each forward
/// transition taken from the screen directly above its target.
pub proof fn law_hierarchy_is_kept(before: NavigationModel, id: Seq<char>)
    requires
        before.is_hierarchical(),
    ensures
        NavigationModel::initial().is_hierarchical(),
        before.go_home().is_hierarchical(),
        before.go_back().is_hierarchical(),
        before.view == ViewKind::Home ==> before.show_subcategories(id).is_hierarchical(),
        before.view == ViewKind::Subcategories ==> before.show_commands(id).is_hierarchical(),
        before.view == ViewKind::Commands ==> before.show_detail(id).is_hierarchical(),
{
}

/// Only the home screen can be shown with nothing selected, as long as the
/// state is hierarchical.
pub proof fn law_only_home_has_no_selection(state: NavigationModel)
    requires
        state.is_hierarchical(),
        state.category_id is None,
        state.subcategory_id is None,
        state.command_id is None,
    ensures
        state.view == ViewKind::Home,
{
}

} // verus!
