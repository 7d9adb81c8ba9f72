//! The menu-driven interface as a state machine: parsing a menu selection,
//! one input line per transition, and a whole-session interpreter.

use vstd::prelude::*;
use crate::store::Recipe;
use crate::store::RecipeView;
use crate::store::Recipes;

verus! {

/// The five actions the menu offers.
#[derive(Clone, Copy, Debug, PartialEq, Eq, Structural)]
pub enum RecipeMenu {
    AddRecipe,
    ViewRecipe,
    UpdateRecipe,
    DeleteRecipe,
    ViewAllRecipes,
}

/// The menu selection a line of input denotes: the digits "1" through "5"
/// select the five actions, anything else selects none.
pub open spec fn menu_choice(s: Seq<char>) -> Option<RecipeMenu> {
    if s == seq!['1'] {
        Some(RecipeMenu::AddRecipe)
    } else if s == seq!['2'] {
        Some(RecipeMenu::ViewRecipe)
    } else if s == seq!['3'] {
        Some(RecipeMenu::UpdateRecipe)
    } else if s == seq!['4'] {
        Some(RecipeMenu::DeleteRecipe)
    } else if s == seq!['5'] {
        Some(RecipeMenu::ViewAllRecipes)
    } else {
        None
    }
}

/// A sequence equals the singleton of `c` exactly when it has length one and
/// `c` as its only element.
proof fn lemma_singleton_eq(s: Seq<char>, c: char)
    ensures
        (s == seq![c]) <==> (s.len() == 1 && s[0] == c),
{
    assert(seq![c].len() == 1);
    assert(seq![c][0] == c);
    if s.len() == 1 && s[0] == c {
        assert(s =~= seq![c]);
    }
}

impl RecipeMenu {
    /// Parses a menu selection from one line of input.
    pub fn from_str(input: &str) -> (r: Option<RecipeMenu>)
        ensures
            r == menu_choice(input@),
    {
        proof {
            lemma_singleton_eq(input@, '1');
            lemma_singleton_eq(input@, '2');
            lemma_singleton_eq(input@, '3');
            lemma_singleton_eq(input@, '4');
            lemma_singleton_eq(input@, '5');
        }
        if input.unicode_len() != 1 {
            return None;
        }
        let c = input.get_char(0);
        match c {
            '1' => Some(RecipeMenu::AddRecipe),
            '2' => Some(RecipeMenu::ViewRecipe),
            '3' => Some(RecipeMenu::UpdateRecipe),
            '4' => Some(RecipeMenu::DeleteRecipe),
            '5' => Some(RecipeMenu::ViewAllRecipes),
            _ => None,
        }
    }
}

/// Where the menu loop stands: at the menu itself, partway through the
/// prompts of one action, or done.
pub enum MenuState {
    AtMenu,
    AddingTitle,
    AddingDescription { title: String },
    AddingAuthor { title: String, description: String },
    UpdatingTitle,
    UpdatingDescription { title: String },
    UpdatingAuthor { title: String, description: String },
    DeletingTitle,
    Exited,
}

/// The mathematical value of a `MenuState`: the same shape, with the lines
/// gathered so far as character sequences.
#[verifier::ext_equal]
pub enum MenuStateView {
    AtMenu,
    AddingTitle,
    AddingDescription { title: Seq<char> },
    AddingAuthor { title: Seq<char>, description: Seq<char> },
    UpdatingTitle,
    UpdatingDescription { title: Seq<char> },
    UpdatingAuthor { title: Seq<char>, description: Seq<char> },
    DeletingTitle,
    Exited,
}

impl View for MenuState {
    type V = MenuStateView;

    open spec fn view(&self) -> MenuStateView {
        match self {
            MenuState::AtMenu => MenuStateView::AtMenu,
            MenuState::AddingTitle => MenuStateView::AddingTitle,
            MenuState::AddingDescription { title } => MenuStateView::AddingDescription {
                title: title@,
            },
            MenuState::AddingAuthor { title, description } => MenuStateView::AddingAuthor {
                title: title@,
                description: description@,
            },
            MenuState::UpdatingTitle => MenuStateView::UpdatingTitle,
            MenuState::UpdatingDescription { title } => MenuStateView::UpdatingDescription {
                title: title@,
            },
            MenuState::UpdatingAuthor { title, description } => MenuStateView::UpdatingAuthor {
                title: title@,
                description: description@,
            },
            MenuState::DeletingTitle => MenuStateView::DeletingTitle,
            MenuState::Exited => MenuStateView::Exited,
        }
    }
}

/// What one transition of the menu loop did beyond moving between prompts:
/// it listed the store, or it finished an action with the given outcome.
#[derive(Clone, Copy, Debug, PartialEq, Eq, Structural)]
pub enum Action {
    ShowAll,
    Added,
    Updated,
    Removed,
    NotFound,
}

impl Action {
    /// The line the interface reports for this action; listing the store
    /// (`ShowAll`) has no fixed line of its own.
    pub open spec fn spec_message(&self) -> Seq<char> {
        match self {
            Action::ShowAll => ""@,
            Action::Added => "new recipe added"@,
            Action::Updated => "updated"@,
            Action::Removed => "recipe remove"@,
            Action::NotFound => "recipe not found"@,
        }
    }

    /// The line the interface reports for this action.
    pub fn message(&self) -> (r: String)
        ensures
            r@ == self.spec_message(),
    {
        match self {
            Action::ShowAll => "".to_owned(),
            Action::Added => "new recipe added".to_owned(),
            Action::Updated => "updated".to_owned(),
            Action::Removed => "recipe remove".to_owned(),
            Action::NotFound => "recipe not found".to_owned(),
        }
    }
}

/// What one transition of the menu loop yields: the next state, the store's
/// new value, and the action taken, if any.
#[verifier::ext_equal]
pub struct StepResult {
    pub state: MenuStateView,
    pub store: Map<Seq<char>, RecipeView>,
    pub action: Option<Action>,
}

/// One transition of the menu loop, on the store's mathematical value. An
/// empty line at the menu exits; an unrecognized selection exits too; an
/// empty line at any other prompt abandons the action.
pub open spec fn step_spec(
    st: MenuStateView,
    m: Map<Seq<char>, RecipeView>,
    line: Seq<char>,
) -> StepResult {
    match st {
        MenuStateView::AtMenu => {
            if line.len() == 0 {
                StepResult { state: MenuStateView::Exited, store: m, action: None }
            } else {
                match menu_choice(line) {
                    Some(RecipeMenu::AddRecipe) => StepResult {
                        state: MenuStateView::AddingTitle,
                        store: m,
                        action: None,
                    },
                    Some(RecipeMenu::ViewRecipe) => StepResult {
                        state: MenuStateView::AtMenu,
                        store: m,
                        action: None,
                    },
                    Some(RecipeMenu::UpdateRecipe) => StepResult {
                        state: MenuStateView::UpdatingTitle,
                        store: m,
                        action: Some(Action::ShowAll),
                    },
                    Some(RecipeMenu::DeleteRecipe) => StepResult {
                        state: MenuStateView::DeletingTitle,
                        store: m,
                        action: Some(Action::ShowAll),
                    },
                    Some(RecipeMenu::ViewAllRecipes) => StepResult {
                        state: MenuStateView::AtMenu,
                        store: m,
                        action: Some(Action::ShowAll),
                    },
                    None => StepResult { state: MenuStateView::Exited, store: m, action: None },
                }
            }
        },
        MenuStateView::AddingTitle => {
            if line.len() == 0 {
                StepResult { state: MenuStateView::AtMenu, store: m, action: None }
            } else {
                StepResult {
                    state: MenuStateView::AddingDescription { title: line },
                    store: m,
                    action: None,
                }
            }
        },
        MenuStateView::AddingDescription { title } => {
            if line.len() == 0 {
                StepResult { state: MenuStateView::AtMenu, store: m, action: None }
            } else {
                StepResult {
                    state: MenuStateView::AddingAuthor { title, description: line },
                    store: m,
                    action: None,
                }
            }
        },
        MenuStateView::AddingAuthor { title, description } => {
            if line.len() == 0 {
                StepResult { state: MenuStateView::AtMenu, store: m, action: None }
            } else {
                StepResult {
                    state: MenuStateView::AtMenu,
                    store: m.insert(title, (RecipeView { title, description, author: line })),
                    action: Some(Action::Added),
                }
            }
        },
        MenuStateView::UpdatingTitle => {
            if line.len() == 0 {
                StepResult { state: MenuStateView::AtMenu, store: m, action: None }
            } else {
                StepResult {
                    state: MenuStateView::UpdatingDescription { title: line },
                    store: m,
                    action: None,
                }
            }
        },
        MenuStateView::UpdatingDescription { title } => {
            if line.len() == 0 {
                StepResult { state: MenuStateView::AtMenu, store: m, action: None }
            } else {
                StepResult {
                    state: MenuStateView::UpdatingAuthor { title, description: line },
                    store: m,
                    action: None,
                }
            }
        },
        MenuStateView::UpdatingAuthor { title, description } => {
            if line.len() == 0 {
                StepResult { state: MenuStateView::AtMenu, store: m, action: None }
            } else if m.contains_key(title) {
                StepResult {
                    state: MenuStateView::AtMenu,
                    store: m.insert(title, (RecipeView { title, description, author: line })),
                    action: Some(Action::Updated),
                }
            } else {
                StepResult {
                    state: MenuStateView::AtMenu,
                    store: m,
                    action: Some(Action::NotFound),
                }
            }
        },
        MenuStateView::DeletingTitle => {
            if line.len() == 0 {
                StepResult { state: MenuStateView::AtMenu, store: m, action: None }
            } else if m.contains_key(line) {
                StepResult {
                    state: MenuStateView::AtMenu,
                    store: m.remove(line),
                    action: Some(Action::Removed),
                }
            } else {
                StepResult {
                    state: MenuStateView::AtMenu,
                    store: m,
                    action: Some(Action::NotFound),
                }
            }
        },
        MenuStateView::Exited => StepResult { state: MenuStateView::Exited, store: m, action: None },
    }
}

/// One transition of the menu loop: from the current state and one line of
/// input (already trimmed), move to the next state, updating the store and
/// reporting the action taken.
pub fn step(state: MenuState, recipes: &mut Recipes, line: &str) -> (r: (MenuState, Option<
    Action,
>))
    ensures
        r.0@ == step_spec(state@, old(recipes)@, line@).state,
        final(recipes)@ == step_spec(state@, old(recipes)@, line@).store,
        r.1 == step_spec(state@, old(recipes)@, line@).action,
{
    match state {
        MenuState::AtMenu => {
            if line.is_empty() {
                (MenuState::Exited, None)
            } else {
                match RecipeMenu::from_str(line) {
                    Some(RecipeMenu::AddRecipe) => (MenuState::AddingTitle, None),
                    Some(RecipeMenu::ViewRecipe) => (MenuState::AtMenu, None),
                    Some(RecipeMenu::UpdateRecipe) => (
                        MenuState::UpdatingTitle,
                        Some(Action::ShowAll),
                    ),
                    Some(RecipeMenu::DeleteRecipe) => (
                        MenuState::DeletingTitle,
                        Some(Action::ShowAll),
                    ),
                    Some(RecipeMenu::ViewAllRecipes) => (MenuState::AtMenu, Some(Action::ShowAll)),
                    None => (MenuState::Exited, None),
                }
            }
        },
        MenuState::AddingTitle => {
            if line.is_empty() {
                (MenuState::AtMenu, None)
            } else {
                (MenuState::AddingDescription { title: line.to_owned() }, None)
            }
        },
        MenuState::AddingDescription { title } => {
            if line.is_empty() {
                (MenuState::AtMenu, None)
            } else {
                (MenuState::AddingAuthor { title, description: line.to_owned() }, None)
            }
        },
        MenuState::AddingAuthor { title, description } => {
            if line.is_empty() {
                (MenuState::AtMenu, None)
            } else {
                recipes.add(Recipe { title, description, author: line.to_owned() });
                (MenuState::AtMenu, Some(Action::Added))
            }
        },
        MenuState::UpdatingTitle => {
            if line.is_empty() {
                (MenuState::AtMenu, None)
            } else {
                (MenuState::UpdatingDescription { title: line.to_owned() }, None)
            }
        },
        MenuState::UpdatingDescription { title } => {
            if line.is_empty() {
                (MenuState::AtMenu, None)
            } else {
                (MenuState::UpdatingAuthor { title, description: line.to_owned() }, None)
            }
        },
        MenuState::UpdatingAuthor { title, description } => {
            if line.is_empty() {
                (MenuState::AtMenu, None)
            } else {
                let found = recipes.update(title.as_str(), description.as_str(), line);
                if found {
                    (MenuState::AtMenu, Some(Action::Updated))
                } else {
                    (MenuState::AtMenu, Some(Action::NotFound))
                }
            }
        },
        MenuState::DeletingTitle => {
            if line.is_empty() {
                (MenuState::AtMenu, None)
            } else {
                let found = recipes.remove(line);
                if found {
                    (MenuState::AtMenu, Some(Action::Removed))
                } else {
                    proof {
                        assert(old(recipes)@.remove(line@) =~= old(recipes)@);
                    }
                    (MenuState::AtMenu, Some(Action::NotFound))
                }
            }
        },
        MenuState::Exited => (MenuState::Exited, None),
    }
}

/// What a whole session yields: the state the loop stopped in, the store's
/// final value, and the actions taken, in order.
#[verifier::ext_equal]
pub struct SessionResult {
    pub state: MenuStateView,
    pub store: Map<Seq<char>, RecipeView>,
    pub actions: Seq<Action>,
}

/// The actions one transition contributes: none, or the one it took.
pub open spec fn opt_actions(a: Option<Action>) -> Seq<Action> {
    match a {
        Some(x) => seq![x],
        None => Seq::empty(),
    }
}

/// The session that feeds `lines`, in order, to the menu loop starting in
/// `st` with store `m`, stopping when the loop exits or the lines run out.
pub open spec fn session_from(
    st: MenuStateView,
    m: Map<Seq<char>, RecipeView>,
    lines: Seq<Seq<char>>,
) -> SessionResult
    decreases lines.len(),
{
    if lines.len() == 0 || (st is Exited) {
        SessionResult { state: st, store: m, actions: Seq::empty() }
    } else {
        let first = step_spec(st, m, lines[0]);
        let rest = session_from(first.state, first.store, lines.drop_first());
        SessionResult {
            state: rest.state,
            store: rest.store,
            actions: opt_actions(first.action) + rest.actions,
        }
    }
}

/// A whole session from the start: at the menu, with an empty store.
pub open spec fn session(lines: Seq<Seq<char>>) -> SessionResult {
    session_from(MenuStateView::AtMenu, Map::empty(), lines)
}

/// Runs a whole session: feeds the lines (each already trimmed), in order,
/// to the menu loop starting at the menu with an empty store, and returns
/// the final store together with the actions taken.
pub fn run(lines: Vec<String>) -> (r: (Recipes, Vec<Action>))
    ensures
        r.0@ == session(lines.deep_view()).store,
        r.1@ == session(lines.deep_view()).actions,
{
    let ghost lv = lines.deep_view();
    let mut recipes = Recipes::new();
    let mut actions: Vec<Action> = Vec::new();
    let mut state = MenuState::AtMenu;
    let mut i: usize = 0;
    proof {
        assert(lv.skip(0) =~= lv);
    }
    while i < lines.len()
        invariant
            i <= lines.len(),
            lv == lines.deep_view(),
            session(lv).state == session_from(state@, recipes@, lv.skip(i as int)).state,
            session(lv).store == session_from(state@, recipes@, lv.skip(i as int)).store,
            session(lv).actions == actions@ + session_from(state@, recipes@, lv.skip(i as int)).actions,
        decreases lines.len() - i,
    {
        let ghost st0 = state@;
        let ghost m0 = recipes@;
        let ghost acts0 = actions@;
        let ghost rest = lv.skip(i as int);
        proof {
            assert(rest[0] == lines@[i as int]@);
            assert(rest.drop_first() =~= lv.skip(i as int + 1));
        }
        let line = lines[i].as_str();
        let (next, act) = step(state, &mut recipes, line);
        state = next;
        if let Some(a) = act {
            actions.push(a);
        }
        proof {
            assert(actions@ =~= acts0 + opt_actions(act));
            if st0 is Exited {
                assert(session_from(st0, m0, rest) == session_from(
                    state@,
                    recipes@,
                    lv.skip(i as int + 1),
                ));
            } else {
                let restres = session_from(state@, recipes@, lv.skip(i as int + 1));
                assert(session_from(st0, m0, rest).actions == opt_actions(act) + restres.actions);
                assert(acts0 + (opt_actions(act) + restres.actions) =~= (acts0 + opt_actions(act))
                    + restres.actions);
            }
        }
        i += 1;
    }
    proof {
        assert(lv.skip(lines@.len() as int) =~= Seq::<Seq<char>>::empty());
        assert(actions@ + Seq::<Action>::empty() =~= actions@);
    }
    (recipes, actions)
}

/// An empty line at the menu prompt ends the session there: whatever lines
/// follow, the loop exits, the store is left as it was, and no action is
/// taken.
pub proof fn lemma_empty_line_at_menu_exits(m: Map<Seq<char>, RecipeView>, lines: Seq<Seq<char>>)
    requires
        lines.len() > 0,
        lines[0].len() == 0,
    ensures
        session_from(MenuStateView::AtMenu, m, lines) == (SessionResult {
            state: MenuStateView::Exited,
            store: m,
            actions: Seq::<Action>::empty(),
        }),
{
    let first = step_spec(MenuStateView::AtMenu, m, lines[0]);
    assert(first.state is Exited);
    assert(session_from(first.state, first.store, lines.drop_first()) == (SessionResult {
        state: MenuStateView::Exited,
        store: m,
        actions: Seq::<Action>::empty(),
    }));
    assert(opt_actions(None) + Seq::<Action>::empty() =~= Seq::<Action>::empty());
    assert(session_from(MenuStateView::AtMenu, m, lines) =~= (SessionResult {
        state: MenuStateView::Exited,
        store: m,
        actions: Seq::<Action>::empty(),
    }));
}

} // verus!
