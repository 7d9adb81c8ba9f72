use recipe_manager::menu::run;
use recipe_manager::menu::step;
use recipe_manager::menu::Action;
use recipe_manager::menu::MenuState;
use recipe_manager::menu::RecipeMenu;
use recipe_manager::store::Recipes;

fn lines(input: &[&str]) -> Vec<String> {
    input.iter().map(|l| l.to_string()).collect()
}

#[test]
fn from_str_maps_the_five_digits() {
    assert_eq!(RecipeMenu::from_str("1"), Some(RecipeMenu::AddRecipe));
    assert_eq!(RecipeMenu::from_str("2"), Some(RecipeMenu::ViewRecipe));
    assert_eq!(RecipeMenu::from_str("3"), Some(RecipeMenu::UpdateRecipe));
    assert_eq!(RecipeMenu::from_str("4"), Some(RecipeMenu::DeleteRecipe));
    assert_eq!(RecipeMenu::from_str("5"), Some(RecipeMenu::ViewAllRecipes));
}

#[test]
fn from_str_rejects_everything_else() {
    assert_eq!(RecipeMenu::from_str(""), None);
    assert_eq!(RecipeMenu::from_str("0"), None);
    assert_eq!(RecipeMenu::from_str("6"), None);
    assert_eq!(RecipeMenu::from_str("12"), None);
    assert_eq!(RecipeMenu::from_str("add"), None);
}

#[test]
fn action_messages_match_the_interface() {
    assert_eq!(Action::Added.message(), "new recipe added");
    assert_eq!(Action::Updated.message(), "updated");
    assert_eq!(Action::Removed.message(), "recipe remove");
    assert_eq!(Action::NotFound.message(), "recipe not found");
    assert_eq!(Action::ShowAll.message(), "");
}

#[test]
fn empty_line_at_menu_exits() {
    let mut store = Recipes::new();
    let (state, action) = step(MenuState::AtMenu, &mut store, "");
    assert!(matches!(state, MenuState::Exited));
    assert!(action.is_none());
    assert!(store.get_all().is_empty());
}

#[test]
fn unrecognized_selection_exits() {
    let mut store = Recipes::new();
    let (state, action) = step(MenuState::AtMenu, &mut store, "9");
    assert!(matches!(state, MenuState::Exited));
    assert!(action.is_none());
}

#[test]
fn run_adds_one_recipe() {
    let (store, actions) = run(lines(&["1", "Soup", "Tasty", "Chef"]));
    let all = store.get_all();
    assert_eq!(all.len(), 1);
    assert_eq!(all[0].title, "Soup");
    assert_eq!(all[0].description, "Tasty");
    assert_eq!(all[0].author, "Chef");
    assert_eq!(actions, vec![Action::Added]);
}

#[test]
fn run_add_then_delete_leaves_store_empty() {
    let (store, actions) = run(lines(&["1", "A", "B", "C", "4", "A"]));
    assert!(store.get_all().is_empty());
    assert!(actions.contains(&Action::Removed));
    assert!(actions.iter().any(|a| a.message() == "recipe remove"));
    assert_eq!(actions, vec![Action::Added, Action::ShowAll, Action::Removed]);
}

#[test]
fn run_on_empty_line_terminates_without_action() {
    let (store, actions) = run(lines(&[""]));
    assert!(store.get_all().is_empty());
    assert!(actions.is_empty());
}

#[test]
fn run_ignores_lines_after_the_exit() {
    let (store, actions) = run(lines(&["", "1", "Soup", "Tasty", "Chef"]));
    assert!(store.get_all().is_empty());
    assert!(actions.is_empty());
}

#[test]
fn run_aborts_an_action_on_an_empty_prompt_line() {
    let (store, actions) = run(lines(&["1", "Soup", "", "5"]));
    assert!(store.get_all().is_empty());
    assert_eq!(actions, vec![Action::ShowAll]);
}

#[test]
fn run_updates_an_existing_recipe() {
    let (store, actions) = run(lines(&[
        "1", "Soup", "Tasty", "Chef", "3", "Soup", "Better", "Sous",
    ]));
    let all = store.get_all();
    assert_eq!(all.len(), 1);
    assert_eq!(all[0].title, "Soup");
    assert_eq!(all[0].description, "Better");
    assert_eq!(all[0].author, "Sous");
    assert_eq!(actions, vec![Action::Added, Action::ShowAll, Action::Updated]);
}

#[test]
fn run_reports_update_of_missing_title() {
    let (store, actions) = run(lines(&["3", "Nope", "d", "a"]));
    assert!(store.get_all().is_empty());
    assert_eq!(actions, vec![Action::ShowAll, Action::NotFound]);
    assert_eq!(actions[1].message(), "recipe not found");
}

#[test]
fn run_reports_delete_of_missing_title() {
    let (store, actions) = run(lines(&["4", "Nope"]));
    assert!(store.get_all().is_empty());
    assert_eq!(actions, vec![Action::ShowAll, Action::NotFound]);
}

#[test]
fn view_recipe_selection_does_nothing() {
    let (store, actions) = run(lines(&["2", "5"]));
    assert!(store.get_all().is_empty());
    assert_eq!(actions, vec![Action::ShowAll]);
}
