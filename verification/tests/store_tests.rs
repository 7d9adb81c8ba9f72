use recipe_manager::store::Recipe;
use recipe_manager::store::Recipes;

fn recipe(title: &str, description: &str, author: &str) -> Recipe {
    Recipe {
        title: title.to_owned(),
        description: description.to_owned(),
        author: author.to_owned(),
    }
}

#[test]
fn get_all_on_empty_store_is_empty() {
    let store = Recipes::new();
    assert!(store.get_all().is_empty());
}

#[test]
fn add_then_get_all_includes_it_once() {
    let mut store = Recipes::new();
    store.add(recipe("Soup", "Tasty", "Chef"));
    let all = store.get_all();
    assert_eq!(all.len(), 1);
    assert_eq!(all[0].title, "Soup");
    assert_eq!(all[0].description, "Tasty");
    assert_eq!(all[0].author, "Chef");
}

#[test]
fn add_same_title_twice_keeps_second_values() {
    let mut store = Recipes::new();
    store.add(recipe("Soup", "Tasty", "Chef"));
    store.add(recipe("Soup", "Better", "Sous"));
    let all = store.get_all();
    assert_eq!(all.len(), 1);
    assert_eq!(all[0].title, "Soup");
    assert_eq!(all[0].description, "Better");
    assert_eq!(all[0].author, "Sous");
}

#[test]
fn add_two_titles_keeps_both() {
    let mut store = Recipes::new();
    store.add(recipe("Soup", "Tasty", "Chef"));
    store.add(recipe("Stew", "Hearty", "Cook"));
    let all = store.get_all();
    assert_eq!(all.len(), 2);
    assert!(all.iter().any(|r| r.title == "Soup" && r.description == "Tasty"));
    assert!(all.iter().any(|r| r.title == "Stew" && r.description == "Hearty"));
}

#[test]
fn remove_on_empty_store_fails() {
    let mut store = Recipes::new();
    assert!(!store.remove("X"));
}

#[test]
fn remove_existing_succeeds_and_title_is_absent() {
    let mut store = Recipes::new();
    store.add(recipe("X", "d", "a"));
    store.add(recipe("Y", "e", "b"));
    assert!(store.remove("X"));
    let all = store.get_all();
    assert_eq!(all.len(), 1);
    assert!(all.iter().all(|r| r.title != "X"));
    assert!(!store.remove("X"));
}

#[test]
fn update_missing_fails_and_leaves_store_unchanged() {
    let mut store = Recipes::new();
    store.add(recipe("Soup", "Tasty", "Chef"));
    assert!(!store.update("X", "d", "a"));
    let all = store.get_all();
    assert_eq!(all.len(), 1);
    assert_eq!(all[0].title, "Soup");
    assert_eq!(all[0].description, "Tasty");
    assert_eq!(all[0].author, "Chef");
}

#[test]
fn update_existing_replaces_fields_and_keeps_title() {
    let mut store = Recipes::new();
    store.add(recipe("X", "old description", "old author"));
    assert!(store.update("X", "new description", "new author"));
    let all = store.get_all();
    assert_eq!(all.len(), 1);
    assert_eq!(all[0].title, "X");
    assert_eq!(all[0].description, "new description");
    assert_eq!(all[0].author, "new author");
}
