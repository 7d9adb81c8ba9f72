//! The recipe store: an in-memory collection of recipes with at most one
//! entry per title, modelled as a map from title to recipe.

use vstd::prelude::*;
use vstd::pervasive::VecAdditionalExecFns;

verus! {

/// A recipe: a title that identifies it, a description and an author.
#[derive(Debug, Clone)]
pub struct Recipe {
    pub title: String,
    pub description: String,
    pub author: String,
}

/// The mathematical value of a `Recipe`: its three fields as character
/// sequences.
#[verifier::ext_equal]
pub struct RecipeView {
    pub title: Seq<char>,
    pub description: Seq<char>,
    pub author: Seq<char>,
}

impl View for Recipe {
    type V = RecipeView;

    open spec fn view(&self) -> RecipeView {
        RecipeView {
            title: self.title@,
            description: self.description@,
            author: self.author@,
        }
    }
}

/// Whether the recipes in `s` carry pairwise distinct titles.
pub open spec fn titles_unique(s: Seq<Recipe>) -> bool {
    forall|i: int, j: int| 0 <= i < j < s.len() ==> s[i]@.title != s[j]@.title
}

/// The map from title to recipe that a sequence of recipes denotes; a later
/// entry overrides an earlier one with the same title.
pub open spec fn map_of(s: Seq<Recipe>) -> Map<Seq<char>, RecipeView>
    decreases s.len(),
{
    if s.len() == 0 {
        Map::empty()
    } else {
        map_of(s.drop_last()).insert(s.last()@.title, s.last()@)
    }
}

/// An in-memory collection of recipes, at most one per title. Its
/// mathematical value is the map from each stored title to its recipe.
pub struct Recipes {
    recipes: Vec<Recipe>,
}

impl View for Recipes {
    type V = Map<Seq<char>, RecipeView>;

    closed spec fn view(&self) -> Map<Seq<char>, RecipeView> {
        map_of(self.recipes@)
    }
}

/// Compares two string slices by their character content.
fn str_eq(a: &str, b: &str) -> (r: bool)
    ensures
        r == (a@ == b@),
{
    let sa = a.to_owned();
    let sb = b.to_owned();
    sa == sb
}

/// The index of the first recipe in `v` with the given title, if any.
fn find_index(v: &Vec<Recipe>, title: &str) -> (r: Option<usize>)
    ensures
        match r {
            Some(i) => i < v@.len() && v@[i as int]@.title == title@,
            None => forall|i: int| 0 <= i < v@.len() ==> v@[i]@.title != title@,
        },
{
    let mut i: usize = 0;
    while i < v.len()
        invariant
            i <= v@.len(),
            forall|j: int| 0 <= j < i ==> v@[j]@.title != title@,
        decreases v@.len() - i,
    {
        if str_eq(v[i].title.as_str(), title) {
            return Some(i);
        }
        i += 1;
    }
    None
}

impl Recipes {
    /// Internal invariant: the stored recipes carry pairwise distinct titles.
    #[verifier::type_invariant]
    spec fn wf(self) -> bool {
        titles_unique(self.recipes@)
    }

    /// Creates an empty store.
    pub fn new() -> (r: Self)
        ensures
            r@ == Map::<Seq<char>, RecipeView>::empty(),
    {
        Recipes { recipes: Vec::new() }
    }

    /// Inserts the recipe under its title, replacing any stored recipe with
    /// the same title.
    pub fn add(&mut self, recipe: Recipe)
        ensures
            final(self)@ == old(self)@.insert(recipe@.title, recipe@),
    {
        proof {
            use_type_invariant(&*self);
        }
        let ghost rsnap = recipe;
        let mut v: Vec<Recipe> = Vec::new();
        core::mem::swap(&mut v, &mut self.recipes);
        let ghost s0 = v@;
        match find_index(&v, recipe.title.as_str()) {
            Some(i) => {
                v.set(i, recipe);
                proof {
                    lemma_map_of_update(s0, i as int, rsnap);
                }
            },
            None => {
                v.push(recipe);
                proof {
                    let s1 = s0.push(rsnap);
                    assert(s1.drop_last() =~= s0);
                    assert(forall|k: int| 0 <= k < s0.len() ==> s1[k] == s0[k]);
                    assert(titles_unique(s1));
                    assert(map_of(s1) == map_of(s0).insert(rsnap@.title, rsnap@));
                }
            },
        }
        self.recipes = v;
    }

    /// Removes the recipe with the given title; reports whether one was
    /// stored.
    pub fn remove(&mut self, title: &str) -> (r: bool)
        ensures
            r == old(self)@.contains_key(title@),
            final(self)@ == old(self)@.remove(title@),
    {
        proof {
            use_type_invariant(&*self);
        }
        let mut v: Vec<Recipe> = Vec::new();
        core::mem::swap(&mut v, &mut self.recipes);
        let ghost s0 = v@;
        proof {
            lemma_map_of_contains(s0, title@);
        }
        let r = match find_index(&v, title) {
            Some(i) => {
                proof {
                    lemma_map_of_remove(s0, i as int);
                    assert(s0[i as int]@.title == title@);
                }
                let _removed = v.remove(i);
                true
            },
            None => {
                proof {
                    assert(map_of(s0).remove(title@) =~= map_of(s0));
                }
                false
            },
        };
        self.recipes = v;
        r
    }

    /// Replaces the description and author of the recipe with the given
    /// title, leaving the store unchanged when no such recipe exists;
    /// reports whether one was found.
    pub fn update(&mut self, title: &str, desc: &str, author: &str) -> (r: bool)
        ensures
            r == old(self)@.contains_key(title@),
            r ==> final(self)@ == old(self)@.insert(
                title@,
                (RecipeView { title: title@, description: desc@, author: author@ }),
            ),
            !r ==> final(self)@ == old(self)@,
    {
        proof {
            use_type_invariant(&*self);
        }
        let mut v: Vec<Recipe> = Vec::new();
        core::mem::swap(&mut v, &mut self.recipes);
        let ghost s0 = v@;
        proof {
            lemma_map_of_contains(s0, title@);
        }
        let r = match find_index(&v, title) {
            Some(i) => {
                let replacement = Recipe {
                    title: title.to_owned(),
                    description: desc.to_owned(),
                    author: author.to_owned(),
                };
                let ghost rsnap = replacement;
                v.set(i, replacement);
                proof {
                    lemma_map_of_update(s0, i as int, rsnap);
                }
                true
            },
            None => false,
        };
        self.recipes = v;
        r
    }

    /// All stored recipes, each exactly once, in unspecified order.
    pub fn get_all(&self) -> (r: Vec<&Recipe>)
        ensures
            lists_store(r@.map_values(|x: &Recipe| x@), self@),
    {
        proof {
            use_type_invariant(self);
        }
        let ghost s0 = self.recipes@;
        let mut r: Vec<&Recipe> = Vec::new();
        let mut i: usize = 0;
        while i < self.recipes.len()
            invariant
                i <= s0.len(),
                s0 == self.recipes@,
                r@.len() == i,
                forall|j: int| 0 <= j < i ==> r@[j]@ == s0[j]@,
            decreases s0.len() - i,
        {
            r.push(&self.recipes[i]);
            i += 1;
        }
        proof {
            let vs = r@.map_values(|x: &Recipe| x@);
            assert(forall|j: int| 0 <= j < vs.len() ==> vs[j] == s0[j]@);
            assert forall|j: int| 0 <= j < vs.len() implies map_of(s0).contains_pair(
                vs[j].title,
                vs[j],
            ) by {
                lemma_map_of_value(s0, j);
            }
            assert forall|t: Seq<char>| map_of(s0).contains_key(t) implies exists|j: int|
                0 <= j < vs.len() && vs[j].title == t by {
                lemma_map_of_contains(s0, t);
                let j = choose|j: int| 0 <= j < s0.len() && s0[j]@.title == t;
                assert(vs[j].title == t);
            }
        }
        r
    }
}

/// Whether the sequence `vs` lists exactly the entries of the map `m`: each
/// element is an entry of `m`, no title occurs twice, and every title of `m`
/// occurs.
pub open spec fn lists_store(vs: Seq<RecipeView>, m: Map<Seq<char>, RecipeView>) -> bool {
    &&& forall|i: int| 0 <= i < vs.len() ==> m.contains_pair(vs[i].title, vs[i])
    &&& forall|i: int, j: int| 0 <= i < j < vs.len() ==> vs[i].title != vs[j].title
    &&& forall|t: Seq<char>|
        m.contains_key(t) ==> exists|i: int| 0 <= i < vs.len() && vs[i].title == t
}

/// Adding a recipe and then listing the store includes that recipe exactly
/// once: any listing of the store after the insertion contains the recipe at
/// one index and at no other.
pub proof fn lemma_add_then_list_includes_once(
    m: Map<Seq<char>, RecipeView>,
    r: RecipeView,
    vs: Seq<RecipeView>,
)
    requires
        lists_store(vs, m.insert(r.title, r)),
    ensures
        exists|i: int| 0 <= i < vs.len() && vs[i] == r,
        forall|i: int, j: int|
            0 <= i < vs.len() && 0 <= j < vs.len() && vs[i] == r && vs[j] == r ==> i == j,
{
    let m1 = m.insert(r.title, r);
    assert(m1.contains_key(r.title));
    let i = choose|i: int| 0 <= i < vs.len() && vs[i].title == r.title;
    assert(m1.contains_pair(vs[i].title, vs[i]));
    assert(vs[i] == r);
}

/// Adding two recipes with the same title stores only the second: the two
/// insertions leave the same map as the second insertion alone, so the first
/// recipe's values are gone and exactly one entry holds the title.
pub proof fn lemma_same_title_overwrites(
    m: Map<Seq<char>, RecipeView>,
    first: RecipeView,
    second: RecipeView,
)
    requires
        first.title == second.title,
    ensures
        m.insert(first.title, first).insert(second.title, second) == m.insert(
            second.title,
            second,
        ),
        m.insert(first.title, first).insert(second.title, second)[second.title] == second,
{
    assert(m.insert(first.title, first).insert(second.title, second) =~= m.insert(
        second.title,
        second,
    ));
}

/// After a title is removed, no listing of the store contains it.
pub proof fn lemma_removed_title_absent(
    m: Map<Seq<char>, RecipeView>,
    t: Seq<char>,
    vs: Seq<RecipeView>,
)
    requires
        lists_store(vs, m.remove(t)),
    ensures
        forall|i: int| 0 <= i < vs.len() ==> vs[i].title != t,
{
    assert forall|i: int| 0 <= i < vs.len() implies vs[i].title != t by {
        assert(m.remove(t).contains_pair(vs[i].title, vs[i]));
    }
}

/// A title is in the map of `s` exactly when some recipe in `s` carries it.
proof fn lemma_map_of_contains(s: Seq<Recipe>, t: Seq<char>)
    ensures
        map_of(s).contains_key(t) <==> exists|i: int| 0 <= i < s.len() && s[i]@.title == t,
    decreases s.len(),
{
    if s.len() > 0 {
        let s1 = s.drop_last();
        lemma_map_of_contains(s1, t);
        assert(forall|i: int| 0 <= i < s1.len() ==> s1[i] == s[i]);
        if map_of(s).contains_key(t) {
            if s.last()@.title != t {
                let i = choose|i: int| 0 <= i < s1.len() && s1[i]@.title == t;
                assert(s[i]@.title == t);
            } else {
                assert(s[s.len() - 1]@.title == t);
            }
        }
        if exists|i: int| 0 <= i < s.len() && s[i]@.title == t {
            let i = choose|i: int| 0 <= i < s.len() && s[i]@.title == t;
            if i < s.len() - 1 {
                assert(s1[i]@.title == t);
            }
        }
    }
}

/// With pairwise distinct titles, the recipe at each index is the map's
/// entry for its title.
proof fn lemma_map_of_value(s: Seq<Recipe>, i: int)
    requires
        titles_unique(s),
        0 <= i < s.len(),
    ensures
        map_of(s).contains_key(s[i]@.title),
        map_of(s)[s[i]@.title] == s[i]@,
    decreases s.len(),
{
    if i < s.len() - 1 {
        assert(titles_unique(s.drop_last()));
        lemma_map_of_value(s.drop_last(), i);
        assert(s.last()@.title != s[i]@.title);
    }
}

/// With pairwise distinct titles, removing the recipe at index `i` removes
/// exactly its title's entry from the map.
proof fn lemma_map_of_remove(s: Seq<Recipe>, i: int)
    requires
        titles_unique(s),
        0 <= i < s.len(),
    ensures
        map_of(s.remove(i)) == map_of(s).remove(s[i]@.title),
        titles_unique(s.remove(i)),
    decreases s.len(),
{
    let sr = s.remove(i);
    assert(forall|k: int| 0 <= k < i ==> sr[k] == s[k]);
    assert(forall|k: int| i <= k < sr.len() ==> sr[k] == s[k + 1]);
    assert(titles_unique(sr));
    if i == s.len() - 1 {
        assert(sr =~= s.drop_last());
        lemma_map_of_contains(s.drop_last(), s[i]@.title);
        assert(forall|k: int| 0 <= k < s.len() - 1 ==> s.drop_last()[k] == s[k]);
        assert(!map_of(s.drop_last()).contains_key(s[i]@.title));
        assert(map_of(sr) =~= map_of(s).remove(s[i]@.title));
    } else {
        assert(sr.drop_last() =~= s.drop_last().remove(i));
        assert(sr.last() == s.last());
        assert(titles_unique(s.drop_last()));
        lemma_map_of_remove(s.drop_last(), i);
        assert(s.last()@.title != s[i]@.title);
        assert(map_of(sr) =~= map_of(s).remove(s[i]@.title));
    }
}

/// With pairwise distinct titles, replacing the recipe at index `i` by one
/// with the same title replaces exactly that title's entry of the map.
proof fn lemma_map_of_update(s: Seq<Recipe>, i: int, r: Recipe)
    requires
        titles_unique(s),
        0 <= i < s.len(),
        r@.title == s[i]@.title,
    ensures
        map_of(s.update(i, r)) == map_of(s).insert(r@.title, r@),
        titles_unique(s.update(i, r)),
    decreases s.len(),
{
    let su = s.update(i, r);
    assert(forall|k: int| 0 <= k < s.len() ==> su[k]@.title == s[k]@.title);
    if i == s.len() - 1 {
        assert(su.drop_last() =~= s.drop_last());
        assert(map_of(su) =~= map_of(s).insert(r@.title, r@));
    } else {
        assert(su.drop_last() =~= s.drop_last().update(i, r));
        assert(titles_unique(s.drop_last()));
        lemma_map_of_update(s.drop_last(), i, r);
        assert(s.last()@.title != r@.title);
        assert(map_of(su) =~= map_of(s).insert(r@.title, r@));
    }
}

} // verus!
