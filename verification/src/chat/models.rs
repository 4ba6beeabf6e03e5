//! The models that a conversation offers.
//!
//! The first one is the one that is chosen at the start, so the configured default
//! is moved there.
use crate::compliance::ChatModelOption;
use crate::text::{opt_text, same, texts};
use vstd::prelude::*;

verus! {

/// Where a text first stands in a list; the list's length if it does not.
pub open spec fn place_of(ids: Seq<Seq<char>>, id: Seq<char>) -> int
    decreases ids.len(),
{
    if ids.len() == 0 {
        0
    } else if ids[0] == id {
        0
    } else {
        1 + place_of(ids.drop_first(), id)
    }
}

proof fn lemma_place_of(ids: Seq<Seq<char>>, id: Seq<char>)
    ensures
        0 <= place_of(ids, id) <= ids.len(),
        place_of(ids, id) < ids.len() ==> ids[place_of(ids, id)] == id,
        ids.contains(id) ==> place_of(ids, id) < ids.len(),
    decreases ids.len(),
{
    if ids.len() > 0 && ids[0] != id {
        lemma_place_of(ids.drop_first(), id);
        if ids.contains(id) {
            let i = choose|i: int| 0 <= i < ids.len() && ids[i] == id;
            assert(ids.drop_first()[i - 1] == id);
        }
    }
}

/// A list with the item at a place moved to the front; the others stay in order.
pub open spec fn moved<T>(items: Seq<T>, place: int) -> Seq<T> {
    if 0 <= place < items.len() {
        items.remove(place).insert(0, items[place])
    } else {
        items
    }
}

/// Where the configured model stands.
pub open spec fn configured_place(ids: Seq<Seq<char>>, configured: Option<Seq<char>>) -> int {
    match configured {
        Some(id) => place_of(ids, id),
        None => ids.len() as int,
    }
}

/// The names of models.
pub open spec fn option_ids(models: Seq<ChatModelOption>) -> Seq<Seq<char>> {
    models.map_values(|m: ChatModelOption| m.id@)
}

fn find_id(models: &Vec<String>, id: &str) -> (r: usize)
    ensures
        r == place_of(texts(models@), id@),
{
    let ghost ids = texts(models@);
    assert(ids.skip(0) =~= ids);
    for i in 0..models.len()
        invariant
            ids == texts(models@),
            place_of(ids, id@) == i + place_of(ids.skip(i as int), id@),
    {
        assert(ids.skip(i as int).drop_first() =~= ids.skip(i + 1));
        if same(&models[i], id) {
            return i;
        }
    }
    models.len()
}

fn find_option(models: &Vec<ChatModelOption>, id: &str) -> (r: usize)
    ensures
        r == place_of(option_ids(models@), id@),
{
    let ghost ids = option_ids(models@);
    assert(ids.skip(0) =~= ids);
    for i in 0..models.len()
        invariant
            ids == option_ids(models@),
            place_of(ids, id@) == i + place_of(ids.skip(i as int), id@),
    {
        assert(ids.skip(i as int).drop_first() =~= ids.skip(i + 1));
        if same(&models[i].id, id) {
            return i;
        }
    }
    models.len()
}

/// Moves the item at a place to the front, if there is one.
pub fn move_to_front<T>(items: Vec<T>, place: usize) -> (r: Vec<T>)
    ensures
        r@ == moved(items@, place as int),
{
    let mut out = items;
    if place < out.len() {
        let first = out.remove(place);
        out.insert(0, first);
    }
    out
}

/// Moves the configured model to the front, if it is offered.
pub fn promote(configured: &Option<String>, models: Vec<String>) -> (r: Vec<String>)
    ensures
        r@ == moved(models@, configured_place(texts(models@), opt_text(*configured))),
{
    let place = match configured {
        Some(id) => find_id(&models, id),
        None => models.len(),
    };
    move_to_front(models, place)
}

/// Moves the configured model to the front, if it is offered.
pub fn promote_option(configured: &Option<String>, models: Vec<ChatModelOption>) -> (r: Vec<
    ChatModelOption,
>)
    ensures
        r@ == moved(models@, configured_place(option_ids(models@), opt_text(*configured))),
{
    let place = match configured {
        Some(id) => find_option(&models, id),
        None => models.len(),
    };
    move_to_front(models, place)
}

/// A configured model that is offered comes first; and whatever is configured, the
/// same models are offered.
pub proof fn the_default_comes_first(models: Seq<ChatModelOption>, configured: Option<Seq<char>>)
    ensures
        ({
            let r = moved(models, configured_place(option_ids(models), configured));
            &&& r.to_multiset() == models.to_multiset()
            &&& configured is Some && option_ids(models).contains(configured->0) ==> r.len() > 0
                && r[0].id@ == configured->0
            &&& configured is None || !option_ids(models).contains(configured->0) ==> r == models
        }),
{
    broadcast use vstd::seq_lib::group_to_multiset_ensures;

    let ids = option_ids(models);
    match configured {
        Some(id) => {
            lemma_place_of(ids, id);
            let p = place_of(ids, id);
            if p < ids.len() {
                assert(ids.contains(ids[p]));
                let rest = models.remove(p);
                let r = rest.insert(0, models[p]);
                assert(r.remove(0) =~= rest);
                assert(r[0] == models[p]);
                assert(r.contains(r[0]) && models.contains(models[p]));
                assert(rest.to_multiset() =~= r.to_multiset().remove(r[0]));
                assert(rest.to_multiset() =~= models.to_multiset().remove(models[p]));
                assert(r.to_multiset() =~= rest.to_multiset().insert(models[p]));
                assert(models.to_multiset() =~= rest.to_multiset().insert(models[p]));
            }
        },
        None => {},
    }
}

/// Among the models that turn speech into text the configured one comes first as well,
/// and none is lost.
pub proof fn the_default_text_model_comes_first(
    configured: &Option<String>,
    models: Vec<String>,
    r: Vec<String>,
)
    requires
        call_ensures(promote, (configured, models), r),
    ensures
        r@.to_multiset() == models@.to_multiset(),
        *configured is Some && texts(models@).contains(configured->0@) ==> r@.len() > 0 && r@[0]@
            == configured->0@,
        *configured is None || !texts(models@).contains(configured->0@) ==> r@ == models@,
{
    broadcast use vstd::seq_lib::group_to_multiset_ensures;

    let ids = texts(models@);
    if *configured is Some {
        let id = configured->0@;
        lemma_place_of(ids, id);
        let p = place_of(ids, id);
        if p < ids.len() {
            assert(ids.contains(ids[p]));
            let rest = models@.remove(p);
            let moved_up = rest.insert(0, models@[p]);
            assert(moved_up.remove(0) =~= rest);
            assert(moved_up[0] == models@[p]);
            assert(moved_up.contains(moved_up[0]) && models@.contains(models@[p]));
            assert(rest.to_multiset() =~= moved_up.to_multiset().remove(moved_up[0]));
            assert(rest.to_multiset() =~= models@.to_multiset().remove(models@[p]));
            assert(moved_up.to_multiset() =~= rest.to_multiset().insert(models@[p]));
            assert(models@.to_multiset() =~= rest.to_multiset().insert(models@[p]));
        }
    }
}

/// The models behind the first one keep their order.
pub proof fn the_other_models_keep_their_order<T>(items: Seq<T>, place: int, i: int)
    requires
        0 <= place < items.len(),
    ensures
        moved(items, place).len() == items.len(),
        moved(items, place)[0] == items[place],
        0 <= i < place ==> moved(items, place)[i + 1] == items[i],
        place < i < items.len() ==> moved(items, place)[i] == items[i],
{
}

} // verus!
