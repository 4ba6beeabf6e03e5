//! Models and what may be sent to them.
//!
//! A model that is not cleared for personal data, or for confidential data, is
//! labelled so wherever it can be picked, and the page warns while it is picked.
use crate::json::{json_list, json_text, write_list, write_text};
use crate::text::texts;
use vstd::prelude::*;

verus! {

/// A model that can be picked, and what it is cleared for.
pub struct ChatModelOption {
    pub id: String,
    pub gdpr: bool,
    pub nda: bool,
}

/// The models that are not cleared for personal data, in order.
pub open spec fn gdpr_flagged(models: Seq<ChatModelOption>) -> Seq<Seq<char>>
    decreases models.len(),
{
    if models.len() == 0 {
        Seq::empty()
    } else {
        let head = gdpr_flagged(models.drop_last());
        if models.last().gdpr {
            head
        } else {
            head.push(models.last().id@)
        }
    }
}

/// The models that are not cleared for confidential data, in order.
pub open spec fn nda_flagged(models: Seq<ChatModelOption>) -> Seq<Seq<char>>
    decreases models.len(),
{
    if models.len() == 0 {
        Seq::empty()
    } else {
        let head = nda_flagged(models.drop_last());
        if models.last().nda {
            head
        } else {
            head.push(models.last().id@)
        }
    }
}

/// The models that are not cleared for personal data.
pub fn flagged_gdpr(models: &Vec<ChatModelOption>) -> (r: Vec<String>)
    ensures
        texts(r@) == gdpr_flagged(models@),
{
    let mut out: Vec<String> = Vec::new();
    assert(texts(out@) =~= gdpr_flagged(models@.take(0)));
    for i in 0..models.len()
        invariant
            texts(out@) == gdpr_flagged(models@.take(i as int)),
    {
        assert(models@.take(i + 1).drop_last() =~= models@.take(i as int));
        let ghost before = texts(out@);
        if !models[i].gdpr {
            out.push(models[i].id.clone());
            assert(texts(out@) =~= before.push(models@[i as int].id@));
        }
    }
    assert(models@.take(models@.len() as int) =~= models@);
    out
}

/// The models that are not cleared for confidential data.
pub fn flagged_nda(models: &Vec<ChatModelOption>) -> (r: Vec<String>)
    ensures
        texts(r@) == nda_flagged(models@),
{
    let mut out: Vec<String> = Vec::new();
    assert(texts(out@) =~= nda_flagged(models@.take(0)));
    for i in 0..models.len()
        invariant
            texts(out@) == nda_flagged(models@.take(i as int)),
    {
        assert(models@.take(i + 1).drop_last() =~= models@.take(i as int));
        let ghost before = texts(out@);
        if !models[i].nda {
            out.push(models[i].id.clone());
            assert(texts(out@) =~= before.push(models@[i as int].id@));
        }
    }
    assert(models@.take(models@.len() as int) =~= models@);
    out
}

/// The state that the warnings of a page read: the picked model and the two
/// lists.
pub open spec fn signals_text(models: Seq<ChatModelOption>, selected: Seq<char>) -> Seq<char> {
    "{selectedModel: "@ + json_text(selected) + ", gdprFlagged: "@ + json_list(gdpr_flagged(models))
        + ", ndaFlagged: "@ + json_list(nda_flagged(models)) + "}"@
}

/// Writes the state that the warnings of a page read.
pub fn signals(models: &Vec<ChatModelOption>, selected: &str) -> (r: String)
    ensures
        r@ == signals_text(models@, selected@),
{
    let mut out = "{selectedModel: ".to_owned();
    out.append(&write_text(selected));
    out.append(", gdprFlagged: ");
    out.append(&write_list(&flagged_gdpr(models)));
    out.append(", ndaFlagged: ");
    out.append(&write_list(&flagged_nda(models)));
    out.append("}");
    out
}

/// Whether some model is not cleared for personal data.
pub fn any_gdpr(models: &Vec<ChatModelOption>) -> (r: bool)
    ensures
        r == (gdpr_flagged(models@).len() > 0),
{
    let flagged = flagged_gdpr(models);
    assert(texts(flagged@).len() == flagged@.len());
    flagged.len() > 0
}

/// Whether some model is not cleared for confidential data.
pub fn any_nda(models: &Vec<ChatModelOption>) -> (r: bool)
    ensures
        r == (nda_flagged(models@).len() > 0),
{
    let flagged = flagged_nda(models);
    assert(texts(flagged@).len() == flagged@.len());
    flagged.len() > 0
}

/// A model is in the list of those not cleared for personal data exactly if one
/// of that name is not cleared.
pub proof fn gdpr_list_is_exact(models: Seq<ChatModelOption>, id: Seq<char>)
    ensures
        gdpr_flagged(models).contains(id) <==> exists|i: int|
            0 <= i < models.len() && (#[trigger] models[i]).id@ == id && !models[i].gdpr,
    decreases models.len(),
{
    if models.len() > 0 {
        let d = models.drop_last();
        gdpr_list_is_exact(d, id);
        let head = gdpr_flagged(d);
        let list = gdpr_flagged(models);
        let n = models.len() - 1;
        assert(models[n] == models.last());
        if list.contains(id) {
            let k = choose|k: int| 0 <= k < list.len() && list[k] == id;
            if k < head.len() {
                assert(head[k] == id);
                let i = choose|i: int| 0 <= i < d.len() && (#[trigger] d[i]).id@ == id && !d[i].gdpr;
                assert(models[i] == d[i]);
            } else {
                assert(models[n].id@ == id && !models[n].gdpr);
            }
        }
        if exists|i: int| 0 <= i < models.len() && (#[trigger] models[i]).id@ == id && !models[i].gdpr {
            let i = choose|i: int|
                0 <= i < models.len() && (#[trigger] models[i]).id@ == id && !models[i].gdpr;
            if i < n {
                assert(d[i] == models[i]);
                let k = choose|k: int| 0 <= k < head.len() && head[k] == id;
                assert(list[k] == id);
            } else {
                assert(list[list.len() - 1] == id);
            }
        }
    }
}

/// The models that are not cleared for confidential data are those that are flagged, and
/// no others.
pub proof fn nda_list_is_exact(models: Seq<ChatModelOption>, id: Seq<char>)
    ensures
        nda_flagged(models).contains(id) <==> exists|i: int|
            0 <= i < models.len() && !(#[trigger] models[i]).nda && models[i].id@ == id,
    decreases models.len(),
{
    if models.len() > 0 {
        let d = models.drop_last();
        let head = nda_flagged(d);
        let all = nda_flagged(models);
        nda_list_is_exact(d, id);
        if all.contains(id) {
            let k = choose|k: int| 0 <= k < all.len() && all[k] == id;
            if k < head.len() {
                assert(head[k] == id);
                let i = choose|i: int|
                    0 <= i < d.len() && !(#[trigger] d[i]).nda && d[i].id@ == id;
                assert(models[i] == d[i]);
            } else {
                assert(models[models.len() - 1].id@ == id);
            }
        }
        if exists|i: int| 0 <= i < models.len() && !(#[trigger] models[i]).nda && models[i].id@ == id {
            let i = choose|i: int|
                0 <= i < models.len() && !(#[trigger] models[i]).nda && models[i].id@ == id;
            if i < d.len() {
                assert(d[i] == models[i]);
                assert(head.contains(id));
                let k = choose|k: int| 0 <= k < head.len() && head[k] == id;
                assert(all[k] == id);
            } else {
                assert(all[all.len() - 1] == id);
            }
        }
    }
}

/// The page is told which model is picked and which are flagged, each under its own name.
pub proof fn the_page_knows_the_flagged(models: Seq<ChatModelOption>, selected: Seq<char>)
    ensures
        signals_text(models, selected) == "{selectedModel: "@ + json_text(selected)
            + ", gdprFlagged: "@ + json_list(gdpr_flagged(models)) + ", ndaFlagged: "@ + json_list(
            nda_flagged(models),
        ) + "}"@,
        gdpr_flagged(models).len() > 0 <==> exists|i: int|
            0 <= i < models.len() && !(#[trigger] models[i]).gdpr,
        nda_flagged(models).len() > 0 <==> exists|i: int|
            0 <= i < models.len() && !(#[trigger] models[i]).nda,
{
    let (g, n) = (gdpr_flagged(models), nda_flagged(models));
    if g.len() > 0 {
        assert(g.contains(g[0]));
        gdpr_list_is_exact(models, g[0]);
    }
    if n.len() > 0 {
        assert(n.contains(n[0]));
        nda_list_is_exact(models, n[0]);
    }
    if exists|i: int| 0 <= i < models.len() && !(#[trigger] models[i]).gdpr {
        let i = choose|i: int| 0 <= i < models.len() && !(#[trigger] models[i]).gdpr;
        gdpr_list_is_exact(models, models[i].id@);
    }
    if exists|i: int| 0 <= i < models.len() && !(#[trigger] models[i]).nda {
        let i = choose|i: int| 0 <= i < models.len() && !(#[trigger] models[i]).nda;
        nda_list_is_exact(models, models[i].id@);
    }
}

} // verus!
