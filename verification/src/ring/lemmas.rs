//! Facts about rows in identity order that the store's proofs share.

use vstd::prelude::*;

use super::model::{in_stage, listed, ordered, position, RingModel, SiteModel, Stage};

verus! {

/// In ordered rows a URL names one place.
pub proof fn lemma_find(rows: Seq<SiteModel>, i: int)
    requires
        ordered(rows),
        0 <= i < rows.len(),
    ensures
        listed(rows, rows[i].root_url),
        position(rows, rows[i].root_url) == i,
{
    let url = rows[i].root_url;
    let j = position(rows, url);
    assert(0 <= j < rows.len() && rows[j].root_url == url);
    if j < i {
        assert(rows[j].root_url != rows[i].root_url);
    }
    if i < j {
        assert(rows[i].root_url != rows[j].root_url);
    }
}

/// In a directory an identity names one admin.
pub proof fn lemma_find_admin(m: RingModel, i: int)
    requires
        m.wf(),
        0 <= i < m.admins.len(),
    ensures
        m.has_admin(m.admins[i].id),
        m.admin_index(m.admins[i].id) == i,
        m.admin(m.admins[i].id) == m.admins[i],
{
    let id = m.admins[i].id;
    let j = m.admin_index(id);
    assert(0 <= j < m.admins.len() && m.admins[j].id == id);
    if j < i {
        assert(m.admins[j].id < m.admins[i].id);
    }
    if i < j {
        assert(m.admins[i].id < m.admins[j].id);
    }
}

/// In a directory a username names one admin.
pub proof fn lemma_find_admin_named(m: RingModel, i: int)
    requires
        m.wf(),
        0 <= i < m.admins.len(),
    ensures
        m.has_admin_named(m.admins[i].username),
        m.admin_named(m.admins[i].username) == m.admins[i],
{
    let name = m.admins[i].username;
    let j = choose|j: int| 0 <= j < m.admins.len() && #[trigger] m.admins[j].username == name;
    assert(0 <= j < m.admins.len() && m.admins[j].username == name);
    if j < i {
        assert(m.admins[j].username != m.admins[i].username);
    }
    if i < j {
        assert(m.admins[i].username != m.admins[j].username);
    }
}

/// The rows in one state are rows of the whole, all in that state, and they
/// keep the order of the whole; none in that state is left out.
pub proof fn lemma_stage_rows(rows: Seq<SiteModel>, stage: Stage)
    requires
        ordered(rows),
    ensures
        ordered(in_stage(rows, stage)),
        forall|k: int|
            0 <= k < in_stage(rows, stage).len() ==> (#[trigger] in_stage(rows, stage)[k]).status.stage()
                == stage && rows.contains(in_stage(rows, stage)[k]),
        forall|i: int|
            0 <= i < rows.len() && (#[trigger] rows[i]).status.stage() == stage ==> in_stage(
                rows,
                stage,
            ).contains(rows[i]),
    decreases rows.len(),
{
    if rows.len() > 0 {
        let init = rows.drop_last();
        let last = rows.last();
        lemma_stage_rows(init, stage);
        let sub = in_stage(init, stage);
        let all = in_stage(rows, stage);
        assert forall|k: int| 0 <= k < sub.len() implies rows.contains(#[trigger] sub[k])
            && sub[k].id < last.id && sub[k].root_url != last.root_url by {
            assert(init.contains(sub[k]));
            let j = choose|j: int| 0 <= j < init.len() && init[j] == sub[k];
            assert(rows[j] == sub[k]);
            assert(rows[j].id < rows[rows.len() - 1].id);
            assert(rows[j].root_url != rows[rows.len() - 1].root_url);
        }
        if last.status.stage() == stage {
            assert(all == sub.push(last));
            assert(all[sub.len() as int] == last);
            assert(rows[rows.len() - 1] == last);
            assert forall|k: int| 0 <= k < all.len() implies (#[trigger] all[k]).status.stage()
                == stage && rows.contains(all[k]) by {
                if k < sub.len() {
                    assert(all[k] == sub[k]);
                }
            }
            assert forall|i: int, j: int| 0 <= i < j < all.len() implies (#[trigger] all[i]).id
                < (#[trigger] all[j]).id && all[i].root_url != all[j].root_url by {
                assert(all[i] == sub[i]);
                if j < sub.len() {
                    assert(all[j] == sub[j]);
                }
            }
        } else {
            assert(all == sub);
        }
        assert forall|i: int|
            0 <= i < rows.len() && (#[trigger] rows[i]).status.stage() == stage implies all.contains(
            rows[i],
        ) by {
            if i < init.len() {
                assert(init[i] == rows[i]);
                assert(sub.contains(init[i]));
                let k = choose|k: int| 0 <= k < sub.len() && sub[k] == init[i];
                assert(all[k] == rows[i]);
            } else {
                assert(all[sub.len() as int] == rows[i]);
            }
        }
    }
}

} // verus!
