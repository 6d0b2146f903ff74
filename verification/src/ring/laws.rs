//! What holds of the directory whatever it contains, proved over its model.

use vstd::prelude::*;

use super::auth::verdict;
use super::lemmas::{lemma_find, lemma_find_admin, lemma_find_admin_named, lemma_stage_rows};
use super::model::{in_stage, ordered, position, AdminModel, RingFault, RingModel, Stage, StatusModel};
use super::shuffle::{lemma_shuffled_permutes, shuffled};

verus! {

/// Exactly one row of the directory has this URL.
pub open spec fn one_row(m: RingModel, root_url: Seq<char>) -> bool {
    &&& m.has_site(root_url)
    &&& forall|i: int, j: int|
        0 <= i < m.sites.len() && 0 <= j < m.sites.len() && (#[trigger] m.sites[i]).root_url
            == root_url && (#[trigger] m.sites[j]).root_url == root_url ==> i == j
}

/// The identity of the site with this URL.
pub open spec fn id_of(m: RingModel, root_url: Seq<char>) -> int {
    m.site(root_url).id
}

/// The ring holds exactly the sites whose state is approved, each as the
/// directory holds it.
pub proof fn lemma_ring_membership(m: RingModel, root_url: Seq<char>)
    requires
        m.wf(),
    ensures
        ordered(m.ring()),
        m.is_approved(root_url) == (m.has_site(root_url) && m.site(root_url).status.stage()
            == Stage::Approved),
        m.is_approved(root_url) ==> 0 <= position(m.ring(), root_url) < m.ring().len()
            && m.ring()[position(m.ring(), root_url)] == m.site(root_url),
{
    let ring = m.ring();
    lemma_stage_rows(m.sites, Stage::Approved);
    if m.is_approved(root_url) {
        let k = position(ring, root_url);
        assert(0 <= k < ring.len() && ring[k].root_url == root_url);
        assert(m.sites.contains(ring[k]));
        let i = choose|i: int| 0 <= i < m.sites.len() && m.sites[i] == ring[k];
        lemma_find(m.sites, i);
    }
    if m.has_site(root_url) && m.site(root_url).status.stage() == Stage::Approved {
        let i = m.site_index(root_url);
        assert(0 <= i < m.sites.len() && m.sites[i].root_url == root_url);
        assert(ring.contains(m.sites[i]));
        let k = choose|k: int| 0 <= k < ring.len() && ring[k] == m.sites[i];
        assert(ring[k].root_url == root_url);
    }
}

/// Every operation on sites leaves a directory a directory.
pub proof fn law_site_operations_keep_the_directory(
    m: RingModel,
    root_url: Seq<char>,
    email: Seq<char>,
    reason: Seq<char>,
    admin_id: int,
    date_added: Seq<char>,
)
    requires
        m.wf(),
    ensures
        m.after_add_site(root_url, email).wf(),
        m.after_remove_site(root_url).wf(),
        m.after_approve_site(root_url, admin_id, date_added).wf(),
        m.after_deny_site(root_url, reason, admin_id, date_added).wf(),
{
    if m.has_site(root_url) {
        let i = m.site_index(root_url);
        assert(0 <= i < m.sites.len() && m.sites[i].root_url == root_url);
    }
}

/// Every operation on accounts leaves a directory a directory.
pub proof fn law_admin_operations_keep_the_directory(
    m: RingModel,
    admin_id: int,
    username: Seq<char>,
    email: Seq<char>,
    password: Seq<char>,
    password_phc: Seq<char>,
    new_phc: Option<Seq<char>>,
)
    requires
        m.wf(),
    ensures
        m.after_insert_admin(username, email, password_phc).wf(),
        m.after_delete_admin(admin_id).wf(),
        m.after_change_password(username, password, new_phc).wf(),
{
    if m.has_admin(admin_id) {
        let i = m.admin_index(admin_id);
        assert(0 <= i < m.admins.len() && m.admins[i].id == admin_id);
    }
    if m.try_change_password(username, password, new_phc) is Ok {
        let at = choose|i: int|
            0 <= i < m.admins.len() && #[trigger] m.admins[i].username == username;
        lemma_find_admin(m, at);
    }
}

/// No half-done work: an operation that is refused leaves the directory
/// exactly as it was.
pub proof fn law_refusal_changes_nothing(
    m: RingModel,
    root_url: Seq<char>,
    email: Seq<char>,
    reason: Seq<char>,
    admin_id: int,
    date_added: Seq<char>,
    username: Seq<char>,
    password: Seq<char>,
    password_phc: Seq<char>,
    new_phc: Option<Seq<char>>,
)
    ensures
        m.try_add_site(root_url) is Err ==> m.after_add_site(root_url, email) == m,
        m.try_remove_site(root_url) is Err ==> m.after_remove_site(root_url) == m,
        m.try_decide(root_url, admin_id) is Err ==> m.after_approve_site(
            root_url,
            admin_id,
            date_added,
        ) == m && m.after_deny_site(root_url, reason, admin_id, date_added) == m,
        m.try_insert_admin(username, email) is Err ==> m.after_insert_admin(
            username,
            email,
            password_phc,
        ) == m,
        m.try_delete_admin(admin_id) is Err ==> m.after_delete_admin(admin_id) == m,
        m.try_store_password(admin_id) is Err ==> m.after_store_password(admin_id, password_phc)
            == m,
        m.try_change_password(username, password, new_phc) is Err ==> m.after_change_password(
            username,
            password,
            new_phc,
        ) == m,
{
}

/// A URL is registered once. After a site has been added, adding its URL
/// again is refused as already registered and changes nothing, and the
/// directory holds exactly one row for that URL.
pub proof fn law_site_registered_once(
    m: RingModel,
    root_url: Seq<char>,
    email: Seq<char>,
    other_email: Seq<char>,
)
    requires
        m.wf(),
        m.try_add_site(root_url) is Ok,
    ensures
        ({
            let added = m.after_add_site(root_url, email);
            &&& one_row(added, root_url)
            &&& added.try_add_site(root_url) == Err::<(), RingFault>(
                RingFault::UniqueRowAlreadyPresent(root_url),
            )
            &&& added.after_add_site(root_url, other_email) == added
        }),
{
    let added = m.after_add_site(root_url, email);
    assert(added.sites[m.sites.len() as int].root_url == root_url);
    law_held_url_is_refused(added, root_url, other_email);
}

/// Whatever brought a URL into the directory, adding it again is refused and
/// changes nothing, and the directory holds exactly one row for it.
pub proof fn law_held_url_is_refused(m: RingModel, root_url: Seq<char>, email: Seq<char>)
    requires
        m.wf(),
        m.has_site(root_url),
    ensures
        one_row(m, root_url),
        m.try_add_site(root_url) == Err::<(), RingFault>(
            RingFault::UniqueRowAlreadyPresent(root_url),
        ),
        m.after_add_site(root_url, email) == m,
{
    assert forall|i: int, j: int|
        0 <= i < m.sites.len() && 0 <= j < m.sites.len() && (#[trigger] m.sites[i]).root_url
            == root_url && (#[trigger] m.sites[j]).root_url == root_url implies i == j by {
        lemma_find(m.sites, i);
        lemma_find(m.sites, j);
    }
}

/// Removing a URL that the directory does not hold is refused as not found
/// and changes nothing, however often it is tried.
pub proof fn law_remove_absent_site(m: RingModel, root_url: Seq<char>)
    requires
        !m.has_site(root_url),
    ensures
        m.try_remove_site(root_url) == Err::<(), RingFault>(RingFault::RowNotFound(root_url)),
        m.after_remove_site(root_url) == m,
{
}

/// A removed site is gone, and every other site stays as it was.
pub proof fn law_removed_site_is_gone(m: RingModel, root_url: Seq<char>, other: Seq<char>)
    requires
        m.wf(),
        m.has_site(root_url),
        other != root_url,
    ensures
        !m.after_remove_site(root_url).has_site(root_url),
        m.after_remove_site(root_url).has_site(other) == m.has_site(other),
        m.has_site(other) ==> m.after_remove_site(root_url).site(other) == m.site(other),
{
    let after = m.after_remove_site(root_url);
    let at = m.site_index(root_url);
    assert(0 <= at < m.sites.len() && m.sites[at].root_url == root_url);
    law_site_operations_keep_the_directory(m, root_url, root_url, root_url, 0, root_url);
    if after.has_site(root_url) {
        let k = after.site_index(root_url);
        assert(0 <= k < after.sites.len() && after.sites[k].root_url == root_url);
        if k < at {
            assert(after.sites[k] == m.sites[k]);
            lemma_find(m.sites, k);
        } else {
            assert(after.sites[k] == m.sites[k + 1]);
            lemma_find(m.sites, k + 1);
        }
        assert(false);
    }
    if m.has_site(other) {
        let i = m.site_index(other);
        assert(0 <= i < m.sites.len() && m.sites[i].root_url == other);
        let k = if i < at {
            i
        } else {
            i - 1
        };
        assert(after.sites[k] == m.sites[i]);
        lemma_find(after.sites, k);
    }
    if after.has_site(other) {
        let k = after.site_index(other);
        assert(0 <= k < after.sites.len() && after.sites[k].root_url == other);
        let i = if k < at {
            k
        } else {
            k + 1
        };
        assert(m.sites[i] == after.sites[k]);
        lemma_find(m.sites, i);
    }
}

/// What a decision does: the site takes the new state and keeps its place,
/// its identity, its URL and its email; every other site stays as it was.
pub proof fn lemma_decision(m: RingModel, root_url: Seq<char>, status: StatusModel, other: Seq<char>)
    requires
        m.wf(),
        m.has_site(root_url),
    ensures
        m.after_decision(root_url, status).wf(),
        m.after_decision(root_url, status).has_site(other) == m.has_site(other),
        m.after_decision(root_url, status).site_index(other) == m.site_index(other) || !m.has_site(
            other,
        ),
        m.after_decision(root_url, status).site(root_url).status == status,
        m.after_decision(root_url, status).site(root_url).id == m.site(root_url).id,
        other != root_url && m.has_site(other) ==> m.after_decision(root_url, status).site(other)
            == m.site(other),
{
    let after = m.after_decision(root_url, status);
    let at = m.site_index(root_url);
    assert(0 <= at < m.sites.len() && m.sites[at].root_url == root_url);
    assert(after.sites.len() == m.sites.len());
    assert forall|i: int| 0 <= i < m.sites.len() implies (#[trigger] after.sites[i]).root_url
        == m.sites[i].root_url && after.sites[i].id == m.sites[i].id by {}
    assert(after.wf());
    lemma_find(m.sites, at);
    lemma_find(after.sites, at);
    if m.has_site(other) {
        let i = m.site_index(other);
        assert(0 <= i < m.sites.len() && m.sites[i].root_url == other);
        assert(after.sites[i].root_url == other);
        lemma_find(after.sites, i);
    }
    if after.has_site(other) {
        let i = after.site_index(other);
        assert(0 <= i < after.sites.len() && after.sites[i].root_url == other);
        assert(m.sites[i].root_url == other);
        lemma_find(m.sites, i);
    }
}

/// An approved site is part of the ring at once, at the place that its
/// identity gives it; whether any other site is part of the ring does not
/// change.
pub proof fn law_approved_site_joins_the_ring(
    m: RingModel,
    root_url: Seq<char>,
    admin_id: int,
    date_added: Seq<char>,
    other: Seq<char>,
)
    requires
        m.wf(),
        m.try_decide(root_url, admin_id) is Ok,
        other != root_url,
    ensures
        ({
            let after = m.after_approve_site(root_url, admin_id, date_added);
            &&& after.wf()
            &&& after.is_approved(root_url)
            &&& id_of(after, root_url) == id_of(m, root_url)
            &&& after.is_approved(other) == m.is_approved(other)
            &&& m.is_approved(other) ==> id_of(after, other) == id_of(m, other)
        }),
{
    let status = StatusModel::Approved(m.audit(admin_id, date_added));
    let after = m.after_approve_site(root_url, admin_id, date_added);
    lemma_decision(m, root_url, status, other);
    lemma_decision(m, root_url, status, root_url);
    lemma_ring_membership(m, other);
    lemma_ring_membership(after, other);
    lemma_ring_membership(after, root_url);
}

/// Approval shows in the walk at once. From any site of the ring, the next
/// site is the newly approved one if its identity lies between, and the one
/// it was before otherwise; likewise the previous site.
pub proof fn law_walk_takes_in_the_approved_site(
    m: RingModel,
    root_url: Seq<char>,
    admin_id: int,
    date_added: Seq<char>,
    from: Seq<char>,
)
    requires
        m.wf(),
        m.try_decide(root_url, admin_id) is Ok,
        m.is_approved(from),
    ensures
        ({
            let after = m.after_approve_site(root_url, admin_id, date_added);
            let comes_next = id_of(m, from) < id_of(m, root_url) && (m.get_next(from) is Ok
                ==> id_of(m, root_url) < id_of(m, m.get_next(from)->Ok_0));
            let comes_before = id_of(m, root_url) < id_of(m, from) && (m.get_prev(from) is Ok
                ==> id_of(m, m.get_prev(from)->Ok_0) < id_of(m, root_url));
            &&& after.get_next(from) == (if comes_next {
                Ok(root_url)
            } else {
                m.get_next(from)
            })
            &&& after.get_prev(from) == (if comes_before {
                Ok(root_url)
            } else {
                m.get_prev(from)
            })
        }),
{
    let after = m.after_approve_site(root_url, admin_id, date_added);
    lemma_ring_membership(m, root_url);
    assert(from != root_url);
    assert forall|other: Seq<char>|
        (#[trigger] after.is_approved(other)) == (other == root_url || m.is_approved(
            other,
        )) && (after.is_approved(other) ==> id_of(after, other) == id_of(m, other)) by {
        if other != root_url {
            law_approved_site_joins_the_ring(m, root_url, admin_id, date_added, other);
        } else {
            law_approved_site_joins_the_ring(m, root_url, admin_id, date_added, from);
        }
    }
    assert forall|other: Seq<char>| #[trigger]
        m.is_approved(other) implies after.is_approved(other) by {}
    assert(after.is_approved(root_url));
    assert(after.is_approved(from));
    lemma_same_identity_same_site(after, from, root_url);
    law_next_is_nearest_above(m, from);
    law_next_is_nearest_above(after, from);
    law_prev_is_nearest_below(m, from);
    law_prev_is_nearest_below(after, from);
    if after.get_next(from) is Ok {
        let found = after.get_next(from)->Ok_0;
        assert(after.is_approved(found));
        lemma_same_identity_same_site(after, found, root_url);
        if found != root_url {
            assert(m.is_approved(found));
        }
        if m.get_next(from) is Ok {
            assert(m.is_approved(m.get_next(from)->Ok_0));
            assert(after.is_approved(m.get_next(from)->Ok_0));
            lemma_same_identity_same_site(after, found, m.get_next(from)->Ok_0);
        }
    } else if m.get_next(from) is Ok {
        assert(m.is_approved(m.get_next(from)->Ok_0));
        assert(after.is_approved(m.get_next(from)->Ok_0));
    }
    if after.get_prev(from) is Ok {
        let found = after.get_prev(from)->Ok_0;
        assert(after.is_approved(found));
        lemma_same_identity_same_site(after, found, root_url);
        if found != root_url {
            assert(m.is_approved(found));
        }
        if m.get_prev(from) is Ok {
            assert(m.is_approved(m.get_prev(from)->Ok_0));
            assert(after.is_approved(m.get_prev(from)->Ok_0));
            lemma_same_identity_same_site(after, found, m.get_prev(from)->Ok_0);
        }
    } else if m.get_prev(from) is Ok {
        assert(m.is_approved(m.get_prev(from)->Ok_0));
        assert(after.is_approved(m.get_prev(from)->Ok_0));
    }
}

/// A site is in exactly one of the three states: it stands in the list of
/// its state and in neither of the other two.
pub proof fn law_one_state_at_a_time(m: RingModel, root_url: Seq<char>, stage: Stage)
    requires
        m.wf(),
        m.has_site(root_url),
    ensures
        in_stage(m.sites, stage).contains(m.site(root_url)) == (m.site(root_url).status.stage()
            == stage),
{
    let at = m.site_index(root_url);
    assert(0 <= at < m.sites.len() && m.sites[at].root_url == root_url);
    lemma_stage_rows(m.sites, stage);
    let rows = in_stage(m.sites, stage);
    if rows.contains(m.site(root_url)) {
        let k = choose|k: int| 0 <= k < rows.len() && rows[k] == m.site(root_url);
        assert(rows[k].status.stage() == stage);
    }
}

/// A denied site is no part of the ring, and whether any other site is part
/// of the ring does not change.
pub proof fn law_denied_site_stays_out(
    m: RingModel,
    root_url: Seq<char>,
    reason: Seq<char>,
    admin_id: int,
    date_added: Seq<char>,
    other: Seq<char>,
)
    requires
        m.wf(),
        m.try_decide(root_url, admin_id) is Ok,
        other != root_url,
    ensures
        ({
            let after = m.after_deny_site(root_url, reason, admin_id, date_added);
            &&& after.wf()
            &&& !after.is_approved(root_url)
            &&& after.site(root_url).status is Denied
            &&& after.is_approved(other) == m.is_approved(other)
        }),
{
    let status = StatusModel::Denied(m.audit(admin_id, date_added), reason);
    let after = m.after_deny_site(root_url, reason, admin_id, date_added);
    lemma_decision(m, root_url, status, other);
    lemma_decision(m, root_url, status, root_url);
    lemma_ring_membership(m, other);
    lemma_ring_membership(after, other);
    lemma_ring_membership(after, root_url);
}

/// Nothing but an approved site is ever handed out: what `get_next`,
/// `get_prev` and a random pick return is part of the ring, and so is every
/// row of a listing of the ring, in whatever order chance puts it.
pub proof fn law_only_approved_sites_are_returned(
    m: RingModel,
    current_url: Seq<char>,
    draw: int,
    draws: Seq<u64>,
    k: int,
)
    requires
        m.wf(),
    ensures
        m.get_next(current_url) matches Ok(url) ==> m.is_approved(url),
        m.get_prev(current_url) matches Ok(url) ==> m.is_approved(url),
        m.pick_site(draw) matches Ok(url) ==> m.is_approved(url),
        0 <= k < m.ring().len() ==> m.is_approved(
            shuffled(m.ring(), draws, m.ring().len() - 1)[k].root_url,
        ),
{
    let ring = m.ring();
    lemma_ring_membership(m, current_url);
    if m.is_approved(current_url) {
        let here = position(ring, current_url);
        if here + 1 < ring.len() {
            assert(ring[here + 1].root_url == m.get_next(current_url)->Ok_0);
        }
        if here >= 1 {
            assert(ring[here - 1].root_url == m.get_prev(current_url)->Ok_0);
        }
    }
    if ring.len() > 0 {
        let at = draw % (ring.len() as int);
        assert(ring[at].root_url == m.pick_site(draw)->Ok_0);
    }
    if 0 <= k < ring.len() {
        let listing = shuffled(ring, draws, ring.len() - 1);
        lemma_shuffled_permutes(ring, draws, ring.len() - 1);
        listing.to_multiset_ensures();
        ring.to_multiset_ensures();
        assert(listing.to_multiset().count(listing[k]) > 0);
        assert(ring.contains(listing[k]));
        let j = choose|j: int| 0 <= j < ring.len() && ring[j] == listing[k];
        assert(ring[j].root_url == listing[k].root_url);
    }
}

/// The ring is walked upwards by identity and does not wrap. From an approved
/// site, `get_next` gives the approved site with the least identity above its
/// own; where no approved site has a greater identity it fails as not found.
pub proof fn law_next_is_nearest_above(m: RingModel, current_url: Seq<char>)
    requires
        m.wf(),
        m.is_approved(current_url),
    ensures
        match m.get_next(current_url) {
            Ok(next_url) => {
                &&& m.is_approved(next_url)
                &&& id_of(m, current_url) < id_of(m, next_url)
                &&& forall|other: Seq<char>| #[trigger]
                    m.is_approved(other) ==> !(id_of(m, current_url) < id_of(m, other) < id_of(
                        m,
                        next_url,
                    ))
                &&& m.get_prev(next_url) == Ok::<Seq<char>, RingFault>(current_url)
            },
            Err(fault) => {
                &&& fault == RingFault::RowNotFound(current_url)
                &&& forall|other: Seq<char>| #[trigger]
                    m.is_approved(other) ==> id_of(m, other) <= id_of(m, current_url)
            },
        },
{
    let ring = m.ring();
    let here = position(ring, current_url);
    lemma_ring_membership(m, current_url);
    assert forall|other: Seq<char>| #[trigger] m.is_approved(other) implies 0 <= position(
        ring,
        other,
    ) < ring.len() && ring[position(ring, other)] == m.site(other) by {
        lemma_ring_membership(m, other);
    }
    if here + 1 < ring.len() {
        let next_url = ring[here + 1].root_url;
        lemma_find(ring, here + 1);
        assert(m.is_approved(next_url));
        lemma_ring_membership(m, next_url);
        assert forall|other: Seq<char>| #[trigger] m.is_approved(other) implies !(id_of(
            m,
            current_url,
        ) < id_of(m, other) < id_of(m, next_url)) by {
            let k = position(ring, other);
            if k < here {
                assert(ring[k].id < ring[here].id);
            } else if k > here + 1 {
                assert(ring[here + 1].id < ring[k].id);
            }
        }
    } else {
        assert forall|other: Seq<char>| #[trigger] m.is_approved(other) implies id_of(m, other)
            <= id_of(m, current_url) by {
            let k = position(ring, other);
            if k < here {
                assert(ring[k].id < ring[here].id);
            }
        }
    }
}

/// The ring is walked downwards by identity and does not wrap. From an
/// approved site, `get_prev` gives the approved site with the greatest
/// identity below its own; where no approved site has a smaller identity it
/// fails as not found.
pub proof fn law_prev_is_nearest_below(m: RingModel, current_url: Seq<char>)
    requires
        m.wf(),
        m.is_approved(current_url),
    ensures
        match m.get_prev(current_url) {
            Ok(prev_url) => {
                &&& m.is_approved(prev_url)
                &&& id_of(m, prev_url) < id_of(m, current_url)
                &&& forall|other: Seq<char>| #[trigger]
                    m.is_approved(other) ==> !(id_of(m, prev_url) < id_of(m, other) < id_of(
                        m,
                        current_url,
                    ))
                &&& m.get_next(prev_url) == Ok::<Seq<char>, RingFault>(current_url)
            },
            Err(fault) => {
                &&& fault == RingFault::RowNotFound(current_url)
                &&& forall|other: Seq<char>| #[trigger]
                    m.is_approved(other) ==> id_of(m, current_url) <= id_of(m, other)
            },
        },
{
    let ring = m.ring();
    let here = position(ring, current_url);
    lemma_ring_membership(m, current_url);
    assert forall|other: Seq<char>| #[trigger] m.is_approved(other) implies 0 <= position(
        ring,
        other,
    ) < ring.len() && ring[position(ring, other)] == m.site(other) by {
        lemma_ring_membership(m, other);
    }
    if here >= 1 {
        let prev_url = ring[here - 1].root_url;
        lemma_find(ring, here - 1);
        assert(m.is_approved(prev_url));
        lemma_ring_membership(m, prev_url);
        assert forall|other: Seq<char>| #[trigger] m.is_approved(other) implies !(id_of(
            m,
            prev_url,
        ) < id_of(m, other) < id_of(m, current_url)) by {
            let k = position(ring, other);
            if k < here - 1 {
                assert(ring[k].id < ring[here - 1].id);
            } else if k > here {
                assert(ring[here].id < ring[k].id);
            }
        }
    } else {
        assert forall|other: Seq<char>| #[trigger] m.is_approved(other) implies id_of(
            m,
            current_url,
        ) <= id_of(m, other) by {
            let k = position(ring, other);
            if k > here {
                assert(ring[here].id < ring[k].id);
            }
        }
    }
}

/// Three approved sites with no approved site between them: from the first
/// the next is the second and from the second the third; where the first has
/// none below it and the third none above it, the walk ends there.
pub proof fn law_three_in_a_row(m: RingModel, a: Seq<char>, b: Seq<char>, c: Seq<char>)
    requires
        m.wf(),
        m.is_approved(a),
        m.is_approved(b),
        m.is_approved(c),
        id_of(m, a) < id_of(m, b) < id_of(m, c),
        forall|other: Seq<char>| #[trigger]
            m.is_approved(other) ==> id_of(m, other) == id_of(m, a) || id_of(m, other) == id_of(
                m,
                b,
            ) || id_of(m, other) == id_of(m, c),
    ensures
        m.get_next(a) == Ok::<Seq<char>, RingFault>(b),
        m.get_next(b) == Ok::<Seq<char>, RingFault>(c),
        m.get_next(c) == Err::<Seq<char>, RingFault>(RingFault::RowNotFound(c)),
        m.get_prev(a) == Err::<Seq<char>, RingFault>(RingFault::RowNotFound(a)),
        m.get_prev(b) == Ok::<Seq<char>, RingFault>(a),
        m.get_prev(c) == Ok::<Seq<char>, RingFault>(b),
{
    lemma_same_identity_same_site(m, a, b);
    lemma_same_identity_same_site(m, a, c);
    lemma_same_identity_same_site(m, b, c);
    law_next_is_nearest_above(m, a);
    law_next_is_nearest_above(m, b);
    law_next_is_nearest_above(m, c);
    law_prev_is_nearest_below(m, a);
    law_prev_is_nearest_below(m, b);
    law_prev_is_nearest_below(m, c);
    if m.get_next(a) is Ok {
        lemma_same_identity_same_site(m, m.get_next(a)->Ok_0, a);
        lemma_same_identity_same_site(m, m.get_next(a)->Ok_0, b);
        lemma_same_identity_same_site(m, m.get_next(a)->Ok_0, c);
    }
    if m.get_next(b) is Ok {
        lemma_same_identity_same_site(m, m.get_next(b)->Ok_0, a);
        lemma_same_identity_same_site(m, m.get_next(b)->Ok_0, b);
        lemma_same_identity_same_site(m, m.get_next(b)->Ok_0, c);
    }
    if m.get_next(c) is Ok {
        lemma_same_identity_same_site(m, m.get_next(c)->Ok_0, a);
        lemma_same_identity_same_site(m, m.get_next(c)->Ok_0, b);
        lemma_same_identity_same_site(m, m.get_next(c)->Ok_0, c);
    }
}

/// Two approved sites with one identity are one site.
pub proof fn lemma_same_identity_same_site(m: RingModel, a: Seq<char>, b: Seq<char>)
    requires
        m.wf(),
        m.is_approved(a),
        m.is_approved(b),
    ensures
        id_of(m, a) == id_of(m, b) ==> a == b,
{
    lemma_ring_membership(m, a);
    lemma_ring_membership(m, b);
    let i = m.site_index(a);
    let j = m.site_index(b);
    assert(0 <= i < m.sites.len() && m.sites[i].root_url == a);
    assert(0 <= j < m.sites.len() && m.sites[j].root_url == b);
    if i < j {
        assert(m.sites[i].id < m.sites[j].id);
    }
    if j < i {
        assert(m.sites[j].id < m.sites[i].id);
    }
}

/// A walk from a URL that is not an approved site, be the site pending,
/// denied or unknown, fails as not approved, never as not found.
pub proof fn law_walk_needs_an_approved_site(m: RingModel, current_url: Seq<char>)
    requires
        m.wf(),
        !m.has_site(current_url) || !(m.site(current_url).status is Approved),
    ensures
        m.get_next(current_url) == Err::<Seq<char>, RingFault>(
            RingFault::SiteNotApproved(current_url),
        ),
        m.get_prev(current_url) == Err::<Seq<char>, RingFault>(
            RingFault::SiteNotApproved(current_url),
        ),
{
    lemma_ring_membership(m, current_url);
}

/// A wrong current password changes nothing: the change is refused as
/// unauthorised and the directory, stored hash included, stays as it was.
pub proof fn law_wrong_password_changes_nothing(
    m: RingModel,
    username: Seq<char>,
    current_password: Seq<char>,
    new_phc: Option<Seq<char>>,
)
    requires
        m.has_admin_named(username),
        verdict(current_password, m.admin_named(username).password_phc) == Some(false),
    ensures
        m.try_change_password(username, current_password, new_phc) == Err::<(), RingFault>(
            RingFault::UnauthorisedAdmin,
        ),
        m.after_change_password(username, current_password, new_phc) == m,
{
}

/// After a change of password the account opens to the passwords that verify
/// against the new hash, and to no others; the new password is one of them.
/// The account keeps its identity, username and email.
pub proof fn law_new_password_takes_over(
    m: RingModel,
    username: Seq<char>,
    current_password: Seq<char>,
    new_password: Seq<char>,
    password_phc: Seq<char>,
    attempt: Seq<char>,
)
    requires
        m.wf(),
        m.has_admin_named(username),
        verdict(current_password, m.admin_named(username).password_phc) == Some(true),
        verdict(new_password, password_phc) == Some(true),
    ensures
        ({
            let after = m.after_change_password(username, current_password, Some(password_phc));
            let account = AdminModel { password_phc, ..m.admin_named(username) };
            &&& m.try_change_password(username, current_password, Some(password_phc)) == Ok::<
                (),
                RingFault,
            >(())
            &&& after.wf()
            &&& after.has_admin_named(username)
            &&& after.admin_named(username) == account
            &&& after.authenticate(username, new_password) == Ok::<Option<AdminModel>, RingFault>(
                Some(account),
            )
            &&& (after.authenticate(username, attempt) matches Ok(Some(_))) == (verdict(
                attempt,
                password_phc,
            ) == Some(true))
        }),
{
    let after = m.after_change_password(username, current_password, Some(password_phc));
    let at = choose|i: int| 0 <= i < m.admins.len() && #[trigger] m.admins[i].username == username;
    lemma_find_admin(m, at);
    lemma_find_admin_named(m, at);
    law_admin_operations_keep_the_directory(
        m,
        0,
        username,
        username,
        current_password,
        password_phc,
        Some(password_phc),
    );
    assert(after.admins[at].username == username);
    lemma_find_admin_named(after, at);
}

} // verus!
