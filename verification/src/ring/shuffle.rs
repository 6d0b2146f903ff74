//! The order in which the ring is listed: a shuffle that random draws steer.
//!
//! The draws come from the operating system; the shuffle itself is a plain
//! function of the rows and the draws, and it is proved to give back the
//! rows it was given, each as often as it was there.

use vstd::prelude::*;

use super::auth::random_bytes;
use super::model::RingFault;
use super::{approved_rows, ApprovedSite, RingError, StorageFault};

verus! {

/// `rows` with the entries at `i` and `j` exchanged.
pub open spec fn swapped<T>(rows: Seq<T>, i: int, j: int) -> Seq<T> {
    rows.update(i, rows[j]).update(j, rows[i])
}

/// `rows` after the exchanges at the places `upto`, `upto - 1`, .., `1`: the
/// entry at place `k` changes places with the one at `draws[k]` reduced
/// modulo `k + 1`. A place for which there is no draw stays as it is.
pub open spec fn shuffled<T>(rows: Seq<T>, draws: Seq<u64>, upto: int) -> Seq<T>
    decreases upto,
{
    if upto <= 0 || upto >= rows.len() {
        rows
    } else if upto < draws.len() {
        shuffled(swapped(rows, upto, (draws[upto] as int) % (upto + 1)), draws, upto - 1)
    } else {
        shuffled(rows, draws, upto - 1)
    }
}

/// An exchange keeps what the rows hold.
pub proof fn lemma_swapped_permutes<T>(rows: Seq<T>, i: int, j: int)
    requires
        0 <= i < rows.len(),
        0 <= j < rows.len(),
    ensures
        swapped(rows, i, j).len() == rows.len(),
        swapped(rows, i, j).to_multiset() == rows.to_multiset(),
{
    broadcast use vstd::seq_lib::to_multiset_update;

    let first = rows.update(i, rows[j]);
    assert(first.to_multiset() == rows.to_multiset().insert(rows[j]).remove(rows[i]));
    assert(first.update(j, rows[i]).to_multiset() == first.to_multiset().insert(rows[i]).remove(
        first[j],
    ));
    rows.to_multiset_ensures();
    assert(rows.to_multiset().count(rows[i]) > 0);
    assert(rows.to_multiset().count(rows[j]) > 0);
    assert(swapped(rows, i, j).to_multiset() =~= rows.to_multiset());
}

/// A shuffle is a rearrangement: whatever the draws, it holds each row as
/// often as the rows it was made from.
pub proof fn lemma_shuffled_permutes<T>(rows: Seq<T>, draws: Seq<u64>, upto: int)
    ensures
        shuffled(rows, draws, upto).len() == rows.len(),
        shuffled(rows, draws, upto).to_multiset() == rows.to_multiset(),
    decreases upto,
{
    if upto <= 0 || upto >= rows.len() {
    } else if upto < draws.len() {
        let j = (draws[upto] as int) % (upto + 1);
        lemma_swapped_permutes(rows, upto, j);
        lemma_shuffled_permutes(swapped(rows, upto, j), draws, upto - 1);
    } else {
        lemma_shuffled_permutes(rows, draws, upto - 1);
    }
}

/// Eight random bytes of the operating system, read as a number.
pub(crate) fn random_draw() -> (r: Result<u64, RingError>)
    ensures
        r matches Err(e) ==> e@ == RingFault::UnrecoverableDatabaseError(
            StorageFault::EntropyUnavailable,
        ),
{
    match random_bytes(8) {
        Ok(bytes) => Ok(vstd::bytes::u64_from_le_bytes(bytes.as_slice())),
        Err(_) => Err(RingError::UnrecoverableDatabaseError(StorageFault::EntropyUnavailable)),
    }
}

/// A row that holds nothing, to stand in a place while its row is away.
fn blank_row() -> (row: ApprovedSite)
    ensures
        row.site_id == 0,
        row.admin_id == 0,
        row.root_url@ == Seq::<char>::empty(),
        row.site_email@ == Seq::<char>::empty(),
        row.date_added@ == Seq::<char>::empty(),
        row.admin_username@ == Seq::<char>::empty(),
        row.admin_email@ == Seq::<char>::empty(),
{
    ApprovedSite {
        site_id: 0,
        root_url: String::new(),
        site_email: String::new(),
        date_added: String::new(),
        admin_id: 0,
        admin_username: String::new(),
        admin_email: String::new(),
    }
}

/// Rearranges the rows as the draws say.
pub fn shuffle_rows(rows: Vec<ApprovedSite>, draws: &Vec<u64>) -> (out: Vec<ApprovedSite>)
    ensures
        approved_rows(out@) == shuffled(approved_rows(rows@), draws@, rows@.len() - 1),
{
    let ghost start = approved_rows(rows@);
    let ghost last = rows@.len() - 1;
    let mut out = rows;
    let mut held = blank_row();
    let mut i: usize = out.len();
    while i > 1
        invariant
            i <= out.len(),
            out@.len() == last + 1,
            start.len() == last + 1,
            shuffled(approved_rows(out@), draws@, i - 1) == shuffled(start, draws@, last),
        decreases i,
    {
        let upto: usize = i - 1;
        let ghost before = approved_rows(out@);
        if upto < draws.len() {
            let j: usize = (draws[upto] % (upto as u64 + 1)) as usize;
            assert(j as int == (draws@[upto as int] as int) % (upto + 1));
            if j < upto {
                out.set_and_swap(upto, &mut held);
                out.set_and_swap(j, &mut held);
                out.set_and_swap(upto, &mut held);
            }
            assert(approved_rows(out@) =~= swapped(before, upto as int, j as int));
        }
        i = upto;
    }
    out
}

} // verus!
