use crate::pagination::{is_valid_page, offset_of, page_of};
use crate::realtor::{is_valid_row, RealtorModel};
use crate::store::{
    delete_first, first_match, has_email, has_id, is_first_match, rows_wf,
};
use vstd::arithmetic::div_mod::{lemma_fundamental_div_mod, lemma_mod_bound};
use vstd::prelude::*;

verus! {

/// Ids are unique across repeated creations: appending a valid row whose id
/// is new (what a successful create does) keeps the table well formed, so
/// the new id differs from the id of every row already stored.
pub proof fn lemma_created_id_unique(rows: Seq<RealtorModel>, m: RealtorModel)
    requires
        rows_wf(rows),
        is_valid_row(m),
        !has_id(rows, m.id@),
    ensures
        rows_wf(rows.push(m)),
        forall|i: int| 0 <= i < rows.len() ==> (#[trigger] rows[i]).id@ != m.id@,
{
    let t = rows.push(m);
    assert forall|i: int| 0 <= i < rows.len() implies (#[trigger] rows[i]).id@ != m.id@ by {
        if rows[i].id@ == m.id@ {
            assert(has_id(rows, m.id@));
        }
    }
    assert forall|i: int, j: int|
        0 <= i < t.len() && 0 <= j < t.len() && i != j implies (#[trigger] t[i]).id@ != (
        #[trigger] t[j]).id@ by {
        if i < rows.len() {
            assert(t[i] == rows[i]);
        }
        if j < rows.len() {
            assert(t[j] == rows[j]);
        }
    }
    assert forall|i: int| 0 <= i < t.len() implies is_valid_row(#[trigger] t[i]) by {
        if i < rows.len() {
            assert(t[i] == rows[i]);
        }
    }
}

/// A page holds `page_size` rows while rows remain, the rest of the table on
/// the page where it runs out, and nothing after that.
pub proof fn lemma_page_len<T>(rows: Seq<T>, page: int, page_size: int)
    requires
        is_valid_page(page, page_size),
    ensures
        offset_of(page, page_size) + page_size <= rows.len() ==> page_of(
            rows,
            page,
            page_size,
        ).len() == page_size,
        offset_of(page, page_size) < rows.len() < offset_of(page, page_size) + page_size
            ==> page_of(rows, page, page_size).len() == rows.len() - offset_of(page, page_size),
        rows.len() <= offset_of(page, page_size) ==> page_of(rows, page, page_size).len() == 0,
{
    assert(offset_of(page, page_size) >= 0) by (nonlinear_arith)
        requires
            page >= 1,
            page_size >= 1,
    ;
}

/// Deleting by an email that some row has removes exactly one row, the first
/// match; that row's id no longer appears in any page of the listing, and
/// every other row stays, in order.
pub proof fn lemma_delete_removes_one(rows: Seq<RealtorModel>, email: Seq<char>)
    requires
        rows_wf(rows),
        has_email(rows, email),
    ensures
        delete_first(rows, email).len() == rows.len() - 1,
        !has_id(delete_first(rows, email), rows[first_match(rows, email)].id@),
        forall|page: int, page_size: int|
            is_valid_page(page, page_size) ==> !has_id(
                #[trigger] page_of(delete_first(rows, email), page, page_size),
                rows[first_match(rows, email)].id@,
            ),
        delete_first(rows, email) == rows.subrange(0, first_match(rows, email)) + rows.subrange(
            first_match(rows, email) + 1,
            rows.len() as int,
        ),
{
    let k = choose|i: int| 0 <= i < rows.len() && (#[trigger] rows[i]).email@ == email;
    lemma_exists_first_match(rows, email, k);
    let f = first_match(rows, email);
    assert(is_first_match(rows, email, f));
    let d = delete_first(rows, email);
    let id = rows[f].id@;
    assert(d =~= rows.subrange(0, f) + rows.subrange(f + 1, rows.len() as int));
    assert forall|i: int| 0 <= i < d.len() implies (#[trigger] d[i]).id@ != id by {
        if i < f {
            assert(d[i] == rows[i]);
        } else {
            assert(d[i] == rows[i + 1]);
        }
    }
    assert forall|page: int, page_size: int| is_valid_page(page, page_size) implies !has_id(
        #[trigger] page_of(d, page, page_size),
        id,
    ) by {
        let p = page_of(d, page, page_size);
        lemma_page_len(d, page, page_size);
        let off = offset_of(page, page_size);
        assert forall|i: int| 0 <= i < p.len() implies (#[trigger] p[i]).id@ != id by {
            assert(p[i] == d[off + i]);
        }
    }
}

/// With two rows sharing an email, deleting by that email always removes the
/// earlier one and keeps the later one: the choice is fixed by storage order.
pub proof fn lemma_delete_duplicate_email(
    rows: Seq<RealtorModel>,
    email: Seq<char>,
    i: int,
    j: int,
)
    requires
        rows_wf(rows),
        0 <= i < j < rows.len(),
        rows[i].email@ == email,
        rows[j].email@ == email,
    ensures
        first_match(rows, email) <= i,
        delete_first(rows, email).len() == rows.len() - 1,
        has_id(delete_first(rows, email), rows[j].id@),
        !has_id(delete_first(rows, email), rows[first_match(rows, email)].id@),
{
    lemma_exists_first_match(rows, email, i);
    let f = first_match(rows, email);
    if f > i {
        assert(rows[i].email@ != email);
    }
    lemma_delete_removes_one(rows, email);
    let d = delete_first(rows, email);
    assert(d[j - 1] == rows[j]);
}

/// A row appended by a create is listed right away: with any page size, it
/// sits on the page right after the full pages of the earlier rows, at the
/// position the remainder gives.
pub proof fn lemma_created_row_listed(rows: Seq<RealtorModel>, m: RealtorModel, page_size: int)
    requires
        page_size >= 1,
        rows.len() <= u64::MAX,
    ensures
        is_valid_page(rows.len() as int / page_size + 1, page_size),
        page_of(rows.push(m), rows.len() as int / page_size + 1, page_size).len() > rows.len() as int
            % page_size,
        page_of(rows.push(m), rows.len() as int / page_size + 1, page_size)[rows.len() as int % page_size] == m,
{
    let n = rows.len() as int;
    let page = n / page_size + 1;
    lemma_fundamental_div_mod(n, page_size);
    lemma_mod_bound(n, page_size);
    assert(offset_of(page, page_size) == (n / page_size) * page_size);
    assert(n / page_size >= 0) by {
        vstd::arithmetic::div_mod::lemma_div_pos_is_pos(n, page_size);
    }
    assert((n / page_size) * page_size >= 0) by (nonlinear_arith)
        requires
            n / page_size >= 0,
            page_size >= 1,
    ;
    let off = offset_of(page, page_size);
    assert(off == n - n % page_size);
    let t = rows.push(m);
    let p = page_of(t, page, page_size);
    lemma_page_len(t, page, page_size);
    assert(p[n % page_size] == t[off + n % page_size]);
}

/// The whole listing: pages `1..=pages` of `rows`, concatenated in order.
pub open spec fn listing<T>(rows: Seq<T>, page_size: int, pages: nat) -> Seq<T>
    decreases pages,
{
    if pages == 0 {
        Seq::empty()
    } else {
        listing(rows, page_size, (pages - 1) as nat) + page_of(rows, pages as int, page_size)
    }
}

/// The first `pages` pages together are the table's first `pages * page_size`
/// rows (all of them once that reaches the end).
proof fn lemma_listing_prefix<T>(rows: Seq<T>, page_size: int, pages: nat)
    requires
        page_size >= 1,
    ensures
        pages * page_size >= rows.len() ==> listing(rows, page_size, pages) == rows,
        pages * page_size < rows.len() ==> listing(rows, page_size, pages) == rows.subrange(
            0,
            pages * page_size,
        ),
    decreases pages,
{
    if pages == 0 {
        assert(listing(rows, page_size, 0) =~= rows.subrange(0, 0));
    } else {
        let k = (pages - 1) as nat;
        lemma_listing_prefix(rows, page_size, k);
        assert(offset_of(pages as int, page_size) == k * page_size) by (nonlinear_arith)
            requires
                k == pages - 1,
        ;
        assert(k * page_size + page_size == pages * page_size) by (nonlinear_arith)
            requires
                k == pages - 1,
        ;
        assert(k * page_size >= 0) by (nonlinear_arith)
            requires
                page_size >= 1,
        ;
        let l = listing(rows, page_size, pages);
        if pages * page_size >= rows.len() {
            assert(l =~= rows);
        } else {
            assert(l =~= rows.subrange(0, pages * page_size));
        }
    }
}

/// A created row round-trips through the whole listing: once it is appended
/// to a well-formed table, every page up to the one that reaches the end can
/// be served, their concatenation is the table, and it holds exactly one row
/// with the new id, namely the created row itself.
pub proof fn lemma_created_row_in_listing(
    rows: Seq<RealtorModel>,
    m: RealtorModel,
    page_size: int,
    pages: nat,
)
    requires
        rows_wf(rows.push(m)),
        page_size >= 1,
        pages * page_size >= rows.len() + 1,
        (pages - 1) * page_size <= u64::MAX,
    ensures
        forall|p: int| 1 <= p <= pages ==> is_valid_page(p, page_size),
        listing(rows.push(m), page_size, pages) == rows.push(m),
        listing(rows.push(m), page_size, pages)[rows.len() as int] == m,
        forall|i: int|
            0 <= i < listing(rows.push(m), page_size, pages).len() && (#[trigger] listing(
                rows.push(m),
                page_size,
                pages,
            )[i]).id@ == m.id@ ==> i == rows.len(),
{
    let t = rows.push(m);
    lemma_listing_prefix(t, page_size, pages);
    assert forall|p: int| 1 <= p <= pages implies is_valid_page(p, page_size) by {
        assert((p - 1) * page_size <= (pages - 1) * page_size) by (nonlinear_arith)
            requires
                1 <= p <= pages,
                page_size >= 1,
        ;
    }
    assert(t[rows.len() as int] == m);
}

/// Ids never collide across a run of creations: when each created row was
/// valid and its id new to the table as it stood (what every successful
/// create ensures), the created ids are pairwise distinct and none equals the
/// id of a row that was there before.
pub proof fn lemma_creations_distinct(rows: Seq<RealtorModel>, created: Seq<RealtorModel>)
    requires
        rows_wf(rows),
        forall|k: int|
            0 <= k < created.len() ==> is_valid_row(#[trigger] created[k]) && !has_id(
                rows + created.subrange(0, k),
                created[k].id@,
            ),
    ensures
        rows_wf(rows + created),
        forall|a: int, b: int|
            0 <= a < created.len() && 0 <= b < created.len() && a != b ==> (
            #[trigger] created[a]).id@ != (#[trigger] created[b]).id@,
        forall|a: int, i: int|
            0 <= a < created.len() && 0 <= i < rows.len() ==> (#[trigger] created[a]).id@ != (
            #[trigger] rows[i]).id@,
    decreases created.len(),
{
    let all = rows + created;
    if created.len() == 0 {
        assert(all =~= rows);
    } else {
        let n = created.len() - 1;
        let init = created.subrange(0, n);
        assert forall|k: int| 0 <= k < init.len() implies is_valid_row(#[trigger] init[k])
            && !has_id(rows + init.subrange(0, k), init[k].id@) by {
            assert(init[k] == created[k]);
            assert(init.subrange(0, k) =~= created.subrange(0, k));
        }
        lemma_creations_distinct(rows, init);
        lemma_created_id_unique(rows + init, created[n]);
        assert(all =~= (rows + init).push(created[n]));
        assert forall|a: int, b: int|
            0 <= a < created.len() && 0 <= b < created.len() && a != b implies (
            #[trigger] created[a]).id@ != (#[trigger] created[b]).id@ by {
            assert(created[a] == all[rows.len() + a]);
            assert(created[b] == all[rows.len() + b]);
        }
        assert forall|a: int, i: int| 0 <= a < created.len() && 0 <= i < rows.len() implies (
        #[trigger] created[a]).id@ != (#[trigger] rows[i]).id@ by {
            assert(created[a] == all[rows.len() + a]);
            assert(rows[i] == all[i]);
        }
    }
}

/// Some row matching `email` means a first match exists.
proof fn lemma_exists_first_match(rows: Seq<RealtorModel>, email: Seq<char>, k: int)
    requires
        0 <= k < rows.len(),
        rows[k].email@ == email,
    ensures
        is_first_match(rows, email, first_match(rows, email)),
        first_match(rows, email) <= k,
        has_email(rows, email),
    decreases k,
{
    if forall|j: int| 0 <= j < k ==> (#[trigger] rows[j]).email@ != email {
        assert(is_first_match(rows, email, k));
        crate::store::lemma_first_match_unique(rows, email, k);
    } else {
        let j = choose|j: int| 0 <= j < k && (#[trigger] rows[j]).email@ == email;
        lemma_exists_first_match(rows, email, j);
    }
}

} // verus!
