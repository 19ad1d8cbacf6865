//! The versioned tables in the abstract: a table is a sequence of row views,
//! a row is the current version of its entity while its end commit is
//! [`MAX_COMMIT_NUM`], and writing a version closes the ones it supersedes.
//! The laws that every such table obeys are proved here.
use vstd::prelude::*;

use crate::MAX_COMMIT_NUM;

verus! {

/// The view of a row of a table that keeps every version of an entity.
pub trait VersionView: Sized {
    /// The columns that name the entity of which this row is a version.
    spec fn version_key(&self) -> Seq<Seq<char>>;

    /// The commit at which this version starts.
    spec fn started_at(&self) -> i64;

    /// The commit at which this version ends; [`MAX_COMMIT_NUM`] while it is current.
    spec fn ended_at(&self) -> i64;

    /// The service that this row belongs to, if any.
    spec fn service(&self) -> Option<Seq<char>>;

    /// The record that this row belongs to.
    spec fn record(&self) -> Seq<char>;

    /// This row with its end commit set to `commit_num`.
    spec fn closed_at(&self, commit_num: i64) -> Self;

    /// Closing a row twice is closing it at the second commit.
    proof fn lemma_closed_twice(&self, first: i64, second: i64)
        ensures
            self.closed_at(first).closed_at(second) == self.closed_at(second),
    ;

    /// Closing a row changes its end commit and nothing else that the table
    /// operations read.
    proof fn lemma_closed_at(&self, commit_num: i64)
        ensures
            self.closed_at(commit_num).version_key() == self.version_key(),
            self.closed_at(commit_num).started_at() == self.started_at(),
            self.closed_at(commit_num).ended_at() == commit_num,
            self.closed_at(commit_num).service() == self.service(),
            self.closed_at(commit_num).record() == self.record(),
    ;
}

/// The views of a sequence of values.
pub open spec fn views<T: View>(s: Seq<T>) -> Seq<T::V> {
    s.map_values(|x: T| x@)
}

/// The views of a sequence of strings.
pub open spec fn strings_view(s: Seq<String>) -> Seq<Seq<char>> {
    s.map_values(|x: String| x@)
}

/// The view of an optional string slice.
pub open spec fn opt_str_view(s: Option<&str>) -> Option<Seq<char>> {
    match s {
        Some(x) => Some(x@),
        None => None,
    }
}

/// The view of an optional string.
pub open spec fn opt_string_view(s: Option<String>) -> Option<Seq<char>> {
    match s {
        Some(x) => Some(x@),
        None => None,
    }
}

/// The view of an optional list of strings.
pub open spec fn opt_strings_view(s: Option<Vec<String>>) -> Option<Seq<Seq<char>>> {
    match s {
        Some(x) => Some(strings_view(x@)),
        None => None,
    }
}

/// Whether `service_id` filters to rows of `row_service_id`: a given service
/// id selects the rows of that service, no service id selects every row.
pub open spec fn service_filter_admits(
    row_service_id: Option<Seq<char>>,
    service_id: Option<Seq<char>>,
) -> bool {
    match service_id {
        Some(s) => row_service_id == Some(s),
        None => true,
    }
}

/// Whether closing the current versions of `key` for `service_id` closes `row`.
pub open spec fn is_closed_by<V: VersionView>(
    row: V,
    key: Seq<Seq<char>>,
    service_id: Option<Seq<char>>,
) -> bool {
    &&& row.version_key() == key
    &&& row.ended_at() == MAX_COMMIT_NUM
    &&& service_filter_admits(row.service(), service_id)
}

/// The table after closing, at `commit_num`, every current version of `key`
/// that `service_id` admits.
pub open spec fn close_versions<V: VersionView>(
    table: Seq<V>,
    key: Seq<Seq<char>>,
    service_id: Option<Seq<char>>,
    commit_num: i64,
) -> Seq<V> {
    table.map_values(
        |row: V|
            if is_closed_by(row, key, service_id) {
                row.closed_at(commit_num)
            } else {
                row
            },
    )
}

/// The table after closing the current versions that each row of `batch`
/// supersedes, one row after the other.
pub open spec fn close_for_batch<V: VersionView>(table: Seq<V>, batch: Seq<V>) -> Seq<V>
    decreases batch.len(),
{
    if batch.len() == 0 {
        table
    } else {
        let row = batch.last();
        close_versions(
            close_for_batch(table, batch.drop_last()),
            row.version_key(),
            row.service(),
            row.started_at(),
        )
    }
}

/// The table after writing `batch`: the versions that each new row
/// supersedes are closed at its start commit, then the batch is appended.
pub open spec fn insert_versions<V: VersionView>(table: Seq<V>, batch: Seq<V>) -> Seq<V> {
    close_for_batch(table, batch) + batch
}

/// Whether `ids` names the record of `row`.
pub open spec fn names_record<V: VersionView>(row: V, ids: Seq<Seq<char>>) -> bool {
    ids.contains(row.record())
}

/// Whether a listing by `service_id` shows rows of `row_service_id`: a given
/// service id shows the rows of that service, no service id shows the rows
/// that belong to no service.
pub open spec fn service_listing_admits(
    row_service_id: Option<Seq<char>>,
    service_id: Option<Seq<char>>,
) -> bool {
    row_service_id == service_id
}

/// Whether a listing of the current versions of the records `ids` for
/// `service_id` shows `row`.
pub open spec fn is_listed<V: VersionView>(
    row: V,
    ids: Seq<Seq<char>>,
    service_id: Option<Seq<char>>,
) -> bool {
    &&& row.ended_at() == MAX_COMMIT_NUM
    &&& names_record(row, ids)
    &&& service_listing_admits(row.service(), service_id)
}

/// The current versions of the records `ids` for `service_id`, in table order.
pub open spec fn listed_versions<V: VersionView>(
    table: Seq<V>,
    ids: Seq<Seq<char>>,
    service_id: Option<Seq<char>>,
) -> Seq<V> {
    table.filter(listing(ids, service_id))
}

/// The predicate of a listing of the records `ids` for `service_id`.
pub open spec fn listing<V: VersionView>(
    ids: Seq<Seq<char>>,
    service_id: Option<Seq<char>>,
) -> spec_fn(V) -> bool {
    |row: V| is_listed(row, ids, service_id)
}

/// The predicate that holds of the versions of the entity `key`.
pub open spec fn of_entity<V: VersionView>(key: Seq<Seq<char>>) -> spec_fn(V) -> bool {
    |row: V| row.version_key() == key
}

/// Whether `after` is `before` with, at most, current versions closed.
pub open spec fn only_closes_current<V: VersionView>(before: Seq<V>, after: Seq<V>) -> bool {
    &&& after.len() == before.len()
    &&& forall|j: int|
        0 <= j < before.len() ==> {
            &&& (#[trigger] after[j]).version_key() == before[j].version_key()
            &&& after[j].started_at() == before[j].started_at()
            &&& after[j].service() == before[j].service()
            &&& after[j].record() == before[j].record()
            &&& (after[j] != before[j] ==> before[j].ended_at() == MAX_COMMIT_NUM)
            &&& (after[j] != before[j] ==> exists|c: i64| after[j] == #[trigger] before[j].closed_at(c))
        }
}

/// Ending the current versions of an entity keeps the history: every row
/// stays in place naming the same entity, record, service and start commit,
/// and only current versions change, in their end commit alone.
pub proof fn lemma_close_versions_only_closes_current<V: VersionView>(
    table: Seq<V>,
    key: Seq<Seq<char>>,
    service_id: Option<Seq<char>>,
    commit_num: i64,
)
    ensures
        only_closes_current(table, close_versions(table, key, service_id, commit_num)),
{
    let after = close_versions(table, key, service_id, commit_num);
    assert forall|j: int| 0 <= j < table.len() implies {
        &&& (#[trigger] after[j]).version_key() == table[j].version_key()
        &&& after[j].started_at() == table[j].started_at()
        &&& after[j].service() == table[j].service()
        &&& after[j].record() == table[j].record()
        &&& (after[j] != table[j] ==> table[j].ended_at() == MAX_COMMIT_NUM)
        &&& (after[j] != table[j] ==> exists|c: i64| after[j] == #[trigger] table[j].closed_at(c))
    } by {
        table[j].lemma_closed_at(commit_num);
    }
}

proof fn lemma_only_closes_current_transitive<V: VersionView>(a: Seq<V>, b: Seq<V>, c: Seq<V>)
    requires
        only_closes_current(a, b),
        only_closes_current(b, c),
    ensures
        only_closes_current(a, c),
{
    assert forall|j: int| 0 <= j < a.len() implies {
        &&& (#[trigger] c[j]).version_key() == a[j].version_key()
        &&& c[j].started_at() == a[j].started_at()
        &&& c[j].service() == a[j].service()
        &&& c[j].record() == a[j].record()
        &&& (c[j] != a[j] ==> a[j].ended_at() == MAX_COMMIT_NUM)
        &&& (c[j] != a[j] ==> exists|k: i64| c[j] == #[trigger] a[j].closed_at(k))
    } by {
        assert(b[j].version_key() == a[j].version_key());
        assert(c[j].version_key() == b[j].version_key());
        if c[j] != a[j] && a[j].ended_at() != MAX_COMMIT_NUM {
            assert(b[j] == a[j]);
        }
        if c[j] != a[j] {
            if b[j] == a[j] {
                let k2 = choose|k: i64| c[j] == #[trigger] b[j].closed_at(k);
                assert(c[j] == a[j].closed_at(k2));
            } else {
                let k1 = choose|k: i64| b[j] == #[trigger] a[j].closed_at(k);
                if c[j] == b[j] {
                    assert(c[j] == a[j].closed_at(k1));
                } else {
                    let k2 = choose|k: i64| c[j] == #[trigger] b[j].closed_at(k);
                    a[j].lemma_closed_twice(k1, k2);
                    assert(c[j] == a[j].closed_at(k2));
                }
            }
        }
    }
}

proof fn lemma_close_for_batch_only_closes_current<V: VersionView>(table: Seq<V>, batch: Seq<V>)
    ensures
        only_closes_current(table, close_for_batch(table, batch)),
    decreases batch.len(),
{
    if batch.len() == 0 {
    } else {
        let row = batch.last();
        let mid = close_for_batch(table, batch.drop_last());
        lemma_close_for_batch_only_closes_current(table, batch.drop_last());
        lemma_close_versions_only_closes_current(
            mid,
            row.version_key(),
            row.service(),
            row.started_at(),
        );
        lemma_only_closes_current_transitive(table, mid, close_for_batch(table, batch));
    }
}

/// Writing new versions keeps the history: the old rows stay in place, in
/// order, each naming the same entity, record, service and start commit; a
/// row changes only while it is the current version (then only its end
/// commit changes), and the new rows follow the old ones as given.
pub proof fn lemma_insert_keeps_history<V: VersionView>(table: Seq<V>, batch: Seq<V>)
    ensures
        insert_versions(table, batch).len() == table.len() + batch.len(),
        insert_versions(table, batch).subrange(table.len() as int, (table.len() + batch.len()) as int)
            == batch,
        only_closes_current(table, insert_versions(table, batch).subrange(0, table.len() as int)),
{
    lemma_close_for_batch_only_closes_current(table, batch);
    let closed = close_for_batch(table, batch);
    assert(insert_versions(table, batch).subrange(0, table.len() as int) =~= closed);
    assert(insert_versions(table, batch).subrange(
        table.len() as int,
        (table.len() + batch.len()) as int,
    ) =~= batch);
}

/// Closing the current versions of an entity twice at the same commit does
/// no more than closing them once, unless the commit is the open-ended one.
pub proof fn lemma_close_versions_idempotent<V: VersionView>(
    table: Seq<V>,
    key: Seq<Seq<char>>,
    service_id: Option<Seq<char>>,
    commit_num: i64,
)
    requires
        commit_num != MAX_COMMIT_NUM,
    ensures
        close_versions(close_versions(table, key, service_id, commit_num), key, service_id, commit_num)
            == close_versions(table, key, service_id, commit_num),
{
    let once = close_versions(table, key, service_id, commit_num);
    let twice = close_versions(once, key, service_id, commit_num);
    assert forall|j: int| 0 <= j < table.len() implies #[trigger] twice[j] == once[j] by {
        table[j].lemma_closed_at(commit_num);
    }
    assert(twice =~= once);
}

/// At most one current version of each entity per service.
pub open spec fn current_versions_unique<V: VersionView>(table: Seq<V>) -> bool {
    forall|i: int, j: int|
        0 <= i < table.len() && 0 <= j < table.len() && i != j
            && (#[trigger] table[i]).ended_at() == MAX_COMMIT_NUM
            && (#[trigger] table[j]).ended_at() == MAX_COMMIT_NUM
            && table[i].version_key() == table[j].version_key()
            ==> table[i].service() != table[j].service()
}

/// Whether every row of `batch` starts at a commit other than the open-ended one.
pub open spec fn starts_bounded<V: VersionView>(batch: Seq<V>) -> bool {
    forall|k: int| 0 <= k < batch.len() ==> (#[trigger] batch[k]).started_at() != MAX_COMMIT_NUM
}

/// Whether `row` is a current version that `writer`, once written, supersedes.
pub open spec fn superseded_by<V: VersionView>(row: V, writer: V) -> bool {
    &&& row.ended_at() == MAX_COMMIT_NUM
    &&& row.version_key() == writer.version_key()
    &&& row.service() == writer.service()
}

proof fn lemma_close_for_batch_supersedes<V: VersionView>(table: Seq<V>, batch: Seq<V>)
    requires
        starts_bounded(batch),
    ensures
        forall|i: int, k: int|
            0 <= i < table.len() && 0 <= k < batch.len() ==> !superseded_by(
                #[trigger] close_for_batch(table, batch)[i],
                #[trigger] batch[k],
            ),
    decreases batch.len(),
{
    if batch.len() > 0 {
        let prefix = batch.drop_last();
        let row = batch.last();
        let mid = close_for_batch(table, prefix);
        let after = close_for_batch(table, batch);
        assert(starts_bounded(prefix)) by {
            assert forall|k: int| 0 <= k < prefix.len() implies (#[trigger] prefix[k]).started_at()
                != MAX_COMMIT_NUM by {
                assert(prefix[k] == batch[k]);
            }
        }
        lemma_close_for_batch_supersedes(table, prefix);
        lemma_close_for_batch_only_closes_current(table, prefix);
        assert forall|i: int, k: int|
            0 <= i < table.len() && 0 <= k < batch.len() implies !superseded_by(
                #[trigger] after[i],
                #[trigger] batch[k],
            ) by {
            mid[i].lemma_closed_at(row.started_at());
            assert(batch[batch.len() - 1] == row);
            if k < batch.len() - 1 {
                assert(batch[k] == prefix[k]);
                assert(!superseded_by(mid[i], prefix[k]));
            }
        }
    }
}

proof fn lemma_closing_keeps_unique<V: VersionView>(before: Seq<V>, after: Seq<V>)
    requires
        only_closes_current(before, after),
        forall|j: int|
            0 <= j < before.len() && (#[trigger] after[j]).ended_at() == MAX_COMMIT_NUM
                ==> before[j].ended_at() == MAX_COMMIT_NUM,
        current_versions_unique(before),
    ensures
        current_versions_unique(after),
{
    assert forall|i: int, j: int|
        0 <= i < after.len() && 0 <= j < after.len() && i != j
            && (#[trigger] after[i]).ended_at() == MAX_COMMIT_NUM
            && (#[trigger] after[j]).ended_at() == MAX_COMMIT_NUM
            && after[i].version_key() == after[j].version_key()
            implies after[i].service() != after[j].service() by {
        assert(before[i].ended_at() == MAX_COMMIT_NUM);
        assert(before[j].ended_at() == MAX_COMMIT_NUM);
    }
}

proof fn lemma_close_for_batch_keeps_ended<V: VersionView>(table: Seq<V>, batch: Seq<V>)
    requires
        starts_bounded(batch),
    ensures
        forall|j: int|
            0 <= j < table.len() && (#[trigger] close_for_batch(table, batch)[j]).ended_at()
                == MAX_COMMIT_NUM ==> table[j].ended_at() == MAX_COMMIT_NUM,
    decreases batch.len(),
{
    if batch.len() > 0 {
        let prefix = batch.drop_last();
        let row = batch.last();
        assert(starts_bounded(prefix)) by {
            assert forall|k: int| 0 <= k < prefix.len() implies (#[trigger] prefix[k]).started_at()
                != MAX_COMMIT_NUM by {
                assert(prefix[k] == batch[k]);
            }
        }
        lemma_close_for_batch_keeps_ended(table, prefix);
        lemma_close_for_batch_only_closes_current(table, prefix);
        let mid = close_for_batch(table, prefix);
        assert forall|j: int|
            0 <= j < table.len() && (#[trigger] close_for_batch(table, batch)[j]).ended_at()
                == MAX_COMMIT_NUM implies table[j].ended_at() == MAX_COMMIT_NUM by {
            mid[j].lemma_closed_at(row.started_at());
            assert(batch[batch.len() - 1] == row);
        }
    }
}

/// Writing a batch that holds at most one current version of each entity per
/// service, each starting at a bounded commit, keeps at most one current
/// version of each entity per service.
pub proof fn lemma_insert_keeps_current_versions_unique<V: VersionView>(table: Seq<V>, batch: Seq<V>)
    requires
        current_versions_unique(table),
        current_versions_unique(batch),
        starts_bounded(batch),
    ensures
        current_versions_unique(insert_versions(table, batch)),
{
    let closed = close_for_batch(table, batch);
    let after = insert_versions(table, batch);
    lemma_close_for_batch_only_closes_current(table, batch);
    lemma_close_for_batch_keeps_ended(table, batch);
    lemma_close_for_batch_supersedes(table, batch);
    lemma_closing_keeps_unique(table, closed);
    let n = table.len();
    assert forall|i: int, j: int|
        0 <= i < after.len() && 0 <= j < after.len() && i != j
            && (#[trigger] after[i]).ended_at() == MAX_COMMIT_NUM
            && (#[trigger] after[j]).ended_at() == MAX_COMMIT_NUM
            && after[i].version_key() == after[j].version_key()
            implies after[i].service() != after[j].service() by {
        if i < n && j < n {
            assert(after[i] == closed[i] && after[j] == closed[j]);
        } else if i < n {
            assert(after[i] == closed[i] && after[j] == batch[j - n]);
            assert(!superseded_by(closed[i], batch[j - n]));
        } else if j < n {
            assert(after[j] == closed[j] && after[i] == batch[i - n]);
            assert(!superseded_by(closed[j], batch[i - n]));
        } else {
            assert(after[i] == batch[i - n] && after[j] == batch[j - n]);
        }
    }
}

/// No element passes `p`: the filter is empty.
pub proof fn lemma_filter_none<A>(s: Seq<A>, p: spec_fn(A) -> bool)
    requires
        forall|i: int| 0 <= i < s.len() ==> !p(#[trigger] s[i]),
    ensures
        s.filter(p) =~= Seq::<A>::empty(),
    decreases s.len(),
{
    reveal(Seq::filter);
    if s.len() > 0 {
        lemma_filter_none(s.drop_last(), p);
    }
}

/// Filtering by `p` and then by `q` filters by `r` where `r` is `p` and `q`.
pub proof fn lemma_filter_filter<A>(
    s: Seq<A>,
    p: spec_fn(A) -> bool,
    q: spec_fn(A) -> bool,
    r: spec_fn(A) -> bool,
)
    requires
        forall|x: A| #[trigger] r(x) == (p(x) && q(x)),
    ensures
        s.filter(p).filter(q) == s.filter(r),
    decreases s.len(),
{
    reveal(Seq::filter);
    if s.len() > 0 {
        let rest = s.drop_last();
        lemma_filter_filter(rest, p, q, r);
        rest.filter(p).lemma_filter_push(s.last(), q);
    }
}

/// The predicate of the listed versions of the entity `key`.
pub open spec fn listing_of_entity<V: VersionView>(
    ids: Seq<Seq<char>>,
    service_id: Option<Seq<char>>,
    key: Seq<Seq<char>>,
) -> spec_fn(V) -> bool {
    |row: V| is_listed(row, ids, service_id) && row.version_key() == key
}

proof fn lemma_closed_versions_not_listed<V: VersionView>(
    table: Seq<V>,
    row: V,
    ids: Seq<Seq<char>>,
)
    requires
        row.started_at() != MAX_COMMIT_NUM,
    ensures
        close_versions(table, row.version_key(), row.service(), row.started_at()).filter(
            listing_of_entity(ids, row.service(), row.version_key()),
        ) =~= Seq::<V>::empty(),
{
    let closed = close_versions(table, row.version_key(), row.service(), row.started_at());
    let both = listing_of_entity::<V>(ids, row.service(), row.version_key());
    assert forall|i: int| 0 <= i < closed.len() implies !both(#[trigger] closed[i]) by {
        table[i].lemma_closed_at(row.started_at());
    }
    lemma_filter_none(closed, both);
}

/// A single element that passes `p` filters to itself.
pub proof fn lemma_single_filter<V>(row: V, p: spec_fn(V) -> bool)
    requires
        p(row),
    ensures
        seq![row].filter(p) == seq![row],
{
    let e = Seq::<V>::empty();
    lemma_filter_none(e, p);
    e.lemma_filter_push(row, p);
    assert(e.push(row) =~= seq![row]);
}

/// Writing one version closes the versions it supersedes and appends it.
pub proof fn lemma_insert_single<V: VersionView>(table: Seq<V>, row: V)
    ensures
        insert_versions(table, seq![row]) == close_versions(
            table,
            row.version_key(),
            row.service(),
            row.started_at(),
        ) + seq![row],
{
    let b = seq![row];
    assert(b.drop_last() =~= Seq::<V>::empty());
    assert(close_for_batch(table, b.drop_last()) == table);
}

/// After a current version `row`, starting at a bounded commit, is written,
/// listing its record for its service shows `row`, and no other version, of
/// its entity.
pub proof fn lemma_written_version_is_listed<V: VersionView>(
    table: Seq<V>,
    row: V,
    ids: Seq<Seq<char>>,
)
    requires
        row.ended_at() == MAX_COMMIT_NUM,
        row.started_at() != MAX_COMMIT_NUM,
        ids.contains(row.record()),
    ensures
        listed_versions(insert_versions(table, seq![row]), ids, row.service()).filter(
            of_entity(row.version_key()),
        ) == seq![row],
{
    let svc = row.service();
    let key = row.version_key();
    let listed = listing::<V>(ids, svc);
    let same = of_entity::<V>(key);
    let both = listing_of_entity::<V>(ids, svc, key);
    let closed = close_versions(table, key, svc, row.started_at());
    let b = seq![row];
    lemma_insert_single(table, row);
    lemma_filter_filter(closed + b, listed, same, both);
    Seq::filter_distributes_over_add(closed, b, both);
    lemma_closed_versions_not_listed(table, row, ids);
    lemma_single_filter(row, both);
    assert(closed.filter(both) + b.filter(both) =~= b);
}

/// The first element of `s`, if any.
pub open spec fn first_of<A>(s: Seq<A>) -> Option<A> {
    if s.len() > 0 {
        Some(s[0])
    } else {
        None
    }
}

/// Where no element before `i` passes `p` and `s[i]` does, `s[i]` is the
/// first element that passes `p`.
pub proof fn lemma_filter_first<A>(s: Seq<A>, p: spec_fn(A) -> bool, i: int)
    requires
        0 <= i < s.len(),
        s.take(i).filter(p).len() == 0,
        p(s[i]),
    ensures
        first_of(s.filter(p)) == Some(s[i]),
{
    assert(s =~= s.take(i + 1) + s.skip(i + 1));
    Seq::filter_distributes_over_add(s.take(i + 1), s.skip(i + 1), p);
    assert(s.take(i + 1) =~= s.take(i).push(s[i]));
    s.take(i).lemma_filter_push(s[i], p);
    assert(s.take(i + 1).filter(p) =~= seq![s[i]]);
}

/// Where no element before `i` passes `p` and `s[i]` does not either, no
/// element up to `i` passes `p`.
pub proof fn lemma_filter_none_further<A>(s: Seq<A>, p: spec_fn(A) -> bool, i: int)
    requires
        0 <= i < s.len(),
        s.take(i).filter(p).len() == 0,
        !p(s[i]),
    ensures
        s.take(i + 1).filter(p).len() == 0,
{
    assert(s.take(i + 1) =~= s.take(i).push(s[i]));
    s.take(i).lemma_filter_push(s[i], p);
}

/// Whether `row` is a current version that belongs to the service that
/// `service_id` names, or to no service where it names none.
pub open spec fn is_current_for_service<V: VersionView>(row: V, service_id: Option<Seq<char>>) -> bool {
    &&& row.ended_at() == MAX_COMMIT_NUM
    &&& service_listing_admits(row.service(), service_id)
}

/// The predicate of a listing of every current version for `service_id`.
pub open spec fn listing_for_service<V: VersionView>(service_id: Option<Seq<char>>) -> spec_fn(V) -> bool {
    |row: V| is_current_for_service(row, service_id)
}

/// The view of an optional value.
pub open spec fn opt_view<T: View>(o: Option<T>) -> Option<T::V> {
    match o {
        Some(x) => Some(x@),
        None => None,
    }
}

/// Every element passes `p`: the filter keeps all.
pub proof fn lemma_filter_all<A>(s: Seq<A>, p: spec_fn(A) -> bool)
    requires
        forall|i: int| 0 <= i < s.len() ==> p(#[trigger] s[i]),
    ensures
        s.filter(p) == s,
    decreases s.len(),
{
    reveal(Seq::filter);
    if s.len() > 0 {
        lemma_filter_all(s.drop_last(), p);
        assert(s.drop_last().push(s.last()) =~= s);
    }
}

/// After the current versions of an entity are ended at a bounded commit, a
/// listing for a service that the ending admitted shows no version of the
/// entity.
pub proof fn lemma_ended_versions_not_listed<V: VersionView>(
    table: Seq<V>,
    key: Seq<Seq<char>>,
    service_id: Option<Seq<char>>,
    commit_num: i64,
    ids: Seq<Seq<char>>,
    listed_service_id: Option<Seq<char>>,
)
    requires
        commit_num != MAX_COMMIT_NUM,
        service_filter_admits(listed_service_id, service_id),
    ensures
        listed_versions(close_versions(table, key, service_id, commit_num), ids, listed_service_id).filter(
            of_entity(key),
        ) == Seq::<V>::empty(),
{
    let closed = close_versions(table, key, service_id, commit_num);
    let both = listing_of_entity::<V>(ids, listed_service_id, key);
    lemma_filter_filter(closed, listing(ids, listed_service_id), of_entity(key), both);
    assert forall|i: int| 0 <= i < closed.len() implies !both(#[trigger] closed[i]) by {
        table[i].lemma_closed_at(commit_num);
    }
    lemma_filter_none(closed, both);
}

/// An element is in the filter of `s` by `p` exactly when it is in `s` and
/// passes `p`.
pub proof fn lemma_filter_contains_iff<A>(s: Seq<A>, p: spec_fn(A) -> bool, x: A)
    ensures
        s.filter(p).contains(x) <==> s.contains(x) && p(x),
{
    broadcast use vstd::seq_lib::group_filter_ensures;

    if s.filter(p).contains(x) {
        s.lemma_filter_contains_rev(p, x);
        let k = choose|k: int| 0 <= k < s.filter(p).len() && s.filter(p)[k] == x;
        assert(p(s.filter(p)[k]));
    }
    if s.contains(x) && p(x) {
        let j = choose|j: int| 0 <= j < s.len() && s[j] == x;
        s.lemma_filter_contains(p, j);
    }
}

/// The first element of the filter of `s` by `p` is the first element of
/// `s` that passes `p`; there is none exactly when no element passes.
pub proof fn lemma_first_of_filter<A>(s: Seq<A>, p: spec_fn(A) -> bool)
    ensures
        first_of(s.filter(p)) is None <==> forall|j: int| 0 <= j < s.len() ==> !p(#[trigger] s[j]),
        first_of(s.filter(p)) is Some ==> exists|i: int|
            0 <= i < s.len() && s[i] == first_of(s.filter(p))->0 && p(s[i]) && forall|j: int|
                0 <= j < i ==> !p(#[trigger] s[j]),
    decreases s.len(),
{
    reveal(Seq::filter);
    if s.len() > 0 {
        let rest = s.drop_last();
        lemma_first_of_filter(rest, p);
        rest.lemma_filter_push(s.last(), p);
        assert(rest.push(s.last()) =~= s);
        if first_of(rest.filter(p)) is Some {
            let i = choose|i: int|
                0 <= i < rest.len() && rest[i] == first_of(rest.filter(p))->0 && p(rest[i]) && forall|j: int|
                    0 <= j < i ==> !p(#[trigger] rest[j]);
            assert(s[i] == rest[i]);
            assert forall|j: int| 0 <= j < i implies !p(#[trigger] s[j]) by {
                assert(s[j] == rest[j]);
            }
        } else {
            assert forall|j: int| 0 <= j < s.len() - 1 implies !p(#[trigger] s[j]) by {
                assert(s[j] == rest[j]);
            }
            if p(s.last()) {
                assert(rest.filter(p).len() == 0);
                assert(s.filter(p) =~= seq![s.last()]);
                assert(s[s.len() - 1] == s.last());
            } else {
                assert(s.filter(p) == rest.filter(p));
                assert forall|j: int| 0 <= j < s.len() implies !p(#[trigger] s[j]) by {
                    if j < s.len() - 1 {
                        assert(s[j] == rest[j]);
                    }
                }
            }
        }
    } else {
        assert(s.filter(p) =~= s);
    }
}

/// Each row of a table that a batch write closes is closed by the first row
/// of the batch that supersedes it, at that row's start commit.
proof fn lemma_close_for_batch_first<V: VersionView>(table: Seq<V>, batch: Seq<V>, i: int)
    requires
        0 <= i < table.len(),
        forall|j: int| 0 <= j < batch.len() ==> (#[trigger] batch[j]).started_at() != MAX_COMMIT_NUM,
    ensures
        close_for_batch(table, batch).len() == table.len(),
        (forall|j: int|
            0 <= j < batch.len() ==> !is_closed_by(table[i], (#[trigger] batch[j]).version_key(), batch[j].service()))
            ==> close_for_batch(table, batch)[i] == table[i],
        forall|j: int|
            #![trigger batch[j]]
            0 <= j < batch.len() && is_closed_by(table[i], batch[j].version_key(), batch[j].service()) && (forall|
                k: int,
            |
                0 <= k < j ==> !is_closed_by(table[i], (#[trigger] batch[k]).version_key(), batch[k].service()))
                ==> close_for_batch(table, batch)[i] == table[i].closed_at(batch[j].started_at()),
    decreases batch.len(),
{
    if batch.len() > 0 {
        let b = batch.drop_last();
        let x = batch.last();
        assert forall|j: int| 0 <= j < b.len() implies (#[trigger] b[j]).started_at() != MAX_COMMIT_NUM by {
            assert(b[j] == batch[j]);
        }
        lemma_close_for_batch_first(table, b, i);
        let prev = close_for_batch(table, b);
        assert(close_for_batch(table, batch) == close_versions(prev, x.version_key(), x.service(), x.started_at()));
        assert forall|j: int|
            #![trigger batch[j]]
            0 <= j < batch.len() && is_closed_by(table[i], batch[j].version_key(), batch[j].service()) && (forall|
                k: int,
            |
                0 <= k < j ==> !is_closed_by(table[i], (#[trigger] batch[k]).version_key(), batch[k].service()))
                implies close_for_batch(table, batch)[i] == table[i].closed_at(batch[j].started_at()) by {
            if j < b.len() {
                assert(b[j] == batch[j]);
                assert forall|k: int| 0 <= k < j implies !is_closed_by(
                    table[i],
                    (#[trigger] b[k]).version_key(),
                    b[k].service(),
                ) by {
                    assert(b[k] == batch[k]);
                }
                assert(prev[i] == table[i].closed_at(b[j].started_at()));
                table[i].lemma_closed_at(b[j].started_at());
            } else {
                assert forall|k: int| 0 <= k < b.len() implies !is_closed_by(
                    table[i],
                    (#[trigger] b[k]).version_key(),
                    b[k].service(),
                ) by {
                    assert(b[k] == batch[k]);
                }
                assert(prev[i] == table[i]);
            }
        }
        if forall|j: int|
            0 <= j < batch.len() ==> !is_closed_by(table[i], (#[trigger] batch[j]).version_key(), batch[j].service()) {
            assert forall|k: int| 0 <= k < b.len() implies !is_closed_by(
                table[i],
                (#[trigger] b[k]).version_key(),
                b[k].service(),
            ) by {
                assert(b[k] == batch[k]);
            }
            assert(prev[i] == table[i]);
            assert(batch[b.len() as int] == x);
        }
    }
}

/// Writing a batch of versions, each starting at a bounded commit, keeps the
/// table's rows in place and appends the batch; a row of the table that no
/// row of the batch supersedes stays as it was, and a row that some do is
/// closed at the start commit of the first of them, as writing the rows one
/// after the other, each ending what it supersedes, does.
pub proof fn lemma_batch_write_closes_at_first_superseder<V: VersionView>(table: Seq<V>, batch: Seq<V>)
    requires
        forall|j: int| 0 <= j < batch.len() ==> (#[trigger] batch[j]).started_at() != MAX_COMMIT_NUM,
    ensures
        insert_versions(table, batch).len() == table.len() + batch.len(),
        forall|j: int| 0 <= j < batch.len() ==> insert_versions(table, batch)[table.len() + j] == #[trigger] batch[j],
        forall|i: int|
            0 <= i < table.len() && (forall|j: int|
                0 <= j < batch.len() ==> !is_closed_by(
                    #[trigger] table[i],
                    (#[trigger] batch[j]).version_key(),
                    batch[j].service(),
                )) ==> insert_versions(table, batch)[i] == table[i],
        forall|i: int, j: int|
            #![trigger table[i], batch[j]]
            0 <= i < table.len() && 0 <= j < batch.len() && is_closed_by(
                table[i],
                batch[j].version_key(),
                batch[j].service(),
            ) && (forall|k: int|
                0 <= k < j ==> !is_closed_by(table[i], (#[trigger] batch[k]).version_key(), batch[k].service()))
                ==> insert_versions(table, batch)[i] == table[i].closed_at(batch[j].started_at()),
{
    lemma_insert_keeps_history(table, batch);
    let out = insert_versions(table, batch);
    assert forall|j: int| 0 <= j < batch.len() implies out[table.len() + j] == #[trigger] batch[j] by {
        assert(out.subrange(table.len() as int, (table.len() + batch.len()) as int)[j] == batch[j]);
    }
    assert forall|i: int| 0 <= i < table.len() implies out[i] == close_for_batch(table, batch)[i] by {
        lemma_close_for_batch_first(table, batch, i);
    }
    assert forall|i: int| 0 <= i < table.len() implies {
        &&& ((forall|j: int|
            0 <= j < batch.len() ==> !is_closed_by(
                #[trigger] table[i],
                (#[trigger] batch[j]).version_key(),
                batch[j].service(),
            )) ==> out[i] == table[i])
        &&& forall|j: int|
            #![trigger batch[j]]
            0 <= j < batch.len() && is_closed_by(table[i], batch[j].version_key(), batch[j].service()) && (forall|
                k: int,
            |
                0 <= k < j ==> !is_closed_by(table[i], (#[trigger] batch[k]).version_key(), batch[k].service()))
                ==> out[i] == table[i].closed_at(batch[j].started_at())
    } by {
        lemma_close_for_batch_first(table, batch, i);
    }
}

} // verus!
