//! The operations that every versioned table shares, on rows in memory:
//! closing the current versions of an entity, writing new versions, and
//! listing the current versions of some records.
use vstd::prelude::*;

use crate::versioned::{
    close_for_batch, close_versions, insert_versions, is_closed_by, listed_versions, listing,
    listing_for_service, opt_str_view, opt_string_view, service_filter_admits,
    service_listing_admits, strings_view, views, VersionView,
};
use crate::MAX_COMMIT_NUM;

verus! {

/// A row of a table that keeps every version of an entity.
pub trait VersionedRow: View<V: VersionView> + Sized {
    fn start_commit_num(&self) -> (r: i64)
        ensures
            r == self@.started_at(),
    ;

    fn end_commit_num(&self) -> (r: i64)
        ensures
            r == self@.ended_at(),
    ;

    fn record_id_ref(&self) -> (r: &String)
        ensures
            r@ == self@.record(),
    ;

    fn service_id_copy(&self) -> (r: Option<String>)
        ensures
            opt_string_view(r) == self@.service(),
    ;

    fn has_version_key(&self, key: &Vec<String>) -> (r: bool)
        ensures
            r == (self@.version_key() == strings_view(key@)),
    ;

    fn version_key_strings(&self) -> (r: Vec<String>)
        ensures
            strings_view(r@) == self@.version_key(),
    ;

    fn close_at(&self, commit_num: i64) -> (r: Self)
        ensures
            r@ == self@.closed_at(commit_num),
    ;

    fn copy_row(&self) -> (r: Self)
        ensures
            r@ == self@,
    ;
}

/// Whether `row` equals `s` as a string.
pub fn string_eq(row: &String, s: &String) -> (r: bool)
    ensures
        r == (row@ == s@),
{
    *row == *s
}

/// Which services the ending of versions reaches: every service, or
/// exactly one.
#[derive(Debug)]
pub enum EndingScope {
    AnyService,
    Service(String),
}

/// The service id of the model that an ending scope stands for: `None` for
/// every service.
pub open spec fn ending_service(scope: EndingScope) -> Option<Seq<char>> {
    match scope {
        EndingScope::AnyService => None,
        EndingScope::Service(s) => Some(s@),
    }
}

/// Which rows a listing shows by their service: those of no service, or
/// those of exactly one.
#[derive(Debug)]
pub enum ListingScope {
    NoService,
    Service(String),
}

/// The service id of the model that a listing scope stands for: `None` for
/// the rows of no service.
pub open spec fn listing_service(scope: ListingScope) -> Option<Seq<char>> {
    match scope {
        ListingScope::NoService => None,
        ListingScope::Service(s) => Some(s@),
    }
}

impl EndingScope {
    /// Whether ending versions in this scope reaches a row of `row_service`.
    pub fn admits(&self, row_service: &Option<String>) -> (r: bool)
        ensures
            r == service_filter_admits(opt_string_view(*row_service), ending_service(*self)),
    {
        match (self, row_service) {
            (EndingScope::AnyService, _) => true,
            (EndingScope::Service(s), Some(own)) => string_eq(own, s),
            (EndingScope::Service(_), None) => false,
        }
    }
}

impl ListingScope {
    /// Whether a listing in this scope shows a row of `row_service`.
    pub fn admits(&self, row_service: &Option<String>) -> (r: bool)
        ensures
            r == service_listing_admits(opt_string_view(*row_service), listing_service(*self)),
    {
        match (self, row_service) {
            (ListingScope::NoService, None) => true,
            (ListingScope::NoService, Some(_)) => false,
            (ListingScope::Service(s), Some(own)) => string_eq(own, s),
            (ListingScope::Service(_), None) => false,
        }
    }
}

/// The scope of ending versions for `service_id`: that service, or every
/// service where none is given.
pub fn ending_scope(service_id: Option<&str>) -> (r: EndingScope)
    ensures
        ending_service(r) == opt_str_view(service_id),
{
    match service_id {
        None => EndingScope::AnyService,
        Some(x) => EndingScope::Service(String::from_str(x)),
    }
}

/// The scope of a listing for `service_id`: that service, or the rows of no
/// service where none is given.
pub fn listing_scope(service_id: Option<&str>) -> (r: ListingScope)
    ensures
        listing_service(r) == opt_str_view(service_id),
{
    match service_id {
        None => ListingScope::NoService,
        Some(x) => ListingScope::Service(String::from_str(x)),
    }
}

fn ending_scope_of(service_id: &Option<String>) -> (r: EndingScope)
    ensures
        ending_service(r) == opt_string_view(*service_id),
{
    match service_id {
        None => EndingScope::AnyService,
        Some(x) => EndingScope::Service(x.clone()),
    }
}

/// The ending of the current versions of one entity, as plain values: the
/// entity's key columns in the order of its version key, the scope of
/// services, and the commit at which the versions end.
#[derive(Debug)]
pub struct EndVersionsRequest {
    pub key: Vec<String>,
    pub scope: EndingScope,
    pub commit_num: i64,
}

/// Closes, at `commit_num`, every current version of `key` in `table` that
/// `service_id` admits.
pub fn close_current_versions<R: VersionedRow>(
    table: &mut Vec<R>,
    key: &Vec<String>,
    scope: &EndingScope,
    commit_num: i64,
)
    ensures
        views(final(table)@) == close_versions(
            views(old(table)@),
            strings_view(key@),
            ending_service(*scope),
            commit_num,
        ),
{
    let ghost key_view = strings_view(key@);
    let ghost svc = ending_service(*scope);
    let n = table.len();
    let mut i: usize = 0;
    while i < n
        invariant
            n == table.len(),
            n == old(table)@.len(),
            i <= n,
            key_view == strings_view(key@),
            svc == ending_service(*scope),
            forall|j: int|
                0 <= j < i ==> #[trigger] table@[j]@ == (if is_closed_by(old(table)@[j]@, key_view, svc) {
                    old(table)@[j]@.closed_at(commit_num)
                } else {
                    old(table)@[j]@
                }),
            forall|j: int| i <= j < n ==> #[trigger] table@[j] == old(table)@[j],
        decreases n - i,
    {
        let closes = table[i].has_version_key(key) && table[i].end_commit_num() == MAX_COMMIT_NUM
            && scope.admits(&table[i].service_id_copy());
        if closes {
            let closed = table[i].close_at(commit_num);
            table.set(i, closed);
        }
        i = i + 1;
    }
    assert(views(table@) =~= close_versions(views(old(table)@), key_view, svc, commit_num));
}

/// Writes `batch` into `table`: for each new row in turn, closes the current
/// versions it supersedes, then appends the whole batch.
pub fn insert_new_versions<R: VersionedRow>(table: &mut Vec<R>, batch: &[R])
    ensures
        views(final(table)@) == insert_versions(views(old(table)@), views(batch@)),
{
    let ghost b = views(batch@);
    let mut i: usize = 0;
    while i < batch.len()
        invariant
            i <= batch@.len(),
            b == views(batch@),
            views(table@) == close_for_batch(views(old(table)@), b.take(i as int)),
        decreases batch.len() - i,
    {
        let row = &batch[i];
        let key = row.version_key_strings();
        let service_id = row.service_id_copy();
        let scope = ending_scope_of(&service_id);
        let commit_num = row.start_commit_num();
        close_current_versions(table, &key, &scope, commit_num);
        assert(b.take(i + 1).drop_last() =~= b.take(i as int));
        i = i + 1;
    }
    assert(b.take(b.len() as int) =~= b);
    let ghost closed = views(table@);
    let mut j: usize = 0;
    while j < batch.len()
        invariant
            j <= batch@.len(),
            b == views(batch@),
            closed == close_for_batch(views(old(table)@), b),
            views(table@) == closed + b.take(j as int),
        decreases batch.len() - j,
    {
        let ghost before = table@;
        table.push(batch[j].copy_row());
        assert(views(table@) =~= views(before) + seq![batch@[j as int]@]);
        assert(closed + b.take(j + 1) =~= closed + b.take(j as int) + seq![b[j as int]]);
        j = j + 1;
    }
    assert(b.take(b.len() as int) =~= b);
}

/// Whether `ids` holds `s`.
pub fn contains_string(ids: &[String], s: &String) -> (r: bool)
    ensures
        r == strings_view(ids@).contains(s@),
{
    let mut i: usize = 0;
    while i < ids.len()
        invariant
            i <= ids@.len(),
            forall|j: int| 0 <= j < i ==> ids@[j]@ != s@,
        decreases ids.len() - i,
    {
        if string_eq(&ids[i], s) {
            assert(strings_view(ids@)[i as int] == s@);
            return true;
        }
        i = i + 1;
    }
    proof {
        if strings_view(ids@).contains(s@) {
            let k = choose|k: int| 0 <= k < strings_view(ids@).len() && strings_view(ids@)[k] == s@;
            assert(ids@[k]@ == s@);
        }
    }
    false
}

/// The current versions in `table` of the records `ids` for `service_id`.
pub fn list_current_versions<R: VersionedRow>(
    table: &Vec<R>,
    ids: &[String],
    scope: &ListingScope,
) -> (r: Vec<R>)
    ensures
        views(r@) == listed_versions(views(table@), strings_view(ids@), listing_service(*scope)),
{
    let ghost service_id = listing_service(*scope);
    let ghost pred = listing::<R::V>(strings_view(ids@), service_id);
    let ghost t = views(table@);
    let mut r: Vec<R> = Vec::new();
    let mut i: usize = 0;
    while i < table.len()
        invariant
            i <= table@.len(),
            t == views(table@),
            service_id == listing_service(*scope),
            pred == listing::<R::V>(strings_view(ids@), service_id),
            views(r@) == t.take(i as int).filter(pred),
        decreases table.len() - i,
    {
        let row = &table[i];
        let keep = row.end_commit_num() == MAX_COMMIT_NUM && contains_string(ids, row.record_id_ref())
            && scope.admits(&row.service_id_copy());
        proof {
            t.take(i as int).lemma_filter_push(t[i as int], pred);
            assert(t.take(i + 1) =~= t.take(i as int).push(t[i as int]));
        }
        if keep {
            let ghost before = r@;
            r.push(row.copy_row());
            assert(views(r@) =~= views(before).push(t[i as int]));
        }
        i = i + 1;
    }
    assert(t.take(t.len() as int) =~= t);
    r
}

/// The current versions in `table` for `service_id`.
pub fn list_current_for_service<R: VersionedRow>(
    table: &Vec<R>,
    scope: &ListingScope,
) -> (r: Vec<R>)
    ensures
        views(r@) == views(table@).filter(listing_for_service::<R::V>(listing_service(*scope))),
{
    let ghost service_id = listing_service(*scope);
    let ghost pred = listing_for_service::<R::V>(service_id);
    let ghost t = views(table@);
    let mut r: Vec<R> = Vec::new();
    let mut i: usize = 0;
    while i < table.len()
        invariant
            i <= table@.len(),
            t == views(table@),
            service_id == listing_service(*scope),
            pred == listing_for_service::<R::V>(service_id),
            views(r@) == t.take(i as int).filter(pred),
        decreases table.len() - i,
    {
        let row = &table[i];
        let keep = row.end_commit_num() == MAX_COMMIT_NUM && scope.admits(&row.service_id_copy());
        proof {
            t.take(i as int).lemma_filter_push(t[i as int], pred);
            assert(t.take(i + 1) =~= t.take(i as int).push(t[i as int]));
        }
        if keep {
            let ghost before = r@;
            r.push(row.copy_row());
            assert(views(r@) =~= views(before).push(t[i as int]));
        }
        i = i + 1;
    }
    assert(t.take(t.len() as int) =~= t);
    r
}

} // verus!
