//! The filter engine: case-insensitive substring search over a snapshot.

use vstd::prelude::*;
use crate::process::{views, ProcessInfo, ProcessRecord};
use crate::text::{
    contains_text, decimal_text, lemma_empty_occurs, lower_of, lowercase, occurs_in,
    signed_decimal, texts,
};

verus! {

/// Whether `q` occurs in one of `fields`.
pub open spec fn occurs_in_any(q: Seq<char>, fields: Seq<Seq<char>>) -> bool {
    exists|i: int| 0 <= i < fields.len() && occurs_in(q, #[trigger] fields[i])
}

/// The lowercased name of a record followed by its lowercased command arguments.
pub open spec fn folded_fields(r: ProcessRecord) -> Seq<Seq<char>> {
    seq![lower_of(r.name)] + r.cmd.map_values(|a: Seq<char>| lower_of(a))
}

/// A record matches a lowercased query on its name or one of its arguments.
pub open spec fn name_hit(r: ProcessRecord, q: Seq<char>) -> bool {
    occurs_in_any(q, folded_fields(r))
}

/// A record matches a lowercased query on its pid text, its name or one of its arguments.
pub open spec fn record_hit(r: ProcessRecord, q: Seq<char>) -> bool {
    occurs_in(q, signed_decimal(r.pid)) || name_hit(r, q)
}

/// The records that match a lowercased query on pid, name or arguments, in their order.
pub open spec fn record_matches(records: Seq<ProcessRecord>, q: Seq<char>) -> Seq<ProcessRecord> {
    records.filter(|r: ProcessRecord| record_hit(r, q))
}

/// Whether `query` occurs in one of `fields`; the caller folds the case of both.
pub fn occurs_in_any_field(fields: &Vec<String>, query: &str) -> (r: bool)
    ensures
        r == occurs_in_any(query@, texts(fields@)),
{
    let mut i: usize = 0;
    while i < fields.len()
        invariant
            i <= fields.len(),
            forall|j: int| 0 <= j < i ==> !occurs_in(query@, #[trigger] texts(fields@)[j]),
        decreases fields.len() - i,
    {
        if contains_text(fields[i].as_str(), query) {
            assert(occurs_in(query@, texts(fields@)[i as int]));
            return true;
        }
        i = i + 1;
    }
    false
}

/// The lowercased name and arguments of `p`.
fn fold_fields(p: &ProcessInfo) -> (r: Vec<String>)
    ensures
        texts(r@) == folded_fields(p@),
{
    let mut r: Vec<String> = Vec::new();
    r.push(lowercase(p.name.as_str()));
    let mut i: usize = 0;
    while i < p.cmd.len()
        invariant
            i <= p.cmd.len(),
            texts(r@) =~= folded_fields(p@).subrange(0, i + 1),
        decreases p.cmd.len() - i,
    {
        let ghost prev = r@;
        let a = lowercase(p.cmd[i].as_str());
        r.push(a);
        proof {
            assert(texts(prev.push(a)) =~= texts(prev).push(a@));
            assert(folded_fields(p@).subrange(0, i + 2) =~= folded_fields(p@).subrange(
                0,
                i + 1,
            ).push(a@));
        }
        i = i + 1;
    }
    assert(folded_fields(p@).subrange(0, p.cmd.len() + 1) =~= folded_fields(p@));
    r
}

/// Whether `p` matches the lowercased `query` on its name or arguments.
pub fn name_matches_folded(p: &ProcessInfo, query: &str) -> (r: bool)
    ensures
        r == name_hit(p@, query@),
{
    let fields = fold_fields(p);
    occurs_in_any_field(&fields, query)
}

/// Whether `p` matches the lowercased `query` on its pid text, name or arguments.
pub fn record_matches_folded(p: &ProcessInfo, query: &str) -> (r: bool)
    ensures
        r == record_hit(p@, query@),
{
    let pid_text = decimal_text(p.pid as i64);
    if contains_text(pid_text.as_str(), query) {
        return true;
    }
    name_matches_folded(p, query)
}

/// The records whose pid text, name or one of whose arguments contains
/// `keyword`, case folded, in their order in `processes`.
pub fn filter_processes_by_name<'a>(processes: &'a [ProcessInfo], keyword: &str) -> (r: Vec<
    &'a ProcessInfo,
>)
    ensures
        r@.map_values(|p: &ProcessInfo| p@) == record_matches(views(processes@), lower_of(keyword@)),
{
    let q = lowercase(keyword);
    let mut out: Vec<&'a ProcessInfo> = Vec::new();
    let mut i: usize = 0;
    while i < processes.len()
        invariant
            i <= processes.len(),
            q@ == lower_of(keyword@),
            out@.map_values(|p: &ProcessInfo| p@) == record_matches(
                views(processes@.subrange(0, i as int)),
                q@,
            ),
        decreases processes.len() - i,
    {
        let ghost prev = out@;
        let p = &processes[i];
        let hit = record_matches_folded(p, q.as_str());
        if hit {
            out.push(p);
        }
        proof {
            let pre = views(processes@.subrange(0, i as int));
            let next = views(processes@.subrange(0, i + 1));
            assert(next.drop_last() =~= pre);
            assert(next.last() == processes@[i as int]@);
            reveal(Seq::filter);
            if hit {
                assert(out@.map_values(|p: &ProcessInfo| p@) =~= prev.map_values(
                    |p: &ProcessInfo| p@,
                ).push(p@));
            }
        }
        i = i + 1;
    }
    assert(processes@.subrange(0, processes.len() as int) =~= processes@);
    out
}

/// The records that match `keyword` on pid, name or arguments, case folded,
/// copied in their order in `processes`. The empty keyword keeps every record.
pub fn apply_filter(processes: &[ProcessInfo], keyword: &str) -> (r: Vec<ProcessInfo>)
    ensures
        views(r@) == record_matches(views(processes@), lower_of(keyword@)),
        keyword@.len() == 0 ==> views(r@) == views(processes@),
{
    let q = lowercase(keyword);
    proof {
        if keyword@.len() == 0 {
            assert(q@ =~= Seq::<char>::empty());
            lemma_empty_query_keeps_all(views(processes@));
        }
    }
    let mut out: Vec<ProcessInfo> = Vec::new();
    let mut i: usize = 0;
    while i < processes.len()
        invariant
            i <= processes.len(),
            q@ == lower_of(keyword@),
            views(out@) == record_matches(views(processes@.subrange(0, i as int)), q@),
        decreases processes.len() - i,
    {
        let ghost prev = out@;
        let p = &processes[i];
        let hit = record_matches_folded(p, q.as_str());
        if hit {
            out.push(p.duplicate());
        }
        proof {
            let pre = views(processes@.subrange(0, i as int));
            let next = views(processes@.subrange(0, i + 1));
            assert(next.drop_last() =~= pre);
            assert(next.last() == processes@[i as int]@);
            reveal(Seq::filter);
            if hit {
                assert(views(out@) =~= views(prev).push(p@));
            }
        }
        i = i + 1;
    }
    assert(processes@.subrange(0, processes.len() as int) =~= processes@);
    out
}

/// Filtering an already filtered list again with the same query changes nothing.
pub proof fn lemma_filter_idempotent(records: Seq<ProcessRecord>, query: Seq<char>)
    ensures
        record_matches(record_matches(records, lower_of(query)), lower_of(query))
            == record_matches(records, lower_of(query)),
{
    lemma_filter_twice(records, |r: ProcessRecord| record_hit(r, lower_of(query)));
}

/// A filter applied to its own result keeps it as it is.
proof fn lemma_filter_twice(s: Seq<ProcessRecord>, f: spec_fn(ProcessRecord) -> bool)
    ensures
        s.filter(f).filter(f) == s.filter(f),
    decreases s.len(),
{
    reveal(Seq::filter);
    if s.len() > 0 {
        lemma_filter_twice(s.drop_last(), f);
        if f(s.last()) {
            let t = s.filter(f);
            assert(t.drop_last() =~= s.drop_last().filter(f));
        }
    }
}

/// The empty query keeps every record, in order.
pub proof fn lemma_empty_query_keeps_all(records: Seq<ProcessRecord>)
    ensures
        record_matches(records, Seq::empty()) == records,
    decreases records.len(),
{
    reveal(Seq::filter);
    if records.len() > 0 {
        lemma_empty_query_keeps_all(records.drop_last());
        lemma_empty_occurs(signed_decimal(records.last().pid));
        assert(records.drop_last().push(records.last()) =~= records);
    }
}

} // verus!
