//! Which process listens on which TCP port, read from the listing of
//! `lsof -iTCP -sTCP:LISTEN -nP`.

use std::collections::HashMap;
use vstd::prelude::*;
use crate::process::{views, ProcessInfo, ProcessRecord};
use crate::scan::{
    parse_unsigned, parsed_unsigned, pieces, split_ranges, texts_at, word_ranges, words, Sep,
};
use crate::text::chars_of;
use vstd::std_specs::hash::spec_hash_map_iter;
use vstd::std_specs::iter::IteratorSpec;

verus! {

/// The port and pid a listing line gives: at least nine words, the pid in the
/// second (0 when it is no number), the port after the last ':' of the ninth.
pub open spec fn line_entry(line: Seq<char>) -> Option<(u16, u32)> {
    let w = words(line);
    if w.len() < 9 {
        None
    } else {
        let pid: u32 = match parsed_unsigned(w[1], u32::MAX as nat) {
            Some(v) => v as u32,
            None => 0u32,
        };
        match parsed_unsigned(pieces(w[8], Sep::Colon).last(), u16::MAX as nat) {
            Some(port) => Some((port as u16, pid)),
            None => None,
        }
    }
}

/// The map built from listing lines in order; a later line for the same port wins.
pub open spec fn entries_map(lines: Seq<Seq<char>>) -> Map<u16, u32>
    decreases lines.len(),
{
    if lines.len() == 0 {
        Map::empty()
    } else {
        let m = entries_map(lines.drop_last());
        match line_entry(lines.last()) {
            Some((port, pid)) => m.insert(port, pid),
            None => m,
        }
    }
}

/// The lines of a listing after its header line. A last empty piece after a
/// final line feed yields no entry, like any other line without words.
pub open spec fn listing_lines(output: Seq<char>) -> Seq<Seq<char>> {
    pieces(output, Sep::Newline).drop_first()
}

/// The entry of the line `chars[lo..hi]`.
fn entry_at(chars: &Vec<char>, lo: usize, hi: usize) -> (r: Option<(u16, u32)>)
    requires
        lo <= hi <= chars.len(),
    ensures
        r == line_entry(chars@.subrange(lo as int, hi as int)),
{
    let ghost w = words(chars@.subrange(lo as int, hi as int));
    let ws = word_ranges(chars, lo, hi);
    assert(texts_at(chars@, ws@).len() == ws.len());
    if ws.len() < 9 {
        return None;
    }
    let (pa, pb) = ws[1];
    assert(w[1] == chars@.subrange(pa as int, pb as int));
    let pid: u32 = match parse_unsigned(chars, pa, pb, 0xFFFF_FFFF) {
        Some(v) => v as u32,
        None => 0,
    };
    let (fa, fb) = ws[8];
    assert(w[8] == chars@.subrange(fa as int, fb as int));
    let parts = split_ranges(chars, fa, fb, Sep::Colon);
    let (ta, tb) = parts[parts.len() - 1];
    assert(texts_at(chars@, parts@).last() == chars@.subrange(ta as int, tb as int));
    match parse_unsigned(chars, ta, tb, 0xFFFF) {
        Some(port) => Some((port as u16, pid)),
        None => None,
    }
}

/// Builds the map from port to pid out of an lsof listing: each line after the
/// header with at least nine words gives the port after the last ':' of its
/// ninth word, when that is a number that fits 16 bits, and the pid in its
/// second word (0 when that is no number).
pub fn parse_lsof_output(output: &str) -> (r: HashMap<u16, u32>)
    ensures
        r@ == entries_map(listing_lines(output@)),
{
    broadcast use vstd::std_specs::hash::group_hash_axioms;

    let chars = chars_of(output);
    let lines = split_ranges(&chars, 0, chars.len(), Sep::Newline);
    let ghost all = texts_at(chars@, lines@);
    proof {
        assert(chars@.subrange(0, chars.len() as int) =~= output@);
    }
    let mut map: HashMap<u16, u32> = HashMap::new();
    let mut i: usize = 1;
    while i < lines.len()
        invariant
            1 <= i <= lines.len(),
            all == texts_at(chars@, lines@),
            all == pieces(output@, Sep::Newline),
            forall|m: int|
                0 <= m < lines.len() ==> 0 <= #[trigger] lines@[m].0 <= lines@[m].1 <= chars.len(),
            map@ == entries_map(all.subrange(1, i as int)),
        decreases lines.len() - i,
    {
        let (a, b) = lines[i];
        let e = entry_at(&chars, a, b);
        proof {
            assert(all.subrange(1, i + 1).drop_last() =~= all.subrange(1, i as int));
            assert(all.subrange(1, i + 1).last() == chars@.subrange(a as int, b as int));
        }
        match e {
            Some((port, pid)) => {
                map.insert(port, pid);
            },
            None => {},
        }
        i = i + 1;
    }
    proof {
        assert(all.subrange(1, lines.len() as int) =~= all.drop_first());
    }
    map
}

/// The ports of `port_map` held by `pid`.
pub open spec fn ports_held(port_map: Map<u16, u32>, pid: i32) -> Set<u16> {
    Set::new(|p: u16| port_map.contains_key(p) && port_map[p] as int == pid as int)
}

/// The ports that `port_map` gives to `pid`, each once, in no particular order.
pub fn ports_for_pid(port_map: &HashMap<u16, u32>, pid: i32) -> (r: Vec<u16>)
    ensures
        r@.to_set() == ports_held(port_map@, pid),
        r@.no_duplicates(),
{
    broadcast use vstd::std_specs::hash::group_hash_axioms;

    let mut out: Vec<u16> = Vec::new();
    let ghost pairs = spec_hash_map_iter(port_map).remaining();
    let ghost mut n: int = 0;
    for kv in it: port_map.iter()
        invariant
            it.seq() == pairs,
            n == it.index(),
            pairs.no_duplicates(),
            pairs.len() == port_map@.dom().len(),
            forall|j: int|
                0 <= j < pairs.len() ==> port_map@.contains_key(*(#[trigger] pairs[j]).0)
                    && port_map@[*pairs[j].0] == *pairs[j].1,
            forall|p: u16|
                #![trigger out@.contains(p)]
                out@.contains(p) <==> exists|j: int|
                    0 <= j < n && *(#[trigger] pairs[j]).0 == p && *pairs[j].1 as int == pid as int,
            out@.no_duplicates(),
    {
        let (port, mapped) = kv;
        let ghost prev = out@;
        proof {
            assert(kv == pairs[n]);
        }
        if *mapped as i64 == pid as i64 {
            proof {
                assert(!out@.contains(*port)) by {
                    if out@.contains(*port) {
                        let j = choose|j: int|
                            0 <= j < n && *(#[trigger] pairs[j]).0 == *port && *pairs[j].1 as int
                                == pid as int;
                        assert(pairs[j] == pairs[n]);
                    }
                }
            }
            out.push(*port);
        }
        proof {
            let hit = *mapped as int == pid as int;
            assert(hit ==> out@ == prev.push(*port));
            assert(!hit ==> out@ == prev);
            n = n + 1;
            assert forall|p: u16| #[trigger] out@.contains(p) <==> exists|j: int|
                0 <= j < n && *(#[trigger] pairs[j]).0 == p && *pairs[j].1 as int == pid as int by {
                if out@.contains(p) {
                    let i = choose|i: int| 0 <= i < out@.len() && out@[i] == p;
                    if i < prev.len() {
                        assert(prev[i] == p);
                        assert(prev.contains(p));
                    } else {
                        assert(*pairs[n - 1].0 == p);
                    }
                }
                if exists|j: int|
                    0 <= j < n && *(#[trigger] pairs[j]).0 == p && *pairs[j].1 as int == pid as int {
                    let j = choose|j: int|
                        0 <= j < n && *(#[trigger] pairs[j]).0 == p && *pairs[j].1 as int
                            == pid as int;
                    if j < n - 1 {
                        assert(prev.contains(p));
                        let i = choose|i: int| 0 <= i < prev.len() && prev[i] == p;
                        assert(out@[i] == p);
                    } else {
                        assert(out@[prev.len() as int] == p);
                    }
                }
            }
        }
    }
    proof {
        assert(n == pairs.len());
        assert forall|p: u16| #[trigger] out@.to_set().contains(p) == ports_held(port_map@, pid).contains(p) by {
            if port_map@.contains_key(p) && port_map@[p] as int == pid as int {
                assert(pairs.contains((&p, &port_map@[p])));
                let j = choose|j: int| 0 <= j < pairs.len() && pairs[j] == (&p, &port_map@[p]);
                assert(out@.contains(p));
            }
        }
        assert(out@.to_set() =~= ports_held(port_map@, pid));
    }
    out
}

/// The records of `records` with pid `pid`.
pub open spec fn with_pid(records: Seq<ProcessRecord>, pid: u32) -> Seq<ProcessRecord> {
    records.filter(|r: ProcessRecord| r.pid == pid as int)
}

/// The records held by the process that `port_map` gives `port`, in order;
/// none when no process holds it.
pub fn select_by_port(processes: &[ProcessInfo], port_map: &HashMap<u16, u32>, port: u16) -> (r: Vec<
    ProcessInfo,
>)
    ensures
        views(r@) == if port_map@.contains_key(port) {
            with_pid(views(processes@), port_map@[port])
        } else {
            Seq::empty()
        },
{
    broadcast use vstd::std_specs::hash::group_hash_axioms;

    let mut out: Vec<ProcessInfo> = Vec::new();
    let pid = match port_map.get(&port) {
        Some(p) => *p,
        None => {
            assert(views(out@) =~= Seq::<ProcessRecord>::empty());
            return out;
        },
    };
    let mut i: usize = 0;
    while i < processes.len()
        invariant
            i <= processes.len(),
            port_map@.contains_key(port),
            pid == port_map@[port],
            views(out@) == with_pid(views(processes@.subrange(0, i as int)), pid),
        decreases processes.len() - i,
    {
        let ghost prev = out@;
        let p = &processes[i];
        let hit = p.pid as i64 == pid as i64;
        if hit {
            out.push(p.duplicate());
        }
        proof {
            let pre = views(processes@.subrange(0, i as int));
            let next = views(processes@.subrange(0, i + 1));
            assert(next.drop_last() =~= pre);
            assert(next.last() == processes@[i as int]@);
            reveal(Seq::filter);
            if hit {
                assert(views(out@) =~= views(prev).push(p@));
            }
        }
        i = i + 1;
    }
    assert(processes@.subrange(0, processes.len() as int) =~= processes@);
    out
}

} // verus!
