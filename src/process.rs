//! Process records of one snapshot, and their one-line table form.

use vstd::prelude::*;
use crate::text::{decimal, decimal_text, join_texts, joined, signed_decimal, texts};

verus! {

/// One process at snapshot time. CPU usage is kept in hundredths of a
/// percent (`1234` is 12.34%).
#[derive(Clone, Debug)]
pub struct ProcessInfo {
    pub pid: i32,
    pub name: String,
    pub cmd: Vec<String>,
    pub exe: String,
    pub status: String,
    pub cpu_usage_centi: u64,
    pub memory: u64,
    pub virtual_memory: u64,
    pub parent_pid: Option<i32>,
    pub start_time: u64,
    pub cwd: String,
    pub ports: Vec<u16>,
}

/// The mathematical value of a `ProcessInfo`.
pub struct ProcessRecord {
    pub pid: int,
    pub name: Seq<char>,
    pub cmd: Seq<Seq<char>>,
    pub exe: Seq<char>,
    pub status: Seq<char>,
    pub cpu_usage_centi: nat,
    pub memory: nat,
    pub virtual_memory: nat,
    pub parent_pid: Option<int>,
    pub start_time: nat,
    pub cwd: Seq<char>,
    pub ports: Seq<u16>,
}

impl View for ProcessInfo {
    type V = ProcessRecord;

    open spec fn view(&self) -> ProcessRecord {
        ProcessRecord {
            pid: self.pid as int,
            name: self.name@,
            cmd: texts(self.cmd@),
            exe: self.exe@,
            status: self.status@,
            cpu_usage_centi: self.cpu_usage_centi as nat,
            memory: self.memory as nat,
            virtual_memory: self.virtual_memory as nat,
            parent_pid: match self.parent_pid {
                Some(p) => Some(p as int),
                None => None,
            },
            start_time: self.start_time as nat,
            cwd: self.cwd@,
            ports: self.ports@,
        }
    }
}

/// The values of a sequence of records.
pub open spec fn views(s: Seq<ProcessInfo>) -> Seq<ProcessRecord> {
    s.map_values(|p: ProcessInfo| p@)
}

/// A copy of a list of strings.
fn copy_texts(v: &Vec<String>) -> (r: Vec<String>)
    ensures
        texts(r@) == texts(v@),
{
    let mut r: Vec<String> = Vec::new();
    let mut i: usize = 0;
    while i < v.len()
        invariant
            i <= v.len(),
            texts(r@) =~= texts(v@.subrange(0, i as int)),
        decreases v.len() - i,
    {
        let ghost prev = r@;
        r.push(v[i].clone());
        proof {
            assert(v@.subrange(0, i + 1) =~= v@.subrange(0, i as int).push(v@[i as int]));
            assert(r@ =~= prev.push(v@[i as int]));
            assert(texts(prev.push(v@[i as int])) =~= texts(prev).push(v@[i as int]@));
            assert(texts(v@.subrange(0, i as int).push(v@[i as int])) =~= texts(
                v@.subrange(0, i as int),
            ).push(v@[i as int]@));
        }
        i = i + 1;
    }
    assert(v@.subrange(0, v.len() as int) =~= v@);
    r
}

/// A copy of a list of ports.
fn copy_ports(v: &Vec<u16>) -> (r: Vec<u16>)
    ensures
        r@ == v@,
{
    let mut r: Vec<u16> = Vec::new();
    let mut i: usize = 0;
    while i < v.len()
        invariant
            i <= v.len(),
            r@ =~= v@.subrange(0, i as int),
        decreases v.len() - i,
    {
        r.push(v[i]);
        i = i + 1;
    }
    r
}

impl ProcessInfo {
    /// A copy with the same value.
    pub fn duplicate(&self) -> (r: ProcessInfo)
        ensures
            r@ == self@,
    {
        ProcessInfo {
            pid: self.pid,
            name: self.name.clone(),
            cmd: copy_texts(&self.cmd),
            exe: self.exe.clone(),
            status: self.status.clone(),
            cpu_usage_centi: self.cpu_usage_centi,
            memory: self.memory,
            virtual_memory: self.virtual_memory,
            parent_pid: self.parent_pid,
            start_time: self.start_time,
            cwd: self.cwd.clone(),
            ports: copy_ports(&self.ports),
        }
    }
}

/// The table form of a record: pid, name, ports joined with ", ", and the
/// command line joined with single spaces.
#[derive(Clone, Debug)]
pub struct DisplayProcessInfo {
    pub pid: i32,
    pub name: String,
    pub ports: String,
    pub command: String,
}

/// The decimal texts of a list of ports.
pub open spec fn port_texts(ports: Seq<u16>) -> Seq<Seq<char>> {
    ports.map_values(|p: u16| decimal(p as nat))
}

/// The ports of a record as decimal texts.
fn port_strings(ports: &Vec<u16>) -> (r: Vec<String>)
    ensures
        texts(r@) == port_texts(ports@),
{
    let mut r: Vec<String> = Vec::new();
    let mut i: usize = 0;
    while i < ports.len()
        invariant
            i <= ports.len(),
            texts(r@) =~= port_texts(ports@.subrange(0, i as int)),
        decreases ports.len() - i,
    {
        let t = decimal_text(ports[i] as i64);
        let ghost prev = r@;
        r.push(t);
        proof {
            let sub = ports@.subrange(0, i as int);
            assert(ports@.subrange(0, i + 1) =~= sub.push(ports@[i as int]));
            assert(texts(prev.push(t)) =~= texts(prev).push(t@));
            assert(port_texts(sub.push(ports@[i as int])) =~= port_texts(sub).push(
                decimal(ports@[i as int] as nat),
            ));
        }
        i = i + 1;
    }
    assert(ports@.subrange(0, ports.len() as int) =~= ports@);
    r
}

impl DisplayProcessInfo {
    /// The table form of `p`.
    pub fn from(p: &ProcessInfo) -> (r: DisplayProcessInfo)
        ensures
            r.pid == p.pid,
            r.name@ == p.name@,
            r.ports@ == joined(port_texts(p.ports@), ", "@),
            r.command@ == joined(texts(p.cmd@), " "@),
    {
        let ports = port_strings(&p.ports);
        DisplayProcessInfo {
            pid: p.pid,
            name: p.name.clone(),
            ports: join_texts(&ports, ", "),
            command: join_texts(&p.cmd, " "),
        }
    }
}

} // verus!
