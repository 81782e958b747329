//! Homogeneity checks and the summary line of each component kind.
//!
//! A list is homogeneous when every record agrees with the first one on the
//! fields the line shows for the group (processors: name; memory: capacity
//! and speed; disks: media type and size). One record is always a group of
//! its own; an empty list gives an empty line.
use vstd::prelude::*;
use vstd::string::*;
use crate::decimal::{dec, decimal};
use crate::model::{Cpu, Disk, Hardware, Memory};

verus! {

/// Every processor has the name of the first one.
pub open spec fn cpus_same(s: Seq<Cpu>) -> bool {
    forall|i: int| 0 <= i < s.len() ==> (#[trigger] s[i]).name@ == s[0].name@
}

/// Every module has the capacity and speed of the first one.
pub open spec fn memories_same(s: Seq<Memory>) -> bool {
    forall|i: int| 0 <= i < s.len() ==> (#[trigger] s[i]).capacity == s[0].capacity && s[i].speed == s[0].speed
}

/// Every disk has the media type and size of the first one.
pub open spec fn disks_same(s: Seq<Disk>) -> bool {
    forall|i: int| 0 <= i < s.len() ==> (#[trigger] s[i]).media_type@ == s[0].media_type@ && s[i].size == s[0].size
}

/// "name,C核T线程": the description shared by a homogeneous group.
pub open spec fn cpu_desc(c: Cpu) -> Seq<char> {
    c.name@ + ","@ + dec(c.number_of_cores as nat) + "核"@ + dec(
        c.number_of_logical_processors as nat,
    ) + "线程"@
}

/// "name C核T线程,": one processor of an itemised line.
pub open spec fn cpu_item(c: Cpu) -> Seq<char> {
    c.name@ + " "@ + dec(c.number_of_cores as nat) + "核"@ + dec(
        c.number_of_logical_processors as nat,
    ) + "线程,"@
}

pub open spec fn cpu_items(s: Seq<Cpu>) -> Seq<char>
    decreases s.len(),
{
    if s.len() == 0 {
        seq![]
    } else {
        cpu_items(s.drop_last()) + cpu_item(s.last())
    }
}

/// The processor line: "n * description" for a non-empty homogeneous list,
/// else each processor in turn.
pub open spec fn cpu_report(s: Seq<Cpu>) -> Seq<char> {
    if s.len() > 0 && cpus_same(s) {
        dec(s.len()) + " * "@ + cpu_desc(s[0])
    } else {
        cpu_items(s)
    }
}

/// "CGB,SMHz,type".
pub open spec fn memory_desc(m: Memory) -> Seq<char> {
    dec(m.capacity as nat) + "GB,"@ + dec(m.speed as nat) + "MHz,"@ + m.memory_type@
}

/// "CGB SMHz type,".
pub open spec fn memory_item(m: Memory) -> Seq<char> {
    dec(m.capacity as nat) + "GB "@ + dec(m.speed as nat) + "MHz "@ + m.memory_type@ + ","@
}

pub open spec fn memory_items(s: Seq<Memory>) -> Seq<char>
    decreases s.len(),
{
    if s.len() == 0 {
        seq![]
    } else {
        memory_items(s.drop_last()) + memory_item(s.last())
    }
}

/// The memory line, in the way of `cpu_report`.
pub open spec fn memory_report(s: Seq<Memory>) -> Seq<char> {
    if s.len() > 0 && memories_same(s) {
        dec(s.len()) + " * "@ + memory_desc(s[0])
    } else {
        memory_items(s)
    }
}

/// "SGB,media".
pub open spec fn disk_desc(d: Disk) -> Seq<char> {
    dec(d.size as nat) + "GB,"@ + d.media_type@
}

/// "SGB media,".
pub open spec fn disk_item(d: Disk) -> Seq<char> {
    dec(d.size as nat) + "GB "@ + d.media_type@ + ","@
}

pub open spec fn disk_items(s: Seq<Disk>) -> Seq<char>
    decreases s.len(),
{
    if s.len() == 0 {
        seq![]
    } else {
        disk_items(s.drop_last()) + disk_item(s.last())
    }
}

/// The disk line, in the way of `cpu_report`.
pub open spec fn disk_report(s: Seq<Disk>) -> Seq<char> {
    if s.len() > 0 && disks_same(s) {
        dec(s.len()) + " * "@ + disk_desc(s[0])
    } else {
        disk_items(s)
    }
}

impl Hardware {
    fn check_cpu_same(&self) -> (r: bool)
        ensures
            r == cpus_same(self.c@),
    {
        let n = self.c.len();
        if n == 0 {
            return true;
        }
        let mut i: usize = 1;
        while i < n
            invariant
                n == self.c@.len(),
                1 <= i <= n,
                forall|j: int| 0 <= j < i ==> (#[trigger] self.c@[j]).name@ == self.c@[0].name@,
            decreases n - i,
        {
            if self.c[i].name != self.c[0].name {
                return false;
            }
            i = i + 1;
        }
        true
    }

    /// The processor line of the report.
    pub fn get_cpu(&self) -> (r: String)
        ensures
            r@ == cpu_report(self.c@),
    {
        if self.c.len() > 0 && self.check_cpu_same() {
            let first = &self.c[0];
            let mut s = decimal(self.c.len() as u64);
            s.append(" * ");
            s.append(first.name.as_str());
            s.append(",");
            s.append(decimal(first.number_of_cores as u64).as_str());
            s.append("核");
            s.append(decimal(first.number_of_logical_processors as u64).as_str());
            s.append("线程");
            assert(s@ =~= cpu_report(self.c@));
            return s;
        }
        let mut s = String::new();
        let mut i: usize = 0;
        while i < self.c.len()
            invariant
                i <= self.c@.len(),
                s@ == cpu_items(self.c@.subrange(0, i as int)),
            decreases self.c@.len() - i,
        {
            let c = &self.c[i];
            s.append(c.name.as_str());
            s.append(" ");
            s.append(decimal(c.number_of_cores as u64).as_str());
            s.append("核");
            s.append(decimal(c.number_of_logical_processors as u64).as_str());
            s.append("线程,");
            assert(self.c@.subrange(0, i + 1).drop_last() =~= self.c@.subrange(0, i as int));
            assert(s@ =~= cpu_items(self.c@.subrange(0, i + 1)));
            i = i + 1;
        }
        assert(self.c@.subrange(0, i as int) =~= self.c@);
        s
    }

    fn check_memory_same(&self) -> (r: bool)
        ensures
            r == memories_same(self.m@),
    {
        let n = self.m.len();
        if n == 0 {
            return true;
        }
        let capacity = self.m[0].capacity;
        let speed = self.m[0].speed;
        let mut i: usize = 1;
        while i < n
            invariant
                n == self.m@.len(),
                1 <= i <= n,
                capacity == self.m@[0].capacity,
                speed == self.m@[0].speed,
                forall|j: int|
                    0 <= j < i ==> (#[trigger] self.m@[j]).capacity == capacity && self.m@[j].speed == speed,
            decreases n - i,
        {
            if self.m[i].capacity != capacity || self.m[i].speed != speed {
                return false;
            }
            i = i + 1;
        }
        true
    }

    /// The memory line of the report.
    pub fn get_memory(&self) -> (r: String)
        ensures
            r@ == memory_report(self.m@),
    {
        if self.m.len() > 0 && self.check_memory_same() {
            let first = &self.m[0];
            let mut s = decimal(self.m.len() as u64);
            s.append(" * ");
            s.append(decimal(first.capacity).as_str());
            s.append("GB,");
            s.append(decimal(first.speed as u64).as_str());
            s.append("MHz,");
            s.append(first.memory_type.as_str());
            assert(s@ =~= memory_report(self.m@));
            return s;
        }
        let mut s = String::new();
        let mut i: usize = 0;
        while i < self.m.len()
            invariant
                i <= self.m@.len(),
                s@ == memory_items(self.m@.subrange(0, i as int)),
            decreases self.m@.len() - i,
        {
            let m = &self.m[i];
            s.append(decimal(m.capacity).as_str());
            s.append("GB ");
            s.append(decimal(m.speed as u64).as_str());
            s.append("MHz ");
            s.append(m.memory_type.as_str());
            s.append(",");
            assert(self.m@.subrange(0, i + 1).drop_last() =~= self.m@.subrange(0, i as int));
            assert(s@ =~= memory_items(self.m@.subrange(0, i + 1)));
            i = i + 1;
        }
        assert(self.m@.subrange(0, i as int) =~= self.m@);
        s
    }

    fn check_disk_same(&self) -> (r: bool)
        ensures
            r == disks_same(self.d@),
    {
        let n = self.d.len();
        if n == 0 {
            return true;
        }
        let mut i: usize = 1;
        while i < n
            invariant
                n == self.d@.len(),
                1 <= i <= n,
                forall|j: int|
                    0 <= j < i ==> (#[trigger] self.d@[j]).media_type@ == self.d@[0].media_type@
                        && self.d@[j].size == self.d@[0].size,
            decreases n - i,
        {
            if self.d[i].media_type != self.d[0].media_type || self.d[i].size != self.d[0].size {
                return false;
            }
            i = i + 1;
        }
        true
    }

    /// The disk line of the report.
    pub fn get_disk(&self) -> (r: String)
        ensures
            r@ == disk_report(self.d@),
    {
        if self.d.len() > 0 && self.check_disk_same() {
            let first = &self.d[0];
            let mut s = decimal(self.d.len() as u64);
            s.append(" * ");
            s.append(decimal(first.size).as_str());
            s.append("GB,");
            s.append(first.media_type.as_str());
            assert(s@ =~= disk_report(self.d@));
            return s;
        }
        let mut s = String::new();
        let mut i: usize = 0;
        while i < self.d.len()
            invariant
                i <= self.d@.len(),
                s@ == disk_items(self.d@.subrange(0, i as int)),
            decreases self.d@.len() - i,
        {
            let d = &self.d[i];
            s.append(decimal(d.size).as_str());
            s.append("GB ");
            s.append(d.media_type.as_str());
            s.append(",");
            assert(self.d@.subrange(0, i + 1).drop_last() =~= self.d@.subrange(0, i as int));
            assert(s@ =~= disk_items(self.d@.subrange(0, i + 1)));
            i = i + 1;
        }
        assert(self.d@.subrange(0, i as int) =~= self.d@);
        s
    }
}

} // verus!
