//! The compute side of the management-layer backend: resolving memory
//! type names, bucketing disk sizes, and joining the three responses.
use vstd::prelude::*;
use vstd::string::*;
use crate::model::{Disk, HardwareError, Memory, OptCPU, OptDisk, OptMemory, Win};
use crate::sizing::{get_memory_type, gib_of, memory_type_name, nearest_size, rounding};

verus! {

/// `r` is `m` with its type name taken from the table.
pub open spec fn named(r: Memory, m: Memory) -> bool {
    &&& r.capacity == m.capacity
    &&& r.speed == m.speed
    &&& r.memory_type_seq == m.memory_type_seq
    &&& r.memory_type@ == memory_type_name(m.memory_type_seq)
}

/// `r` is `d` with its byte count bucketed to a canonical size.
pub open spec fn bucketed(r: Disk, d: Disk) -> bool {
    &&& r.media_type == d.media_type
    &&& r.friendly_name == d.friendly_name
    &&& r.size as int == nearest_size(gib_of(d.size))
}

/// `r` is the memory response `m` with every module named.
pub open spec fn resolves_memory(r: OptMemory, m: OptMemory) -> bool {
    &&& (r is StructType) == (m is StructType)
    &&& r.list().len() == m.list().len()
    &&& forall|i: int| 0 <= i < m.list().len() ==> named(#[trigger] r.list()[i], m.list()[i])
}

/// `r` is the disk response `d` with every size bucketed.
pub open spec fn resolves_disk(r: OptDisk, d: OptDisk) -> bool {
    &&& (r is StructType) == (d is StructType)
    &&& r.list().len() == d.list().len()
    &&& forall|i: int| 0 <= i < d.list().len() ==> bucketed(#[trigger] r.list()[i], d.list()[i])
}

fn name_memory(m: &Memory) -> (r: Memory)
    ensures
        named(r, *m),
{
    Memory {
        capacity: m.capacity,
        speed: m.speed,
        memory_type_seq: m.memory_type_seq,
        memory_type: String::from_str(get_memory_type(m.memory_type_seq)),
    }
}

fn bucket_disk(d: &Disk) -> (r: Disk)
    ensures
        bucketed(r, *d),
{
    Disk {
        media_type: d.media_type.clone(),
        friendly_name: d.friendly_name.clone(),
        size: rounding(d.size),
    }
}

impl Win {
    /// Gives every module of a decoded memory response the name of its type
    /// code; the shape of the response is kept.
    pub fn resolve_memory(m: &OptMemory) -> (r: OptMemory)
        ensures
            resolves_memory(r, *m),
    {
        match m {
            OptMemory::StructType(one) => OptMemory::StructType(name_memory(one)),
            OptMemory::ArrayType(v) => {
                let mut out: Vec<Memory> = Vec::new();
                let mut i: usize = 0;
                while i < v.len()
                    invariant
                        i <= v@.len(),
                        out@.len() == i,
                        forall|j: int| 0 <= j < i ==> named(#[trigger] out@[j], v@[j]),
                    decreases v@.len() - i,
                {
                    out.push(name_memory(&v[i]));
                    i = i + 1;
                }
                OptMemory::ArrayType(out)
            },
        }
    }

    /// Buckets the size of every disk of a decoded disk response; the shape
    /// of the response is kept.
    pub fn resolve_disk(d: &OptDisk) -> (r: OptDisk)
        ensures
            resolves_disk(r, *d),
    {
        match d {
            OptDisk::StructType(one) => OptDisk::StructType(bucket_disk(one)),
            OptDisk::ArrayType(v) => {
                let mut out: Vec<Disk> = Vec::new();
                let mut i: usize = 0;
                while i < v.len()
                    invariant
                        i <= v@.len(),
                        out@.len() == i,
                        forall|j: int| 0 <= j < i ==> bucketed(#[trigger] out@[j], v@[j]),
                    decreases v@.len() - i,
                {
                    out.push(bucket_disk(&v[i]));
                    i = i + 1;
                }
                OptDisk::ArrayType(out)
            },
        }
    }

    /// Joins what the three query workers delivered, each matched to its own
    /// kind. The memory and disk responses are resolved on the way. Any
    /// failed worker fails the whole collection, with the error of the first
    /// failure in the order processors, memory, disks.
    pub fn build(
        cpu: Result<OptCPU, HardwareError>,
        memory: Result<OptMemory, HardwareError>,
        disk: Result<OptDisk, HardwareError>,
    ) -> (r: Result<Win, HardwareError>)
        ensures
            r is Ok <==> (cpu is Ok && memory is Ok && disk is Ok),
            cpu is Err ==> r == Err::<Win, HardwareError>(cpu->Err_0),
            cpu is Ok && memory is Err ==> r == Err::<Win, HardwareError>(memory->Err_0),
            cpu is Ok && memory is Ok && disk is Err ==> r == Err::<Win, HardwareError>(
                disk->Err_0,
            ),
            r is Ok ==> {
                let w = r->Ok_0;
                &&& w.c == cpu->Ok_0
                &&& resolves_memory(w.m, memory->Ok_0)
                &&& resolves_disk(w.d, disk->Ok_0)
            },
    {
        let c = match cpu {
            Ok(c) => c,
            Err(e) => return Err(e),
        };
        let m = match memory {
            Ok(m) => m,
            Err(e) => return Err(e),
        };
        let d = match disk {
            Ok(d) => d,
            Err(e) => return Err(e),
        };
        Ok(Win { c, m: Win::resolve_memory(&m), d: Win::resolve_disk(&d) })
    }
}

/// A single memory object and a list holding just that object resolve to
/// one module each, and the two modules agree on every field.
pub proof fn lemma_memory_shapes_resolve_alike(
    m: Memory,
    v: Vec<Memory>,
    from_single: OptMemory,
    from_list: OptMemory,
)
    requires
        v@ == seq![m],
        resolves_memory(from_single, OptMemory::StructType(m)),
        resolves_memory(from_list, OptMemory::ArrayType(v)),
    ensures
        from_single.list().len() == 1,
        from_list.list().len() == 1,
        from_single.list()[0].capacity == from_list.list()[0].capacity,
        from_single.list()[0].speed == from_list.list()[0].speed,
        from_single.list()[0].memory_type_seq == from_list.list()[0].memory_type_seq,
        from_single.list()[0].memory_type@ == from_list.list()[0].memory_type@,
{
    assert(named(from_single.list()[0], OptMemory::StructType(m).list()[0]));
    assert(named(from_list.list()[0], OptMemory::ArrayType(v).list()[0]));
}

/// A single disk object and a list holding just that object resolve to one
/// disk each, and the two disks agree on every field.
pub proof fn lemma_disk_shapes_resolve_alike(
    d: Disk,
    v: Vec<Disk>,
    from_single: OptDisk,
    from_list: OptDisk,
)
    requires
        v@ == seq![d],
        resolves_disk(from_single, OptDisk::StructType(d)),
        resolves_disk(from_list, OptDisk::ArrayType(v)),
    ensures
        from_single.list().len() == 1,
        from_list.list().len() == 1,
        from_single.list()[0] == from_list.list()[0],
{
    assert(bucketed(from_single.list()[0], OptDisk::StructType(d).list()[0]));
    assert(bucketed(from_list.list()[0], OptDisk::ArrayType(v).list()[0]));
}

} // verus!
