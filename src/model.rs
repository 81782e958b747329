//! Component records, the two response shapes, and the inventory.
use vstd::prelude::*;

verus! {

/// One physical processor package.
#[derive(Clone, Debug)]
pub struct Cpu {
    pub name: String,
    pub number_of_cores: u32,
    pub number_of_logical_processors: u32,
}

/// A processor response: one object, or a list of them.
#[derive(Debug)]
pub enum OptCPU {
    StructType(Cpu),
    ArrayType(Vec<Cpu>),
}

/// One physical memory module; `capacity` is in gigabytes, `speed` in MHz,
/// `memory_type_seq` the raw type code and `memory_type` its name.
#[derive(Clone, Debug)]
pub struct Memory {
    pub capacity: u64,
    pub speed: u32,
    pub memory_type_seq: u32,
    pub memory_type: String,
}

/// A memory response: one object, or a list of them.
#[derive(Debug)]
pub enum OptMemory {
    StructType(Memory),
    ArrayType(Vec<Memory>),
}

/// One physical storage device; `size` is in gigabytes once bucketed.
#[derive(Clone, Debug)]
pub struct Disk {
    pub media_type: String,
    pub friendly_name: String,
    pub size: u64,
}

/// A disk response: one object, or a list of them.
#[derive(Debug)]
pub enum OptDisk {
    StructType(Disk),
    ArrayType(Vec<Disk>),
}

/// The three responses of the management-layer backend, as decoded.
#[derive(Debug)]
pub struct Win {
    pub c: OptCPU,
    pub m: OptMemory,
    pub d: OptDisk,
}

/// The inventory: processors, memory modules and disks in collection order.
#[derive(Debug)]
pub struct Hardware {
    pub c: Vec<Cpu>,
    pub m: Vec<Memory>,
    pub d: Vec<Disk>,
}

/// The backend built on `sysctl`, the memory report tool and the disk utility.
#[derive(Debug)]
pub struct Mac;

/// The answers of the `sysctl`, memory report and disk utility tools.
#[derive(Clone, Debug)]
pub struct MacAnswers {
    pub brand: String,
    pub cores: String,
    pub threads: String,
    pub memory_report: String,
    pub disk_json: String,
}

/// What the backend of the current platform delivered.
#[derive(Debug)]
pub enum Backend {
    /// The three decoded responses of the management layer.
    Windows(Win),
    /// The text answers of the command-line tools.
    MacOs(MacAnswers),
}

/// Why a collection failed.
#[derive(Clone, Copy, Debug, PartialEq, Eq, Structural)]
pub enum HardwareError {
    /// An outside tool could not be started.
    Launch,
    /// A response matched no expected shape.
    Decode,
    /// A numeric field could not be read.
    Field,
}

impl OptCPU {
    /// The records of the response as one list.
    pub open spec fn list(self) -> Seq<Cpu> {
        match self {
            OptCPU::StructType(c) => seq![c],
            OptCPU::ArrayType(v) => v@,
        }
    }
}

impl OptMemory {
    /// The records of the response as one list.
    pub open spec fn list(self) -> Seq<Memory> {
        match self {
            OptMemory::StructType(m) => seq![m],
            OptMemory::ArrayType(v) => v@,
        }
    }
}

impl OptDisk {
    /// The records of the response as one list.
    pub open spec fn list(self) -> Seq<Disk> {
        match self {
            OptDisk::StructType(d) => seq![d],
            OptDisk::ArrayType(v) => v@,
        }
    }
}

impl Cpu {
    pub fn new(name: String, number_of_cores: u32, number_of_logical_processors: u32) -> (r: Cpu)
        ensures
            r.name == name,
            r.number_of_cores == number_of_cores,
            r.number_of_logical_processors == number_of_logical_processors,
    {
        Cpu { name, number_of_cores, number_of_logical_processors }
    }

    fn copy(&self) -> (r: Cpu)
        ensures
            r == *self,
    {
        Cpu {
            name: self.name.clone(),
            number_of_cores: self.number_of_cores,
            number_of_logical_processors: self.number_of_logical_processors,
        }
    }
}

impl Memory {
    pub fn new(capacity: u64, speed: u32, memory_type_seq: u32, memory_type: String) -> (r: Memory)
        ensures
            r.capacity == capacity,
            r.speed == speed,
            r.memory_type_seq == memory_type_seq,
            r.memory_type == memory_type,
    {
        Memory { capacity, speed, memory_type_seq, memory_type }
    }

    fn copy(&self) -> (r: Memory)
        ensures
            r == *self,
    {
        Memory {
            capacity: self.capacity,
            speed: self.speed,
            memory_type_seq: self.memory_type_seq,
            memory_type: self.memory_type.clone(),
        }
    }
}

impl Disk {
    pub fn new(media_type: String, friendly_name: String, size: u64) -> (r: Disk)
        ensures
            r.media_type == media_type,
            r.friendly_name == friendly_name,
            r.size == size,
    {
        Disk { media_type, friendly_name, size }
    }

    fn copy(&self) -> (r: Disk)
        ensures
            r == *self,
    {
        Disk {
            media_type: self.media_type.clone(),
            friendly_name: self.friendly_name.clone(),
            size: self.size,
        }
    }
}

fn copy_cpus(v: &Vec<Cpu>) -> (r: Vec<Cpu>)
    ensures
        r@ == v@,
{
    let mut r: Vec<Cpu> = Vec::new();
    let mut i: usize = 0;
    while i < v.len()
        invariant
            i <= v@.len(),
            r@ == v@.subrange(0, i as int),
        decreases v@.len() - i,
    {
        r.push(v[i].copy());
        i = i + 1;
    }
    assert(r@ =~= v@);
    r
}

fn copy_memories(v: &Vec<Memory>) -> (r: Vec<Memory>)
    ensures
        r@ == v@,
{
    let mut r: Vec<Memory> = Vec::new();
    let mut i: usize = 0;
    while i < v.len()
        invariant
            i <= v@.len(),
            r@ == v@.subrange(0, i as int),
        decreases v@.len() - i,
    {
        r.push(v[i].copy());
        i = i + 1;
    }
    assert(r@ =~= v@);
    r
}

fn copy_disks(v: &Vec<Disk>) -> (r: Vec<Disk>)
    ensures
        r@ == v@,
{
    let mut r: Vec<Disk> = Vec::new();
    let mut i: usize = 0;
    while i < v.len()
        invariant
            i <= v@.len(),
            r@ == v@.subrange(0, i as int),
        decreases v@.len() - i,
    {
        r.push(v[i].copy());
        i = i + 1;
    }
    assert(r@ =~= v@);
    r
}

impl Win {
    pub fn new(c: OptCPU, m: OptMemory, d: OptDisk) -> (r: Win)
        ensures
            r.c == c,
            r.m == m,
            r.d == d,
    {
        Win { c, m, d }
    }

    /// The processor records, whichever shape the response had.
    pub fn convert_cpu(&self) -> (r: Vec<Cpu>)
        ensures
            r@ == self.c.list(),
    {
        match &self.c {
            OptCPU::StructType(cpu) => vec![cpu.copy()],
            OptCPU::ArrayType(cpus) => copy_cpus(cpus),
        }
    }

    /// The memory records, whichever shape the response had.
    pub fn convert_memory(&self) -> (r: Vec<Memory>)
        ensures
            r@ == self.m.list(),
    {
        match &self.m {
            OptMemory::StructType(memory) => vec![memory.copy()],
            OptMemory::ArrayType(memories) => copy_memories(memories),
        }
    }

    /// The disk records, whichever shape the response had.
    pub fn convert_disk(&self) -> (r: Vec<Disk>)
        ensures
            r@ == self.d.list(),
    {
        match &self.d {
            OptDisk::StructType(disk) => vec![disk.copy()],
            OptDisk::ArrayType(disks) => copy_disks(disks),
        }
    }

    /// The inventory that the three responses describe.
    pub fn total(&self) -> (r: Hardware)
        ensures
            r.c@ == self.c.list(),
            r.m@ == self.m.list(),
            r.d@ == self.d.list(),
    {
        let c = self.convert_cpu();
        let m = self.convert_memory();
        let d = self.convert_disk();
        Hardware { c, m, d }
    }
}

impl Hardware {
    pub fn new(c: Vec<Cpu>, m: Vec<Memory>, d: Vec<Disk>) -> (r: Hardware)
        ensures
            r.c@ == c@,
            r.m@ == m@,
            r.d@ == d@,
    {
        Hardware { c, m, d }
    }
}

/// A single processor object and a list holding just that object normalise
/// to the same one-element list.
pub proof fn lemma_cpu_shapes_agree(c: Cpu, v: Vec<Cpu>)
    requires
        v@ == seq![c],
    ensures
        OptCPU::StructType(c).list() == OptCPU::ArrayType(v).list(),
        OptCPU::StructType(c).list().len() == 1,
{
}

/// A single memory object and a list holding just that object normalise to
/// the same one-element list.
pub proof fn lemma_memory_shapes_agree(m: Memory, v: Vec<Memory>)
    requires
        v@ == seq![m],
    ensures
        OptMemory::StructType(m).list() == OptMemory::ArrayType(v).list(),
        OptMemory::StructType(m).list().len() == 1,
{
}

/// A single disk object and a list holding just that object normalise to
/// the same one-element list.
pub proof fn lemma_disk_shapes_agree(d: Disk, v: Vec<Disk>)
    requires
        v@ == seq![d],
    ensures
        OptDisk::StructType(d).list() == OptDisk::ArrayType(v).list(),
        OptDisk::StructType(d).list().len() == 1,
{
}

} // verus!
