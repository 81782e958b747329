//! The compute side of the backend built on `sysctl`, the memory report
//! tool and the disk utility: it reads their text output.
use vstd::prelude::*;
use vstd::string::*;
use crate::decimal::{parse_u32, parse_u64, parse_unsigned};
use crate::json::{disk_media_name, disk_size, read_media_name, read_size};
use crate::model::{Cpu, Disk, Hardware, HardwareError, Mac, Memory};
use crate::sizing::{gib_of, nearest_size, rounding};
use crate::text::{
    begins_with, contains_part, has_part, lines_of, report_lines, second_word, second_word_of,
    starts_with, trim, trimmed,
};

verus! {

/// The modules that report lines describe, as (capacity, speed, type): a
/// line that begins with "Size:" gives the capacity as its second word, the
/// line after it the type, and the one after that the speed; those two
/// lines are taken whatever they begin with. A "Size:" line without two
/// lines after it, or a type line without a second word, fails with
/// `Decode`; a capacity or speed that is no number fails with `Field`. The
/// first failing module decides the error.
pub open spec fn modules(ls: Seq<Seq<char>>) -> Result<Seq<(u64, u32, Seq<char>)>, HardwareError>
    decreases ls.len(),
{
    if ls.len() == 0 {
        Ok(seq![])
    } else if starts_with(ls[0], "Size:"@) {
        if ls.len() < 3 {
            Err(HardwareError::Decode)
        } else {
            let capacity = parse_unsigned(second_word(ls[0]), u64::MAX as nat);
            let kind = second_word(ls[1]);
            let speed = parse_unsigned(second_word(ls[2]), u32::MAX as nat);
            if capacity is None {
                Err(HardwareError::Field)
            } else if kind.len() == 0 {
                Err(HardwareError::Decode)
            } else if speed is None {
                Err(HardwareError::Field)
            } else {
                prepend(
                    seq![(capacity->Some_0 as u64, speed->Some_0 as u32, kind)],
                    modules(ls.subrange(3, ls.len() as int)),
                )
            }
        }
    } else {
        modules(ls.drop_first())
    }
}

/// `done` ahead of the modules of `rest`, or the failure of `rest`.
pub open spec fn prepend(
    done: Seq<(u64, u32, Seq<char>)>,
    rest: Result<Seq<(u64, u32, Seq<char>)>, HardwareError>,
) -> Result<Seq<(u64, u32, Seq<char>)>, HardwareError> {
    match rest {
        Ok(r) => Ok(done + r),
        Err(e) => Err(e),
    }
}

/// `m` is the module `rec`, with the type code fixed at 1.
pub open spec fn is_module(m: Memory, rec: (u64, u32, Seq<char>)) -> bool {
    &&& m.capacity == rec.0
    &&& m.speed == rec.1
    &&& m.memory_type@ == rec.2
    &&& m.memory_type_seq == 1
}

/// The media type of a device by its name: "SSD" where the name holds
/// "SSD", else "Unknown".
pub open spec fn media_of(name: Seq<char>) -> Seq<char> {
    if has_part(name, "SSD"@) {
        "SSD"@
    } else {
        "Unknown"@
    }
}

/// `d` is the device named `name` of `size` bytes.
pub open spec fn is_device(d: Disk, name: Seq<char>, size: u64) -> bool {
    &&& d.friendly_name@ == name
    &&& d.media_type@ == media_of(name)
    &&& d.size as int == nearest_size(gib_of(size))
}

/// Both counts, trimmed, are 32-bit numbers.
pub open spec fn counts_readable(cores: Seq<char>, threads: Seq<char>) -> bool {
    &&& parse_unsigned(trim(cores), u32::MAX as nat) is Some
    &&& parse_unsigned(trim(threads), u32::MAX as nat) is Some
}

/// The answers of the three tools can be read: both counts, every module
/// of the memory report, and the name and size of the disk.
pub open spec fn mac_readable(
    cores: Seq<char>,
    threads: Seq<char>,
    memory_report: Seq<char>,
    disk_json: Seq<char>,
) -> bool {
    &&& counts_readable(cores, threads)
    &&& modules(report_lines(memory_report)) is Ok
    &&& disk_media_name(disk_json) is Some
    &&& disk_size(disk_json) is Some
}

/// The failure of reading the answers: the processor counts first, then the
/// memory report, then the disk answer, whose failures are all `Decode`.
pub open spec fn mac_error(
    cores: Seq<char>,
    threads: Seq<char>,
    memory_report: Seq<char>,
    disk_json: Seq<char>,
) -> HardwareError {
    if !counts_readable(cores, threads) {
        HardwareError::Field
    } else if modules(report_lines(memory_report)) is Err {
        modules(report_lines(memory_report))->Err_0
    } else {
        HardwareError::Decode
    }
}

/// `h` is what the answers of the three tools describe: one processor, the
/// modules of the memory report, and one disk.
pub open spec fn is_mac_inventory(
    h: Hardware,
    brand: Seq<char>,
    cores: Seq<char>,
    threads: Seq<char>,
    memory_report: Seq<char>,
    disk_json: Seq<char>,
) -> bool {
    let mods = modules(report_lines(memory_report))->Ok_0;
    &&& mac_readable(cores, threads, memory_report, disk_json)
    &&& h.c@.len() == 1
    &&& h.c@[0].name@ == trim(brand)
    &&& Some(h.c@[0].number_of_cores as nat) == parse_unsigned(trim(cores), u32::MAX as nat)
    &&& Some(h.c@[0].number_of_logical_processors as nat) == parse_unsigned(
        trim(threads),
        u32::MAX as nat,
    )
    &&& h.m@.len() == mods.len()
    &&& forall|k: int| 0 <= k < h.m@.len() ==> is_module(#[trigger] h.m@[k], mods[k])
    &&& h.d@.len() == 1
    &&& is_device(h.d@[0], disk_media_name(disk_json)->Some_0, disk_size(disk_json)->Some_0)
}

impl Mac {
    /// The modules of a memory report, in order, or the failure of the
    /// first module that cannot be read.
    pub fn get_memory(report: &str) -> (r: Result<Vec<Memory>, HardwareError>)
        ensures
            r is Ok <==> modules(report_lines(report@)) is Ok,
            r is Err ==> r->Err_0 == modules(report_lines(report@))->Err_0,
            r is Ok ==> r->Ok_0@.len() == modules(report_lines(report@))->Ok_0.len(),
            r is Ok ==> forall|k: int|
                0 <= k < r->Ok_0@.len() ==> is_module(
                    #[trigger] r->Ok_0@[k],
                    modules(report_lines(report@))->Ok_0[k],
                ),
    {
        let lines = lines_of(report);
        let ghost ls = report_lines(report@);
        let n = lines.len();
        let mut out: Vec<Memory> = Vec::new();
        let ghost mut done: Seq<(u64, u32, Seq<char>)> = seq![];
        let mut i: usize = 0;
        assert(ls.subrange(0, n as int) =~= ls);
        assert(prepend(seq![], modules(ls)) =~= modules(ls)) by {
            if modules(ls) is Ok {
                assert(seq![] + modules(ls)->Ok_0 =~= modules(ls)->Ok_0);
            }
        }
        while i < n
            invariant
                ls == report_lines(report@),
                n == ls.len(),
                n == lines@.len(),
                i <= n,
                forall|k: int| 0 <= k < n ==> (#[trigger] lines@[k])@ == ls[k],
                modules(ls) == prepend(done, modules(ls.subrange(i as int, n as int))),
                out@.len() == done.len(),
                forall|k: int| 0 <= k < out@.len() ==> is_module(#[trigger] out@[k], done[k]),
            decreases n - i,
        {
            let ghost rest = ls.subrange(i as int, n as int);
            assert(rest[0] == ls[i as int]);
            assert(rest.len() == n - i);
            if begins_with(lines[i].as_str(), "Size:") {
                assert(starts_with(rest[0], "Size:"@));
                if n - i < 3 {
                    assert(modules(rest) == Err::<Seq<(u64, u32, Seq<char>)>, HardwareError>(
                        HardwareError::Decode,
                    ));
                    return Err(HardwareError::Decode);
                }
                assert(rest[1] == ls[i + 1]);
                assert(rest[2] == ls[i + 2]);
                let capacity = match parse_u64(second_word_of(lines[i].as_str()).as_str()) {
                    Some(v) => v,
                    None => return Err(HardwareError::Field),
                };
                let kind = second_word_of(lines[i + 1].as_str());
                if kind.as_str().unicode_len() == 0 {
                    return Err(HardwareError::Decode);
                }
                let speed = match parse_u32(second_word_of(lines[i + 2].as_str()).as_str()) {
                    Some(v) => v,
                    None => return Err(HardwareError::Field),
                };
                let ghost item = seq![(capacity, speed, kind@)];
                assert(rest.subrange(3, rest.len() as int) =~= ls.subrange(i + 3, n as int));
                proof {
                    let tail = modules(ls.subrange(i + 3, n as int));
                    if tail is Ok {
                        assert(done + (item + tail->Ok_0) =~= done.push((capacity, speed, kind@))
                            + tail->Ok_0);
                    }
                    done = done.push((capacity, speed, kind@));
                }
                out.push(Memory { capacity, speed, memory_type_seq: 1, memory_type: kind });
                i = i + 3;
            } else {
                assert(rest.drop_first() =~= ls.subrange(i + 1, n as int));
                i = i + 1;
            }
        }
        assert(ls.subrange(n as int, n as int) =~= seq![]);
        assert(done + seq![] =~= done);
        Ok(out)
    }

    /// The processor that the three `sysctl` answers describe: its brand
    /// text, core count and thread count, each trimmed. A count that is no
    /// 32-bit number fails with `Field`.
    pub fn get_cpu(brand: &str, cores: &str, threads: &str) -> (r: Result<Vec<Cpu>, HardwareError>)
        ensures
            r is Ok <==> counts_readable(cores@, threads@),
            r is Err ==> r == Err::<Vec<Cpu>, HardwareError>(HardwareError::Field),
            r is Ok ==> {
                let v = r->Ok_0@;
                &&& v.len() == 1
                &&& v[0].name@ == trim(brand@)
                &&& Some(v[0].number_of_cores as nat) == parse_unsigned(trim(cores@), u32::MAX as nat)
                &&& Some(v[0].number_of_logical_processors as nat) == parse_unsigned(
                    trim(threads@),
                    u32::MAX as nat,
                )
            },
    {
        let number_of_cores = match parse_u32(trimmed(cores).as_str()) {
            Some(v) => v,
            None => return Err(HardwareError::Field),
        };
        let number_of_logical_processors = match parse_u32(trimmed(threads).as_str()) {
            Some(v) => v,
            None => return Err(HardwareError::Field),
        };
        Ok(vec![Cpu { name: trimmed(brand), number_of_cores, number_of_logical_processors }])
    }

    /// The device named `media_name` of `size` bytes: an SSD where the name
    /// says so, its size bucketed.
    pub fn disk_from(media_name: String, size: u64) -> (r: Disk)
        ensures
            is_device(r, media_name@, size),
    {
        let media_type = if contains_part(media_name.as_str(), "SSD") {
            String::from_str("SSD")
        } else {
            String::from_str("Unknown")
        };
        Disk { media_type, friendly_name: media_name, size: rounding(size) }
    }

    /// The boot disk, from the disk utility's answer converted to JSON: the
    /// content of its "MediaName" string and its "Size" in bytes. Text that
    /// is no JSON, has no "MediaName" string, or has a "Size" that is
    /// missing or no unsigned integer, fails with `Decode`.
    pub fn get_disk(json: &str) -> (r: Result<Vec<Disk>, HardwareError>)
        ensures
            r is Ok <==> (disk_media_name(json@) is Some && disk_size(json@) is Some),
            disk_media_name(json@) is None ==> r == Err::<Vec<Disk>, HardwareError>(
                HardwareError::Decode,
            ),
            disk_media_name(json@) is Some && disk_size(json@) is None ==> r == Err::<
                Vec<Disk>,
                HardwareError,
            >(HardwareError::Decode),
            r is Ok ==> r->Ok_0@.len() == 1 && is_device(
                r->Ok_0@[0],
                disk_media_name(json@)->Some_0,
                disk_size(json@)->Some_0,
            ),
    {
        let media_name = match read_media_name(json) {
            Some(name) => name,
            None => return Err(HardwareError::Decode),
        };
        let size = match read_size(json) {
            Some(n) => n,
            None => return Err(HardwareError::Decode),
        };
        Ok(vec![Mac::disk_from(media_name, size)])
    }

    /// The inventory from the answers of the three tools; it fails as a whole
    /// where any of them cannot be read, and holds no partial inventory.
    pub fn build(
        brand: &str,
        cores: &str,
        threads: &str,
        memory_report: &str,
        disk_json: &str,
    ) -> (r: Result<Hardware, HardwareError>)
        ensures
            r is Ok <==> mac_readable(cores@, threads@, memory_report@, disk_json@),
            r is Err ==> r->Err_0 == mac_error(cores@, threads@, memory_report@, disk_json@),
            r is Ok ==> is_mac_inventory(
                r->Ok_0,
                brand@,
                cores@,
                threads@,
                memory_report@,
                disk_json@,
            ),
    {
        let c = match Mac::get_cpu(brand, cores, threads) {
            Ok(c) => c,
            Err(e) => return Err(e),
        };
        let m = match Mac::get_memory(memory_report) {
            Ok(m) => m,
            Err(e) => return Err(e),
        };
        let d = match Mac::get_disk(disk_json) {
            Ok(d) => d,
            Err(e) => return Err(e),
        };
        Ok(Hardware { c, m, d })
    }
}

} // verus!
