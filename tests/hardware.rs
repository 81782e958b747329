use hardware::decimal::{decimal, parse_u32, parse_u64};
use hardware::text::{contains_part, lines_of, second_word_of, trimmed};
use hardware::{
    get_memory_type, rounding, Backend, Cpu, Disk, Hardware, HardwareError, Mac, MacAnswers,
    Memory, OptCPU, OptDisk, OptMemory, Win,
};

const GIB: u64 = 1024 * 1024 * 1024;

fn cpu(name: &str, cores: u32, threads: u32) -> Cpu {
    Cpu::new(name.to_string(), cores, threads)
}

fn memory(capacity: u64, speed: u32, kind: &str) -> Memory {
    Memory::new(capacity, speed, 26, kind.to_string())
}

fn disk(media: &str, size: u64) -> Disk {
    Disk::new(media.to_string(), "disk".to_string(), size)
}

#[test]
fn rounding_of_a_500_gb_drive() {
    assert_eq!(rounding(500_107_862_016), 500);
}

#[test]
fn rounding_goes_to_nearest() {
    assert_eq!(rounding(119 * GIB), 120);
    assert_eq!(rounding(230 * GIB), 240);
    assert_eq!(rounding(931 * GIB), 1000);
    assert_eq!(rounding(1863 * GIB), 2000);
    assert_eq!(rounding(3726 * GIB), 4000);
}

#[test]
fn rounding_tie_goes_to_smaller() {
    assert_eq!(rounding(180 * GIB), 120);
    assert_eq!(rounding(181 * GIB), 240);
    assert_eq!(rounding(370 * GIB), 240);
    assert_eq!(rounding(750 * GIB), 500);
    assert_eq!(rounding(1500 * GIB), 1000);
    assert_eq!(rounding(3000 * GIB), 2000);
}

#[test]
fn rounding_far_values_still_bucketed() {
    assert_eq!(rounding(0), 120);
    assert_eq!(rounding(GIB - 1), 120);
    assert_eq!(rounding(u64::MAX), 4000);
}

#[test]
fn rounding_always_canonical() {
    let canonical = [120u64, 240, 500, 1000, 2000, 4000];
    let mut b: u64 = 0;
    while b < 10_000 * GIB {
        assert!(canonical.contains(&rounding(b)));
        b += 7 * GIB + 12345;
    }
}

#[test]
fn memory_type_table() {
    assert_eq!(get_memory_type(20), "DDR");
    assert_eq!(get_memory_type(21), "DDR2");
    assert_eq!(get_memory_type(22), "DDR2 FB-DIMM");
    assert_eq!(get_memory_type(23), "DDR3");
    assert_eq!(get_memory_type(24), "DDR3");
    assert_eq!(get_memory_type(25), "FBD2");
    assert_eq!(get_memory_type(26), "DDR4");
}

#[test]
fn memory_type_unknown_codes() {
    assert_eq!(get_memory_type(0), "Unknown");
    assert_eq!(get_memory_type(99), "Unknown");
    assert_eq!(get_memory_type(u32::MAX), "Unknown");
}

#[test]
fn single_and_list_shapes_agree() {
    let one = Win::new(
        OptCPU::StructType(cpu("X", 4, 8)),
        OptMemory::StructType(memory(16, 3200, "DDR4")),
        OptDisk::StructType(disk("SSD", 1000)),
    );
    let many = Win::new(
        OptCPU::ArrayType(vec![cpu("X", 4, 8)]),
        OptMemory::ArrayType(vec![memory(16, 3200, "DDR4")]),
        OptDisk::ArrayType(vec![disk("SSD", 1000)]),
    );
    let a = one.total();
    let b = many.total();
    assert_eq!(a.c.len(), 1);
    assert_eq!(b.c.len(), 1);
    assert_eq!(a.get_cpu(), b.get_cpu());
    assert_eq!(a.get_memory(), b.get_memory());
    assert_eq!(a.get_disk(), b.get_disk());
    assert_eq!(one.convert_cpu()[0].name, many.convert_cpu()[0].name);
    assert_eq!(one.convert_memory()[0].capacity, many.convert_memory()[0].capacity);
    assert_eq!(one.convert_disk()[0].size, many.convert_disk()[0].size);
}

#[test]
fn convert_keeps_order() {
    let w = Win::new(
        OptCPU::ArrayType(vec![cpu("A", 1, 2), cpu("B", 3, 4)]),
        OptMemory::ArrayType(vec![]),
        OptDisk::ArrayType(vec![disk("HDD", 500), disk("SSD", 240)]),
    );
    let c = w.convert_cpu();
    assert_eq!(c.len(), 2);
    assert_eq!(c[0].name, "A");
    assert_eq!(c[1].name, "B");
    assert_eq!(c[1].number_of_logical_processors, 4);
    assert!(w.convert_memory().is_empty());
    let d = w.convert_disk();
    assert_eq!(d[0].media_type, "HDD");
    assert_eq!(d[1].size, 240);
}

#[test]
fn identical_cpus_collapse() {
    let h = Hardware::new(vec![cpu("N", 4, 8), cpu("N", 4, 8), cpu("N", 4, 8)], vec![], vec![]);
    assert_eq!(h.get_cpu(), "3 * N,4核8线程");
}

#[test]
fn different_cpu_name_itemises() {
    let h = Hardware::new(vec![cpu("N", 4, 8), cpu("N", 4, 8), cpu("M", 4, 8)], vec![], vec![]);
    assert_eq!(h.get_cpu(), "N 4核8线程,N 4核8线程,M 4核8线程,");
}

#[test]
fn single_records_collapse() {
    let h = Hardware::new(
        vec![cpu("Intel(R) Core(TM) i7", 8, 16)],
        vec![memory(32, 4800, "DDR5")],
        vec![disk("HDD", 2000)],
    );
    assert_eq!(h.get_cpu(), "1 * Intel(R) Core(TM) i7,8核16线程");
    assert_eq!(h.get_memory(), "1 * 32GB,4800MHz,DDR5");
    assert_eq!(h.get_disk(), "1 * 2000GB,HDD");
}

#[test]
fn memory_grouping_by_capacity_and_speed() {
    let same = Hardware::new(vec![], vec![memory(8, 2666, "DDR4"), memory(8, 2666, "DDR3")], vec![]);
    assert_eq!(same.get_memory(), "2 * 8GB,2666MHz,DDR4");
    let other = Hardware::new(vec![], vec![memory(8, 2666, "DDR4"), memory(8, 3200, "DDR4")], vec![]);
    assert_eq!(other.get_memory(), "8GB 2666MHz DDR4,8GB 3200MHz DDR4,");
}

#[test]
fn disk_grouping_by_media_and_size() {
    let same = Hardware::new(vec![], vec![], vec![disk("SSD", 500), disk("SSD", 500)]);
    assert_eq!(same.get_disk(), "2 * 500GB,SSD");
    let other = Hardware::new(vec![], vec![], vec![disk("SSD", 500), disk("HDD", 500)]);
    assert_eq!(other.get_disk(), "500GB SSD,500GB HDD,");
}

#[test]
fn empty_lists_give_empty_lines() {
    let h = Hardware::new(vec![], vec![], vec![]);
    assert_eq!(h.get_cpu(), "");
    assert_eq!(h.get_memory(), "");
    assert_eq!(h.get_disk(), "");
}

#[test]
fn end_to_end_windows_report() {
    let raw_disk = Disk::new("SSD".to_string(), "Samsung SSD 980".to_string(), 1_073_634_449_817);
    let w = Win::build(
        Ok(OptCPU::ArrayType(vec![cpu("X", 4, 8), cpu("X", 4, 8)])),
        Ok(OptMemory::ArrayType(vec![
            Memory::new(16, 3200, 26, String::new()),
            Memory::new(16, 3200, 26, String::new()),
        ])),
        Ok(OptDisk::StructType(raw_disk)),
    )
    .unwrap();
    let h = Hardware::build(&Backend::Windows(w)).unwrap();
    assert_eq!(format!("CPU: {}", h.get_cpu()), "CPU: 2 * X,4核8线程");
    assert_eq!(format!("Memory: {}", h.get_memory()), "Memory: 2 * 16GB,3200MHz,DDR4");
    assert_eq!(format!("Disk: {}", h.get_disk()), "Disk: 1 * 1000GB,SSD");
}

#[test]
fn disk_worker_failure_fails_collection() {
    let r = Win::build(
        Ok(OptCPU::StructType(cpu("X", 4, 8))),
        Ok(OptMemory::StructType(memory(16, 3200, ""))),
        Err(HardwareError::Launch),
    );
    assert_eq!(r.err(), Some(HardwareError::Launch));
}

#[test]
fn first_worker_failure_is_reported() {
    let r = Win::build(
        Err(HardwareError::Decode),
        Err(HardwareError::Launch),
        Ok(OptDisk::StructType(disk("SSD", 0))),
    );
    assert_eq!(r.err(), Some(HardwareError::Decode));
    let r = Win::build(
        Ok(OptCPU::StructType(cpu("X", 4, 8))),
        Err(HardwareError::Field),
        Err(HardwareError::Launch),
    );
    assert_eq!(r.err(), Some(HardwareError::Field));
}

#[test]
fn resolve_memory_names_each_module() {
    let m = OptMemory::ArrayType(vec![
        Memory::new(8, 1600, 24, String::new()),
        Memory::new(8, 1600, 7, String::new()),
    ]);
    match Win::resolve_memory(&m) {
        OptMemory::ArrayType(v) => {
            assert_eq!(v[0].memory_type, "DDR3");
            assert_eq!(v[1].memory_type, "Unknown");
            assert_eq!(v[1].capacity, 8);
        }
        OptMemory::StructType(_) => panic!("shape changed"),
    }
}

#[test]
fn resolve_disk_buckets_size() {
    let d = OptDisk::StructType(Disk::new("HDD".to_string(), "WD".to_string(), 2_000_398_934_016));
    match Win::resolve_disk(&d) {
        OptDisk::StructType(x) => {
            assert_eq!(x.size, 2000);
            assert_eq!(x.friendly_name, "WD");
        }
        OptDisk::ArrayType(_) => panic!("shape changed"),
    }
}

const MEMORY_REPORT: &str = "Memory:

    Memory Slots:

      ECC: Disabled
      Upgradeable Memory: Yes

        BANK 0/DIMM0:

          Size: 8 GB
          Type: DDR4
          Speed: 2667 MHz
          Status: OK

        BANK 1/DIMM0:

          Size: 8 GB
          Type: DDR4
          Speed: 2667 MHz
          Status: OK
";

#[test]
fn mac_memory_report_modules() {
    let m = Mac::get_memory(MEMORY_REPORT).unwrap();
    assert_eq!(m.len(), 2);
    for x in &m {
        assert_eq!(x.capacity, 8);
        assert_eq!(x.speed, 2667);
        assert_eq!(x.memory_type, "DDR4");
        assert_eq!(x.memory_type_seq, 1);
    }
}

#[test]
fn mac_memory_report_missing_lines() {
    let m = Mac::get_memory("Size: 16 GB\r\nType: LPDDR5\r\nSpeed: 6400 MT/s").unwrap();
    assert_eq!(m.len(), 1);
    assert_eq!(m[0].capacity, 16);
    assert_eq!(m[0].memory_type, "LPDDR5");
    assert_eq!(m[0].speed, 6400);
    assert_eq!(Mac::get_memory("Size: 16 GB\nType: LPDDR5").err(), Some(HardwareError::Decode));
    assert_eq!(Mac::get_memory("x\nSize: 16 GB").err(), Some(HardwareError::Decode));
    assert!(Mac::get_memory("").unwrap().is_empty());
    assert!(Mac::get_memory("no modules here").unwrap().is_empty());
}

#[test]
fn mac_memory_report_unreadable_values() {
    assert_eq!(
        Mac::get_memory("Size: lots\nType: DDR4\nSpeed: 1 MHz").err(),
        Some(HardwareError::Field)
    );
    assert_eq!(
        Mac::get_memory("Size: 8 GB\nType:\nSpeed: 1 MHz").err(),
        Some(HardwareError::Decode)
    );
    assert_eq!(
        Mac::get_memory("Size: 8 GB\nType: DDR4\nSpeed: fast").err(),
        Some(HardwareError::Field)
    );
    assert_eq!(
        Mac::get_memory("Size: 8 GB\nType: DDR4\nSpeed: 99999999999 MHz").err(),
        Some(HardwareError::Field)
    );
    let two = "Size: 8 GB\nType: DDR4\nSpeed: 1 MHz\nSize: x GB\nType: DDR4\nSpeed: 1 MHz";
    assert_eq!(Mac::get_memory(two).err(), Some(HardwareError::Field));
}

#[test]
fn mac_cpu_from_sysctl() {
    let c = Mac::get_cpu("Apple M1 Pro\n", " 10\n", "10\n").unwrap();
    assert_eq!(c.len(), 1);
    assert_eq!(c[0].name, "Apple M1 Pro");
    assert_eq!(c[0].number_of_cores, 10);
    assert_eq!(c[0].number_of_logical_processors, 10);
    assert_eq!(Mac::get_cpu("M1", "ten", "10").err(), Some(HardwareError::Field));
    assert_eq!(Mac::get_cpu("M1", "10", "").err(), Some(HardwareError::Field));
}

#[test]
fn mac_disk_from_json() {
    let d = Mac::get_disk("{\"MediaName\":\"APPLE SSD AP0512Q\",\"Size\":500277792768}").unwrap();
    assert_eq!(d.len(), 1);
    assert_eq!(d[0].media_type, "SSD");
    assert_eq!(d[0].friendly_name, "APPLE SSD AP0512Q");
    assert_eq!(d[0].size, 500);
}

#[test]
fn mac_disk_errors() {
    assert_eq!(Mac::get_disk("not json").err(), Some(HardwareError::Decode));
    assert_eq!(Mac::get_disk("{\"Size\":1}").err(), Some(HardwareError::Decode));
    assert_eq!(Mac::get_disk("{\"MediaName\":7,\"Size\":1}").err(), Some(HardwareError::Decode));
    assert_eq!(Mac::get_disk("[1]").err(), Some(HardwareError::Decode));
    assert_eq!(Mac::get_disk("{\"MediaName\":\"X\"}").err(), Some(HardwareError::Decode));
    assert_eq!(Mac::get_disk("{\"MediaName\":\"X\",\"Size\":-1}").err(), Some(HardwareError::Decode));
}

#[test]
fn mac_disk_media_inferred() {
    let d = Mac::disk_from("Samsung HDD".to_string(), 120 * GIB);
    assert_eq!(d.media_type, "Unknown");
    assert_eq!(d.size, 120);
    let d = Mac::disk_from("xSSDx".to_string(), 0);
    assert_eq!(d.media_type, "SSD");
}

#[test]
fn mac_build_inventory() {
    let answers = MacAnswers {
        brand: "Apple M2\n".to_string(),
        cores: "8\n".to_string(),
        threads: "8\n".to_string(),
        memory_report: MEMORY_REPORT.to_string(),
        disk_json: "{\"MediaName\":\"APPLE SSD\",\"Size\":1000204886016}".to_string(),
    };
    let h = Hardware::build(&Backend::MacOs(answers)).unwrap();
    assert_eq!(h.get_cpu(), "1 * Apple M2,8核8线程");
    assert_eq!(h.get_memory(), "2 * 8GB,2667MHz,DDR4");
    assert_eq!(h.get_disk(), "1 * 1000GB,SSD");
    let r = Mac::build("M2", "x", "8", MEMORY_REPORT, "{}");
    assert_eq!(r.err(), Some(HardwareError::Field));
    let r = Mac::build("M2", "8", "8", MEMORY_REPORT, "[");
    assert_eq!(r.err(), Some(HardwareError::Decode));
    let r = Mac::build("M2", "8", "8", "Size: 8 GB", "{\"MediaName\":\"X\",\"Size\":1}");
    assert_eq!(r.err(), Some(HardwareError::Decode));
    let r = Mac::build("M2", "8", "8", MEMORY_REPORT, "{\"MediaName\":\"X\"}");
    assert_eq!(r.err(), Some(HardwareError::Decode));
}

#[test]
fn decimal_text() {
    assert_eq!(decimal(0), "0");
    assert_eq!(decimal(7), "7");
    assert_eq!(decimal(3200), "3200");
    assert_eq!(decimal(u64::MAX), "18446744073709551615");
}

#[test]
fn parse_numbers() {
    assert_eq!(parse_u64("42"), Some(42));
    assert_eq!(parse_u64("+42"), Some(42));
    assert_eq!(parse_u64("007"), Some(7));
    assert_eq!(parse_u64(""), None);
    assert_eq!(parse_u64("+"), None);
    assert_eq!(parse_u64("-1"), None);
    assert_eq!(parse_u64("4 2"), None);
    assert_eq!(parse_u64("18446744073709551615"), Some(u64::MAX));
    assert_eq!(parse_u64("18446744073709551616"), None);
    assert_eq!(parse_u32("4294967295"), Some(u32::MAX));
    assert_eq!(parse_u32("4294967296"), None);
}

#[test]
fn text_helpers() {
    assert_eq!(trimmed("  a b \t\n"), "a b");
    assert_eq!(trimmed("\u{3000}x\u{a0}"), "x");
    assert_eq!(trimmed("   "), "");
    assert_eq!(second_word_of("Size: 8 GB"), "8");
    assert_eq!(second_word_of("  Type:\tDDR4  "), "DDR4");
    assert_eq!(second_word_of("one"), "");
    assert!(contains_part("APPLE SSD", "SSD"));
    assert!(!contains_part("APPLE SD", "SSD"));
    assert!(contains_part("x", ""));
    let l = lines_of("\n a \r\n\n b\n");
    assert_eq!(l, vec!["a".to_string(), "".to_string(), "b".to_string()]);
    assert!(lines_of("").len() == 1);
}
