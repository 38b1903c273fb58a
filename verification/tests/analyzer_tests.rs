use spc2midi_tsuu::analyzer::onset_strength;
use spc2midi_tsuu::analyzer::record_keyons;
use spc2midi_tsuu::analyzer::voice_bit;
use spc2midi_tsuu::analyzer::AnalysisWindow;
use spc2midi_tsuu::analyzer::KeyOnObservation;
use spc2midi_tsuu::analyzer::SourceInformation;
use spc2midi_tsuu::memory::directory_address;
use spc2midi_tsuu::memory::read_directory_entry;
use spc2midi_tsuu::memory::CpuRegisters;
use spc2midi_tsuu::memory::DirectoryEntry;
use spc2midi_tsuu::memory::MemorySnapshot;
use std::collections::BTreeMap;

fn registers() -> CpuRegisters {
    CpuRegisters { pc: 0x0200, a: 0, x: 0, y: 0, psw: 0, sp: 0xEF }
}

#[test]
fn directory_address_is_page_plus_four_per_source() {
    assert_eq!(directory_address(0x04, 0), 0x0400);
    assert_eq!(directory_address(0x04, 1), 0x0404);
    assert_eq!(directory_address(0x1F, 0x20), 0x1F80);
    assert_eq!(directory_address(0xFF, 0xFF), 0xFF00 + 1020);
    assert_eq!(directory_address(0, 0), 0);
}

#[test]
fn directory_entry_is_read_low_byte_first() {
    let mut ram = vec![0u8; 65536];
    ram[0x0400] = 0x00;
    ram[0x0401] = 0x05;
    ram[0x0402] = 0x20;
    ram[0x0403] = 0x05;
    let entry = read_directory_entry(&ram, 0x0400);
    assert_eq!(entry, Some(DirectoryEntry { start_address: 0x0500, loop_address: 0x0520 }));
    assert_eq!(read_directory_entry(&ram, 65532).is_some(), true);
    assert_eq!(read_directory_entry(&ram, 65533), None);
    assert_eq!(read_directory_entry(&ram, usize::MAX), None);
    assert_eq!(read_directory_entry(&[1, 2, 3], 0), None);
    assert_eq!(
        read_directory_entry(&[0x34, 0x12, 0xCD, 0xAB], 0),
        Some(DirectoryEntry { start_address: 0x1234, loop_address: 0xABCD })
    );
}

#[test]
fn snapshot_needs_full_memory_and_register_bank() {
    assert!(MemorySnapshot::new(registers(), vec![0; 65536], vec![0; 128]).is_some());
    assert!(MemorySnapshot::new(registers(), vec![0; 65535], vec![0; 128]).is_none());
    assert!(MemorySnapshot::new(registers(), vec![0; 65536], vec![0; 127]).is_none());
    assert!(MemorySnapshot::new(registers(), vec![], vec![]).is_none());
}

#[test]
fn snapshot_hands_back_what_it_was_made_of() {
    let mut ram = vec![0u8; 65536];
    ram[0x0400] = 0x00;
    ram[0x0401] = 0x05;
    ram[0x0402] = 0x20;
    ram[0x0403] = 0x05;
    let mut dsp = vec![0u8; 128];
    dsp[0x5D] = 0x04;
    let snapshot = MemorySnapshot::new(registers(), ram.clone(), dsp.clone()).unwrap();
    assert_eq!(snapshot.registers(), registers());
    assert_eq!(snapshot.ram(), &ram);
    assert_eq!(snapshot.dsp_registers(), &dsp);
    let copy = snapshot.clone();
    assert_eq!(copy.ram(), &ram);
    assert_eq!(
        snapshot.directory_entry(0x0400),
        Some(DirectoryEntry { start_address: 0x0500, loop_address: 0x0520 })
    );
    assert_eq!(snapshot.directory_entry(65533), None);
}

#[test]
fn voice_bit_reads_one_bit_a_voice() {
    assert!(voice_bit(0b0000_0001, 0));
    assert!(!voice_bit(0b0000_0001, 1));
    assert!(voice_bit(0b1000_0000, 7));
    assert!(!voice_bit(0b0111_1111, 7));
    for voice in 0..8 {
        assert!(voice_bit(0xFF, voice));
        assert!(!voice_bit(0x00, voice));
    }
}

#[test]
fn keyon_of_source_zero_records_directory_start() {
    let mut addresses = BTreeMap::new();
    let observation =
        KeyOnObservation { keyon: 0b0000_0001, directory_page: 0x04, sources: [0; 8] };
    record_keyons(&mut addresses, &observation);
    assert_eq!(addresses.len(), 1);
    assert_eq!(addresses[&0], 0x0400);
}

#[test]
fn analysis_scenario_gives_loop_start_sample() {
    let mut ram = vec![0u8; 65536];
    ram[0x0400] = 0x00;
    ram[0x0401] = 0x05;
    ram[0x0402] = 0x20;
    ram[0x0403] = 0x05;
    let mut dsp = vec![0u8; 128];
    dsp[0x5D] = 0x04;
    let snapshot = MemorySnapshot::new(registers(), ram, dsp).unwrap();
    let mut addresses = BTreeMap::new();
    let observation = KeyOnObservation {
        keyon: 0b0000_0100,
        directory_page: snapshot.dsp_registers()[0x5D],
        sources: [9, 9, 0, 9, 9, 9, 9, 9],
    };
    record_keyons(&mut addresses, &observation);
    assert_eq!(addresses[&0], 0x0400);
    assert!(!addresses.contains_key(&9));
    let entry = snapshot.directory_entry(addresses[&0]).unwrap();
    let information = SourceInformation::from_decoded(vec![0i16; 80], entry);
    assert_eq!(information.loop_start_sample, ((0x0520 - 0x0500) * 16) / 9);
    assert_eq!(information.loop_start_sample, 56);
    assert_eq!(information.start_address, 0x0500);
    assert_eq!(information.end_address, 0x0500 + 45);
    assert_eq!(information.signal.len(), 80);
}

#[test]
fn only_keyed_on_voices_are_recorded() {
    let mut addresses = BTreeMap::new();
    let observation = KeyOnObservation {
        keyon: 0b1010_0000,
        directory_page: 0x10,
        sources: [1, 2, 3, 4, 5, 6, 7, 8],
    };
    record_keyons(&mut addresses, &observation);
    let recorded: Vec<(u8, usize)> = addresses.iter().map(|(k, v)| (*k, *v)).collect();
    assert_eq!(recorded, vec![(6, 0x1000 + 24), (8, 0x1000 + 32)]);
}

#[test]
fn no_keyon_changes_nothing() {
    let mut addresses = BTreeMap::new();
    addresses.insert(3u8, 0x1234usize);
    let observation =
        KeyOnObservation { keyon: 0, directory_page: 0x10, sources: [3; 8] };
    record_keyons(&mut addresses, &observation);
    assert_eq!(addresses.len(), 1);
    assert_eq!(addresses[&3], 0x1234);
}

#[test]
fn later_sighting_overwrites_the_address() {
    let mut addresses = BTreeMap::new();
    let first = KeyOnObservation { keyon: 1, directory_page: 0x10, sources: [5; 8] };
    let second = KeyOnObservation { keyon: 2, directory_page: 0x20, sources: [5; 8] };
    record_keyons(&mut addresses, &first);
    assert_eq!(addresses[&5], 0x1000 + 20);
    record_keyons(&mut addresses, &second);
    assert_eq!(addresses[&5], 0x2000 + 20);
    assert_eq!(addresses.len(), 1);
}

#[test]
fn same_observations_give_the_same_map() {
    let observations = [
        KeyOnObservation { keyon: 0x81, directory_page: 0x04, sources: [0, 1, 2, 3, 4, 5, 6, 7] },
        KeyOnObservation { keyon: 0x00, directory_page: 0x04, sources: [9; 8] },
        KeyOnObservation { keyon: 0x18, directory_page: 0x05, sources: [7, 7, 7, 3, 0, 7, 7, 7] },
    ];
    let mut first = BTreeMap::new();
    let mut second = BTreeMap::new();
    for o in observations.iter() {
        record_keyons(&mut first, o);
    }
    for o in observations.iter() {
        record_keyons(&mut second, o);
    }
    assert_eq!(first, second);
    let recorded: Vec<(u8, usize)> = first.iter().map(|(k, v)| (*k, *v)).collect();
    assert_eq!(recorded, vec![(0, 0x0500), (3, 0x050C), (7, 0x041C)]);
}

#[test]
fn window_counts_sixty_four_thousand_ticks_a_second() {
    let window = AnalysisWindow::new(120);
    assert_eq!(window.ticks_wanted(), 7_680_000);
    assert_eq!(window.ticks_done(), 0);
    assert!(!window.finished());
    assert_eq!(AnalysisWindow::new(u32::MAX).ticks_wanted(), u32::MAX as u64 * 64000);
    assert!(AnalysisWindow::new(0).finished());
}

#[test]
fn window_fires_one_tick_every_sixteen_cycles() {
    let mut window = AnalysisWindow::new(1);
    let mut ticks = 0u64;
    let mut steps = 0u64;
    while !window.finished() {
        ticks += window.advance(5) as u64;
        steps += 1;
    }
    assert_eq!(ticks, 64000);
    assert_eq!(window.ticks_done(), 64000);
    // 64000 ticks need 1024000 cycles, that is 204800 steps of five cycles
    assert_eq!(steps, 204800);
    assert_eq!(window.advance(200), 0);
    assert_eq!(window.ticks_done(), 64000);
}

#[test]
fn window_never_runs_past_its_length() {
    let mut window = AnalysisWindow::new(1);
    let mut ticks = 0u64;
    while !window.finished() {
        ticks += window.advance(255) as u64;
    }
    assert_eq!(ticks, 64000);
    assert_eq!(window.ticks_done(), window.ticks_wanted());
}

#[test]
fn onset_strength_adds_volumes_of_sounding_voices() {
    let volumes = [[10, 20], [1, 2], [255, 255], [0, 0], [5, 5], [6, 6], [7, 7], [100, 50]];
    assert_eq!(onset_strength(0x00, &volumes), 0);
    assert_eq!(onset_strength(0x01, &volumes), 30);
    assert_eq!(onset_strength(0x05, &volumes), 540);
    assert_eq!(onset_strength(0x80, &volumes), 150);
    assert_eq!(onset_strength(0xFF, &volumes), 30 + 3 + 510 + 10 + 12 + 14 + 150);
    assert_eq!(onset_strength(0xFF, &[[255, 255]; 8]), 4080);
}

#[test]
fn loop_outside_the_waveform_means_no_loop() {
    let entry = DirectoryEntry { start_address: 0x0500, loop_address: 0x0520 };
    let short = SourceInformation::from_decoded(vec![0i16; 55], entry);
    assert_eq!(short.loop_start_sample, 55);
    assert!(short.is_one_shot());
    let exact = SourceInformation::from_decoded(vec![0i16; 56], entry);
    assert_eq!(exact.loop_start_sample, 56);
    assert!(exact.is_one_shot());
    let longer = SourceInformation::from_decoded(vec![0i16; 57], entry);
    assert_eq!(longer.loop_start_sample, 56);
    assert!(!longer.is_one_shot());
    let backwards = DirectoryEntry { start_address: 0x0520, loop_address: 0x0500 };
    let info = SourceInformation::from_decoded(vec![0i16; 32], backwards);
    assert_eq!(info.loop_start_sample, 32);
    assert!(info.is_one_shot());
}

#[test]
fn loop_at_start_is_sample_zero() {
    let entry = DirectoryEntry { start_address: 0x1000, loop_address: 0x1000 };
    let info = SourceInformation::from_decoded(vec![1i16; 16], entry);
    assert_eq!(info.loop_start_sample, 0);
    assert_eq!(info.end_address, 0x1000 + 9);
    assert!(!info.is_one_shot());
    let empty = SourceInformation::from_decoded(vec![], entry);
    assert_eq!(empty.loop_start_sample, 0);
    assert_eq!(empty.end_address, 0x1000);
}
