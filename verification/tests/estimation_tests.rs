use spc2midi_tsuu::estimation::analysis_range;
use spc2midi_tsuu::estimation::detect_drum;
use spc2midi_tsuu::estimation::detect_nonzero_area;
use spc2midi_tsuu::estimation::estimated_tempo;
use spc2midi_tsuu::estimation::frame_count;
use spc2midi_tsuu::estimation::lag_search_range;
use spc2midi_tsuu::estimation::DrumPolicy;
use spc2midi_tsuu::estimation::SpectralEvidence;
use spc2midi_tsuu::tempo::Tempo;

const NOTHING: SpectralEvidence = SpectralEvidence {
    strong_decay: false,
    flat_spectrum: false,
    high_centroid: false,
    wide_bandwidth: false,
};

#[test]
fn one_shot_is_drum_whatever_the_spectrum() {
    for policy in [DrumPolicy::CentroidAndBandwidth, DrumPolicy::CentroidOrBandwidth] {
        for bits in 0..16u8 {
            let evidence = SpectralEvidence {
                strong_decay: bits & 1 != 0,
                flat_spectrum: bits & 2 != 0,
                high_centroid: bits & 4 != 0,
                wide_bandwidth: bits & 8 != 0,
            };
            assert!(detect_drum(1000, 1000, &evidence, policy));
            assert!(detect_drum(1, 1, &evidence, policy));
        }
    }
}

#[test]
fn looping_source_without_evidence_is_pitched() {
    for policy in [DrumPolicy::CentroidAndBandwidth, DrumPolicy::CentroidOrBandwidth] {
        assert!(!detect_drum(1000, 500, &NOTHING, policy));
        assert!(!detect_drum(1000, 0, &NOTHING, policy));
        assert!(!detect_drum(1000, 999, &NOTHING, policy));
        assert!(!detect_drum(1000, 1001, &NOTHING, policy));
    }
}

#[test]
fn decay_or_flatness_alone_makes_a_drum() {
    let policy = DrumPolicy::default();
    assert_eq!(policy, DrumPolicy::CentroidAndBandwidth);
    assert!(detect_drum(1000, 500, &SpectralEvidence { strong_decay: true, ..NOTHING }, policy));
    assert!(detect_drum(1000, 500, &SpectralEvidence { flat_spectrum: true, ..NOTHING }, policy));
}

#[test]
fn centroid_and_bandwidth_follow_the_policy() {
    let centroid = SpectralEvidence { high_centroid: true, ..NOTHING };
    let bandwidth = SpectralEvidence { wide_bandwidth: true, ..NOTHING };
    let both = SpectralEvidence { high_centroid: true, wide_bandwidth: true, ..NOTHING };
    assert!(!detect_drum(1000, 500, &centroid, DrumPolicy::CentroidAndBandwidth));
    assert!(!detect_drum(1000, 500, &bandwidth, DrumPolicy::CentroidAndBandwidth));
    assert!(detect_drum(1000, 500, &both, DrumPolicy::CentroidAndBandwidth));
    assert!(detect_drum(1000, 500, &centroid, DrumPolicy::CentroidOrBandwidth));
    assert!(detect_drum(1000, 500, &bandwidth, DrumPolicy::CentroidOrBandwidth));
    assert!(detect_drum(1000, 500, &both, DrumPolicy::CentroidOrBandwidth));
}

#[test]
fn empty_one_shot_is_a_drum_too() {
    for policy in [DrumPolicy::CentroidAndBandwidth, DrumPolicy::CentroidOrBandwidth] {
        assert!(detect_drum(0, 0, &NOTHING, policy));
        assert!(!detect_drum(0, 1, &NOTHING, policy));
        assert!(!detect_drum(10, 0, &NOTHING, policy));
        assert!(detect_drum(10, 10, &NOTHING, policy));
    }
}

#[test]
fn nonzero_area_skips_silence_at_both_ends() {
    assert_eq!(detect_nonzero_area(&[0, 0, 5, 0, -3, 0, 0]), (2, 4));
    assert_eq!(detect_nonzero_area(&[1, 2, 3]), (0, 2));
    assert_eq!(detect_nonzero_area(&[0, 0, 0]), (3, 0));
    assert_eq!(detect_nonzero_area(&[7, 0, 0]), (0, 0));
    assert_eq!(detect_nonzero_area(&[0, 0, 7]), (2, 2));
    assert_eq!(detect_nonzero_area(&[0]), (1, 0));
    assert_eq!(detect_nonzero_area(&[9]), (0, 0));
    assert_eq!(detect_nonzero_area(&[]), (0, 0));
    assert_eq!(detect_nonzero_area(&[i16::MIN, 0, i16::MAX]), (0, 2));
}

#[test]
fn analysis_range_trims_only_the_silent_ends() {
    assert_eq!(analysis_range(&[0, 1, 2, 3, 4, 0]), (1, 5));
    assert_eq!(analysis_range(&[0, 0, 5, 0, -3, 0, 0]), (2, 5));
    assert_eq!(analysis_range(&[1, 2, 3]), (0, 3));
    assert_eq!(analysis_range(&[7, 0, 0]), (0, 1));
    assert_eq!(analysis_range(&[0, 0, 7]), (2, 3));
    assert_eq!(analysis_range(&[9]), (0, 1));
    assert_eq!(analysis_range(&[i16::MIN, 0, i16::MAX]), (0, 3));
}

#[test]
fn analysis_range_falls_back_to_the_whole_waveform() {
    assert_eq!(analysis_range(&[0, 0, 0]), (0, 3));
    assert_eq!(analysis_range(&[0]), (0, 1));
    assert_eq!(analysis_range(&[]), (0, 0));
}

#[test]
fn frames_hold_sixty_four_samples() {
    assert_eq!(frame_count(0), 0);
    assert_eq!(frame_count(1), 1);
    assert_eq!(frame_count(64), 1);
    assert_eq!(frame_count(65), 2);
    assert_eq!(frame_count(7_680_000), 120_000);
    assert_eq!(frame_count(usize::MAX), usize::MAX / 64 + 1);
}

#[test]
fn lag_range_covers_thirty_to_two_hundred_forty_beats() {
    assert_eq!(lag_search_range(32000, 60000), Some((125, 1000)));
    assert_eq!(lag_search_range(64000, 60000), Some((250, 2000)));
    assert_eq!(lag_search_range(32000, 1001), Some((125, 1000)));
    assert_eq!(lag_search_range(32000, 1000), Some((125, 999)));
    assert_eq!(lag_search_range(32000, 126), Some((125, 125)));
    assert_eq!(lag_search_range(32000, 125), None);
    assert_eq!(lag_search_range(32000, 0), None);
    assert_eq!(lag_search_range(0, 1), Some((0, 0)));
}

#[test]
fn estimated_tempo_falls_back_to_default() {
    assert_eq!(estimated_tempo(None, 64000), Tempo::from_whole(120));
    assert_eq!(estimated_tempo(Some(0), 64000), Tempo::from_whole(120));
    assert_eq!(estimated_tempo(Some(1), u32::MAX), Tempo::from_whole(120));
    assert_eq!(estimated_tempo(Some(500), 64000), Tempo::from_whole(120));
    assert_eq!(estimated_tempo(Some(250), 64000), Tempo::from_whole(240));
    assert_eq!(estimated_tempo(Some(333), 64000), Tempo { units: 180 * 64 + 16 });
}
