use rawfileparser::mono::MonoEmbeddinator;
use rawfileparser::streamer::{RawFileStreamer, RawPeaks, SpectrumChunk};
use rawfileparser::RawFileError;

fn header_fragment() -> String {
    let mut s = String::new();
    s.push_str("<?xml version=\"1.0\" encoding=\"utf-8\"?>\n");
    s.push_str("<mzML version=\"1.1.0\" id=\"tiny\">\n");
    s.push_str("  <cvList count=\"0\"></cvList>\n");
    s.push_str("  <fileDescription>\n");
    s.push_str("    <fileContent></fileContent>\n");
    s.push_str("    <sourceFileList count=\"0\"></sourceFileList>\n");
    s.push_str("  </fileDescription>\n");
    s.push_str("  <referenceableParamGroupList count=\"0\"></referenceableParamGroupList>\n");
    s.push_str("  <sampleList count=\"0\"></sampleList>\n");
    s.push_str("  <softwareList count=\"0\"></softwareList>\n");
    s.push_str("  <instrumentConfigurationList count=\"0\"></instrumentConfigurationList>\n");
    s.push_str("  <dataProcessingList count=\"0\"></dataProcessingList>\n");
    s.push_str("  <run id=\"tiny\" defaultInstrumentConfigurationRef=\"IC1\" startTimeStamp=\"2020-01-01T00:00:00Z\" defaultSourceFileRef=\"RAW1\" sampleRef=\"s1\"");
    s
}

fn spectrum_xml(index: u32) -> String {
    let mut s = String::new();
    s.push_str(&format!(
        "<spectrum index=\"{}\" id=\"scan={}\" defaultArrayLength=\"3\">\n",
        index, index
    ));
    s.push_str("  <cvParam cvRef=\"MS\" accession=\"MS:1000511\" value=\"1\" name=\"ms level\" />\n");
    s.push_str("  <scanList count=\"1\">\n");
    s.push_str("    <scan instrumentConfigurationRef=\"IC1\">\n");
    s.push_str("      <scanWindowList count=\"0\"></scanWindowList>\n");
    s.push_str("    </scan>\n");
    s.push_str("  </scanList>\n");
    s.push_str("</spectrum>\n");
    s
}

fn chunk(index: u32, n_peaks: usize) -> SpectrumChunk {
    SpectrumChunk {
        spectrum_xml: spectrum_xml(index),
        peaks: RawPeaks {
            mz_bits: vec![0x3FF0000000000000u64; n_peaks],
            intensity_bits: vec![0x4000000000000000u64; n_peaks],
        },
    }
}

fn configured_mono() -> MonoEmbeddinator {
    let mut mono = MonoEmbeddinator::new();
    mono.configure(7, true).unwrap();
    mono
}

fn open_streamer(mono: &MonoEmbeddinator) -> RawFileStreamer {
    RawFileStreamer::new(
        mono,
        7,
        "./resources/small.RAW".to_string(),
        1,
        3,
        header_fragment().as_str(),
    )
    .unwrap()
}

#[test]
fn open_decodes_truncated_header() {
    let mono = configured_mono();
    let streamer = open_streamer(&mono);
    assert_eq!(streamer.get_first_scan_number(), 1);
    assert_eq!(streamer.get_last_scan_number(), 3);
    assert_eq!(streamer.get_raw_file_path(), "./resources/small.RAW");
    assert_eq!(streamer.meta_data.run.id, "tiny");
    assert_eq!(streamer.meta_data.run.sample_ref, "s1");
}

#[test]
fn open_requires_availability() {
    let mono = MonoEmbeddinator::new();
    let r = RawFileStreamer::new(&mono, 7, "f".to_string(), 1, 3, header_fragment().as_str());
    assert_eq!(r.unwrap_err(), RawFileError::NotConfigured);
}

#[test]
fn open_rejects_malformed_header() {
    let mono = configured_mono();
    let r = RawFileStreamer::new(&mono, 7, "f".to_string(), 1, 3, "<mzML version=\"1.1.0\"");
    assert_eq!(r.unwrap_err(), RawFileError::MalformedMetadata);
}

#[test]
fn scan_number_below_range_is_rejected() {
    let mono = configured_mono();
    let streamer = open_streamer(&mono);
    let r = streamer.get_spectrum(&mono, 7, 0, Err(RawFileError::ForeignCallFailure));
    assert_eq!(r.unwrap_err(), RawFileError::ScanNumberOutOfRange);
}

#[test]
fn scan_number_above_range_is_rejected() {
    let mono = configured_mono();
    let streamer = open_streamer(&mono);
    let r = streamer.get_spectrum(&mono, 7, 4, Err(RawFileError::ForeignCallFailure));
    assert_eq!(r.unwrap_err(), RawFileError::ScanNumberOutOfRange);
    let r2 = streamer.get_spectrum_data(&mono, 7, 4, Ok(chunk(4, 1).peaks));
    assert_eq!(r2.unwrap_err(), RawFileError::ScanNumberOutOfRange);
    let r3 = streamer.get_spectrum_metadadata(&mono, 7, 4, Ok(spectrum_xml(4)));
    assert_eq!(r3.unwrap_err(), RawFileError::ScanNumberOutOfRange);
}

#[test]
fn cross_thread_retrieval_is_rejected_before_range() {
    let mono = configured_mono();
    let streamer = open_streamer(&mono);
    let r = streamer.get_spectrum(&mono, 8, 99, Err(RawFileError::ForeignCallFailure));
    assert_eq!(r.unwrap_err(), RawFileError::CrossThreadViolation);
}

#[test]
fn spectrum_data_arrays_come_out_paired() {
    let mono = configured_mono();
    let streamer = open_streamer(&mono);
    let d = streamer.get_spectrum_data(&mono, 7, 1, Ok(chunk(1, 1750).peaks)).unwrap();
    assert_eq!(d.mz_list.len(), 1750);
    assert_eq!(d.intensity_list.len(), 1750);
    assert_eq!(d.mz_list.len(), d.intensity_list.len());
}

#[test]
fn zero_peaks_yield_empty_arrays() {
    let mono = configured_mono();
    let streamer = open_streamer(&mono);
    let d = streamer.get_spectrum_data(&mono, 7, 2, Ok(chunk(2, 0).peaks)).unwrap();
    assert!(d.mz_list.is_empty());
    assert!(d.intensity_list.is_empty());
}

#[test]
fn fetch_failure_passes_through() {
    let mono = configured_mono();
    let streamer = open_streamer(&mono);
    let r = streamer.get_spectrum_data(&mono, 7, 2, Err(RawFileError::AllocationFailure));
    assert_eq!(r.unwrap_err(), RawFileError::AllocationFailure);
    let r2 = streamer.get_spectrum(&mono, 7, 2, Err(RawFileError::ForeignCallFailure));
    assert_eq!(r2.unwrap_err(), RawFileError::ForeignCallFailure);
}

#[test]
fn full_spectrum_retrieval_decodes_and_pairs() {
    let mono = configured_mono();
    let streamer = open_streamer(&mono);
    let sp = streamer.get_spectrum(&mono, 7, 2, Ok(chunk(2, 3))).unwrap();
    assert_eq!(sp.metadata.id, "scan=2");
    assert_eq!(sp.metadata.default_array_length, "3");
    assert_eq!(sp.get_mz_list().len(), 3);
    assert_eq!(sp.get_intensity_list().len(), 3);
    assert_eq!(sp.get_ms_level(), 1);
}

#[test]
fn spectrum_metadata_retrieval_decodes_chunk() {
    let mono = configured_mono();
    let streamer = open_streamer(&mono);
    let m = streamer.get_spectrum_metadadata(&mono, 7, 3, Ok(spectrum_xml(3))).unwrap();
    assert_eq!(m.index, "3");
    assert_eq!(m.scan_list.scans.len(), 1);
    let bad = streamer.get_spectrum_metadadata(&mono, 7, 3, Ok("<spectrum".to_string()));
    assert_eq!(bad.unwrap_err(), RawFileError::MalformedMetadata);
}

#[test]
fn repeated_retrieval_of_same_scan_yields_identical_values() {
    let mono = configured_mono();
    let streamer = open_streamer(&mono);
    let d1 = streamer.get_spectrum_data(&mono, 7, 1, Ok(chunk(1, 5).peaks)).unwrap();
    let d2 = streamer.get_spectrum_data(&mono, 7, 1, Ok(chunk(1, 5).peaks)).unwrap();
    assert_eq!(d1, d2);
}

#[test]
fn streaming_delivers_every_scan_in_order_and_isolates_failures() {
    let mono = configured_mono();
    let streamer = open_streamer(&mono);
    let fetches = vec![
        Ok(chunk(1, 2)),
        Err(RawFileError::ForeignCallFailure),
        Ok(chunk(3, 4)),
    ];
    let out = streamer.process_spectra(&mono, 7, fetches).unwrap();
    assert_eq!(out.len(), 3);
    assert_eq!(out[0].0, 1);
    assert_eq!(out[1].0, 2);
    assert_eq!(out[2].0, 3);
    assert_eq!(out[0].1.as_ref().unwrap().metadata.id, "scan=1");
    assert_eq!(out[1].1.as_ref().unwrap_err(), &RawFileError::ForeignCallFailure);
    assert_eq!(out[2].1.as_ref().unwrap().metadata.id, "scan=3");
    assert_eq!(out[2].1.as_ref().unwrap().get_mz_list().len(), 4);
}

#[test]
fn streaming_requires_availability() {
    let mono = configured_mono();
    let streamer = open_streamer(&mono);
    let mut disposed = mono.clone();
    disposed.dispose(true).unwrap();
    let r = streamer.process_spectra(&disposed, 7, vec![Ok(chunk(1, 0)), Ok(chunk(2, 0)), Ok(chunk(3, 0))]);
    assert_eq!(r.unwrap_err(), RawFileError::AlreadyDisposed);
}
