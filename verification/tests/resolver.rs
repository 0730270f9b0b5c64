use rawfileparser::mzml::{CvParam, UserParam};
use rawfileparser::mzml_spectrum::{
    MzMLSpectrum, MzMLSpectrumMetaData, Precursor, PrecursorList, Activation, Scan, ScanList,
    ScanWindowList, SelectedIon, SelectedIonList, SpectrumData,
};
use rawfileparser::textnum::{is_float_text, parse_i8_str, parse_u8_str, parse_u64_str};

fn cv(accession: &str, value: Option<&str>) -> CvParam {
    CvParam {
        cv_ref: "MS".to_string(),
        accession: accession.to_string(),
        name: "p".to_string(),
        value: value.map(|v| v.to_string()),
        unit_cv_ref: None,
        unit_accession: None,
        unit_name: None,
    }
}

fn empty_scan_list() -> ScanList {
    ScanList { count: "0".to_string(), cv_params: vec![], scans: vec![] }
}

fn scan_with(user_params: Vec<UserParam>, cv_params: Vec<CvParam>) -> Scan {
    Scan {
        instrument_configuration_ref: "IC1".to_string(),
        cv_params,
        user_params,
        scan_window_list: ScanWindowList { count: "0".to_string(), scan_windows: vec![] },
    }
}

fn precursor_with_ion(ion_params: Vec<CvParam>) -> PrecursorList {
    PrecursorList {
        count: "1".to_string(),
        precursors: vec![Precursor {
            spectrum_ref: "scan=1".to_string(),
            isolation_window: None,
            selected_ion_list: SelectedIonList {
                count: "1".to_string(),
                selected_ions: vec![SelectedIon { cv_params: ion_params }],
            },
            activation: Activation { cv_params: vec![] },
        }],
    }
}

fn spectrum(meta: MzMLSpectrumMetaData) -> MzMLSpectrum {
    MzMLSpectrum::new(meta, SpectrumData { mz_list: vec![], intensity_list: vec![] })
}

fn meta(
    cv_params: Vec<CvParam>,
    scan_list: ScanList,
    precursor_list: Option<PrecursorList>,
) -> MzMLSpectrumMetaData {
    MzMLSpectrumMetaData {
        index: "0".to_string(),
        id: "scan=1".to_string(),
        default_array_length: "0".to_string(),
        cv_params,
        scan_list,
        precursor_list,
    }
}

#[test]
fn ms_level_defaults_to_one_without_precursors() {
    let sp = spectrum(meta(vec![], empty_scan_list(), None));
    assert_eq!(sp.get_ms_level(), 1);
}

#[test]
fn ms_level_defaults_to_two_with_precursors() {
    let sp = spectrum(meta(vec![], empty_scan_list(), Some(precursor_with_ion(vec![]))));
    assert_eq!(sp.get_ms_level(), 2);
}

#[test]
fn ms_level_reads_explicit_parameter() {
    let sp = spectrum(meta(vec![cv("MS:1000511", Some("3"))], empty_scan_list(), None));
    assert_eq!(sp.get_ms_level(), 3);
}

#[test]
fn ms_level_unparsable_value_falls_back_to_default() {
    let sp = spectrum(meta(vec![cv("MS:1000511", Some("three"))], empty_scan_list(), None));
    assert_eq!(sp.get_ms_level(), 1);
    let sp2 = spectrum(meta(
        vec![cv("MS:1000511", Some("three"))],
        empty_scan_list(),
        Some(precursor_with_ion(vec![])),
    ));
    assert_eq!(sp2.get_ms_level(), 2);
}

#[test]
fn precursor_mz_prefers_vendor_trailer() {
    let trailer = UserParam {
        name: "[Thermo Trailer Extra]Monoisotopic M/Z:".to_string(),
        value: "810.4152".to_string(),
        param_type: "xsd:double".to_string(),
    };
    let scans = ScanList {
        count: "1".to_string(),
        cv_params: vec![],
        scans: vec![scan_with(vec![trailer], vec![])],
    };
    let ions = vec![cv("MS:1000744", Some("810.7898")), cv("MS:1000041", Some("2"))];
    let sp = spectrum(meta(vec![], scans, Some(precursor_with_ion(ions))));
    let (mz, charge) = sp.get_precursor_mz_and_charge();
    assert_eq!(mz.as_deref(), Some("810.4152"));
    assert_eq!(charge, Some(2));
}

#[test]
fn precursor_mz_falls_back_to_selected_ion() {
    let trailer = UserParam {
        name: "[Thermo Trailer Extra]Monoisotopic M/Z:".to_string(),
        value: "not a number".to_string(),
        param_type: "xsd:double".to_string(),
    };
    let scans = ScanList {
        count: "1".to_string(),
        cv_params: vec![],
        scans: vec![scan_with(vec![trailer], vec![])],
    };
    let ions = vec![cv("MS:1000744", Some("810.7898")), cv("MS:1000041", Some("2"))];
    let sp = spectrum(meta(vec![], scans, Some(precursor_with_ion(ions))));
    let (mz, charge) = sp.get_precursor_mz_and_charge();
    assert_eq!(mz.as_deref(), Some("810.7898"));
    assert_eq!(charge, Some(2));
}

#[test]
fn precursor_charge_unparsable_degrades_to_zero() {
    let ions = vec![cv("MS:1000041", Some("two"))];
    let sp = spectrum(meta(vec![], empty_scan_list(), Some(precursor_with_ion(ions))));
    let (mz, charge) = sp.get_precursor_mz_and_charge();
    assert_eq!(mz, None);
    assert_eq!(charge, Some(0));
}

#[test]
fn precursor_fields_absent_on_survey_scan() {
    let sp = spectrum(meta(vec![cv("MS:1000511", Some("1"))], empty_scan_list(), None));
    let (mz, charge) = sp.get_precursor_mz_and_charge();
    assert_eq!(mz, None);
    assert_eq!(charge, None);
}

#[test]
fn empty_precursor_list_yields_absence_instead_of_failure() {
    let pl = PrecursorList { count: "0".to_string(), precursors: vec![] };
    let sp = spectrum(meta(vec![], empty_scan_list(), Some(pl)));
    assert_eq!(sp.get_ms_level(), 2);
    let (mz, charge) = sp.get_precursor_mz_and_charge();
    assert_eq!(mz, None);
    assert_eq!(charge, None);
}

#[test]
fn first_scan_start_time_reads_raw_text() {
    let scans = ScanList {
        count: "1".to_string(),
        cv_params: vec![],
        scans: vec![scan_with(vec![], vec![cv("MS:1000016", Some("0.004935"))])],
    };
    let sp = spectrum(meta(vec![], scans, None));
    assert_eq!(sp.get_first_scan_start_time().as_deref(), Some("0.004935"));
}

#[test]
fn first_scan_start_time_unparsable_value_is_absent() {
    let scans = ScanList {
        count: "1".to_string(),
        cv_params: vec![],
        scans: vec![scan_with(vec![], vec![cv("MS:1000016", Some("abc"))])],
    };
    let sp = spectrum(meta(vec![], scans, None));
    assert_eq!(sp.get_first_scan_start_time(), None);
}

#[test]
fn first_scan_start_time_absent_without_scans() {
    let sp = spectrum(meta(vec![], empty_scan_list(), None));
    assert_eq!(sp.get_first_scan_start_time(), None);
}

#[test]
fn float_text_follows_std_grammar() {
    assert!(is_float_text("810.4152"));
    assert!(is_float_text("-1.5e-3"));
    assert!(is_float_text("+.5"));
    assert!(is_float_text("2."));
    assert!(is_float_text("1E9"));
    assert!(is_float_text("inf"));
    assert!(is_float_text("-Infinity"));
    assert!(is_float_text("NaN"));
    assert!(!is_float_text(""));
    assert!(!is_float_text("."));
    assert!(!is_float_text("1.2.3"));
    assert!(!is_float_text("1e"));
    assert!(!is_float_text("e5"));
    assert!(!is_float_text(" 1"));
    assert!(!is_float_text("0x10"));
}

#[test]
fn integer_text_follows_std_grammar() {
    assert_eq!(parse_u8_str("2"), Some(2));
    assert_eq!(parse_u8_str("+17"), Some(17));
    assert_eq!(parse_u8_str("255"), Some(255));
    assert_eq!(parse_u8_str("256"), None);
    assert_eq!(parse_u8_str("-1"), None);
    assert_eq!(parse_u8_str(""), None);
    assert_eq!(parse_u8_str("1 "), None);
    assert_eq!(parse_i8_str("-128"), Some(-128));
    assert_eq!(parse_i8_str("127"), Some(127));
    assert_eq!(parse_i8_str("128"), None);
    assert_eq!(parse_i8_str("-129"), None);
    assert_eq!(parse_i8_str("two"), None);
    assert_eq!(parse_u64_str("18446744073709551615"), Some(u64::MAX));
    assert_eq!(parse_u64_str("18446744073709551616"), None);
    assert_eq!(parse_u64_str("00042"), Some(42));
}

#[test]
fn spectrum_accessors_return_the_arrays() {
    let data = SpectrumData {
        mz_list: vec![1u64, 2u64, 3u64],
        intensity_list: vec![4u64, 5u64, 6u64],
    };
    let sp = MzMLSpectrum::new(meta(vec![], empty_scan_list(), None), data);
    assert_eq!(sp.get_mz_list().len(), 3);
    assert_eq!(sp.get_intensity_list().len(), 3);
    assert_eq!(sp.get_mz_list()[1], 2u64);
}
