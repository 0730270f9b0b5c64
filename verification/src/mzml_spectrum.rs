//! The per-spectrum metadata model, its verified decoder, and the
//! field resolver.
//!
//! Each scan's metadata arrives as one XML element with index, id and
//! declared array length, a parameter list, the scan list, and an
//! optional precursor list.  The resolver derives the scientifically
//! meaningful fields — MS level, precursor m/z and charge, first-scan
//! start time — with the documented fallback chains.  Numeric values
//! whose machine type is a float travel as raw text or as 64-bit
//! float bit patterns; only the unverified host shell converts them.

use vstd::prelude::*;
use crate::errors::RawFileError;
use crate::textnum::{str_eq, spec_parse_u8, spec_parse_i8, spec_is_float_text};
use crate::mzml::{CvParam, SpecCvParam, UserParam, SpecUserParam, decode_cv_params,
    decode_user_params, spec_cv_params, spec_user_params, MS_LEVEL_CV_ACCESSION,
    CHARGE_STATE_CV_ACCESSION, SCAN_START_TIME_CV_ACCESSION, SELECTED_ION_MZ_CV_ACCESSION};
use crate::xml::{XmlTok, SpecXmlTok, spec_attr, elem_attr, spec_first_child, first_child,
    elem_extent_at, elem_extent, spec_parse_document, parse_document};

verus! {

/// One scan window: the m/z range the analyzer watched.
#[derive(Clone, Debug)]
pub struct ScanWindow {
    pub cv_params: Vec<CvParam>,
}

/// Mathematical image of a `ScanWindow`.
pub struct SpecScanWindow {
    pub cv_params: Seq<SpecCvParam>,
}

impl DeepView for ScanWindow {
    type V = SpecScanWindow;

    open spec fn deep_view(&self) -> SpecScanWindow {
        SpecScanWindow {
            cv_params: self.cv_params.deep_view(),
        }
    }
}

/// The scan windows of one scan.
#[derive(Clone, Debug)]
pub struct ScanWindowList {
    pub count: String,
    pub scan_windows: Vec<ScanWindow>,
}

/// Mathematical image of a `ScanWindowList`.
pub struct SpecScanWindowList {
    pub count: Seq<char>,
    pub scan_windows: Seq<SpecScanWindow>,
}

impl DeepView for ScanWindowList {
    type V = SpecScanWindowList;

    open spec fn deep_view(&self) -> SpecScanWindowList {
        SpecScanWindowList {
            count: self.count@,
            scan_windows: self.scan_windows.deep_view(),
        }
    }
}

/// One scan event, with its instrument reference and parameters.
#[derive(Clone, Debug)]
pub struct Scan {
    pub instrument_configuration_ref: String,
    pub cv_params: Vec<CvParam>,
    pub user_params: Vec<UserParam>,
    pub scan_window_list: ScanWindowList,
}

/// Mathematical image of a `Scan`.
pub struct SpecScan {
    pub instrument_configuration_ref: Seq<char>,
    pub cv_params: Seq<SpecCvParam>,
    pub user_params: Seq<SpecUserParam>,
    pub scan_window_list: SpecScanWindowList,
}

impl DeepView for Scan {
    type V = SpecScan;

    open spec fn deep_view(&self) -> SpecScan {
        SpecScan {
            instrument_configuration_ref: self.instrument_configuration_ref@,
            cv_params: self.cv_params.deep_view(),
            user_params: self.user_params.deep_view(),
            scan_window_list: self.scan_window_list.deep_view(),
        }
    }
}

/// The scan events that produced the spectrum.
#[derive(Clone, Debug)]
pub struct ScanList {
    pub count: String,
    pub cv_params: Vec<CvParam>,
    pub scans: Vec<Scan>,
}

/// Mathematical image of a `ScanList`.
pub struct SpecScanList {
    pub count: Seq<char>,
    pub cv_params: Seq<SpecCvParam>,
    pub scans: Seq<SpecScan>,
}

impl DeepView for ScanList {
    type V = SpecScanList;

    open spec fn deep_view(&self) -> SpecScanList {
        SpecScanList {
            count: self.count@,
            cv_params: self.cv_params.deep_view(),
            scans: self.scans.deep_view(),
        }
    }
}

/// The isolation window around the selected precursor.
#[derive(Clone, Debug)]
pub struct IsolationWindow {
    pub cv_params: Vec<CvParam>,
}

/// Mathematical image of a `IsolationWindow`.
pub struct SpecIsolationWindow {
    pub cv_params: Seq<SpecCvParam>,
}

impl DeepView for IsolationWindow {
    type V = SpecIsolationWindow;

    open spec fn deep_view(&self) -> SpecIsolationWindow {
        SpecIsolationWindow {
            cv_params: self.cv_params.deep_view(),
        }
    }
}

/// One selected precursor ion.
#[derive(Clone, Debug)]
pub struct SelectedIon {
    pub cv_params: Vec<CvParam>,
}

/// Mathematical image of a `SelectedIon`.
pub struct SpecSelectedIon {
    pub cv_params: Seq<SpecCvParam>,
}

impl DeepView for SelectedIon {
    type V = SpecSelectedIon;

    open spec fn deep_view(&self) -> SpecSelectedIon {
        SpecSelectedIon {
            cv_params: self.cv_params.deep_view(),
        }
    }
}

/// The selected precursor ions.
#[derive(Clone, Debug)]
pub struct SelectedIonList {
    pub count: String,
    pub selected_ions: Vec<SelectedIon>,
}

/// Mathematical image of a `SelectedIonList`.
pub struct SpecSelectedIonList {
    pub count: Seq<char>,
    pub selected_ions: Seq<SpecSelectedIon>,
}

impl DeepView for SelectedIonList {
    type V = SpecSelectedIonList;

    open spec fn deep_view(&self) -> SpecSelectedIonList {
        SpecSelectedIonList {
            count: self.count@,
            selected_ions: self.selected_ions.deep_view(),
        }
    }
}

/// How the precursor was fragmented.
#[derive(Clone, Debug)]
pub struct Activation {
    pub cv_params: Vec<CvParam>,
}

/// Mathematical image of a `Activation`.
pub struct SpecActivation {
    pub cv_params: Seq<SpecCvParam>,
}

impl DeepView for Activation {
    type V = SpecActivation;

    open spec fn deep_view(&self) -> SpecActivation {
        SpecActivation {
            cv_params: self.cv_params.deep_view(),
        }
    }
}

/// The precursor that produced a fragmentation spectrum.
#[derive(Clone, Debug)]
pub struct Precursor {
    pub spectrum_ref: String,
    pub isolation_window: Option<IsolationWindow>,
    pub selected_ion_list: SelectedIonList,
    pub activation: Activation,
}

/// Mathematical image of a `Precursor`.
pub struct SpecPrecursor {
    pub spectrum_ref: Seq<char>,
    pub isolation_window: Option<SpecIsolationWindow>,
    pub selected_ion_list: SpecSelectedIonList,
    pub activation: SpecActivation,
}

impl DeepView for Precursor {
    type V = SpecPrecursor;

    open spec fn deep_view(&self) -> SpecPrecursor {
        SpecPrecursor {
            spectrum_ref: self.spectrum_ref@,
            isolation_window: self.isolation_window.deep_view(),
            selected_ion_list: self.selected_ion_list.deep_view(),
            activation: self.activation.deep_view(),
        }
    }
}

/// The precursors of the spectrum.
#[derive(Clone, Debug)]
pub struct PrecursorList {
    pub count: String,
    pub precursors: Vec<Precursor>,
}

/// Mathematical image of a `PrecursorList`.
pub struct SpecPrecursorList {
    pub count: Seq<char>,
    pub precursors: Seq<SpecPrecursor>,
}

impl DeepView for PrecursorList {
    type V = SpecPrecursorList;

    open spec fn deep_view(&self) -> SpecPrecursorList {
        SpecPrecursorList {
            count: self.count@,
            precursors: self.precursors.deep_view(),
        }
    }
}

/// The decoded per-spectrum metadata.
#[derive(Clone, Debug)]
pub struct MzMLSpectrumMetaData {
    pub index: String,
    pub id: String,
    pub default_array_length: String,
    pub cv_params: Vec<CvParam>,
    pub scan_list: ScanList,
    pub precursor_list: Option<PrecursorList>,
}

/// Mathematical image of a `MzMLSpectrumMetaData`.
pub struct SpecMzMLSpectrumMetaData {
    pub index: Seq<char>,
    pub id: Seq<char>,
    pub default_array_length: Seq<char>,
    pub cv_params: Seq<SpecCvParam>,
    pub scan_list: SpecScanList,
    pub precursor_list: Option<SpecPrecursorList>,
}

impl DeepView for MzMLSpectrumMetaData {
    type V = SpecMzMLSpectrumMetaData;

    open spec fn deep_view(&self) -> SpecMzMLSpectrumMetaData {
        SpecMzMLSpectrumMetaData {
            index: self.index@,
            id: self.id@,
            default_array_length: self.default_array_length@,
            cv_params: self.cv_params.deep_view(),
            scan_list: self.scan_list.deep_view(),
            precursor_list: self.precursor_list.deep_view(),
        }
    }
}

/// Decodes one `ScanWindow` record from its element.
pub open spec fn spec_decode_scan_window(toks: Seq<SpecXmlTok>, i: int) -> Option<SpecScanWindow> {
    match spec_cv_params(toks, i) {
        None => None,
        Some(cv_params) => Some(SpecScanWindow { cv_params }),
    }
}

/// Decodes one `ScanWindow` record.
pub fn decode_scan_window(toks: &Vec<XmlTok>, i: usize) -> (r: Option<ScanWindow>)
    requires
        i < toks@.len(),
    ensures
        r is None ==> spec_decode_scan_window(toks.deep_view(), i as int) is None,
        r matches Some(v) ==> spec_decode_scan_window(toks.deep_view(), i as int) == Some(
            v.deep_view(),
        ),
{
    let cv_params = match decode_cv_params(toks, i) {
        None => {
            return None;
        },
        Some(v) => v,
    };
    Some(ScanWindow { cv_params })
}

/// Decodes one `IsolationWindow` record from its element.
pub open spec fn spec_decode_isolation_window(toks: Seq<SpecXmlTok>, i: int) -> Option<SpecIsolationWindow> {
    match spec_cv_params(toks, i) {
        None => None,
        Some(cv_params) => Some(SpecIsolationWindow { cv_params }),
    }
}

/// Decodes one `IsolationWindow` record.
pub fn decode_isolation_window(toks: &Vec<XmlTok>, i: usize) -> (r: Option<IsolationWindow>)
    requires
        i < toks@.len(),
    ensures
        r is None ==> spec_decode_isolation_window(toks.deep_view(), i as int) is None,
        r matches Some(v) ==> spec_decode_isolation_window(toks.deep_view(), i as int) == Some(
            v.deep_view(),
        ),
{
    let cv_params = match decode_cv_params(toks, i) {
        None => {
            return None;
        },
        Some(v) => v,
    };
    Some(IsolationWindow { cv_params })
}

/// Decodes one `SelectedIon` record from its element.
pub open spec fn spec_decode_selected_ion(toks: Seq<SpecXmlTok>, i: int) -> Option<SpecSelectedIon> {
    match spec_cv_params(toks, i) {
        None => None,
        Some(cv_params) => Some(SpecSelectedIon { cv_params }),
    }
}

/// Decodes one `SelectedIon` record.
pub fn decode_selected_ion(toks: &Vec<XmlTok>, i: usize) -> (r: Option<SelectedIon>)
    requires
        i < toks@.len(),
    ensures
        r is None ==> spec_decode_selected_ion(toks.deep_view(), i as int) is None,
        r matches Some(v) ==> spec_decode_selected_ion(toks.deep_view(), i as int) == Some(
            v.deep_view(),
        ),
{
    let cv_params = match decode_cv_params(toks, i) {
        None => {
            return None;
        },
        Some(v) => v,
    };
    Some(SelectedIon { cv_params })
}

/// Decodes one `Activation` record from its element.
pub open spec fn spec_decode_activation(toks: Seq<SpecXmlTok>, i: int) -> Option<SpecActivation> {
    match spec_cv_params(toks, i) {
        None => None,
        Some(cv_params) => Some(SpecActivation { cv_params }),
    }
}

/// Decodes one `Activation` record.
pub fn decode_activation(toks: &Vec<XmlTok>, i: usize) -> (r: Option<Activation>)
    requires
        i < toks@.len(),
    ensures
        r is None ==> spec_decode_activation(toks.deep_view(), i as int) is None,
        r matches Some(v) ==> spec_decode_activation(toks.deep_view(), i as int) == Some(
            v.deep_view(),
        ),
{
    let cv_params = match decode_cv_params(toks, i) {
        None => {
            return None;
        },
        Some(v) => v,
    };
    Some(Activation { cv_params })
}

/// Walks the direct children from `i`, decoding every `scanWindow`.
pub open spec fn spec_scan_window_items_from(toks: Seq<SpecXmlTok>, i: int, acc: Seq<SpecScanWindow>) -> Option<
    Seq<SpecScanWindow>,
>
    decreases toks.len() - i when 0 <= i <= toks.len()
{
    if i >= toks.len() {
        None
    } else {
        match toks[i] {
            SpecXmlTok::Close { .. } => Some(acc),
            SpecXmlTok::Open { name, .. } => {
                if name == "scanWindow"@ {
                    match spec_decode_scan_window(toks, i) {
                        None => None,
                        Some(p) => match elem_extent_at(toks, i) {
                            None => None,
                            Some(j) => if j <= i || j > toks.len() {
                                None
                            } else {
                                spec_scan_window_items_from(toks, j, acc.push(p))
                            },
                        },
                    }
                } else {
                    match elem_extent_at(toks, i) {
                        None => None,
                        Some(j) => if j <= i || j > toks.len() {
                            None
                        } else {
                            spec_scan_window_items_from(toks, j, acc)
                        },
                    }
                }
            },
        }
    }
}

/// The `scanWindow` children of the element at `i`.
pub open spec fn spec_scan_window_items(toks: Seq<SpecXmlTok>, i: int) -> Option<Seq<SpecScanWindow>> {
    if !(0 <= i < toks.len()) {
        None
    } else {
        match toks[i] {
            SpecXmlTok::Close { .. } => None,
            SpecXmlTok::Open { self_closing, .. } => if self_closing {
                Some(Seq::empty())
            } else {
                spec_scan_window_items_from(toks, i + 1, Seq::empty())
            },
        }
    }
}

/// Decodes the `scanWindow` children of the element at `i`.
#[verifier::loop_isolation(false)]
pub fn decode_scan_window_items(toks: &Vec<XmlTok>, i: usize) -> (r: Option<Vec<ScanWindow>>)
    requires
        i < toks@.len(),
    ensures
        r is None ==> spec_scan_window_items(toks.deep_view(), i as int) is None,
        r matches Some(v) ==> spec_scan_window_items(toks.deep_view(), i as int) == Some(v.deep_view()),
{
    let ghost dv = toks.deep_view();
    proof {
        assert(dv[i as int] == toks@[i as int].deep_view());
    }
    let n = toks.len();
    match &toks[i] {
        XmlTok::Close { .. } => None,
        XmlTok::Open { self_closing, .. } => {
            let mut out: Vec<ScanWindow> = Vec::new();
            proof {
                assert(out.deep_view() =~= Seq::<SpecScanWindow>::empty());
            }
            if *self_closing {
                return Some(out);
            }
            let mut cur: usize = i + 1;
            loop
                invariant
                    i + 1 <= cur <= n,
                    spec_scan_window_items_from(dv, i + 1, Seq::empty()) == spec_scan_window_items_from(
                        dv,
                        cur as int,
                        out.deep_view(),
                    ),
                decreases n - cur,
            {
                if cur >= n {
                    return None;
                }
                proof {
                    assert(dv[cur as int] == toks@[cur as int].deep_view());
                }
                match &toks[cur] {
                    XmlTok::Close { .. } => {
                        return Some(out);
                    },
                    XmlTok::Open { name, .. } => {
                        if str_eq(name.as_str(), "scanWindow") {
                            match decode_scan_window(toks, cur) {
                                None => {
                                    return None;
                                },
                                Some(p) => {
                                    let ghost prev = out.deep_view();
                                    let ghost pdv = p.deep_view();
                                    out.push(p);
                                    proof {
                                        assert(out.deep_view() =~= prev.push(pdv));
                                    }
                                },
                            }
                        }
                        match elem_extent(toks, cur) {
                            None => {
                                return None;
                            },
                            Some(j) => {
                                if j <= cur {
                                    return None;
                                }
                                cur = j;
                            },
                        }
                    },
                }
            }
        },
    }
}

/// Walks the direct children from `i`, decoding every `selectedIon`.
pub open spec fn spec_selected_ion_items_from(toks: Seq<SpecXmlTok>, i: int, acc: Seq<SpecSelectedIon>) -> Option<
    Seq<SpecSelectedIon>,
>
    decreases toks.len() - i when 0 <= i <= toks.len()
{
    if i >= toks.len() {
        None
    } else {
        match toks[i] {
            SpecXmlTok::Close { .. } => Some(acc),
            SpecXmlTok::Open { name, .. } => {
                if name == "selectedIon"@ {
                    match spec_decode_selected_ion(toks, i) {
                        None => None,
                        Some(p) => match elem_extent_at(toks, i) {
                            None => None,
                            Some(j) => if j <= i || j > toks.len() {
                                None
                            } else {
                                spec_selected_ion_items_from(toks, j, acc.push(p))
                            },
                        },
                    }
                } else {
                    match elem_extent_at(toks, i) {
                        None => None,
                        Some(j) => if j <= i || j > toks.len() {
                            None
                        } else {
                            spec_selected_ion_items_from(toks, j, acc)
                        },
                    }
                }
            },
        }
    }
}

/// The `selectedIon` children of the element at `i`.
pub open spec fn spec_selected_ion_items(toks: Seq<SpecXmlTok>, i: int) -> Option<Seq<SpecSelectedIon>> {
    if !(0 <= i < toks.len()) {
        None
    } else {
        match toks[i] {
            SpecXmlTok::Close { .. } => None,
            SpecXmlTok::Open { self_closing, .. } => if self_closing {
                Some(Seq::empty())
            } else {
                spec_selected_ion_items_from(toks, i + 1, Seq::empty())
            },
        }
    }
}

/// Decodes the `selectedIon` children of the element at `i`.
#[verifier::loop_isolation(false)]
pub fn decode_selected_ion_items(toks: &Vec<XmlTok>, i: usize) -> (r: Option<Vec<SelectedIon>>)
    requires
        i < toks@.len(),
    ensures
        r is None ==> spec_selected_ion_items(toks.deep_view(), i as int) is None,
        r matches Some(v) ==> spec_selected_ion_items(toks.deep_view(), i as int) == Some(v.deep_view()),
{
    let ghost dv = toks.deep_view();
    proof {
        assert(dv[i as int] == toks@[i as int].deep_view());
    }
    let n = toks.len();
    match &toks[i] {
        XmlTok::Close { .. } => None,
        XmlTok::Open { self_closing, .. } => {
            let mut out: Vec<SelectedIon> = Vec::new();
            proof {
                assert(out.deep_view() =~= Seq::<SpecSelectedIon>::empty());
            }
            if *self_closing {
                return Some(out);
            }
            let mut cur: usize = i + 1;
            loop
                invariant
                    i + 1 <= cur <= n,
                    spec_selected_ion_items_from(dv, i + 1, Seq::empty()) == spec_selected_ion_items_from(
                        dv,
                        cur as int,
                        out.deep_view(),
                    ),
                decreases n - cur,
            {
                if cur >= n {
                    return None;
                }
                proof {
                    assert(dv[cur as int] == toks@[cur as int].deep_view());
                }
                match &toks[cur] {
                    XmlTok::Close { .. } => {
                        return Some(out);
                    },
                    XmlTok::Open { name, .. } => {
                        if str_eq(name.as_str(), "selectedIon") {
                            match decode_selected_ion(toks, cur) {
                                None => {
                                    return None;
                                },
                                Some(p) => {
                                    let ghost prev = out.deep_view();
                                    let ghost pdv = p.deep_view();
                                    out.push(p);
                                    proof {
                                        assert(out.deep_view() =~= prev.push(pdv));
                                    }
                                },
                            }
                        }
                        match elem_extent(toks, cur) {
                            None => {
                                return None;
                            },
                            Some(j) => {
                                if j <= cur {
                                    return None;
                                }
                                cur = j;
                            },
                        }
                    },
                }
            }
        },
    }
}

/// Decodes one `ScanWindowList` record from its element.
pub open spec fn spec_decode_scan_window_list(toks: Seq<SpecXmlTok>, i: int) -> Option<SpecScanWindowList> {
    match spec_attr(toks, i, "count"@) {
        None => None,
        Some(count) => match spec_scan_window_items(toks, i) {
            None => None,
            Some(scan_windows) => Some(SpecScanWindowList { count, scan_windows }),
        },
    }
}

/// Decodes one `ScanWindowList` record.
pub fn decode_scan_window_list(toks: &Vec<XmlTok>, i: usize) -> (r: Option<ScanWindowList>)
    requires
        i < toks@.len(),
    ensures
        r is None ==> spec_decode_scan_window_list(toks.deep_view(), i as int) is None,
        r matches Some(v) ==> spec_decode_scan_window_list(toks.deep_view(), i as int) == Some(
            v.deep_view(),
        ),
{
    let count = match elem_attr(toks, i, "count") {
        None => {
            return None;
        },
        Some(v) => v,
    };
    let scan_windows = match decode_scan_window_items(toks, i) {
        None => {
            return None;
        },
        Some(v) => v,
    };
    Some(ScanWindowList { count, scan_windows })
}

/// Decodes one `SelectedIonList` record from its element.
pub open spec fn spec_decode_selected_ion_list(toks: Seq<SpecXmlTok>, i: int) -> Option<SpecSelectedIonList> {
    match spec_attr(toks, i, "count"@) {
        None => None,
        Some(count) => match spec_selected_ion_items(toks, i) {
            None => None,
            Some(selected_ions) => Some(SpecSelectedIonList { count, selected_ions }),
        },
    }
}

/// Decodes one `SelectedIonList` record.
pub fn decode_selected_ion_list(toks: &Vec<XmlTok>, i: usize) -> (r: Option<SelectedIonList>)
    requires
        i < toks@.len(),
    ensures
        r is None ==> spec_decode_selected_ion_list(toks.deep_view(), i as int) is None,
        r matches Some(v) ==> spec_decode_selected_ion_list(toks.deep_view(), i as int) == Some(
            v.deep_view(),
        ),
{
    let count = match elem_attr(toks, i, "count") {
        None => {
            return None;
        },
        Some(v) => v,
    };
    let selected_ions = match decode_selected_ion_items(toks, i) {
        None => {
            return None;
        },
        Some(v) => v,
    };
    Some(SelectedIonList { count, selected_ions })
}

/// Walks the direct children from `i`, decoding every `scan`.
pub open spec fn spec_scan_items_from(toks: Seq<SpecXmlTok>, i: int, acc: Seq<SpecScan>) -> Option<
    Seq<SpecScan>,
>
    decreases toks.len() - i when 0 <= i <= toks.len()
{
    if i >= toks.len() {
        None
    } else {
        match toks[i] {
            SpecXmlTok::Close { .. } => Some(acc),
            SpecXmlTok::Open { name, .. } => {
                if name == "scan"@ {
                    match spec_decode_scan(toks, i) {
                        None => None,
                        Some(p) => match elem_extent_at(toks, i) {
                            None => None,
                            Some(j) => if j <= i || j > toks.len() {
                                None
                            } else {
                                spec_scan_items_from(toks, j, acc.push(p))
                            },
                        },
                    }
                } else {
                    match elem_extent_at(toks, i) {
                        None => None,
                        Some(j) => if j <= i || j > toks.len() {
                            None
                        } else {
                            spec_scan_items_from(toks, j, acc)
                        },
                    }
                }
            },
        }
    }
}

/// The `scan` children of the element at `i`.
pub open spec fn spec_scan_items(toks: Seq<SpecXmlTok>, i: int) -> Option<Seq<SpecScan>> {
    if !(0 <= i < toks.len()) {
        None
    } else {
        match toks[i] {
            SpecXmlTok::Close { .. } => None,
            SpecXmlTok::Open { self_closing, .. } => if self_closing {
                Some(Seq::empty())
            } else {
                spec_scan_items_from(toks, i + 1, Seq::empty())
            },
        }
    }
}

/// Decodes the `scan` children of the element at `i`.
#[verifier::loop_isolation(false)]
pub fn decode_scan_items(toks: &Vec<XmlTok>, i: usize) -> (r: Option<Vec<Scan>>)
    requires
        i < toks@.len(),
    ensures
        r is None ==> spec_scan_items(toks.deep_view(), i as int) is None,
        r matches Some(v) ==> spec_scan_items(toks.deep_view(), i as int) == Some(v.deep_view()),
{
    let ghost dv = toks.deep_view();
    proof {
        assert(dv[i as int] == toks@[i as int].deep_view());
    }
    let n = toks.len();
    match &toks[i] {
        XmlTok::Close { .. } => None,
        XmlTok::Open { self_closing, .. } => {
            let mut out: Vec<Scan> = Vec::new();
            proof {
                assert(out.deep_view() =~= Seq::<SpecScan>::empty());
            }
            if *self_closing {
                return Some(out);
            }
            let mut cur: usize = i + 1;
            loop
                invariant
                    i + 1 <= cur <= n,
                    spec_scan_items_from(dv, i + 1, Seq::empty()) == spec_scan_items_from(
                        dv,
                        cur as int,
                        out.deep_view(),
                    ),
                decreases n - cur,
            {
                if cur >= n {
                    return None;
                }
                proof {
                    assert(dv[cur as int] == toks@[cur as int].deep_view());
                }
                match &toks[cur] {
                    XmlTok::Close { .. } => {
                        return Some(out);
                    },
                    XmlTok::Open { name, .. } => {
                        if str_eq(name.as_str(), "scan") {
                            match decode_scan(toks, cur) {
                                None => {
                                    return None;
                                },
                                Some(p) => {
                                    let ghost prev = out.deep_view();
                                    let ghost pdv = p.deep_view();
                                    out.push(p);
                                    proof {
                                        assert(out.deep_view() =~= prev.push(pdv));
                                    }
                                },
                            }
                        }
                        match elem_extent(toks, cur) {
                            None => {
                                return None;
                            },
                            Some(j) => {
                                if j <= cur {
                                    return None;
                                }
                                cur = j;
                            },
                        }
                    },
                }
            }
        },
    }
}

/// Walks the direct children from `i`, decoding every `precursor`.
pub open spec fn spec_precursor_items_from(toks: Seq<SpecXmlTok>, i: int, acc: Seq<SpecPrecursor>) -> Option<
    Seq<SpecPrecursor>,
>
    decreases toks.len() - i when 0 <= i <= toks.len()
{
    if i >= toks.len() {
        None
    } else {
        match toks[i] {
            SpecXmlTok::Close { .. } => Some(acc),
            SpecXmlTok::Open { name, .. } => {
                if name == "precursor"@ {
                    match spec_decode_precursor(toks, i) {
                        None => None,
                        Some(p) => match elem_extent_at(toks, i) {
                            None => None,
                            Some(j) => if j <= i || j > toks.len() {
                                None
                            } else {
                                spec_precursor_items_from(toks, j, acc.push(p))
                            },
                        },
                    }
                } else {
                    match elem_extent_at(toks, i) {
                        None => None,
                        Some(j) => if j <= i || j > toks.len() {
                            None
                        } else {
                            spec_precursor_items_from(toks, j, acc)
                        },
                    }
                }
            },
        }
    }
}

/// The `precursor` children of the element at `i`.
pub open spec fn spec_precursor_items(toks: Seq<SpecXmlTok>, i: int) -> Option<Seq<SpecPrecursor>> {
    if !(0 <= i < toks.len()) {
        None
    } else {
        match toks[i] {
            SpecXmlTok::Close { .. } => None,
            SpecXmlTok::Open { self_closing, .. } => if self_closing {
                Some(Seq::empty())
            } else {
                spec_precursor_items_from(toks, i + 1, Seq::empty())
            },
        }
    }
}

/// Decodes the `precursor` children of the element at `i`.
#[verifier::loop_isolation(false)]
pub fn decode_precursor_items(toks: &Vec<XmlTok>, i: usize) -> (r: Option<Vec<Precursor>>)
    requires
        i < toks@.len(),
    ensures
        r is None ==> spec_precursor_items(toks.deep_view(), i as int) is None,
        r matches Some(v) ==> spec_precursor_items(toks.deep_view(), i as int) == Some(v.deep_view()),
{
    let ghost dv = toks.deep_view();
    proof {
        assert(dv[i as int] == toks@[i as int].deep_view());
    }
    let n = toks.len();
    match &toks[i] {
        XmlTok::Close { .. } => None,
        XmlTok::Open { self_closing, .. } => {
            let mut out: Vec<Precursor> = Vec::new();
            proof {
                assert(out.deep_view() =~= Seq::<SpecPrecursor>::empty());
            }
            if *self_closing {
                return Some(out);
            }
            let mut cur: usize = i + 1;
            loop
                invariant
                    i + 1 <= cur <= n,
                    spec_precursor_items_from(dv, i + 1, Seq::empty()) == spec_precursor_items_from(
                        dv,
                        cur as int,
                        out.deep_view(),
                    ),
                decreases n - cur,
            {
                if cur >= n {
                    return None;
                }
                proof {
                    assert(dv[cur as int] == toks@[cur as int].deep_view());
                }
                match &toks[cur] {
                    XmlTok::Close { .. } => {
                        return Some(out);
                    },
                    XmlTok::Open { name, .. } => {
                        if str_eq(name.as_str(), "precursor") {
                            match decode_precursor(toks, cur) {
                                None => {
                                    return None;
                                },
                                Some(p) => {
                                    let ghost prev = out.deep_view();
                                    let ghost pdv = p.deep_view();
                                    out.push(p);
                                    proof {
                                        assert(out.deep_view() =~= prev.push(pdv));
                                    }
                                },
                            }
                        }
                        match elem_extent(toks, cur) {
                            None => {
                                return None;
                            },
                            Some(j) => {
                                if j <= cur {
                                    return None;
                                }
                                cur = j;
                            },
                        }
                    },
                }
            }
        },
    }
}

/// Decodes one `Scan` record: attributes, parameters and its scan
/// windows.
pub open spec fn spec_decode_scan(toks: Seq<SpecXmlTok>, i: int) -> Option<SpecScan> {
    match spec_attr(toks, i, "instrumentConfigurationRef"@) {
        None => None,
        Some(instrument_configuration_ref) => match spec_cv_params(toks, i) {
            None => None,
            Some(cv_params) => match spec_user_params(toks, i) {
                None => None,
                Some(user_params) => match spec_first_child(toks, i, "scanWindowList"@) {
                    None => None,
                    Some(j) => match spec_decode_scan_window_list(toks, j) {
                        None => None,
                        Some(scan_window_list) => Some(
                            SpecScan {
                                instrument_configuration_ref,
                                cv_params,
                                user_params,
                                scan_window_list,
                            },
                        ),
                    },
                },
            },
        },
    }
}

/// Decodes one `Scan` record.
pub fn decode_scan(toks: &Vec<XmlTok>, i: usize) -> (r: Option<Scan>)
    requires
        i < toks@.len(),
    ensures
        r is None ==> spec_decode_scan(toks.deep_view(), i as int) is None,
        r matches Some(v) ==> spec_decode_scan(toks.deep_view(), i as int) == Some(v.deep_view()),
{
    let instrument_configuration_ref = match elem_attr(toks, i, "instrumentConfigurationRef") {
        None => {
            return None;
        },
        Some(v) => v,
    };
    let cv_params = match decode_cv_params(toks, i) {
        None => {
            return None;
        },
        Some(v) => v,
    };
    let user_params = match decode_user_params(toks, i) {
        None => {
            return None;
        },
        Some(v) => v,
    };
    let j = match first_child(toks, i, "scanWindowList") {
        None => {
            return None;
        },
        Some(j) => j,
    };
    let scan_window_list = match decode_scan_window_list(toks, j) {
        None => {
            return None;
        },
        Some(v) => v,
    };
    Some(Scan { instrument_configuration_ref, cv_params, user_params, scan_window_list })
}

/// Decodes one `ScanList` record: its count, parameters and scans.
pub open spec fn spec_decode_scan_list(toks: Seq<SpecXmlTok>, i: int) -> Option<SpecScanList> {
    match spec_attr(toks, i, "count"@) {
        None => None,
        Some(count) => match spec_cv_params(toks, i) {
            None => None,
            Some(cv_params) => match spec_scan_items(toks, i) {
                None => None,
                Some(scans) => Some(SpecScanList { count, cv_params, scans }),
            },
        },
    }
}

/// Decodes one `ScanList` record.
pub fn decode_scan_list(toks: &Vec<XmlTok>, i: usize) -> (r: Option<ScanList>)
    requires
        i < toks@.len(),
    ensures
        r is None ==> spec_decode_scan_list(toks.deep_view(), i as int) is None,
        r matches Some(v) ==> spec_decode_scan_list(toks.deep_view(), i as int) == Some(
            v.deep_view(),
        ),
{
    let count = match elem_attr(toks, i, "count") {
        None => {
            return None;
        },
        Some(v) => v,
    };
    let cv_params = match decode_cv_params(toks, i) {
        None => {
            return None;
        },
        Some(v) => v,
    };
    let scans = match decode_scan_items(toks, i) {
        None => {
            return None;
        },
        Some(v) => v,
    };
    Some(ScanList { count, cv_params, scans })
}

/// Decodes one `Precursor` record: its reference, optional isolation
/// window, selected ions and activation.
pub open spec fn spec_decode_precursor(toks: Seq<SpecXmlTok>, i: int) -> Option<SpecPrecursor> {
    match spec_attr(toks, i, "spectrumRef"@) {
        None => None,
        Some(spectrum_ref) => {
            let iso_r: Option<Option<SpecIsolationWindow>> = match spec_first_child(
                toks,
                i,
                "isolationWindow"@,
            ) {
                None => Some(None),
                Some(j) => match spec_decode_isolation_window(toks, j) {
                    None => None,
                    Some(w) => Some(Some(w)),
                },
            };
            match iso_r {
                None => None,
                Some(isolation_window) => match spec_first_child(toks, i, "selectedIonList"@) {
                    None => None,
                    Some(j) => match spec_decode_selected_ion_list(toks, j) {
                        None => None,
                        Some(selected_ion_list) => match spec_first_child(toks, i, "activation"@) {
                            None => None,
                            Some(k) => match spec_decode_activation(toks, k) {
                                None => None,
                                Some(activation) => Some(
                                    SpecPrecursor {
                                        spectrum_ref,
                                        isolation_window,
                                        selected_ion_list,
                                        activation,
                                    },
                                ),
                            },
                        },
                    },
                },
            }
        },
    }
}

/// Decodes one `Precursor` record.
pub fn decode_precursor(toks: &Vec<XmlTok>, i: usize) -> (r: Option<Precursor>)
    requires
        i < toks@.len(),
    ensures
        r is None ==> spec_decode_precursor(toks.deep_view(), i as int) is None,
        r matches Some(v) ==> spec_decode_precursor(toks.deep_view(), i as int) == Some(
            v.deep_view(),
        ),
{
    let spectrum_ref = match elem_attr(toks, i, "spectrumRef") {
        None => {
            return None;
        },
        Some(v) => v,
    };
    let isolation_window: Option<IsolationWindow> = match first_child(toks, i, "isolationWindow") {
        None => None,
        Some(j) => match decode_isolation_window(toks, j) {
            None => {
                return None;
            },
            Some(w) => Some(w),
        },
    };
    let j = match first_child(toks, i, "selectedIonList") {
        None => {
            return None;
        },
        Some(j) => j,
    };
    let selected_ion_list = match decode_selected_ion_list(toks, j) {
        None => {
            return None;
        },
        Some(v) => v,
    };
    let k = match first_child(toks, i, "activation") {
        None => {
            return None;
        },
        Some(k) => k,
    };
    let activation = match decode_activation(toks, k) {
        None => {
            return None;
        },
        Some(v) => v,
    };
    Some(Precursor { spectrum_ref, isolation_window, selected_ion_list, activation })
}

/// Decodes one `PrecursorList` record.
pub open spec fn spec_decode_precursor_list(toks: Seq<SpecXmlTok>, i: int) -> Option<
    SpecPrecursorList,
> {
    match spec_attr(toks, i, "count"@) {
        None => None,
        Some(count) => match spec_precursor_items(toks, i) {
            None => None,
            Some(precursors) => Some(SpecPrecursorList { count, precursors }),
        },
    }
}

/// Decodes one `PrecursorList` record.
pub fn decode_precursor_list(toks: &Vec<XmlTok>, i: usize) -> (r: Option<PrecursorList>)
    requires
        i < toks@.len(),
    ensures
        r is None ==> spec_decode_precursor_list(toks.deep_view(), i as int) is None,
        r matches Some(v) ==> spec_decode_precursor_list(toks.deep_view(), i as int) == Some(
            v.deep_view(),
        ),
{
    let count = match elem_attr(toks, i, "count") {
        None => {
            return None;
        },
        Some(v) => v,
    };
    let precursors = match decode_precursor_items(toks, i) {
        None => {
            return None;
        },
        Some(v) => v,
    };
    Some(PrecursorList { count, precursors })
}

/// Decodes the per-spectrum metadata from its root element.
pub open spec fn spec_decode_spectrum_metadata(toks: Seq<SpecXmlTok>, i: int) -> Option<
    SpecMzMLSpectrumMetaData,
> {
    match spec_attr(toks, i, "index"@) {
        None => None,
        Some(index) => match spec_attr(toks, i, "id"@) {
            None => None,
            Some(id) => match spec_attr(toks, i, "defaultArrayLength"@) {
                None => None,
                Some(default_array_length) => match spec_cv_params(toks, i) {
                    None => None,
                    Some(cv_params) => match spec_first_child(toks, i, "scanList"@) {
                        None => None,
                        Some(j) => match spec_decode_scan_list(toks, j) {
                            None => None,
                            Some(scan_list) => {
                                let pl_r: Option<Option<SpecPrecursorList>> = match spec_first_child(
                                    toks,
                                    i,
                                    "precursorList"@,
                                ) {
                                    None => Some(None),
                                    Some(k) => match spec_decode_precursor_list(toks, k) {
                                        None => None,
                                        Some(pl) => Some(Some(pl)),
                                    },
                                };
                                match pl_r {
                                    None => None,
                                    Some(precursor_list) => Some(
                                        SpecMzMLSpectrumMetaData {
                                            index,
                                            id,
                                            default_array_length,
                                            cv_params,
                                            scan_list,
                                            precursor_list,
                                        },
                                    ),
                                }
                            },
                        },
                    },
                },
            },
        },
    }
}

/// Decodes the per-spectrum metadata from its root element.
pub fn decode_spectrum_metadata(toks: &Vec<XmlTok>, i: usize) -> (r: Option<MzMLSpectrumMetaData>)
    requires
        i < toks@.len(),
    ensures
        r is None ==> spec_decode_spectrum_metadata(toks.deep_view(), i as int) is None,
        r matches Some(v) ==> spec_decode_spectrum_metadata(toks.deep_view(), i as int) == Some(
            v.deep_view(),
        ),
{
    let index = match elem_attr(toks, i, "index") {
        None => {
            return None;
        },
        Some(v) => v,
    };
    let id = match elem_attr(toks, i, "id") {
        None => {
            return None;
        },
        Some(v) => v,
    };
    let default_array_length = match elem_attr(toks, i, "defaultArrayLength") {
        None => {
            return None;
        },
        Some(v) => v,
    };
    let cv_params = match decode_cv_params(toks, i) {
        None => {
            return None;
        },
        Some(v) => v,
    };
    let j = match first_child(toks, i, "scanList") {
        None => {
            return None;
        },
        Some(j) => j,
    };
    let scan_list = match decode_scan_list(toks, j) {
        None => {
            return None;
        },
        Some(v) => v,
    };
    let precursor_list: Option<PrecursorList> = match first_child(toks, i, "precursorList") {
        None => None,
        Some(k) => match decode_precursor_list(toks, k) {
            None => {
                return None;
            },
            Some(pl) => Some(pl),
        },
    };
    Some(MzMLSpectrumMetaData { index, id, default_array_length, cv_params, scan_list, precursor_list })
}

/// What decoding a per-spectrum document yields.
pub open spec fn spec_parse_mzml_spectrum_metadata(s: Seq<char>) -> Option<
    SpecMzMLSpectrumMetaData,
> {
    match spec_parse_document(s) {
        None => None,
        Some(toks) => spec_decode_spectrum_metadata(toks, 0),
    }
}

/// Decodes per-spectrum metadata from the XML chunk that the foreign
/// engine wrote for a single scan.
pub fn parse_mzml_spectrum_metadata(spectrum_header: &str) -> (r: Result<
    MzMLSpectrumMetaData,
    RawFileError,
>)
    ensures
        r matches Ok(m) ==> spec_parse_mzml_spectrum_metadata(spectrum_header@) == Some(
            m.deep_view(),
        ),
        r matches Err(e) ==> spec_parse_mzml_spectrum_metadata(spectrum_header@) is None && e
            == RawFileError::MalformedMetadata,
{
    match parse_document(spectrum_header) {
        None => Err(RawFileError::MalformedMetadata),
        Some(toks) => {
            proof {
                assert(toks.deep_view().len() == toks@.len());
            }
            match decode_spectrum_metadata(&toks, 0) {
                None => Err(RawFileError::MalformedMetadata),
                Some(m) => Ok(m),
            }
        },
    }
}

/// The first controlled-vocabulary parameter with the given accession,
/// scanning from index `k`.
pub open spec fn spec_find_cv(params: Seq<SpecCvParam>, k: int, accession: Seq<char>) -> Option<
    SpecCvParam,
>
    decreases params.len() - k when 0 <= k <= params.len()
{
    if k >= params.len() {
        None
    } else if params[k].accession == accession {
        Some(params[k])
    } else {
        spec_find_cv(params, k + 1, accession)
    }
}

/// Finds the first controlled-vocabulary parameter with the given
/// accession, yielding its index.
#[verifier::loop_isolation(false)]
pub fn find_cv_param(params: &Vec<CvParam>, accession: &str) -> (r: Option<usize>)
    ensures
        r is None ==> spec_find_cv(params.deep_view(), 0, accession@) is None,
        r matches Some(k) ==> k < params@.len() && spec_find_cv(params.deep_view(), 0, accession@)
            == Some(params.deep_view()[k as int]),
{
    let ghost dv = params.deep_view();
    let n = params.len();
    let mut k: usize = 0;
    while k < n
        invariant
            0 <= k <= n,
            spec_find_cv(dv, 0, accession@) == spec_find_cv(dv, k as int, accession@),
        decreases n - k,
    {
        proof {
            assert(dv[k as int] == params@[k as int].deep_view());
        }
        if str_eq(params[k].accession.as_str(), accession) {
            return Some(k);
        }
        k += 1;
    }
    None
}

/// The first free-form parameter with the given name, scanning from
/// index `k`.
pub open spec fn spec_find_user(params: Seq<SpecUserParam>, k: int, name: Seq<char>) -> Option<
    SpecUserParam,
>
    decreases params.len() - k when 0 <= k <= params.len()
{
    if k >= params.len() {
        None
    } else if params[k].name == name {
        Some(params[k])
    } else {
        spec_find_user(params, k + 1, name)
    }
}

/// Finds the first free-form parameter with the given name, yielding
/// its index.
#[verifier::loop_isolation(false)]
pub fn find_user_param(params: &Vec<UserParam>, name: &str) -> (r: Option<usize>)
    ensures
        r is None ==> spec_find_user(params.deep_view(), 0, name@) is None,
        r matches Some(k) ==> k < params@.len() && spec_find_user(params.deep_view(), 0, name@)
            == Some(params.deep_view()[k as int]),
{
    let ghost dv = params.deep_view();
    let n = params.len();
    let mut k: usize = 0;
    while k < n
        invariant
            0 <= k <= n,
            spec_find_user(dv, 0, name@) == spec_find_user(dv, k as int, name@),
        decreases n - k,
    {
        proof {
            assert(dv[k as int] == params@[k as int].deep_view());
        }
        if str_eq(params[k].name.as_str(), name) {
            return Some(k);
        }
        k += 1;
    }
    None
}

/// The numeric arrays of one spectrum, in matched order: index `i` of
/// the m/z list belongs to index `i` of the intensity list.
///
/// Each entry is the IEEE-754 bit pattern of one 64-bit float, exactly
/// as the foreign engine filled it into the marshaled buffer; the host
/// shell converts between bit patterns and machine floats at the
/// boundary.
#[derive(Clone, Debug, PartialEq, Eq)]
pub struct SpectrumData {
    pub mz_list: Vec<u64>,
    pub intensity_list: Vec<u64>,
}

/// Mathematical image of a `SpectrumData`.
pub struct SpecSpectrumData {
    pub mz_list: Seq<u64>,
    pub intensity_list: Seq<u64>,
}

impl DeepView for SpectrumData {
    type V = SpecSpectrumData;

    open spec fn deep_view(&self) -> SpecSpectrumData {
        SpecSpectrumData {
            mz_list: self.mz_list.deep_view(),
            intensity_list: self.intensity_list.deep_view(),
        }
    }
}

/// One spectrum: decoded metadata paired with its numeric arrays.
#[derive(Clone, Debug)]
pub struct MzMLSpectrum {
    pub metadata: MzMLSpectrumMetaData,
    pub data: SpectrumData,
}

/// Mathematical image of an `MzMLSpectrum`.
pub struct SpecMzMLSpectrum {
    pub metadata: SpecMzMLSpectrumMetaData,
    pub data: SpecSpectrumData,
}

impl DeepView for MzMLSpectrum {
    type V = SpecMzMLSpectrum;

    open spec fn deep_view(&self) -> SpecMzMLSpectrum {
        SpecMzMLSpectrum { metadata: self.metadata.deep_view(), data: self.data.deep_view() }
    }
}

/// The MS level a scan resolves to when it carries no explicit
/// MS-level parameter: 2 with a precursor list, else 1.
pub open spec fn spec_default_ms_level(m: SpecMzMLSpectrumMetaData) -> u8 {
    if m.precursor_list is Some {
        2
    } else {
        1
    }
}

/// The resolved MS level: the value of the MS-level parameter when it
/// is present and parses, else the default.
pub open spec fn spec_ms_level(m: SpecMzMLSpectrumMetaData) -> u8 {
    let d = spec_default_ms_level(m);
    match spec_find_cv(m.cv_params, 0, "MS:1000511"@) {
        None => d,
        Some(p) => match p.value {
            None => d,
            Some(v) => match spec_parse_u8(v) {
                None => d,
                Some(x) => x,
            },
        },
    }
}

/// The resolved precursor m/z (as raw text) and charge.
///
/// The m/z prefers the vendor-trailer monoisotopic value on the first
/// scan when it is float-parsable, and falls back to the first selected
/// ion's m/z parameter; a charge-state value that does not parse
/// degrades to zero.  Any missing link in the chain yields absence.
pub open spec fn spec_precursor_mz_and_charge(m: SpecMzMLSpectrumMetaData) -> (
    Option<Seq<char>>,
    Option<i8>,
) {
    if spec_ms_level(m) > 1 && m.precursor_list is Some && m.precursor_list->0.precursors.len() > 0
        && m.precursor_list->0.precursors[0].selected_ion_list.selected_ions.len() > 0 {
        let ion_params = m.precursor_list->0.precursors[0].selected_ion_list.selected_ions[0].cv_params;
        let charge: Option<i8> = match spec_find_cv(ion_params, 0, "MS:1000041"@) {
            None => None,
            Some(p) => match p.value {
                None => None,
                Some(v) => match spec_parse_i8(v) {
                    None => Some(0i8),
                    Some(c) => Some(c),
                },
            },
        };
        let trailer: Option<Seq<char>> = if m.scan_list.scans.len() > 0 {
            match spec_find_user(
                m.scan_list.scans[0].user_params,
                0,
                "[Thermo Trailer Extra]Monoisotopic M/Z:"@,
            ) {
                None => None,
                Some(up) => if spec_is_float_text(up.value) {
                    Some(up.value)
                } else {
                    None
                },
            }
        } else {
            None
        };
        let mz: Option<Seq<char>> = match trailer {
            Some(v) => Some(v),
            None => match spec_find_cv(ion_params, 0, "MS:1000744"@) {
                None => None,
                Some(p) => match p.value {
                    None => None,
                    Some(v) => if spec_is_float_text(v) {
                        Some(v)
                    } else {
                        None
                    },
                },
            },
        };
        (mz, charge)
    } else {
        (None, None)
    }
}

/// The scan-start-time value of the first scan, as raw text: present
/// exactly when the first scan carries the parameter with a value that
/// parses as a float.
pub open spec fn spec_first_scan_start_time(m: SpecMzMLSpectrumMetaData) -> Option<Seq<char>> {
    if m.scan_list.scans.len() > 0 {
        match spec_find_cv(m.scan_list.scans[0].cv_params, 0, "MS:1000016"@) {
            None => None,
            Some(p) => match p.value {
                None => None,
                Some(v) => if spec_is_float_text(v) {
                    Some(v)
                } else {
                    None
                },
            },
        }
    } else {
        None
    }
}

impl MzMLSpectrum {
    /// Pairs decoded metadata with the marshaled numeric arrays.
    pub fn new(metadata: MzMLSpectrumMetaData, data: SpectrumData) -> (r: Self)
        ensures
            r.metadata == metadata,
            r.data == data,
    {
        Self { metadata, data }
    }

    /// Returns the m/z values, as 64-bit float bit patterns.
    pub fn get_mz_list(&self) -> (r: &Vec<u64>)
        ensures
            r@ == self.data.mz_list@,
    {
        &self.data.mz_list
    }

    /// Returns the intensity values, as 64-bit float bit patterns.
    pub fn get_intensity_list(&self) -> (r: &Vec<u64>)
        ensures
            r@ == self.data.intensity_list@,
    {
        &self.data.intensity_list
    }

    /// Resolves the MS level: the explicit MS-level parameter when it
    /// parses, else 2 with a precursor list present and 1 without.
    pub fn get_ms_level(&self) -> (r: u8)
        ensures
            r == spec_ms_level(self.metadata.deep_view()),
    {
        let ghost m = self.metadata.deep_view();
        let default_ms_level: u8 = if self.metadata.precursor_list.is_some() {
            2
        } else {
            1
        };
        proof {
            assert(default_ms_level == spec_default_ms_level(m));
        }
        match find_cv_param(&self.metadata.cv_params, MS_LEVEL_CV_ACCESSION) {
            None => default_ms_level,
            Some(k) => {
                proof {
                    assert(m.cv_params[k as int] == self.metadata.cv_params@[k as int].deep_view());
                }
                match &self.metadata.cv_params[k].value {
                    None => default_ms_level,
                    Some(v) => match crate::textnum::parse_u8_str(v.as_str()) {
                        None => default_ms_level,
                        Some(x) => x,
                    },
                }
            },
        }
    }

    /// Resolves the precursor m/z and charge of a fragmentation scan.
    ///
    /// The m/z is returned as the winning raw text (guaranteed to be
    /// float-parsable); turning it into a machine float is the caller's
    /// conversion.  The vendor-trailer monoisotopic value is preferred
    /// over the standard selected-ion parameter.
    pub fn get_precursor_mz_and_charge(&self) -> (r: (Option<String>, Option<i8>))
        ensures
            r.0.deep_view() == spec_precursor_mz_and_charge(self.metadata.deep_view()).0,
            r.1 == spec_precursor_mz_and_charge(self.metadata.deep_view()).1,
    {
        let ghost m = self.metadata.deep_view();
        let ms_level = self.get_ms_level();
        if !(ms_level > 1 && self.metadata.precursor_list.is_some()) {
            return (None, None);
        }
        let pl = match &self.metadata.precursor_list {
            Some(pl) => pl,
            None => {
                return (None, None);
            },
        };
        proof {
            assert(m.precursor_list->0 == pl.deep_view());
        }
        if pl.precursors.len() == 0 {
            return (None, None);
        }
        let prec = &pl.precursors[0];
        proof {
            assert(pl.deep_view().precursors[0] == pl.precursors@[0].deep_view());
        }
        if prec.selected_ion_list.selected_ions.len() == 0 {
            return (None, None);
        }
        let ion = &prec.selected_ion_list.selected_ions[0];
        proof {
            assert(prec.selected_ion_list.deep_view().selected_ions[0]
                == prec.selected_ion_list.selected_ions@[0].deep_view());
        }
        let ghost ion_params = m.precursor_list->0.precursors[0].selected_ion_list.selected_ions[0].cv_params;
        proof {
            assert(ion_params == ion.cv_params.deep_view());
        }
        let prec_charge_opt: Option<i8> = match find_cv_param(&ion.cv_params, CHARGE_STATE_CV_ACCESSION) {
            None => None,
            Some(k) => {
                proof {
                    assert(ion_params[k as int] == ion.cv_params@[k as int].deep_view());
                }
                match &ion.cv_params[k].value {
                    None => None,
                    Some(v) => match crate::textnum::parse_i8_str(v.as_str()) {
                        None => Some(0),
                        Some(c) => Some(c),
                    },
                }
            },
        };
        let trailer_mz: Option<String> = if self.metadata.scan_list.scans.len() > 0 {
            let scan0 = &self.metadata.scan_list.scans[0];
            proof {
                assert(m.scan_list.scans[0] == self.metadata.scan_list.scans@[0].deep_view());
            }
            match find_user_param(&scan0.user_params, "[Thermo Trailer Extra]Monoisotopic M/Z:") {
                None => None,
                Some(k) => {
                    proof {
                        assert(scan0.user_params.deep_view()[k as int] == scan0.user_params@[
                            k as int].deep_view());
                    }
                    let v = &scan0.user_params[k].value;
                    if crate::textnum::is_float_text(v.as_str()) {
                        Some(v.clone())
                    } else {
                        None
                    }
                },
            }
        } else {
            None
        };
        let prec_mz_opt: Option<String> = match trailer_mz {
            Some(v) => Some(v),
            None => match find_cv_param(&ion.cv_params, SELECTED_ION_MZ_CV_ACCESSION) {
                None => None,
                Some(k) => {
                    proof {
                        assert(ion_params[k as int] == ion.cv_params@[k as int].deep_view());
                    }
                    match &ion.cv_params[k].value {
                        None => None,
                        Some(v) => if crate::textnum::is_float_text(v.as_str()) {
                            Some(v.clone())
                        } else {
                            None
                        },
                    }
                },
            },
        };
        (prec_mz_opt, prec_charge_opt)
    }

    /// Reads the scan-start-time value off the first scan, as raw text
    /// that is guaranteed to parse as a float; an absent or unparsable
    /// value yields absence.  Turning the text into a machine float is
    /// the caller's conversion.
    pub fn get_first_scan_start_time(&self) -> (r: Option<String>)
        ensures
            r.deep_view() == spec_first_scan_start_time(self.metadata.deep_view()),
    {
        let ghost m = self.metadata.deep_view();
        if self.metadata.scan_list.scans.len() == 0 {
            return None;
        }
        let scan0 = &self.metadata.scan_list.scans[0];
        proof {
            assert(m.scan_list.scans[0] == self.metadata.scan_list.scans@[0].deep_view());
        }
        match find_cv_param(&scan0.cv_params, SCAN_START_TIME_CV_ACCESSION) {
            None => None,
            Some(k) => {
                proof {
                    assert(scan0.cv_params.deep_view()[k as int] == scan0.cv_params@[
                        k as int].deep_view());
                }
                match &scan0.cv_params[k].value {
                    None => None,
                    Some(v) => if crate::textnum::is_float_text(v.as_str()) {
                        Some(v.clone())
                    } else {
                        None
                    },
                }
            },
        }
    }
}

/// No parameter in `params` at or after `k` carries `accession`, so the
/// scan finds nothing.
proof fn lemma_find_cv_none(params: Seq<SpecCvParam>, k: int, accession: Seq<char>)
    requires
        0 <= k <= params.len(),
        forall|j: int| k <= j < params.len() ==> (#[trigger] params[j]).accession != accession,
    ensures
        spec_find_cv(params, k, accession) is None,
    decreases params.len() - k,
{
    if k < params.len() {
        lemma_find_cv_none(params, k + 1, accession);
    }
}

/// A scan with no explicit MS-level parameter resolves to level 1 when
/// it has no precursor list, and to level 2 when it has one.
pub proof fn lemma_ms_level_default(m: SpecMzMLSpectrumMetaData)
    requires
        forall|j: int|
            0 <= j < m.cv_params.len() ==> (#[trigger] m.cv_params[j]).accession != "MS:1000511"@,
    ensures
        m.precursor_list is None ==> spec_ms_level(m) == 1,
        m.precursor_list is Some ==> spec_ms_level(m) == 2,
{
    lemma_find_cv_none(m.cv_params, 0, "MS:1000511"@);
}

/// When the first scan carries a float-parsable vendor-trailer
/// monoisotopic m/z, the resolved precursor m/z is that trailer value —
/// not the selected-ion m/z parameter, whether or not one is present.
pub proof fn lemma_precursor_mz_prefers_trailer(m: SpecMzMLSpectrumMetaData, trailer: SpecUserParam)
    requires
        spec_ms_level(m) > 1,
        m.precursor_list is Some,
        m.precursor_list->0.precursors.len() > 0,
        m.precursor_list->0.precursors[0].selected_ion_list.selected_ions.len() > 0,
        m.scan_list.scans.len() > 0,
        spec_find_user(
            m.scan_list.scans[0].user_params,
            0,
            "[Thermo Trailer Extra]Monoisotopic M/Z:"@,
        ) == Some(trailer),
        spec_is_float_text(trailer.value),
    ensures
        spec_precursor_mz_and_charge(m).0 == Some(trailer.value),
{
}

} // verus!
