//! The run-header metadata model and its verified decoder.
//!
//! The foreign engine emits the run header as mzML: a root element
//! carrying the controlled-vocabulary list, file description,
//! referenceable parameter groups, samples, software, instrument
//! configurations, data processing chain and the run descriptor.  Every
//! field of the model is decoded from an attribute or a child element of
//! the token stream; unknown elements and attributes are ignored, and a
//! missing required part makes the whole decode fail.
//!
//! Each decoder is pinned to a spec-level twin, so the decoded metadata
//! is a function of the XML text alone.

use vstd::prelude::*;
use crate::errors::RawFileError;
use crate::textnum::str_eq;
use crate::xml::{XmlTok, SpecXmlTok, spec_attr, elem_attr, spec_first_child, first_child,
    elem_extent_at, elem_extent, spec_parse_document, parse_document};

verus! {

/// Accession of the MS-level parameter of a scan.
pub const MS_LEVEL_CV_ACCESSION: &'static str = "MS:1000511";

/// Accession of the charge-state parameter of a selected ion.
pub const CHARGE_STATE_CV_ACCESSION: &'static str = "MS:1000041";

/// Accession of the scan-start-time parameter of a scan.
pub const SCAN_START_TIME_CV_ACCESSION: &'static str = "MS:1000016";

/// Accession of the selected-ion m/z parameter.
pub const SELECTED_ION_MZ_CV_ACCESSION: &'static str = "MS:1000744";

/// A controlled-vocabulary annotation: ontology reference, accession,
/// name, and optional value with its unit.
#[derive(Clone, Debug)]
pub struct CvParam {
    pub cv_ref: String,
    pub accession: String,
    pub name: String,
    pub value: Option<String>,
    pub unit_cv_ref: Option<String>,
    pub unit_accession: Option<String>,
    pub unit_name: Option<String>,
}

/// Mathematical image of a `CvParam`.
pub struct SpecCvParam {
    pub cv_ref: Seq<char>,
    pub accession: Seq<char>,
    pub name: Seq<char>,
    pub value: Option<Seq<char>>,
    pub unit_cv_ref: Option<Seq<char>>,
    pub unit_accession: Option<Seq<char>>,
    pub unit_name: Option<Seq<char>>,
}

impl DeepView for CvParam {
    type V = SpecCvParam;

    open spec fn deep_view(&self) -> SpecCvParam {
        SpecCvParam {
            cv_ref: self.cv_ref@,
            accession: self.accession@,
            name: self.name@,
            value: self.value.deep_view(),
            unit_cv_ref: self.unit_cv_ref.deep_view(),
            unit_accession: self.unit_accession.deep_view(),
            unit_name: self.unit_name.deep_view(),
        }
    }
}

/// A free-form instrument parameter: name, value and declared type.
#[derive(Clone, Debug)]
pub struct UserParam {
    pub name: String,
    pub value: String,
    pub param_type: String,
}

/// Mathematical image of a `UserParam`.
pub struct SpecUserParam {
    pub name: Seq<char>,
    pub value: Seq<char>,
    pub param_type: Seq<char>,
}

impl DeepView for UserParam {
    type V = SpecUserParam;

    open spec fn deep_view(&self) -> SpecUserParam {
        SpecUserParam { name: self.name@, value: self.value@, param_type: self.param_type@ }
    }
}

/// One controlled vocabulary used by the document.
#[derive(Clone, Debug)]
pub struct Cv {
    pub id: String,
    pub full_name: String,
    pub version: String,
    pub uri: String,
}

/// Mathematical image of a `Cv`.
pub struct SpecCv {
    pub id: Seq<char>,
    pub full_name: Seq<char>,
    pub version: Seq<char>,
    pub uri: Seq<char>,
}

impl DeepView for Cv {
    type V = SpecCv;

    open spec fn deep_view(&self) -> SpecCv {
        SpecCv { id: self.id@, full_name: self.full_name@, version: self.version@, uri: self.uri@ }
    }
}

/// The list of controlled vocabularies.
#[derive(Clone, Debug)]
pub struct CvList {
    pub count: String,
    pub cv_entries: Vec<Cv>,
}

/// Mathematical image of a `CvList`.
pub struct SpecCvList {
    pub count: Seq<char>,
    pub cv_entries: Seq<SpecCv>,
}

impl DeepView for CvList {
    type V = SpecCvList;

    open spec fn deep_view(&self) -> SpecCvList {
        SpecCvList { count: self.count@, cv_entries: self.cv_entries.deep_view() }
    }
}

/// The kinds of spectra the file holds.
#[derive(Clone, Debug)]
pub struct FileContent {
    pub cv_params: Vec<CvParam>,
}

/// Mathematical image of a `FileContent`.
pub struct SpecFileContent {
    pub cv_params: Seq<SpecCvParam>,
}

impl DeepView for FileContent {
    type V = SpecFileContent;

    open spec fn deep_view(&self) -> SpecFileContent {
        SpecFileContent { cv_params: self.cv_params.deep_view() }
    }
}

/// One source file of the run.
#[derive(Clone, Debug)]
pub struct SourceFile {
    pub id: String,
    pub name: String,
    pub location: String,
    pub cv_params: Vec<CvParam>,
}

/// Mathematical image of a `SourceFile`.
pub struct SpecSourceFile {
    pub id: Seq<char>,
    pub name: Seq<char>,
    pub location: Seq<char>,
    pub cv_params: Seq<SpecCvParam>,
}

impl DeepView for SourceFile {
    type V = SpecSourceFile;

    open spec fn deep_view(&self) -> SpecSourceFile {
        SpecSourceFile {
            id: self.id@,
            name: self.name@,
            location: self.location@,
            cv_params: self.cv_params.deep_view(),
        }
    }
}

/// The list of source files.
#[derive(Clone, Debug)]
pub struct SourceFileList {
    pub count: String,
    pub source_files: Vec<SourceFile>,
}

/// Mathematical image of a `SourceFileList`.
pub struct SpecSourceFileList {
    pub count: Seq<char>,
    pub source_files: Seq<SpecSourceFile>,
}

impl DeepView for SourceFileList {
    type V = SpecSourceFileList;

    open spec fn deep_view(&self) -> SpecSourceFileList {
        SpecSourceFileList { count: self.count@, source_files: self.source_files.deep_view() }
    }
}

/// What the file holds and where it came from.
#[derive(Clone, Debug)]
pub struct FileDescription {
    pub file_content: FileContent,
    pub source_file_list: SourceFileList,
}

/// Mathematical image of a `FileDescription`.
pub struct SpecFileDescription {
    pub file_content: SpecFileContent,
    pub source_file_list: SpecSourceFileList,
}

impl DeepView for FileDescription {
    type V = SpecFileDescription;

    open spec fn deep_view(&self) -> SpecFileDescription {
        SpecFileDescription {
            file_content: self.file_content.deep_view(),
            source_file_list: self.source_file_list.deep_view(),
        }
    }
}

/// A reusable group of parameters, referenced by id.
#[derive(Clone, Debug)]
pub struct ReferenceableParamGroup {
    pub id: String,
    pub cv_params: Vec<CvParam>,
}

/// Mathematical image of a `ReferenceableParamGroup`.
pub struct SpecReferenceableParamGroup {
    pub id: Seq<char>,
    pub cv_params: Seq<SpecCvParam>,
}

impl DeepView for ReferenceableParamGroup {
    type V = SpecReferenceableParamGroup;

    open spec fn deep_view(&self) -> SpecReferenceableParamGroup {
        SpecReferenceableParamGroup { id: self.id@, cv_params: self.cv_params.deep_view() }
    }
}

/// The list of referenceable parameter groups.
#[derive(Clone, Debug)]
pub struct ReferenceableParamGroupList {
    pub count: String,
    pub referenceable_param_groups: Vec<ReferenceableParamGroup>,
}

/// Mathematical image of a `ReferenceableParamGroupList`.
pub struct SpecReferenceableParamGroupList {
    pub count: Seq<char>,
    pub referenceable_param_groups: Seq<SpecReferenceableParamGroup>,
}

impl DeepView for ReferenceableParamGroupList {
    type V = SpecReferenceableParamGroupList;

    open spec fn deep_view(&self) -> SpecReferenceableParamGroupList {
        SpecReferenceableParamGroupList {
            count: self.count@,
            referenceable_param_groups: self.referenceable_param_groups.deep_view(),
        }
    }
}

/// One measured sample.
#[derive(Clone, Debug)]
pub struct Sample {
    pub id: String,
    pub cv_params: Vec<CvParam>,
}

/// Mathematical image of a `Sample`.
pub struct SpecSample {
    pub id: Seq<char>,
    pub cv_params: Seq<SpecCvParam>,
}

impl DeepView for Sample {
    type V = SpecSample;

    open spec fn deep_view(&self) -> SpecSample {
        SpecSample { id: self.id@, cv_params: self.cv_params.deep_view() }
    }
}

/// The list of samples.
#[derive(Clone, Debug)]
pub struct SampleList {
    pub count: String,
    pub samples: Vec<Sample>,
}

/// Mathematical image of a `SampleList`.
pub struct SpecSampleList {
    pub count: Seq<char>,
    pub samples: Seq<SpecSample>,
}

impl DeepView for SampleList {
    type V = SpecSampleList;

    open spec fn deep_view(&self) -> SpecSampleList {
        SpecSampleList { count: self.count@, samples: self.samples.deep_view() }
    }
}

/// One software tool that touched the data.
#[derive(Clone, Debug)]
pub struct Software {
    pub id: String,
    pub version: String,
    pub cv_params: Vec<CvParam>,
}

/// Mathematical image of a `Software`.
pub struct SpecSoftware {
    pub id: Seq<char>,
    pub version: Seq<char>,
    pub cv_params: Seq<SpecCvParam>,
}

impl DeepView for Software {
    type V = SpecSoftware;

    open spec fn deep_view(&self) -> SpecSoftware {
        SpecSoftware { id: self.id@, version: self.version@, cv_params: self.cv_params.deep_view() }
    }
}

/// The list of software tools.
#[derive(Clone, Debug)]
pub struct SoftwareList {
    pub count: String,
    pub software_entries: Vec<Software>,
}

/// Mathematical image of a `SoftwareList`.
pub struct SpecSoftwareList {
    pub count: Seq<char>,
    pub software_entries: Seq<SpecSoftware>,
}

impl DeepView for SoftwareList {
    type V = SpecSoftwareList;

    open spec fn deep_view(&self) -> SpecSoftwareList {
        SpecSoftwareList { count: self.count@, software_entries: self.software_entries.deep_view() }
    }
}

/// A reference to a parameter group.
#[derive(Clone, Debug)]
pub struct ReferenceableParamGroupRef {
    pub group_ref: String,
}

/// Mathematical image of a `ReferenceableParamGroupRef`.
pub struct SpecReferenceableParamGroupRef {
    pub group_ref: Seq<char>,
}

impl DeepView for ReferenceableParamGroupRef {
    type V = SpecReferenceableParamGroupRef;

    open spec fn deep_view(&self) -> SpecReferenceableParamGroupRef {
        SpecReferenceableParamGroupRef { group_ref: self.group_ref@ }
    }
}

/// The ion source of an instrument configuration.
#[derive(Clone, Debug)]
pub struct Source {
    pub order: String,
    pub cv_params: Vec<CvParam>,
}

/// Mathematical image of a `Source`.
pub struct SpecSource {
    pub order: Seq<char>,
    pub cv_params: Seq<SpecCvParam>,
}

impl DeepView for Source {
    type V = SpecSource;

    open spec fn deep_view(&self) -> SpecSource {
        SpecSource { order: self.order@, cv_params: self.cv_params.deep_view() }
    }
}

/// The mass analyzer of an instrument configuration.
#[derive(Clone, Debug)]
pub struct Analyzer {
    pub order: String,
    pub cv_params: Vec<CvParam>,
}

/// Mathematical image of an `Analyzer`.
pub struct SpecAnalyzer {
    pub order: Seq<char>,
    pub cv_params: Seq<SpecCvParam>,
}

impl DeepView for Analyzer {
    type V = SpecAnalyzer;

    open spec fn deep_view(&self) -> SpecAnalyzer {
        SpecAnalyzer { order: self.order@, cv_params: self.cv_params.deep_view() }
    }
}

/// The detector of an instrument configuration.
#[derive(Clone, Debug)]
pub struct Detector {
    pub order: String,
    pub cv_params: Vec<CvParam>,
}

/// Mathematical image of a `Detector`.
pub struct SpecDetector {
    pub order: Seq<char>,
    pub cv_params: Seq<SpecCvParam>,
}

impl DeepView for Detector {
    type V = SpecDetector;

    open spec fn deep_view(&self) -> SpecDetector {
        SpecDetector { order: self.order@, cv_params: self.cv_params.deep_view() }
    }
}

/// The ordered components of an instrument.
#[derive(Clone, Debug)]
pub struct ComponentList {
    pub count: String,
    pub source: Option<Source>,
    pub analyzer: Option<Analyzer>,
    pub detector: Option<Detector>,
}

/// Mathematical image of a `ComponentList`.
pub struct SpecComponentList {
    pub count: Seq<char>,
    pub source: Option<SpecSource>,
    pub analyzer: Option<SpecAnalyzer>,
    pub detector: Option<SpecDetector>,
}

impl DeepView for ComponentList {
    type V = SpecComponentList;

    open spec fn deep_view(&self) -> SpecComponentList {
        SpecComponentList {
            count: self.count@,
            source: self.source.deep_view(),
            analyzer: self.analyzer.deep_view(),
            detector: self.detector.deep_view(),
        }
    }
}

/// One instrument configuration.
#[derive(Clone, Debug)]
pub struct InstrumentConfiguration {
    pub id: String,
    pub referenceable_param_group_ref: ReferenceableParamGroupRef,
    pub component_list: ComponentList,
}

/// Mathematical image of an `InstrumentConfiguration`.
pub struct SpecInstrumentConfiguration {
    pub id: Seq<char>,
    pub referenceable_param_group_ref: SpecReferenceableParamGroupRef,
    pub component_list: SpecComponentList,
}

impl DeepView for InstrumentConfiguration {
    type V = SpecInstrumentConfiguration;

    open spec fn deep_view(&self) -> SpecInstrumentConfiguration {
        SpecInstrumentConfiguration {
            id: self.id@,
            referenceable_param_group_ref: self.referenceable_param_group_ref.deep_view(),
            component_list: self.component_list.deep_view(),
        }
    }
}

/// The list of instrument configurations.
#[derive(Clone, Debug)]
pub struct InstrumentConfigurationList {
    pub count: String,
    pub instrument_configurations: Vec<InstrumentConfiguration>,
}

/// Mathematical image of an `InstrumentConfigurationList`.
pub struct SpecInstrumentConfigurationList {
    pub count: Seq<char>,
    pub instrument_configurations: Seq<SpecInstrumentConfiguration>,
}

impl DeepView for InstrumentConfigurationList {
    type V = SpecInstrumentConfigurationList;

    open spec fn deep_view(&self) -> SpecInstrumentConfigurationList {
        SpecInstrumentConfigurationList {
            count: self.count@,
            instrument_configurations: self.instrument_configurations.deep_view(),
        }
    }
}

/// One data-processing step.
#[derive(Clone, Debug)]
pub struct ProcessingMethod {
    pub order: String,
    pub software_ref: String,
    pub cv_params: Vec<CvParam>,
}

/// Mathematical image of a `ProcessingMethod`.
pub struct SpecProcessingMethod {
    pub order: Seq<char>,
    pub software_ref: Seq<char>,
    pub cv_params: Seq<SpecCvParam>,
}

impl DeepView for ProcessingMethod {
    type V = SpecProcessingMethod;

    open spec fn deep_view(&self) -> SpecProcessingMethod {
        SpecProcessingMethod {
            order: self.order@,
            software_ref: self.software_ref@,
            cv_params: self.cv_params.deep_view(),
        }
    }
}

/// One data-processing chain.
#[derive(Clone, Debug)]
pub struct DataProcessing {
    pub id: String,
    pub processing_method: ProcessingMethod,
}

/// Mathematical image of a `DataProcessing`.
pub struct SpecDataProcessing {
    pub id: Seq<char>,
    pub processing_method: SpecProcessingMethod,
}

impl DeepView for DataProcessing {
    type V = SpecDataProcessing;

    open spec fn deep_view(&self) -> SpecDataProcessing {
        SpecDataProcessing { id: self.id@, processing_method: self.processing_method.deep_view() }
    }
}

/// The list of data-processing chains.
#[derive(Clone, Debug)]
pub struct DataProcessingList {
    pub count: String,
    pub data_processings: Vec<DataProcessing>,
}

/// Mathematical image of a `DataProcessingList`.
pub struct SpecDataProcessingList {
    pub count: Seq<char>,
    pub data_processings: Seq<SpecDataProcessing>,
}

impl DeepView for DataProcessingList {
    type V = SpecDataProcessingList;

    open spec fn deep_view(&self) -> SpecDataProcessingList {
        SpecDataProcessingList {
            count: self.count@,
            data_processings: self.data_processings.deep_view(),
        }
    }
}

/// The run descriptor: default references and the start timestamp.
#[derive(Clone, Debug)]
pub struct Run {
    pub id: String,
    pub default_instrument_configuration_ref: String,
    pub start_time_stamp: String,
    pub default_source_file_ref: String,
    pub sample_ref: String,
}

/// Mathematical image of a `Run`.
pub struct SpecRun {
    pub id: Seq<char>,
    pub default_instrument_configuration_ref: Seq<char>,
    pub start_time_stamp: Seq<char>,
    pub default_source_file_ref: Seq<char>,
    pub sample_ref: Seq<char>,
}

impl DeepView for Run {
    type V = SpecRun;

    open spec fn deep_view(&self) -> SpecRun {
        SpecRun {
            id: self.id@,
            default_instrument_configuration_ref: self.default_instrument_configuration_ref@,
            start_time_stamp: self.start_time_stamp@,
            default_source_file_ref: self.default_source_file_ref@,
            sample_ref: self.sample_ref@,
        }
    }
}

/// The decoded run header.
#[derive(Clone, Debug)]
pub struct MzMLMetaData {
    pub id: String,
    pub version: String,
    pub cv_list: CvList,
    pub file_description: FileDescription,
    pub referenceable_param_group_list: ReferenceableParamGroupList,
    pub sample_list: SampleList,
    pub software_list: SoftwareList,
    pub instrument_configuration_list: InstrumentConfigurationList,
    pub data_processing_list: DataProcessingList,
    pub run: Run,
}

/// Mathematical image of an `MzMLMetaData`.
pub struct SpecMzMLMetaData {
    pub id: Seq<char>,
    pub version: Seq<char>,
    pub cv_list: SpecCvList,
    pub file_description: SpecFileDescription,
    pub referenceable_param_group_list: SpecReferenceableParamGroupList,
    pub sample_list: SpecSampleList,
    pub software_list: SpecSoftwareList,
    pub instrument_configuration_list: SpecInstrumentConfigurationList,
    pub data_processing_list: SpecDataProcessingList,
    pub run: SpecRun,
}

impl DeepView for MzMLMetaData {
    type V = SpecMzMLMetaData;

    open spec fn deep_view(&self) -> SpecMzMLMetaData {
        SpecMzMLMetaData {
            id: self.id@,
            version: self.version@,
            cv_list: self.cv_list.deep_view(),
            file_description: self.file_description.deep_view(),
            referenceable_param_group_list: self.referenceable_param_group_list.deep_view(),
            sample_list: self.sample_list.deep_view(),
            software_list: self.software_list.deep_view(),
            instrument_configuration_list: self.instrument_configuration_list.deep_view(),
            data_processing_list: self.data_processing_list.deep_view(),
            run: self.run.deep_view(),
        }
    }
}

/// Decodes one `cvParam` element from its attributes.
pub open spec fn spec_decode_cv_param(toks: Seq<SpecXmlTok>, i: int) -> Option<SpecCvParam> {
    match spec_attr(toks, i, "cvRef"@) {
        None => None,
        Some(cv_ref) => match spec_attr(toks, i, "accession"@) {
            None => None,
            Some(accession) => match spec_attr(toks, i, "name"@) {
                None => None,
                Some(name) => Some(
                    SpecCvParam {
                        cv_ref,
                        accession,
                        name,
                        value: spec_attr(toks, i, "value"@),
                        unit_cv_ref: spec_attr(toks, i, "unitCvRef"@),
                        unit_accession: spec_attr(toks, i, "unitAccession"@),
                        unit_name: spec_attr(toks, i, "unitName"@),
                    },
                ),
            },
        },
    }
}

/// Decodes one `cvParam` element.
pub fn decode_cv_param(toks: &Vec<XmlTok>, i: usize) -> (r: Option<CvParam>)
    requires
        i < toks@.len(),
    ensures
        r is None ==> spec_decode_cv_param(toks.deep_view(), i as int) is None,
        r matches Some(v) ==> spec_decode_cv_param(toks.deep_view(), i as int) == Some(
            v.deep_view(),
        ),
{
    let cv_ref = match elem_attr(toks, i, "cvRef") {
        None => {
            return None;
        },
        Some(v) => v,
    };
    let accession = match elem_attr(toks, i, "accession") {
        None => {
            return None;
        },
        Some(v) => v,
    };
    let name = match elem_attr(toks, i, "name") {
        None => {
            return None;
        },
        Some(v) => v,
    };
    let value = elem_attr(toks, i, "value");
    let unit_cv_ref = elem_attr(toks, i, "unitCvRef");
    let unit_accession = elem_attr(toks, i, "unitAccession");
    let unit_name = elem_attr(toks, i, "unitName");
    Some(CvParam { cv_ref, accession, name, value, unit_cv_ref, unit_accession, unit_name })
}

/// Decodes one `userParam` element from its attributes.
pub open spec fn spec_decode_user_param(toks: Seq<SpecXmlTok>, i: int) -> Option<SpecUserParam> {
    match spec_attr(toks, i, "name"@) {
        None => None,
        Some(name) => match spec_attr(toks, i, "value"@) {
            None => None,
            Some(value) => match spec_attr(toks, i, "type"@) {
                None => None,
                Some(param_type) => Some(SpecUserParam { name, value, param_type }),
            },
        },
    }
}

/// Decodes one `userParam` element.
pub fn decode_user_param(toks: &Vec<XmlTok>, i: usize) -> (r: Option<UserParam>)
    requires
        i < toks@.len(),
    ensures
        r is None ==> spec_decode_user_param(toks.deep_view(), i as int) is None,
        r matches Some(v) ==> spec_decode_user_param(toks.deep_view(), i as int) == Some(
            v.deep_view(),
        ),
{
    let name = match elem_attr(toks, i, "name") {
        None => {
            return None;
        },
        Some(v) => v,
    };
    let value = match elem_attr(toks, i, "value") {
        None => {
            return None;
        },
        Some(v) => v,
    };
    let param_type = match elem_attr(toks, i, "type") {
        None => {
            return None;
        },
        Some(v) => v,
    };
    Some(UserParam { name, value, param_type })
}

/// Walks the direct children from `i`, decoding every `cvParam`.
pub open spec fn spec_cv_params_from(toks: Seq<SpecXmlTok>, i: int, acc: Seq<SpecCvParam>) -> Option<
    Seq<SpecCvParam>,
>
    decreases toks.len() - i when 0 <= i <= toks.len()
{
    if i >= toks.len() {
        None
    } else {
        match toks[i] {
            SpecXmlTok::Close { .. } => Some(acc),
            SpecXmlTok::Open { name, .. } => {
                if name == "cvParam"@ {
                    match spec_decode_cv_param(toks, i) {
                        None => None,
                        Some(p) => match elem_extent_at(toks, i) {
                            None => None,
                            Some(j) => if j <= i || j > toks.len() {
                                None
                            } else {
                                spec_cv_params_from(toks, j, acc.push(p))
                            },
                        },
                    }
                } else {
                    match elem_extent_at(toks, i) {
                        None => None,
                        Some(j) => if j <= i || j > toks.len() {
                            None
                        } else {
                            spec_cv_params_from(toks, j, acc)
                        },
                    }
                }
            },
        }
    }
}

/// The `cvParam` children of the element at `i`.
pub open spec fn spec_cv_params(toks: Seq<SpecXmlTok>, i: int) -> Option<Seq<SpecCvParam>> {
    if !(0 <= i < toks.len()) {
        None
    } else {
        match toks[i] {
            SpecXmlTok::Close { .. } => None,
            SpecXmlTok::Open { self_closing, .. } => if self_closing {
                Some(Seq::empty())
            } else {
                spec_cv_params_from(toks, i + 1, Seq::empty())
            },
        }
    }
}

/// Decodes the `cvParam` children of the element at `i`.
#[verifier::loop_isolation(false)]
pub fn decode_cv_params(toks: &Vec<XmlTok>, i: usize) -> (r: Option<Vec<CvParam>>)
    requires
        i < toks@.len(),
    ensures
        r is None ==> spec_cv_params(toks.deep_view(), i as int) is None,
        r matches Some(v) ==> spec_cv_params(toks.deep_view(), i as int) == Some(v.deep_view()),
{
    let ghost dv = toks.deep_view();
    proof {
        assert(dv[i as int] == toks@[i as int].deep_view());
    }
    let n = toks.len();
    match &toks[i] {
        XmlTok::Close { .. } => None,
        XmlTok::Open { self_closing, .. } => {
            let mut out: Vec<CvParam> = Vec::new();
            proof {
                assert(out.deep_view() =~= Seq::<SpecCvParam>::empty());
            }
            if *self_closing {
                return Some(out);
            }
            let mut cur: usize = i + 1;
            loop
                invariant
                    i + 1 <= cur <= n,
                    spec_cv_params_from(dv, i + 1, Seq::empty()) == spec_cv_params_from(
                        dv,
                        cur as int,
                        out.deep_view(),
                    ),
                decreases n - cur,
            {
                if cur >= n {
                    return None;
                }
                proof {
                    assert(dv[cur as int] == toks@[cur as int].deep_view());
                }
                match &toks[cur] {
                    XmlTok::Close { .. } => {
                        return Some(out);
                    },
                    XmlTok::Open { name, .. } => {
                        if str_eq(name.as_str(), "cvParam") {
                            match decode_cv_param(toks, cur) {
                                None => {
                                    return None;
                                },
                                Some(p) => {
                                    let ghost prev = out.deep_view();
                                    let ghost pdv = p.deep_view();
                                    out.push(p);
                                    proof {
                                        assert(out.deep_view() =~= prev.push(pdv));
                                    }
                                },
                            }
                        }
                        match elem_extent(toks, cur) {
                            None => {
                                return None;
                            },
                            Some(j) => {
                                if j <= cur {
                                    return None;
                                }
                                cur = j;
                            },
                        }
                    },
                }
            }
        },
    }
}

/// Walks the direct children from `i`, decoding every `userParam`.
pub open spec fn spec_user_params_from(
    toks: Seq<SpecXmlTok>,
    i: int,
    acc: Seq<SpecUserParam>,
) -> Option<Seq<SpecUserParam>>
    decreases toks.len() - i when 0 <= i <= toks.len()
{
    if i >= toks.len() {
        None
    } else {
        match toks[i] {
            SpecXmlTok::Close { .. } => Some(acc),
            SpecXmlTok::Open { name, .. } => {
                if name == "userParam"@ {
                    match spec_decode_user_param(toks, i) {
                        None => None,
                        Some(p) => match elem_extent_at(toks, i) {
                            None => None,
                            Some(j) => if j <= i || j > toks.len() {
                                None
                            } else {
                                spec_user_params_from(toks, j, acc.push(p))
                            },
                        },
                    }
                } else {
                    match elem_extent_at(toks, i) {
                        None => None,
                        Some(j) => if j <= i || j > toks.len() {
                            None
                        } else {
                            spec_user_params_from(toks, j, acc)
                        },
                    }
                }
            },
        }
    }
}

/// The `userParam` children of the element at `i`.
pub open spec fn spec_user_params(toks: Seq<SpecXmlTok>, i: int) -> Option<Seq<SpecUserParam>> {
    if !(0 <= i < toks.len()) {
        None
    } else {
        match toks[i] {
            SpecXmlTok::Close { .. } => None,
            SpecXmlTok::Open { self_closing, .. } => if self_closing {
                Some(Seq::empty())
            } else {
                spec_user_params_from(toks, i + 1, Seq::empty())
            },
        }
    }
}

/// Decodes the `userParam` children of the element at `i`.
#[verifier::loop_isolation(false)]
pub fn decode_user_params(toks: &Vec<XmlTok>, i: usize) -> (r: Option<Vec<UserParam>>)
    requires
        i < toks@.len(),
    ensures
        r is None ==> spec_user_params(toks.deep_view(), i as int) is None,
        r matches Some(v) ==> spec_user_params(toks.deep_view(), i as int) == Some(v.deep_view()),
{
    let ghost dv = toks.deep_view();
    proof {
        assert(dv[i as int] == toks@[i as int].deep_view());
    }
    let n = toks.len();
    match &toks[i] {
        XmlTok::Close { .. } => None,
        XmlTok::Open { self_closing, .. } => {
            let mut out: Vec<UserParam> = Vec::new();
            proof {
                assert(out.deep_view() =~= Seq::<SpecUserParam>::empty());
            }
            if *self_closing {
                return Some(out);
            }
            let mut cur: usize = i + 1;
            loop
                invariant
                    i + 1 <= cur <= n,
                    spec_user_params_from(dv, i + 1, Seq::empty()) == spec_user_params_from(
                        dv,
                        cur as int,
                        out.deep_view(),
                    ),
                decreases n - cur,
            {
                if cur >= n {
                    return None;
                }
                proof {
                    assert(dv[cur as int] == toks@[cur as int].deep_view());
                }
                match &toks[cur] {
                    XmlTok::Close { .. } => {
                        return Some(out);
                    },
                    XmlTok::Open { name, .. } => {
                        if str_eq(name.as_str(), "userParam") {
                            match decode_user_param(toks, cur) {
                                None => {
                                    return None;
                                },
                                Some(p) => {
                                    let ghost prev = out.deep_view();
                                    let ghost pdv = p.deep_view();
                                    out.push(p);
                                    proof {
                                        assert(out.deep_view() =~= prev.push(pdv));
                                    }
                                },
                            }
                        }
                        match elem_extent(toks, cur) {
                            None => {
                                return None;
                            },
                            Some(j) => {
                                if j <= cur {
                                    return None;
                                }
                                cur = j;
                            },
                        }
                    },
                }
            }
        },
    }
}

/// Decodes one `Cv` record from its element.
pub open spec fn spec_decode_cv(toks: Seq<SpecXmlTok>, i: int) -> Option<SpecCv> {
    match spec_attr(toks, i, "id"@) {
        None => None,
        Some(id) => match spec_attr(toks, i, "fullName"@) {
            None => None,
            Some(full_name) => match spec_attr(toks, i, "version"@) {
                None => None,
                Some(version) => match spec_attr(toks, i, "URI"@) {
                    None => None,
                    Some(uri) => Some(SpecCv { id, full_name, version, uri }),
                },
            },
        },
    }
}

/// Decodes one `Cv` record.
pub fn decode_cv(toks: &Vec<XmlTok>, i: usize) -> (r: Option<Cv>)
    requires
        i < toks@.len(),
    ensures
        r is None ==> spec_decode_cv(toks.deep_view(), i as int) is None,
        r matches Some(v) ==> spec_decode_cv(toks.deep_view(), i as int) == Some(
            v.deep_view(),
        ),
{
    let id = match elem_attr(toks, i, "id") {
        None => {
            return None;
        },
        Some(v) => v,
    };
    let full_name = match elem_attr(toks, i, "fullName") {
        None => {
            return None;
        },
        Some(v) => v,
    };
    let version = match elem_attr(toks, i, "version") {
        None => {
            return None;
        },
        Some(v) => v,
    };
    let uri = match elem_attr(toks, i, "URI") {
        None => {
            return None;
        },
        Some(v) => v,
    };
    Some(Cv { id, full_name, version, uri })
}

/// Decodes one `ReferenceableParamGroupRef` record from its element.
pub open spec fn spec_decode_rpg_ref(toks: Seq<SpecXmlTok>, i: int) -> Option<SpecReferenceableParamGroupRef> {
    match spec_attr(toks, i, "ref"@) {
        None => None,
        Some(group_ref) => Some(SpecReferenceableParamGroupRef { group_ref }),
    }
}

/// Decodes one `ReferenceableParamGroupRef` record.
pub fn decode_rpg_ref(toks: &Vec<XmlTok>, i: usize) -> (r: Option<ReferenceableParamGroupRef>)
    requires
        i < toks@.len(),
    ensures
        r is None ==> spec_decode_rpg_ref(toks.deep_view(), i as int) is None,
        r matches Some(v) ==> spec_decode_rpg_ref(toks.deep_view(), i as int) == Some(
            v.deep_view(),
        ),
{
    let group_ref = match elem_attr(toks, i, "ref") {
        None => {
            return None;
        },
        Some(v) => v,
    };
    Some(ReferenceableParamGroupRef { group_ref })
}

/// Decodes one `Run` record from its element.
pub open spec fn spec_decode_run(toks: Seq<SpecXmlTok>, i: int) -> Option<SpecRun> {
    match spec_attr(toks, i, "id"@) {
        None => None,
        Some(id) => match spec_attr(toks, i, "defaultInstrumentConfigurationRef"@) {
            None => None,
            Some(default_instrument_configuration_ref) => match spec_attr(toks, i, "startTimeStamp"@) {
                None => None,
                Some(start_time_stamp) => match spec_attr(toks, i, "defaultSourceFileRef"@) {
                    None => None,
                    Some(default_source_file_ref) => match spec_attr(toks, i, "sampleRef"@) {
                        None => None,
                        Some(sample_ref) => Some(SpecRun { id, default_instrument_configuration_ref, start_time_stamp, default_source_file_ref, sample_ref }),
                    },
                },
            },
        },
    }
}

/// Decodes one `Run` record.
pub fn decode_run(toks: &Vec<XmlTok>, i: usize) -> (r: Option<Run>)
    requires
        i < toks@.len(),
    ensures
        r is None ==> spec_decode_run(toks.deep_view(), i as int) is None,
        r matches Some(v) ==> spec_decode_run(toks.deep_view(), i as int) == Some(
            v.deep_view(),
        ),
{
    let id = match elem_attr(toks, i, "id") {
        None => {
            return None;
        },
        Some(v) => v,
    };
    let default_instrument_configuration_ref = match elem_attr(toks, i, "defaultInstrumentConfigurationRef") {
        None => {
            return None;
        },
        Some(v) => v,
    };
    let start_time_stamp = match elem_attr(toks, i, "startTimeStamp") {
        None => {
            return None;
        },
        Some(v) => v,
    };
    let default_source_file_ref = match elem_attr(toks, i, "defaultSourceFileRef") {
        None => {
            return None;
        },
        Some(v) => v,
    };
    let sample_ref = match elem_attr(toks, i, "sampleRef") {
        None => {
            return None;
        },
        Some(v) => v,
    };
    Some(Run { id, default_instrument_configuration_ref, start_time_stamp, default_source_file_ref, sample_ref })
}

/// Decodes one `FileContent` record from its element.
pub open spec fn spec_decode_file_content(toks: Seq<SpecXmlTok>, i: int) -> Option<SpecFileContent> {
    match spec_cv_params(toks, i) {
        None => None,
        Some(cv_params) => Some(SpecFileContent { cv_params }),
    }
}

/// Decodes one `FileContent` record.
pub fn decode_file_content(toks: &Vec<XmlTok>, i: usize) -> (r: Option<FileContent>)
    requires
        i < toks@.len(),
    ensures
        r is None ==> spec_decode_file_content(toks.deep_view(), i as int) is None,
        r matches Some(v) ==> spec_decode_file_content(toks.deep_view(), i as int) == Some(
            v.deep_view(),
        ),
{
    let cv_params = match decode_cv_params(toks, i) {
        None => {
            return None;
        },
        Some(v) => v,
    };
    Some(FileContent { cv_params })
}

/// Decodes one `SourceFile` record from its element.
pub open spec fn spec_decode_source_file(toks: Seq<SpecXmlTok>, i: int) -> Option<SpecSourceFile> {
    match spec_attr(toks, i, "id"@) {
        None => None,
        Some(id) => match spec_attr(toks, i, "name"@) {
            None => None,
            Some(name) => match spec_attr(toks, i, "location"@) {
                None => None,
                Some(location) => match spec_cv_params(toks, i) {
                    None => None,
                    Some(cv_params) => Some(SpecSourceFile { id, name, location, cv_params }),
                },
            },
        },
    }
}

/// Decodes one `SourceFile` record.
pub fn decode_source_file(toks: &Vec<XmlTok>, i: usize) -> (r: Option<SourceFile>)
    requires
        i < toks@.len(),
    ensures
        r is None ==> spec_decode_source_file(toks.deep_view(), i as int) is None,
        r matches Some(v) ==> spec_decode_source_file(toks.deep_view(), i as int) == Some(
            v.deep_view(),
        ),
{
    let id = match elem_attr(toks, i, "id") {
        None => {
            return None;
        },
        Some(v) => v,
    };
    let name = match elem_attr(toks, i, "name") {
        None => {
            return None;
        },
        Some(v) => v,
    };
    let location = match elem_attr(toks, i, "location") {
        None => {
            return None;
        },
        Some(v) => v,
    };
    let cv_params = match decode_cv_params(toks, i) {
        None => {
            return None;
        },
        Some(v) => v,
    };
    Some(SourceFile { id, name, location, cv_params })
}

/// Decodes one `ReferenceableParamGroup` record from its element.
pub open spec fn spec_decode_rpg(toks: Seq<SpecXmlTok>, i: int) -> Option<SpecReferenceableParamGroup> {
    match spec_attr(toks, i, "id"@) {
        None => None,
        Some(id) => match spec_cv_params(toks, i) {
            None => None,
            Some(cv_params) => Some(SpecReferenceableParamGroup { id, cv_params }),
        },
    }
}

/// Decodes one `ReferenceableParamGroup` record.
pub fn decode_rpg(toks: &Vec<XmlTok>, i: usize) -> (r: Option<ReferenceableParamGroup>)
    requires
        i < toks@.len(),
    ensures
        r is None ==> spec_decode_rpg(toks.deep_view(), i as int) is None,
        r matches Some(v) ==> spec_decode_rpg(toks.deep_view(), i as int) == Some(
            v.deep_view(),
        ),
{
    let id = match elem_attr(toks, i, "id") {
        None => {
            return None;
        },
        Some(v) => v,
    };
    let cv_params = match decode_cv_params(toks, i) {
        None => {
            return None;
        },
        Some(v) => v,
    };
    Some(ReferenceableParamGroup { id, cv_params })
}

/// Decodes one `Sample` record from its element.
pub open spec fn spec_decode_sample(toks: Seq<SpecXmlTok>, i: int) -> Option<SpecSample> {
    match spec_attr(toks, i, "id"@) {
        None => None,
        Some(id) => match spec_cv_params(toks, i) {
            None => None,
            Some(cv_params) => Some(SpecSample { id, cv_params }),
        },
    }
}

/// Decodes one `Sample` record.
pub fn decode_sample(toks: &Vec<XmlTok>, i: usize) -> (r: Option<Sample>)
    requires
        i < toks@.len(),
    ensures
        r is None ==> spec_decode_sample(toks.deep_view(), i as int) is None,
        r matches Some(v) ==> spec_decode_sample(toks.deep_view(), i as int) == Some(
            v.deep_view(),
        ),
{
    let id = match elem_attr(toks, i, "id") {
        None => {
            return None;
        },
        Some(v) => v,
    };
    let cv_params = match decode_cv_params(toks, i) {
        None => {
            return None;
        },
        Some(v) => v,
    };
    Some(Sample { id, cv_params })
}

/// Decodes one `Software` record from its element.
pub open spec fn spec_decode_software(toks: Seq<SpecXmlTok>, i: int) -> Option<SpecSoftware> {
    match spec_attr(toks, i, "id"@) {
        None => None,
        Some(id) => match spec_attr(toks, i, "version"@) {
            None => None,
            Some(version) => match spec_cv_params(toks, i) {
                None => None,
                Some(cv_params) => Some(SpecSoftware { id, version, cv_params }),
            },
        },
    }
}

/// Decodes one `Software` record.
pub fn decode_software(toks: &Vec<XmlTok>, i: usize) -> (r: Option<Software>)
    requires
        i < toks@.len(),
    ensures
        r is None ==> spec_decode_software(toks.deep_view(), i as int) is None,
        r matches Some(v) ==> spec_decode_software(toks.deep_view(), i as int) == Some(
            v.deep_view(),
        ),
{
    let id = match elem_attr(toks, i, "id") {
        None => {
            return None;
        },
        Some(v) => v,
    };
    let version = match elem_attr(toks, i, "version") {
        None => {
            return None;
        },
        Some(v) => v,
    };
    let cv_params = match decode_cv_params(toks, i) {
        None => {
            return None;
        },
        Some(v) => v,
    };
    Some(Software { id, version, cv_params })
}

/// Decodes one `Source` record from its element.
pub open spec fn spec_decode_source(toks: Seq<SpecXmlTok>, i: int) -> Option<SpecSource> {
    match spec_attr(toks, i, "order"@) {
        None => None,
        Some(order) => match spec_cv_params(toks, i) {
            None => None,
            Some(cv_params) => Some(SpecSource { order, cv_params }),
        },
    }
}

/// Decodes one `Source` record.
pub fn decode_source(toks: &Vec<XmlTok>, i: usize) -> (r: Option<Source>)
    requires
        i < toks@.len(),
    ensures
        r is None ==> spec_decode_source(toks.deep_view(), i as int) is None,
        r matches Some(v) ==> spec_decode_source(toks.deep_view(), i as int) == Some(
            v.deep_view(),
        ),
{
    let order = match elem_attr(toks, i, "order") {
        None => {
            return None;
        },
        Some(v) => v,
    };
    let cv_params = match decode_cv_params(toks, i) {
        None => {
            return None;
        },
        Some(v) => v,
    };
    Some(Source { order, cv_params })
}

/// Decodes one `Analyzer` record from its element.
pub open spec fn spec_decode_analyzer(toks: Seq<SpecXmlTok>, i: int) -> Option<SpecAnalyzer> {
    match spec_attr(toks, i, "order"@) {
        None => None,
        Some(order) => match spec_cv_params(toks, i) {
            None => None,
            Some(cv_params) => Some(SpecAnalyzer { order, cv_params }),
        },
    }
}

/// Decodes one `Analyzer` record.
pub fn decode_analyzer(toks: &Vec<XmlTok>, i: usize) -> (r: Option<Analyzer>)
    requires
        i < toks@.len(),
    ensures
        r is None ==> spec_decode_analyzer(toks.deep_view(), i as int) is None,
        r matches Some(v) ==> spec_decode_analyzer(toks.deep_view(), i as int) == Some(
            v.deep_view(),
        ),
{
    let order = match elem_attr(toks, i, "order") {
        None => {
            return None;
        },
        Some(v) => v,
    };
    let cv_params = match decode_cv_params(toks, i) {
        None => {
            return None;
        },
        Some(v) => v,
    };
    Some(Analyzer { order, cv_params })
}

/// Decodes one `Detector` record from its element.
pub open spec fn spec_decode_detector(toks: Seq<SpecXmlTok>, i: int) -> Option<SpecDetector> {
    match spec_attr(toks, i, "order"@) {
        None => None,
        Some(order) => match spec_cv_params(toks, i) {
            None => None,
            Some(cv_params) => Some(SpecDetector { order, cv_params }),
        },
    }
}

/// Decodes one `Detector` record.
pub fn decode_detector(toks: &Vec<XmlTok>, i: usize) -> (r: Option<Detector>)
    requires
        i < toks@.len(),
    ensures
        r is None ==> spec_decode_detector(toks.deep_view(), i as int) is None,
        r matches Some(v) ==> spec_decode_detector(toks.deep_view(), i as int) == Some(
            v.deep_view(),
        ),
{
    let order = match elem_attr(toks, i, "order") {
        None => {
            return None;
        },
        Some(v) => v,
    };
    let cv_params = match decode_cv_params(toks, i) {
        None => {
            return None;
        },
        Some(v) => v,
    };
    Some(Detector { order, cv_params })
}

/// Decodes one `ProcessingMethod` record from its element.
pub open spec fn spec_decode_processing_method(toks: Seq<SpecXmlTok>, i: int) -> Option<SpecProcessingMethod> {
    match spec_attr(toks, i, "order"@) {
        None => None,
        Some(order) => match spec_attr(toks, i, "softwareRef"@) {
            None => None,
            Some(software_ref) => match spec_cv_params(toks, i) {
                None => None,
                Some(cv_params) => Some(SpecProcessingMethod { order, software_ref, cv_params }),
            },
        },
    }
}

/// Decodes one `ProcessingMethod` record.
pub fn decode_processing_method(toks: &Vec<XmlTok>, i: usize) -> (r: Option<ProcessingMethod>)
    requires
        i < toks@.len(),
    ensures
        r is None ==> spec_decode_processing_method(toks.deep_view(), i as int) is None,
        r matches Some(v) ==> spec_decode_processing_method(toks.deep_view(), i as int) == Some(
            v.deep_view(),
        ),
{
    let order = match elem_attr(toks, i, "order") {
        None => {
            return None;
        },
        Some(v) => v,
    };
    let software_ref = match elem_attr(toks, i, "softwareRef") {
        None => {
            return None;
        },
        Some(v) => v,
    };
    let cv_params = match decode_cv_params(toks, i) {
        None => {
            return None;
        },
        Some(v) => v,
    };
    Some(ProcessingMethod { order, software_ref, cv_params })
}

/// Decodes one `FileDescription` record from its required children.
pub open spec fn spec_decode_file_description(toks: Seq<SpecXmlTok>, i: int) -> Option<
    SpecFileDescription,
> {
    match spec_first_child(toks, i, "fileContent"@) {
        None => None,
        Some(j) => match spec_decode_file_content(toks, j) {
            None => None,
            Some(file_content) => match spec_first_child(toks, i, "sourceFileList"@) {
                None => None,
                Some(k) => match spec_decode_source_file_list(toks, k) {
                    None => None,
                    Some(source_file_list) => Some(
                        SpecFileDescription { file_content, source_file_list },
                    ),
                },
            },
        },
    }
}

/// Decodes one `FileDescription` record.
pub fn decode_file_description(toks: &Vec<XmlTok>, i: usize) -> (r: Option<FileDescription>)
    requires
        i < toks@.len(),
    ensures
        r is None ==> spec_decode_file_description(toks.deep_view(), i as int) is None,
        r matches Some(v) ==> spec_decode_file_description(toks.deep_view(), i as int) == Some(
            v.deep_view(),
        ),
{
    let j = match first_child(toks, i, "fileContent") {
        None => {
            return None;
        },
        Some(j) => j,
    };
    let file_content = match decode_file_content(toks, j) {
        None => {
            return None;
        },
        Some(v) => v,
    };
    let k = match first_child(toks, i, "sourceFileList") {
        None => {
            return None;
        },
        Some(k) => k,
    };
    let source_file_list = match decode_source_file_list(toks, k) {
        None => {
            return None;
        },
        Some(v) => v,
    };
    Some(FileDescription { file_content, source_file_list })
}

/// Decodes one `ComponentList` record; each component is optional.
pub open spec fn spec_decode_component_list(toks: Seq<SpecXmlTok>, i: int) -> Option<
    SpecComponentList,
> {
    match spec_attr(toks, i, "count"@) {
        None => None,
        Some(count) => {
            let source_r: Option<Option<SpecSource>> = match spec_first_child(toks, i, "source"@) {
                None => Some(None),
                Some(j) => match spec_decode_source(toks, j) {
                    None => None,
                    Some(s) => Some(Some(s)),
                },
            };
            match source_r {
                None => None,
                Some(source) => {
                    let analyzer_r: Option<Option<SpecAnalyzer>> = match spec_first_child(
                        toks,
                        i,
                        "analyzer"@,
                    ) {
                        None => Some(None),
                        Some(j) => match spec_decode_analyzer(toks, j) {
                            None => None,
                            Some(s) => Some(Some(s)),
                        },
                    };
                    match analyzer_r {
                        None => None,
                        Some(analyzer) => {
                            let detector_r: Option<Option<SpecDetector>> = match spec_first_child(
                                toks,
                                i,
                                "detector"@,
                            ) {
                                None => Some(None),
                                Some(j) => match spec_decode_detector(toks, j) {
                                    None => None,
                                    Some(s) => Some(Some(s)),
                                },
                            };
                            match detector_r {
                                None => None,
                                Some(detector) => Some(
                                    SpecComponentList { count, source, analyzer, detector },
                                ),
                            }
                        },
                    }
                },
            }
        },
    }
}

/// Decodes one `ComponentList` record.
pub fn decode_component_list(toks: &Vec<XmlTok>, i: usize) -> (r: Option<ComponentList>)
    requires
        i < toks@.len(),
    ensures
        r is None ==> spec_decode_component_list(toks.deep_view(), i as int) is None,
        r matches Some(v) ==> spec_decode_component_list(toks.deep_view(), i as int) == Some(
            v.deep_view(),
        ),
{
    let count = match elem_attr(toks, i, "count") {
        None => {
            return None;
        },
        Some(v) => v,
    };
    let source: Option<Source> = match first_child(toks, i, "source") {
        None => None,
        Some(j) => match decode_source(toks, j) {
            None => {
                return None;
            },
            Some(s) => Some(s),
        },
    };
    let analyzer: Option<Analyzer> = match first_child(toks, i, "analyzer") {
        None => None,
        Some(j) => match decode_analyzer(toks, j) {
            None => {
                return None;
            },
            Some(s) => Some(s),
        },
    };
    let detector: Option<Detector> = match first_child(toks, i, "detector") {
        None => None,
        Some(j) => match decode_detector(toks, j) {
            None => {
                return None;
            },
            Some(s) => Some(s),
        },
    };
    Some(ComponentList { count, source, analyzer, detector })
}

/// Decodes one `InstrumentConfiguration` record.
pub open spec fn spec_decode_instrument_configuration(toks: Seq<SpecXmlTok>, i: int) -> Option<
    SpecInstrumentConfiguration,
> {
    match spec_attr(toks, i, "id"@) {
        None => None,
        Some(id) => match spec_first_child(toks, i, "referenceableParamGroupRef"@) {
            None => None,
            Some(j) => match spec_decode_rpg_ref(toks, j) {
                None => None,
                Some(referenceable_param_group_ref) => match spec_first_child(
                    toks,
                    i,
                    "componentList"@,
                ) {
                    None => None,
                    Some(k) => match spec_decode_component_list(toks, k) {
                        None => None,
                        Some(component_list) => Some(
                            SpecInstrumentConfiguration {
                                id,
                                referenceable_param_group_ref,
                                component_list,
                            },
                        ),
                    },
                },
            },
        },
    }
}

/// Decodes one `InstrumentConfiguration` record.
pub fn decode_instrument_configuration(toks: &Vec<XmlTok>, i: usize) -> (r: Option<
    InstrumentConfiguration,
>)
    requires
        i < toks@.len(),
    ensures
        r is None ==> spec_decode_instrument_configuration(toks.deep_view(), i as int) is None,
        r matches Some(v) ==> spec_decode_instrument_configuration(toks.deep_view(), i as int)
            == Some(v.deep_view()),
{
    let id = match elem_attr(toks, i, "id") {
        None => {
            return None;
        },
        Some(v) => v,
    };
    let j = match first_child(toks, i, "referenceableParamGroupRef") {
        None => {
            return None;
        },
        Some(j) => j,
    };
    let referenceable_param_group_ref = match decode_rpg_ref(toks, j) {
        None => {
            return None;
        },
        Some(v) => v,
    };
    let k = match first_child(toks, i, "componentList") {
        None => {
            return None;
        },
        Some(k) => k,
    };
    let component_list = match decode_component_list(toks, k) {
        None => {
            return None;
        },
        Some(v) => v,
    };
    Some(InstrumentConfiguration { id, referenceable_param_group_ref, component_list })
}

/// Decodes one `DataProcessing` record.
pub open spec fn spec_decode_data_processing(toks: Seq<SpecXmlTok>, i: int) -> Option<
    SpecDataProcessing,
> {
    match spec_attr(toks, i, "id"@) {
        None => None,
        Some(id) => match spec_first_child(toks, i, "processingMethod"@) {
            None => None,
            Some(j) => match spec_decode_processing_method(toks, j) {
                None => None,
                Some(processing_method) => Some(SpecDataProcessing { id, processing_method }),
            },
        },
    }
}

/// Decodes one `DataProcessing` record.
pub fn decode_data_processing(toks: &Vec<XmlTok>, i: usize) -> (r: Option<DataProcessing>)
    requires
        i < toks@.len(),
    ensures
        r is None ==> spec_decode_data_processing(toks.deep_view(), i as int) is None,
        r matches Some(v) ==> spec_decode_data_processing(toks.deep_view(), i as int) == Some(
            v.deep_view(),
        ),
{
    let id = match elem_attr(toks, i, "id") {
        None => {
            return None;
        },
        Some(v) => v,
    };
    let j = match first_child(toks, i, "processingMethod") {
        None => {
            return None;
        },
        Some(j) => j,
    };
    let processing_method = match decode_processing_method(toks, j) {
        None => {
            return None;
        },
        Some(v) => v,
    };
    Some(DataProcessing { id, processing_method })
}

/// Decodes the run header from its root element.
pub open spec fn spec_decode_mzml_metadata(toks: Seq<SpecXmlTok>, i: int) -> Option<
    SpecMzMLMetaData,
> {
    match spec_attr(toks, i, "id"@) {
        None => None,
        Some(id) => match spec_attr(toks, i, "version"@) {
            None => None,
            Some(version) => match spec_first_child(toks, i, "cvList"@) {
                None => None,
                Some(p1) => match spec_decode_cv_list(toks, p1) {
                    None => None,
                    Some(cv_list) => match spec_first_child(toks, i, "fileDescription"@) {
                        None => None,
                        Some(p2) => match spec_decode_file_description(toks, p2) {
                            None => None,
                            Some(file_description) => match spec_first_child(
                                toks,
                                i,
                                "referenceableParamGroupList"@,
                            ) {
                                None => None,
                                Some(p3) => match spec_decode_rpg_list(toks, p3) {
                                    None => None,
                                    Some(referenceable_param_group_list) => match spec_first_child(
                                        toks,
                                        i,
                                        "sampleList"@,
                                    ) {
                                        None => None,
                                        Some(p4) => match spec_decode_sample_list(toks, p4) {
                                            None => None,
                                            Some(sample_list) => match spec_first_child(
                                                toks,
                                                i,
                                                "softwareList"@,
                                            ) {
                                                None => None,
                                                Some(p5) => match spec_decode_software_list(
                                                    toks,
                                                    p5,
                                                ) {
                                                    None => None,
                                                    Some(software_list) => match spec_first_child(
                                                        toks,
                                                        i,
                                                        "instrumentConfigurationList"@,
                                                    ) {
                                                        None => None,
                                                        Some(p6) => match spec_decode_ic_list(
                                                            toks,
                                                            p6,
                                                        ) {
                                                            None => None,
                                                            Some(instrument_configuration_list) => match spec_first_child(
                                                                toks,
                                                                i,
                                                                "dataProcessingList"@,
                                                            ) {
                                                                None => None,
                                                                Some(p7) => match spec_decode_dp_list(
                                                                    toks,
                                                                    p7,
                                                                ) {
                                                                    None => None,
                                                                    Some(data_processing_list) => match spec_first_child(
                                                                        toks,
                                                                        i,
                                                                        "run"@,
                                                                    ) {
                                                                        None => None,
                                                                        Some(p8) => match spec_decode_run(
                                                                            toks,
                                                                            p8,
                                                                        ) {
                                                                            None => None,
                                                                            Some(run) => Some(
                                                                                SpecMzMLMetaData {
                                                                                    id,
                                                                                    version,
                                                                                    cv_list,
                                                                                    file_description,
                                                                                    referenceable_param_group_list,
                                                                                    sample_list,
                                                                                    software_list,
                                                                                    instrument_configuration_list,
                                                                                    data_processing_list,
                                                                                    run,
                                                                                },
                                                                            ),
                                                                        },
                                                                    },
                                                                },
                                                            },
                                                        },
                                                    },
                                                },
                                            },
                                        },
                                    },
                                },
                            },
                        },
                    },
                },
            },
        },
    }
}

/// Decodes the run header from its root element.
pub fn decode_mzml_metadata(toks: &Vec<XmlTok>, i: usize) -> (r: Option<MzMLMetaData>)
    requires
        i < toks@.len(),
    ensures
        r is None ==> spec_decode_mzml_metadata(toks.deep_view(), i as int) is None,
        r matches Some(v) ==> spec_decode_mzml_metadata(toks.deep_view(), i as int) == Some(
            v.deep_view(),
        ),
{
    let id = match elem_attr(toks, i, "id") {
        None => {
            return None;
        },
        Some(v) => v,
    };
    let version = match elem_attr(toks, i, "version") {
        None => {
            return None;
        },
        Some(v) => v,
    };
    let p1 = match first_child(toks, i, "cvList") {
        None => {
            return None;
        },
        Some(j) => j,
    };
    let cv_list = match decode_cv_list(toks, p1) {
        None => {
            return None;
        },
        Some(v) => v,
    };
    let p2 = match first_child(toks, i, "fileDescription") {
        None => {
            return None;
        },
        Some(j) => j,
    };
    let file_description = match decode_file_description(toks, p2) {
        None => {
            return None;
        },
        Some(v) => v,
    };
    let p3 = match first_child(toks, i, "referenceableParamGroupList") {
        None => {
            return None;
        },
        Some(j) => j,
    };
    let referenceable_param_group_list = match decode_rpg_list(toks, p3) {
        None => {
            return None;
        },
        Some(v) => v,
    };
    let p4 = match first_child(toks, i, "sampleList") {
        None => {
            return None;
        },
        Some(j) => j,
    };
    let sample_list = match decode_sample_list(toks, p4) {
        None => {
            return None;
        },
        Some(v) => v,
    };
    let p5 = match first_child(toks, i, "softwareList") {
        None => {
            return None;
        },
        Some(j) => j,
    };
    let software_list = match decode_software_list(toks, p5) {
        None => {
            return None;
        },
        Some(v) => v,
    };
    let p6 = match first_child(toks, i, "instrumentConfigurationList") {
        None => {
            return None;
        },
        Some(j) => j,
    };
    let instrument_configuration_list = match decode_ic_list(toks, p6) {
        None => {
            return None;
        },
        Some(v) => v,
    };
    let p7 = match first_child(toks, i, "dataProcessingList") {
        None => {
            return None;
        },
        Some(j) => j,
    };
    let data_processing_list = match decode_dp_list(toks, p7) {
        None => {
            return None;
        },
        Some(v) => v,
    };
    let p8 = match first_child(toks, i, "run") {
        None => {
            return None;
        },
        Some(j) => j,
    };
    let run = match decode_run(toks, p8) {
        None => {
            return None;
        },
        Some(v) => v,
    };
    Some(MzMLMetaData {
        id,
        version,
        cv_list,
        file_description,
        referenceable_param_group_list,
        sample_list,
        software_list,
        instrument_configuration_list,
        data_processing_list,
        run,
    })
}

/// What decoding a run-header document yields: the token stream of the
/// well-formed document, decoded from its root element.
pub open spec fn spec_parse_mzml_metadata(s: Seq<char>) -> Option<SpecMzMLMetaData> {
    match spec_parse_document(s) {
        None => None,
        Some(toks) => spec_decode_mzml_metadata(toks, 0),
    }
}

/// Decodes run-header metadata from XML text.
///
/// The foreign engine hands the header over as a truncated fragment;
/// the caller must first append the closing of the root element (see
/// `RawFileStreamer::new`), and this function then expects a complete
/// document.
pub fn parse_mzml_metadata(mzml_header: &str) -> (r: Result<MzMLMetaData, RawFileError>)
    ensures
        r matches Ok(m) ==> spec_parse_mzml_metadata(mzml_header@) == Some(m.deep_view()),
        r matches Err(e) ==> spec_parse_mzml_metadata(mzml_header@) is None && e
            == RawFileError::MalformedMetadata,
{
    match parse_document(mzml_header) {
        None => Err(RawFileError::MalformedMetadata),
        Some(toks) => {
            proof {
                assert(toks.deep_view().len() == toks@.len());
            }
            match decode_mzml_metadata(&toks, 0) {
                None => Err(RawFileError::MalformedMetadata),
                Some(m) => Ok(m),
            }
        },
    }
}

/// Decoding the same header text twice yields the same metadata: the
/// run-header decoder is a function of the text alone, so any two
/// results that satisfy its contract on equal input are equal.
pub proof fn lemma_decode_run_metadata_deterministic(
    s: Seq<char>,
    r1: Option<SpecMzMLMetaData>,
    r2: Option<SpecMzMLMetaData>,
)
    requires
        r1 == spec_parse_mzml_metadata(s),
        r2 == spec_parse_mzml_metadata(s),
    ensures
        r1 == r2,
{
}

/// Walks the direct children from `i`, decoding every `cv`.
pub open spec fn spec_cv_items_from(toks: Seq<SpecXmlTok>, i: int, acc: Seq<SpecCv>) -> Option<
    Seq<SpecCv>,
>
    decreases toks.len() - i when 0 <= i <= toks.len()
{
    if i >= toks.len() {
        None
    } else {
        match toks[i] {
            SpecXmlTok::Close { .. } => Some(acc),
            SpecXmlTok::Open { name, .. } => {
                if name == "cv"@ {
                    match spec_decode_cv(toks, i) {
                        None => None,
                        Some(p) => match elem_extent_at(toks, i) {
                            None => None,
                            Some(j) => if j <= i || j > toks.len() {
                                None
                            } else {
                                spec_cv_items_from(toks, j, acc.push(p))
                            },
                        },
                    }
                } else {
                    match elem_extent_at(toks, i) {
                        None => None,
                        Some(j) => if j <= i || j > toks.len() {
                            None
                        } else {
                            spec_cv_items_from(toks, j, acc)
                        },
                    }
                }
            },
        }
    }
}

/// The `cv` children of the element at `i`.
pub open spec fn spec_cv_items(toks: Seq<SpecXmlTok>, i: int) -> Option<Seq<SpecCv>> {
    if !(0 <= i < toks.len()) {
        None
    } else {
        match toks[i] {
            SpecXmlTok::Close { .. } => None,
            SpecXmlTok::Open { self_closing, .. } => if self_closing {
                Some(Seq::empty())
            } else {
                spec_cv_items_from(toks, i + 1, Seq::empty())
            },
        }
    }
}

/// Decodes the `cv` children of the element at `i`.
#[verifier::loop_isolation(false)]
pub fn decode_cv_items(toks: &Vec<XmlTok>, i: usize) -> (r: Option<Vec<Cv>>)
    requires
        i < toks@.len(),
    ensures
        r is None ==> spec_cv_items(toks.deep_view(), i as int) is None,
        r matches Some(v) ==> spec_cv_items(toks.deep_view(), i as int) == Some(v.deep_view()),
{
    let ghost dv = toks.deep_view();
    proof {
        assert(dv[i as int] == toks@[i as int].deep_view());
    }
    let n = toks.len();
    match &toks[i] {
        XmlTok::Close { .. } => None,
        XmlTok::Open { self_closing, .. } => {
            let mut out: Vec<Cv> = Vec::new();
            proof {
                assert(out.deep_view() =~= Seq::<SpecCv>::empty());
            }
            if *self_closing {
                return Some(out);
            }
            let mut cur: usize = i + 1;
            loop
                invariant
                    i + 1 <= cur <= n,
                    spec_cv_items_from(dv, i + 1, Seq::empty()) == spec_cv_items_from(
                        dv,
                        cur as int,
                        out.deep_view(),
                    ),
                decreases n - cur,
            {
                if cur >= n {
                    return None;
                }
                proof {
                    assert(dv[cur as int] == toks@[cur as int].deep_view());
                }
                match &toks[cur] {
                    XmlTok::Close { .. } => {
                        return Some(out);
                    },
                    XmlTok::Open { name, .. } => {
                        if str_eq(name.as_str(), "cv") {
                            match decode_cv(toks, cur) {
                                None => {
                                    return None;
                                },
                                Some(p) => {
                                    let ghost prev = out.deep_view();
                                    let ghost pdv = p.deep_view();
                                    out.push(p);
                                    proof {
                                        assert(out.deep_view() =~= prev.push(pdv));
                                    }
                                },
                            }
                        }
                        match elem_extent(toks, cur) {
                            None => {
                                return None;
                            },
                            Some(j) => {
                                if j <= cur {
                                    return None;
                                }
                                cur = j;
                            },
                        }
                    },
                }
            }
        },
    }
}

/// Walks the direct children from `i`, decoding every `sourceFile`.
pub open spec fn spec_source_file_items_from(toks: Seq<SpecXmlTok>, i: int, acc: Seq<SpecSourceFile>) -> Option<
    Seq<SpecSourceFile>,
>
    decreases toks.len() - i when 0 <= i <= toks.len()
{
    if i >= toks.len() {
        None
    } else {
        match toks[i] {
            SpecXmlTok::Close { .. } => Some(acc),
            SpecXmlTok::Open { name, .. } => {
                if name == "sourceFile"@ {
                    match spec_decode_source_file(toks, i) {
                        None => None,
                        Some(p) => match elem_extent_at(toks, i) {
                            None => None,
                            Some(j) => if j <= i || j > toks.len() {
                                None
                            } else {
                                spec_source_file_items_from(toks, j, acc.push(p))
                            },
                        },
                    }
                } else {
                    match elem_extent_at(toks, i) {
                        None => None,
                        Some(j) => if j <= i || j > toks.len() {
                            None
                        } else {
                            spec_source_file_items_from(toks, j, acc)
                        },
                    }
                }
            },
        }
    }
}

/// The `sourceFile` children of the element at `i`.
pub open spec fn spec_source_file_items(toks: Seq<SpecXmlTok>, i: int) -> Option<Seq<SpecSourceFile>> {
    if !(0 <= i < toks.len()) {
        None
    } else {
        match toks[i] {
            SpecXmlTok::Close { .. } => None,
            SpecXmlTok::Open { self_closing, .. } => if self_closing {
                Some(Seq::empty())
            } else {
                spec_source_file_items_from(toks, i + 1, Seq::empty())
            },
        }
    }
}

/// Decodes the `sourceFile` children of the element at `i`.
#[verifier::loop_isolation(false)]
pub fn decode_source_file_items(toks: &Vec<XmlTok>, i: usize) -> (r: Option<Vec<SourceFile>>)
    requires
        i < toks@.len(),
    ensures
        r is None ==> spec_source_file_items(toks.deep_view(), i as int) is None,
        r matches Some(v) ==> spec_source_file_items(toks.deep_view(), i as int) == Some(v.deep_view()),
{
    let ghost dv = toks.deep_view();
    proof {
        assert(dv[i as int] == toks@[i as int].deep_view());
    }
    let n = toks.len();
    match &toks[i] {
        XmlTok::Close { .. } => None,
        XmlTok::Open { self_closing, .. } => {
            let mut out: Vec<SourceFile> = Vec::new();
            proof {
                assert(out.deep_view() =~= Seq::<SpecSourceFile>::empty());
            }
            if *self_closing {
                return Some(out);
            }
            let mut cur: usize = i + 1;
            loop
                invariant
                    i + 1 <= cur <= n,
                    spec_source_file_items_from(dv, i + 1, Seq::empty()) == spec_source_file_items_from(
                        dv,
                        cur as int,
                        out.deep_view(),
                    ),
                decreases n - cur,
            {
                if cur >= n {
                    return None;
                }
                proof {
                    assert(dv[cur as int] == toks@[cur as int].deep_view());
                }
                match &toks[cur] {
                    XmlTok::Close { .. } => {
                        return Some(out);
                    },
                    XmlTok::Open { name, .. } => {
                        if str_eq(name.as_str(), "sourceFile") {
                            match decode_source_file(toks, cur) {
                                None => {
                                    return None;
                                },
                                Some(p) => {
                                    let ghost prev = out.deep_view();
                                    let ghost pdv = p.deep_view();
                                    out.push(p);
                                    proof {
                                        assert(out.deep_view() =~= prev.push(pdv));
                                    }
                                },
                            }
                        }
                        match elem_extent(toks, cur) {
                            None => {
                                return None;
                            },
                            Some(j) => {
                                if j <= cur {
                                    return None;
                                }
                                cur = j;
                            },
                        }
                    },
                }
            }
        },
    }
}

/// Walks the direct children from `i`, decoding every `referenceableParamGroup`.
pub open spec fn spec_rpg_items_from(toks: Seq<SpecXmlTok>, i: int, acc: Seq<SpecReferenceableParamGroup>) -> Option<
    Seq<SpecReferenceableParamGroup>,
>
    decreases toks.len() - i when 0 <= i <= toks.len()
{
    if i >= toks.len() {
        None
    } else {
        match toks[i] {
            SpecXmlTok::Close { .. } => Some(acc),
            SpecXmlTok::Open { name, .. } => {
                if name == "referenceableParamGroup"@ {
                    match spec_decode_rpg(toks, i) {
                        None => None,
                        Some(p) => match elem_extent_at(toks, i) {
                            None => None,
                            Some(j) => if j <= i || j > toks.len() {
                                None
                            } else {
                                spec_rpg_items_from(toks, j, acc.push(p))
                            },
                        },
                    }
                } else {
                    match elem_extent_at(toks, i) {
                        None => None,
                        Some(j) => if j <= i || j > toks.len() {
                            None
                        } else {
                            spec_rpg_items_from(toks, j, acc)
                        },
                    }
                }
            },
        }
    }
}

/// The `referenceableParamGroup` children of the element at `i`.
pub open spec fn spec_rpg_items(toks: Seq<SpecXmlTok>, i: int) -> Option<Seq<SpecReferenceableParamGroup>> {
    if !(0 <= i < toks.len()) {
        None
    } else {
        match toks[i] {
            SpecXmlTok::Close { .. } => None,
            SpecXmlTok::Open { self_closing, .. } => if self_closing {
                Some(Seq::empty())
            } else {
                spec_rpg_items_from(toks, i + 1, Seq::empty())
            },
        }
    }
}

/// Decodes the `referenceableParamGroup` children of the element at `i`.
#[verifier::loop_isolation(false)]
pub fn decode_rpg_items(toks: &Vec<XmlTok>, i: usize) -> (r: Option<Vec<ReferenceableParamGroup>>)
    requires
        i < toks@.len(),
    ensures
        r is None ==> spec_rpg_items(toks.deep_view(), i as int) is None,
        r matches Some(v) ==> spec_rpg_items(toks.deep_view(), i as int) == Some(v.deep_view()),
{
    let ghost dv = toks.deep_view();
    proof {
        assert(dv[i as int] == toks@[i as int].deep_view());
    }
    let n = toks.len();
    match &toks[i] {
        XmlTok::Close { .. } => None,
        XmlTok::Open { self_closing, .. } => {
            let mut out: Vec<ReferenceableParamGroup> = Vec::new();
            proof {
                assert(out.deep_view() =~= Seq::<SpecReferenceableParamGroup>::empty());
            }
            if *self_closing {
                return Some(out);
            }
            let mut cur: usize = i + 1;
            loop
                invariant
                    i + 1 <= cur <= n,
                    spec_rpg_items_from(dv, i + 1, Seq::empty()) == spec_rpg_items_from(
                        dv,
                        cur as int,
                        out.deep_view(),
                    ),
                decreases n - cur,
            {
                if cur >= n {
                    return None;
                }
                proof {
                    assert(dv[cur as int] == toks@[cur as int].deep_view());
                }
                match &toks[cur] {
                    XmlTok::Close { .. } => {
                        return Some(out);
                    },
                    XmlTok::Open { name, .. } => {
                        if str_eq(name.as_str(), "referenceableParamGroup") {
                            match decode_rpg(toks, cur) {
                                None => {
                                    return None;
                                },
                                Some(p) => {
                                    let ghost prev = out.deep_view();
                                    let ghost pdv = p.deep_view();
                                    out.push(p);
                                    proof {
                                        assert(out.deep_view() =~= prev.push(pdv));
                                    }
                                },
                            }
                        }
                        match elem_extent(toks, cur) {
                            None => {
                                return None;
                            },
                            Some(j) => {
                                if j <= cur {
                                    return None;
                                }
                                cur = j;
                            },
                        }
                    },
                }
            }
        },
    }
}

/// Walks the direct children from `i`, decoding every `sample`.
pub open spec fn spec_sample_items_from(toks: Seq<SpecXmlTok>, i: int, acc: Seq<SpecSample>) -> Option<
    Seq<SpecSample>,
>
    decreases toks.len() - i when 0 <= i <= toks.len()
{
    if i >= toks.len() {
        None
    } else {
        match toks[i] {
            SpecXmlTok::Close { .. } => Some(acc),
            SpecXmlTok::Open { name, .. } => {
                if name == "sample"@ {
                    match spec_decode_sample(toks, i) {
                        None => None,
                        Some(p) => match elem_extent_at(toks, i) {
                            None => None,
                            Some(j) => if j <= i || j > toks.len() {
                                None
                            } else {
                                spec_sample_items_from(toks, j, acc.push(p))
                            },
                        },
                    }
                } else {
                    match elem_extent_at(toks, i) {
                        None => None,
                        Some(j) => if j <= i || j > toks.len() {
                            None
                        } else {
                            spec_sample_items_from(toks, j, acc)
                        },
                    }
                }
            },
        }
    }
}

/// The `sample` children of the element at `i`.
pub open spec fn spec_sample_items(toks: Seq<SpecXmlTok>, i: int) -> Option<Seq<SpecSample>> {
    if !(0 <= i < toks.len()) {
        None
    } else {
        match toks[i] {
            SpecXmlTok::Close { .. } => None,
            SpecXmlTok::Open { self_closing, .. } => if self_closing {
                Some(Seq::empty())
            } else {
                spec_sample_items_from(toks, i + 1, Seq::empty())
            },
        }
    }
}

/// Decodes the `sample` children of the element at `i`.
#[verifier::loop_isolation(false)]
pub fn decode_sample_items(toks: &Vec<XmlTok>, i: usize) -> (r: Option<Vec<Sample>>)
    requires
        i < toks@.len(),
    ensures
        r is None ==> spec_sample_items(toks.deep_view(), i as int) is None,
        r matches Some(v) ==> spec_sample_items(toks.deep_view(), i as int) == Some(v.deep_view()),
{
    let ghost dv = toks.deep_view();
    proof {
        assert(dv[i as int] == toks@[i as int].deep_view());
    }
    let n = toks.len();
    match &toks[i] {
        XmlTok::Close { .. } => None,
        XmlTok::Open { self_closing, .. } => {
            let mut out: Vec<Sample> = Vec::new();
            proof {
                assert(out.deep_view() =~= Seq::<SpecSample>::empty());
            }
            if *self_closing {
                return Some(out);
            }
            let mut cur: usize = i + 1;
            loop
                invariant
                    i + 1 <= cur <= n,
                    spec_sample_items_from(dv, i + 1, Seq::empty()) == spec_sample_items_from(
                        dv,
                        cur as int,
                        out.deep_view(),
                    ),
                decreases n - cur,
            {
                if cur >= n {
                    return None;
                }
                proof {
                    assert(dv[cur as int] == toks@[cur as int].deep_view());
                }
                match &toks[cur] {
                    XmlTok::Close { .. } => {
                        return Some(out);
                    },
                    XmlTok::Open { name, .. } => {
                        if str_eq(name.as_str(), "sample") {
                            match decode_sample(toks, cur) {
                                None => {
                                    return None;
                                },
                                Some(p) => {
                                    let ghost prev = out.deep_view();
                                    let ghost pdv = p.deep_view();
                                    out.push(p);
                                    proof {
                                        assert(out.deep_view() =~= prev.push(pdv));
                                    }
                                },
                            }
                        }
                        match elem_extent(toks, cur) {
                            None => {
                                return None;
                            },
                            Some(j) => {
                                if j <= cur {
                                    return None;
                                }
                                cur = j;
                            },
                        }
                    },
                }
            }
        },
    }
}

/// Walks the direct children from `i`, decoding every `software`.
pub open spec fn spec_software_items_from(toks: Seq<SpecXmlTok>, i: int, acc: Seq<SpecSoftware>) -> Option<
    Seq<SpecSoftware>,
>
    decreases toks.len() - i when 0 <= i <= toks.len()
{
    if i >= toks.len() {
        None
    } else {
        match toks[i] {
            SpecXmlTok::Close { .. } => Some(acc),
            SpecXmlTok::Open { name, .. } => {
                if name == "software"@ {
                    match spec_decode_software(toks, i) {
                        None => None,
                        Some(p) => match elem_extent_at(toks, i) {
                            None => None,
                            Some(j) => if j <= i || j > toks.len() {
                                None
                            } else {
                                spec_software_items_from(toks, j, acc.push(p))
                            },
                        },
                    }
                } else {
                    match elem_extent_at(toks, i) {
                        None => None,
                        Some(j) => if j <= i || j > toks.len() {
                            None
                        } else {
                            spec_software_items_from(toks, j, acc)
                        },
                    }
                }
            },
        }
    }
}

/// The `software` children of the element at `i`.
pub open spec fn spec_software_items(toks: Seq<SpecXmlTok>, i: int) -> Option<Seq<SpecSoftware>> {
    if !(0 <= i < toks.len()) {
        None
    } else {
        match toks[i] {
            SpecXmlTok::Close { .. } => None,
            SpecXmlTok::Open { self_closing, .. } => if self_closing {
                Some(Seq::empty())
            } else {
                spec_software_items_from(toks, i + 1, Seq::empty())
            },
        }
    }
}

/// Decodes the `software` children of the element at `i`.
#[verifier::loop_isolation(false)]
pub fn decode_software_items(toks: &Vec<XmlTok>, i: usize) -> (r: Option<Vec<Software>>)
    requires
        i < toks@.len(),
    ensures
        r is None ==> spec_software_items(toks.deep_view(), i as int) is None,
        r matches Some(v) ==> spec_software_items(toks.deep_view(), i as int) == Some(v.deep_view()),
{
    let ghost dv = toks.deep_view();
    proof {
        assert(dv[i as int] == toks@[i as int].deep_view());
    }
    let n = toks.len();
    match &toks[i] {
        XmlTok::Close { .. } => None,
        XmlTok::Open { self_closing, .. } => {
            let mut out: Vec<Software> = Vec::new();
            proof {
                assert(out.deep_view() =~= Seq::<SpecSoftware>::empty());
            }
            if *self_closing {
                return Some(out);
            }
            let mut cur: usize = i + 1;
            loop
                invariant
                    i + 1 <= cur <= n,
                    spec_software_items_from(dv, i + 1, Seq::empty()) == spec_software_items_from(
                        dv,
                        cur as int,
                        out.deep_view(),
                    ),
                decreases n - cur,
            {
                if cur >= n {
                    return None;
                }
                proof {
                    assert(dv[cur as int] == toks@[cur as int].deep_view());
                }
                match &toks[cur] {
                    XmlTok::Close { .. } => {
                        return Some(out);
                    },
                    XmlTok::Open { name, .. } => {
                        if str_eq(name.as_str(), "software") {
                            match decode_software(toks, cur) {
                                None => {
                                    return None;
                                },
                                Some(p) => {
                                    let ghost prev = out.deep_view();
                                    let ghost pdv = p.deep_view();
                                    out.push(p);
                                    proof {
                                        assert(out.deep_view() =~= prev.push(pdv));
                                    }
                                },
                            }
                        }
                        match elem_extent(toks, cur) {
                            None => {
                                return None;
                            },
                            Some(j) => {
                                if j <= cur {
                                    return None;
                                }
                                cur = j;
                            },
                        }
                    },
                }
            }
        },
    }
}

/// Walks the direct children from `i`, decoding every `instrumentConfiguration`.
pub open spec fn spec_ic_items_from(toks: Seq<SpecXmlTok>, i: int, acc: Seq<SpecInstrumentConfiguration>) -> Option<
    Seq<SpecInstrumentConfiguration>,
>
    decreases toks.len() - i when 0 <= i <= toks.len()
{
    if i >= toks.len() {
        None
    } else {
        match toks[i] {
            SpecXmlTok::Close { .. } => Some(acc),
            SpecXmlTok::Open { name, .. } => {
                if name == "instrumentConfiguration"@ {
                    match spec_decode_instrument_configuration(toks, i) {
                        None => None,
                        Some(p) => match elem_extent_at(toks, i) {
                            None => None,
                            Some(j) => if j <= i || j > toks.len() {
                                None
                            } else {
                                spec_ic_items_from(toks, j, acc.push(p))
                            },
                        },
                    }
                } else {
                    match elem_extent_at(toks, i) {
                        None => None,
                        Some(j) => if j <= i || j > toks.len() {
                            None
                        } else {
                            spec_ic_items_from(toks, j, acc)
                        },
                    }
                }
            },
        }
    }
}

/// The `instrumentConfiguration` children of the element at `i`.
pub open spec fn spec_ic_items(toks: Seq<SpecXmlTok>, i: int) -> Option<Seq<SpecInstrumentConfiguration>> {
    if !(0 <= i < toks.len()) {
        None
    } else {
        match toks[i] {
            SpecXmlTok::Close { .. } => None,
            SpecXmlTok::Open { self_closing, .. } => if self_closing {
                Some(Seq::empty())
            } else {
                spec_ic_items_from(toks, i + 1, Seq::empty())
            },
        }
    }
}

/// Decodes the `instrumentConfiguration` children of the element at `i`.
#[verifier::loop_isolation(false)]
pub fn decode_ic_items(toks: &Vec<XmlTok>, i: usize) -> (r: Option<Vec<InstrumentConfiguration>>)
    requires
        i < toks@.len(),
    ensures
        r is None ==> spec_ic_items(toks.deep_view(), i as int) is None,
        r matches Some(v) ==> spec_ic_items(toks.deep_view(), i as int) == Some(v.deep_view()),
{
    let ghost dv = toks.deep_view();
    proof {
        assert(dv[i as int] == toks@[i as int].deep_view());
    }
    let n = toks.len();
    match &toks[i] {
        XmlTok::Close { .. } => None,
        XmlTok::Open { self_closing, .. } => {
            let mut out: Vec<InstrumentConfiguration> = Vec::new();
            proof {
                assert(out.deep_view() =~= Seq::<SpecInstrumentConfiguration>::empty());
            }
            if *self_closing {
                return Some(out);
            }
            let mut cur: usize = i + 1;
            loop
                invariant
                    i + 1 <= cur <= n,
                    spec_ic_items_from(dv, i + 1, Seq::empty()) == spec_ic_items_from(
                        dv,
                        cur as int,
                        out.deep_view(),
                    ),
                decreases n - cur,
            {
                if cur >= n {
                    return None;
                }
                proof {
                    assert(dv[cur as int] == toks@[cur as int].deep_view());
                }
                match &toks[cur] {
                    XmlTok::Close { .. } => {
                        return Some(out);
                    },
                    XmlTok::Open { name, .. } => {
                        if str_eq(name.as_str(), "instrumentConfiguration") {
                            match decode_instrument_configuration(toks, cur) {
                                None => {
                                    return None;
                                },
                                Some(p) => {
                                    let ghost prev = out.deep_view();
                                    let ghost pdv = p.deep_view();
                                    out.push(p);
                                    proof {
                                        assert(out.deep_view() =~= prev.push(pdv));
                                    }
                                },
                            }
                        }
                        match elem_extent(toks, cur) {
                            None => {
                                return None;
                            },
                            Some(j) => {
                                if j <= cur {
                                    return None;
                                }
                                cur = j;
                            },
                        }
                    },
                }
            }
        },
    }
}

/// Walks the direct children from `i`, decoding every `dataProcessing`.
pub open spec fn spec_dp_items_from(toks: Seq<SpecXmlTok>, i: int, acc: Seq<SpecDataProcessing>) -> Option<
    Seq<SpecDataProcessing>,
>
    decreases toks.len() - i when 0 <= i <= toks.len()
{
    if i >= toks.len() {
        None
    } else {
        match toks[i] {
            SpecXmlTok::Close { .. } => Some(acc),
            SpecXmlTok::Open { name, .. } => {
                if name == "dataProcessing"@ {
                    match spec_decode_data_processing(toks, i) {
                        None => None,
                        Some(p) => match elem_extent_at(toks, i) {
                            None => None,
                            Some(j) => if j <= i || j > toks.len() {
                                None
                            } else {
                                spec_dp_items_from(toks, j, acc.push(p))
                            },
                        },
                    }
                } else {
                    match elem_extent_at(toks, i) {
                        None => None,
                        Some(j) => if j <= i || j > toks.len() {
                            None
                        } else {
                            spec_dp_items_from(toks, j, acc)
                        },
                    }
                }
            },
        }
    }
}

/// The `dataProcessing` children of the element at `i`.
pub open spec fn spec_dp_items(toks: Seq<SpecXmlTok>, i: int) -> Option<Seq<SpecDataProcessing>> {
    if !(0 <= i < toks.len()) {
        None
    } else {
        match toks[i] {
            SpecXmlTok::Close { .. } => None,
            SpecXmlTok::Open { self_closing, .. } => if self_closing {
                Some(Seq::empty())
            } else {
                spec_dp_items_from(toks, i + 1, Seq::empty())
            },
        }
    }
}

/// Decodes the `dataProcessing` children of the element at `i`.
#[verifier::loop_isolation(false)]
pub fn decode_dp_items(toks: &Vec<XmlTok>, i: usize) -> (r: Option<Vec<DataProcessing>>)
    requires
        i < toks@.len(),
    ensures
        r is None ==> spec_dp_items(toks.deep_view(), i as int) is None,
        r matches Some(v) ==> spec_dp_items(toks.deep_view(), i as int) == Some(v.deep_view()),
{
    let ghost dv = toks.deep_view();
    proof {
        assert(dv[i as int] == toks@[i as int].deep_view());
    }
    let n = toks.len();
    match &toks[i] {
        XmlTok::Close { .. } => None,
        XmlTok::Open { self_closing, .. } => {
            let mut out: Vec<DataProcessing> = Vec::new();
            proof {
                assert(out.deep_view() =~= Seq::<SpecDataProcessing>::empty());
            }
            if *self_closing {
                return Some(out);
            }
            let mut cur: usize = i + 1;
            loop
                invariant
                    i + 1 <= cur <= n,
                    spec_dp_items_from(dv, i + 1, Seq::empty()) == spec_dp_items_from(
                        dv,
                        cur as int,
                        out.deep_view(),
                    ),
                decreases n - cur,
            {
                if cur >= n {
                    return None;
                }
                proof {
                    assert(dv[cur as int] == toks@[cur as int].deep_view());
                }
                match &toks[cur] {
                    XmlTok::Close { .. } => {
                        return Some(out);
                    },
                    XmlTok::Open { name, .. } => {
                        if str_eq(name.as_str(), "dataProcessing") {
                            match decode_data_processing(toks, cur) {
                                None => {
                                    return None;
                                },
                                Some(p) => {
                                    let ghost prev = out.deep_view();
                                    let ghost pdv = p.deep_view();
                                    out.push(p);
                                    proof {
                                        assert(out.deep_view() =~= prev.push(pdv));
                                    }
                                },
                            }
                        }
                        match elem_extent(toks, cur) {
                            None => {
                                return None;
                            },
                            Some(j) => {
                                if j <= cur {
                                    return None;
                                }
                                cur = j;
                            },
                        }
                    },
                }
            }
        },
    }
}

/// Decodes one `CvList` record from its element.
pub open spec fn spec_decode_cv_list(toks: Seq<SpecXmlTok>, i: int) -> Option<SpecCvList> {
    match spec_attr(toks, i, "count"@) {
        None => None,
        Some(count) => match spec_cv_items(toks, i) {
            None => None,
            Some(cv_entries) => Some(SpecCvList { count, cv_entries }),
        },
    }
}

/// Decodes one `CvList` record.
pub fn decode_cv_list(toks: &Vec<XmlTok>, i: usize) -> (r: Option<CvList>)
    requires
        i < toks@.len(),
    ensures
        r is None ==> spec_decode_cv_list(toks.deep_view(), i as int) is None,
        r matches Some(v) ==> spec_decode_cv_list(toks.deep_view(), i as int) == Some(
            v.deep_view(),
        ),
{
    let count = match elem_attr(toks, i, "count") {
        None => {
            return None;
        },
        Some(v) => v,
    };
    let cv_entries = match decode_cv_items(toks, i) {
        None => {
            return None;
        },
        Some(v) => v,
    };
    Some(CvList { count, cv_entries })
}

/// Decodes one `SourceFileList` record from its element.
pub open spec fn spec_decode_source_file_list(toks: Seq<SpecXmlTok>, i: int) -> Option<SpecSourceFileList> {
    match spec_attr(toks, i, "count"@) {
        None => None,
        Some(count) => match spec_source_file_items(toks, i) {
            None => None,
            Some(source_files) => Some(SpecSourceFileList { count, source_files }),
        },
    }
}

/// Decodes one `SourceFileList` record.
pub fn decode_source_file_list(toks: &Vec<XmlTok>, i: usize) -> (r: Option<SourceFileList>)
    requires
        i < toks@.len(),
    ensures
        r is None ==> spec_decode_source_file_list(toks.deep_view(), i as int) is None,
        r matches Some(v) ==> spec_decode_source_file_list(toks.deep_view(), i as int) == Some(
            v.deep_view(),
        ),
{
    let count = match elem_attr(toks, i, "count") {
        None => {
            return None;
        },
        Some(v) => v,
    };
    let source_files = match decode_source_file_items(toks, i) {
        None => {
            return None;
        },
        Some(v) => v,
    };
    Some(SourceFileList { count, source_files })
}

/// Decodes one `ReferenceableParamGroupList` record from its element.
pub open spec fn spec_decode_rpg_list(toks: Seq<SpecXmlTok>, i: int) -> Option<SpecReferenceableParamGroupList> {
    match spec_attr(toks, i, "count"@) {
        None => None,
        Some(count) => match spec_rpg_items(toks, i) {
            None => None,
            Some(referenceable_param_groups) => Some(SpecReferenceableParamGroupList { count, referenceable_param_groups }),
        },
    }
}

/// Decodes one `ReferenceableParamGroupList` record.
pub fn decode_rpg_list(toks: &Vec<XmlTok>, i: usize) -> (r: Option<ReferenceableParamGroupList>)
    requires
        i < toks@.len(),
    ensures
        r is None ==> spec_decode_rpg_list(toks.deep_view(), i as int) is None,
        r matches Some(v) ==> spec_decode_rpg_list(toks.deep_view(), i as int) == Some(
            v.deep_view(),
        ),
{
    let count = match elem_attr(toks, i, "count") {
        None => {
            return None;
        },
        Some(v) => v,
    };
    let referenceable_param_groups = match decode_rpg_items(toks, i) {
        None => {
            return None;
        },
        Some(v) => v,
    };
    Some(ReferenceableParamGroupList { count, referenceable_param_groups })
}

/// Decodes one `SampleList` record from its element.
pub open spec fn spec_decode_sample_list(toks: Seq<SpecXmlTok>, i: int) -> Option<SpecSampleList> {
    match spec_attr(toks, i, "count"@) {
        None => None,
        Some(count) => match spec_sample_items(toks, i) {
            None => None,
            Some(samples) => Some(SpecSampleList { count, samples }),
        },
    }
}

/// Decodes one `SampleList` record.
pub fn decode_sample_list(toks: &Vec<XmlTok>, i: usize) -> (r: Option<SampleList>)
    requires
        i < toks@.len(),
    ensures
        r is None ==> spec_decode_sample_list(toks.deep_view(), i as int) is None,
        r matches Some(v) ==> spec_decode_sample_list(toks.deep_view(), i as int) == Some(
            v.deep_view(),
        ),
{
    let count = match elem_attr(toks, i, "count") {
        None => {
            return None;
        },
        Some(v) => v,
    };
    let samples = match decode_sample_items(toks, i) {
        None => {
            return None;
        },
        Some(v) => v,
    };
    Some(SampleList { count, samples })
}

/// Decodes one `SoftwareList` record from its element.
pub open spec fn spec_decode_software_list(toks: Seq<SpecXmlTok>, i: int) -> Option<SpecSoftwareList> {
    match spec_attr(toks, i, "count"@) {
        None => None,
        Some(count) => match spec_software_items(toks, i) {
            None => None,
            Some(software_entries) => Some(SpecSoftwareList { count, software_entries }),
        },
    }
}

/// Decodes one `SoftwareList` record.
pub fn decode_software_list(toks: &Vec<XmlTok>, i: usize) -> (r: Option<SoftwareList>)
    requires
        i < toks@.len(),
    ensures
        r is None ==> spec_decode_software_list(toks.deep_view(), i as int) is None,
        r matches Some(v) ==> spec_decode_software_list(toks.deep_view(), i as int) == Some(
            v.deep_view(),
        ),
{
    let count = match elem_attr(toks, i, "count") {
        None => {
            return None;
        },
        Some(v) => v,
    };
    let software_entries = match decode_software_items(toks, i) {
        None => {
            return None;
        },
        Some(v) => v,
    };
    Some(SoftwareList { count, software_entries })
}

/// Decodes one `InstrumentConfigurationList` record from its element.
pub open spec fn spec_decode_ic_list(toks: Seq<SpecXmlTok>, i: int) -> Option<SpecInstrumentConfigurationList> {
    match spec_attr(toks, i, "count"@) {
        None => None,
        Some(count) => match spec_ic_items(toks, i) {
            None => None,
            Some(instrument_configurations) => Some(SpecInstrumentConfigurationList { count, instrument_configurations }),
        },
    }
}

/// Decodes one `InstrumentConfigurationList` record.
pub fn decode_ic_list(toks: &Vec<XmlTok>, i: usize) -> (r: Option<InstrumentConfigurationList>)
    requires
        i < toks@.len(),
    ensures
        r is None ==> spec_decode_ic_list(toks.deep_view(), i as int) is None,
        r matches Some(v) ==> spec_decode_ic_list(toks.deep_view(), i as int) == Some(
            v.deep_view(),
        ),
{
    let count = match elem_attr(toks, i, "count") {
        None => {
            return None;
        },
        Some(v) => v,
    };
    let instrument_configurations = match decode_ic_items(toks, i) {
        None => {
            return None;
        },
        Some(v) => v,
    };
    Some(InstrumentConfigurationList { count, instrument_configurations })
}

/// Decodes one `DataProcessingList` record from its element.
pub open spec fn spec_decode_dp_list(toks: Seq<SpecXmlTok>, i: int) -> Option<SpecDataProcessingList> {
    match spec_attr(toks, i, "count"@) {
        None => None,
        Some(count) => match spec_dp_items(toks, i) {
            None => None,
            Some(data_processings) => Some(SpecDataProcessingList { count, data_processings }),
        },
    }
}

/// Decodes one `DataProcessingList` record.
pub fn decode_dp_list(toks: &Vec<XmlTok>, i: usize) -> (r: Option<DataProcessingList>)
    requires
        i < toks@.len(),
    ensures
        r is None ==> spec_decode_dp_list(toks.deep_view(), i as int) is None,
        r matches Some(v) ==> spec_decode_dp_list(toks.deep_view(), i as int) == Some(
            v.deep_view(),
        ),
{
    let count = match elem_attr(toks, i, "count") {
        None => {
            return None;
        },
        Some(v) => v,
    };
    let data_processings = match decode_dp_items(toks, i) {
        None => {
            return None;
        },
        Some(v) => v,
    };
    Some(DataProcessingList { count, data_processings })
}

} // verus!
