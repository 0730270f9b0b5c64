use rawfileparser::mzml::parse_mzml_metadata;
use rawfileparser::mzml_spectrum::parse_mzml_spectrum_metadata;
use rawfileparser::RawFileError;

fn sample_header() -> &'static str {
    r#"<?xml version="1.0" encoding="utf-8"?>
<mzML xmlns:xsi="http://www.w3.org/2001/XMLSchema-instance" xsi:schemaLocation="http://psi.hupo.org/ms/mzml http://psidev.info/files/ms/mzML/xsd/mzML1.1.0.xsd" version="1.1.0" id="smal
l" xmlns="http://psi.hupo.org/ms/mzml">
  <cvList count="2">
    <cv id="MS" fullName="Mass spectrometry ontology" version="4.1.12" URI="https://raw.githubusercontent.com/HUPO-PSI/psi-ms-CV/master/psi-ms.obo" />
    <cv id="UO" fullName="Unit Ontology" version="09:04:2014" URI="https://raw.githubusercontent.com/bio-ontology-research-group/unit-ontology/master/unit.obo" />
  </cvList>
  <fileDescription>
    <fileContent>
      <cvParam cvRef="MS" accession="MS:1000579" value="" name="MS1 spectrum" />
      <cvParam cvRef="MS" accession="MS:1000580" value="" name="MSn spectrum" />
    </fileContent>
    <sourceFileList count="1">
      <sourceFile id="RAW1" name="small" location="file:///./resources/small.RAW">
        <cvParam cvRef="MS" accession="MS:1000768" value="" name="Thermo nativeID format" />
        <cvParam cvRef="MS" accession="MS:1000563" value="" name="Thermo RAW format" />
      </sourceFile>
    </sourceFileList>
  </fileDescription>
  <referenceableParamGroupList count="1">
    <referenceableParamGroup id="commonInstrumentParams">
      <cvParam cvRef="MS" accession="MS:1000448" value="" name="LTQ FT" />
      <cvParam cvRef="MS" accession="MS:1000529" value="SN06061F" name="instrument serial number" />
    </referenceableParamGroup>
  </referenceableParamGroupList>
  <sampleList count="1">
    <sample id="sample_1">
      <cvParam cvRef="MS" accession="MS:1000001" value="1" name="sample number" />
      <cvParam cvRef="NCIT" accession="NCIT:C41275" value="1a1" name="Vial" />
      <cvParam cvRef="NCIT" accession="NCIT:C43378" value="2" name="Row" />
      <cvParam cvRef="AFO" accession="AFQ:0000178" value="1" name="dilution factor" />
    </sample>
  </sampleList>
  <softwareList count="1">
    <software id="ThermoRawFileParser" version="1.2.3">
      <cvParam cvRef="MS" accession="MS:1000799" value="ThermoRawFileParser" name="custom unreleased software tool" />
    </software>
  </softwareList>
  <instrumentConfigurationList count="2">
    <instrumentConfiguration id="IC1">
      <referenceableParamGroupRef ref="commonInstrumentParams" />
      <componentList count="3">
        <source order="1">
          <cvParam cvRef="MS" accession="MS:1000073" value="" name="electrospray ionization" />
        </source>
        <analyzer order="2">
          <cvParam cvRef="MS" accession="MS:1000079" value="" name="fourier transform ion cyclotron resonance mass spectrometer" />
        </analyzer>
        <detector order="3">
          <cvParam cvRef="MS" accession="MS:1000624" value="" name="inductive detector" />
        </detector>
      </componentList>
    </instrumentConfiguration>
    <instrumentConfiguration id="IC2">
      <referenceableParamGroupRef ref="commonInstrumentParams" />
      <componentList count="3">
        <source order="1">
          <cvParam cvRef="MS" accession="MS:1000073" value="" name="electrospray ionization" />
        </source>
        <analyzer order="2">
          <cvParam cvRef="MS" accession="MS:1000264" value="" name="ion trap" />
        </analyzer>
        <detector order="3">
          <cvParam cvRef="MS" accession="MS:1000253" value="" name="electron multiplier" />
        </detector>
      </componentList>
    </instrumentConfiguration>
  </instrumentConfigurationList>
  <dataProcessingList count="1">
    <dataProcessing id="ThermoRawFileParserProcessing">
      <processingMethod order="0" softwareRef="ThermoRawFileParser">
        <cvParam cvRef="MS" accession="MS:1000544" value="" name="Conversion to mzML" />
      </processingMethod>
    </dataProcessing>
  </dataProcessingList>
  <run id="small" defaultInstrumentConfigurationRef="IC1" startTimeStamp="2005-07-20T14:44:22.377Z" defaultSourceFileRef="RAW1" sampleRef="sample_1"/>
</mzML>
"#
}

#[test]
fn deserialize_mzml_metadata() {
    let mzml_header_str = sample_header();
    let mzml_metadata = parse_mzml_metadata(mzml_header_str).unwrap();
    assert_eq!(mzml_metadata.run.default_source_file_ref, "RAW1");
    assert_eq!(mzml_metadata.software_list.software_entries.first().unwrap().version, "1.2.3");

    let first_sample_opt = mzml_metadata.sample_list.samples.first();
    assert!(first_sample_opt.is_some(), "can't find the first defined sample");

    let sample_number_param_opt = first_sample_opt
        .unwrap()
        .cv_params
        .iter()
        .find(|cvp| cvp.accession.as_str().eq("MS:1000001"));
    assert!(sample_number_param_opt.is_some());

    assert_eq!(sample_number_param_opt.unwrap().value.as_ref().unwrap(), "1");
}

#[test]
fn deserialize_mzml_metadata_structure() {
    let m = parse_mzml_metadata(sample_header()).unwrap();
    assert_eq!(m.version, "1.1.0");
    assert_eq!(m.id, "smal\nl");
    assert_eq!(m.cv_list.count, "2");
    assert_eq!(m.cv_list.cv_entries.len(), 2);
    assert_eq!(m.cv_list.cv_entries[1].id, "UO");
    assert_eq!(m.cv_list.cv_entries[1].version, "09:04:2014");
    assert_eq!(m.file_description.file_content.cv_params.len(), 2);
    assert_eq!(m.file_description.source_file_list.source_files.len(), 1);
    assert_eq!(
        m.file_description.source_file_list.source_files[0].location,
        "file:///./resources/small.RAW"
    );
    assert_eq!(m.referenceable_param_group_list.referenceable_param_groups.len(), 1);
    assert_eq!(m.instrument_configuration_list.instrument_configurations.len(), 2);
    let ic2 = &m.instrument_configuration_list.instrument_configurations[1];
    assert_eq!(ic2.id, "IC2");
    assert_eq!(ic2.referenceable_param_group_ref.group_ref, "commonInstrumentParams");
    assert_eq!(ic2.component_list.count, "3");
    assert_eq!(ic2.component_list.analyzer.as_ref().unwrap().cv_params[0].name, "ion trap");
    assert!(ic2.component_list.source.is_some());
    assert!(ic2.component_list.detector.is_some());
    let dp = &m.data_processing_list.data_processings[0];
    assert_eq!(dp.id, "ThermoRawFileParserProcessing");
    assert_eq!(dp.processing_method.software_ref, "ThermoRawFileParser");
    assert_eq!(m.run.default_instrument_configuration_ref, "IC1");
    assert_eq!(m.run.start_time_stamp, "2005-07-20T14:44:22.377Z");
    assert_eq!(m.run.sample_ref, "sample_1");
}

#[test]
fn decode_is_deterministic_on_same_text() {
    let m1 = parse_mzml_metadata(sample_header()).unwrap();
    let m2 = parse_mzml_metadata(sample_header()).unwrap();
    assert_eq!(m1.id, m2.id);
    assert_eq!(m1.run.id, m2.run.id);
    assert_eq!(m1.cv_list.cv_entries.len(), m2.cv_list.cv_entries.len());
    assert_eq!(
        m1.sample_list.samples[0].cv_params[2].value,
        m2.sample_list.samples[0].cv_params[2].value
    );
}

#[test]
fn attribute_entities_are_unescaped() {
    let doc = r#"<spectrum index="0" id="a&amp;b&lt;c&gt;d&quot;e&apos;f" defaultArrayLength="0"><scanList count="0"></scanList></spectrum>"#;
    let m = parse_mzml_spectrum_metadata(doc).unwrap();
    assert_eq!(m.id, "a&b<c>d\"e'f");
}

#[test]
fn unknown_entity_is_malformed() {
    let doc = r#"<spectrum index="0" id="a&unknown;b" defaultArrayLength="0"><scanList count="0"></scanList></spectrum>"#;
    assert_eq!(parse_mzml_spectrum_metadata(doc).unwrap_err(), RawFileError::MalformedMetadata);
}

#[test]
fn mismatched_close_tag_is_malformed() {
    let doc = r#"<spectrum index="0" id="x" defaultArrayLength="0"><scanList count="0"></other></spectrum>"#;
    assert_eq!(parse_mzml_spectrum_metadata(doc).unwrap_err(), RawFileError::MalformedMetadata);
}

#[test]
fn trailing_element_after_root_is_malformed() {
    let doc = r#"<spectrum index="0" id="x" defaultArrayLength="0"><scanList count="0"></scanList></spectrum><extra/>"#;
    assert_eq!(parse_mzml_spectrum_metadata(doc).unwrap_err(), RawFileError::MalformedMetadata);
}

#[test]
fn missing_required_attribute_is_malformed() {
    let doc = r#"<spectrum index="0" id="x"><scanList count="0"></scanList></spectrum>"#;
    assert_eq!(parse_mzml_spectrum_metadata(doc).unwrap_err(), RawFileError::MalformedMetadata);
}

#[test]
fn missing_required_child_is_malformed() {
    let doc = r#"<spectrum index="0" id="x" defaultArrayLength="0"></spectrum>"#;
    assert_eq!(parse_mzml_spectrum_metadata(doc).unwrap_err(), RawFileError::MalformedMetadata);
}

#[test]
fn unknown_elements_and_text_are_ignored() {
    let doc = "<spectrum index=\"7\" id=\"scan=7\" defaultArrayLength=\"2\">\n\
        <!-- emitted by the engine -->\n\
        <mystery attr=\"1\"><inner/></mystery>\n\
        some stray text\n\
        <scanList count=\"0\"></scanList>\n\
        <binaryDataArrayList count=\"2\"><binaryDataArray>QUJD</binaryDataArray></binaryDataArrayList>\n\
        </spectrum>";
    let m = parse_mzml_spectrum_metadata(doc).unwrap();
    assert_eq!(m.index, "7");
    assert_eq!(m.default_array_length, "2");
    assert!(m.precursor_list.is_none());
}

#[test]
fn spectrum_metadata_full_decode() {
    let doc = spectrum_doc();
    let m = parse_mzml_spectrum_metadata(doc.as_str()).unwrap();
    assert_eq!(m.index, "1");
    assert_eq!(m.id, "controllerType=0 controllerNumber=1 scan=2");
    assert_eq!(m.scan_list.scans.len(), 1);
    let scan = &m.scan_list.scans[0];
    assert_eq!(scan.instrument_configuration_ref, "IC2");
    assert_eq!(scan.user_params.len(), 1);
    assert_eq!(scan.user_params[0].param_type, "xsd:double");
    assert_eq!(scan.scan_window_list.scan_windows.len(), 1);
    let pl = m.precursor_list.as_ref().unwrap();
    assert_eq!(pl.precursors.len(), 1);
    let prec = &pl.precursors[0];
    assert_eq!(prec.spectrum_ref, "controllerType=0 controllerNumber=1 scan=1");
    assert!(prec.isolation_window.is_some());
    assert_eq!(prec.selected_ion_list.selected_ions.len(), 1);
    assert_eq!(prec.activation.cv_params.len(), 1);
}

fn spectrum_doc() -> String {
    let mut s = String::new();
    s.push_str("<spectrum index=\"1\" id=\"controllerType=0 controllerNumber=1 scan=2\" defaultArrayLength=\"3\">\n");
    s.push_str("  <cvParam cvRef=\"MS\" accession=\"MS:1000511\" value=\"2\" name=\"ms level\" />\n");
    s.push_str("  <scanList count=\"1\">\n");
    s.push_str("    <cvParam cvRef=\"MS\" accession=\"MS:1000795\" value=\"\" name=\"no combination\" />\n");
    s.push_str("    <scan instrumentConfigurationRef=\"IC2\">\n");
    s.push_str("      <cvParam cvRef=\"MS\" accession=\"MS:1000016\" value=\"0.004935\" name=\"scan start time\" unitCvRef=\"UO\" unitAccession=\"UO:0000031\" unitName=\"minute\" />\n");
    s.push_str("      <userParam name=\"[Thermo Trailer Extra]Monoisotopic M/Z:\" value=\"810.4152\" type=\"xsd:double\" />\n");
    s.push_str("      <scanWindowList count=\"1\">\n");
    s.push_str("        <scanWindow>\n");
    s.push_str("          <cvParam cvRef=\"MS\" accession=\"MS:1000501\" value=\"400\" name=\"scan window lower limit\" />\n");
    s.push_str("        </scanWindow>\n");
    s.push_str("      </scanWindowList>\n");
    s.push_str("    </scan>\n");
    s.push_str("  </scanList>\n");
    s.push_str("  <precursorList count=\"1\">\n");
    s.push_str("    <precursor spectrumRef=\"controllerType=0 controllerNumber=1 scan=1\">\n");
    s.push_str("      <isolationWindow>\n");
    s.push_str("        <cvParam cvRef=\"MS\" accession=\"MS:1000827\" value=\"810.79\" name=\"isolation window target m/z\" />\n");
    s.push_str("      </isolationWindow>\n");
    s.push_str("      <selectedIonList count=\"1\">\n");
    s.push_str("        <selectedIon>\n");
    s.push_str("          <cvParam cvRef=\"MS\" accession=\"MS:1000744\" value=\"810.7898\" name=\"selected ion m/z\" />\n");
    s.push_str("          <cvParam cvRef=\"MS\" accession=\"MS:1000041\" value=\"2\" name=\"charge state\" />\n");
    s.push_str("        </selectedIon>\n");
    s.push_str("      </selectedIonList>\n");
    s.push_str("      <activation>\n");
    s.push_str("        <cvParam cvRef=\"MS\" accession=\"MS:1000133\" value=\"\" name=\"collision-induced dissociation\" />\n");
    s.push_str("      </activation>\n");
    s.push_str("    </precursor>\n");
    s.push_str("  </precursorList>\n");
    s.push_str("</spectrum>\n");
    s
}
