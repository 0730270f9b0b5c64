//! The per-file streaming core: scan-range rules, header assembly, and
//! the decoding half of every retrieval.
//!
//! A streamer stands for one source file opened inside the foreign
//! runtime.  The boundary calls themselves — initializing the raw-file
//! handle, resetting the writer, writing one scan, marshaling the
//! buffers out — are made by the unverified host shell, which hands
//! their outcomes to these functions as plain values.  Everything that
//! can be decided from those values is decided here, under contract:
//! availability and range checks, the header-closing quirk, metadata
//! decoding, the pairing of the numeric arrays, and the order and
//! isolation rules of a streaming pass.

use vstd::prelude::*;
use vstd::string::StringExecFns;
use crate::errors::RawFileError;
use crate::mono::MonoEmbeddinator;
use crate::mzml::{MzMLMetaData, parse_mzml_metadata, spec_parse_mzml_metadata};
use crate::mzml_spectrum::{MzMLSpectrum, MzMLSpectrumMetaData, SpectrumData,
    parse_mzml_spectrum_metadata, spec_parse_mzml_spectrum_metadata};

verus! {

/// The two numeric buffers marshaled out of the engine for one scan,
/// as 64-bit float bit patterns.
#[derive(Clone, Debug)]
pub struct RawPeaks {
    pub mz_bits: Vec<u64>,
    pub intensity_bits: Vec<u64>,
}

impl RawPeaks {
    /// The buffers pair up: one intensity for every m/z.  The
    /// marshaling fills both from the same peak count, so every
    /// retrieval outcome satisfies this.
    pub open spec fn wf(self) -> bool {
        self.mz_bits@.len() == self.intensity_bits@.len()
    }
}

/// Everything the foreign engine hands back for one scan: the XML
/// metadata chunk it wrote, and the marshaled peak buffers.
#[derive(Clone, Debug)]
pub struct SpectrumChunk {
    pub spectrum_xml: String,
    pub peaks: RawPeaks,
}

impl SpectrumChunk {
    /// The peak buffers pair up.
    pub open spec fn wf(self) -> bool {
        self.peaks.wf()
    }
}

/// One source file opened against the foreign runtime: its path, the
/// scan-number bounds fixed at open time, and the decoded run header.
#[derive(Clone, Debug)]
pub struct RawFileStreamer {
    pub raw_file_path: String,
    pub first_scan_number: u32,
    pub last_scan_number: u32,
    pub meta_data: MzMLMetaData,
}

/// The closing that the engine leaves off its header fragment; the
/// caller appends it before decoding.
pub open spec fn header_closing() -> Seq<char> {
    "/></mzML>"@
}

/// Whether one scan's decoded outcome follows from its fetched chunk:
/// a fetch failure is passed through, a malformed chunk is reported,
/// and a good chunk yields the decoded metadata paired with the
/// marshaled arrays.
pub open spec fn spec_one_spectrum(
    fetch: Result<SpectrumChunk, RawFileError>,
    res: Result<MzMLSpectrum, RawFileError>,
) -> bool {
    match fetch {
        Err(e) => res == Err::<MzMLSpectrum, RawFileError>(e),
        Ok(c) => match spec_parse_mzml_spectrum_metadata(c.spectrum_xml@) {
            None => res == Err::<MzMLSpectrum, RawFileError>(RawFileError::MalformedMetadata),
            Some(m) => res matches Ok(sp) && sp.metadata.deep_view() == m && sp.data.mz_list@
                == c.peaks.mz_bits@ && sp.data.intensity_list@ == c.peaks.intensity_bits@,
        },
    }
}

/// Copies an array of bit patterns.
fn copy_u64s(v: &Vec<u64>) -> (r: Vec<u64>)
    ensures
        r@ == v@,
{
    let mut r: Vec<u64> = Vec::new();
    let n = v.len();
    let mut i: usize = 0;
    while i < n
        invariant
            0 <= i <= n,
            n == v@.len(),
            r@ == v@.subrange(0, i as int),
        decreases n - i,
    {
        r.push(v[i]);
        proof {
            assert(r@ =~= v@.subrange(0, i + 1 as int));
        }
        i += 1;
    }
    proof {
        assert(v@.subrange(0, n as int) =~= v@);
    }
    r
}

impl RawFileStreamer {
    /// Assembles the opened-file state from what the engine reported:
    /// the scan bounds and the truncated header fragment.  Appends the
    /// missing closing to the fragment and decodes the run header;
    /// fails when the runtime is unavailable or the header does not
    /// decode.
    pub fn new(
        mono: &MonoEmbeddinator,
        current_thread_id: u64,
        raw_file_path: String,
        first_scan_number: u32,
        last_scan_number: u32,
        header_fragment: &str,
    ) -> (r: Result<RawFileStreamer, RawFileError>)
        ensures
            mono.spec_check_availability(current_thread_id) matches Err(e) ==> r == Err::<
                RawFileStreamer,
                RawFileError,
            >(e),
            mono.spec_check_availability(current_thread_id) is Ok ==> (match spec_parse_mzml_metadata(
                header_fragment@ + header_closing(),
            ) {
                Some(m) => r matches Ok(s) && s.meta_data.deep_view() == m && s.raw_file_path@
                    == raw_file_path@ && s.first_scan_number == first_scan_number
                    && s.last_scan_number == last_scan_number,
                None => r == Err::<RawFileStreamer, RawFileError>(RawFileError::MalformedMetadata),
            }),
    {
        if let Err(e) = mono.check_availability(current_thread_id) {
            return Err(e);
        }
        let full_header = header_fragment.to_owned().concat("/></mzML>");
        match parse_mzml_metadata(full_header.as_str()) {
            Err(e) => Err(e),
            Ok(meta_data) => Ok(
                RawFileStreamer { raw_file_path, first_scan_number, last_scan_number, meta_data },
            ),
        }
    }

    /// The path the file was opened under.
    pub fn get_raw_file_path(&self) -> (r: &str)
        ensures
            r@ == self.raw_file_path@,
    {
        self.raw_file_path.as_str()
    }

    /// The lowest valid scan number, fixed at open time.
    pub fn get_first_scan_number(&self) -> (r: u32)
        ensures
            r == self.first_scan_number,
    {
        self.first_scan_number
    }

    /// The highest valid scan number, fixed at open time.
    pub fn get_last_scan_number(&self) -> (r: u32)
        ensures
            r == self.last_scan_number,
    {
        self.last_scan_number
    }

    /// A scan number the streamer accepts.
    pub open spec fn spec_scan_in_range(self, number: u32) -> bool {
        self.first_scan_number <= number && number <= self.last_scan_number
    }

    /// Accepts exactly the scan numbers inside the bounds fixed at
    /// open time.
    pub fn check_scan_number(&self, number: u32) -> (r: Result<(), RawFileError>)
        ensures
            r is Ok <==> self.spec_scan_in_range(number),
            r matches Err(e) ==> e == RawFileError::ScanNumberOutOfRange,
    {
        if number < self.first_scan_number || number > self.last_scan_number {
            Err(RawFileError::ScanNumberOutOfRange)
        } else {
            Ok(())
        }
    }

    /// Decodes one scan's metadata from the XML chunk the engine wrote
    /// for it.
    ///
    /// Fails when the runtime is unavailable, when the scan number is
    /// out of range, when the fetch itself failed, or when the chunk
    /// does not decode.
    pub fn get_spectrum_metadadata(
        &self,
        mono: &MonoEmbeddinator,
        current_thread_id: u64,
        number: u32,
        fetched_xml: Result<String, RawFileError>,
    ) -> (r: Result<MzMLSpectrumMetaData, RawFileError>)
        ensures
            mono.spec_check_availability(current_thread_id) matches Err(e) ==> r == Err::<
                MzMLSpectrumMetaData,
                RawFileError,
            >(e),
            mono.spec_check_availability(current_thread_id) is Ok && !self.spec_scan_in_range(
                number,
            ) ==> r == Err::<MzMLSpectrumMetaData, RawFileError>(RawFileError::ScanNumberOutOfRange),
            mono.spec_check_availability(current_thread_id) is Ok && self.spec_scan_in_range(number)
                ==> (match fetched_xml {
                Err(e) => r == Err::<MzMLSpectrumMetaData, RawFileError>(e),
                Ok(x) => match spec_parse_mzml_spectrum_metadata(x@) {
                    Some(m) => r matches Ok(mm) && mm.deep_view() == m,
                    None => r == Err::<MzMLSpectrumMetaData, RawFileError>(
                        RawFileError::MalformedMetadata,
                    ),
                },
            }),
    {
        if let Err(e) = mono.check_availability(current_thread_id) {
            return Err(e);
        }
        if let Err(e) = self.check_scan_number(number) {
            return Err(e);
        }
        match fetched_xml {
            Err(e) => Err(e),
            Ok(x) => parse_mzml_spectrum_metadata(x.as_str()),
        }
    }

    /// Pairs the marshaled peak buffers of one scan into its data
    /// record; the two sequences always come out the same length.
    ///
    /// Fails when the runtime is unavailable, when the scan number is
    /// out of range, or when the fetch itself failed.
    pub fn get_spectrum_data(
        &self,
        mono: &MonoEmbeddinator,
        current_thread_id: u64,
        number: u32,
        fetched_peaks: Result<RawPeaks, RawFileError>,
    ) -> (r: Result<SpectrumData, RawFileError>)
        requires
            fetched_peaks matches Ok(p) ==> p.wf(),
        ensures
            mono.spec_check_availability(current_thread_id) matches Err(e) ==> r == Err::<
                SpectrumData,
                RawFileError,
            >(e),
            mono.spec_check_availability(current_thread_id) is Ok && !self.spec_scan_in_range(
                number,
            ) ==> r == Err::<SpectrumData, RawFileError>(RawFileError::ScanNumberOutOfRange),
            mono.spec_check_availability(current_thread_id) is Ok && self.spec_scan_in_range(number)
                ==> (match fetched_peaks {
                Err(e) => r == Err::<SpectrumData, RawFileError>(e),
                Ok(p) => r matches Ok(d) && d.mz_list@ == p.mz_bits@ && d.intensity_list@
                    == p.intensity_bits@,
            }),
            r matches Ok(d) ==> d.mz_list@.len() == d.intensity_list@.len(),
    {
        if let Err(e) = mono.check_availability(current_thread_id) {
            return Err(e);
        }
        if let Err(e) = self.check_scan_number(number) {
            return Err(e);
        }
        match fetched_peaks {
            Err(e) => Err(e),
            Ok(p) => Ok(SpectrumData { mz_list: p.mz_bits, intensity_list: p.intensity_bits }),
        }
    }

    /// Decodes one scan completely: its metadata chunk and its peak
    /// buffers.
    ///
    /// Fails when the runtime is unavailable, when the scan number is
    /// out of range, when the fetch itself failed, or when the chunk
    /// does not decode.
    pub fn get_spectrum(
        &self,
        mono: &MonoEmbeddinator,
        current_thread_id: u64,
        number: u32,
        fetched: Result<SpectrumChunk, RawFileError>,
    ) -> (r: Result<MzMLSpectrum, RawFileError>)
        requires
            fetched matches Ok(c) ==> c.wf(),
        ensures
            mono.spec_check_availability(current_thread_id) matches Err(e) ==> r == Err::<
                MzMLSpectrum,
                RawFileError,
            >(e),
            mono.spec_check_availability(current_thread_id) is Ok && !self.spec_scan_in_range(
                number,
            ) ==> r == Err::<MzMLSpectrum, RawFileError>(RawFileError::ScanNumberOutOfRange),
            mono.spec_check_availability(current_thread_id) is Ok && self.spec_scan_in_range(number)
                ==> spec_one_spectrum(fetched, r),
            r matches Ok(sp) ==> sp.data.mz_list@.len() == sp.data.intensity_list@.len(),
    {
        if let Err(e) = mono.check_availability(current_thread_id) {
            return Err(e);
        }
        if let Err(e) = self.check_scan_number(number) {
            return Err(e);
        }
        match fetched {
            Err(e) => Err(e),
            Ok(c) => match parse_mzml_spectrum_metadata(c.spectrum_xml.as_str()) {
                Err(e) => Err(e),
                Ok(metadata) => Ok(
                    MzMLSpectrum::new(
                        metadata,
                        SpectrumData {
                            mz_list: c.peaks.mz_bits,
                            intensity_list: c.peaks.intensity_bits,
                        },
                    ),
                ),
            },
        }
    }

    /// The sequential heart of a streaming pass: decodes the fetched
    /// chunk of every scan of the run, in increasing scan-number order.
    ///
    /// `fetches[i]` must be the outcome the engine gave for scan
    /// `first_scan_number + i`.  The result pairs each outcome with its
    /// scan number: entry `i` carries scan `first_scan_number + i`, so
    /// delivery is in strictly increasing scan-number order with no
    /// scan skipped or repeated, and failures are isolated — a scan
    /// that failed to fetch or decode yields its error without
    /// stopping the scans after it.  The host shell drives this from
    /// the producer side of its bounded queue.
    pub fn process_spectra(
        &self,
        mono: &MonoEmbeddinator,
        current_thread_id: u64,
        fetches: Vec<Result<SpectrumChunk, RawFileError>>,
    ) -> (r: Result<Vec<(u32, Result<MzMLSpectrum, RawFileError>)>, RawFileError>)
        requires
            self.first_scan_number <= self.last_scan_number,
            fetches@.len() == self.last_scan_number - self.first_scan_number + 1,
            forall|i: int|
                0 <= i < fetches@.len() ==> ((#[trigger] fetches@[i]) matches Ok(c) ==> c.wf()),
        ensures
            mono.spec_check_availability(current_thread_id) matches Err(e) ==> r == Err::<
                Vec<(u32, Result<MzMLSpectrum, RawFileError>)>,
                RawFileError,
            >(e),
            mono.spec_check_availability(current_thread_id) is Ok ==> (r matches Ok(out)
                && out@.len() == fetches@.len() && (forall|i: int|
                0 <= i < out@.len() ==> (#[trigger] out@[i]).0 == self.first_scan_number + i
                    && spec_one_spectrum(fetches@[i], out@[i].1))),
    {
        if let Err(e) = mono.check_availability(current_thread_id) {
            return Err(e);
        }
        let n = fetches.len();
        let mut out: Vec<(u32, Result<MzMLSpectrum, RawFileError>)> = Vec::new();
        let mut i: usize = 0;
        while i < n
            invariant
                0 <= i <= n,
                n == fetches@.len(),
                n == self.last_scan_number - self.first_scan_number + 1,
                out@.len() == i,
                forall|j: int|
                    0 <= j < i ==> (#[trigger] out@[j]).0 == self.first_scan_number + j
                        && spec_one_spectrum(fetches@[j], out@[j].1),
            decreases n - i,
        {
            let res: Result<MzMLSpectrum, RawFileError> = match &fetches[i] {
                Err(e) => Err(*e),
                Ok(c) => match parse_mzml_spectrum_metadata(c.spectrum_xml.as_str()) {
                    Err(e) => Err(e),
                    Ok(metadata) => Ok(
                        MzMLSpectrum::new(
                            metadata,
                            SpectrumData {
                                mz_list: copy_u64s(&c.peaks.mz_bits),
                                intensity_list: copy_u64s(&c.peaks.intensity_bits),
                            },
                        ),
                    ),
                },
            };
            let scan_number = self.first_scan_number + (i as u32);
            out.push((scan_number, res));
            i += 1;
        }
        Ok(out)
    }
}

/// Two data retrievals that saw the same marshaled buffers yield the
/// same paired arrays: per position, the retrieval is a function of
/// what the engine handed back.
pub proof fn lemma_spectrum_data_repeatable(p: RawPeaks, d1: SpectrumData, d2: SpectrumData)
    requires
        d1.mz_list@ == p.mz_bits@,
        d1.intensity_list@ == p.intensity_bits@,
        d2.mz_list@ == p.mz_bits@,
        d2.intensity_list@ == p.intensity_bits@,
    ensures
        d1.mz_list@ == d2.mz_list@,
        d1.intensity_list@ == d2.intensity_list@,
{
}

/// Any two streaming passes over the same fetched outcomes deliver the
/// same number of results, each under the same scan number, and scan
/// for scan the same decoded outcome: the pass is a function of the
/// streamer's state and the engine's outcomes alone.
pub proof fn lemma_process_spectra_deterministic(
    first_scan_number: u32,
    fetches: Seq<Result<SpectrumChunk, RawFileError>>,
    out1: Seq<(u32, Result<MzMLSpectrum, RawFileError>)>,
    out2: Seq<(u32, Result<MzMLSpectrum, RawFileError>)>,
)
    requires
        out1.len() == fetches.len(),
        out2.len() == fetches.len(),
        forall|i: int|
            0 <= i < fetches.len() ==> (#[trigger] out1[i]).0 == first_scan_number + i
                && spec_one_spectrum(fetches[i], out1[i].1),
        forall|i: int|
            0 <= i < fetches.len() ==> (#[trigger] out2[i]).0 == first_scan_number + i
                && spec_one_spectrum(fetches[i], out2[i].1),
    ensures
        forall|i: int| 0 <= i < fetches.len() ==> (#[trigger] out1[i]).0 == out2[i].0,
        forall|i: int|
            0 <= i < fetches.len() ==> ((#[trigger] out1[i]).1 matches Err(e) ==> out2[i].1 matches
                Err(e2) && e == e2),
        forall|i: int|
            0 <= i < fetches.len() ==> ((#[trigger] out1[i]).1 matches Ok(s1) ==> out2[i].1 matches
                Ok(s2) && s1.metadata.deep_view() == s2.metadata.deep_view() && s1.data.mz_list@
                == s2.data.mz_list@ && s1.data.intensity_list@ == s2.data.intensity_list@),
{
}

} // verus!
