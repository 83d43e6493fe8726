//! Driving a batch of per-record conversions: bounding the work to a
//! maximum count, planning the files each record yields, collecting the
//! successes, and failing in aggregate only when nothing at all succeeded.
//!
//! The caller performs the network and disk work between the steps: it
//! fetches and renders each record's page, then reports each record's
//! outcome back to the run.

use vstd::prelude::*;
use crate::chars::string_views;
use crate::errors::PipelineError;
use crate::naming::NamingStrategy;
use crate::naming::generate_filename;
use crate::naming::spec_base_name;
use crate::records::RecordModel;
use crate::records::SearchResult;
use crate::records::extract_urls_from_results;
use crate::records::parsed_records;
use crate::records::record_views;

verus! {

/// Which artifacts a batch produces for each record.
#[derive(Debug, Clone, Copy, PartialEq, Eq, Structural)]
pub enum OutputFormat {
    /// The page-capture artifact only.
    Pdf,
    /// The readable-text artifact only.
    Markdown,
    /// Both artifacts, the page capture first.
    Both,
}

/// The configuration bundle of one batch: read-only once constructed.
#[derive(Debug, Clone)]
pub struct SearchToPdfConfig {
    /// How many records to convert at most.
    pub max_results: usize,
    /// The directory the output files go to.
    pub output_dir: String,
    /// Whether the readable-text artifact carries a metadata header.
    pub include_metadata: bool,
    /// How output files are named.
    pub naming_strategy: NamingStrategy,
    /// Which artifacts each record yields.
    pub output_format: OutputFormat,
}

impl Default for SearchToPdfConfig {
    fn default() -> (c: Self)
        ensures
            c.max_results == 5,
            c.output_dir@ == "./pdf_downloads"@,
            c.include_metadata == true,
            c.naming_strategy == NamingStrategy::TitleDomain,
            c.output_format == OutputFormat::Pdf,
    {
        SearchToPdfConfig {
            max_results: 5,
            output_dir: String::from_str("./pdf_downloads"),
            include_metadata: true,
            naming_strategy: NamingStrategy::TitleDomain,
            output_format: OutputFormat::Pdf,
        }
    }
}

/// The first `max_results` records, in order; fewer records pass through
/// unchanged.
pub fn truncate_results(results: Vec<SearchResult>, max_results: usize) -> (r: Vec<SearchResult>)
    ensures
        r@ == if results@.len() <= max_results {
            results@
        } else {
            results@.take(max_results as int)
        },
        r@.len() <= max_results,
{
    let mut r = results;
    if max_results < r.len() {
        r.truncate(max_results);
        proof {
            assert(r@ =~= r@);
        }
    }
    r
}

/// The filenames one record yields for a base name under each format: the
/// page capture carries the `pdf` extension, the readable text the `md`
/// extension, and `Both` yields the two in that order.
pub open spec fn spec_planned_files(base: Seq<char>, format: OutputFormat) -> Seq<Seq<char>> {
    match format {
        OutputFormat::Pdf => seq![base + "."@ + "pdf"@],
        OutputFormat::Markdown => seq![base + "."@ + "md"@],
        OutputFormat::Both => seq![base + "."@ + "pdf"@, base + "."@ + "md"@],
    }
}

/// The filenames to write for one record: one per requested artifact, named
/// by the configured strategy. Fails, for this record alone, when the
/// strategy needs the record's URL and that URL does not parse.
pub fn plan_record_files(result: &SearchResult, index: usize, config: &SearchToPdfConfig) -> (r:
    Result<Vec<String>, PipelineError>)
    requires
        index < usize::MAX,
    ensures
        r is Ok <==> spec_base_name(result@, index as int, config.naming_strategy) is Some,
        r is Ok ==> string_views((r->Ok_0)@) == spec_planned_files(
            spec_base_name(result@, index as int, config.naming_strategy)->Some_0,
            config.output_format,
        ),
        r is Err ==> r->Err_0 is Validation,
{
    match config.output_format {
        OutputFormat::Pdf => {
            match generate_filename(result, index, config.naming_strategy, "pdf") {
                Ok(name) => {
                    let mut files: Vec<String> = Vec::new();
                    files.push(name);
                    proof {
                        assert(string_views(files@) =~= spec_planned_files(
                            spec_base_name(result@, index as int, config.naming_strategy)->Some_0,
                            OutputFormat::Pdf,
                        ));
                    }
                    Ok(files)
                },
                Err(e) => Err(e),
            }
        },
        OutputFormat::Markdown => {
            match generate_filename(result, index, config.naming_strategy, "md") {
                Ok(name) => {
                    let mut files: Vec<String> = Vec::new();
                    files.push(name);
                    proof {
                        assert(string_views(files@) =~= spec_planned_files(
                            spec_base_name(result@, index as int, config.naming_strategy)->Some_0,
                            OutputFormat::Markdown,
                        ));
                    }
                    Ok(files)
                },
                Err(e) => Err(e),
            }
        },
        OutputFormat::Both => {
            match generate_filename(result, index, config.naming_strategy, "pdf") {
                Ok(pdf_name) => {
                    match generate_filename(result, index, config.naming_strategy, "md") {
                        Ok(md_name) => {
                            let mut files: Vec<String> = Vec::new();
                            files.push(pdf_name);
                            files.push(md_name);
                            proof {
                                assert(string_views(files@) =~= spec_planned_files(
                                    spec_base_name(
                                        result@,
                                        index as int,
                                        config.naming_strategy,
                                    )->Some_0,
                                    OutputFormat::Both,
                                ));
                            }
                            Ok(files)
                        },
                        Err(e) => Err(e),
                    }
                },
                Err(e) => Err(e),
            }
        },
    }
}

/// One batch in flight: the records chosen for conversion and the output
/// paths collected so far. The caller walks the records in order, converts
/// each, and reports per-record outcomes; a record whose conversion failed
/// is simply not reported, and the batch goes on.
pub struct BatchRun {
    records: Vec<SearchResult>,
    successes: Vec<String>,
}

impl BatchRun {
    /// The records this run converts, in order.
    pub closed spec fn records_model(&self) -> Seq<RecordModel> {
        record_views(self.records@)
    }

    /// The output paths collected so far, in order.
    pub closed spec fn successes_model(&self) -> Seq<Seq<char>> {
        string_views(self.successes@)
    }

    /// Starts a batch over a provider response: parses the text into
    /// records and keeps at most `max_results` of them, preserving order.
    /// However many records the text yields, no more than `max_results`
    /// are ever up for conversion.
    pub fn start(raw_results: &str, config: &SearchToPdfConfig) -> (b: BatchRun)
        ensures
            b.records_model() == ({
                let all = parsed_records(raw_results@);
                if all.len() <= config.max_results {
                    all
                } else {
                    all.take(config.max_results as int)
                }
            }),
            b.records_model().len() <= config.max_results,
            b.successes_model() == Seq::<Seq<char>>::empty(),
    {
        let records = extract_urls_from_results(raw_results);
        let records = truncate_results(records, config.max_results);
        let b = BatchRun { records, successes: Vec::new() };
        proof {
            let all = parsed_records(raw_results@);
            if all.len() > config.max_results {
                assert(b.records_model() =~= all.take(config.max_results as int));
            }
            assert(b.successes_model() =~= Seq::<Seq<char>>::empty());
        }
        b
    }

    /// How many records are up for conversion.
    pub fn record_count(&self) -> (n: usize)
        ensures
            n == self.records_model().len(),
    {
        self.records.len()
    }

    /// The record at position `i`.
    pub fn record_at(&self, i: usize) -> (r: &SearchResult)
        requires
            i < self.records_model().len(),
        ensures
            r@ == self.records_model()[i as int],
    {
        &self.records[i]
    }

    /// Reports one record's successful conversion: its output paths join
    /// the collected list, in order.
    pub fn record_success(&mut self, paths: Vec<String>)
        ensures
            final(self).records_model() == old(self).records_model(),
            final(self).successes_model() == old(self).successes_model() + string_views(paths@),
    {
        let mut p = paths;
        self.successes.append(&mut p);
        proof {
            assert(self.successes_model() =~= old(self).successes_model() + string_views(paths@));
        }
    }

    /// Closes the batch: the collected paths, or the aggregate empty-batch
    /// error if, and only if, not one record was converted.
    pub fn finish(self) -> (r: Result<Vec<String>, PipelineError>)
        ensures
            r is Ok <==> self.successes_model().len() > 0,
            r is Ok ==> string_views((r->Ok_0)@) == self.successes_model(),
            r is Err ==> r->Err_0 is EmptyBatch,
    {
        if self.successes.len() == 0 {
            Err(PipelineError::EmptyBatch)
        } else {
            Ok(self.successes)
        }
    }
}

} // verus!
