//! The text that a job reports: one labelled section per measured ref.
//!
//! A section opens with a header that names the ref, and the benchmark's
//! output follows the header directly. What failed is noted behind the
//! output: first a marker if the benchmark itself failed, then a marker and
//! the failed step's output if bringing the working copy to the ref failed.

use crate::command::{Outcome, OutcomeView};
use crate::text::optional_text;
use vstd::prelude::*;
use vstd::string::*;

verus! {

/// The line that opens the section of the ref called `label`.
pub open spec fn header(label: Seq<char>) -> Seq<char> {
    "Benchmarking `"@ + label + "`:\n"@
}

/// What a benchmark wrote. One that never started wrote nothing.
pub open spec fn output_of(bench: OutcomeView) -> Seq<char> {
    match bench {
        OutcomeView::Success(output) => output,
        OutcomeView::Failure(output) => output,
        OutcomeView::SpawnError => Seq::<char>::empty(),
    }
}

/// What a section says of the benchmark's exit: a marker on a line of its own
/// if it failed, nothing if it succeeded.
pub open spec fn bench_failure_note(bench: OutcomeView) -> Seq<char> {
    match bench {
        OutcomeView::Failure(_) => "[benchmark failed]\n"@,
        _ => Seq::<char>::empty(),
    }
}

/// What a section says of the sync: nothing if it succeeded; else a marker on
/// a line of its own, then what the failed step had written, then a line
/// break.
pub open spec fn sync_failure_note(sync_failure: Option<Seq<char>>) -> Seq<char> {
    match sync_failure {
        None => Seq::<char>::empty(),
        Some(output) => "[sync failed]\n"@ + output + "\n"@,
    }
}

/// How a section closes: the benchmark's output and a line break, the two
/// notes, and two line breaks. A benchmark that never started leaves nothing.
pub open spec fn section_closing(sync_failure: Option<Seq<char>>, bench: OutcomeView) -> Seq<
    char,
> {
    if bench is SpawnError {
        Seq::<char>::empty()
    } else {
        output_of(bench) + "\n"@ + bench_failure_note(bench) + sync_failure_note(sync_failure)
            + "\n\n"@
    }
}

/// A whole section.
pub open spec fn section(
    label: Seq<char>,
    sync_failure: Option<Seq<char>>,
    bench: OutcomeView,
) -> Seq<char> {
    header(label) + section_closing(sync_failure, bench)
}

/// Whatever failed, the header and the benchmark's output stay in one piece
/// at the start of the section, and the section ends with two empty lines.
pub proof fn lemma_output_follows_header(
    label: Seq<char>,
    sync_failure: Option<Seq<char>>,
    bench: OutcomeView,
)
    requires
        !(bench is SpawnError),
    ensures
        (header(label) + output_of(bench) + "\n"@).is_prefix_of(
            section(label, sync_failure, bench),
        ),
        section(label, sync_failure, bench) == header(label) + output_of(bench) + "\n"@
            + bench_failure_note(bench) + sync_failure_note(sync_failure) + "\n\n"@,
{
    let whole = section(label, sync_failure, bench);
    let start = header(label) + output_of(bench) + "\n"@;
    assert(whole =~= start + bench_failure_note(bench) + sync_failure_note(sync_failure)
        + "\n\n"@);
    assert(start =~= whole.subrange(0, start.len() as int));
}

/// The section of a ref on which nothing failed: the header, the benchmark's
/// output, and three line breaks.
pub proof fn lemma_clean_section(label: Seq<char>, output: Seq<char>)
    ensures
        section(label, None, OutcomeView::Success(output)) == header(label) + output
            + "\n\n\n"@,
{
    reveal_strlit("\n");
    reveal_strlit("\n\n");
    reveal_strlit("\n\n\n");
    assert("\n"@ + "\n\n"@ =~= "\n\n\n"@);
    let breaks = "\n"@ + "\n\n"@;
    assert(section(label, None, OutcomeView::Success(output)) =~= header(label) + output + breaks);
}

/// The report of one job, built up as its stages end. Text is only ever added
/// at its end.
#[derive(Clone, Debug, PartialEq, Eq)]
pub struct BenchmarkReport {
    text: String,
}

impl View for BenchmarkReport {
    type V = Seq<char>;

    closed spec fn view(&self) -> Seq<char> {
        self.text@
    }
}

impl BenchmarkReport {
    /// The empty report.
    pub fn new() -> (report: BenchmarkReport)
        ensures
            report@ == Seq::<char>::empty(),
    {
        BenchmarkReport { text: String::new() }
    }

    /// Opens the section of the ref called `label` with its header.
    pub fn open_section(&mut self, label: &str)
        ensures
            final(self)@ == old(self)@ + header(label@),
    {
        self.text.append("Benchmarking `");
        self.text.append(label);
        self.text.append("`:\n");
        assert(self@ =~= old(self)@ + header(label@));
    }

    /// Closes the open section with the benchmark's outcome. `sync_failure`
    /// holds the output of the sync step that failed, if one did.
    pub fn close_section(&mut self, sync_failure: Option<String>, bench: &Outcome)
        ensures
            final(self)@ == old(self)@ + section_closing(optional_text(sync_failure), bench@),
    {
        match bench {
            Outcome::Success(output) => {
                self.text.append(output.as_str());
                self.text.append("\n");
            },
            Outcome::Failure(output) => {
                self.text.append(output.as_str());
                self.text.append("\n");
                self.text.append("[benchmark failed]\n");
            },
            Outcome::SpawnError => {
                assert(self@ =~= old(self)@ + section_closing(
                    optional_text(sync_failure),
                    bench@,
                ));
                return ;
            },
        }
        match sync_failure {
            None => {},
            Some(output) => {
                self.text.append("[sync failed]\n");
                self.text.append(output.as_str());
                self.text.append("\n");
            },
        }
        self.text.append("\n\n");
        assert(self@ =~= old(self)@ + section_closing(optional_text(sync_failure), bench@));
    }

    /// The text so far.
    pub fn text(&self) -> (text: &str)
        ensures
            text@ == self@,
    {
        self.text.as_str()
    }
}

} // verus!
