use vstd::prelude::*;
use vstd::string::*;

verus! {

/// One self-contained write of the crawl: the whole text goes to one stream
/// in a single call, so that no other file's output lands inside it.
pub enum Report {
    /// A block for standard output.
    Stdout(String),
    /// A block for the error stream.
    Stderr(String),
}

impl Report {
    /// The stream (`true` for standard output) and the text of the block.
    pub open spec fn view(self) -> (bool, Seq<char>) {
        match self {
            Report::Stdout(t) => (true, t@),
            Report::Stderr(t) => (false, t@),
        }
    }
}

/// The block printed for a file that matched: its path on a line of its
/// own, then the report of the matcher as it is.
pub open spec fn match_block(path: Seq<char>, report: Seq<char>) -> Seq<char> {
    path + seq!['\n'] + report
}

/// The block printed for a file whose classification failed.
pub open spec fn failure_block(path: Seq<char>, reason: Seq<char>) -> Seq<char> {
    path + "\nError: "@ + reason + seq!['\n']
}

/// What is reported for the outcome of classifying the file at `path`.
pub open spec fn report_of(path: Seq<char>, outcome: Result<String, String>) -> (bool, Seq<char>) {
    match outcome {
        Ok(report) => (true, match_block(path, report@)),
        Err(reason) => (false, failure_block(path, reason@)),
    }
}

/// Formats the outcome of classifying the file at `path`: a match goes to
/// standard output, a failure to the error stream.
pub fn report_for(path: &str, outcome: &Result<String, String>) -> (r: Report)
    ensures
        r@ == report_of(path@, *outcome),
{
    let mut text = String::from_str(path);
    match outcome {
        Ok(report) => {
            text.append("\n");
            text.append(report.as_str());
            proof {
                reveal_strlit("\n");
                assert(text@ =~= match_block(path@, report@));
            }
            Report::Stdout(text)
        },
        Err(reason) => {
            text.append("\nError: ");
            text.append(reason.as_str());
            text.append("\n");
            proof {
                reveal_strlit("\n");
                assert(text@ =~= failure_block(path@, reason@));
            }
            Report::Stderr(text)
        },
    }
}

} // verus!
