//! The installed SDKs, as `dotnet --list-sdks` writes them: one to a line, first the version and
//! then, in square brackets, the directory that the SDK's own directory lies in.
use vstd::prelude::*;

use crate::command::{result_view, ProcessResult, ResultView};
use crate::paths::{join, joined};
use crate::roslyn::RoslynOfficial;
use crate::text::{chars_of, find, find_last, first_word, lines, lines_of, word};

verus! {

/// An installed SDK: its directory and its version.
#[derive(Debug)]
pub struct DotnetSdk {
    pub path: String,
    pub version: String,
}

/// The text of an installed SDK.
#[verifier::ext_equal]
pub struct SdkView {
    pub path: Seq<char>,
    pub version: Seq<char>,
}

impl View for DotnetSdk {
    type V = SdkView;

    open spec fn view(&self) -> SdkView {
        SdkView { path: self.path@, version: self.version@ }
    }
}

/// Whether a line speaks of an SDK: it holds a word and brackets.
pub open spec fn names_sdk(line: Seq<char>) -> bool {
    &&& first_word(line) is Some
    &&& line.index_of_first('[') is Some
    &&& line.index_of_last(']') is Some
}

/// Whether the brackets of a line that speaks of an SDK enclose something, be it nothing: the
/// first opening bracket comes before the last closing one.
pub open spec fn brackets_enclose(line: Seq<char>) -> bool {
    names_sdk(line) ==> line.index_of_first('[')->0 < line.index_of_last(']')->0
}

/// Whether a listing can be read: in every line that speaks of an SDK the brackets enclose
/// something.
pub open spec fn readable(listing: Seq<char>) -> bool {
    forall|i: int| 0 <= i < lines(listing).len() ==> brackets_enclose(#[trigger] lines(listing)[i])
}

/// The version and the directory that a line gives.
pub open spec fn sdk_line(line: Seq<char>) -> Option<(Seq<char>, Seq<char>)> {
    if names_sdk(line) {
        Some(
            (
                first_word(line)->0,
                line.subrange(line.index_of_first('[')->0 + 1, line.index_of_last(']')->0),
            ),
        )
    } else {
        None
    }
}

/// What the last of the lines that speaks of an SDK gives.
pub open spec fn last_sdk_line(found: Seq<Seq<char>>) -> Option<(Seq<char>, Seq<char>)>
    decreases found.len(),
{
    if found.len() == 0 {
        None
    } else {
        match sdk_line(found.last()) {
            Some(entry) => Some(entry),
            None => last_sdk_line(found.drop_last()),
        }
    }
}

/// The SDK that a listing ends with. Its directory lies in the directory that the line gives and
/// is called by its version.
pub open spec fn latest_sdk(listing: Seq<char>) -> Option<SdkView> {
    match last_sdk_line(lines(listing)) {
        Some((version, base)) => Some(SdkView { path: joined(base, version), version: version }),
        None => None,
    }
}

/// What is known of the SDK once `dotnet --list-sdks` was run.
pub open spec fn sdk_found(listing: ResultView) -> Result<SdkView, Seq<char>> {
    match listing {
        Err(problem) => Err(problem),
        Ok(report) => if !report.succeeded() {
            Err(report.complaint("Unable to list installed dotnet SDKs."@))
        } else {
            match latest_sdk(report.stdout) {
                Some(sdk) => Ok(sdk),
                None => Err(
                    "Unable to parse installed dotnet SDKs from output: "@ + report.stdout,
                ),
            }
        },
    }
}

/// Whether what came back from `dotnet --list-sdks` can be read, if it has to be.
pub open spec fn listing_readable(listing: ResultView) -> bool {
    listing is Ok && listing->Ok_0.succeeded() ==> readable(listing->Ok_0.stdout)
}

/// The text of what is known of the SDK.
pub open spec fn found_view(found: Result<DotnetSdk, String>) -> Result<SdkView, Seq<char>> {
    match found {
        Ok(sdk) => Ok(sdk@),
        Err(problem) => Err(problem@),
    }
}

/// Whether the brackets of a line that speaks of an SDK enclose something.
pub fn line_is_readable(line: &str) -> (answer: bool)
    ensures
        answer == brackets_enclose(line@),
{
    let chars = chars_of(line);
    let named = word(line);
    match (named, find(&chars, '['), find_last(&chars, ']')) {
        (Some(_), Some(open), Some(close)) => open < close,
        _ => true,
    }
}

/// Whether a listing can be read.
pub fn is_readable(listing: &str) -> (answer: bool)
    ensures
        answer == readable(listing@),
{
    let found = lines_of(listing);
    let mut i: usize = 0;
    while i < found.len()
        invariant
            i <= found.len(),
            found.deep_view() == lines(listing@),
            forall|j: int| 0 <= j < i ==> brackets_enclose(#[trigger] lines(listing@)[j]),
        decreases found.len() - i,
    {
        assert(found@[i as int]@ == lines(listing@)[i as int]);
        if !line_is_readable(found[i].as_str()) {
            return false;
        }
        i += 1;
    }
    true
}

/// The version and the directory that a line gives.
pub fn read_line(line: &str) -> (entry: Option<(String, String)>)
    requires
        brackets_enclose(line@),
    ensures
        entry.deep_view() == sdk_line(line@),
{
    let chars = chars_of(line);
    let named = word(line);
    proof {
        chars@.index_of_first_ensures('[');
        chars@.index_of_last_ensures(']');
    }
    match (named, find(&chars, '['), find_last(&chars, ']')) {
        (Some(version), Some(open), Some(close)) => {
            Some((version, line.substring_char(open + 1, close).to_string()))
        },
        _ => None,
    }
}

/// The SDK that a listing ends with.
pub fn read_listing(listing: &str) -> (sdk: Option<DotnetSdk>)
    requires
        readable(listing@),
    ensures
        sdk is Some <==> latest_sdk(listing@) is Some,
        sdk is Some ==> sdk->0@ == latest_sdk(listing@)->0,
{
    let found = lines_of(listing);
    let mut last: Option<(String, String)> = None;
    let mut i: usize = 0;
    while i < found.len()
        invariant
            i <= found.len(),
            found.deep_view() == lines(listing@),
            readable(listing@),
            last.deep_view() == last_sdk_line(lines(listing@).take(i as int)),
        decreases found.len() - i,
    {
        assert(found@[i as int]@ == lines(listing@)[i as int]);
        assert(lines(listing@).take(i + 1).drop_last() =~= lines(listing@).take(i as int));
        match read_line(found[i].as_str()) {
            Some(entry) => {
                last = Some(entry);
            },
            None => {},
        }
        i += 1;
    }
    assert(lines(listing@).take(i as int) =~= lines(listing@));
    match last {
        Some((version, base)) => Some(
            DotnetSdk { path: join(base.as_str(), version.as_str()), version: version },
        ),
        None => None,
    }
}

impl RoslynOfficial {
    /// What is known of the SDK once `dotnet --list-sdks` was run: the SDK that the listing ends
    /// with, or why there is none.
    pub fn find_dotnet_sdk_path(listing: &ProcessResult) -> (found: Result<DotnetSdk, String>)
        requires
            listing_readable(result_view(*listing)),
        ensures
            found_view(found) == sdk_found(result_view(*listing)),
    {
        match listing {
            Err(problem) => Err(problem.clone()),
            Ok(report) => {
                if !report.succeeded() {
                    return Err(report.complaint("Unable to list installed dotnet SDKs."));
                }
                match read_listing(report.stdout.as_str()) {
                    Some(sdk) => Ok(sdk),
                    None => Err(
                        "Unable to parse installed dotnet SDKs from output: ".to_string().concat(
                            report.stdout.as_str(),
                        ),
                    ),
                }
            },
        }
    }
}

/// The SDK that is listed last is the one that counts: a line that speaks of an SDK settles it,
/// whatever stands before, and one that does not changes nothing.
pub proof fn law_last_line_counts(found: Seq<Seq<char>>, line: Seq<char>)
    ensures
        sdk_line(line) is Some ==> last_sdk_line(found.push(line)) == sdk_line(line),
        sdk_line(line) is None ==> last_sdk_line(found.push(line)) == last_sdk_line(found),
{
    assert(found.push(line).drop_last() =~= found);
}

} // verus!
