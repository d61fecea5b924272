//! How a listing of SDKs is read, said of places in its lines.
use vstd::prelude::*;

use crate::command::ResultView;
use crate::path_laws::law_joined;
use crate::sdk::{
    brackets_enclose, found_view, last_sdk_line, latest_sdk, listing_readable, readable, sdk_found,
    sdk_line, DotnetSdk, SdkView,
};
use crate::text::{is_white, lines};
use crate::text_laws::{law_first_word, law_no_word};

verus! {

/// A line with a word and with brackets of both kinds gives that word for the version, and for the
/// directory all that stands between the first opening and the last closing bracket. Its brackets
/// enclose something exactly if the one comes before the other.
pub proof fn law_sdk_line(line: Seq<char>, start: int, end: int, open: int, close: int)
    requires
        0 <= start < end <= line.len(),
        forall|i: int| 0 <= i < start ==> is_white(#[trigger] line[i]),
        forall|i: int| start <= i < end ==> !is_white(#[trigger] line[i]),
        end < line.len() ==> is_white(line[end]),
        0 <= open < line.len() && line[open] == '[',
        forall|i: int| 0 <= i < open ==> #[trigger] line[i] != '[',
        0 <= close < line.len() && line[close] == ']',
        forall|i: int| close < i < line.len() ==> #[trigger] line[i] != ']',
    ensures
        sdk_line(line) == Some((line.subrange(start, end), line.subrange(open + 1, close))),
        brackets_enclose(line) <==> open < close,
{
    law_first_word(line, start, end);
    line.index_of_first_ensures('[');
    line.index_of_last_ensures(']');
    assert(line.contains('[') && line.contains(']'));
    let first = line.index_of_first('[')->0;
    let last = line.index_of_last(']')->0;
    assert(first == open) by {
        if open < first {
            assert(line[open] != '[');
        } else if first < open {
            assert(line[first] != '[');
        }
    }
    assert(last == close) by {
        if last < close {
            assert(line[close] != ']');
        } else if close < last {
            assert(line[last] != ']');
        }
    }
}

/// A line without a word, or without a bracket of either kind, gives no SDK and does no harm.
pub proof fn law_no_sdk_line(line: Seq<char>)
    requires
        (forall|i: int| 0 <= i < line.len() ==> is_white(#[trigger] line[i])) || !line.contains('[')
            || !line.contains(']'),
    ensures
        sdk_line(line) is None,
        brackets_enclose(line),
{
    if forall|i: int| 0 <= i < line.len() ==> is_white(#[trigger] line[i]) {
        law_no_word(line);
    }
    line.index_of_first_ensures('[');
    line.index_of_last_ensures(']');
}

/// A listing can be read exactly if each of its lines can.
pub proof fn law_readable(listing: Seq<char>, result: ResultView)
    ensures
        readable(listing) <==> forall|i: int|
            0 <= i < lines(listing).len() ==> brackets_enclose(#[trigger] lines(listing)[i]),
        result is Err ==> listing_readable(result),
        result is Ok && result->Ok_0.status != Some(0i32) ==> listing_readable(result),
        result is Ok && result->Ok_0.status == Some(0i32) ==> (listing_readable(result) <==> readable(
            result->Ok_0.stdout,
        )),
{
}

proof fn lemma_last_sdk_line(found: Seq<Seq<char>>, place: int)
    requires
        0 <= place < found.len(),
        sdk_line(found[place]) is Some,
        forall|i: int| place < i < found.len() ==> sdk_line(#[trigger] found[i]) is None,
    ensures
        last_sdk_line(found) == sdk_line(found[place]),
    decreases found.len(),
{
    if place < found.len() - 1 {
        assert(sdk_line(found[found.len() - 1]) is None);
        let fewer = found.drop_last();
        assert forall|i: int| place < i < fewer.len() implies sdk_line(
            #[trigger] fewer[i],
        ) is None by {
            assert(fewer[i] == found[i]);
        }
        lemma_last_sdk_line(fewer, place);
    }
}

proof fn lemma_no_last_sdk_line(found: Seq<Seq<char>>)
    requires
        forall|i: int| 0 <= i < found.len() ==> sdk_line(#[trigger] found[i]) is None,
    ensures
        last_sdk_line(found) is None,
    decreases found.len(),
{
    if found.len() > 0 {
        assert(sdk_line(found[found.len() - 1]) is None);
        let fewer = found.drop_last();
        assert forall|i: int| 0 <= i < fewer.len() implies sdk_line(#[trigger] fewer[i]) is None by {
            assert(fewer[i] == found[i]);
        }
        lemma_no_last_sdk_line(fewer);
    }
}

/// The SDK of a listing is that of the last line that gives one. Its version is the line's, and
/// its directory is called by the version and lies in the line's directory.
pub proof fn law_latest_sdk(
    listing: Seq<char>,
    place: int,
    version: Seq<char>,
    base: Seq<char>,
)
    requires
        0 <= place < lines(listing).len(),
        sdk_line(lines(listing)[place]) == Some((version, base)),
        forall|i: int|
            place < i < lines(listing).len() ==> sdk_line(#[trigger] lines(listing)[i]) is None,
    ensures
        latest_sdk(listing) is Some,
        latest_sdk(listing)->0.version == version,
        version.len() > 0 && version[0] == '/' ==> latest_sdk(listing)->0.path == version,
        !(version.len() > 0 && version[0] == '/') ==> latest_sdk(listing)->0.path == (if base.len()
            == 0 {
            version
        } else if base.last() == '/' {
            base + version
        } else {
            base + seq!['/'] + version
        }),
{
    lemma_last_sdk_line(lines(listing), place);
    law_joined(base, version);
}

/// A listing in which no line gives an SDK has none.
pub proof fn law_no_sdk(listing: Seq<char>)
    requires
        forall|i: int|
            0 <= i < lines(listing).len() ==> sdk_line(#[trigger] lines(listing)[i]) is None,
    ensures
        latest_sdk(listing) is None,
{
    lemma_no_last_sdk_line(lines(listing));
}

/// An SDK is known exactly if the listing was made with the exit code 0 and has one; else the
/// reason says which of these it was that failed.
pub proof fn law_sdk_found(listing: ResultView)
    ensures
        listing is Err ==> sdk_found(listing) == Err::<SdkView, Seq<char>>(listing->Err_0),
        listing is Ok && listing->Ok_0.status != Some(0i32) ==> sdk_found(listing) == Err::<
            SdkView,
            Seq<char>,
        >(
            "Unable to list installed dotnet SDKs."@ + "\nstdout: "@ + listing->Ok_0.stdout
                + "\nstderr: "@ + listing->Ok_0.stderr,
        ),
        listing is Ok && listing->Ok_0.status == Some(0i32) && latest_sdk(
            listing->Ok_0.stdout,
        ) is Some ==> sdk_found(listing) == Ok::<SdkView, Seq<char>>(
            latest_sdk(listing->Ok_0.stdout)->0,
        ),
        listing is Ok && listing->Ok_0.status == Some(0i32) && latest_sdk(
            listing->Ok_0.stdout,
        ) is None ==> sdk_found(listing) == Err::<SdkView, Seq<char>>(
            "Unable to parse installed dotnet SDKs from output: "@ + listing->Ok_0.stdout,
        ),
{
}

/// The text of an SDK shows its directory and its version, and that of what is known of it shows
/// the SDK, or else the reason.
pub proof fn law_sdk_text(sdk: DotnetSdk, found: Result<DotnetSdk, String>)
    ensures
        sdk@.path == sdk.path@,
        sdk@.version == sdk.version@,
        found is Ok ==> found_view(found) == Ok::<SdkView, Seq<char>>(found->Ok_0@),
        found is Err ==> found_view(found) == Err::<SdkView, Seq<char>>(found->Err_0@),
{
}

} // verus!
