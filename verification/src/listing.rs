//! What a dry run of the recipe renderer shows.

use crate::text;
use vstd::prelude::*;
use vstd::string::StringExecFns;

verus! {

/// A file that a recipe renders to.
#[derive(Debug)]
pub struct RenderedResource {
    /// Its name.
    pub filename: String,
    /// Its contents.
    pub contents: String,
}

/// What is shown for one file: a line that separates it from the others, then its contents,
/// which end with a line break in any case.
pub open spec fn entry(resource: RenderedResource) -> Seq<char> {
    let shown = "--- "@ + resource.filename@ + "\n"@ + resource.contents@;
    if resource.contents@.len() > 0 && resource.contents@.last() == '\n' {
        shown
    } else {
        shown + "\n"@
    }
}

/// What is shown for a sequence of files.
pub open spec fn listing(resources: Seq<RenderedResource>) -> Seq<char>
    decreases resources.len(),
{
    if resources.len() == 0 {
        seq![]
    } else {
        listing(resources.drop_last()) + entry(resources.last())
    }
}

/// What a dry run that rendered these files shows.
pub fn dry_run_listing(resources: &Vec<RenderedResource>) -> (res: String)
    ensures
        res@ == listing(resources@),
{
    let mut shown = String::new();
    let mut i: usize = 0;
    while i < resources.len()
        invariant
            i <= resources.len(),
            shown@ == listing(resources@.take(i as int)),
        decreases resources.len() - i,
    {
        let resource = &resources[i];
        let ghost before = shown@;
        shown.append("--- ");
        shown.append(resource.filename.as_str());
        shown.append("\n");
        shown.append(resource.contents.as_str());
        if !text::ends_with_char(resource.contents.as_str(), '\n') {
            shown.append("\n");
        }
        assert(shown@ =~= before + entry(*resource));
        assert(resources@.take(i + 1).drop_last() =~= resources@.take(i as int));
        i = i + 1;
    }
    assert(resources@.take(i as int) =~= resources@);
    shown
}

/// The listing of two sequences of files in a row is that of the first, then that of the
/// second.
pub proof fn law_listing_concatenates(first: Seq<RenderedResource>, second: Seq<RenderedResource>)
    ensures
        listing(first + second) == listing(first) + listing(second),
    decreases second.len(),
{
    if second.len() == 0 {
        assert(first + second =~= first);
        assert(listing(first) + listing(second) =~= listing(first));
    } else {
        assert((first + second).drop_last() =~= first + second.drop_last());
        law_listing_concatenates(first, second.drop_last());
        assert(listing(first + second) =~= listing(first) + listing(second));
    }
}

/// What is shown for a file is its name on a line of its own, then exactly its contents, then a
/// line break if the contents do not end with one.
pub proof fn law_entry(resource: RenderedResource)
    ensures
        ({
            let contents = resource.contents@;
            let header = "--- "@ + resource.filename@ + "\n"@;
            let end = if contents.len() > 0 && contents.last() == '\n' {
                seq![]
            } else {
                seq!['\n']
            };
            &&& text::is_wrapped(entry(resource), header, contents, end)
            &&& entry(resource).last() == '\n'
            &&& listing(seq![resource]) == entry(resource)
        }),
{
    reveal_strlit("\n");
    let contents = resource.contents@;
    let header = "--- "@ + resource.filename@ + "\n"@;
    assert("\n"@ =~= seq!['\n']);
    let end = if contents.len() > 0 && contents.last() == '\n' {
        seq![]
    } else {
        seq!['\n']
    };
    text::lemma_wrapped(header, contents, end);
    assert(entry(resource) =~= header + contents + end);
    let one = seq![resource];
    assert(one.drop_last() =~= seq![]);
    assert(listing(one.drop_last()) =~= seq![]);
    assert(listing(one) =~= entry(resource));
}

/// A dry run that rendered nothing shows nothing.
pub proof fn law_empty_listing()
    ensures
        listing(seq![]) == Seq::<char>::empty(),
{
}

} // verus!
