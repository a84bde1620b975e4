//! What holds of the detector and its gatherers across calls and inputs.
use vstd::prelude::*;
use crate::os_detect::{
    gather_step, launch_failure, linux_step, platform_of, query, release_name, ErrorView,
    InfoView, Platform, StepView,
};
use crate::text::{lines_of, starts_with};

verus! {

/// Once a query has succeeded, every later query returns the same record and
/// leaves the cache as it is, whatever tag, architecture and outcomes it is
/// handed; being finished, it asks for no outside query.
pub proof fn lemma_success_is_cached(
    cache: Option<InfoView>,
    tag: Seq<char>,
    arch: Seq<char>,
    o: Seq<Result<Seq<char>, Seq<char>>>,
    tag2: Seq<char>,
    arch2: Seq<char>,
    o2: Seq<Result<Seq<char>, Seq<char>>>,
)
    requires
        query(cache, tag, arch, o).1 matches StepView::Done(Ok(_)),
    ensures
        query(query(cache, tag, arch, o).0, tag2, arch2, o2) == query(cache, tag, arch, o),
{
}

/// With nothing cached, a supported tag hands the query to the gatherer of its
/// platform alone: the step is that gatherer's, and every outside query asked
/// for belongs to that platform.
pub proof fn lemma_dispatch(tag: Seq<char>, arch: Seq<char>, o: Seq<Result<Seq<char>, Seq<char>>>)
    requires
        platform_of(tag) is Some,
    ensures
        query(None, tag, arch, o).1 == gather_step(platform_of(tag)->0, arch, o),
        query(None, tag, arch, o).1 matches StepView::Run(p) ==> p.platform() == platform_of(
            tag,
        )->0,
{
}

/// An unsupported tag fails with that tag, leaves the cache empty, and so fails
/// the same way on the next query.
pub proof fn lemma_unsupported_fails_closed(
    tag: Seq<char>,
    arch: Seq<char>,
    o: Seq<Result<Seq<char>, Seq<char>>>,
    arch2: Seq<char>,
    o2: Seq<Result<Seq<char>, Seq<char>>>,
)
    requires
        platform_of(tag) is None,
    ensures
        query(None, tag, arch, o) == (
        None::<InfoView>,
        StepView::Done(Err(ErrorView::UnsupportedOs(tag))),
        ),
        query(query(None, tag, arch, o).0, tag, arch2, o2) == query(None, tag, arch, o),
{
}

proof fn lemma_no_key_line(lines: Seq<Seq<char>>, key: Seq<char>)
    requires
        forall|i: int| 0 <= i < lines.len() ==> !starts_with(#[trigger] lines[i], key),
    ensures
        crate::os_detect::last_field(lines, key) == Seq::<char>::empty(),
    decreases lines.len(),
{
    if lines.len() > 0 {
        assert(!starts_with(lines[lines.len() - 1], key));
        lemma_no_key_line(lines.drop_last(), key);
    }
}

/// An OS-release text with no `NAME=` line gives an empty name, and the Linux
/// gatherer still succeeds.
pub proof fn lemma_missing_name_is_empty(arch: Seq<char>, o: Seq<Result<Seq<char>, Seq<char>>>)
    requires
        o.len() >= 2,
        o[0] is Ok,
        o[1] is Ok,
        forall|i: int|
            0 <= i < lines_of(o[0]->Ok_0).len() ==> !starts_with(
                #[trigger] lines_of(o[0]->Ok_0)[i],
                "NAME="@,
            ),
    ensures
        release_name(o[0]->Ok_0) == Seq::<char>::empty(),
        linux_step(arch, o) matches StepView::Done(Ok(i)) && i.name == Seq::<char>::empty(),
{
    lemma_no_key_line(lines_of(o[0]->Ok_0), "NAME="@);
}

/// Where an outside query that a gatherer asked for could not be had, the
/// gatherer fails with `CommandFailed` carrying the description of that failure,
/// and gives no record.
pub proof fn lemma_launch_failure_propagates(
    p: Platform,
    arch: Seq<char>,
    o: Seq<Result<Seq<char>, Seq<char>>>,
    k: int,
)
    requires
        0 <= k < o.len(),
        o[k] is Err,
        gather_step(p, arch, o.take(k)) is Run,
    ensures
        gather_step(p, arch, o) == launch_failure(o[k]->Err_0),
{
    assert(k < 2);
    if k == 1 {
        assert(o.take(k)[0] == o[0]);
    }
}

} // verus!
