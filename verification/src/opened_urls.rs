//! The URLs the application has been asked to open.
//!
//! A URL reaches an application by two routes. One follows a link while the application is
//! running, and the window that should answer it exists. The other is what launches the
//! application, and arrives before there is anything to hand it to. So the URLs are kept here, and
//! whoever is ready to answer for them takes them.

use vstd::prelude::*;

verus! {

/// The URLs that have arrived and that nobody has taken yet.
#[derive(Debug)]
pub struct OpenedUrls {
    urls: Vec<String>,
}

impl View for OpenedUrls {
    type V = Seq<String>;

    closed spec fn view(&self) -> Seq<String> {
        self.urls@
    }
}

/// Something done with the kept URLs.
pub enum UrlStep {
    /// URLs arrived and were remembered.
    Remember { urls: Seq<String> },
    /// The URLs were taken.
    Take,
}

/// The URLs that are kept after one step: those that arrived follow those kept before, and taking
/// leaves none behind.
pub open spec fn kept_after(kept: Seq<String>, step: UrlStep) -> Seq<String> {
    match step {
        UrlStep::Remember { urls } => kept + urls,
        UrlStep::Take => seq![],
    }
}

/// The URLs that one step hands out: taking hands out all that are kept.
pub open spec fn given_by(kept: Seq<String>, step: UrlStep) -> Seq<String> {
    match step {
        UrlStep::Remember { .. } => seq![],
        UrlStep::Take => kept,
    }
}

impl OpenedUrls {
    pub fn new() -> (opened: OpenedUrls)
        ensures
            opened@ == Seq::<String>::empty(),
    {
        OpenedUrls { urls: Vec::new() }
    }
}

/// Keeps URLs until somebody takes them.
pub fn remember(opened: &mut OpenedUrls, urls: Vec<String>)
    ensures
        final(opened)@ == kept_after(old(opened)@, UrlStep::Remember { urls: urls@ }),
{
    let mut urls = urls;
    opened.urls.append(&mut urls);
}

/// Takes the URLs the application has been asked to open and has not answered for yet, leaving
/// none behind. It is safe to call before anything has arrived, and safe to call repeatedly.
pub fn take_opened_urls(opened: &mut OpenedUrls) -> (urls: Vec<String>)
    ensures
        urls@ == given_by(old(opened)@, UrlStep::Take),
        final(opened)@ == kept_after(old(opened)@, UrlStep::Take),
{
    let mut urls: Vec<String> = Vec::new();
    std::mem::swap(&mut urls, &mut opened.urls);
    urls
}

/// The URLs that are kept after these steps.
pub open spec fn kept(steps: Seq<UrlStep>) -> Seq<String>
    decreases steps.len(),
{
    if steps.len() == 0 {
        seq![]
    } else {
        kept_after(kept(steps.drop_last()), steps.last())
    }
}

/// The URLs that have been handed out by these steps, in the order of their being handed out.
pub open spec fn handed_out(steps: Seq<UrlStep>) -> Seq<String>
    decreases steps.len(),
{
    if steps.len() == 0 {
        seq![]
    } else {
        handed_out(steps.drop_last()) + given_by(kept(steps.drop_last()), steps.last())
    }
}

/// The URLs that have arrived in these steps, in the order of their arrival.
pub open spec fn arrived(steps: Seq<UrlStep>) -> Seq<String>
    decreases steps.len(),
{
    if steps.len() == 0 {
        seq![]
    } else {
        match steps.last() {
            UrlStep::Remember { urls } => arrived(steps.drop_last()) + urls,
            UrlStep::Take => arrived(steps.drop_last()),
        }
    }
}

/// Each URL is handed out exactly once, in the order of arrival: whenever URLs are remembered and
/// taken, those handed out, followed by those still kept, are those that arrived.
pub proof fn each_url_is_handed_out_once(steps: Seq<UrlStep>)
    ensures
        handed_out(steps) + kept(steps) == arrived(steps),
    decreases steps.len(),
{
    if steps.len() > 0 {
        each_url_is_handed_out_once(steps.drop_last());
    }
}

/// Taking hands out everything that has arrived and not been handed out before, and leaves nothing
/// behind, so that taking again hands out nothing.
pub proof fn taking_hands_out_everything(steps: Seq<UrlStep>)
    ensures
        handed_out(steps.push(UrlStep::Take)) == arrived(steps),
        kept(steps.push(UrlStep::Take)).len() == 0,
        handed_out(steps.push(UrlStep::Take).push(UrlStep::Take)) == arrived(steps),
{
    let taken = steps.push(UrlStep::Take);
    each_url_is_handed_out_once(steps);
    assert(taken.drop_last() == steps);
    assert(taken.push(UrlStep::Take).drop_last() == taken);
}

/// URLs that arrive are kept, behind those kept before, until they are taken.
pub proof fn arriving_urls_are_kept(steps: Seq<UrlStep>, urls: Seq<String>)
    ensures
        kept(steps.push(UrlStep::Remember { urls })) == kept(steps) + urls,
        handed_out(steps.push(UrlStep::Remember { urls })) == handed_out(steps),
{
    assert(steps.push(UrlStep::Remember { urls }).drop_last() == steps);
}

} // verus!
