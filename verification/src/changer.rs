//! The wallpaper-change operation as a step-wise state machine. One
//! operation is strictly sequential: fetch the first result page, retry on a
//! zero-page response with a bounded budget and a fixed backoff, pick a page
//! and an item at random, resolve the item against the cache, and set the
//! wallpaper. Every network and filesystem action is returned to the caller
//! as an [`Action`]; the unverified driver performs it and hands the outcome
//! back as an [`Event`] to the next [`Changer::step`] call.

use vstd::prelude::*;
use crate::cache::{derive_file_name, file_name_spec};
use crate::config::Config;
use crate::query::{is_search_url_for, page_url, page_url_spec, search_url};
use crate::rng::random_in_range;

verus! {

/// How many times a zero-total-pages response is retried before the
/// operation fails with `Exhausted`.
pub const MAX_RETRIES: u64 = 5;

/// How long the driver is asked to wait before such a retry.
pub const RETRY_BACKOFF_MILLIS: u64 = 250;

/// Why a wallpaper-change operation failed. The driver logs the failure;
/// nothing of the previous wallpaper is changed.
#[derive(Debug, Clone, Copy, PartialEq, Eq, Structural)]
pub enum ChangeError {
    /// Transport failure: connection, timeout, or a failed download.
    Network,
    /// The response body did not match the expected schema.
    Decode,
    /// The server reported zero pages after the bounded retries, or an
    /// empty item list on the chosen page.
    Exhausted,
    /// Cache directory or file I/O failed, or the wallpaper could not be
    /// set from the local file.
    Filesystem,
}

/// What the driver must do next. File names are relative to the cache
/// directory, whose location the driver owns.
#[derive(Debug, Clone)]
pub enum Action {
    /// Issue a GET for `url` and decode the response as a search page.
    FetchPage { url: String },
    /// Wait this long, then report back.
    Sleep { millis: u64 },
    /// Report whether a cache file of this name exists.
    CheckCache { file_name: String },
    /// Download `url` into the cache under `file_name`; a partially
    /// written file must not be left under that name.
    Download { url: String, file_name: String },
    /// Set the wallpaper from the cache file of this name.
    SetWallpaper { file_name: String },
    /// Terminal: log the error; the operation is over.
    Report { error: ChangeError },
    /// Terminal: the wallpaper was changed.
    Finish,
}

/// The driver's answer to the previous action.
#[derive(Debug, Clone)]
pub enum Event {
    /// A search page decoded: the remote paths of its items and the
    /// server's total page count.
    Page { paths: Vec<String>, last_page: i64 },
    /// The GET failed in transport.
    NetworkFailed,
    /// The response body could not be decoded.
    DecodeFailed,
    /// The requested backoff has passed.
    Slept,
    /// Whether the named cache file exists.
    CacheChecked { exists: bool },
    /// Whether the download completed.
    Downloaded { ok: bool },
    /// Whether the wallpaper was set.
    WallpaperSet { ok: bool },
}

/// Where one operation stands between steps.
#[derive(Debug, Clone)]
pub enum Phase {
    /// The first page of `base` was requested; `retries_left` zero-page
    /// retries remain.
    AwaitFirst { base: String, retries_left: u64 },
    /// Waiting out the backoff after a zero-page response.
    Backoff { base: String, retries_left: u64 },
    /// A page chosen from the first response's page count was requested.
    AwaitChosen { base: String, page: i64 },
    /// An item was picked; the cache is being probed for its derived name.
    AwaitCache { remote: String, file_name: String },
    /// The item is being downloaded into the cache.
    AwaitDownload { remote: String, file_name: String },
    /// The wallpaper is being set from the cache file.
    AwaitSet,
    /// Terminal success.
    Finished,
    /// Terminal failure.
    Failed { error: ChangeError },
}

/// The operation failed with `e`: the phase is terminal and the action
/// tells the driver to log exactly that error.
pub open spec fn failed_with(post: Phase, a: Action, e: ChangeError) -> bool {
    &&& post matches Phase::Failed { error } && error == e
    &&& a matches Action::Report { error: logged } && logged == e
}

/// An item with remote path `remote` was picked: the cache is probed for
/// the file name derived from that path.
pub open spec fn started_resolve(remote: Seq<char>, post: Phase, a: Action) -> bool {
    &&& post matches Phase::AwaitCache { remote: r, file_name: f } && r@ == remote && f@
        == file_name_spec(remote)
    &&& a matches Action::CheckCache { file_name: probe } && probe@ == file_name_spec(remote)
}

/// One item of `paths` was picked and its cache resolution started; an
/// empty item list is an error, never a silent "no item".
pub open spec fn picked_item(paths: Seq<String>, post: Phase, a: Action) -> bool {
    if paths.len() == 0 {
        failed_with(post, a, ChangeError::Exhausted)
    } else {
        exists|i: int| 0 <= i < paths.len() && started_resolve(paths[i]@, post, a)
    }
}

/// A page strictly between 1 and `last_page` was chosen and requested
/// under the same base query.
pub open spec fn fetch_chosen(base: Seq<char>, last_page: i64, post: Phase, a: Action) -> bool {
    post matches Phase::AwaitChosen { base: b, page } && b@ == base && 1 < page < last_page && (
    a matches Action::FetchPage { url } && url@ == page_url_spec(base, page as nat))
}

/// The transition relation of one step: what the next phase and the issued
/// action may be, given the phase before the step and the driver's event.
pub open spec fn step_ok(pre: Phase, ev: Event, post: Phase, a: Action) -> bool {
    match pre {
        Phase::AwaitFirst { base, retries_left } => match ev {
            Event::Page { paths, last_page } => {
                if last_page <= 0 {
                    if retries_left > 0 {
                        &&& post matches Phase::Backoff { base: b, retries_left: r } && b@ == base@
                            && r == retries_left - 1
                        &&& a matches Action::Sleep { millis } && millis == RETRY_BACKOFF_MILLIS
                    } else {
                        failed_with(post, a, ChangeError::Exhausted)
                    }
                } else if last_page == 1 {
                    picked_item(paths@, post, a)
                } else {
                    ||| picked_item(paths@, post, a)
                    ||| fetch_chosen(base@, last_page, post, a)
                }
            },
            Event::NetworkFailed => failed_with(post, a, ChangeError::Network),
            Event::DecodeFailed => failed_with(post, a, ChangeError::Decode),
            _ => false,
        },
        Phase::Backoff { base, retries_left } => match ev {
            Event::Slept => {
                &&& post matches Phase::AwaitFirst { base: b, retries_left: r } && b@ == base@ && r
                    == retries_left
                &&& a matches Action::FetchPage { url } && url@ == base@
            },
            _ => false,
        },
        Phase::AwaitChosen { base, page } => match ev {
            Event::Page { paths, last_page } => picked_item(paths@, post, a),
            Event::NetworkFailed => failed_with(post, a, ChangeError::Network),
            Event::DecodeFailed => failed_with(post, a, ChangeError::Decode),
            _ => false,
        },
        Phase::AwaitCache { remote, file_name } => match ev {
            Event::CacheChecked { exists } => {
                if exists {
                    &&& post is AwaitSet
                    &&& a matches Action::SetWallpaper { file_name: f } && f@ == file_name@
                } else {
                    &&& post matches Phase::AwaitDownload { remote: r, file_name: f } && r@
                        == remote@ && f@ == file_name@
                    &&& a matches Action::Download { url, file_name: dest } && url@ == remote@
                        && dest@ == file_name@
                }
            },
            _ => false,
        },
        Phase::AwaitDownload { remote, file_name } => match ev {
            Event::Downloaded { ok } => {
                if ok {
                    &&& post is AwaitSet
                    &&& a matches Action::SetWallpaper { file_name: f } && f@ == file_name@
                } else {
                    failed_with(post, a, ChangeError::Network)
                }
            },
            _ => false,
        },
        Phase::AwaitSet => match ev {
            Event::WallpaperSet { ok } => {
                if ok {
                    post is Finished && a is Finish
                } else {
                    failed_with(post, a, ChangeError::Filesystem)
                }
            },
            _ => false,
        },
        Phase::Finished => false,
        Phase::Failed { .. } => false,
    }
}

/// One wallpaper-change operation in progress.
#[derive(Debug, Clone)]
pub struct Changer {
    pub phase: Phase,
}

impl Changer {
    /// The events the driver may answer with in the current phase: exactly
    /// the outcomes of the action that was issued.
    pub open spec fn expects(self, ev: Event) -> bool {
        match self.phase {
            Phase::AwaitFirst { .. } | Phase::AwaitChosen { .. } => {
                ev is Page || ev is NetworkFailed || ev is DecodeFailed
            },
            Phase::Backoff { .. } => ev is Slept,
            Phase::AwaitCache { .. } => ev is CacheChecked,
            Phase::AwaitDownload { .. } => ev is Downloaded,
            Phase::AwaitSet => ev is WallpaperSet,
            Phase::Finished | Phase::Failed { .. } => false,
        }
    }

    /// Starts one operation: builds the base query from the configuration
    /// snapshot, with a randomly chosen collection tag that stays fixed for
    /// the whole operation, and asks the driver to fetch its first page.
    pub fn start(config: &Config) -> (r: (Changer, Action))
        requires
            config.search_ready(),
        ensures
            r.0.phase matches Phase::AwaitFirst { base, retries_left } && retries_left
                == MAX_RETRIES && is_search_url_for(base@, *config) && (
            r.1 matches Action::FetchPage { url } && url@ == base@),
    {
        let base = search_url(config);
        let url = base.clone();
        (
            Changer { phase: Phase::AwaitFirst { base, retries_left: MAX_RETRIES } },
            Action::FetchPage { url },
        )
    }

    /// Advances the operation by one event and returns the next action for
    /// the driver. The new phase and the action are exactly what the
    /// transition relation [`step_ok`] allows.
    pub fn step(&mut self, event: Event) -> (a: Action)
        requires
            old(self).expects(event),
        ensures
            step_ok(old(self).phase, event, final(self).phase, a),
    {
        let (new_phase, action): (Phase, Action) = match (&self.phase, &event) {
            (Phase::AwaitFirst { base, retries_left }, Event::Page { paths, last_page }) => {
                let lp: i64 = *last_page;
                let rl: u64 = *retries_left;
                if lp <= 0 {
                    if rl > 0 {
                        (
                            Phase::Backoff { base: base.clone(), retries_left: rl - 1 },
                            Action::Sleep { millis: RETRY_BACKOFF_MILLIS },
                        )
                    } else {
                        (
                            Phase::Failed { error: ChangeError::Exhausted },
                            Action::Report { error: ChangeError::Exhausted },
                        )
                    }
                } else if lp == 1 {
                    pick_item(paths)
                } else {
                    let p: u64 = random_in_range(1, lp as u64);
                    if p == 1 {
                        pick_item(paths)
                    } else {
                        let url = page_url(base.as_str(), p);
                        (
                            Phase::AwaitChosen { base: base.clone(), page: p as i64 },
                            Action::FetchPage { url },
                        )
                    }
                }
            },
            (Phase::AwaitFirst { .. }, Event::NetworkFailed) => {
                (
                    Phase::Failed { error: ChangeError::Network },
                    Action::Report { error: ChangeError::Network },
                )
            },
            (Phase::AwaitFirst { .. }, Event::DecodeFailed) => {
                (
                    Phase::Failed { error: ChangeError::Decode },
                    Action::Report { error: ChangeError::Decode },
                )
            },
            (Phase::Backoff { base, retries_left }, Event::Slept) => {
                let url = base.clone();
                (
                    Phase::AwaitFirst { base: base.clone(), retries_left: *retries_left },
                    Action::FetchPage { url },
                )
            },
            (Phase::AwaitChosen { .. }, Event::Page { paths, .. }) => pick_item(paths),
            (Phase::AwaitChosen { .. }, Event::NetworkFailed) => {
                (
                    Phase::Failed { error: ChangeError::Network },
                    Action::Report { error: ChangeError::Network },
                )
            },
            (Phase::AwaitChosen { .. }, Event::DecodeFailed) => {
                (
                    Phase::Failed { error: ChangeError::Decode },
                    Action::Report { error: ChangeError::Decode },
                )
            },
            (Phase::AwaitCache { remote, file_name }, Event::CacheChecked { exists }) => {
                if *exists {
                    (Phase::AwaitSet, Action::SetWallpaper { file_name: file_name.clone() })
                } else {
                    (
                        Phase::AwaitDownload {
                            remote: remote.clone(),
                            file_name: file_name.clone(),
                        },
                        Action::Download { url: remote.clone(), file_name: file_name.clone() },
                    )
                }
            },
            (Phase::AwaitDownload { file_name, .. }, Event::Downloaded { ok }) => {
                if *ok {
                    (Phase::AwaitSet, Action::SetWallpaper { file_name: file_name.clone() })
                } else {
                    (
                        Phase::Failed { error: ChangeError::Network },
                        Action::Report { error: ChangeError::Network },
                    )
                }
            },
            (Phase::AwaitSet, Event::WallpaperSet { ok }) => {
                if *ok {
                    (Phase::Finished, Action::Finish)
                } else {
                    (
                        Phase::Failed { error: ChangeError::Filesystem },
                        Action::Report { error: ChangeError::Filesystem },
                    )
                }
            },
            _ => {
                proof {
                    assert(false);
                }
                (
                    Phase::Failed { error: ChangeError::Decode },
                    Action::Report { error: ChangeError::Decode },
                )
            },
        };
        self.phase = new_phase;
        action
    }
}

/// The base query a phase carries, where it carries one.
pub open spec fn phase_base(p: Phase) -> Option<Seq<char>> {
    match p {
        Phase::AwaitFirst { base, .. } => Some(base@),
        Phase::Backoff { base, .. } => Some(base@),
        Phase::AwaitChosen { base, .. } => Some(base@),
        _ => None,
    }
}

/// The base query, with its randomly chosen collection tag, stays fixed
/// for the duration of one operation: no step replaces the base its phase
/// carries, so every page of one operation is requested under the same
/// query.
pub proof fn lemma_base_query_fixed(pre: Phase, ev: Event, post: Phase, a: Action)
    requires
        step_ok(pre, ev, post, a),
    ensures
        phase_base(post) is Some ==> phase_base(post) == phase_base(pre),
{
    if phase_base(post) is Some {
        match pre {
            Phase::AwaitFirst { base, retries_left } => {
                if let Event::Page { paths, last_page } = ev {
                    if 0 < last_page && picked_item(paths@, post, a) && paths@.len() > 0 {
                        let i = choose|i: int|
                            0 <= i < paths@.len() && started_resolve(paths@[i]@, post, a);
                        assert(started_resolve(paths@[i]@, post, a));
                    }
                }
            },
            Phase::AwaitChosen { base, page } => {
                if let Event::Page { paths, last_page } = ev {
                    if picked_item(paths@, post, a) && paths@.len() > 0 {
                        let i = choose|i: int|
                            0 <= i < paths@.len() && started_resolve(paths@[i]@, post, a);
                        assert(started_resolve(paths@[i]@, post, a));
                    }
                }
            },
            _ => {},
        }
    }
}

/// Every page fetch one step issues stays under the operation's one base
/// query: it is either the base itself — the first page, possibly
/// re-fetched after a backoff — or the base with a page parameter
/// appended.
pub proof fn lemma_fetches_under_one_base(pre: Phase, ev: Event, post: Phase, a: Action)
    requires
        step_ok(pre, ev, post, a),
    ensures
        a matches Action::FetchPage { url } ==> (phase_base(pre) matches Some(b) && (url@ == b
            || exists|p: nat| 1 < p && url@ == page_url_spec(b, p))),
{
    if a is FetchPage {
        match pre {
            Phase::AwaitFirst { base, retries_left } => {
                if let Event::Page { paths, last_page } = ev {
                    if picked_item(paths@, post, a) && paths@.len() > 0 {
                        let i = choose|i: int|
                            0 <= i < paths@.len() && started_resolve(paths@[i]@, post, a);
                        assert(started_resolve(paths@[i]@, post, a));
                    }
                    if fetch_chosen(base@, last_page, post, a) {
                        if let Phase::AwaitChosen { base: b2, page } = post {
                            assert(1 < page as nat && a->FetchPage_url@ == page_url_spec(
                                base@,
                                page as nat,
                            ));
                        }
                    }
                }
            },
            _ => {},
        }
    }
}

/// A single-page result set never costs a second request: when the first
/// response reports exactly one page, the step picks an item from that
/// response and issues no further page fetch.
pub proof fn lemma_single_page_no_refetch(pre: Phase, paths: Vec<String>, post: Phase, a: Action)
    requires
        pre is AwaitFirst,
        step_ok(pre, Event::Page { paths, last_page: 1 }, post, a),
    ensures
        !(a is FetchPage),
{
    if paths@.len() > 0 {
        let i = choose|i: int| 0 <= i < paths@.len() && started_resolve(paths@[i]@, post, a);
        assert(started_resolve(paths@[i]@, post, a));
    }
}

/// When the first response reports `last_page` pages with `last_page > 1`,
/// the chosen page index always lies in the half-open range
/// `[1, last_page)`: either the step keeps page 1's items, or it fetches a
/// page strictly between 1 and `last_page`. The boundary `last_page`
/// itself is never selected.
pub proof fn lemma_chosen_page_in_range(
    pre: Phase,
    paths: Vec<String>,
    last_page: i64,
    post: Phase,
    a: Action,
)
    requires
        pre is AwaitFirst,
        last_page > 1,
        step_ok(pre, Event::Page { paths, last_page }, post, a),
    ensures
        post matches Phase::AwaitChosen { page, .. } ==> 1 < page < last_page,
        a is FetchPage ==> post is AwaitChosen,
{
    if post is AwaitChosen || a is FetchPage {
        if picked_item(paths@, post, a) && paths@.len() > 0 {
            let i = choose|i: int| 0 <= i < paths@.len() && started_resolve(paths@[i]@, post, a);
            assert(started_resolve(paths@[i]@, post, a));
        }
    }
}

/// A zero-total-pages response is retried before the operation can fail:
/// while any retry budget is left — and a fresh operation starts with
/// `MAX_RETRIES` — the step answers it with a backoff followed by a
/// re-fetch, never with an `Exhausted` report.
pub proof fn lemma_zero_pages_retry(
    pre: Phase,
    paths: Vec<String>,
    last_page: i64,
    post: Phase,
    a: Action,
)
    requires
        pre matches Phase::AwaitFirst { retries_left, .. } && retries_left > 0,
        last_page <= 0,
        step_ok(pre, Event::Page { paths, last_page }, post, a),
    ensures
        a is Sleep,
        post is Backoff,
        !(a is Report),
{
}

/// A cache hit never downloads: when the probe reports the derived file
/// name already present, the step sets the wallpaper straight from that
/// cache file and issues no download and no overwrite.
pub proof fn lemma_cache_hit_no_download(
    remote: String,
    file_name: String,
    post: Phase,
    a: Action,
)
    requires
        step_ok(
            Phase::AwaitCache { remote, file_name },
            Event::CacheChecked { exists: true },
            post,
            a,
        ),
    ensures
        !(a is Download),
        a matches Action::SetWallpaper { file_name: f } && f@ == file_name@,
{
}

/// Picks one item of `paths` uniformly at random and starts its cache
/// resolution; an empty list fails the operation with `Exhausted`.
fn pick_item(paths: &Vec<String>) -> (r: (Phase, Action))
    ensures
        picked_item(paths@, r.0, r.1),
{
    if paths.len() == 0 {
        (
            Phase::Failed { error: ChangeError::Exhausted },
            Action::Report { error: ChangeError::Exhausted },
        )
    } else {
        let pick = random_in_range(0, paths.len() as u64);
        let i = pick as usize;
        let remote = paths[i].clone();
        let name = derive_file_name(remote.as_str());
        let probe = name.clone();
        let r = (
            Phase::AwaitCache { remote, file_name: name },
            Action::CheckCache { file_name: probe },
        );
        proof {
            assert(started_resolve(paths@[i as int]@, r.0, r.1));
        }
        r
    }
}

} // verus!
