//! Release resolver: reads the asset list out of the remote release
//! document and selects the downloadable URL for each distributable
//! kind with the naming-convention filter, last match winning.

use vstd::prelude::*;

use crate::LoaderKind;
use crate::strutil::{contains_seq, contains_str};

verus! {

/// The naming predicate for the loader distributable: the raw URL text
/// must mention both the kind marker and the archive format.
pub open spec fn loader_url_matches(url: Seq<char>) -> bool {
    contains_seq(url, "space-warp-release"@) && contains_seq(url, "zip"@)
}

/// The naming predicate for the runtime patcher: one combined
/// marker-plus-format substring.
pub open spec fn patcher_url_matches(url: Seq<char>) -> bool {
    contains_seq(url, "bepinex.zip"@)
}

/// The kind-specific naming filter applied to a raw asset URL.
pub open spec fn url_matches(kind: LoaderKind, url: Seq<char>) -> bool {
    match kind {
        LoaderKind::Loader => loader_url_matches(url),
        LoaderKind::RuntimePatcher => patcher_url_matches(url),
    }
}

/// The URL the scan keeps: the last matching entry of the asset list,
/// or the empty string when none matches.
pub open spec fn selected_url(kind: LoaderKind, urls: Seq<Seq<char>>) -> Seq<char>
    decreases urls.len(),
{
    if urls.len() == 0 {
        Seq::empty()
    } else if url_matches(kind, urls.last()) {
        urls.last()
    } else {
        selected_url(kind, urls.drop_last())
    }
}

/// The kind-specific naming filter, executed.
pub fn url_matches_exec(kind: &LoaderKind, url: &str) -> (r: bool)
    ensures
        r == url_matches(*kind, url@),
{
    match kind {
        LoaderKind::Loader => contains_str(url, "space-warp-release") && contains_str(
            url,
            "zip",
        ),
        LoaderKind::RuntimePatcher => contains_str(url, "bepinex.zip"),
    }
}

/// Scans the asset URLs in order; a later match overwrites an earlier
/// one, so the last matching entry wins.
pub fn select_asset_url(kind: &LoaderKind, urls: &Vec<String>) -> (r: String)
    ensures
        r@ == selected_url(*kind, urls.deep_view()),
{
    let ghost all = urls.deep_view();
    let mut chosen = String::new();
    let mut i: usize = 0;
    while i < urls.len()
        invariant
            all == urls.deep_view(),
            all.len() == urls.len(),
            i <= urls.len(),
            chosen@ == selected_url(*kind, all.take(i as int)),
        decreases urls.len() - i,
    {
        if url_matches_exec(kind, urls[i].as_str()) {
            chosen = urls[i].clone();
        }
        proof {
            assert(all.take(i + 1).drop_last() =~= all.take(i as int));
            assert(all.take(i + 1).last() == all[i as int]);
        }
        i += 1;
    }
    proof {
        assert(all.take(urls.len() as int) =~= all);
    }
    chosen
}

/// Law: the scan keeps the last matching asset — when position `i`
/// matches the filter and no later position does, the selection is
/// exactly entry `i`.
pub proof fn lemma_last_match_wins(kind: LoaderKind, urls: Seq<Seq<char>>, i: int)
    requires
        0 <= i < urls.len(),
        url_matches(kind, urls[i]),
        forall|j: int| i < j < urls.len() ==> !url_matches(kind, urls[j]),
    ensures
        selected_url(kind, urls) == urls[i],
    decreases urls.len(),
{
    if i == urls.len() - 1 {
    } else {
        assert(!url_matches(kind, urls.last()));
        assert(urls.drop_last()[i] == urls[i]);
        lemma_last_match_wins(kind, urls.drop_last(), i);
    }
}

/// Law: when no asset matches the filter, the selection is the empty
/// string — the sentinel the caller must detect before network use.
pub proof fn lemma_no_match_empty(kind: LoaderKind, urls: Seq<Seq<char>>)
    requires
        forall|j: int| 0 <= j < urls.len() ==> !url_matches(kind, urls[j]),
    ensures
        selected_url(kind, urls) == Seq::<char>::empty(),
    decreases urls.len(),
{
    if urls.len() > 0 {
        assert(!url_matches(kind, urls.last()));
        lemma_no_match_empty(kind, urls.drop_last());
    }
}

/// What the feed parser yields for a given release document: the raw
/// JSON text of the `browser_download_url` field of each entry of the
/// `assets` array, in array order (for a string field that text keeps
/// its surrounding quote characters), or nothing when the document
/// cannot be read that way. The outcome is a function of the document
/// text alone.
pub uninterp spec fn feed_asset_urls(body: Seq<char>) -> Option<Seq<Seq<char>>>;

/// Relies on serde_json::from_str and serde_json::Value::{get, as_array,
/// to_string}: parses the release document and reads out the raw JSON
/// text of every asset's `browser_download_url` field, in array order;
/// a document without a well-formed `assets` array or with an asset
/// lacking that field is reported as unreadable.
#[verifier::external_body]
fn parse_feed_urls(body: &str) -> (r: Option<Vec<String>>)
    ensures
        (r is Some) == (feed_asset_urls(body@) is Some),
        r matches Some(urls) ==> urls.deep_view() == feed_asset_urls(body@)->Some_0,
{
    let doc: serde_json::Value = serde_json::from_str(body).ok()?;
    let assets = doc.get("assets")?.as_array()?;
    let mut urls: Vec<String> = Vec::new();
    for asset in assets {
        urls.push(asset.get("browser_download_url")?.to_string());
    }
    Some(urls)
}

/// The raw (still quoted) URL text selected for `kind` from the release
/// document, or nothing when the document cannot be read.
pub open spec fn feed_selection(kind: LoaderKind, body: Seq<char>) -> Option<Seq<char>> {
    match feed_asset_urls(body) {
        Option::None => Option::None,
        Option::Some(urls) => Option::Some(selected_url(kind, urls)),
    }
}

/// Resolves the download URL for `kind` from the raw release document:
/// parses it, then scans the assets with the naming filter, last match
/// winning. The returned text still carries its surrounding quote
/// characters; `None` reports a malformed document.
pub fn resolve_asset_url(kind: &LoaderKind, body: &str) -> (r: Option<String>)
    ensures
        (r is Some) == (feed_selection(*kind, body@) is Some),
        r matches Some(u) ==> u@ == feed_selection(*kind, body@)->Some_0,
{
    match parse_feed_urls(body) {
        Option::None => Option::None,
        Option::Some(urls) => Option::Some(select_asset_url(kind, &urls)),
    }
}

} // verus!
