//! From a page to its favicon candidates: the head section of the page, the
//! `link` and `meta` elements in it that point at an icon, and their
//! references resolved against the URL of the page.
//!
//! Markup is parsed and queried by the `scraper` crate. What it finds is named
//! by `document_heads` and `fragment_elements`; which elements
//! count, in which order, and what stands in for an empty harvest is decided
//! here.

use vstd::prelude::*;

use crate::errors::FavilibError;
use crate::site_url::{joined_url, SiteUrl};
use crate::text::{chars_of, contains, contains_chars};

verus! {

/// What the harvest reads of a `link` element: its `href` and `rel`
/// attributes, each `None` where the element does not have it.
#[derive(Debug, PartialEq, Eq)]
pub struct LinkElement {
    pub href: Option<String>,
    pub rel: Option<String>,
}

/// A [`LinkElement`] as a mathematical value.
pub struct LinkElementView {
    pub href: Option<Seq<char>>,
    pub rel: Option<Seq<char>>,
}

impl DeepView for LinkElement {
    type V = LinkElementView;

    open spec fn deep_view(&self) -> LinkElementView {
        LinkElementView { href: self.href.deep_view(), rel: self.rel.deep_view() }
    }
}

/// The inner markup of each `head` element of the document that `page` parses
/// as, in the order in which a selection hands them out.
pub uninterp spec fn document_heads(page: Seq<char>) -> Seq<Seq<char>>;

/// What the harvest reads of a head section: its `link` elements, and the
/// `content` attribute of each of its `meta` elements, `None` where the
/// element does not have it.
#[derive(Debug, PartialEq, Eq)]
pub struct HeadElements {
    pub links: Vec<LinkElement>,
    pub metas: Vec<Option<String>>,
}

/// [`HeadElements`] as a mathematical value.
pub struct HeadElementsView {
    pub links: Seq<LinkElementView>,
    pub metas: Seq<Option<Seq<char>>>,
}

impl DeepView for HeadElements {
    type V = HeadElementsView;

    open spec fn deep_view(&self) -> HeadElementsView {
        HeadElementsView { links: self.links.deep_view(), metas: self.metas.deep_view() }
    }
}

/// The `link` and `meta` elements of the fragment that `markup` parses as,
/// each kind in the order in which a selection hands its elements out.
pub uninterp spec fn fragment_elements(markup: Seq<char>) -> HeadElementsView;

/// Parses `page` with `scraper::Html::parse_document`, selects `head` with
/// `scraper::Html::select` and serializes the children of each element found
/// with `scraper::ElementRef::inner_html`. The contract only names the
/// result, as `document_heads`.
#[verifier::external_body]
fn select_heads(page: &str) -> (heads: Vec<String>)
    ensures
        heads.deep_view() == document_heads(page@),
{
    let document = scraper::Html::parse_document(page);
    let selector = scraper::Selector::parse("head").unwrap();
    document.select(&selector).map(|head| head.inner_html()).collect()
}

/// Parses `markup` with `scraper::Html::parse_fragment`, selects `link` and
/// `meta` with `scraper::Html::select`, and reads `href` and `rel` of each
/// `link` and `content` of each `meta` with `scraper::ElementRef::attr`. The
/// contract only names the result, as `fragment_elements`.
#[verifier::external_body]
fn select_elements(markup: &str) -> (elements: HeadElements)
    ensures
        elements.deep_view() == fragment_elements(markup@),
{
    let fragment = scraper::Html::parse_fragment(markup);
    let link = scraper::Selector::parse("link").unwrap();
    let meta = scraper::Selector::parse("meta").unwrap();
    let links = fragment.select(&link).map(|element| LinkElement {
        href: element.attr("href").map(String::from),
        rel: element.attr("rel").map(String::from),
    }).collect();
    let metas = fragment.select(&meta).map(|element| element.attr("content").map(String::from));
    HeadElements { links, metas: metas.collect() }
}

/// The head section of a page, held as markup that parses as a fragment of
/// its own.
#[derive(Debug, PartialEq, Eq)]
pub struct HeadSection {
    markup: String,
}

impl View for HeadSection {
    type V = Seq<char>;

    closed spec fn view(&self) -> Seq<char> {
        self.markup@
    }
}

impl HeadSection {
    /// A head section with the given markup.
    pub fn from_markup(markup: &str) -> (head: HeadSection)
        ensures
            head@ == markup@,
    {
        HeadSection { markup: String::from_str(markup) }
    }

    /// The markup of this head section.
    pub fn markup(&self) -> (markup: &str)
        ensures
            markup@ == self@,
    {
        self.markup.as_str()
    }

    /// The `link` and `meta` elements of this head section.
    pub fn elements(&self) -> (elements: HeadElements)
        ensures
            elements.deep_view() == fragment_elements(self@),
    {
        select_elements(self.markup.as_str())
    }
}

/// The head section among the `head` elements found in a page: the first one.
pub open spec fn first_of(heads: Seq<Seq<char>>) -> Result<Seq<char>, FavilibError> {
    if heads.len() == 0 {
        Err(FavilibError::NoHeaderSection)
    } else {
        Ok(heads[0])
    }
}

/// The markup inside a result that holds a head section.
pub open spec fn head_view(outcome: Result<HeadSection, FavilibError>) -> Result<
    Seq<char>,
    FavilibError,
> {
    match outcome {
        Ok(head) => Ok(head@),
        Err(error) => Err(error),
    }
}

/// Picks the head section among the `head` elements found in a page: the
/// first one. Fails with `NoHeaderSection` exactly where none was found.
pub fn first_head(heads: Vec<String>) -> (outcome: Result<HeadSection, FavilibError>)
    ensures
        head_view(outcome) == first_of(heads.deep_view()),
{
    let mut heads = heads;
    if heads.len() == 0 {
        Err(FavilibError::NoHeaderSection)
    } else {
        let markup = heads.swap_remove(0);
        Ok(HeadSection { markup })
    }
}

/// Isolates the head section of a page. Fails with `NoHeaderSection` exactly
/// where the page as parsed has no `head` element.
pub fn get_page_head_section(page: String) -> (outcome: Result<HeadSection, FavilibError>)
    ensures
        head_view(outcome) == first_of(document_heads(page@)),
{
    first_head(select_heads(page.as_str()))
}

/// The head section of a page from what came back for its URL: the text of
/// the response, or `None` where the transport failed. Fails with
/// `FetchError` exactly where the transport failed, and with
/// `NoHeaderSection` exactly where the page as parsed has no `head` element.
pub fn extract_head(response: Option<String>) -> (outcome: Result<HeadSection, FavilibError>)
    ensures
        head_view(outcome) == match response {
            Some(page) => first_of(document_heads(page@)),
            None => Err(FavilibError::FetchError),
        },
{
    match response {
        Some(page) => get_page_head_section(page),
        None => Err(FavilibError::FetchError),
    }
}

/// `text` contains one of the texts that mark an icon: `icon`,
/// `shortcut icon`, `apple-touch-icon`, `favicon`, `mask-icon`, `fluid-icon`
/// or `image`. The text need only occur somewhere in `text`.
pub open spec fn names_icon(text: Seq<char>) -> bool {
    ||| contains(text, "icon"@)
    ||| contains(text, "shortcut icon"@)
    ||| contains(text, "apple-touch-icon"@)
    ||| contains(text, "favicon"@)
    ||| contains(text, "mask-icon"@)
    ||| contains(text, "fluid-icon"@)
    ||| contains(text, "image"@)
}

/// Tells whether `text` contains one of the texts that mark an icon.
pub fn names_icon_type(text: &str) -> (named: bool)
    ensures
        named == names_icon(text@),
{
    let chars = chars_of(text);
    contains_chars(&chars, &chars_of("icon"))
        || contains_chars(&chars, &chars_of("shortcut icon"))
        || contains_chars(&chars, &chars_of("apple-touch-icon"))
        || contains_chars(&chars, &chars_of("favicon"))
        || contains_chars(&chars, &chars_of("mask-icon"))
        || contains_chars(&chars, &chars_of("fluid-icon"))
        || contains_chars(&chars, &chars_of("image"))
}

/// The reference that a `link` element contributes: its `href`, where it has
/// one and its `rel` marks an icon. An element without `rel` marks none.
pub open spec fn link_reference(link: LinkElementView) -> Option<Seq<char>> {
    match (link.href, link.rel) {
        (Some(href), Some(rel)) => if names_icon(rel) {
            Some(href)
        } else {
            None
        },
        _ => None,
    }
}

/// The reference that a `meta` element contributes: its `content`, where it
/// has one and the content itself marks an icon.
pub open spec fn meta_reference(content: Option<Seq<char>>) -> Option<Seq<char>> {
    match content {
        Some(content) => if names_icon(content) {
            Some(content)
        } else {
            None
        },
        None => None,
    }
}

/// The values that are present in `items`, in the order of `items`.
pub open spec fn present<T>(items: Seq<Option<T>>) -> Seq<T>
    decreases items.len(),
{
    if items.len() == 0 {
        Seq::empty()
    } else {
        match items.last() {
            Some(value) => present(items.drop_last()).push(value),
            None => present(items.drop_last()),
        }
    }
}

/// The reference of a `link` element, if it contributes one.
pub fn reference_of_link(link: &LinkElement) -> (reference: Option<String>)
    ensures
        reference.deep_view() == link_reference(link.deep_view()),
{
    match &link.href {
        Some(href) => {
            let marked = match &link.rel {
                Some(rel) => names_icon_type(rel.as_str()),
                None => false,
            };
            if marked {
                Some(href.clone())
            } else {
                None
            }
        },
        None => None,
    }
}

/// The reference of a `meta` element, if it contributes one.
pub fn reference_of_meta(content: &Option<String>) -> (reference: Option<String>)
    ensures
        reference.deep_view() == meta_reference(content.deep_view()),
{
    match content {
        Some(content) => {
            if names_icon_type(content.as_str()) {
                Some(content.clone())
            } else {
                None
            }
        },
        None => None,
    }
}

/// The candidate that a `link` element contributes for a page at `base`: its
/// reference resolved against `base`, where it has one and it can be resolved.
pub open spec fn link_candidate(base: Seq<char>, link: LinkElementView) -> Option<Seq<char>> {
    match link_reference(link) {
        Some(reference) => joined_url(base, reference),
        None => None,
    }
}

/// The candidate that a `meta` element contributes for a page at `base`: its
/// reference resolved against `base`, where it has one and it can be resolved.
pub open spec fn meta_candidate(base: Seq<char>, content: Option<Seq<char>>) -> Option<Seq<char>> {
    match meta_reference(content) {
        Some(reference) => joined_url(base, reference),
        None => None,
    }
}

/// The candidates that the elements of a head section contribute: those of
/// the `link` elements in their order, then those of the `meta` elements in
/// theirs. An element that contributes none is passed over.
pub open spec fn harvested(
    base: Seq<char>,
    links: Seq<LinkElementView>,
    metas: Seq<Option<Seq<char>>>,
) -> Seq<Seq<char>> {
    present(links.map_values(|link: LinkElementView| link_candidate(base, link))) + present(
        metas.map_values(|content: Option<Seq<char>>| meta_candidate(base, content)),
    )
}

/// The path of the candidate that stands in for an empty harvest.
pub open spec fn fallback_path() -> Seq<char> {
    "/favicon.ico"@
}

/// The candidates for a page at `base`: what its head section contributes,
/// or, where that is nothing, the one URL `fallback`.
pub open spec fn or_fallback(found: Seq<Seq<char>>, fallback: Seq<char>) -> Seq<Seq<char>> {
    if found.len() == 0 {
        seq![fallback]
    } else {
        found
    }
}

/// A page at `base` with the given elements in its head section has
/// candidates: its elements contribute one, or `base` can be joined with the
/// fallback path.
pub open spec fn has_candidates(
    base: Seq<char>,
    links: Seq<LinkElementView>,
    metas: Seq<Option<Seq<char>>>,
) -> bool {
    harvested(base, links, metas).len() > 0 || joined_url(base, fallback_path()) is Some
}

/// The candidates for a page at `base` with the given elements in its head
/// section. Where the elements contribute none, the one candidate is `base`
/// joined with the fallback path.
pub open spec fn candidates(
    base: Seq<char>,
    links: Seq<LinkElementView>,
    metas: Seq<Option<Seq<char>>>,
) -> Seq<Seq<char>>
    recommends
        has_candidates(base, links, metas),
{
    or_fallback(harvested(base, links, metas), joined_url(base, fallback_path())->0)
}

/// Appending an item to `items` appends its value, if it has one, to what is
/// present.
pub proof fn lemma_present_push<T>(items: Seq<Option<T>>, item: Option<T>)
    ensures
        present(items.push(item)) == match item {
            Some(value) => present(items).push(value),
            None => present(items),
        },
{
    assert(items.push(item).drop_last() =~= items);
}

/// Resolves a reference, if there is one, against `base`. A reference that
/// cannot be resolved is dropped.
pub fn resolve(base: &SiteUrl, reference: Option<String>) -> (candidate: Option<SiteUrl>)
    ensures
        candidate.deep_view() == match reference.deep_view() {
            Some(reference) => joined_url(base@, reference),
            None => None,
        },
{
    match reference {
        Some(reference) => match base.join(reference.as_str()) {
            Ok(url) => Some(url),
            Err(_) => None,
        },
        None => None,
    }
}

/// Puts the fallback in place of an empty harvest.
pub fn found_or_fallback(found: Vec<SiteUrl>, fallback: SiteUrl) -> (urls: Vec<SiteUrl>)
    ensures
        urls.deep_view() == or_fallback(found.deep_view(), fallback@),
        urls.len() > 0,
{
    if found.len() == 0 {
        let mut urls: Vec<SiteUrl> = Vec::new();
        urls.push(fallback);
        assert(urls.deep_view() =~= seq![fallback@]);
        urls
    } else {
        found
    }
}

/// What the elements of a head section contribute for a page at `base_url`.
///
/// Every `link` element with an `href` whose `rel` marks an icon contributes
/// its `href`, and every `meta` element whose `content` marks an icon
/// contributes its `content`, each resolved against `base_url`; what cannot be
/// resolved is dropped. The candidates of the `link` elements come first,
/// each group in the order of its elements.
pub fn harvest_elements(elements: &HeadElements, base_url: &SiteUrl) -> (urls: Vec<SiteUrl>)
    ensures
        urls.deep_view() == harvested(
            base_url@,
            elements.deep_view().links,
            elements.deep_view().metas,
        ),
{
    let links = &elements.links;
    let metas = &elements.metas;
    let ghost link_items = links.deep_view().map_values(
        |link: LinkElementView| link_candidate(base_url@, link),
    );
    let ghost meta_items = metas.deep_view().map_values(
        |content: Option<Seq<char>>| meta_candidate(base_url@, content),
    );
    let mut urls: Vec<SiteUrl> = Vec::new();
    assert(urls.deep_view() =~= present(link_items.take(0)));

    let mut i: usize = 0;
    while i < links.len()
        invariant
            i <= links.len(),
            link_items == links.deep_view().map_values(
                |link: LinkElementView| link_candidate(base_url@, link),
            ),
            urls.deep_view() == present(link_items.take(i as int)),
        decreases links.len() - i,
    {
        let candidate = resolve(base_url, reference_of_link(&links[i]));
        proof {
            assert(candidate.deep_view() == link_items[i as int]);
            assert(link_items.take(i + 1) =~= link_items.take(i as int).push(link_items[i as int]));
            lemma_present_push(link_items.take(i as int), link_items[i as int]);
        }
        let ghost before = urls.deep_view();
        match candidate {
            Some(url) => {
                urls.push(url);
                assert(urls.deep_view() =~= before.push(url@));
            },
            None => {},
        }
        i += 1;
    }
    assert(link_items.take(links.len() as int) =~= link_items);
    assert(meta_items.take(0) =~= Seq::empty());
    assert(urls.deep_view() =~= present(link_items) + present(meta_items.take(0)));

    let mut j: usize = 0;
    while j < metas.len()
        invariant
            j <= metas.len(),
            meta_items == metas.deep_view().map_values(
                |content: Option<Seq<char>>| meta_candidate(base_url@, content),
            ),
            urls.deep_view() == present(link_items) + present(meta_items.take(j as int)),
        decreases metas.len() - j,
    {
        let candidate = resolve(base_url, reference_of_meta(&metas[j]));
        proof {
            assert(candidate.deep_view() == meta_items[j as int]);
            assert(meta_items.take(j + 1) =~= meta_items.take(j as int).push(meta_items[j as int]));
            lemma_present_push(meta_items.take(j as int), meta_items[j as int]);
        }
        let ghost before = urls.deep_view();
        match candidate {
            Some(url) => {
                urls.push(url);
                assert(urls.deep_view() =~= before.push(url@));
            },
            None => {},
        }
        j += 1;
    }
    assert(meta_items.take(metas.len() as int) =~= meta_items);
    urls
}

/// Harvests the favicon candidates from the elements of a head section: what
/// the elements contribute, or, where that is nothing, the one candidate
/// `base_url` joined with `/favicon.ico`. Never an empty list.
pub fn harvest(elements: &HeadElements, base_url: &SiteUrl) -> (urls: Vec<SiteUrl>)
    requires
        has_candidates(base_url@, elements.deep_view().links, elements.deep_view().metas),
    ensures
        urls.deep_view() == candidates(
            base_url@,
            elements.deep_view().links,
            elements.deep_view().metas,
        ),
        urls.len() > 0,
{
    let found = harvest_elements(elements, base_url);
    if found.len() == 0 {
        match base_url.join("/favicon.ico") {
            Ok(fallback) => found_or_fallback(found, fallback),
            Err(_) => unreached(),
        }
    } else {
        found
    }
}

/// Harvests the favicon candidates of a page from its head section: those
/// that [`harvest`] finds among the `link` and `meta` elements of the head
/// section.
pub fn get_favicon_urls_from_header(header: HeadSection, base_url: SiteUrl) -> (urls: Vec<SiteUrl>)
    requires
        has_candidates(
            base_url@,
            fragment_elements(header@).links,
            fragment_elements(header@).metas,
        ),
    ensures
        urls.deep_view() == candidates(
            base_url@,
            fragment_elements(header@).links,
            fragment_elements(header@).metas,
        ),
        urls.len() > 0,
{
    harvest(&header.elements(), &base_url)
}

/// Harvests the favicon candidates of a page from its head section, for any
/// base. Fails with `InvalidUrl` exactly where the elements contribute no
/// candidate and the base cannot be joined with `/favicon.ico`; else the
/// candidates are those of [`get_favicon_urls_from_header`].
pub fn favicon_candidates(header: HeadSection, base_url: SiteUrl) -> (outcome: Result<
    Vec<SiteUrl>,
    FavilibError,
>)
    ensures
        if has_candidates(
            base_url@,
            fragment_elements(header@).links,
            fragment_elements(header@).metas,
        ) {
            outcome matches Ok(urls) && urls.deep_view() == candidates(
                base_url@,
                fragment_elements(header@).links,
                fragment_elements(header@).metas,
            ) && urls.len() > 0
        } else {
            outcome == Err::<Vec<SiteUrl>, FavilibError>(FavilibError::InvalidUrl)
        },
{
    match base_url.join("/favicon.ico") {
        Ok(_) => Ok(get_favicon_urls_from_header(header, base_url)),
        Err(_) => {
            let found = harvest_elements(&header.elements(), &base_url);
            if found.len() > 0 {
                Ok(found)
            } else {
                Err(FavilibError::InvalidUrl)
            }
        },
    }
}

/// What is present in the first `n` items is the beginning of what is present
/// in all of them.
pub proof fn lemma_present_prefix<T>(items: Seq<Option<T>>, n: int)
    requires
        0 <= n <= items.len(),
    ensures
        present(items.take(n)).is_prefix_of(present(items)),
    decreases items.len(),
{
    if n == items.len() {
        assert(items.take(n) =~= items);
    } else {
        assert(items.take(n) =~= items.drop_last().take(n));
        lemma_present_prefix(items.drop_last(), n);
    }
}

/// Two values that are present in `items` are present in the same order in
/// what `present` makes of them.
pub proof fn lemma_present_keeps_order<T>(items: Seq<Option<T>>, i: int, j: int)
    requires
        0 <= i < j < items.len(),
        items[i] is Some,
        items[j] is Some,
    ensures
        exists|p: int, q: int|
            0 <= p < q < present(items).len() && present(items)[p] == items[i]->0 && present(
                items,
            )[q] == items[j]->0,
{
    let p = present(items.take(i)).len() as int;
    let q = present(items.take(j)).len() as int;
    assert(items.take(i + 1) =~= items.take(i).push(items[i]));
    lemma_present_push(items.take(i), items[i]);
    assert(items.take(j + 1) =~= items.take(j).push(items[j]));
    lemma_present_push(items.take(j), items[j]);
    assert(items.take(j).take(i + 1) =~= items.take(i + 1));
    lemma_present_prefix(items.take(j), i + 1);
    lemma_present_prefix(items, i + 1);
    lemma_present_prefix(items, j + 1);
    assert(present(items.take(i + 1))[p] == items[i]->0);
    assert(present(items.take(j + 1))[q] == items[j]->0);
    assert(0 <= p < q < present(items).len() && present(items)[p] == items[i]->0 && present(
        items,
    )[q] == items[j]->0);
}

/// Taking out an item without a value changes nothing in what is present.
pub proof fn lemma_present_without_absent<T>(items: Seq<Option<T>>, i: int)
    requires
        0 <= i < items.len(),
        items[i] is None,
    ensures
        present(items.remove(i)) == present(items),
    decreases items.len(),
{
    if i == items.len() - 1 {
        assert(items.remove(i) =~= items.drop_last());
    } else {
        assert(items.remove(i).drop_last() =~= items.drop_last().remove(i));
        assert(items.remove(i).last() == items.last());
        lemma_present_without_absent(items.drop_last(), i);
    }
}

/// Where no item has a value, nothing is present.
pub proof fn lemma_present_of_absent<T>(items: Seq<Option<T>>)
    requires
        forall|i: int| 0 <= i < items.len() ==> items[i] is None,
    ensures
        present(items) == Seq::<T>::empty(),
    decreases items.len(),
{
    if items.len() > 0 {
        lemma_present_of_absent(items.drop_last());
    }
}

/// The harvest keeps the order of the markup: of two `link` elements that
/// each contribute a candidate, the candidate of the earlier element comes
/// earlier among the candidates.
pub proof fn lemma_links_keep_order(
    base: Seq<char>,
    links: Seq<LinkElementView>,
    metas: Seq<Option<Seq<char>>>,
    i: int,
    j: int,
)
    requires
        0 <= i < j < links.len(),
        link_candidate(base, links[i]) is Some,
        link_candidate(base, links[j]) is Some,
    ensures
        exists|p: int, q: int|
            0 <= p < q < candidates(base, links, metas).len() && candidates(base, links, metas)[p]
                == link_candidate(base, links[i])->0 && candidates(base, links, metas)[q]
                == link_candidate(base, links[j])->0,
{
    let items = links.map_values(|link: LinkElementView| link_candidate(base, link));
    lemma_present_keeps_order(items, i, j);
    let (p, q) = choose|p: int, q: int|
        0 <= p < q < present(items).len() && present(items)[p] == items[i]->0 && present(items)[q]
            == items[j]->0;
    let all = candidates(base, links, metas);
    assert(all == harvested(base, links, metas));
    assert(0 <= p < q < all.len() && all[p] == link_candidate(base, links[i])->0 && all[q]
        == link_candidate(base, links[j])->0);
}

/// The harvest passes over a `link` element whose `rel` marks no icon: with
/// or without that element the candidates are the same.
pub proof fn lemma_unmarked_link_is_excluded(
    base: Seq<char>,
    links: Seq<LinkElementView>,
    metas: Seq<Option<Seq<char>>>,
    i: int,
)
    requires
        0 <= i < links.len(),
        !(links[i].rel matches Some(rel) && names_icon(rel)),
    ensures
        link_candidate(base, links[i]) is None,
        candidates(base, links, metas) == candidates(base, links.remove(i), metas),
{
    let items = links.map_values(|link: LinkElementView| link_candidate(base, link));
    let fewer = links.remove(i).map_values(|link: LinkElementView| link_candidate(base, link));
    assert(fewer =~= items.remove(i));
    lemma_present_without_absent(items, i);
}

/// Where no element of the head section contributes a candidate, the one
/// candidate is the base joined with the fallback path.
pub proof fn lemma_empty_harvest_falls_back(
    base: Seq<char>,
    links: Seq<LinkElementView>,
    metas: Seq<Option<Seq<char>>>,
)
    requires
        forall|i: int| 0 <= i < links.len() ==> link_candidate(base, #[trigger] links[i]) is None,
        forall|j: int| 0 <= j < metas.len() ==> meta_candidate(base, #[trigger] metas[j]) is None,
        has_candidates(base, links, metas),
    ensures
        joined_url(base, fallback_path()) matches Some(fallback) && candidates(base, links, metas)
            == seq![fallback],
{
    lemma_present_of_absent(links.map_values(|link: LinkElementView| link_candidate(base, link)));
    lemma_present_of_absent(
        metas.map_values(|content: Option<Seq<char>>| meta_candidate(base, content)),
    );
}

} // verus!
