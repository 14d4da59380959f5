//! The GIFs that can be picked.

use vstd::prelude::*;
use vstd::string::*;

use crate::favs::FavItem;
use crate::providers::{provider_named, GifResult, Provider};

verus! {

/// A selectable GIF: what's shown vs. what gets pasted when selected.
#[derive(Debug)]
pub struct UrlItem {
    pub id: String,
    pub title: String,
    pub url: String,
    pub preview_url: String,
    pub provider: Provider,
}

impl Clone for UrlItem {
    fn clone(&self) -> (r: Self)
        ensures
            r == *self,
    {
        UrlItem {
            id: self.id.clone(),
            title: self.title.clone(),
            url: self.url.clone(),
            preview_url: self.preview_url.clone(),
            provider: self.provider,
        }
    }
}

/// A search result as a GIF to pick; without a title it goes by its id.
pub open spec fn item_of_gif(g: GifResult) -> UrlItem {
    UrlItem {
        id: g.id,
        title: if g.title@.len() == 0 {
            g.id
        } else {
            g.title
        },
        url: g.url,
        preview_url: g.preview_url,
        provider: g.provider,
    }
}

/// A favorite as a GIF to pick; without a title it goes by its id.
pub open spec fn item_of_fav(f: FavItem) -> UrlItem {
    UrlItem {
        id: f.id,
        title: if f.title@.len() == 0 {
            f.id
        } else {
            f.title
        },
        url: f.url,
        preview_url: f.preview,
        provider: provider_named(f.provider@),
    }
}

impl From<GifResult> for UrlItem {
    fn from(r: GifResult) -> (item: Self) {
        let title: String = if r.title.as_str().is_empty() {
            r.id.clone()
        } else {
            r.title
        };
        UrlItem {
            id: r.id,
            title,
            url: r.url,
            preview_url: r.preview_url,
            provider: r.provider,
        }
    }
}

impl vstd::std_specs::convert::FromSpecImpl<GifResult> for UrlItem {
    open spec fn obeys_from_spec() -> bool {
        true
    }

    open spec fn from_spec(r: GifResult) -> UrlItem {
        item_of_gif(r)
    }
}

impl From<FavItem> for UrlItem {
    fn from(f: FavItem) -> (item: Self) {
        let provider: Provider = Provider::from_label(f.provider.as_str());
        let title: String = if f.title.as_str().is_empty() {
            f.id.clone()
        } else {
            f.title
        };
        UrlItem { id: f.id, title, url: f.url, preview_url: f.preview, provider }
    }
}

impl vstd::std_specs::convert::FromSpecImpl<FavItem> for UrlItem {
    open spec fn obeys_from_spec() -> bool {
        true
    }

    open spec fn from_spec(f: FavItem) -> UrlItem {
        item_of_fav(f)
    }
}

impl UrlItem {
    /// The search result needed to save this item as a favorite (works for both
    /// search results and favorites).
    pub fn to_gif_result(&self) -> (r: GifResult)
        ensures
            r == (GifResult {
                id: self.id,
                title: self.title,
                url: self.url,
                preview_url: self.preview_url,
                provider: self.provider,
            }),
    {
        GifResult {
            id: self.id.clone(),
            title: self.title.clone(),
            url: self.url.clone(),
            preview_url: self.preview_url.clone(),
            provider: self.provider,
        }
    }
}

/// Picking a titled search result and going back gives that result.
pub proof fn lemma_gif_round_trip(g: GifResult)
    requires
        g.title@.len() > 0,
    ensures
        ({
            let item = item_of_gif(g);
            g == GifResult {
                id: item.id,
                title: item.title,
                url: item.url,
                preview_url: item.preview_url,
                provider: item.provider,
            }
        }),
{
}

/// Search results as GIFs to pick.
pub open spec fn items_of_gifs(gifs: Seq<GifResult>) -> Seq<UrlItem> {
    gifs.map_values(|g: GifResult| item_of_gif(g))
}

/// Favorites as GIFs to pick.
pub open spec fn items_of_favs(favs: Seq<FavItem>) -> Seq<UrlItem> {
    favs.map_values(|f: FavItem| item_of_fav(f))
}

/// Turns search results into GIFs to pick, in order.
pub fn gif_items(gifs: Vec<GifResult>) -> (r: Vec<UrlItem>)
    ensures
        r@ == items_of_gifs(gifs@),
{
    let ghost all = gifs@;
    let mut out: Vec<UrlItem> = Vec::new();
    for g in it: gifs
        invariant
            it.seq() == all,
            out@ == items_of_gifs(all).take(it.index()),
    {
        out.push(UrlItem::from(g));
        assert(items_of_gifs(all).take(it.index() + 1) == items_of_gifs(all).take(it.index()).push(
            item_of_gif(g),
        ));
    }
    assert(items_of_gifs(all).take(all.len() as int) == items_of_gifs(all));
    out
}

/// Turns favorites into GIFs to pick, in order.
pub fn fav_items(favs: Vec<FavItem>) -> (r: Vec<UrlItem>)
    ensures
        r@ == items_of_favs(favs@),
{
    let ghost all = favs@;
    let mut out: Vec<UrlItem> = Vec::new();
    for f in it: favs
        invariant
            it.seq() == all,
            out@ == items_of_favs(all).take(it.index()),
    {
        out.push(UrlItem::from(f));
        assert(items_of_favs(all).take(it.index() + 1) == items_of_favs(all).take(it.index()).push(
            item_of_fav(f),
        ));
    }
    assert(items_of_favs(all).take(all.len() as int) == items_of_favs(all));
    out
}

} // verus!
