use vstd::prelude::*;

verus! {

/// A page of the music library browser.
#[derive(Clone, Debug)]
pub enum Page {
    Artists,
    Artist(String),
    Album(String, String),
}

/// A browser page with its names as plain text.
pub enum PageView {
    Artists,
    Artist(Seq<char>),
    Album(Seq<char>, Seq<char>),
}

impl View for Page {
    type V = PageView;

    open spec fn view(&self) -> PageView {
        match self {
            Page::Artists => PageView::Artists,
            Page::Artist(a) => PageView::Artist(a@),
            Page::Album(a, b) => PageView::Album(a@, b@),
        }
    }
}

/// The page a browser's back button leads to: from an album to its artist, from an
/// artist to the list of artists.
pub open spec fn parent_page(p: PageView) -> PageView {
    match p {
        PageView::Artists => PageView::Artists,
        PageView::Artist(_) => PageView::Artists,
        PageView::Album(artist, _) => PageView::Artist(artist),
    }
}

/// The page the browser shows after choosing an item of the listed page: an artist
/// from the artists, an album of the shown artist.
pub open spec fn chosen_page(p: PageView, item: Seq<char>) -> PageView {
    match p {
        PageView::Artists => PageView::Artist(item),
        PageView::Artist(artist) => PageView::Album(artist, item),
        PageView::Album(artist, album) => PageView::Album(artist, album),
    }
}

/// Where the music library browser is.
#[derive(Clone, Debug)]
pub struct BrowserState {
    pub page: Page,
}

impl Default for BrowserState {
    fn default() -> (s: BrowserState)
        ensures
            s.page@ == PageView::Artists,
    {
        BrowserState { page: Page::Artists }
    }
}

impl BrowserState {
    /// Follows a chosen entry of the list on the current page: an artist on the
    /// artists page, an album on an artist's page. The album page lists tracks,
    /// which start playing instead, so it stays.
    pub fn select(&mut self, item: String)
        ensures
            final(self).page@ == chosen_page(old(self).page@, item@),
    {
        let next = match &self.page {
            Page::Artists => Page::Artist(item),
            Page::Artist(artist) => Page::Album(artist.clone(), item),
            Page::Album(artist, album) => Page::Album(artist.clone(), album.clone()),
        };
        self.page = next;
    }

    /// The back button at the top of an artist or album page.
    pub fn back(&mut self)
        ensures
            final(self).page@ == parent_page(old(self).page@),
    {
        let next = match &self.page {
            Page::Artists => Page::Artists,
            Page::Artist(_) => Page::Artists,
            Page::Album(artist, _) => Page::Artist(artist.clone()),
        };
        self.page = next;
    }
}

/// Choosing on the artists page opens that artist, choosing on an artist's page
/// opens that album of the artist, and choosing on an album page (a track, which
/// starts playing) leaves the browser where it is.
pub proof fn lemma_select_moves_one_level(p: PageView, item: Seq<char>)
    ensures
        p is Artists ==> chosen_page(p, item) == PageView::Artist(item),
        p matches PageView::Artist(a) ==> chosen_page(p, item) == PageView::Album(a, item),
        p is Album ==> chosen_page(p, item) == p,
{
}

/// Choosing an artist or an album and then going back returns to the page the
/// choice was made on.
pub proof fn lemma_back_undoes_choose(p: PageView, item: Seq<char>)
    requires
        !(p is Album),
    ensures
        parent_page(chosen_page(p, item)) == p,
{
}

} // verus!
