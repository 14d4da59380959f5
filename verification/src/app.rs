//! The picker: two tabs over one grid, a search box, and the keymap.
//!
//! What needs the network runs outside: a key press queues it, one function
//! says what to fetch, and another takes the reply.

use vstd::hash_set::StringHashSet;
use vstd::prelude::*;
use vstd::string::*;

use crate::config::Config;
use crate::favs::FavsBackend;
use crate::grid::{
    above, at_least_one, below, capped_product, left_of, nav_down, nav_left, nav_right, nav_up,
    right_of, saturating_product, scroll_to, scrolled,
};
use crate::item::UrlItem;
use crate::keys::{KeyCode, KeyEvent};
use crate::pager::{PageDir, PageReply, PageTurn, Pager, PagerView};
use crate::preview::{CacheView, PreviewCache};
use crate::providers::Source;
use crate::text::{blank, is_blank};

verus! {

/// The two tabs of the unified picker.
#[derive(Debug, Clone, Copy, PartialEq, Eq, Structural)]
pub enum Tab {
    Search,
    Favorites,
}

/// The other tab.
pub open spec fn other_tab(t: Tab) -> Tab {
    match t {
        Tab::Search => Tab::Favorites,
        Tab::Favorites => Tab::Search,
    }
}

impl Tab {
    /// The other tab.
    pub fn toggle(self) -> (r: Tab)
        ensures
            r == other_tab(self),
    {
        match self {
            Tab::Search => Tab::Favorites,
            Tab::Favorites => Tab::Search,
        }
    }
}

/// Deferred work queued by a key press (all of it needs the network, so none of
/// it can run at once).
#[derive(Debug, Clone, Copy, PartialEq, Eq, Structural)]
pub enum Pending {
    /// Fetch the neighbor page (d / u).
    Page(PageDir),
    /// Run a fresh search for the current query (Enter in the search box).
    Search,
    /// Toggle the favorite state of the selected item (v).
    Toggle,
    /// Download the selected GIF and copy it as image/gif (c).
    CopyGif,
    /// Copy the selected GIF's URL as text (y).
    CopyUrl,
    /// Tab was switched: refresh favorite ids, load the favorites page if the
    /// tab has never been populated.
    TabLoad,
}

/// Per-tab grid state: items, cursor, and the pager behind d and u.
#[derive(Debug)]
pub struct GridState {
    pub items: Vec<UrlItem>,
    pub selected: usize,
    pub first_item: usize,
    /// 0-based number of the currently displayed page.
    pub page: usize,
    pub pager: Option<Pager>,
}

/// What a grid holds.
#[verifier::ext_equal]
pub struct GridView {
    pub items: Seq<UrlItem>,
    pub selected: int,
    pub first_item: int,
    pub page: int,
    pub pager: Option<PagerView>,
}

/// What a pager holds, if there is one.
pub open spec fn pager_view(p: Option<Pager>) -> Option<PagerView> {
    match p {
        Some(pager) => Some(pager@),
        None => None,
    }
}

impl View for GridState {
    type V = GridView;

    open spec fn view(&self) -> GridView {
        GridView {
            items: self.items@,
            selected: self.selected as int,
            first_item: self.first_item as int,
            page: self.page as int,
            pager: pager_view(self.pager),
        }
    }
}

/// The number of the neighbor page.
pub open spec fn turned_page(dir: PageDir, page: int) -> int {
    match dir {
        PageDir::Next => page + 1,
        PageDir::Prev => if page > 0 {
            page - 1
        } else {
            0
        },
    }
}

impl GridView {
    /// The item at the cursor, if there is one.
    pub open spec fn active(self) -> Option<UrlItem> {
        if 0 <= self.selected < self.items.len() {
            Some(self.items[self.selected])
        } else {
            None
        }
    }

    /// The grid with the cursor at `selected`, scrolled so that it is in view.
    pub open spec fn moved(self, selected: int, cols: int, rows: int) -> GridView {
        GridView {
            selected,
            first_item: scrolled(
                self.first_item,
                selected,
                at_least_one(cols),
                at_least_one(rows),
                self.items.len() as int,
            ),
            ..self
        }
    }

    /// The grid with other items and the cursor at the top left.
    pub open spec fn replaced(self, items: Seq<UrlItem>) -> GridView {
        GridView { items, selected: 0, first_item: 0, ..self }
    }

    /// The pager, if there is one, can count the pages next to the one shown.
    pub open spec fn turn_countable(self) -> bool {
        self.pager is Some ==> self.pager->0.countable(self.page)
    }

    /// The cursor is on an item, or at the start if there are none.
    pub open spec fn cursor_ok(self) -> bool {
        0 <= self.selected && (self.selected < self.items.len() || self.selected == 0)
    }
}

/// A grid with nothing in it.
pub open spec fn empty_grid() -> GridView {
    GridView { items: Seq::empty(), selected: 0, first_item: 0, page: 0, pager: None }
}

/// How a page turn of a grid ended.
pub(crate) enum TurnEnd {
    NoPager,
    Replaced,
    AtLast,
    Failed(String),
}

impl Default for GridState {
    fn default() -> (r: Self)
        ensures
            r@ == empty_grid(),
    {
        GridState { items: Vec::new(), selected: 0, first_item: 0, page: 0, pager: None }
    }
}

impl GridState {
    fn move_to(&mut self, selected: usize, cols: u16, rows: u16)
        ensures
            final(self)@ == old(self)@.moved(selected as int, cols as int, rows as int),
            final(self).items == old(self).items,
            final(self).pager == old(self).pager,
            final(self).page == old(self).page,
    {
        let width: usize = if cols < 1 {
            1
        } else {
            cols as usize
        };
        let height: usize = if rows < 1 {
            1
        } else {
            rows as usize
        };
        self.selected = selected;
        self.first_item = scroll_to(self.first_item, selected, width, height, self.items.len());
    }

    pub(crate) fn replace(&mut self, items: Vec<UrlItem>)
        ensures
            final(self)@ == old(self)@.replaced(items@),
    {
        self.items = items;
        self.selected = 0;
        self.first_item = 0;
    }

    pub(crate) fn end_turn(&mut self, dir: PageDir, reply: Result<PageReply, String>) -> (r: TurnEnd)
        requires
            old(self).page < usize::MAX,
        ensures
            ({
                let g = old(self)@;
                match r {
                    TurnEnd::NoPager => g.pager is None && final(self)@ == g,
                    TurnEnd::Failed(e) => {
                        &&& g.pager is Some
                        &&& reply == Err::<PageReply, String>(e)
                        &&& final(self)@ == g
                    },
                    TurnEnd::AtLast => {
                        &&& g.pager is Some
                        &&& reply is Ok
                        &&& reply->Ok_0.items@.len() == 0
                        &&& final(self)@ == (GridView {
                            pager: Some(
                                g.pager->0.turned(
                                    dir,
                                    true,
                                    reply->Ok_0.next,
                                    reply->Ok_0.total,
                                ),
                            ),
                            ..g
                        })
                    },
                    TurnEnd::Replaced => {
                        &&& g.pager is Some
                        &&& reply is Ok
                        &&& reply->Ok_0.items@.len() > 0
                        &&& final(self)@ == (GridView {
                            pager: Some(
                                g.pager->0.turned(
                                    dir,
                                    false,
                                    reply->Ok_0.next,
                                    reply->Ok_0.total,
                                ),
                            ),
                            page: turned_page(dir, g.page),
                            ..g
                        }).replaced(reply->Ok_0.items@)
                    },
                }
            }),
    {
        let outcome: Result<PageTurn, String> = match &mut self.pager {
            None => return TurnEnd::NoPager,
            Some(pager) => pager.turned(dir, reply),
        };
        match outcome {
            Ok(PageTurn::Page(items)) => {
                self.page = match dir {
                    PageDir::Next => self.page + 1,
                    PageDir::Prev => if self.page > 0 {
                        self.page - 1
                    } else {
                        0
                    },
                };
                self.replace(items);
                TurnEnd::Replaced
            },
            Ok(_) => TurnEnd::AtLast,
            Err(e) => TurnEnd::Failed(e),
        }
    }
}

/// Whether and how previews are drawn.
#[verifier::reject_recursive_types(F)]
pub enum PreviewMode<F> {
    /// As images, out of this cache.
    Graphics { cache: PreviewCache<F> },
    /// Not at all: titles only.
    Fallback,
}

/// The picker. `F` is a frame in the form that the terminal takes.
#[verifier::reject_recursive_types(F)]
pub struct App<F> {
    /// Active tab.
    pub tab: Tab,
    /// Search-tab grid state.
    pub search: GridState,
    /// Favorites-tab grid state.
    pub favorites: GridState,
    /// Search-box text (typed on the Search tab, run on Enter).
    pub query: String,
    /// Whether typing goes into the search box instead of the keymap. Only ever
    /// true on the Search tab.
    pub search_focused: bool,
    /// Ids of the current favorites (drives the star markers and toggling).
    pub fav_ids: StringHashSet,
    /// Where favorites live: the self-hosted server, or the local store.
    pub favs: FavsBackend,
    pub cfg: Config,
    pub source: Source,
    pub cols: u16,
    pub rows: u16,
    pub should_quit: bool,
    pub selected_url: Option<String>,
    pub mode: PreviewMode<F>,
    /// Transient footer message (page-turn feedback, load errors).
    pub status: Option<String>,
    /// Action requested via keypress, executed by the event loop.
    pub pending: Option<Pending>,
}

/// What the picker holds.
#[verifier::ext_equal]
pub struct PickerView<F> {
    pub tab: Tab,
    pub search: GridView,
    pub favorites: GridView,
    pub query: Seq<char>,
    pub search_focused: bool,
    pub fav_ids: Set<Seq<char>>,
    pub favs: FavsBackend,
    pub cfg: Config,
    pub source: Source,
    pub cols: u16,
    pub rows: u16,
    pub should_quit: bool,
    pub selected_url: Option<Seq<char>>,
    pub previews: Option<CacheView<F>>,
    pub status: Option<Seq<char>>,
    pub pending: Option<Pending>,
}

/// The text of an optional string.
pub open spec fn text_view(s: Option<String>) -> Option<Seq<char>> {
    match s {
        Some(t) => Some(t@),
        None => None,
    }
}

/// What the cache of previews holds, if there is one.
pub open spec fn mode_view<F>(m: PreviewMode<F>) -> Option<CacheView<F>> {
    match m {
        PreviewMode::Graphics { cache } => Some(cache@),
        PreviewMode::Fallback => None,
    }
}

impl<F> View for App<F> {
    type V = PickerView<F>;

    open spec fn view(&self) -> PickerView<F> {
        PickerView {
            tab: self.tab,
            search: self.search@,
            favorites: self.favorites@,
            query: self.query@,
            search_focused: self.search_focused,
            fav_ids: self.fav_ids@,
            favs: self.favs,
            cfg: self.cfg,
            source: self.source,
            cols: self.cols,
            rows: self.rows,
            should_quit: self.should_quit,
            selected_url: text_view(self.selected_url),
            previews: mode_view(self.mode),
            status: text_view(self.status),
            pending: self.pending,
        }
    }
}

/// How far half a page of scrolling goes.
pub open spec fn half_page(cols: int, rows: int) -> int {
    capped_product(at_least_one(at_least_one(rows) / 2), at_least_one(cols))
}

impl<F> PickerView<F> {
    /// The grid of the active tab.
    pub open spec fn grid(self) -> GridView {
        match self.tab {
            Tab::Search => self.search,
            Tab::Favorites => self.favorites,
        }
    }

    /// The picker with another grid on the active tab.
    pub open spec fn with_grid(self, g: GridView) -> PickerView<F> {
        match self.tab {
            Tab::Search => PickerView { search: g, ..self },
            Tab::Favorites => PickerView { favorites: g, ..self },
        }
    }

    /// The picker with the cursor of the active grid at `selected`, in view.
    pub open spec fn moved(self, selected: int) -> PickerView<F> {
        self.with_grid(self.grid().moved(selected, self.cols as int, self.rows as int))
    }

    /// The picker with a message in the footer.
    pub open spec fn told(self, message: Seq<char>) -> PickerView<F> {
        PickerView { status: Some(message), ..self }
    }

    /// The picker with work queued.
    pub open spec fn queued(self, work: Pending) -> PickerView<F> {
        PickerView { pending: Some(work), ..self }
    }

    /// The picker with work queued on the item at the cursor, if there is one.
    pub open spec fn queued_on_item(self, work: Pending) -> PickerView<F> {
        if self.grid().active() is Some {
            self.queued(work)
        } else {
            self
        }
    }

    /// The picker about to close.
    pub open spec fn closing(self) -> PickerView<F> {
        PickerView { should_quit: true, ..self }
    }

    /// The picker once the item at the cursor was chosen, if there is one.
    pub open spec fn chosen(self) -> PickerView<F> {
        if self.grid().active() is Some {
            PickerView { selected_url: Some(self.grid().active()->0.url@), ..self.closing() }
        } else {
            self
        }
    }

    /// The picker on the other tab.
    pub open spec fn switched(self) -> PickerView<F> {
        PickerView {
            tab: other_tab(self.tab),
            search_focused: false,
            pending: Some(Pending::TabLoad),
            ..self
        }
    }

    /// The picker once half a page was scrolled, on or back; the cursor stops at
    /// the last and at the first item.
    pub open spec fn scrolled_half(self, dir: PageDir) -> PickerView<F> {
        let g = self.grid();
        let len = g.items.len() as int;
        let jump = half_page(self.cols as int, self.rows as int);
        if len == 0 {
            self
        } else {
            match dir {
                PageDir::Next => self.moved(
                    if g.selected + jump >= len {
                        len - 1
                    } else {
                        g.selected + jump
                    },
                ),
                PageDir::Prev => self.moved(
                    if g.selected < jump {
                        0
                    } else {
                        g.selected - jump
                    },
                ),
            }
        }
    }

    /// The picker once d or u was pressed: a page turn if there is a pager, half
    /// a page of scrolling if not.
    pub open spec fn paged(self, dir: PageDir) -> PickerView<F> {
        if self.grid().pager is Some {
            self.queued(Pending::Page(dir))
        } else {
            self.scrolled_half(dir)
        }
    }

    /// What a key does to the grid.
    pub open spec fn grid_key(self, key: KeyEvent) -> PickerView<F> {
        let g = self.grid();
        let len = g.items.len() as int;
        let cols = at_least_one(self.cols as int);
        match key.code {
            KeyCode::Tab => self.switched(),
            KeyCode::Esc => self.closing(),
            KeyCode::Enter => self.chosen(),
            KeyCode::Down => self.moved(below(g.selected, cols, len)),
            KeyCode::Up => self.moved(above(g.selected, cols, len)),
            KeyCode::Left => self.moved(left_of(g.selected, len)),
            KeyCode::Right => self.moved(right_of(g.selected, len)),
            KeyCode::Home => self.moved(0),
            KeyCode::End => self.moved(
                if len > 0 {
                    len - 1
                } else {
                    0
                },
            ),
            KeyCode::Char(c) => if c == 'q' {
                self.closing()
            } else if c == '\n' || c == ' ' {
                self.chosen()
            } else if c == 'j' {
                self.moved(below(g.selected, cols, len))
            } else if c == 'k' {
                self.moved(above(g.selected, cols, len))
            } else if c == 'h' {
                self.moved(left_of(g.selected, len))
            } else if c == 'l' {
                self.moved(right_of(g.selected, len))
            } else if c == 'd' {
                self.paged(PageDir::Next)
            } else if c == 'u' {
                self.paged(PageDir::Prev)
            } else if c == '/' && self.tab == Tab::Search {
                PickerView { search_focused: true, ..self }
            } else if c == 'v' {
                self.queued_on_item(Pending::Toggle)
            } else if c == 'c' {
                self.queued_on_item(Pending::CopyGif)
            } else if c == 'y' {
                self.queued_on_item(Pending::CopyUrl)
            } else {
                self
            },
            _ => self,
        }
    }

    /// What a key does to the search box.
    pub open spec fn search_key(self, key: KeyEvent) -> PickerView<F> {
        match key.code {
            KeyCode::Enter => {
                let blurred = PickerView { search_focused: false, ..self };
                if is_blank(self.query) {
                    blurred.told("type a query, then Enter"@)
                } else {
                    blurred.queued(Pending::Search)
                }
            },
            KeyCode::Backspace => PickerView {
                query: if self.query.len() > 0 {
                    self.query.drop_last()
                } else {
                    self.query
                },
                ..self
            },
            KeyCode::Tab => self.switched(),
            KeyCode::Esc => if self.query.len() == 0 {
                PickerView { search_focused: false, ..self }
            } else {
                PickerView { query: Seq::empty(), ..self }
            },
            KeyCode::Char(c) => if c == 'u' && key.modifiers.control {
                PickerView { query: Seq::empty(), ..self }
            } else if !key.modifiers.control && !key.modifiers.alt {
                PickerView { query: self.query.push(c), ..self }
            } else {
                self
            },
            _ => self,
        }
    }

    /// What a key does: Ctrl+C quits; other keys go to the search box if it is
    /// focused, and to the grid if not.
    pub open spec fn key(self, key: KeyEvent) -> PickerView<F> {
        if key.code == KeyCode::Char('c') && key.modifiers.control {
            self.closing()
        } else if self.search_focused {
            self.search_key(key)
        } else {
            self.grid_key(key)
        }
    }

    /// The picker with no preview cached.
    pub open spec fn without_previews(self) -> PickerView<F> {
        PickerView {
            previews: match self.previews {
                Some(cache) => Some(cache.cleared()),
                None => None,
            },
            ..self
        }
    }

    /// The picker with a new page in the active grid: the cursor at the top
    /// left, no message, and no preview of the replaced page.
    pub open spec fn with_page(self, items: Seq<UrlItem>) -> PickerView<F> {
        PickerView {
            status: None,
            ..self.with_grid(self.grid().replaced(items)).without_previews()
        }
    }
}

impl<F> App<F> {
    /// The cache of previews, if there is one, is well formed.
    pub open spec fn wf(&self) -> bool {
        self.mode is Graphics ==> self.mode->cache.wf()
    }

    /// A picker with nothing in it, on the Search tab and without previews.
    pub fn new(cfg: Config, source: Source, favs: FavsBackend) -> (r: App<F>)
        ensures
            r.wf(),
            r@ == (PickerView::<F> {
                tab: Tab::Search,
                search: empty_grid(),
                favorites: empty_grid(),
                query: Seq::empty(),
                search_focused: false,
                fav_ids: Set::empty(),
                favs,
                cfg,
                source,
                cols: 1,
                rows: 1,
                should_quit: false,
                selected_url: None,
                previews: None,
                status: None,
                pending: None,
            }),
    {
        App {
            tab: Tab::Search,
            search: GridState::default(),
            favorites: GridState::default(),
            query: String::new(),
            search_focused: false,
            fav_ids: StringHashSet::new(),
            favs,
            cfg,
            source,
            cols: 1,
            rows: 1,
            should_quit: false,
            selected_url: None,
            mode: PreviewMode::Fallback,
            status: None,
            pending: None,
        }
    }

    /// Grid state of the active tab.
    pub fn grid(&self) -> (r: &GridState)
        ensures
            r@ == self@.grid(),
            *r == (match self.tab {
                Tab::Search => self.search,
                Tab::Favorites => self.favorites,
            }),
    {
        match self.tab {
            Tab::Search => &self.search,
            Tab::Favorites => &self.favorites,
        }
    }

    /// The item at the cursor of the active tab.
    pub fn active_item(&self) -> (r: Option<&UrlItem>)
        ensures
            match r {
                Some(item) => self@.grid().active() == Some(*item),
                None => self@.grid().active() is None,
            },
    {
        let g: &GridState = self.grid();
        if g.selected < g.items.len() {
            Some(&g.items[g.selected])
        } else {
            None
        }
    }

    fn move_to(&mut self, selected: usize)
        requires
            old(self).wf(),
        ensures
            final(self).wf(),
            final(self)@ == old(self)@.moved(selected as int),
    {
        match self.tab {
            Tab::Search => self.search.move_to(selected, self.cols, self.rows),
            Tab::Favorites => self.favorites.move_to(selected, self.cols, self.rows),
        }
    }

    /// Keeps the cursor inside the visible window while staying row-aligned.
    pub fn ensure_visible(&mut self)
        requires
            old(self).wf(),
        ensures
            final(self).wf(),
            final(self)@ == old(self)@.moved(old(self)@.grid().selected),
    {
        let selected: usize = self.grid().selected;
        self.move_to(selected);
    }

    fn choose_item(&mut self)
        requires
            old(self).wf(),
        ensures
            final(self).wf(),
            final(self)@ == old(self)@.chosen(),
    {
        let url: Option<String> = match self.active_item() {
            Some(item) => Some(item.url.clone()),
            None => None,
        };
        if url.is_some() {
            self.selected_url = url;
            self.should_quit = true;
        }
    }

    fn switch_tab(&mut self)
        requires
            old(self).wf(),
        ensures
            final(self).wf(),
            final(self)@ == old(self)@.switched(),
    {
        self.tab = self.tab.toggle();
        self.search_focused = false;
        self.pending = Some(Pending::TabLoad);
    }

    fn queue_on_item(&mut self, work: Pending)
        requires
            old(self).wf(),
        ensures
            final(self).wf(),
            final(self)@ == old(self)@.queued_on_item(work),
    {
        if self.active_item().is_some() {
            self.pending = Some(work);
        }
    }

    fn half_page_jump(&self) -> (r: usize)
        ensures
            r == half_page(self.cols as int, self.rows as int),
    {
        let rows: u16 = if self.rows < 1 {
            1
        } else {
            self.rows
        };
        let half: u16 = if rows / 2 < 1 {
            1
        } else {
            rows / 2
        };
        let cols: u16 = if self.cols < 1 {
            1
        } else {
            self.cols
        };
        saturating_product(half as usize, cols as usize)
    }

    fn half_page_down(&mut self)
        requires
            old(self).wf(),
        ensures
            final(self).wf(),
            final(self)@ == old(self)@.scrolled_half(PageDir::Next),
    {
        let len: usize = self.grid().items.len();
        if len == 0 {
            return;
        }
        let jump: usize = self.half_page_jump();
        let cur: usize = self.grid().selected;
        let to: usize = if cur >= len || jump >= len - cur {
            len - 1
        } else {
            cur + jump
        };
        self.move_to(to);
    }

    fn half_page_up(&mut self)
        requires
            old(self).wf(),
        ensures
            final(self).wf(),
            final(self)@ == old(self)@.scrolled_half(PageDir::Prev),
    {
        let len: usize = self.grid().items.len();
        if len == 0 {
            return;
        }
        let jump: usize = self.half_page_jump();
        let cur: usize = self.grid().selected;
        let to: usize = if cur < jump {
            0
        } else {
            cur - jump
        };
        self.move_to(to);
    }

    fn turn_page_key(&mut self, dir: PageDir)
        requires
            old(self).wf(),
        ensures
            final(self).wf(),
            final(self)@ == old(self)@.paged(dir),
    {
        if self.grid().pager.is_some() {
            self.pending = Some(Pending::Page(dir));
        } else {
            match dir {
                PageDir::Next => self.half_page_down(),
                PageDir::Prev => self.half_page_up(),
            }
        }
    }

    /// Takes a key press.
    pub fn handle_key(&mut self, key: KeyEvent)
        requires
            old(self).wf(),
        ensures
            final(self).wf(),
            final(self)@ == old(self)@.key(key),
    {
        if key.code == KeyCode::Char('c') && key.modifiers.control {
            self.should_quit = true;
            return;
        }
        if self.search_focused {
            self.handle_search_key(key);
            return;
        }
        let len: usize = self.grid().items.len();
        let cur: usize = self.grid().selected;
        let cols: usize = if self.cols < 1 {
            1
        } else {
            self.cols as usize
        };
        match key.code {
            KeyCode::Tab => self.switch_tab(),
            KeyCode::Char('q') | KeyCode::Esc => {
                self.should_quit = true;
            },
            KeyCode::Enter | KeyCode::Char('\n') | KeyCode::Char(' ') => self.choose_item(),
            KeyCode::Char('j') | KeyCode::Down => self.move_to(nav_down(cur, cols, len)),
            KeyCode::Char('k') | KeyCode::Up => self.move_to(nav_up(cur, cols, len)),
            KeyCode::Char('h') | KeyCode::Left => self.move_to(nav_left(cur, len)),
            KeyCode::Char('l') | KeyCode::Right => self.move_to(nav_right(cur, len)),
            KeyCode::Char('d') => self.turn_page_key(PageDir::Next),
            KeyCode::Char('u') => self.turn_page_key(PageDir::Prev),
            KeyCode::Char('/') => {
                if self.tab == Tab::Search {
                    self.search_focused = true;
                }
            },
            KeyCode::Char('v') => self.queue_on_item(Pending::Toggle),
            KeyCode::Char('c') => self.queue_on_item(Pending::CopyGif),
            KeyCode::Char('y') => self.queue_on_item(Pending::CopyUrl),
            KeyCode::Home => self.move_to(0),
            KeyCode::End => self.move_to(
                if len > 0 {
                    len - 1
                } else {
                    0
                },
            ),
            _ => {},
        }
    }

    /// Keys while the search box is focused: printable characters edit the
    /// query, Enter runs the search, Ctrl+U clears, Esc clears and then blurs,
    /// Tab switches tabs. Nothing reaches the grid.
    pub fn handle_search_key(&mut self, key: KeyEvent)
        requires
            old(self).wf(),
        ensures
            final(self).wf(),
            final(self)@ == old(self)@.search_key(key),
    {
        match key.code {
            KeyCode::Enter => {
                self.search_focused = false;
                if blank(self.query.as_str()) {
                    self.status = Some("type a query, then Enter".to_owned());
                } else {
                    self.pending = Some(Pending::Search);
                }
            },
            KeyCode::Backspace => {
                self.query.pop();
            },
            KeyCode::Tab => self.switch_tab(),
            KeyCode::Esc => {
                if self.query.as_str().is_empty() {
                    self.search_focused = false;
                } else {
                    self.query.clear();
                }
            },
            KeyCode::Char(c) => {
                if c == 'u' && key.modifiers.control {
                    self.query.clear();
                } else if !key.modifiers.control && !key.modifiers.alt {
                    self.query.push(c);
                }
            },
            _ => {},
        }
    }

    pub(crate) fn clear_previews(&mut self)
        requires
            old(self).wf(),
        ensures
            final(self).wf(),
            final(self)@ == old(self)@.without_previews(),
    {
        if let PreviewMode::Graphics { cache } = &mut self.mode {
            cache.clear();
        }
    }

    /// Swaps the active grid for a new page of items: resets the cursor to the
    /// top left and drops cached previews of the replaced page.
    pub fn apply_page(&mut self, items: Vec<UrlItem>)
        requires
            old(self).wf(),
        ensures
            final(self).wf(),
            final(self)@ == old(self)@.with_page(items@),
    {
        match self.tab {
            Tab::Search => self.search.replace(items),
            Tab::Favorites => self.favorites.replace(items),
        }
        self.status = None;
        self.clear_previews();
    }
}

} // verus!
