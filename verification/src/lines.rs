//! The texts of the picker: tabs, search box, cells and footer.

use vstd::prelude::*;
use vstd::string::*;

use crate::app::{App, GridState, PickerView, PreviewMode, Tab};
use crate::grid::{page_label, page_text, PREVIEW_HEIGHT};
use crate::item::UrlItem;
use crate::preview::{preview_stats, tally};
use crate::text::{
    blank, decimal, from_chars, is_blank, push_decimal, push_zero_padded, to_chars, trim, trimmed,
    zero_padded,
};

verus! {

/// How a piece of text looks.
#[derive(Debug, Clone, Copy, PartialEq, Eq, Structural)]
pub enum Look {
    /// As text does.
    Plain,
    /// Less than other text.
    Dim,
    /// In the color of what is active.
    Colored,
    /// In the color of what is active, and bold.
    Active,
}

/// A piece of text and how it looks.
#[derive(Debug)]
pub struct Piece {
    pub text: String,
    pub look: Look,
}

/// What pieces of text hold.
pub open spec fn pieces(p: Seq<Piece>) -> Seq<(Seq<char>, Look)> {
    p.map_values(|x: Piece| (x.text@, x.look))
}

fn push_piece(out: &mut Vec<Piece>, text: &str, look: Look)
    ensures
        pieces(final(out)@) == pieces(old(out)@).push((text@, look)),
{
    out.push(Piece { text: text.to_owned(), look });
    assert(pieces(out@) == pieces(old(out)@).push((text@, look)));
}

/// A text cut to a width: as it is if it fits, or else its beginning and an
/// ellipsis.
pub open spec fn cut(s: Seq<char>, width: int) -> Seq<char> {
    if s.len() <= width {
        s
    } else {
        s.take(
            if width > 0 {
                width - 1
            } else {
                0
            },
        ).push('…')
    }
}

/// Cuts a text to a width.
pub fn truncate(s: &str, width: u16) -> (r: String)
    ensures
        r@ == cut(s@, width as int),
{
    let chars: Vec<char> = to_chars(s);
    let w: usize = width as usize;
    if chars.len() <= w {
        return s.to_owned();
    }
    let keep: usize = if w > 0 {
        w - 1
    } else {
        0
    };
    let mut out: String = from_chars(&chars, 0, keep);
    out.push('…');
    assert(out@ == cut(s@, width as int));
    out
}

/// A text that was cut is as wide as it may be, unless there is no room at all.
pub proof fn lemma_cut_fits(s: Seq<char>, width: int)
    requires
        0 < width,
    ensures
        cut(s, width).len() <= width,
        s.len() > width ==> cut(s, width).len() == width,
{
}

/// The header line with the tabs.
pub open spec fn tab_pieces(tab: Tab) -> Seq<(Seq<char>, Look)> {
    seq![
        (" gifdeck · "@, Look::Dim),
        (
            "[Search]"@,
            if tab == Tab::Search {
                Look::Active
            } else {
                Look::Dim
            },
        ),
        (" "@, Look::Dim),
        (
            "[Favorites]"@,
            if tab == Tab::Favorites {
                Look::Active
            } else {
                Look::Dim
            },
        ),
        (" · q quit"@, Look::Dim),
    ]
}

/// A note on how many there are, if there is a count and it is not zero.
pub open spec fn count_note(n: int, what: Seq<char>) -> Seq<char> {
    if n > 0 {
        " · "@ + decimal(n as nat) + what
    } else {
        Seq::empty()
    }
}

/// The mark of a favorite, or of what is none.
pub open spec fn star(favorite: bool) -> Seq<char> {
    if favorite {
        "★"@
    } else {
        "☆"@
    }
}

impl<F> PickerView<F> {
    /// The search box.
    pub open spec fn search_pieces(self) -> Seq<(Seq<char>, Look)> {
        if self.tab == Tab::Search && self.search_focused {
            seq![(" > "@, Look::Plain), (self.query, Look::Colored), ("█"@, Look::Active)]
        } else if self.tab == Tab::Search && self.query.len() == 0 {
            seq![(" > type a query… (/ focus, Enter search)"@, Look::Dim)]
        } else {
            seq![(" > "@, Look::Dim), (self.query, Look::Dim)]
        }
    }

    /// What stands in the place of a grid without items.
    pub open spec fn empty_text(self) -> Seq<char> {
        match self.tab {
            Tab::Search => if is_blank(self.query) {
                "type a query, then Enter — press / to focus the search box\nq quit"@
            } else {
                "no results for '"@ + trimmed(self.query)
                    + "' — press / to edit, Enter to search\nq quit"@
            },
            Tab::Favorites => "no favorites yet — press v on the Search tab to star one\nq quit"@,
        }
    }

    /// The note on the page.
    pub open spec fn page_note(self) -> Seq<char> {
        match self.grid().pager {
            Some(pager) => " · "@ + page_text(self.grid().page, pager.total()),
            None => Seq::empty(),
        }
    }

    /// The note on the previews.
    pub open spec fn preview_note(self) -> Seq<char> {
        match self.previews {
            Some(cache) => {
                let counts = tally(cache.entries);
                " · "@ + decimal(counts.0 as nat) + " loaded"@ + count_note(
                    counts.1,
                    " loading"@,
                ) + count_note(counts.2, " failed"@)
            },
            None => " · no graphics protocol — title-only mode"@,
        }
    }

    /// The first line of the footer.
    pub open spec fn nav_text(self) -> Seq<char> {
        decimal(self.grid().items.len()) + " items"@ + self.page_note()
            + " · ←↑↓→ / hjkl move · u/d page · Enter/Space pick · q quit"@ + self.preview_note()
    }

    /// The second line of the footer.
    pub open spec fn action_text(self) -> Seq<char> {
        let keys = "Tab switch · c copy gif · y copy url · v favorite"@;
        let noted = if self.favs is Local {
            keys + " · local favorites"@
        } else {
            keys
        };
        match self.status {
            Some(message) => noted + " — "@ + message,
            None => noted,
        }
    }

    /// The headline of the cell that shows the item at `idx`: star, number and
    /// title.
    pub open spec fn headline_text(self, idx: int) -> Seq<char> {
        let item = self.grid().items[idx];
        let numbered = star(self.fav_ids.contains(item.id@)) + " "@ + zero_padded(
            (idx + 1) as nat,
            4,
        );
        if is_blank(item.title@) {
            numbered
        } else {
            numbered + " · "@ + trimmed(item.title@)
        }
    }
}

fn push_count_note(out: &mut String, n: usize, what: &str)
    ensures
        final(out)@ == old(out)@ + count_note(n as int, what@),
{
    if n > 0 {
        out.append(" · ");
        push_decimal(out, n as u128);
        out.append(what);
        assert(out@ == old(out)@ + count_note(n as int, what@));
    } else {
        assert(out@ == old(out)@ + count_note(n as int, what@));
    }
}

/// The height of the image in a cell with the given height inside its border: a
/// line is left for the title.
pub fn image_height(inner_height: u16) -> (r: u16)
    ensures
        r == (if inner_height == 0 {
            0
        } else if inner_height - 1 < PREVIEW_HEIGHT {
            inner_height - 1
        } else {
            PREVIEW_HEIGHT as int
        }),
{
    let rest: u16 = if inner_height > 0 {
        inner_height - 1
    } else {
        0
    };
    if rest < PREVIEW_HEIGHT {
        rest
    } else {
        PREVIEW_HEIGHT
    }
}

impl<F> App<F> {
    /// The header line with the tabs.
    pub fn tabs_line(&self) -> (r: Vec<Piece>)
        ensures
            pieces(r@) == tab_pieces(self@.tab),
    {
        let mut out: Vec<Piece> = Vec::new();
        assert(pieces(out@) == Seq::<(Seq<char>, Look)>::empty());
        push_piece(&mut out, " gifdeck · ", Look::Dim);
        push_piece(
            &mut out,
            "[Search]",
            if self.tab == Tab::Search {
                Look::Active
            } else {
                Look::Dim
            },
        );
        push_piece(&mut out, " ", Look::Dim);
        push_piece(
            &mut out,
            "[Favorites]",
            if self.tab == Tab::Favorites {
                Look::Active
            } else {
                Look::Dim
            },
        );
        push_piece(&mut out, " · q quit", Look::Dim);
        assert(pieces(out@) == tab_pieces(self@.tab));
        out
    }

    /// The search box.
    pub fn search_line(&self) -> (r: Vec<Piece>)
        ensures
            pieces(r@) == self@.search_pieces(),
    {
        let mut out: Vec<Piece> = Vec::new();
        assert(pieces(out@) == Seq::<(Seq<char>, Look)>::empty());
        if self.tab == Tab::Search && self.search_focused {
            push_piece(&mut out, " > ", Look::Plain);
            push_piece(&mut out, self.query.as_str(), Look::Colored);
            push_piece(&mut out, "█", Look::Active);
        } else if self.tab == Tab::Search && self.query.as_str().is_empty() {
            push_piece(&mut out, " > type a query… (/ focus, Enter search)", Look::Dim);
        } else {
            push_piece(&mut out, " > ", Look::Dim);
            push_piece(&mut out, self.query.as_str(), Look::Dim);
        }
        assert(pieces(out@) == self@.search_pieces());
        out
    }

    /// What stands in the place of a grid without items.
    pub fn empty_message(&self) -> (r: String)
        ensures
            r@ == self@.empty_text(),
    {
        match self.tab {
            Tab::Search => if blank(self.query.as_str()) {
                "type a query, then Enter — press / to focus the search box\nq quit".to_owned()
            } else {
                let mut out: String = "no results for '".to_owned();
                out.append(trim(self.query.as_str()).as_str());
                out.append("' — press / to edit, Enter to search\nq quit");
                out
            },
            Tab::Favorites =>
            "no favorites yet — press v on the Search tab to star one\nq quit".to_owned(),
        }
    }

    /// The first line of the footer: how many items there are, the page, the
    /// keys, and how the previews stand.
    pub fn nav_line(&self) -> (r: String)
        requires
            self.wf(),
            self@.grid().page < usize::MAX,
        ensures
            r@ == self@.nav_text(),
    {
        let g: &GridState = self.grid();
        let mut out: String = String::new();
        push_decimal(&mut out, g.items.len() as u128);
        out.append(" items");
        assert(out@ == decimal(g.items@.len()) + " items"@);
        if let Some(pager) = &g.pager {
            out.append(" · ");
            out.append(page_label(g.page, pager.total()).as_str());
        }
        assert(out@ == decimal(g.items@.len()) + " items"@ + self@.page_note());
        out.append(" · ←↑↓→ / hjkl move · u/d page · Enter/Space pick · q quit");
        let ghost so_far = out@;
        match &self.mode {
            PreviewMode::Graphics { cache } => {
                let (loaded, requested, failed) = preview_stats(cache);
                out.append(" · ");
                push_decimal(&mut out, loaded as u128);
                out.append(" loaded");
                push_count_note(&mut out, requested, " loading");
                push_count_note(&mut out, failed, " failed");
            },
            PreviewMode::Fallback => {
                out.append(" · no graphics protocol — title-only mode");
            },
        }
        assert(out@ == so_far + self@.preview_note());
        out
    }

    /// The second line of the footer: the other keys, where favorites live, and
    /// the current message.
    pub fn action_line(&self) -> (r: String)
        ensures
            r@ == self@.action_text(),
    {
        let mut out: String = "Tab switch · c copy gif · y copy url · v favorite".to_owned();
        if self.favs.is_local() {
            out.append(" · local favorites");
        }
        if let Some(message) = &self.status {
            out.append(" — ");
            out.append(message.as_str());
        }
        out
    }

    /// The headline of the cell that shows the item at `idx`.
    pub fn headline(&self, idx: usize) -> (r: String)
        requires
            idx < self@.grid().items.len(),
        ensures
            r@ == self@.headline_text(idx as int),
    {
        let item: &UrlItem = &self.grid().items[idx];
        let mut out: String = if self.fav_ids.contains(item.id.as_str()) {
            "★".to_owned()
        } else {
            "☆".to_owned()
        };
        out.append(" ");
        push_zero_padded(&mut out, idx as u128 + 1, 4);
        if !blank(item.title.as_str()) {
            out.append(" · ");
            out.append(trim(item.title.as_str()).as_str());
        }
        out
    }

    /// The title line of the cell that shows the item at `idx`, cut to a width.
    pub fn title_line(&self, idx: usize, width: u16) -> (r: String)
        requires
            idx < self@.grid().items.len(),
        ensures
            r@ == cut(trimmed(self@.grid().items[idx as int].title@), width as int),
    {
        let title: String = trim(self.grid().items[idx].title.as_str());
        truncate(title.as_str(), width)
    }

    /// Whether the cell of the item at `idx` is the one at the cursor.
    pub fn is_selected(&self, idx: usize) -> (r: bool)
        ensures
            r == (idx == self@.grid().selected),
    {
        idx == self.grid().selected
    }
}

} // verus!
