//! What the texts of the picker say.

use vstd::prelude::*;

use crate::app::{App, Tab};
use crate::laws::keys::shown;
use crate::lines::{pieces, Look, Piece};
use crate::pager::Pager;
use crate::text::{decimal, digits_value, is_digits, is_white_space};

verus! {

/// A text that fits stays as it is; one that does not is cut to the width, with an
/// ellipsis in the last place.
pub proof fn lemma_truncated(s: &str, width: u16, r: String)
    requires
        call_ensures(crate::lines::truncate, (s, width), r),
    ensures
        s@.len() <= width ==> r@ == s@,
        s@.len() > width > 0 ==> {
            &&& r@.len() == width
            &&& r@.take(width - 1) == s@.take(width - 1)
            &&& r@.last() == '…'
        },
        s@.len() > 0 && width == 0 ==> r@ == seq!['…'],
{
    if s@.len() > width > 0 {
        let head = s@.take(width - 1);
        assert(head.push('…').take(width - 1) == head);
    }
    if s@.len() > 0 && width == 0 {
        assert(s@.take(0).push('…') == seq!['…']);
    }
}

/// Whether a line is made of these pieces.
pub open spec fn is_line(line: Seq<Piece>, given: Seq<(Seq<char>, Look)>) -> bool {
    &&& line.len() == given.len()
    &&& forall|i: int|
        0 <= i < given.len() ==> (#[trigger] line[i]).text@ == given[i].0 && line[i].look
            == given[i].1
}

proof fn lemma_line(line: Seq<Piece>, given: Seq<(Seq<char>, Look)>)
    requires
        pieces(line) == given,
    ensures
        is_line(line, given),
{
    assert forall|i: int| 0 <= i < given.len() implies (#[trigger] line[i]).text@ == given[i].0
        && line[i].look == given[i].1 by {
        assert(pieces(line)[i] == (line[i].text@, line[i].look));
    }
}

/// The header names both tabs, and the active one stands out.
pub proof fn lemma_tabs_line<F>(app: App<F>, r: Vec<Piece>)
    requires
        call_ensures(App::<F>::tabs_line, (&app,), r),
    ensures
        r@.len() == 5,
        r@[0].text@ == " gifdeck · "@ && r@[0].look == Look::Dim,
        r@[1].text@ == "[Search]"@,
        r@[2].text@ == " "@ && r@[2].look == Look::Dim,
        r@[3].text@ == "[Favorites]"@,
        r@[4].text@ == " · q quit"@ && r@[4].look == Look::Dim,
        app.tab == Tab::Search ==> r@[1].look == Look::Active && r@[3].look == Look::Dim,
        app.tab == Tab::Favorites ==> r@[1].look == Look::Dim && r@[3].look == Look::Active,
{
    lemma_line(r@, crate::lines::tab_pieces(app.tab));
}

/// The search box shows the query: with a cursor while it is typed, dimmed when it is
/// not. With nothing typed on the Search tab it says what to do.
pub proof fn lemma_search_line<F>(app: App<F>, r: Vec<Piece>)
    requires
        call_ensures(App::<F>::search_line, (&app,), r),
    ensures
        app.tab == Tab::Search && app.search_focused ==> is_line(
            r@,
            seq![(" > "@, Look::Plain), (app.query@, Look::Colored), ("█"@, Look::Active)],
        ),
        app.tab == Tab::Search && !app.search_focused && app.query@.len() == 0 ==> is_line(
            r@,
            seq![(" > type a query… (/ focus, Enter search)"@, Look::Dim)],
        ),
        app.tab == Tab::Favorites || (!app.search_focused && app.query@.len() > 0) ==> is_line(
            r@,
            seq![(" > "@, Look::Dim), (app.query@, Look::Dim)],
        ),
{
    lemma_line(r@, app@.search_pieces());
}

/// A grid without items says why: no query yet, no results for it, or no favorites.
pub proof fn lemma_empty_message<F>(app: App<F>, r: String, query: &str, bare: String)
    requires
        call_ensures(App::<F>::empty_message, (&app,), r),
        query@ == app.query@,
        call_ensures(crate::text::trim, (query,), bare),
    ensures
        app.tab == Tab::Search && (forall|i: int|
            0 <= i < app.query@.len() ==> is_white_space(app.query@[i])) ==> r@
            == "type a query, then Enter — press / to focus the search box\nq quit"@,
        app.tab == Tab::Search && (exists|i: int|
            0 <= i < app.query@.len() && !is_white_space(app.query@[i])) ==> r@
            == "no results for '"@ + bare@ + "' — press / to edit, Enter to search\nq quit"@,
        app.tab == Tab::Favorites ==> r@
            == "no favorites yet — press v on the Search tab to star one\nq quit"@,
{
}

/// A count and what it counts, if there are any.
pub open spec fn noted(n: usize, what: Seq<char>) -> Seq<char> {
    if n == 0 {
        Seq::empty()
    } else {
        " · "@ + decimal(n as nat) + what
    }
}

/// The first line of the footer counts the items, tells the page if there is a pager,
/// names the keys, and says how the previews stand.
pub proof fn lemma_nav_line<F>(
    app: App<F>,
    r: String,
    total: Option<usize>,
    label: String,
    stats: (usize, usize, usize),
)
    requires
        call_ensures(App::<F>::nav_line, (&app,), r),
        shown(app).pager is Some ==> call_ensures(Pager::total, (&shown(app).pager->0,), total),
        call_ensures(crate::grid::page_label, (shown(app).page, total), label),
        app.mode is Graphics ==> call_ensures(
            crate::preview::preview_stats::<F>,
            (&app.mode->cache,),
            stats,
        ),
    ensures
        ({
            let page = if shown(app).pager is Some {
                " · "@ + label@
            } else {
                Seq::empty()
            };
            let previews = if app.mode is Graphics {
                " · "@ + decimal(stats.0 as nat) + " loaded"@ + noted(stats.1, " loading"@) + noted(
                    stats.2,
                    " failed"@,
                )
            } else {
                " · no graphics protocol — title-only mode"@
            };
            r@ == decimal(shown(app).items@.len()) + " items"@ + page
                + " · ←↑↓→ / hjkl move · u/d page · Enter/Space pick · q quit"@ + previews
        }),
{
}

/// The second line of the footer names the other keys, says if favorites are local,
/// and ends with the current message.
pub proof fn lemma_action_line<F>(app: App<F>, r: String)
    requires
        call_ensures(App::<F>::action_line, (&app,), r),
    ensures
        ({
            let keys = "Tab switch · c copy gif · y copy url · v favorite"@;
            let told = if app.status is Some {
                " — "@ + app.status->0@
            } else {
                Seq::empty()
            };
            &&& app.favs is Server ==> r@ == keys + told
            &&& app.favs is Local ==> r@ == keys + " · local favorites"@ + told
        }),
{
    let keys = "Tab switch · c copy gif · y copy url · v favorite"@;
    if app.status is Some {
        let told = " — "@ + app.status->0@;
        assert(keys + " — "@ + app.status->0@ == keys + told);
        assert(keys + " · local favorites"@ + " — "@ + app.status->0@ == keys
            + " · local favorites"@ + told);
    } else {
        assert(keys + Seq::<char>::empty() == keys);
        assert(keys + " · local favorites"@ + Seq::<char>::empty() == keys
            + " · local favorites"@);
    }
}

/// The headline of a cell starts with a full star for a favorite and an empty one for
/// what is none.
pub proof fn lemma_headline_star<F>(app: App<F>, idx: usize, r: String)
    requires
        call_ensures(App::<F>::headline, (&app, idx), r),
        idx < shown(app).items@.len(),
    ensures
        r@.len() > 2,
        app.fav_ids@.contains(shown(app).items@[idx as int].id@) ==> r@[0] == '★',
        !app.fav_ids@.contains(shown(app).items@[idx as int].id@) ==> r@[0] == '☆',
        r@[1] == ' ',
{
    reveal_strlit("★");
    reveal_strlit("☆");
    reveal_strlit(" ");
    crate::text::lemma_decimal_reads_back((idx + 1) as nat);
}

/// After the star comes the number of the item, counted from one on, in four digits at
/// least, and after it the title, trimmed, if there is one.
pub proof fn lemma_headline_text<F>(
    app: App<F>,
    idx: usize,
    r: String,
    number: &mut String,
    given: &str,
    bare: String,
)
    requires
        call_ensures(App::<F>::headline, (&app, idx), r),
        idx < shown(app).items@.len(),
        old(number)@.len() == 0,
        call_ensures(crate::text::push_zero_padded, (number, (idx + 1) as u128, 4), ()),
        given@ == shown(app).items@[idx as int].title@,
        call_ensures(crate::text::trim, (given,), bare),
    ensures
        bare@.len() == 0 ==> r@.skip(2) == final(number)@,
        bare@.len() > 0 ==> r@.skip(2) == final(number)@ + " · "@ + bare@,
        final(number)@.len() >= 4,
        is_digits(final(number)@),
        digits_value(final(number)@) == idx + 1,
{
    reveal_strlit("★");
    reveal_strlit("☆");
    reveal_strlit(" ");
    crate::laws::text::lemma_filled_up(number, (idx + 1) as u128, 4);
    let z = crate::text::zero_padded((idx + 1) as nat, 4);
    assert(old(number)@ == Seq::<char>::empty());
    assert(old(number)@ + z == z);
    assert(final(number)@.skip(0) == final(number)@);
    crate::text::lemma_trimmed_empty(given@);
    let s = crate::lines::star(app.fav_ids@.contains(shown(app).items@[idx as int].id@));
    assert((s + " "@ + z).skip(2) == z);
    assert((s + " "@ + z + " · "@ + bare@).skip(2) == z + " · "@ + bare@);
}

/// The title line of a cell is the title, trimmed and cut to the width.
pub proof fn lemma_title_line<F>(
    app: App<F>,
    idx: usize,
    width: u16,
    r: String,
    given: &str,
    bare: String,
    text: &str,
    cut: String,
)
    requires
        call_ensures(App::<F>::title_line, (&app, idx, width), r),
        idx < shown(app).items@.len(),
        given@ == shown(app).items@[idx as int].title@,
        call_ensures(crate::text::trim, (given,), bare),
        text@ == bare@,
        call_ensures(crate::lines::truncate, (text, width), cut),
    ensures
        r@ == cut@,
{
}

/// A cell is selected if the cursor is on it.
pub proof fn lemma_selected<F>(app: App<F>, idx: usize, r: bool)
    requires
        call_ensures(App::<F>::is_selected, (&app, idx), r),
    ensures
        r <==> idx == shown(app).selected,
{
}

/// An image leaves a line for the title, and is four lines high at most.
pub proof fn lemma_image_height(height: u16, r: u16)
    requires
        call_ensures(crate::lines::image_height, (height,), r),
    ensures
        height == 0 ==> r == 0,
        1 <= height <= 5 ==> r == height - 1,
        height > 5 ==> r == 4,
{
}

} // verus!
