use vstd::prelude::*;

use crate::app::details_view;
use crate::event::{key_step, key_safe, Effect, KeyCode, KeyEvent, KeyEventKind};
use crate::model::{self, AppView, PackageView};
use crate::pacman::{installed_packages, is_first_space, parse_line};
use crate::tab::{next_tab, prev_tab, tab_at, tab_position, Tab};
use crate::text::{ascii_lower_char, contains_seq, join, lines_of, lowercase, split_state, strip_cr};
use crate::text::{decimal, pad_right};
use crate::ui::{details_text_of, max_name_bytes, name_column_width_of};
use vstd::utf8::{encode_utf8, is_ascii_chars};

verus! {

/// Moving one tab right and then one tab left, or the other way round, comes back to
/// the tab one started on.
pub proof fn lemma_tab_next_prev_inverse(t: Tab)
    ensures
        prev_tab(next_tab(t)) == t,
        next_tab(prev_tab(t)) == t,
{
}

/// Three moves to the right go round the tab bar once.
pub proof fn lemma_tab_cycle(t: Tab)
    ensures
        next_tab(next_tab(next_tab(t))) == t,
        prev_tab(prev_tab(prev_tab(t))) == t,
        next_tab(t) != t,
        prev_tab(t) != t,
{
}

/// Each tab stands at its own position, one of 0, 1 and 2.
pub proof fn lemma_tab_positions(t: Tab)
    ensures
        0 <= tab_position(t) < 3,
        tab_at(tab_position(t)) == t,
{
}

/// At start the selection is on the first row.
pub proof fn lemma_initial_selection_ok(loaded: Result<Seq<PackageView>, Seq<char>>)
    ensures
        model::selection_ok(model::initial(loaded)),
        model::initial(loaded).selected_index == 0,
{
}

/// The visible list never has more packages than the installed list.
pub proof fn lemma_visible_len(a: AppView)
    ensures
        model::visible(a).len() <= a.packages.len(),
        model::list_len(a) <= a.packages.len(),
{
    if a.search_query.len() > 0 {
        a.packages.lemma_filter_len(|p: PackageView| model::name_matches(p.0, a.search_query));
    }
}

/// On a state whose selection points into the list, no key makes the interface index
/// out of the list or count past `usize::MAX`.
pub proof fn lemma_selection_ok_makes_keys_safe(a: AppView, key: KeyEvent)
    requires
        a.packages.len() <= usize::MAX,
        model::selection_ok(a),
    ensures
        key_safe(a, key),
{
    lemma_visible_len(a);
}

/// Every key keeps the selection pointing into the list (or at 0).
pub proof fn lemma_key_step_keeps_selection(a: AppView, key: KeyEvent)
    requires
        model::selection_ok(a),
    ensures
        model::selection_ok(key_step(a, key).0),
{
}

/// The state after moving the selection down `k` times.
pub open spec fn next_item_times(a: AppView, k: nat) -> AppView
    decreases k,
{
    if k == 0 {
        a
    } else {
        model::next_item(next_item_times(a, (k - 1) as nat))
    }
}

proof fn lemma_next_item_times(a: AppView, k: nat)
    requires
        a.packages.len() <= usize::MAX,
        model::list_len(a) > 0,
        model::selection_ok(a),
    ensures
        next_item_times(a, k) == model::select(
            a,
            ((a.selected_index + k) % (model::list_len(a) as int)) as usize,
        ),
    decreases k,
{
    let len = model::list_len(a) as int;
    if k == 0 {
        vstd::arithmetic::div_mod::lemma_small_mod(a.selected_index as nat, len as nat);
    } else {
        lemma_next_item_times(a, (k - 1) as nat);
        lemma_visible_len(a);
        let x = a.selected_index + (k - 1);
        vstd::arithmetic::div_mod::lemma_mod_bound(x, len);
        let p = next_item_times(a, (k - 1) as nat);
        assert(model::list_len(p) == len);
        assert(p.selected_index == x % len);
        vstd::arithmetic::div_mod::lemma_add_mod_noop_right(1, x, len);
        assert(1 + x == a.selected_index + k);
    }
}

/// Moving the selection down as many times as the list has rows comes back to the row
/// one started on.
pub proof fn lemma_next_item_cycles(a: AppView)
    requires
        a.packages.len() <= usize::MAX,
        model::list_len(a) > 0,
        model::selection_ok(a),
    ensures
        next_item_times(a, model::list_len(a)) == a,
{
    let len = model::list_len(a);
    lemma_next_item_times(a, len);
    vstd::arithmetic::div_mod::lemma_add_mod_noop_right(a.selected_index as int, len as int, len as int);
    vstd::arithmetic::div_mod::lemma_mod_self_0(len as int);
    vstd::arithmetic::div_mod::lemma_small_mod(a.selected_index as nat, len as nat);
}

/// Loading the details keeps the selection pointing into the list.
pub proof fn lemma_receive_details_keeps_selection(a: AppView, lines: Seq<Seq<char>>)
    requires
        model::selection_ok(a),
    ensures
        model::selection_ok(model::receive_details(a, lines)),
{
}

/// A backspace takes back the character just typed into the search query.
pub proof fn lemma_backspace_undoes_input(a: AppView, c: char)
    ensures
        model::search_backspace(model::search_input(a, c)) == model::select(a, 0),
{
    assert(a.search_query.push(c).drop_last() =~= a.search_query);
}

/// Closing the search bar lists every installed package again.
pub proof fn lemma_close_search_lists_all(a: AppView)
    ensures
        model::visible(model::close_search(a)) == a.packages,
{
}

/// The visible packages are installed packages whose names match the query, and every
/// installed package whose name matches is visible. For a non-empty query a name
/// matches when the lowercased query occurs as a contiguous part of the lowercased name.
pub proof fn lemma_visible_is_the_matching_packages(a: AppView)
    ensures
        forall|i: int|
            0 <= i < model::visible(a).len() ==> a.packages.contains(#[trigger] model::visible(a)[i]),
        a.search_query.len() > 0 ==> forall|i: int|
            0 <= i < model::visible(a).len() ==> contains_seq(
                lowercase(#[trigger] model::visible(a)[i].0),
                lowercase(a.search_query),
            ),
        forall|i: int|
            0 <= i < a.packages.len() && (a.search_query.len() == 0 || contains_seq(
                lowercase(a.packages[i].0),
                lowercase(a.search_query),
            )) ==> model::visible(a).contains(#[trigger] a.packages[i]),
        a.search_query.len() == 0 ==> model::visible(a) == a.packages,
        a.search_query.len() > 0 ==> model::visible(a) == a.packages.filter(
            |p: PackageView| contains_seq(lowercase(p.0), lowercase(a.search_query)),
        ),
{
    if a.search_query.len() > 0 {
        let pred = |p: PackageView| model::name_matches(p.0, a.search_query);
        let direct = |p: PackageView| contains_seq(lowercase(p.0), lowercase(a.search_query));
        assert(pred =~= direct);
        broadcast use vstd::seq_lib::group_filter_ensures;

        assert forall|i: int| 0 <= i < model::visible(a).len() implies a.packages.contains(
            #[trigger] model::visible(a)[i],
        ) by {
            a.packages.lemma_filter_contains_rev(pred, model::visible(a)[i]);
        }
        assert forall|i: int| 0 <= i < model::visible(a).len() implies contains_seq(
            lowercase(#[trigger] model::visible(a)[i].0),
            lowercase(a.search_query),
        ) by {
            assert(direct(model::visible(a)[i]));
        }
        assert forall|i: int|
            0 <= i < a.packages.len() && contains_seq(
                lowercase(a.packages[i].0),
                lowercase(a.search_query),
            ) implies model::visible(a).contains(#[trigger] a.packages[i]) by {
            assert(direct(a.packages[i]));
            assert(pred(a.packages[i]));
        }
    } else {
        assert forall|i: int| 0 <= i < model::visible(a).len() implies a.packages.contains(
            #[trigger] model::visible(a)[i],
        ) by {
            assert(a.packages[i] == model::visible(a)[i]);
        }
        assert forall|i: int| 0 <= i < a.packages.len() implies model::visible(a).contains(
            #[trigger] a.packages[i],
        ) by {
            assert(model::visible(a)[i] == a.packages[i]);
        }
    }
}

/// Opening the details pane and toggling it again leaves it as closing it would have.
pub proof fn lemma_toggle_closes_received_details(a: AppView, lines: Seq<Seq<char>>)
    ensures
        model::toggle_details(model::receive_details(a, lines)) == model::close_details(a),
        model::toggle_request(model::receive_details(a, lines)) is None,
{
}

// ---------------------------------------------------------------------------
// Narrowing the search
// ---------------------------------------------------------------------------

proof fn lemma_filter_stronger(s: Seq<PackageView>, p1: spec_fn(PackageView) -> bool, p2: spec_fn(PackageView) -> bool)
    requires
        forall|x: PackageView| #[trigger] p2(x) ==> p1(x),
    ensures
        s.filter(p2) == s.filter(p1).filter(p2),
    decreases s.len(),
{
    reveal_with_fuel(Seq::filter, 1);
    if s.len() > 0 {
        lemma_filter_stronger(s.drop_last(), p1, p2);
        let t = s.drop_last().filter(p1);
        if p1(s.last()) {
            assert(t.push(s.last()).drop_last() =~= t);
        }
    }
}

/// Typing one more ASCII character into an ASCII query only narrows the list: the
/// packages visible afterwards are those visible before whose names match the longer
/// query, in the same order.
pub proof fn lemma_typing_narrows_search(a: AppView, c: char)
    requires
        is_ascii_chars(a.search_query),
        c <= '\u{7f}',
    ensures
        model::visible(model::search_input(a, c)) == model::visible(a).filter(
            |p: PackageView| model::name_matches(p.0, a.search_query.push(c)),
        ),
{
    let q = a.search_query;
    let q2 = q.push(c);
    let p1 = |p: PackageView| model::name_matches(p.0, q);
    let p2 = |p: PackageView| model::name_matches(p.0, q2);
    if q.len() == 0 {
        assert(model::visible(a) == a.packages);
    } else {
        assert(is_ascii_chars(q2)) by {
            assert forall|i: int| 0 <= i < q2.len() implies '\0' <= #[trigger] q2[i] <= '\u{7f}' by {
                if i < q.len() {
                    assert(q2[i] == q[i]);
                }
            }
        }
        assert(lowercase(q2) =~= lowercase(q).push(ascii_lower_char(c)));
        assert forall|x: PackageView| #[trigger] p2(x) implies p1(x) by {
            let h = lowercase(x.0);
            let n = lowercase(q);
            let i = choose|i: int| crate::text::occurs_at(h, n.push(ascii_lower_char(c)), i);
            assert(h.subrange(i, i + n.len()) =~= h.subrange(i, i + n.len() + 1).drop_last());
            assert(n.push(ascii_lower_char(c)).drop_last() =~= n);
            assert(crate::text::occurs_at(h, n, i));
            assert(contains_seq(h, n));
        }
        lemma_filter_stronger(a.packages, p1, p2);
    }
}

// ---------------------------------------------------------------------------
// Reading back the pacman -Q listing
// ---------------------------------------------------------------------------

/// A package written as `pacman -Q` writes it: the name, a space, the version.
pub open spec fn package_line(p: PackageView) -> Seq<char> {
    p.0 + seq![' '] + p.1
}

/// The `pacman -Q` listing of packages: one line per package, joined by newlines.
pub open spec fn pacman_listing(ps: Seq<PackageView>) -> Seq<char> {
    join(ps.map_values(|p: PackageView| package_line(p)), seq!['\n'])
}

/// A package that its listing line gives back: the name holds no space and no line
/// ending, the version no line ending.
pub open spec fn listable(p: PackageView) -> bool {
    &&& forall|i: int| 0 <= i < p.0.len() ==> #[trigger] p.0[i] != ' ' && p.0[i] != '\n' && p.0[i] != '\r'
    &&& forall|i: int| 0 <= i < p.1.len() ==> #[trigger] p.1[i] != '\n' && p.1[i] != '\r'
}

proof fn lemma_split_append_line(t: Seq<char>, s: Seq<char>)
    requires
        forall|i: int| 0 <= i < s.len() ==> #[trigger] s[i] != '\n',
    ensures
        split_state(t + s) == (split_state(t).0, split_state(t).1 + s),
    decreases s.len(),
{
    if s.len() == 0 {
        assert(t + s =~= t);
        assert(split_state(t).1 + s =~= split_state(t).1);
    } else {
        lemma_split_append_line(t, s.drop_last());
        assert((t + s).drop_last() =~= t + s.drop_last());
        assert((t + s).last() == s.last());
        assert(s.last() == s[s.len() - 1]);
        assert((split_state(t).1 + s.drop_last()).push(s.last()) =~= split_state(t).1 + s);
    }
}

proof fn lemma_split_joined(ls: Seq<Seq<char>>)
    requires
        ls.len() >= 1,
        forall|k: int, i: int| 0 <= k < ls.len() && 0 <= i < ls[k].len() ==> #[trigger] ls[k][i] != '\n',
        forall|k: int| 0 <= k < ls.len() ==> strip_cr(#[trigger] ls[k]) == ls[k],
    ensures
        split_state(join(ls, seq!['\n'])) == (ls.drop_last(), ls.last()),
    decreases ls.len(),
{
    let nl = seq!['\n'];
    if ls.len() == 1 {
        lemma_split_append_line(Seq::empty(), ls[0]);
        assert(Seq::<char>::empty() + ls[0] =~= ls[0]);
        assert(split_state(Seq::<char>::empty()) == (Seq::<Seq<char>>::empty(), Seq::<char>::empty()));
        assert(Seq::<char>::empty() + ls[0] =~= ls[0]);
        assert(ls.drop_last() =~= Seq::<Seq<char>>::empty());
    } else {
        let init = ls.drop_last();
        lemma_split_joined(init);
        let t = join(init, nl) + nl;
        assert(t =~= join(init, nl).push('\n'));
        assert(t.drop_last() =~= join(init, nl));
        assert(strip_cr(init.last()) == init.last());
        assert(init.drop_last().push(init.last()) =~= init);
        assert(split_state(t) == (init, Seq::<char>::empty()));
        assert forall|i: int| 0 <= i < ls.last().len() implies #[trigger] ls.last()[i] != '\n' by {
            assert(ls.last()[i] == ls[ls.len() - 1][i]);
        }
        lemma_split_append_line(t, ls.last());
        assert(Seq::<char>::empty() + ls.last() =~= ls.last());
    }
}

proof fn lemma_parse_package_line(p: PackageView)
    requires
        listable(p),
    ensures
        parse_line(package_line(p)) == Some(p),
{
    let l = package_line(p);
    let k = p.0.len() as int;
    assert(l[k] == ' ');
    assert forall|j: int| 0 <= j < k implies l[j] != ' ' by {
        assert(l[j] == p.0[j]);
    }
    assert(is_first_space(l, k));
    let c = choose|c: int| is_first_space(l, c);
    assert(c == k);
    assert(l.take(k) =~= p.0);
    assert(l.skip(k + 1) =~= p.1);
}

proof fn lemma_parse_lines(ps: Seq<PackageView>)
    requires
        forall|k: int| 0 <= k < ps.len() ==> listable(#[trigger] ps[k]),
    ensures
        ps.map_values(|p: PackageView| package_line(p)).filter_map(|line: Seq<char>| parse_line(line))
            == ps,
    decreases ps.len(),
{
    let ls = ps.map_values(|p: PackageView| package_line(p));
    if ps.len() > 0 {
        lemma_parse_lines(ps.drop_last());
        assert(ls.drop_last() =~= ps.drop_last().map_values(|p: PackageView| package_line(p)));
        assert(ls.last() == package_line(ps.last()));
        lemma_parse_package_line(ps.last());
        assert(ps.drop_last() + seq![ps.last()] =~= ps);
    } else {
        assert(ls.filter_map(|line: Seq<char>| parse_line(line)) =~= ps);
    }
}

/// Reading the `pacman -Q` listing of packages gives the packages back, with or without
/// a newline after the last line, when no name holds a space or a line ending and no
/// version a line ending.
pub proof fn lemma_pacman_listing_round_trip(ps: Seq<PackageView>)
    requires
        forall|k: int| 0 <= k < ps.len() ==> listable(#[trigger] ps[k]),
    ensures
        installed_packages(pacman_listing(ps)) == ps,
        installed_packages(pacman_listing(ps) + seq!['\n']) == ps,
{
    let ls = ps.map_values(|p: PackageView| package_line(p));
    let nl = seq!['\n'];
    lemma_parse_lines(ps);
    if ps.len() == 0 {
        assert(pacman_listing(ps) =~= Seq::<char>::empty());
        assert(split_state(Seq::<char>::empty()) == (Seq::<Seq<char>>::empty(), Seq::<char>::empty()));
        let t = pacman_listing(ps) + nl;
        assert(t.drop_last() =~= Seq::<char>::empty());
        assert(t.last() == '\n');
        assert(strip_cr(Seq::<char>::empty()) =~= Seq::<char>::empty());
        assert(lines_of(t) =~= seq![Seq::<char>::empty()]);
        let parsed = lines_of(t).filter_map(|line: Seq<char>| parse_line(line));
        assert(!(exists|k: int| is_first_space(Seq::<char>::empty(), k)));
        assert(lines_of(t).drop_last() =~= Seq::<Seq<char>>::empty());
        assert(lines_of(t).last() =~= Seq::<char>::empty());
        assert(parse_line(lines_of(t).last()) is None);
        assert(Seq::<Seq<char>>::empty().filter_map(|line: Seq<char>| parse_line(line)) =~= Seq::<PackageView>::empty());
        assert(parsed =~= ps);
    } else {
        assert forall|k: int, i: int| 0 <= k < ls.len() && 0 <= i < ls[k].len() implies #[trigger] ls[k][i] != '\n' by {
            assert(ls[k] == package_line(ps[k]));
            let n = ps[k].0.len() as int;
            if i < n {
                assert(ls[k][i] == ps[k].0[i]);
            } else if i > n {
                assert(ls[k][i] == ps[k].1[i - n - 1]);
            }
        }
        assert forall|k: int| 0 <= k < ls.len() implies strip_cr(#[trigger] ls[k]) == ls[k] by {
            let l = package_line(ps[k]);
            assert(ls[k] == l);
            if ps[k].1.len() > 0 {
                assert(l.last() == ps[k].1[ps[k].1.len() - 1]);
            } else {
                assert(l.last() == ' ');
            }
        }
        lemma_split_joined(ls);
        assert(ls.last() == package_line(ps.last()));
        assert(ls.last().len() > 0);
        assert(ls.drop_last().push(ls.last()) =~= ls);
        assert(lines_of(pacman_listing(ps)) == ls);
        let t = pacman_listing(ps) + nl;
        assert(t.drop_last() =~= pacman_listing(ps));
        assert(t.last() == '\n');
        assert(lines_of(t) == ls);
    }
}

// ---------------------------------------------------------------------------
// What each key and each move does
// ---------------------------------------------------------------------------

/// A key press of the given key.
pub open spec fn press(code: KeyCode) -> KeyEvent {
    KeyEvent { code, kind: KeyEventKind::Press }
}

/// Keys that are not presses change nothing and ask for nothing.
pub proof fn lemma_only_presses_count(a: AppView, key: KeyEvent)
    requires
        key.kind != KeyEventKind::Press,
    ensures
        key_step(a, key) == (a, Effect::Continue),
{
}

/// Outside the search bar, `/` opens the search bar on an empty query, on the first row
/// and with the details pane closed, but only on the Packages tab; on another tab it
/// changes nothing, so that a following `q` still quits.
pub proof fn lemma_slash_opens_search_only_on_packages(a: AppView)
    requires
        !a.searching,
    ensures
        a.current_tab == Tab::Packages ==> {
            let b = key_step(a, press(KeyCode::Char('/'))).0;
            &&& b.searching
            &&& b.search_query.len() == 0
            &&& b.selected_index == 0
            &&& !b.show_details
            &&& b.package_details is None
            &&& b.current_tab == a.current_tab
            &&& b.packages == a.packages
            &&& b.should_quit == a.should_quit
            &&& b.load_error == a.load_error
        },
        a.current_tab != Tab::Packages ==> key_step(a, press(KeyCode::Char('/'))) == (a, Effect::Continue),
        a.current_tab != Tab::Packages ==> {
            let b = key_step(a, press(KeyCode::Char('/'))).0;
            key_step(b, press(KeyCode::Char('q'))).1 == Effect::Quit
        },
{
}

/// Outside the search bar `q` quits; in the search bar it is typed into the query.
pub proof fn lemma_q_quits_outside_search(a: AppView)
    ensures
        !a.searching ==> key_step(a, press(KeyCode::Char('q'))).1 == Effect::Quit
            && key_step(a, press(KeyCode::Char('q'))).0.should_quit,
        a.searching ==> key_step(a, press(KeyCode::Char('q'))).1 == Effect::Continue
            && key_step(a, press(KeyCode::Char('q'))).0.should_quit == a.should_quit
            && key_step(a, press(KeyCode::Char('q'))).0.search_query.drop_last() == a.search_query
            && key_step(a, press(KeyCode::Char('q'))).0.search_query.last() == 'q',
{
    assert(a.search_query.push('q').drop_last() =~= a.search_query);
}

/// Tab and BackTab move to the neighbouring tab and put the selection on the first row.
pub proof fn lemma_tab_keys_switch_tabs(a: AppView)
    requires
        !a.searching,
    ensures
        key_step(a, press(KeyCode::Tab)).0.current_tab == next_tab(a.current_tab),
        key_step(a, press(KeyCode::Tab)).0.selected_index == 0,
        key_step(a, press(KeyCode::BackTab)).0.current_tab == prev_tab(a.current_tab),
        key_step(a, press(KeyCode::BackTab)).0.selected_index == 0,
{
}

/// Esc outside the search bar clears a query that filters the list, and otherwise
/// closes the details pane.
pub proof fn lemma_esc_clears_filter_or_closes_details(a: AppView)
    requires
        !a.searching,
    ensures
        a.search_query.len() > 0 ==> key_step(a, press(KeyCode::Esc)).0.search_query.len() == 0
            && model::visible(key_step(a, press(KeyCode::Esc)).0) == a.packages,
        a.search_query.len() == 0 ==> !key_step(a, press(KeyCode::Esc)).0.show_details
            && key_step(a, press(KeyCode::Esc)).0.package_details is None,
{
}

/// Enter outside the search bar closes an open details pane; on a closed one, on the
/// Packages tab with rows, it asks for the details of the selected visible package and
/// changes nothing yet.
pub proof fn lemma_enter_toggles_details(a: AppView)
    requires
        !a.searching,
        model::selection_ok(a),
    ensures
        a.show_details ==> key_step(a, press(KeyCode::Enter)) == (model::close_details(a), Effect::Continue),
        a.show_details ==> !key_step(a, press(KeyCode::Enter)).0.show_details
            && key_step(a, press(KeyCode::Enter)).0.package_details is None,
        !a.show_details && a.current_tab == Tab::Packages && model::visible(a).len() > 0 ==> key_step(
            a,
            press(KeyCode::Enter),
        ) == (a, Effect::LoadDetails(model::visible(a)[a.selected_index as int].0)),
        !a.show_details && a.selected_index < model::visible(a).len() && a.current_tab == Tab::Packages
            ==> a.packages.contains(model::visible(a)[a.selected_index as int]),
        !a.show_details && (a.current_tab != Tab::Packages || model::visible(a).len() == 0) ==> key_step(
            a,
            press(KeyCode::Enter),
        ) == (a, Effect::Continue),
{
    lemma_visible_is_the_matching_packages(a);
}

/// Each move changes the selection alone: down goes one row further and from the last
/// row to the first, up goes one row back and stays on the first, Home-like `g` goes to
/// the first row and `G` to the last; on an empty list nothing moves.
pub proof fn lemma_moves(a: AppView)
    requires
        a.packages.len() <= usize::MAX,
        model::selection_ok(a),
    ensures
        model::list_len(a) > 0 && a.selected_index + 1 < model::list_len(a) ==> model::next_item(
            a,
        ).selected_index == a.selected_index + 1,
        model::list_len(a) > 0 && a.selected_index + 1 >= model::list_len(a) ==> model::next_item(
            a,
        ).selected_index == 0,
        model::list_len(a) > 0 && a.selected_index > 0 ==> model::prev_item(a).selected_index
            == a.selected_index - 1,
        a.selected_index == 0 ==> model::prev_item(a).selected_index == 0,
        model::first_item(a).selected_index == 0,
        model::list_len(a) > 0 ==> model::last_item(a).selected_index == model::list_len(a) - 1,
        model::list_len(a) == 0 ==> model::next_item(a) == a && model::prev_item(a) == a
            && model::last_item(a) == a,
        model::next_item(a) == (AppView { selected_index: model::next_item(a).selected_index, ..a }),
        model::prev_item(a) == (AppView { selected_index: model::prev_item(a).selected_index, ..a }),
        model::first_item(a) == (AppView { selected_index: 0, ..a }),
        model::last_item(a) == (AppView { selected_index: model::last_item(a).selected_index, ..a }),
{
    lemma_visible_len(a);
    if model::list_len(a) > 0 && a.selected_index + 1 < model::list_len(a) {
        vstd::arithmetic::div_mod::lemma_small_mod(
            (a.selected_index + 1) as nat,
            model::list_len(a),
        );
    }
    if model::list_len(a) > 0 && a.selected_index + 1 >= model::list_len(a) {
        assert(a.selected_index + 1 == model::list_len(a));
        vstd::arithmetic::div_mod::lemma_mod_self_0(model::list_len(a) as int);
    }
}

/// `G` outside the search bar selects the last row of a non-empty list, wherever the
/// selection was.
pub proof fn lemma_g_selects_last_row(a: AppView)
    requires
        a.packages.len() <= usize::MAX,
        !a.searching,
    ensures
        model::list_len(a) > 0 ==> key_step(a, press(KeyCode::Char('G'))).0.selected_index
            == model::list_len(a) - 1,
        model::list_len(a) > 0 ==> model::list_len(key_step(a, press(KeyCode::Char('G'))).0)
            == model::list_len(a),
        model::list_len(a) == 0 ==> key_step(a, press(KeyCode::Char('G'))).0 == a,
{
    lemma_visible_len(a);
}

/// The search query grows by the character typed, and the selection goes to the first row.
pub proof fn lemma_search_input_appends(a: AppView, c: char)
    ensures
        model::search_input(a, c).search_query.len() == a.search_query.len() + 1,
        model::search_input(a, c).search_query.last() == c,
        model::search_input(a, c).search_query.drop_last() == a.search_query,
        model::search_input(a, c).selected_index == 0,
        model::search_input(a, c).searching == a.searching,
        model::search_input(a, c).packages == a.packages,
{
    assert(a.search_query.push(c).drop_last() =~= a.search_query);
}

// ---------------------------------------------------------------------------
// The details pane
// ---------------------------------------------------------------------------

/// Receiving the details opens the pane on exactly what was loaded: all the lines when
/// loading succeeded, else one line "Error: " and the error; nothing else changes.
pub proof fn lemma_receive_details_shows_what_was_loaded(
    a: AppView,
    loaded: Result<Vec<String>, String>,
)
    ensures
        model::receive_details(a, model::details_lines(details_view(loaded))).show_details,
        match loaded {
            Ok(v) => model::receive_details(a, model::details_lines(details_view(loaded))).package_details
                == Some(v@.map_values(|s: String| s@)),
            Err(e) => model::receive_details(a, model::details_lines(details_view(loaded))).package_details
                == Some(seq!["Error: "@ + e@]),
        },
        model::receive_details(a, model::details_lines(details_view(loaded))) == (AppView {
            package_details: model::receive_details(
                a,
                model::details_lines(details_view(loaded)),
            ).package_details,
            show_details: true,
            ..a
        }),
{
}

// ---------------------------------------------------------------------------
// The name column
// ---------------------------------------------------------------------------

/// The length in bytes of a text, as `str::len` reports it.
pub open spec fn byte_len(s: Seq<char>) -> nat {
    (encode_utf8(s).len() as usize) as nat
}

proof fn lemma_max_name_bytes(v: Seq<PackageView>)
    ensures
        v.len() == 0 ==> max_name_bytes(v) is None,
        v.len() > 0 ==> max_name_bytes(v) is Some,
        v.len() > 0 ==> forall|i: int| 0 <= i < v.len() ==> max_name_bytes(v)->0 >= byte_len(#[trigger] v[i].0),
        v.len() > 0 ==> exists|i: int| 0 <= i < v.len() && max_name_bytes(v)->0 == byte_len(#[trigger] v[i].0),
    decreases v.len(),
{
    if v.len() > 0 {
        let init = v.drop_last();
        lemma_max_name_bytes(init);
        let m = max_name_bytes(v)->0;
        assert forall|i: int| 0 <= i < v.len() implies m >= byte_len(#[trigger] v[i].0) by {
            if i < v.len() - 1 {
                assert(v[i] == init[i]);
            }
        }
        if init.len() > 0 && max_name_bytes(init)->0 >= byte_len(v.last().0) {
            let j = choose|j: int| 0 <= j < init.len() && max_name_bytes(init)->0 == byte_len(#[trigger] init[j].0);
            assert(v[j] == init[j]);
        } else {
            assert(v[v.len() - 1] == v.last());
        }
    }
}

/// The name column is as wide as the longest visible name, in bytes, but never wider
/// than 40: at least as wide as each visible name (up to 40), and as wide as one of
/// them (up to 40); 20 when no package is visible.
pub proof fn lemma_name_column_fits_the_names(v: Seq<PackageView>)
    ensures
        name_column_width_of(v) <= 40,
        v.len() == 0 ==> name_column_width_of(v) == 20,
        forall|i: int| 0 <= i < v.len() ==> name_column_width_of(v) >= (if byte_len(#[trigger] v[i].0) < 40 {
            byte_len(v[i].0)
        } else {
            40
        }),
        v.len() > 0 ==> exists|i: int| 0 <= i < v.len() && name_column_width_of(v) == (if byte_len(
            #[trigger] v[i].0,
        ) < 40 {
            byte_len(v[i].0)
        } else {
            40
        }),
{
    lemma_max_name_bytes(v);
    if v.len() > 0 {
        let j = choose|j: int| 0 <= j < v.len() && max_name_bytes(v)->0 == byte_len(#[trigger] v[j].0);
        assert(name_column_width_of(v) == (if byte_len(v[j].0) < 40 { byte_len(v[j].0) } else { 40 }));
    }
}

/// A padded cell starts with the name, is as long as the name or the width, whichever
/// is more, and is spaces after the name.
pub proof fn lemma_pad_right(s: Seq<char>, width: nat)
    ensures
        pad_right(s, width).len() == (if s.len() >= width { s.len() } else { width }),
        pad_right(s, width).take(s.len() as int) == s,
        forall|i: int| s.len() <= i < pad_right(s, width).len() ==> #[trigger] pad_right(s, width)[i] == ' ',
{
    assert(pad_right(s, width).take(s.len() as int) =~= s);
}

// ---------------------------------------------------------------------------
// Reading a listing line
// ---------------------------------------------------------------------------

/// A line holds a package exactly when it has a space; the package's name is the part
/// before the first space (so it has none), and the line is the name, a space and the
/// version.
pub proof fn lemma_parse_line_splits_at_first_space(s: Seq<char>)
    ensures
        parse_line(s) is None <==> (forall|i: int| 0 <= i < s.len() ==> s[i] != ' '),
        parse_line(s) matches Some(p) ==> s == p.0 + seq![' '] + p.1,
        parse_line(s) matches Some(p) ==> forall|i: int| 0 <= i < p.0.len() ==> #[trigger] p.0[i] != ' ',
{
    if exists|k: int| is_first_space(s, k) {
        let k = choose|k: int| is_first_space(s, k);
        assert(s =~= s.take(k) + seq![' '] + s.skip(k + 1));
        assert(!(forall|i: int| 0 <= i < s.len() ==> s[i] != ' ')) by {
            assert(s[k] == ' ');
        }
    } else {
        assert forall|i: int| 0 <= i < s.len() implies s[i] != ' ' by {
            if s[i] == ' ' {
                // the first space at or before i
                lemma_first_space_exists(s, i);
            }
        }
    }
}

proof fn lemma_first_space_exists(s: Seq<char>, i: int)
    requires
        0 <= i < s.len(),
        s[i] == ' ',
    ensures
        exists|k: int| is_first_space(s, k),
    decreases i,
{
    if exists|j: int| 0 <= j < i && s[j] == ' ' {
        let j = choose|j: int| 0 <= j < i && s[j] == ' ';
        lemma_first_space_exists(s, j);
    } else {
        assert(is_first_space(s, i));
    }
}

// ---------------------------------------------------------------------------
// Keys in the search bar
// ---------------------------------------------------------------------------

/// In the search bar, Esc leaves it and clears the query, Enter leaves it and keeps the
/// query, Backspace removes the last character of the query (an empty query stays
/// empty), and a character is added to the query; every one of them puts the selection
/// on the first row, none quits, and the other keys change nothing.
pub proof fn lemma_search_bar_keys(a: AppView, c: char)
    requires
        a.searching,
    ensures
        !key_step(a, press(KeyCode::Esc)).0.searching,
        key_step(a, press(KeyCode::Esc)).0.search_query.len() == 0,
        key_step(a, press(KeyCode::Esc)).0.selected_index == 0,
        !key_step(a, press(KeyCode::Enter)).0.searching,
        key_step(a, press(KeyCode::Enter)).0.search_query == a.search_query,
        key_step(a, press(KeyCode::Enter)).0.show_details == a.show_details,
        key_step(a, press(KeyCode::Backspace)).0.searching,
        a.search_query.len() > 0 ==> key_step(a, press(KeyCode::Backspace)).0.search_query + seq![
            a.search_query.last(),
        ] == a.search_query,
        a.search_query.len() == 0 ==> key_step(a, press(KeyCode::Backspace)).0.search_query.len() == 0,
        key_step(a, press(KeyCode::Backspace)).0.selected_index == 0,
        key_step(a, press(KeyCode::Char(c))).0.search_query == a.search_query + seq![c],
        key_step(a, press(KeyCode::Char(c))).0.selected_index == 0,
        key_step(a, press(KeyCode::Char(c))).0.searching,
        key_step(a, press(KeyCode::Char(c))).1 == Effect::Continue,
        key_step(a, press(KeyCode::Up)) == (a, Effect::Continue),
        key_step(a, press(KeyCode::Down)) == (a, Effect::Continue),
        key_step(a, press(KeyCode::Tab)) == (a, Effect::Continue),
{
    assert(a.search_query.push(c) =~= a.search_query + seq![c]);
    if a.search_query.len() > 0 {
        assert(a.search_query.drop_last() + seq![a.search_query.last()] =~= a.search_query);
    }
}

// ---------------------------------------------------------------------------
// Order of the tabs
// ---------------------------------------------------------------------------

/// The Packages tab comes first, and moving right goes one position further, wrapping
/// after the third tab; the positions are those of the titles in the tab bar.
pub proof fn lemma_tab_order()
    ensures
        tab_position(Tab::Packages) == 0,
        next_tab(Tab::Packages) == Tab::Search,
        next_tab(Tab::Search) == Tab::Updates,
        forall|t: Tab| #[trigger] tab_position(next_tab(t)) == (tab_position(t) + 1) % 3,
{
}

// ---------------------------------------------------------------------------
// Texts
// ---------------------------------------------------------------------------

/// A text contains another exactly when it is something, then the other, then
/// something else.
pub proof fn lemma_contains_seq_means_infix(h: Seq<char>, n: Seq<char>)
    ensures
        contains_seq(h, n) <==> exists|x: Seq<char>, y: Seq<char>| h == x + n + y,
{
    if contains_seq(h, n) {
        let i = choose|i: int| crate::text::occurs_at(h, n, i);
        let x = h.take(i);
        let y = h.skip(i + n.len());
        assert(h =~= x + n + y);
    }
    if exists|x: Seq<char>, y: Seq<char>| h == x + n + y {
        let (x, y) = choose|x: Seq<char>, y: Seq<char>| h == x + n + y;
        assert(h.subrange(x.len() as int, (x.len() + n.len()) as int) =~= n);
        assert(crate::text::occurs_at(h, n, x.len() as int));
    }
}

/// On an ASCII text lowercasing keeps the length, turns `A`..=`Z` into `a`..=`z` and
/// keeps every other character.
pub proof fn lemma_lowercase_ascii(s: Seq<char>)
    requires
        is_ascii_chars(s),
    ensures
        lowercase(s).len() == s.len(),
        forall|i: int|
            0 <= i < s.len() ==> #[trigger] lowercase(s)[i] == (if 'A' <= s[i] && s[i] <= 'Z' {
                ((s[i] as u32) + 32) as char
            } else {
                s[i]
            }),
{
}

/// The value of a text of decimal digits.
pub open spec fn digits_value(s: Seq<char>) -> int
    decreases s.len(),
{
    if s.len() == 0 {
        0
    } else {
        digits_value(s.drop_last()) * 10 + (s.last() as int - '0' as int)
    }
}

proof fn lemma_digit_char(d: nat)
    requires
        d < 10,
    ensures
        crate::text::digit_char(d) as int == d + 48,
{
}

/// The decimal notation of a number is made of digits, has no leading zero, and reads
/// back as the number.
pub proof fn lemma_decimal_reads_back(n: nat)
    ensures
        decimal(n).len() > 0,
        forall|i: int| 0 <= i < decimal(n).len() ==> '0' <= #[trigger] decimal(n)[i] && decimal(n)[i] <= '9',
        decimal(n).len() > 1 ==> decimal(n)[0] != '0',
        decimal(n).len() == 1 <==> n < 10,
        digits_value(decimal(n)) == n,
    decreases n,
{
    lemma_digit_char((n % 10) as nat);
    if n >= 10 {
        lemma_decimal_reads_back(n / 10);
        let d = decimal(n / 10);
        assert(decimal(n) == d.push(crate::text::digit_char(n % 10)));
        assert(decimal(n).drop_last() =~= d);
        assert forall|i: int| 0 <= i < decimal(n).len() implies '0' <= #[trigger] decimal(n)[i]
            && decimal(n)[i] <= '9' by {
            if i < d.len() {
                assert(decimal(n)[i] == d[i]);
            }
        }
        assert(decimal(n)[0] == d[0]);
        if d.len() == 1 {
            assert(n / 10 < 10);
            assert(n / 10 >= 1);
            lemma_digit_char((n / 10) as nat);
        }
        assert(n == (n / 10) * 10 + n % 10);
        assert(decimal(n).last() == crate::text::digit_char(n % 10));
        assert(digits_value(decimal(n)) == digits_value(d) * 10 + (n % 10));
    } else {
        lemma_digit_char(n);
        assert(decimal(n).drop_last() =~= Seq::<char>::empty());
        assert(decimal(n).last() == crate::text::digit_char(n));
        assert(digits_value(Seq::<char>::empty()) == 0);
        assert('0' as int == 48);
        assert(digits_value(decimal(n)) == digits_value(decimal(n).drop_last()) * 10 + (
        decimal(n).last() as int - '0' as int));
    }
}

/// A text without carriage returns is its lines, each followed by a newline, and then
/// what follows the last newline; so no line holds a newline, and joining the lines
/// with newlines gives the text back, up to a final newline.
pub proof fn lemma_lines_rejoin(s: Seq<char>)
    requires
        forall|i: int| 0 <= i < s.len() ==> s[i] != '\r',
    ensures
        forall|k: int, i: int|
            0 <= k < lines_of(s).len() && 0 <= i < lines_of(s)[k].len() ==> #[trigger] lines_of(s)[k][i]
                != '\n',
        s.len() > 0 && s.last() == '\n' ==> s == join(lines_of(s), seq!['\n']) + seq!['\n'],
        s.len() == 0 || s.last() != '\n' ==> s == join(lines_of(s), seq!['\n']),
{
    lemma_split_state_shape(s);
    let (done, cur) = split_state(s);
    if s.len() == 0 {
        assert(lines_of(s) =~= Seq::<Seq<char>>::empty());
    } else if s.last() == '\n' {
        assert(cur.len() == 0) by {
            assert(s.drop_last().push('\n') =~= s);
        }
        assert(done.len() > 0) by {
            assert(s.drop_last().push('\n') =~= s);
        }
        lemma_join_terminated(done);
        assert(s == join(done, seq!['\n']) + seq!['\n'] + cur);
        assert(join(done, seq!['\n']) + seq!['\n'] + cur =~= join(done, seq!['\n']) + seq!['\n']);
    } else {
        assert(cur.len() > 0) by {
            assert(s.drop_last().push(s.last()) =~= s);
        }
        if done.len() == 0 {
            assert(terminated(done) =~= Seq::<char>::empty());
            assert(done.push(cur) =~= seq![cur]);
            assert(s =~= cur);
        } else {
            lemma_join_terminated(done);
            let ls = done.push(cur);
            assert(ls.drop_last() =~= done);
            assert(join(ls, seq!['\n']) == join(done, seq!['\n']) + seq!['\n'] + cur);
        }
    }
}

/// The lines ended so far, each followed by a newline.
pub open spec fn terminated(done: Seq<Seq<char>>) -> Seq<char>
    decreases done.len(),
{
    if done.len() == 0 {
        Seq::empty()
    } else {
        terminated(done.drop_last()) + done.last() + seq!['\n']
    }
}

proof fn lemma_join_terminated(done: Seq<Seq<char>>)
    requires
        done.len() > 0,
    ensures
        terminated(done) == join(done, seq!['\n']) + seq!['\n'],
    decreases done.len(),
{
    if done.len() == 1 {
        assert(done.drop_last() =~= Seq::<Seq<char>>::empty());
        assert(terminated(done.drop_last()) =~= Seq::<char>::empty());
        assert(done.last() == done[0]);
        assert(terminated(done) =~= done[0] + seq!['\n']);
    } else {
        lemma_join_terminated(done.drop_last());
    }
}

proof fn lemma_split_state_shape(s: Seq<char>)
    requires
        forall|i: int| 0 <= i < s.len() ==> s[i] != '\r',
    ensures
        s == terminated(split_state(s).0) + split_state(s).1,
        forall|i: int| 0 <= i < split_state(s).1.len() ==> #[trigger] split_state(s).1[i] != '\n',
        forall|k: int, i: int|
            0 <= k < split_state(s).0.len() && 0 <= i < split_state(s).0[k].len()
                ==> #[trigger] split_state(s).0[k][i] != '\n',
        forall|i: int| 0 <= i < split_state(s).1.len() ==> #[trigger] split_state(s).1[i] != '\r',
    decreases s.len(),
{
    if s.len() > 0 {
        let t = s.drop_last();
        assert forall|i: int| 0 <= i < t.len() implies t[i] != '\r' by {
            assert(t[i] == s[i]);
        }
        lemma_split_state_shape(t);
        let (done, cur) = split_state(t);
        if s.last() == '\n' {
            assert(strip_cr(cur) == cur) by {
                if cur.len() > 0 {
                    assert(cur.last() == cur[cur.len() - 1]);
                }
            }
            let nd = done.push(cur);
            assert(nd.drop_last() =~= done);
            assert(s =~= terminated(done) + cur + seq!['\n']);
            assert(terminated(nd) == terminated(done) + cur + seq!['\n']);
            assert(s =~= terminated(nd) + Seq::<char>::empty());
            assert forall|k: int, i: int| 0 <= k < nd.len() && 0 <= i < nd[k].len()
                implies #[trigger] nd[k][i] != '\n' by {
                if k < done.len() {
                    assert(nd[k] == done[k]);
                }
            }
        } else {
            assert(s =~= t.push(s.last()));
            assert(s =~= terminated(done) + cur.push(s.last()));
            assert forall|i: int| 0 <= i < cur.push(s.last()).len() implies #[trigger] cur.push(
                s.last(),
            )[i] != '\n' && cur.push(s.last())[i] != '\r' by {
                if i == cur.len() {
                    assert(s.last() == s[s.len() - 1]);
                }
            }
        }
    }
}

/// The details text, split at its newlines, gives back the lines of the pane, when none
/// of them holds a line ending and the last is not empty.
pub proof fn lemma_details_text_splits_back(a: AppView, ls: Seq<Seq<char>>)
    requires
        a.package_details == Some(ls),
        ls.len() > 0,
        ls.last().len() > 0,
        forall|k: int, i: int| 0 <= k < ls.len() && 0 <= i < ls[k].len() ==> #[trigger] ls[k][i] != '\n'
            && ls[k][i] != '\r',
    ensures
        lines_of(details_text_of(a)) == ls,
{
    reveal_strlit("\n");
    assert("\n"@ =~= seq!['\n']);
    assert forall|k: int| 0 <= k < ls.len() implies strip_cr(#[trigger] ls[k]) == ls[k] by {
        if ls[k].len() > 0 {
            assert(ls[k].last() == ls[k][ls[k].len() - 1]);
        }
    }
    lemma_split_joined(ls);
    assert(ls.drop_last().push(ls.last()) =~= ls);
}

} // verus!
