//! Search terms, and the list of the cards that a search term leaves.

use vstd::prelude::*;
use vstd::string::StringExecFns;
use vstd::view::View as _;
use crate::card::{
    create_item, create_item_html, item_open, item_open_html, Resource, View,
};
use crate::item::ItemState;
use crate::text::{chars_of, lowercase, push_char, to_lowercase};

verus! {

/// What is known of the device behind a card, beside the card's own
/// record.
#[derive(Clone, Debug)]
pub struct DeviceAnc {
    /// State of the device
    pub item_state: ItemState,
    /// Button that leads to the controller of the device
    pub controller_button: String,
    /// Row that shows the controller and the location of the device
    pub controller_loc_html: String,
}

/// A card view of a resource
pub trait Card: Sized {
    /// The name of the object.
    spec fn name_text(&self) -> Seq<char>;

    /// The search text, which is in lower case, matches the object.
    spec fn matches(&self, search: Seq<char>, anc: &DeviceAnc) -> bool;

    /// The compact view of the object.
    spec fn compact_html(&self, anc: &DeviceAnc) -> Seq<char>;

    /// Get the name
    fn name(&self) -> (r: &str)
        ensures
            r@ == self.name_text(),
    ;

    /// Check if a search string matches
    fn is_match(&self, search: &str, anc: &DeviceAnc) -> (r: bool)
        ensures
            r == self.matches(search@, anc),
    ;

    /// Convert to compact HTML
    fn to_html_compact(&self, anc: &DeviceAnc) -> (r: String)
        ensures
            r@ == self.compact_html(anc),
    ;
}

/// Search term
#[derive(Debug, PartialEq, Eq)]
pub enum Search {
    /// Empty search (matches anything)
    Empty,
    /// Normal search
    Normal(String),
    /// Exact (multi-word) search
    Exact(String),
}

/// What a search term holds.
pub enum SearchView {
    Empty,
    Normal(Seq<char>),
    Exact(Seq<char>),
}

impl vstd::view::View for Search {
    type V = SearchView;

    open spec fn view(&self) -> SearchView {
        match *self {
            Search::Empty => SearchView::Empty,
            Search::Normal(s) => SearchView::Normal(s@),
            Search::Exact(s) => SearchView::Exact(s@),
        }
    }
}

/// Number of double quotes that a text begins with.
pub open spec fn leading_quotes(s: Seq<char>) -> nat
    decreases s.len(),
{
    if s.len() > 0 && s[0] == '"' {
        1 + leading_quotes(s.skip(1))
    } else {
        0
    }
}

/// Number of double quotes that a text ends with.
pub open spec fn trailing_quotes(s: Seq<char>) -> nat
    decreases s.len(),
{
    if s.len() > 0 && s.last() == '"' {
        1 + trailing_quotes(s.drop_last())
    } else {
        0
    }
}

/// The text without the double quotes that it begins and ends with.
pub open spec fn unquoted(s: Seq<char>) -> Seq<char> {
    let rest = s.skip(leading_quotes(s) as int);
    rest.take(rest.len() - trailing_quotes(rest))
}

/// The search term of a text that is in lower case: empty for the empty
/// text, exact (without its quotes) for a text in double quotes, and
/// normal otherwise.
pub open spec fn term_of(s: Seq<char>) -> SearchView {
    if s.len() == 0 {
        SearchView::Empty
    } else if s.first() == '"' && s.last() == '"' {
        SearchView::Exact(unquoted(s))
    } else {
        SearchView::Normal(s)
    }
}

/// Every piece of `s` between two spaces satisfies `f`, where `word` is
/// what was read of the piece that `s` begins in.
pub open spec fn pieces_match(s: Seq<char>, word: Seq<char>, f: spec_fn(Seq<char>) -> bool) -> bool
    decreases s.len(),
{
    if s.len() == 0 {
        f(word)
    } else if s[0] == ' ' {
        f(word) && pieces_match(s.skip(1), seq![], f)
    } else {
        pieces_match(s.skip(1), word.push(s[0]), f)
    }
}

/// The search term lets the card through.
pub open spec fn accepts<C: Card>(term: SearchView, pri: &C, anc: &DeviceAnc) -> bool {
    match term {
        SearchView::Empty => true,
        SearchView::Normal(se) => pieces_match(se, seq![], |w: Seq<char>| pri.matches(w, anc)),
        SearchView::Exact(se) => pri.matches(se, anc),
    }
}

proof fn lemma_leading(s: Seq<char>, n: int)
    requires
        0 <= n <= s.len(),
        forall|i: int| 0 <= i < n ==> s[i] == '"',
        n == s.len() || s[n] != '"',
    ensures
        leading_quotes(s) == n,
    decreases n,
{
    if n > 0 {
        lemma_leading(s.skip(1), n - 1);
    }
}

proof fn lemma_trailing(s: Seq<char>, n: int)
    requires
        0 <= n <= s.len(),
        forall|i: int| s.len() - n <= i < s.len() ==> s[i] == '"',
        n == s.len() || s[s.len() - n - 1] != '"',
    ensures
        trailing_quotes(s) == n,
    decreases n,
{
    if n > 0 {
        lemma_trailing(s.drop_last(), n - 1);
    }
}

/// The text of the characters from `from` up to `to`.
fn text_of(chars: &Vec<char>, from: usize, to: usize) -> (r: String)
    requires
        from <= to <= chars@.len(),
    ensures
        r@ == chars@.subrange(from as int, to as int),
{
    let mut out = String::new();
    let mut i: usize = from;
    while i < to
        invariant
            from <= i <= to <= chars@.len(),
            out@ == chars@.subrange(from as int, i as int),
        decreases to - i,
    {
        push_char(&mut out, chars[i]);
        assert(out@ =~= chars@.subrange(from as int, i as int + 1));
        i += 1;
    }
    assert(out@ =~= chars@.subrange(from as int, to as int));
    out
}

/// The text without the double quotes that it begins and ends with.
fn trim_quotes(chars: &Vec<char>) -> (r: String)
    ensures
        r@ == unquoted(chars@),
{
    let n = chars.len();
    let mut from: usize = 0;
    while from < n && chars[from] == '"'
        invariant
            n == chars@.len(),
            from <= n,
            forall|i: int| 0 <= i < from ==> chars@[i] == '"',
        decreases n - from,
    {
        from += 1;
    }
    let mut to: usize = n;
    while to > from && chars[to - 1] == '"'
        invariant
            n == chars@.len(),
            from <= to <= n,
            forall|i: int| to <= i < n ==> chars@[i] == '"',
        decreases to,
    {
        to -= 1;
    }
    proof {
        lemma_leading(chars@, from as int);
        let rest = chars@.skip(from as int);
        lemma_trailing(rest, n - to);
        assert(rest.take(rest.len() - (n - to)) =~= chars@.subrange(from as int, to as int));
    }
    text_of(chars, from, to)
}

impl Search {
    /// Create a new search term
    pub fn new(se: &str) -> (r: Self)
        ensures
            r@ == term_of(lowercase(se@)),
    {
        let se = to_lowercase(se);
        let chars = chars_of(se.as_str());
        if chars.len() == 0 {
            Search::Empty
        } else if chars[0] == '"' && chars[chars.len() - 1] == '"' {
            Search::Exact(trim_quotes(&chars))
        } else {
            Search::Normal(se)
        }
    }

    /// Test if a card matches the search
    pub fn is_match<C: Card>(&self, pri: &C, anc: &DeviceAnc) -> (r: bool)
        ensures
            r == accepts(self@, pri, anc),
    {
        match self {
            Search::Empty => true,
            Search::Normal(se) => all_pieces_match(se.as_str(), pri, anc),
            Search::Exact(se) => pri.is_match(se.as_str(), anc),
        }
    }
}

/// Whether every piece of `se` between two spaces matches the card.
fn all_pieces_match<C: Card>(se: &str, pri: &C, anc: &DeviceAnc) -> (r: bool)
    ensures
        r == pieces_match(se@, seq![], |w: Seq<char>| pri.matches(w, anc)),
{
    broadcast use vstd::string::group_string_axioms;

    let ghost f = |w: Seq<char>| pri.matches(w, anc);
    let mut word = String::new();
    let mut all = true;
    proof {
        assert(se@.skip(0) =~= se@);
        assert(word@ =~= Seq::<char>::empty());
    }
    for c in it: se.chars()
        invariant
            it.seq() == se@,
            f == (|w: Seq<char>| pri.matches(w, anc)),
            (all && pieces_match(se@.skip(it.index() as int), word@, f)) == pieces_match(
                se@,
                seq![],
                f,
            ),
    {
        proof {
            let rest = se@.skip(it.index() as int);
            assert(rest[0] == c);
            assert(rest.skip(1) =~= se@.skip(it.index() + 1));
        }
        if c == ' ' {
            if !pri.is_match(word.as_str(), anc) {
                all = false;
            }
            word = String::new();
        } else {
            push_char(&mut word, c);
        }
    }
    let last = pri.is_match(word.as_str(), anc);
    proof {
        assert(se@.skip(se@.len() as int).len() == 0);
    }
    all && last
}

/// The list items of the first `n` objects that the search term lets
/// through: each with its compact view.
pub open spec fn items_html<C: Card>(
    rname: Seq<char>,
    obs: Seq<C>,
    n: int,
    term: SearchView,
    anc: &DeviceAnc,
) -> Seq<char>
    decreases n,
{
    if n <= 0 {
        seq![]
    } else if accepts(term, &obs[n - 1], anc) {
        items_html(rname, obs, n - 1, term, anc) + item_open_html(rname, obs[n - 1].name_text())
            + obs[n - 1].compact_html(anc) + "</li>"@
    } else {
        items_html(rname, obs, n - 1, term, anc)
    }
}

/// The list of cards: the "Create" card, and the card of every object
/// that the search term lets through, in order.
pub open spec fn list_html<C: Card>(
    rname: Seq<char>,
    next_name: Seq<char>,
    obs: Seq<C>,
    term: SearchView,
    anc: &DeviceAnc,
) -> Seq<char> {
    "<ul class='cards'>"@ + create_item_html(rname, next_name) + items_html(
        rname,
        obs,
        obs.len() as int,
        term,
        anc,
    ) + "</ul>"@
}

/// Build the card list of a resource type from the objects that were
/// fetched.
///
/// * `next_name` Next available name, for the "Create" card.
pub fn build_list<C: Card>(
    res: Resource,
    obs: &Vec<C>,
    search: &str,
    anc: &DeviceAnc,
    next_name: &str,
) -> (r: String)
    ensures
        r@ == list_html(res.name_text(), next_name@, obs@, term_of(lowercase(search@)), anc),
{
    let rname = res.rname();
    let term = Search::new(search);
    let mut html = String::new();
    html.append("<ul class='cards'>");
    html.append(create_item(rname, next_name).as_str());
    let ghost head = html@;
    let mut i: usize = 0;
    while i < obs.len()
        invariant
            i <= obs@.len(),
            html@ == head + items_html(rname@, obs@, i as int, term@, anc),
        decreases obs@.len() - i,
    {
        let pri = &obs[i];
        if term.is_match(pri, anc) {
            html.append(item_open(rname, pri.name()).as_str());
            html.append(pri.to_html_compact(anc).as_str());
            html.append("</li>");
        }
        assert(html@ =~= head + items_html(rname@, obs@, i as int + 1, term@, anc));
        i += 1;
    }
    html.append("</ul>");
    assert(head =~= "<ul class='cards'>"@ + create_item_html(rname@, next_name@));
    html
}

} // verus!
