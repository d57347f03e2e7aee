//! Symbols for the kinds of a file.

use crate::icons::{configured_or, symbol_or};
use crate::text::{opt_text, opt_text_clone, opt_text_eq, str_eq};
use vstd::prelude::*;

verus! {

/// Shown for a directory where no symbol is configured: nothing.
pub const MIME_DIRECTORY_DEFAULT: &'static str = "";

/// The map that a list of entries stands for: each name with the symbol of
/// the last entry under that name.
pub open spec fn table(entries: Seq<(Seq<char>, Seq<char>)>) -> Map<Seq<char>, Seq<char>>
    decreases entries.len(),
{
    if entries.len() == 0 {
        Map::empty()
    } else {
        table(entries.drop_last()).insert(entries.last().0, entries.last().1)
    }
}

/// The names in the map are the names of the entries.
pub proof fn lemma_table_names(entries: Seq<(Seq<char>, Seq<char>)>, name: Seq<char>)
    ensures
        table(entries).contains_key(name) <==> exists|i: int|
            0 <= i < entries.len() && (#[trigger] entries[i]).0 == name,
    decreases entries.len(),
{
    if entries.len() > 0 {
        let front = entries.drop_last();
        lemma_table_names(front, name);
        if table(entries).contains_key(name) {
            if entries.last().0 == name {
                assert(entries[entries.len() - 1].0 == name);
            } else {
                let i = choose|i: int| 0 <= i < front.len() && (#[trigger] front[i]).0 == name;
                assert(entries[i].0 == name);
            }
        } else {
            assert forall|i: int| 0 <= i < entries.len() implies (#[trigger] entries[i]).0
                != name by {
                if i < front.len() {
                    assert(front[i].0 != name);
                }
            }
        }
    }
}

/// Symbols for files by the name of their type, and one for directories.
#[derive(Debug)]
pub struct Mime {
    pub directory: Option<String>,
    /// Pairs of a type's name and its symbol.  Where a name occurs more
    /// than once, the last pair counts.
    pub mime: Vec<(String, String)>,
}

/// Mathematical value of a [`Mime`] table.
pub ghost struct MimeView {
    pub directory: Option<Seq<char>>,
    pub mime: Map<Seq<char>, Seq<char>>,
}

impl MimeView {
    /// The table in which nothing is configured.
    pub open spec fn unset() -> MimeView {
        MimeView { directory: None, mime: Map::empty() }
    }

    /// The symbol configured under `name`, else `name` itself.
    pub open spec fn get(self, name: Seq<char>) -> Seq<char> {
        if self.mime.contains_key(name) {
            self.mime[name]
        } else {
            name
        }
    }
}

impl View for Mime {
    type V = MimeView;

    open spec fn view(&self) -> MimeView {
        MimeView { directory: opt_text(self.directory), mime: table(self.mime.deep_view()) }
    }
}

/// Finds the symbol that the entries give `name`.
fn find<'a>(entries: &'a Vec<(String, String)>, name: &str) -> (found: Option<&'a str>)
    ensures
        match found {
            Some(symbol) => table(entries.deep_view()).get(name@) == Some(symbol@),
            None => table(entries.deep_view()).get(name@) == None::<Seq<char>>,
        },
{
    let ghost pairs = entries.deep_view();
    let mut i = entries.len();
    assert(pairs.take(i as int) =~= pairs);
    while i > 0
        invariant
            i <= entries.len(),
            pairs == entries.deep_view(),
            table(pairs).get(name@) == table(pairs.take(i as int)).get(name@),
        decreases i,
    {
        i -= 1;
        proof {
            let seen = pairs.take(i + 1);
            assert(seen.drop_last() =~= pairs.take(i as int));
            assert(seen.last() == pairs[i as int]);
        }
        if str_eq(entries[i].0.as_str(), name) {
            return Some(entries[i].1.as_str());
        }
    }
    None
}

/// Copies the entries, in order.
fn clone_entries(entries: &Vec<(String, String)>) -> (copy: Vec<(String, String)>)
    ensures
        copy.deep_view() == entries.deep_view(),
{
    let mut copy: Vec<(String, String)> = Vec::new();
    let mut i: usize = 0;
    while i < entries.len()
        invariant
            i <= entries.len(),
            copy.len() == i,
            forall|j: int| 0 <= j < i ==> copy@[j].deep_view() == entries@[j].deep_view(),
        decreases entries.len() - i,
    {
        copy.push((entries[i].0.clone(), entries[i].1.clone()));
        i += 1;
    }
    assert(copy.deep_view() =~= entries.deep_view());
    copy
}

/// Whether every name that `ours` gives a symbol has the same symbol in
/// `theirs`.
fn covered_by(ours: &Vec<(String, String)>, theirs: &Vec<(String, String)>) -> (r: bool)
    ensures
        r == table(ours.deep_view()).submap_of(table(theirs.deep_view())),
{
    let ghost left = table(ours.deep_view());
    let ghost right = table(theirs.deep_view());
    let mut i: usize = 0;
    while i < ours.len()
        invariant
            i <= ours.len(),
            left == table(ours.deep_view()),
            right == table(theirs.deep_view()),
            forall|j: int|
                0 <= j < i ==> left.get((#[trigger] ours.deep_view()[j]).0) == right.get(
                    ours.deep_view()[j].0,
                ),
        decreases ours.len() - i,
    {
        let name = ours[i].0.as_str();
        proof {
            assert(ours.deep_view()[i as int].0 == name@);
            lemma_table_names(ours.deep_view(), name@);
        }
        let same = match (find(ours, name), find(theirs, name)) {
            (Some(mine), Some(other)) => str_eq(mine, other),
            _ => false,
        };
        if !same {
            assert(left.dom().contains(name@));
            return false;
        }
        i += 1;
    }
    proof {
        assert forall|name: Seq<char>| #[trigger] left.dom().contains(name) implies right.dom().contains(
            name,
        ) && left[name] == right[name] by {
            lemma_table_names(ours.deep_view(), name);
            let j = choose|j: int|
                0 <= j < ours.deep_view().len() && (#[trigger] ours.deep_view()[j]).0 == name;
            assert(left.get(ours.deep_view()[j].0) == right.get(ours.deep_view()[j].0));
        }
    }
    true
}

impl Mime {
    /// Symbol for a directory.
    #[inline]
    pub fn directory(&self) -> (symbol: &str)
        ensures
            symbol@ == symbol_or(self@.directory, MIME_DIRECTORY_DEFAULT@),
    {
        configured_or(&self.directory, MIME_DIRECTORY_DEFAULT)
    }

    /// Symbol for a file of the type `name`: the configured one, else
    /// `name` itself.
    #[inline]
    pub fn get<'name, 'mime: 'name>(&'mime self, name: &'name str) -> (symbol: &'name str)
        ensures
            symbol@ == self@.get(name@),
    {
        match find(&self.mime, name) {
            Some(symbol) => symbol,
            None => name,
        }
    }
}

impl Default for Mime {
    /// The table in which nothing is configured.
    fn default() -> (r: Self)
        ensures
            r@ == MimeView::unset(),
    {
        Mime { directory: None, mime: Vec::new() }
    }
}

impl Clone for Mime {
    fn clone(&self) -> (r: Self)
        ensures
            r@ == self@,
    {
        Mime { directory: opt_text_clone(&self.directory), mime: clone_entries(&self.mime) }
    }
}

/// Two tables are equal where they give every name the same symbol, in
/// whatever order the pairs were written.
impl PartialEq for Mime {
    fn eq(&self, other: &Self) -> (r: bool) {
        let r = opt_text_eq(&self.directory, &other.directory) && covered_by(
            &self.mime,
            &other.mime,
        ) && covered_by(&other.mime, &self.mime);
        proof {
            if r {
                assert(self@.mime =~= other@.mime);
            }
        }
        r
    }
}

impl vstd::std_specs::cmp::PartialEqSpecImpl for Mime {
    open spec fn obeys_eq_spec() -> bool {
        true
    }

    open spec fn eq_spec(&self, other: &Self) -> bool {
        self@ == other@
    }
}

impl Eq for Mime {

}

} // verus!
