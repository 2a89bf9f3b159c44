//! The open bag of named settings that accompanies a tool invocation.

use crate::text::same_text;
use vstd::prelude::*;

verus! {

/// One setting of a tool. `Other` stands for any value that no tool reads
/// (nothing, a negative or fractional number, a list, a nested bag).
#[derive(Debug, PartialEq, Eq)]
pub enum OptionValue {
    Flag(bool),
    Count(u64),
    Text(String),
    Other,
}

/// The mathematical value of an [`OptionValue`].
pub enum OptionValueView {
    Flag(bool),
    Count(u64),
    Text(Seq<char>),
    Other,
}

impl View for OptionValue {
    type V = OptionValueView;

    open spec fn view(&self) -> OptionValueView {
        match self {
            OptionValue::Flag(b) => OptionValueView::Flag(*b),
            OptionValue::Count(n) => OptionValueView::Count(*n),
            OptionValue::Text(s) => OptionValueView::Text(s@),
            OptionValue::Other => OptionValueView::Other,
        }
    }
}

/// The mathematical value of a [`ToolOptions`]: its entries in the order in
/// which they were added.
pub type OptionsView = Seq<(Seq<char>, OptionValueView)>;

/// The value under `key`: that of the entry added last, if the key occurs.
pub open spec fn lookup(options: OptionsView, key: Seq<char>) -> Option<OptionValueView>
    decreases options.len(),
{
    if options.len() == 0 {
        None
    } else if options.last().0 == key {
        Some(options.last().1)
    } else {
        lookup(options.drop_last(), key)
    }
}

/// The text under `key`, if the key is present and holds text.
pub open spec fn text_option(options: OptionsView, key: Seq<char>) -> Option<Seq<char>> {
    match lookup(options, key) {
        Some(OptionValueView::Text(s)) => Some(s),
        _ => None,
    }
}

/// The count under `key`, if the key is present and holds a count.
pub open spec fn count_option(options: OptionsView, key: Seq<char>) -> Option<u64> {
    match lookup(options, key) {
        Some(OptionValueView::Count(n)) => Some(n),
        _ => None,
    }
}

/// The flag under `key`, if the key is present and holds a flag.
pub open spec fn flag_option(options: OptionsView, key: Seq<char>) -> Option<bool> {
    match lookup(options, key) {
        Some(OptionValueView::Flag(b)) => Some(b),
        _ => None,
    }
}

/// Named settings, read ad hoc by each tool. No schema is enforced: a tool
/// falls back to its default where a key is missing or holds another kind of
/// value.
#[derive(Debug, PartialEq, Eq)]
pub struct ToolOptions {
    pub entries: Vec<(String, OptionValue)>,
}

impl View for ToolOptions {
    type V = OptionsView;

    open spec fn view(&self) -> OptionsView {
        Seq::new(self.entries@.len(), |i: int| (self.entries@[i].0@, self.entries@[i].1@))
    }
}

impl ToolOptions {
    /// The empty bag.
    pub fn new() -> (r: ToolOptions)
        ensures
            r@ == Seq::<(Seq<char>, OptionValueView)>::empty(),
    {
        let r = ToolOptions { entries: Vec::new() };
        assert(r@ =~= Seq::<(Seq<char>, OptionValueView)>::empty());
        r
    }

    /// The bag with `value` added under `key`; the new entry is the one that
    /// readers of `key` see.
    pub fn with(self, key: &str, value: OptionValue) -> (r: ToolOptions)
        ensures
            r@ == self@.push((key@, value@)),
            lookup(r@, key@) == Some(value@),
            forall|other: Seq<char>| other != key@ ==> lookup(r@, other) == lookup(self@, other),
    {
        let mut entries = self.entries;
        entries.push((key.to_owned(), value));
        let r = ToolOptions { entries };
        assert(r@ =~= self@.push((key@, value@)));
        assert(r@.drop_last() =~= self@);
        r
    }

    /// The value under `key`, if any.
    pub fn get(&self, key: &str) -> (r: Option<&OptionValue>)
        ensures
            match r {
                Some(v) => lookup(self@, key@) == Some(v@),
                None => lookup(self@, key@) is None,
            },
    {
        let mut i: usize = self.entries.len();
        assert(self@.take(i as int) =~= self@);
        while i > 0
            invariant
                i <= self.entries@.len(),
                lookup(self@, key@) == lookup(self@.take(i as int), key@),
            decreases i,
        {
            let entry = &self.entries[i - 1];
            assert(self@.take(i as int).last() == self@[i - 1]);
            assert(self@.take(i as int).drop_last() =~= self@.take(i - 1));
            if same_text(entry.0.as_str(), key) {
                return Some(&entry.1);
            }
            i -= 1;
        }
        assert(self@.take(0).len() == 0);
        None
    }

    /// The text under `key`, if the key is present and holds text.
    pub fn get_text(&self, key: &str) -> (r: Option<&str>)
        ensures
            match r {
                Some(s) => text_option(self@, key@) == Some(s@),
                None => text_option(self@, key@) is None,
            },
    {
        match self.get(key) {
            Some(OptionValue::Text(s)) => Some(s.as_str()),
            _ => None,
        }
    }

    /// The count under `key`, if the key is present and holds a count.
    pub fn get_count(&self, key: &str) -> (r: Option<u64>)
        ensures
            r == count_option(self@, key@),
    {
        match self.get(key) {
            Some(OptionValue::Count(n)) => Some(*n),
            _ => None,
        }
    }

    /// The flag under `key`, if the key is present and holds a flag.
    pub fn get_flag(&self, key: &str) -> (r: Option<bool>)
        ensures
            r == flag_option(self@, key@),
    {
        match self.get(key) {
            Some(OptionValue::Flag(b)) => Some(*b),
            _ => None,
        }
    }
}

} // verus!
