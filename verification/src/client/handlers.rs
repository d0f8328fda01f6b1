//! What an application registers to be called: a handler for content, one for
//! token usage, and a handler for each tool.
use crate::text::same_text;
use crate::types::UsageMetadata;
use vstd::prelude::*;

verus! {

/// What a content handler is told.
#[derive(Debug, Clone, PartialEq)]
pub struct ServerContentContext {
    pub text: Option<String>,
    /// Decoded audio samples.
    pub audio: Option<Vec<i16>>,
    /// Whether this piece of text or audio is final.
    pub is_done: bool,
}

/// What a usage handler is told.
#[derive(Debug, Clone, PartialEq)]
pub struct UsageMetadataContext {
    pub metadata: UsageMetadata,
}

/// Tool handlers by name, no name twice.
pub struct ToolTable<T> {
    entries: Vec<(String, T)>,
}

/// The map of entries in which a later entry counts before an earlier one.
pub open spec fn entry_map<T>(entries: Seq<(String, T)>) -> Map<Seq<char>, T>
    decreases entries.len(),
{
    if entries.len() == 0 {
        Map::empty()
    } else {
        entry_map(entries.drop_last()).insert(entries.last().0@, entries.last().1)
    }
}

/// No name occurs twice.
pub open spec fn distinct_names<T>(entries: Seq<(String, T)>) -> bool {
    forall|i: int, j: int| 0 <= i < j < entries.len() ==> entries[i].0@ != entries[j].0@
}

/// An entry replaced where it stands is an entry inserted.
proof fn lemma_entry_replaced<T>(entries: Seq<(String, T)>, i: int, entry: (String, T))
    requires
        distinct_names(entries),
        0 <= i < entries.len(),
        entries[i].0@ == entry.0@,
    ensures
        entry_map(entries.update(i, entry)) == entry_map(entries).insert(entry.0@, entry.1),
    decreases entries.len(),
{
    let rest = entries.drop_last();
    let after = entries.update(i, entry);
    if i == entries.len() - 1 {
        assert(after.drop_last() =~= rest);
        assert(entry_map(after) =~= entry_map(entries).insert(entry.0@, entry.1));
    } else {
        assert(after.drop_last() =~= rest.update(i, entry));
        assert(distinct_names(rest));
        lemma_entry_replaced(rest, i, entry);
        assert(entries.last().0@ != entry.0@);
        assert(entry_map(after) =~= entry_map(entries).insert(entry.0@, entry.1));
    }
}

impl<T> ToolTable<T> {
    /// The handlers by name.
    pub closed spec fn map(self) -> Map<Seq<char>, T> {
        entry_map(self.entries@)
    }

    #[verifier::type_invariant]
    spec fn no_name_twice(self) -> bool {
        distinct_names(self.entries@)
    }
}

impl<T> View for ToolTable<T> {
    type V = Map<Seq<char>, T>;

    open spec fn view(&self) -> Map<Seq<char>, T> {
        self.map()
    }
}

impl<T> ToolTable<T> {
    /// The table without handlers.
    pub fn new() -> (r: ToolTable<T>)
        ensures
            r@ == Map::<Seq<char>, T>::empty(),
    {
        ToolTable { entries: Vec::new() }
    }

    fn find(&self, name: &str) -> (r: Option<usize>)
        ensures
            match r {
                Some(i) => i < self.entries@.len() && self.entries@[i as int].0@ == name@
                    && self@.dom().contains(name@) && self@[name@] == self.entries@[i as int].1,
                None => !self@.dom().contains(name@) && forall|i: int|
                    0 <= i < self.entries@.len() ==> (#[trigger] self.entries@[i]).0@ != name@,
            },
    {
        let mut n: usize = self.entries.len();
        assert(self.entries@.take(n as int) =~= self.entries@);
        while n > 0
            invariant
                n <= self.entries@.len(),
                self@.dom().contains(name@) <==> entry_map(
                    self.entries@.take(n as int),
                ).dom().contains(name@),
                self@.dom().contains(name@) ==> self@[name@] == entry_map(
                    self.entries@.take(n as int),
                )[name@],
                forall|i: int|
                    n <= i < self.entries@.len() ==> (#[trigger] self.entries@[i]).0@ != name@,
            decreases n,
        {
            assert(self.entries@.take(n as int).drop_last() =~= self.entries@.take(n - 1));
            assert(self.entries@.take(n as int).last() == self.entries@[n - 1]);
            if same_text(self.entries[n - 1].0.as_str(), name) {
                return Some(n - 1);
            }
            n = n - 1;
        }
        None
    }

    /// The handler under a name.
    pub fn get(&self, name: &str) -> (r: Option<&T>)
        ensures
            match r {
                Some(handler) => self@.dom().contains(name@) && *handler == self@[name@],
                None => !self@.dom().contains(name@),
            },
    {
        match self.find(name) {
            Some(i) => Some(&self.entries[i].1),
            None => None,
        }
    }

    /// The table with the handler under the name, in place of the one that was
    /// there.
    pub fn with(self, name: String, handler: T) -> (r: ToolTable<T>)
        ensures
            r@ == self@.insert(name@, handler),
    {
        proof {
            use_type_invariant(&self);
        }
        let place = self.find(name.as_str());
        let ghost before = self.entries@;
        let ghost entry = (name, handler);
        let ToolTable { mut entries } = self;
        match place {
            Some(i) => {
                proof {
                    lemma_entry_replaced(before, i as int, entry);
                }
                entries.set(i, (name, handler));
            },
            None => {
                entries.push((name, handler));
                assert(entries@.drop_last() =~= before);
            },
        }
        ToolTable { entries }
    }
}

/// The handlers of a session.
pub struct Handlers<C, U, T> {
    pub on_server_content: Option<C>,
    pub on_usage_metadata: Option<U>,
    pub tool_handlers: ToolTable<T>,
}

impl<C, U, T> Handlers<C, U, T> {
    /// No handler at all.
    pub fn none() -> (r: Handlers<C, U, T>)
        ensures
            r.on_server_content is None,
            r.on_usage_metadata is None,
            r.tool_handlers@ == Map::<Seq<char>, T>::empty(),
    {
        Handlers {
            on_server_content: None,
            on_usage_metadata: None,
            tool_handlers: ToolTable::new(),
        }
    }
}

/// Under each name of a table stands the handler of the entry with that name, and no
/// other name has one.
pub proof fn law_entries_by_name<T>(entries: Seq<(String, T)>, i: int, name: Seq<char>)
    requires
        distinct_names(entries),
    ensures
        0 <= i < entries.len() ==> entry_map(entries).dom().contains(entries[i].0@) && entry_map(
            entries,
        )[entries[i].0@] == entries[i].1,
        (forall|j: int| 0 <= j < entries.len() ==> (#[trigger] entries[j]).0@ != name)
            ==> !entry_map(entries).dom().contains(name),
    decreases entries.len(),
{
    if entries.len() > 0 {
        let before = entries.drop_last();
        assert(distinct_names(before));
        law_entries_by_name(before, i, name);
        if 0 <= i < entries.len() - 1 {
            assert(before[i] == entries[i]);
            assert(entries[i].0@ != entries[entries.len() - 1].0@);
        }
        if forall|j: int| 0 <= j < entries.len() ==> (#[trigger] entries[j]).0@ != name {
            assert(entries[entries.len() - 1].0@ != name);
            assert forall|j: int| 0 <= j < before.len() implies (#[trigger] before[j]).0@
                != name by {
                assert(entries[j].0@ != name);
            }
        }
    }
}

} // verus!
