//! [`CommandList`] is a list of stored commands, used amongst other things
//! for bookmarks and the command history. An entry is an ordered sequence of
//! text lines; the list remembers the path it should be persisted to and an
//! optional size limit. Reading and writing the backing file is the embedding
//! program's concern; serialization to and from the on-disk text form lives
//! here and is verified.

use crate::strutil::{join_strings, spec_join, spec_lines, split_lines, str_eq, string_vec_eq};
use vstd::prelude::*;

verus! {

/// A command entry consisting of multiple lines of text.
#[derive(Debug, Clone)]
pub struct CommandEntry(pub Vec<String>);

impl View for CommandEntry {
    type V = Seq<Seq<char>>;

    open spec fn view(&self) -> Seq<Seq<char>> {
        self.0.deep_view()
    }
}

impl DeepView for CommandEntry {
    type V = Seq<Seq<char>>;

    open spec fn deep_view(&self) -> Seq<Seq<char>> {
        self@
    }
}

impl PartialEq for CommandEntry {
    fn eq(&self, other: &Self) -> (r: bool) {
        string_vec_eq(&self.0, &other.0)
    }
}

impl Eq for CommandEntry {

}

impl vstd::std_specs::cmp::PartialEqSpecImpl for CommandEntry {
    open spec fn obeys_eq_spec() -> bool {
        true
    }

    open spec fn eq_spec(&self, other: &Self) -> bool {
        self@ == other@
    }
}

impl CommandEntry {
    /// Creates a new command entry from lines of content.
    pub fn new(content: Vec<String>) -> (r: CommandEntry)
        ensures
            r@ == content.deep_view(),
    {
        CommandEntry(content)
    }

    /// Returns the lines in this entry.
    pub fn lines(&self) -> (r: &Vec<String>)
        ensures
            r.deep_view() == self@,
    {
        &self.0
    }

    /// Converts the entry to a single string, joining lines with newlines.
    pub fn as_string(&self) -> (r: String)
        ensures
            r@ == spec_join(self@, "\n"@),
    {
        join_strings(&self.0, "\n")
    }
}

/// Whether two entries hold the same lines.
fn entry_eq(a: &CommandEntry, b: &CommandEntry) -> (r: bool)
    ensures
        r == (a@ == b@),
{
    string_vec_eq(&a.0, &b.0)
}

/// What pushing one entry does to a list's contents: an entry whose text form
/// is empty, or that equals the current last entry, is not added; otherwise
/// it is appended, and if that exceeds the size limit the oldest entry is
/// dropped.
pub open spec fn spec_push_entry(
    os: Seq<Seq<Seq<char>>>,
    max: Option<usize>,
    e: Seq<Seq<char>>,
) -> Seq<Seq<Seq<char>>> {
    if spec_join(e, "\n"@).len() == 0 || (os.len() > 0 && os.last() == e) {
        os
    } else {
        let pushed = os.push(e);
        if max matches Some(m) && pushed.len() > m {
            pushed.skip(1)
        } else {
            pushed
        }
    }
}

/// The position of the first entry equal to `e` at or after `i`, if any.
pub open spec fn find_entry_from(os: Seq<Seq<Seq<char>>>, e: Seq<Seq<char>>, i: int) -> Option<int>
    decreases os.len() - i,
{
    if !(0 <= i < os.len()) {
        None
    } else if os[i] == e {
        Some(i)
    } else {
        find_entry_from(os, e, i + 1)
    }
}

/// What removing one entry does to a list's contents: the first entry equal
/// to `e` is removed; without one, the contents are unchanged.
pub open spec fn spec_remove_first(os: Seq<Seq<Seq<char>>>, e: Seq<Seq<char>>) -> Seq<
    Seq<Seq<char>>,
> {
    match find_entry_from(os, e, 0) {
        Some(i) => os.remove(i),
        None => os,
    }
}

/// The serialized text form of a list's contents: each entry's lines joined
/// with newlines, and the entries joined with a separator line of `---`.
pub open spec fn spec_serialize(os: Seq<Seq<Seq<char>>>) -> Seq<char> {
    spec_join(Seq::new(os.len(), |i: int| spec_join(os[i], "\n"@)), "\n---\n"@)
}

/// One line of serialized text folded into the parse state (the entries so
/// far and the lines of the entry being collected): empty lines are skipped,
/// a separator line completes the current entry, any other line extends it.
pub open spec fn fold_line(
    st: (Seq<Seq<Seq<char>>>, Seq<Seq<char>>),
    max: Option<usize>,
    l: Seq<char>,
) -> (Seq<Seq<Seq<char>>>, Seq<Seq<char>>) {
    if l.len() == 0 {
        st
    } else if l == "---"@ {
        (spec_push_entry(st.0, max, st.1), Seq::empty())
    } else {
        (st.0, st.1.push(l))
    }
}

/// The parse state after folding a sequence of lines, first to last.
pub open spec fn fold_lines(ls: Seq<Seq<char>>, max: Option<usize>) -> (
    Seq<Seq<Seq<char>>>,
    Seq<Seq<char>>,
)
    decreases ls.len(),
{
    if ls.len() == 0 {
        (Seq::empty(), Seq::empty())
    } else {
        fold_line(fold_lines(ls.drop_last(), max), max, ls.last())
    }
}

/// The contents parsed from serialized text: the lines are folded, a final
/// partially-collected entry is pushed, and the oldest entries are dropped
/// until the size limit is respected.
pub open spec fn spec_deserialize(s: Seq<char>, max: Option<usize>) -> Seq<Seq<Seq<char>>> {
    let st = fold_lines(spec_lines(s), max);
    let en = if st.1.len() > 0 {
        spec_push_entry(st.0, max, st.1)
    } else {
        st.0
    };
    match max {
        Some(m) => if en.len() > m {
            en.skip(en.len() - m)
        } else {
            en
        },
        None => en,
    }
}

/// A list of command entries that can be persisted to disk.
///
/// When serialized, entries are separated by `---` surrounded by newlines:
/// ```text
/// echo hello
/// ---
/// grep pattern file.txt
/// ---
/// ls -la
/// ```
#[derive(Debug, Clone)]
pub struct CommandList {
    entries: Vec<CommandEntry>,
    file: Option<String>,
    max_size: Option<usize>,
}

impl View for CommandList {
    type V = Seq<Seq<Seq<char>>>;

    closed spec fn view(&self) -> Seq<Seq<Seq<char>>> {
        self.entries.deep_view()
    }
}

impl CommandList {
    /// The path this list is persisted to, if any.
    pub closed spec fn spec_file(&self) -> Option<String> {
        self.file
    }

    /// The size limit of this list, if any.
    pub closed spec fn spec_max_size(&self) -> Option<usize> {
        self.max_size
    }

    /// Creates a new command list with optional path and size limit.
    pub fn new(file: Option<String>, max_size: Option<usize>) -> (r: CommandList)
        ensures
            r@ == Seq::<Seq<Seq<char>>>::empty(),
            r.spec_file() == file,
            r.spec_max_size() == max_size,
    {
        let r = CommandList { entries: Vec::new(), max_size, file };
        proof {
            assert(r@ =~= Seq::<Seq<Seq<char>>>::empty());
        }
        r
    }

    /// The path this list is persisted to, if any.
    pub fn file(&self) -> (r: &Option<String>)
        ensures
            *r == self.spec_file(),
    {
        &self.file
    }

    /// Returns all entries in the list.
    pub fn entries(&self) -> (r: &Vec<CommandEntry>)
        ensures
            r.deep_view() == self@,
    {
        &self.entries
    }

    /// Replaces all entries. The caller is responsible for persisting the
    /// changed list.
    pub fn set_entries(&mut self, entries: Vec<CommandEntry>)
        ensures
            final(self)@ == entries.deep_view(),
            final(self).spec_file() == old(self).spec_file(),
            final(self).spec_max_size() == old(self).spec_max_size(),
    {
        self.entries = entries;
    }

    /// Returns the number of entries.
    pub fn len(&self) -> (r: usize)
        ensures
            r == self@.len(),
    {
        self.entries.len()
    }

    /// Adds a command entry if not empty or duplicate of the last entry,
    /// respecting the size limit. The caller is responsible for persisting
    /// the changed list.
    pub fn push(&mut self, command: CommandEntry)
        ensures
            final(self)@ == spec_push_entry(old(self)@, old(self).spec_max_size(), command@),
            final(self).spec_file() == old(self).spec_file(),
            final(self).spec_max_size() == old(self).spec_max_size(),
    {
        let text = command.as_string();
        if text.as_str().is_empty() {
            return ;
        }
        if self.entries.len() > 0 && entry_eq(&self.entries[self.entries.len() - 1], &command) {
            assert(old(self)@.last() == command@);
            return ;
        }
        let ghost pre = self@;
        self.entries.push(command);
        proof {
            assert(self@ =~= pre.push(command@));
        }
        match self.max_size {
            Some(max_size) => {
                if self.entries.len() > max_size {
                    let ghost mid = self@;
                    self.entries.remove(0);
                    proof {
                        assert(self@ =~= mid.skip(1));
                    }
                }
            },
            None => {},
        }
    }

    /// Returns all entries as strings.
    pub fn as_strings(&self) -> (r: Vec<String>)
        ensures
            r.deep_view() == Seq::new(self@.len(), |i: int| spec_join(self@[i], "\n"@)),
    {
        let mut out: Vec<String> = Vec::new();
        let mut i: usize = 0;
        while i < self.entries.len()
            invariant
                i <= self@.len(),
                out.deep_view() =~= Seq::new(i as nat, |k: int| spec_join(self@[k], "\n"@)),
            decreases self@.len() - i,
        {
            let ghost pre = out.deep_view();
            out.push(self.entries[i].as_string());
            proof {
                assert(out.deep_view() =~= pre.push(spec_join(self@[i as int], "\n"@)));
                assert(out.deep_view() =~= Seq::new(
                    (i + 1) as nat,
                    |k: int| spec_join(self@[k], "\n"@),
                ));
            }
            i = i + 1;
        }
        out
    }

    /// Returns the entry at the given index.
    pub fn get_at(&self, idx: usize) -> (r: Option<&CommandEntry>)
        ensures
            idx < self@.len() ==> (r matches Some(e) && e@ == self@[idx as int]),
            idx >= self@.len() ==> r is None,
    {
        if idx < self.entries.len() {
            Some(&self.entries[idx])
        } else {
            None
        }
    }

    /// Removes the first entry equal to the given one, if present. The caller
    /// is responsible for persisting the changed list.
    pub fn remove_entry(&mut self, entry: &CommandEntry)
        ensures
            final(self)@ == spec_remove_first(old(self)@, entry@),
            final(self).spec_file() == old(self).spec_file(),
            final(self).spec_max_size() == old(self).spec_max_size(),
    {
        let mut i: usize = 0;
        while i < self.entries.len()
            invariant
                i <= self@.len(),
                *self == *old(self),
                find_entry_from(self@, entry@, 0) == find_entry_from(self@, entry@, i as int),
            decreases self@.len() - i,
        {
            if entry_eq(&self.entries[i], entry) {
                let ghost pre = self@;
                self.entries.remove(i);
                proof {
                    assert(find_entry_from(pre, entry@, i as int) == Some(i as int));
                }
                return ;
            }
            i = i + 1;
        }
    }

    /// Adds the entry if not present, or removes it if present; an entry with
    /// no lines is ignored. The caller is responsible for persisting the
    /// changed list.
    pub fn toggle_entry(&mut self, entry: CommandEntry)
        ensures
            entry@.len() == 0 ==> *final(self) == *old(self),
            entry@.len() > 0 && find_entry_from(old(self)@, entry@, 0) is Some ==> final(self)@
                == spec_remove_first(old(self)@, entry@),
            entry@.len() > 0 && find_entry_from(old(self)@, entry@, 0) is None ==> final(self)@
                == spec_push_entry(old(self)@, old(self).spec_max_size(), entry@),
            final(self).spec_file() == old(self).spec_file(),
            final(self).spec_max_size() == old(self).spec_max_size(),
    {
        if entry.lines().len() == 0 {
            return ;
        }
        if self.contains_entry(&entry) {
            self.remove_entry(&entry);
        } else {
            self.push(entry);
        }
    }

    /// Whether the list holds an entry equal to the given one.
    pub fn contains_entry(&self, entry: &CommandEntry) -> (r: bool)
        ensures
            r == (find_entry_from(self@, entry@, 0) is Some),
    {
        let mut i: usize = 0;
        while i < self.entries.len()
            invariant
                i <= self@.len(),
                find_entry_from(self@, entry@, 0) == find_entry_from(self@, entry@, i as int),
            decreases self@.len() - i,
        {
            if entry_eq(&self.entries[i], entry) {
                return true;
            }
            i = i + 1;
        }
        false
    }

    /// Serializes entries to a string with separators.
    pub fn serialize(&self) -> (r: String)
        ensures
            r@ == spec_serialize(self@),
    {
        let strings = self.as_strings();
        join_strings(&strings, "\n---\n")
    }

    /// Creates a [`CommandList`] from serialized string data.
    pub fn deserialize(path: Option<String>, max_size: Option<usize>, lines: &str) -> (r:
        CommandList)
        ensures
            r@ == spec_deserialize(lines@, max_size),
            r.spec_file() == path,
            r.spec_max_size() == max_size,
    {
        let parsed = split_lines(lines);
        let mut list = CommandList::new(path, max_size);
        let mut current: Vec<String> = Vec::new();
        let ghost all = spec_lines(lines@);
        let mut i: usize = 0;
        proof {
            assert(all.take(0) =~= Seq::<Seq<char>>::empty());
            assert(current.deep_view() =~= Seq::<Seq<char>>::empty());
        }
        while i < parsed.len()
            invariant
                parsed.deep_view() == all,
                i <= all.len(),
                list.spec_max_size() == max_size,
                list.spec_file() == path,
                (list@, current.deep_view()) == fold_lines(all.take(i as int), max_size),
            decreases all.len() - i,
        {
            proof {
                assert(all.take(i + 1).drop_last() =~= all.take(i as int));
                assert(all.take(i + 1).last() == all[i as int]);
            }
            let l = &parsed[i];
            if l.as_str().is_empty() {
            } else if str_eq(l.as_str(), "---") {
                list.push(CommandEntry::new(current));
                current = Vec::new();
                proof {
                    assert(current.deep_view() =~= Seq::<Seq<char>>::empty());
                }
            } else {
                let ghost pre = current.deep_view();
                current.push(l.clone());
                proof {
                    assert(current.deep_view() =~= pre.push(all[i as int]));
                }
            }
            i = i + 1;
        }
        proof {
            assert(all.take(all.len() as int) =~= all);
        }
        if current.len() > 0 {
            list.push(CommandEntry::new(current));
        }
        let ghost full = list@;
        proof {
            assert(full.skip(0) =~= full);
        }
        match max_size {
            Some(m) => {
                while list.entries.len() > m
                    invariant
                        list@.len() <= full.len(),
                        full.len() > m ==> list@.len() >= m,
                        full.len() <= m ==> list@ == full,
                        list@ == full.skip(full.len() - list@.len()),
                        list.spec_max_size() == max_size,
                        list.spec_file() == path,
                    decreases list@.len(),
                {
                    let ghost pre = list@;
                    list.entries.remove(0);
                    proof {
                        assert(list@ =~= pre.skip(1));
                        assert(list@ =~= full.skip(full.len() - list@.len()));
                    }
                }
                proof {
                    if full.len() > m {
                        assert(list@ == full.skip(full.len() - m));
                    }
                }
            },
            None => {},
        }
        list
    }
}

} // verus!
