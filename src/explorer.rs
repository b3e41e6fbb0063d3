//! The directory browser: the listing of one directory, a selection in it,
//! and the decisions taken on each key.
use vstd::multiset::Multiset;
use vstd::prelude::*;
use vstd::string::*;

use std::path::PathBuf;

verus! {

/// `std::path::PathBuf`, carried through as an opaque value.
#[verifier::external_type_specification]
#[verifier::external_body]
pub struct ExPathBuf(PathBuf);

/// Relies on `PathBuf`'s `Clone`: the copy holds the same path.
pub assume_specification[ <PathBuf as Clone>::clone ](p: &PathBuf) -> (r: PathBuf)
    ensures
        r == *p,
;

/// One file or directory of a listing.
#[derive(Debug, Clone)]
pub struct DirEntry {
    pub name: String,
    pub path: PathBuf,
    pub is_dir: bool,
}

/// Case-sensitive lexicographic order of names, character by character by
/// code point (the order of their UTF-8 bytes).
pub open spec fn name_lt(a: Seq<char>, b: Seq<char>) -> bool
    decreases a.len(),
{
    if a.len() == 0 {
        b.len() > 0
    } else if b.len() == 0 {
        false
    } else if a[0] != b[0] {
        (a[0] as u32) < (b[0] as u32)
    } else {
        name_lt(a.drop_first(), b.drop_first())
    }
}

/// `a` is listed before `b`: directories first, then by name.
pub open spec fn entry_before(a: DirEntry, b: DirEntry) -> bool {
    ||| (a.is_dir && !b.is_dir)
    ||| (a.is_dir == b.is_dir && name_lt(a.name@, b.name@))
}

/// No entry is listed after one that should come later.
pub open spec fn sorted_entries(s: Seq<DirEntry>) -> bool {
    forall|i: int, j: int| 0 <= i < j < s.len() ==> !entry_before(#[trigger] s[j], #[trigger] s[i])
}

/// The entry that leads to the parent directory.
pub open spec fn is_parent_entry(e: DirEntry, parent: PathBuf) -> bool {
    e.name@ == seq!['.', '.'] && e.path == parent && e.is_dir
}

/// The listing of a directory whose parent is `parent` and whose children
/// are `found`: the parent entry first when there is a parent, then the
/// children, directories first and by name.
pub open spec fn is_listing(entries: Seq<DirEntry>, parent: Option<PathBuf>, found: Seq<DirEntry>) -> bool {
    let children = if parent is Some {
        entries.drop_first()
    } else {
        entries
    };
    &&& (parent is Some ==> entries.len() >= 1 && is_parent_entry(entries[0], parent->0))
    &&& sorted_entries(children)
    &&& children.to_multiset() == found.to_multiset()
}

proof fn lemma_name_lt_irreflexive(a: Seq<char>)
    ensures
        !name_lt(a, a),
    decreases a.len(),
{
    if a.len() > 0 {
        lemma_name_lt_irreflexive(a.drop_first());
    }
}

proof fn lemma_name_lt_transitive(a: Seq<char>, b: Seq<char>, c: Seq<char>)
    requires
        name_lt(a, b),
        name_lt(b, c),
    ensures
        name_lt(a, c),
    decreases a.len(),
{
    if a.len() > 0 && b.len() > 0 && c.len() > 0 && a[0] == b[0] && b[0] == c[0] {
        lemma_name_lt_transitive(a.drop_first(), b.drop_first(), c.drop_first());
    }
}

proof fn lemma_entry_before_irreflexive(a: DirEntry)
    ensures
        !entry_before(a, a),
{
    lemma_name_lt_irreflexive(a.name@);
}

proof fn lemma_entry_before_transitive(a: DirEntry, b: DirEntry, c: DirEntry)
    requires
        entry_before(a, b),
        entry_before(b, c),
    ensures
        entry_before(a, c),
{
    if a.is_dir == b.is_dir && b.is_dir == c.is_dir {
        lemma_name_lt_transitive(a.name@, b.name@, c.name@);
    }
}

/// Compares two names in the order of `name_lt`.
pub fn name_less(a: &String, b: &String) -> (r: bool)
    ensures
        r == name_lt(a@, b@),
{
    let sa = a.as_str();
    let sb = b.as_str();
    let na = sa.unicode_len();
    let nb = sb.unicode_len();
    let mut i: usize = 0;
    assert(a@.skip(0) =~= a@);
    assert(b@.skip(0) =~= b@);
    while i < na && i < nb
        invariant
            sa@ == a@,
            sb@ == b@,
            na == a@.len(),
            nb == b@.len(),
            i <= na,
            i <= nb,
            name_lt(a@, b@) == name_lt(a@.skip(i as int), b@.skip(i as int)),
        decreases na - i,
    {
        let ca = sa.get_char(i);
        let cb = sb.get_char(i);
        assert(a@.skip(i as int)[0] == ca);
        assert(b@.skip(i as int)[0] == cb);
        if ca != cb {
            return (ca as u32) < (cb as u32);
        }
        assert(a@.skip(i as int).drop_first() =~= a@.skip(i + 1));
        assert(b@.skip(i as int).drop_first() =~= b@.skip(i + 1));
        i = i + 1;
    }
    i == na && i < nb
}

fn entry_less(a: &DirEntry, b: &DirEntry) -> (r: bool)
    ensures
        r == entry_before(*a, *b),
{
    if a.is_dir != b.is_dir {
        a.is_dir
    } else {
        name_less(&a.name, &b.name)
    }
}

/// Orders `found` directories first, then by name, keeping the order of
/// entries that compare equal.
pub fn sort_entries(found: Vec<DirEntry>) -> (r: Vec<DirEntry>)
    ensures
        sorted_entries(r@),
        r@.to_multiset() == found@.to_multiset(),
{
    broadcast use vstd::seq_lib::group_to_multiset_ensures;

    let mut rest = found;
    let mut out: Vec<DirEntry> = Vec::new();
    while rest.len() > 0
        invariant
            sorted_entries(out@),
            out@.to_multiset().add(rest@.to_multiset()) == found@.to_multiset(),
        decreases rest.len(),
    {
        let ghost rest0 = rest@;
        let x = rest.remove(0);
        proof {
            assert(rest0 =~= rest@.insert(0, x));
            vstd::seq_lib::to_multiset_insert(rest@, 0, x);
        }
        let mut p: usize = 0;
        while p < out.len() && !entry_less(&x, &out[p])
            invariant
                p <= out.len(),
                forall|k: int| 0 <= k < p ==> !entry_before(x, #[trigger] out@[k]),
            decreases out.len() - p,
        {
            p = p + 1;
        }
        let ghost before = out@;
        proof {
            vstd::seq_lib::to_multiset_insert(before, p as int, x);
        }
        out.insert(p, x);
        assert forall|i: int, j: int| 0 <= i < j < out@.len() implies !entry_before(
            #[trigger] out@[j],
            #[trigger] out@[i],
        ) by {
            if j == p {
                assert(out@[i] == before[i]);
            } else if i == p {
                assert(out@[j] == before[j - 1]);
                assert(entry_before(x, before[p as int]));
                if entry_before(before[j - 1], x) {
                    lemma_entry_before_transitive(before[j - 1], x, before[p as int]);
                    if j - 1 == p {
                        lemma_entry_before_irreflexive(before[p as int]);
                    }
                }
            } else {
                let bi = if i < p { i } else { i - 1 };
                let bj = if j < p { j } else { j - 1 };
                assert(out@[i] == before[bi]);
                assert(out@[j] == before[bj]);
            }
        }
        proof {
            broadcast use vstd::multiset::group_multiset_axioms;

            assert(out@.to_multiset().add(rest@.to_multiset()) =~= before.to_multiset().add(
                rest0.to_multiset(),
            ));
        }
    }
    assert(rest@.to_multiset() =~= Multiset::empty());
    assert(out@.to_multiset().add(Multiset::empty()) =~= out@.to_multiset());
    out
}

/// The browser's model: the directory shown, its listing, the selected
/// entry and the first entry on screen.
pub struct Explorer {
    pub current_dir: PathBuf,
    /// The parent of `current_dir`, if it has one.
    pub parent_dir: Option<PathBuf>,
    pub entries: Vec<DirEntry>,
    pub selected: usize,
    pub is_open: bool,
    pub scroll_offset: usize,
}

/// What activating the selected entry asks for.
pub enum Activated {
    /// A directory was selected: it is to be listed next.
    Directory(PathBuf),
    /// A file was selected: browsing ends with it.
    File(PathBuf),
    /// The listing is empty.
    Nothing,
}

/// A key of the browser, decoded.
#[derive(Clone, Copy, Debug, PartialEq, Eq, Structural)]
pub enum BrowserEvent {
    Up,
    Down,
    Activate,
    ParentDir,
    Quit,
}

/// What the browser asks of its caller after a key.
pub enum BrowserStep {
    /// Keep browsing.
    Continue,
    /// List this directory next (see `Explorer::load_listing`).
    Load(PathBuf),
    /// Browsing ended with this file chosen.
    Selected(PathBuf),
    /// Browsing ended with nothing chosen.
    Quit,
}

/// The scroll rule of the listing: move the window just enough that the
/// selection lies in `[offset, offset + count)`.
pub open spec fn follow_selection(selected: int, count: int, offset: int) -> int {
    if selected < offset {
        selected
    } else if selected >= offset + count {
        selected - count + 1
    } else {
        offset
    }
}

impl Explorer {
    /// The selection is an entry, or 0 in an empty listing.
    pub open spec fn wf(&self) -> bool {
        self.selected == 0 || self.selected < self.entries@.len()
    }

    /// A browser on `current_dir` with nothing listed yet.
    pub fn new(current_dir: PathBuf) -> (r: Self)
        ensures
            r.wf(),
            r.current_dir == current_dir,
            r.parent_dir is None,
            r.entries@.len() == 0,
            r.selected == 0,
            r.scroll_offset == 0,
            !r.is_open,
    {
        Explorer {
            current_dir,
            parent_dir: None,
            entries: Vec::new(),
            selected: 0,
            is_open: false,
            scroll_offset: 0,
        }
    }

    /// Shows the directory `dir`, whose parent is `parent` and whose children
    /// are `found`: the listing is rebuilt from them and the selection and
    /// scroll go back to the top.
    pub fn load_listing(&mut self, dir: PathBuf, parent: Option<PathBuf>, found: Vec<DirEntry>)
        ensures
            final(self).wf(),
            final(self).current_dir == dir,
            final(self).parent_dir == parent,
            is_listing(final(self).entries@, parent, found@),
            final(self).selected == 0,
            final(self).scroll_offset == 0,
            final(self).is_open == old(self).is_open,
    {
        let mut entries = sort_entries(found);
        let ghost children = entries@;
        match &parent {
            Some(p) => {
                let name = String::from_str("..");
                proof {
                    reveal_strlit("..");
                }
                assert(name@ =~= seq!['.', '.']);
                entries.insert(0, DirEntry { name, path: p.clone(), is_dir: true });
                assert(entries@.drop_first() =~= children);
            },
            None => {},
        }
        self.current_dir = dir;
        self.parent_dir = parent;
        self.entries = entries;
        self.selected = 0;
        self.scroll_offset = 0;
    }

    /// What activating the selected entry asks for: a directory to list
    /// next, or the file chosen.
    pub fn enter(&self) -> (r: Activated)
        ensures
            self.selected < self.entries@.len() ==> ({
                let e = self.entries@[self.selected as int];
                if e.is_dir {
                    r == Activated::Directory(e.path)
                } else {
                    r == Activated::File(e.path)
                }
            }),
            self.selected >= self.entries@.len() ==> r is Nothing,
    {
        if self.selected < self.entries.len() {
            let entry = &self.entries[self.selected];
            if entry.is_dir {
                Activated::Directory(entry.path.clone())
            } else {
                Activated::File(entry.path.clone())
            }
        } else {
            Activated::Nothing
        }
    }

    /// Selects the entry above, if there is one.
    pub fn move_up(&mut self)
        requires
            old(self).wf(),
        ensures
            final(self).wf(),
            final(self).selected == if old(self).selected > 0 {
                old(self).selected - 1
            } else {
                0
            },
            final(self).entries == old(self).entries,
            final(self).scroll_offset == old(self).scroll_offset,
            final(self).current_dir == old(self).current_dir,
            final(self).parent_dir == old(self).parent_dir,
            final(self).is_open == old(self).is_open,
    {
        if self.selected > 0 {
            self.selected = self.selected - 1;
        }
    }

    /// Selects the entry below, if there is one.
    pub fn move_down(&mut self)
        requires
            old(self).wf(),
        ensures
            final(self).wf(),
            final(self).selected == if old(self).selected + 1 < old(self).entries@.len() {
                old(self).selected + 1
            } else {
                old(self).selected as int
            },
            final(self).entries == old(self).entries,
            final(self).scroll_offset == old(self).scroll_offset,
            final(self).current_dir == old(self).current_dir,
            final(self).parent_dir == old(self).parent_dir,
            final(self).is_open == old(self).is_open,
    {
        if self.selected < self.entries.len() && self.entries.len() - self.selected > 1 {
            self.selected = self.selected + 1;
        }
    }

    /// Moves the first shown entry so that the selection is among the
    /// `visible_count` entries on screen.
    pub fn update_scroll(&mut self, visible_count: usize)
        requires
            old(self).wf(),
        ensures
            final(self).wf(),
            final(self).scroll_offset as int == follow_selection(
                old(self).selected as int,
                visible_count as int,
                old(self).scroll_offset as int,
            ),
            visible_count >= 1 ==> final(self).scroll_offset <= final(self).selected
                < final(self).scroll_offset + visible_count,
            final(self).selected == old(self).selected,
            final(self).entries == old(self).entries,
            final(self).current_dir == old(self).current_dir,
            final(self).parent_dir == old(self).parent_dir,
            final(self).is_open == old(self).is_open,
    {
        let count = self.entries.len();
        if self.selected < self.scroll_offset {
            self.scroll_offset = self.selected;
        } else if self.selected - self.scroll_offset >= visible_count {
            assert(self.selected < usize::MAX) by {
                assert(count <= usize::MAX);
            }
            self.scroll_offset = self.selected + 1 - visible_count;
        }
    }

    /// Applies one key: arrows move the selection and scroll, activation of
    /// a directory asks for it to be listed, of a file ends browsing with
    /// it, the parent key asks for the parent to be listed (when there is
    /// one), and the quit key ends browsing.
    pub fn step(&mut self, event: BrowserEvent, visible_count: usize) -> (r: BrowserStep)
        requires
            old(self).wf(),
        ensures
            final(self).wf(),
            final(self).entries == old(self).entries,
            final(self).current_dir == old(self).current_dir,
            final(self).parent_dir == old(self).parent_dir,
            final(self).is_open == old(self).is_open,
            event is Up ==> r is Continue && final(self).selected == if old(self).selected > 0 {
                old(self).selected - 1
            } else {
                0
            },
            event is Down ==> r is Continue && final(self).selected == if old(self).selected + 1
                < old(self).entries@.len() {
                old(self).selected + 1
            } else {
                old(self).selected as int
            },
            (event is Up || event is Down) ==> final(self).scroll_offset as int == follow_selection(
                final(self).selected as int,
                visible_count as int,
                old(self).scroll_offset as int,
            ),
            !(event is Up || event is Down) ==> final(self).selected == old(self).selected
                && final(self).scroll_offset == old(self).scroll_offset,
            event is Activate ==> (if old(self).selected < old(self).entries@.len() {
                let e = old(self).entries@[old(self).selected as int];
                if e.is_dir {
                    r == BrowserStep::Load(e.path)
                } else {
                    r == BrowserStep::Selected(e.path)
                }
            } else {
                r is Continue
            }),
            event is ParentDir ==> (match old(self).parent_dir {
                Some(p) => r == BrowserStep::Load(p),
                None => r is Continue,
            }),
            event is Quit ==> r is Quit,
    {
        match event {
            BrowserEvent::Up => {
                self.move_up();
                self.update_scroll(visible_count);
                BrowserStep::Continue
            },
            BrowserEvent::Down => {
                self.move_down();
                self.update_scroll(visible_count);
                BrowserStep::Continue
            },
            BrowserEvent::Activate => match self.enter() {
                Activated::Directory(p) => BrowserStep::Load(p),
                Activated::File(p) => BrowserStep::Selected(p),
                Activated::Nothing => BrowserStep::Continue,
            },
            BrowserEvent::ParentDir => match &self.parent_dir {
                Some(p) => BrowserStep::Load(p.clone()),
                None => BrowserStep::Continue,
            },
            BrowserEvent::Quit => BrowserStep::Quit,
        }
    }
}

} // verus!
