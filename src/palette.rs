use vstd::prelude::*;
use crate::document::{Node, node_get};
use crate::error::{ThemeError, ThemeFault};

verus! {

/// A mapping from color names to literal color strings.
#[derive(Debug)]
pub struct Palette {
    inner: Vec<(String, String)>,
}

impl View for Palette {
    type V = Map<Seq<char>, Seq<char>>;

    closed spec fn view(&self) -> Map<Seq<char>, Seq<char>> {
        Map::new(
            |k: Seq<char>| exists|i: int| 0 <= i < self.inner@.len() && self.inner@[i].0@ == k,
            |k: Seq<char>|
                self.inner@[choose|i: int| 0 <= i < self.inner@.len() && self.inner@[i].0@ == k].1@,
        )
    }
}

/// Folds the entries of a palette table into `acc`, one after another: a
/// string value binds its key, any other value is an error.
pub open spec fn palette_entries(acc: Map<Seq<char>, Seq<char>>, entries: Seq<(String, Node)>) -> Result<
    Map<Seq<char>, Seq<char>>,
    ThemeFault,
>
    decreases entries.len(),
{
    if entries.len() == 0 {
        Ok(acc)
    } else {
        match entries[0].1 {
            Node::Str(c) => palette_entries(acc.insert(entries[0].0@, c@), entries.drop_first()),
            _ => Err(ThemeFault::WrongAttributeType(entries[0].0@)),
        }
    }
}

/// The palette that a document defines in its `palette` section.
pub open spec fn palette_of(doc: Node) -> Result<Map<Seq<char>, Seq<char>>, ThemeFault> {
    match node_get(doc, "palette"@) {
        None => Err(ThemeFault::MissingSection("palette"@)),
        Some(Node::Table(entries)) => palette_entries(Map::empty(), entries@),
        Some(_) => Err(ThemeFault::WrongShape("palette"@)),
    }
}

impl Palette {
    /// No two entries share a name.
    pub closed spec fn wf(&self) -> bool {
        forall|i: int, j: int|
            0 <= i < j < self.inner@.len() ==> self.inner@[i].0@ != self.inner@[j].0@
    }

    proof fn lemma_entry(&self, i: int)
        requires
            self.wf(),
            0 <= i < self.inner@.len(),
        ensures
            self@.contains_key(self.inner@[i].0@),
            self@[self.inner@[i].0@] == self.inner@[i].1@,
    {
        let k = self.inner@[i].0@;
        assert(self@.contains_key(k));
        let j = choose|j: int| 0 <= j < self.inner@.len() && self.inner@[j].0@ == k;
        assert(j == i);
    }

    pub fn new() -> (r: Palette)
        ensures
            r.wf(),
            r@ == Map::<Seq<char>, Seq<char>>::empty(),
    {
        let r = Palette { inner: Vec::new() };
        assert(r@ =~= Map::<Seq<char>, Seq<char>>::empty());
        r
    }

    /// The color bound to `k`, if any.
    pub fn get(&self, k: &String) -> (r: Option<&String>)
        requires
            self.wf(),
        ensures
            match r {
                Some(v) => self@.contains_key(k@) && self@[k@] == v@,
                None => !self@.contains_key(k@),
            },
    {
        let mut i: usize = 0;
        while i < self.inner.len()
            invariant
                0 <= i <= self.inner@.len(),
                self.wf(),
                forall|j: int| 0 <= j < i ==> self.inner@[j].0@ != k@,
            decreases self.inner@.len() - i,
        {
            if self.inner[i].0 == *k {
                proof {
                    self.lemma_entry(i as int);
                }
                return Some(&self.inner[i].1);
            }
            i = i + 1;
        }
        None
    }

    /// Binds `k` to `v`, replacing an earlier binding of `k`.
    pub fn insert(&mut self, k: String, v: String)
        requires
            old(self).wf(),
        ensures
            final(self).wf(),
            final(self)@ == old(self)@.insert(k@, v@),
    {
        let ghost old_self = *self;
        let mut i: usize = 0;
        while i < self.inner.len()
            invariant
                0 <= i <= self.inner@.len(),
                *self == old_self,
                old_self.wf(),
                forall|j: int| 0 <= j < i ==> self.inner@[j].0@ != k@,
            ensures
                0 <= i <= self.inner@.len(),
                *self == old_self,
                forall|j: int| 0 <= j < i ==> self.inner@[j].0@ != k@,
                i < self.inner@.len() ==> self.inner@[i as int].0@ == k@,
            decreases self.inner@.len() - i,
        {
            if self.inner[i].0 == k {
                break;
            }
            i = i + 1;
        }
        let ghost kv = k@;
        let ghost vv = v@;
        assert forall|j: int| 0 <= j < old_self.inner@.len() && j != i implies old_self.inner@[j].0@
            != kv by {
            if j > i {
                assert(old_self.inner@[i as int].0@ == kv);
            }
        }
        if i < self.inner.len() {
            self.inner.set(i, (k, v));
        } else {
            self.inner.push((k, v));
        }
        let ghost idx = i as int;
        assert(self.inner@[idx].0@ == kv && self.inner@[idx].1@ == vv);
        assert forall|a: int, b: int| 0 <= a < b < self.inner@.len() implies self.inner@[a].0@
            != self.inner@[b].0@ by {
            if a != idx && b != idx {
                assert(self.inner@[a] == old_self.inner@[a]);
                assert(self.inner@[b] == old_self.inner@[b]);
            } else if a == idx {
                assert(self.inner@[b] == old_self.inner@[b]);
            } else {
                assert(self.inner@[a] == old_self.inner@[a]);
            }
        }
        assert forall|key: Seq<char>| #[trigger] self@.contains_key(key) == old_self@.insert(kv, vv).contains_key(key) by {
            if key != kv {
                if self@.contains_key(key) {
                    let j = choose|j: int| 0 <= j < self.inner@.len() && self.inner@[j].0@ == key;
                    assert(j != idx);
                    assert(old_self.inner@[j] == self.inner@[j]);
                }
                if old_self@.contains_key(key) {
                    let j = choose|j: int| 0 <= j < old_self.inner@.len() && old_self.inner@[j].0@ == key;
                    assert(old_self.inner@[j] == self.inner@[j]);
                }
            }
        }
        assert forall|key: Seq<char>| #[trigger] self@.contains_key(key) implies self@[key] == old_self@.insert(kv, vv)[key] by {
            let j = choose|j: int| 0 <= j < self.inner@.len() && self.inner@[j].0@ == key;
            self.lemma_entry(j);
            if key != kv {
                assert(j != idx);
                assert(old_self.inner@[j] == self.inner@[j]);
                old_self.lemma_entry(j);
            } else {
                assert(j == idx);
            }
        }
        assert(self@ =~= old_self@.insert(kv, vv));
    }

    /// Reads the `palette` section of a document.
    pub fn set(doc: &Node) -> (r: Result<Palette, ThemeError>)
        ensures
            match r {
                Ok(p) => p.wf() && palette_of(*doc) == Ok::<_, ThemeFault>(p@),
                Err(e) => palette_of(*doc) == Err::<Map<Seq<char>, Seq<char>>, _>(e@),
            },
    {
        match doc.get("palette") {
            None => Err(ThemeError::MissingSection(String::from_str("palette"))),
            Some(Node::Table(entries)) => {
                let mut palette = Palette::new();
                let mut i: usize = 0;
                assert(entries@.subrange(0, entries@.len() as int) =~= entries@);
                while i < entries.len()
                    invariant
                        0 <= i <= entries@.len(),
                        palette.wf(),
                        palette_of(*doc) == palette_entries(
                            palette@,
                            entries@.subrange(i as int, entries@.len() as int),
                        ),
                    decreases entries@.len() - i,
                {
                    let ghost rest = entries@.subrange(i as int, entries@.len() as int);
                    assert(rest.drop_first() =~= entries@.subrange(i + 1, entries@.len() as int));
                    assert(rest[0] == entries@[i as int]);
                    match &entries[i].1 {
                        Node::Str(c) => {
                            palette.insert(entries[i].0.clone(), c.clone());
                        },
                        _ => {
                            return Err(ThemeError::WrongAttributeType(entries[i].0.clone()));
                        },
                    }
                    i = i + 1;
                }
                Ok(palette)
            },
            Some(_) => Err(ThemeError::WrongShape(String::from_str("palette"))),
        }
    }
}

impl Default for Palette {
    fn default() -> (r: Palette)
        ensures
            r.wf(),
            r@ == Map::<Seq<char>, Seq<char>>::empty(),
    {
        Palette::new()
    }
}

} // verus!
