//! The set of excluded-window keywords: lower-case, without repeats, in the
//! order they were added.

use vstd::prelude::*;
use vstd::string::*;
use crate::text::{lower_of, to_lower};
use crate::text::views;

verus! {

/// The keyword list.
pub struct ExcludedWindows {
    keywords: Vec<String>,
}

/// What an add or a remove did.
#[derive(Clone, Copy, Debug, PartialEq, Eq, Structural)]
pub enum KeywordChange {
    /// The list changed.
    Changed,
    /// Nothing to do: already present (add) or absent (remove).
    Unchanged,
}

/// The keywords every agent starts with.
pub open spec fn default_keywords() -> Seq<Seq<char>> {
    seq!["password"@, "key"@, "secret"@, "private"@, "personal"@, "settings"@, "options"@]
}

/// The keyword that hides the administration window.
pub open spec fn admin_keyword() -> Seq<char> {
    "admin"@
}

impl View for ExcludedWindows {
    type V = Seq<Seq<char>>;

    closed spec fn view(&self) -> Seq<Seq<char>> {
        views(self.keywords@)
    }
}

fn index_of(keywords: &Vec<String>, word: &String) -> (r: Option<usize>)
    ensures
        r matches Some(i) ==> i < keywords@.len() && keywords@[i as int]@ == word@,
        r is None ==> !views(keywords@).contains(word@),
{
    let mut i: usize = 0;
    while i < keywords.len()
        invariant
            i <= keywords@.len(),
            forall|k: int| 0 <= k < i ==> keywords@[k]@ != word@,
        decreases keywords@.len() - i,
    {
        if keywords[i].eq(word) {
            return Some(i);
        }
        i = i + 1;
    }
    proof {
        assert forall|k: int| 0 <= k < views(keywords@).len() implies views(keywords@)[k] != word@ by {
            assert(views(keywords@)[k] == keywords@[k]@);
        }
    }
    None
}

impl ExcludedWindows {
    pub closed spec fn wf(&self) -> bool {
        self@.no_duplicates()
    }

    /// The default keywords.
    pub fn new() -> (r: ExcludedWindows)
        ensures
            r@ == default_keywords(),
            r.wf(),
    {
        let keywords = vec![
            String::from_str("password"),
            String::from_str("key"),
            String::from_str("secret"),
            String::from_str("private"),
            String::from_str("personal"),
            String::from_str("settings"),
            String::from_str("options"),
        ];
        let r = ExcludedWindows { keywords };
        proof {
            assert(r@ =~= default_keywords());
            reveal_strlit("password");
            reveal_strlit("key");
            reveal_strlit("secret");
            reveal_strlit("private");
            reveal_strlit("personal");
            reveal_strlit("settings");
            reveal_strlit("options");
            assert(r@.no_duplicates()) by {
                assert forall|i: int, j: int|
                    0 <= i < r@.len() && 0 <= j < r@.len() && i != j implies r@[i] != r@[j] by {
                    if r@[i] == r@[j] {
                        assert(r@[i].len() == r@[j].len());
                        assert(r@[i][0] == r@[j][0]);
                        assert(r@[i][1] == r@[j][1]);
                        assert(r@[i][2] == r@[j][2]);
                        assert(r@[i][3] == r@[j][3]);
                    }
                }
            }
        }
        r
    }

    /// An empty list.
    pub fn empty() -> (r: ExcludedWindows)
        ensures
            r@ == Seq::<Seq<char>>::empty(),
            r.wf(),
    {
        let r = ExcludedWindows { keywords: Vec::new() };
        proof {
            assert(r@ =~= Seq::<Seq<char>>::empty());
        }
        r
    }

    /// The keywords, in the order they were added.
    pub fn keywords(&self) -> (r: Vec<String>)
        ensures
            views(r@) == self@,
    {
        let c = self.keywords.clone();
        proof {
            assert(views(c@) =~= views(self.keywords@));
        }
        c
    }

    /// Adds `title`, folded to lower case, unless it is already present.
    pub fn add(&mut self, title: &str) -> (r: KeywordChange)
        requires
            old(self).wf(),
        ensures
            final(self).wf(),
            old(self)@.contains(lower_of(title@)) ==> r == KeywordChange::Unchanged && final(self)@
                == old(self)@,
            !old(self)@.contains(lower_of(title@)) ==> r == KeywordChange::Changed && final(self)@
                == old(self)@.push(lower_of(title@)),
    {
        let word = to_lower(title);
        match index_of(&self.keywords, &word) {
            Some(i) => {
                proof {
                    assert(self@[i as int] == word@);
                }
                KeywordChange::Unchanged
            },
            None => {
                self.keywords.push(word);
                proof {
                    assert(self@ =~= old(self)@.push(lower_of(title@)));
                }
                KeywordChange::Changed
            },
        }
    }

    /// Removes `title`, folded to lower case, if present.
    pub fn remove(&mut self, title: &str) -> (r: KeywordChange)
        requires
            old(self).wf(),
        ensures
            final(self).wf(),
            !old(self)@.contains(lower_of(title@)) ==> r == KeywordChange::Unchanged && final(self)@
                == old(self)@,
            old(self)@.contains(lower_of(title@)) ==> r == KeywordChange::Changed && exists|i: int|
                0 <= i < old(self)@.len() && old(self)@[i] == lower_of(title@) && final(self)@
                    == old(self)@.remove(i),
            !final(self)@.contains(lower_of(title@)),
    {
        let word = to_lower(title);
        match index_of(&self.keywords, &word) {
            None => KeywordChange::Unchanged,
            Some(i) => {
                let ghost before = self@;
                self.keywords.remove(i);
                proof {
                    assert(before[i as int] == word@);
                    assert(self@ =~= before.remove(i as int));
                    assert forall|a: int, b: int|
                        0 <= a < self@.len() && 0 <= b < self@.len() && a != b implies self@[a]
                        != self@[b] by {
                        let a0 = if a < i { a } else { a + 1 };
                        let b0 = if b < i { b } else { b + 1 };
                        assert(self@[a] == before[a0]);
                        assert(self@[b] == before[b0]);
                    }
                    if self@.contains(word@) {
                        let k = choose|k: int| 0 <= k < self@.len() && self@[k] == word@;
                        let k0 = if k < i { k } else { k + 1 };
                        assert(before[k0] == word@);
                        assert(before[i as int] == word@);
                    }
                }
                KeywordChange::Changed
            },
        }
    }

    /// Adds the keyword that hides the administration window, unless present.
    pub fn add_admin(&mut self) -> (r: KeywordChange)
        requires
            old(self).wf(),
        ensures
            final(self).wf(),
            old(self)@.contains(admin_keyword()) ==> r == KeywordChange::Unchanged && final(self)@
                == old(self)@,
            !old(self)@.contains(admin_keyword()) ==> r == KeywordChange::Changed && final(self)@
                == old(self)@.push(admin_keyword()),
    {
        let word = String::from_str("admin");
        match index_of(&self.keywords, &word) {
            Some(i) => {
                proof {
                    assert(self@[i as int] == word@);
                }
                KeywordChange::Unchanged
            },
            None => {
                self.keywords.push(word);
                proof {
                    assert(self@ =~= old(self)@.push(admin_keyword()));
                }
                KeywordChange::Changed
            },
        }
    }
}

} // verus!
