use vstd::prelude::*;

verus! {

/// One mapping: a short code and the URL it redirects to.
#[derive(Clone, Debug, PartialEq, Eq)]
pub struct LinkEntry {
    pub code: String,
    pub destination: String,
}

/// No code occurs twice in the listing.
pub open spec fn codes_distinct(s: Seq<LinkEntry>) -> bool {
    forall|i: int, j: int| 0 <= i < j < s.len() ==> (#[trigger] s[i]).code@ != (#[trigger] s[j]).code@
}

/// Some entry of the listing has this code.
pub open spec fn lists_code(s: Seq<LinkEntry>, code: Seq<char>) -> bool {
    exists|i: int| 0 <= i < s.len() && (#[trigger] s[i]).code@ == code
}

/// The mapping that a listing stands for: its codes, each with the
/// destination of an entry that carries it.
pub open spec fn listed_map(s: Seq<LinkEntry>) -> Map<Seq<char>, Seq<char>> {
    Map::new(
        |code: Seq<char>| lists_code(s, code),
        |code: Seq<char>| s[choose|i: int| 0 <= i < s.len() && (#[trigger] s[i]).code@ == code].destination@,
    )
}

/// In a listing without repeated codes each entry decides its code's
/// destination.
pub proof fn lemma_listed_entry(s: Seq<LinkEntry>, i: int)
    requires
        codes_distinct(s),
        0 <= i < s.len(),
    ensures
        listed_map(s).contains_key(s[i].code@),
        listed_map(s)[s[i].code@] == s[i].destination@,
{
    let code = s[i].code@;
    assert(lists_code(s, code));
    let j = choose|j: int| 0 <= j < s.len() && (#[trigger] s[j]).code@ == code;
    assert(j == i);
}

/// The in-memory mirror of the durable link rows.
pub struct MappingCache {
    entries: Vec<LinkEntry>,
}

impl View for MappingCache {
    type V = Map<Seq<char>, Seq<char>>;

    closed spec fn view(&self) -> Map<Seq<char>, Seq<char>> {
        listed_map(self.entries@)
    }
}

impl MappingCache {
    /// No code is stored twice.
    pub closed spec fn wf(&self) -> bool {
        codes_distinct(self.entries@)
    }

    /// A cache without mappings.
    pub fn new() -> (cache: MappingCache)
        ensures
            cache.wf(),
            cache@ == Map::<Seq<char>, Seq<char>>::empty(),
    {
        let cache = MappingCache { entries: Vec::new() };
        assert(cache@ =~= Map::<Seq<char>, Seq<char>>::empty());
        cache
    }

    fn position(&self, code: &String) -> (found: Option<usize>)
        ensures
            match found {
                Some(i) => i < self.entries@.len() && self.entries@[i as int].code@ == code@,
                None => !lists_code(self.entries@, code@),
            },
    {
        let mut i: usize = 0;
        while i < self.entries.len()
            invariant
                i <= self.entries@.len(),
                forall|j: int| 0 <= j < i ==> (#[trigger] self.entries@[j]).code@ != code@,
            decreases self.entries@.len() - i,
        {
            if self.entries[i].code == *code {
                return Some(i);
            }
            i += 1;
        }
        None
    }

    /// Whether the code has a mapping.
    pub fn contains(&self, code: &str) -> (present: bool)
        requires
            self.wf(),
        ensures
            present == self@.contains_key(code@),
    {
        let key = String::from_str(code);
        self.position(&key).is_some()
    }

    /// The destination of the code, if it has one.
    pub fn get(&self, code: &str) -> (destination: Option<String>)
        requires
            self.wf(),
        ensures
            match destination {
                Some(d) => self@.contains_key(code@) && d@ == self@[code@],
                None => !self@.contains_key(code@),
            },
    {
        let key = String::from_str(code);
        match self.position(&key) {
            Some(i) => {
                proof {
                    lemma_listed_entry(self.entries@, i as int);
                }
                Some(self.entries[i].destination.clone())
            },
            None => None,
        }
    }

    /// Maps the code to the destination, whether or not it had one.
    pub fn insert(&mut self, code: String, destination: String)
        requires
            old(self).wf(),
        ensures
            final(self).wf(),
            final(self)@ == old(self)@.insert(code@, destination@),
    {
        let ghost before = self.entries@;
        let ghost c = code@;
        let ghost d = destination@;
        let ghost at: int;
        match self.position(&code) {
            Some(i) => {
                proof {
                    at = i as int;
                }
                self.entries.set(i, LinkEntry { code, destination });
            },
            None => {
                proof {
                    at = before.len() as int;
                }
                self.entries.push(LinkEntry { code, destination });
            },
        }
        proof {
            let after = self.entries@;
            assert(after[at].code@ == c && after[at].destination@ == d);
            assert(forall|j: int| 0 <= j < before.len() && j != at ==> after[j] == before[j]);
            assert(codes_distinct(after));
            assert forall|k: Seq<char>| lists_code(after, k) <==> (k == c || lists_code(before, k)) by {
                if lists_code(after, k) && k != c {
                    let j = choose|j: int| 0 <= j < after.len() && (#[trigger] after[j]).code@ == k;
                    assert(before[j].code@ == k);
                }
                if lists_code(before, k) {
                    let j = choose|j: int| 0 <= j < before.len() && (#[trigger] before[j]).code@ == k;
                    assert(after[j].code@ == k);
                }
            }
            assert forall|k: Seq<char>| lists_code(after, k) implies #[trigger] listed_map(after)[k]
                == old(self)@.insert(c, d)[k] by {
                let j = choose|j: int| 0 <= j < after.len() && (#[trigger] after[j]).code@ == k;
                lemma_listed_entry(after, j);
                if k != c {
                    assert(before[j].code@ == k);
                    lemma_listed_entry(before, j);
                }
            }
            assert(final(self)@ =~= old(self)@.insert(c, d));
        }
    }

    /// Gives the code a new destination if it has a mapping, and reports
    /// whether it had one. An absent code stays absent.
    pub fn update(&mut self, code: String, destination: String) -> (present: bool)
        requires
            old(self).wf(),
        ensures
            final(self).wf(),
            present == old(self)@.contains_key(code@),
            final(self)@ == if present {
                old(self)@.insert(code@, destination@)
            } else {
                old(self)@
            },
    {
        if self.position(&code).is_some() {
            self.insert(code, destination);
            true
        } else {
            false
        }
    }

    /// Drops the mapping of the code, and reports whether it had one.
    pub fn remove(&mut self, code: &str) -> (present: bool)
        requires
            old(self).wf(),
        ensures
            final(self).wf(),
            present == old(self)@.contains_key(code@),
            final(self)@ == old(self)@.remove(code@),
    {
        let key = String::from_str(code);
        let ghost before = self.entries@;
        let ghost c = code@;
        match self.position(&key) {
            Some(i) => {
                self.entries.remove(i);
                proof {
                    let after = self.entries@;
                    let at = i as int;
                    assert(forall|j: int| 0 <= j < at ==> after[j] == before[j]);
                    assert(forall|j: int| at <= j < after.len() ==> after[j] == before[j + 1]);
                    assert(codes_distinct(after));
                    assert forall|k: Seq<char>| lists_code(after, k) <==> (k != c && lists_code(
                        before,
                        k,
                    )) by {
                        if lists_code(after, k) {
                            let j = choose|j: int| 0 <= j < after.len() && (#[trigger] after[j]).code@ == k;
                            if j < at {
                                assert(before[j].code@ == k);
                            } else {
                                assert(before[j + 1].code@ == k);
                            }
                        }
                        if k != c && lists_code(before, k) {
                            let j = choose|j: int| 0 <= j < before.len() && (#[trigger] before[j]).code@ == k;
                            if j < at {
                                assert(after[j].code@ == k);
                            } else {
                                assert(after[j - 1].code@ == k);
                            }
                        }
                    }
                    assert forall|k: Seq<char>| lists_code(after, k) implies #[trigger] listed_map(after)[k]
                        == old(self)@[k] by {
                        let j = choose|j: int| 0 <= j < after.len() && (#[trigger] after[j]).code@ == k;
                        lemma_listed_entry(after, j);
                        if j < at {
                            lemma_listed_entry(before, j);
                        } else {
                            lemma_listed_entry(before, j + 1);
                        }
                    }
                    assert(final(self)@ =~= old(self)@.remove(c));
                }
                true
            },
            None => {
                assert(final(self)@ =~= old(self)@.remove(c));
                false
            },
        }
    }

    /// A snapshot of all mappings, in no particular order: each code once,
    /// with its destination.
    pub fn list_all(&self) -> (links: Vec<LinkEntry>)
        requires
            self.wf(),
        ensures
            codes_distinct(links@),
            listed_map(links@) == self@,
    {
        let mut links: Vec<LinkEntry> = Vec::new();
        let mut i: usize = 0;
        while i < self.entries.len()
            invariant
                i <= self.entries@.len(),
                links@.len() == i,
                forall|j: int| 0 <= j < i ==> (#[trigger] links@[j]).code@ == self.entries@[j].code@
                    && links@[j].destination@ == self.entries@[j].destination@,
            decreases self.entries@.len() - i,
        {
            let entry = &self.entries[i];
            links.push(LinkEntry { code: entry.code.clone(), destination: entry.destination.clone() });
            i += 1;
        }
        proof {
            lemma_same_listing(links@, self.entries@);
        }
        links
    }
}

/// Listings that agree entry by entry stand for the same mapping.
pub proof fn lemma_same_listing(a: Seq<LinkEntry>, b: Seq<LinkEntry>)
    requires
        a.len() == b.len(),
        forall|j: int| 0 <= j < a.len() ==> (#[trigger] a[j]).code@ == b[j].code@ && a[j].destination@
            == b[j].destination@,
        codes_distinct(b),
    ensures
        codes_distinct(a),
        listed_map(a) == listed_map(b),
{
    assert forall|i: int, j: int| 0 <= i < j < a.len() implies (#[trigger] a[i]).code@ != (#[trigger] a[j]).code@ by {
        assert(b[i].code@ != b[j].code@);
    }
    assert forall|k: Seq<char>| lists_code(a, k) <==> lists_code(b, k) by {
        if lists_code(a, k) {
            let j = choose|j: int| 0 <= j < a.len() && (#[trigger] a[j]).code@ == k;
            assert(b[j].code@ == k);
        }
        if lists_code(b, k) {
            let j = choose|j: int| 0 <= j < b.len() && (#[trigger] b[j]).code@ == k;
            assert(a[j].code@ == k);
        }
    }
    assert forall|k: Seq<char>| lists_code(a, k) implies #[trigger] listed_map(a)[k] == listed_map(b)[k] by {
        let j = choose|j: int| 0 <= j < a.len() && (#[trigger] a[j]).code@ == k;
        lemma_listed_entry(a, j);
        lemma_listed_entry(b, j);
    }
    assert(listed_map(a) =~= listed_map(b));
}

} // verus!
