use vstd::prelude::*;

verus! {

/// The shows listed for `user` in `entries`: those of the first entry with
/// that key.
pub open spec fn shows_in(
    entries: Seq<(Seq<char>, Seq<Seq<char>>)>,
    user: Seq<char>,
) -> Option<Seq<Seq<char>>>
    decreases entries.len(),
{
    if entries.len() == 0 {
        None
    } else if entries[0].0 == user {
        Some(entries[0].1)
    } else {
        shows_in(entries.drop_first(), user)
    }
}

/// Whether `a` comes before `b` in the lexicographic order of their
/// characters' code points.
pub open spec fn text_lt(a: Seq<char>, b: Seq<char>) -> bool
    decreases a.len(),
{
    if a.len() == 0 {
        b.len() > 0
    } else if b.len() == 0 {
        false
    } else if a[0] != b[0] {
        (a[0] as u32) < (b[0] as u32)
    } else {
        text_lt(a.drop_first(), b.drop_first())
    }
}

/// Whether `s` is in ascending order.
pub open spec fn is_sorted_texts(s: Seq<Seq<char>>) -> bool {
    forall|i: int, j: int| 0 <= i < j < s.len() ==> !text_lt(#[trigger] s[j], #[trigger] s[i])
}

/// Relies on `slice::sort` for `String`: it reorders the strings into
/// ascending order, and strings compare lexicographically by their UTF-8
/// bytes, which orders characters by code point.
#[verifier::external_body]
fn sort_texts(v: &mut Vec<String>)
    ensures
        texts(final(v)@).to_multiset() == texts(old(v)@).to_multiset(),
        is_sorted_texts(texts(final(v)@)),
{
    v.sort()
}

/// Copies of some strings.
fn copy_texts(v: &Vec<String>) -> (r: Vec<String>)
    ensures
        texts(r@) == texts(v@),
{
    let mut r: Vec<String> = Vec::new();
    let mut i: usize = 0;
    while i < v.len()
        invariant
            i <= v@.len(),
            texts(r@) == texts(v@.subrange(0, i as int)),
        decreases v@.len() - i,
    {
        r.push(v[i].clone());
        assert(texts(v@.subrange(0, i + 1)) =~= texts(v@.subrange(0, i as int)).push(v@[i as int]@));
        assert(texts(r@) =~= texts(v@.subrange(0, i as int)).push(v@[i as int]@));
        i = i + 1;
    }
    assert(v@.subrange(0, v@.len() as int) == v@);
    r
}

/// The users of some entries, in order.
pub open spec fn users_of(entries: Seq<(Seq<char>, Seq<Seq<char>>)>) -> Seq<Seq<char>> {
    entries.map_values(|e: (Seq<char>, Seq<Seq<char>>)| e.0)
}

/// Whether `listed` is `shows` in ascending order.
pub open spec fn is_sorted_listing(listed: Seq<Seq<char>>, shows: Seq<Seq<char>>) -> bool {
    is_sorted_texts(listed) && listed.to_multiset() == shows.to_multiset()
}

/// The views of some strings.
pub open spec fn texts(v: Seq<String>) -> Seq<Seq<char>> {
    v.map_values(|s: String| s@)
}

/// The view of an entry: a user and the titles of their shows.
pub open spec fn entry_view(e: (String, Vec<String>)) -> (Seq<char>, Seq<Seq<char>>) {
    (e.0@, texts(e.1@))
}

/// Whether no user appears in two entries.
pub open spec fn keys_unique(entries: Seq<(Seq<char>, Seq<Seq<char>>)>) -> bool {
    forall|i: int, j: int|
        0 <= i < j < entries.len() ==> #[trigger] entries[i].0 != #[trigger] entries[j].0
}

/// The catalog: for each user, the titles of the shows they watch.
#[derive(Debug)]
pub struct ShowMappings {
    shows: Vec<(String, Vec<String>)>,
}

impl View for ShowMappings {
    type V = Seq<(Seq<char>, Seq<Seq<char>>)>;

    closed spec fn view(&self) -> Seq<(Seq<char>, Seq<Seq<char>>)> {
        self.shows@.map_values(|e: (String, Vec<String>)| entry_view(e))
    }
}

impl ShowMappings {
    /// No user is listed twice.
    #[verifier::type_invariant]
    spec fn inv(&self) -> bool {
        keys_unique(self@)
    }

    /// The shows of `user`, if the catalog lists the user.
    pub open spec fn shows_for(&self, user: Seq<char>) -> Option<Seq<Seq<char>>> {
        shows_in(self@, user)
    }

    /// Whether `out` lists the users of the catalog in ascending order, each
    /// with their shows in ascending order.
    pub open spec fn is_sorted_view(&self, out: Seq<(String, Vec<String>)>) -> bool {
        let v = out.map_values(|e: (String, Vec<String>)| entry_view(e));
        &&& is_sorted_texts(users_of(v))
        &&& users_of(v).to_multiset() == users_of(self@).to_multiset()
        &&& forall|i: int|
            0 <= i < v.len() ==> (#[trigger] self.shows_for(v[i].0) matches Some(s)
                && is_sorted_listing(v[i].1, s))
    }

    /// A catalog that lists nobody.
    pub fn new() -> (r: ShowMappings)
        ensures
            r@ == Seq::<(Seq<char>, Seq<Seq<char>>)>::empty(),
    {
        let shows: Vec<(String, Vec<String>)> = Vec::new();
        assert(shows@.map_values(|e: (String, Vec<String>)| entry_view(e)) =~= Seq::<
            (Seq<char>, Seq<Seq<char>>),
        >::empty());
        ShowMappings { shows }
    }

    /// Lists `shows` for `user`, in place of what was listed for them.
    pub fn insert(&mut self, user: String, shows: Vec<String>)
        ensures
            keys_unique(final(self)@),
            final(self).shows_for(user@) == Some(texts(shows@)),
            forall|u: Seq<char>|
                u != user@ ==> #[trigger] final(self).shows_for(u) == old(self).shows_for(u),
    {
        proof {
            use_type_invariant(&*self);
        }
        let ghost old_view = self@;
        let ghost new_entry = (user@, texts(shows@));
        let found = self.position(&user);
        let mut taken = ShowMappings::new();
        std::mem::swap(self, &mut taken);
        let mut entries = taken.shows;
        assert(entries@.map_values(|e: (String, Vec<String>)| entry_view(e)) == old_view);
        match found {
            Some(i) => {
                entries.set(i, (user, shows));
                assert(entries@.map_values(|e: (String, Vec<String>)| entry_view(e)) =~= old_view.update(
                    i as int,
                    new_entry,
                ));
                proof {
                    lemma_shows_in_update(old_view, i as int, new_entry);
                }
            },
            None => {
                entries.push((user, shows));
                assert(entries@.map_values(|e: (String, Vec<String>)| entry_view(e)) =~= old_view.push(
                    new_entry,
                ));
                proof {
                    lemma_shows_in_push(old_view, new_entry);
                }
            },
        }
        *self = ShowMappings { shows: entries };
    }

    /// The index of the entry of `user`, if any.
    fn position(&self, user: &String) -> (r: Option<usize>)
        ensures
            match r {
                Some(i) => i < self@.len() && self@[i as int].0 == user@,
                None => forall|i: int| 0 <= i < self@.len() ==> #[trigger] self@[i].0 != user@,
            },
    {
        let mut i: usize = 0;
        while i < self.shows.len()
            invariant
                i <= self@.len(),
                self@.len() == self.shows@.len(),
                forall|j: int| 0 <= j < i ==> #[trigger] self@[j].0 != user@,
            decreases self.shows@.len() - i,
        {
            if self.shows[i].0 == *user {
                return Some(i);
            }
            i = i + 1;
        }
        None
    }

    /// The shows listed for `user`, if the catalog lists the user.
    pub fn get(&self, user: &String) -> (r: Option<&Vec<String>>)
        ensures
            match r {
                Some(v) => self.shows_for(user@) == Some(texts(v@)),
                None => self.shows_for(user@) is None,
            },
    {
        proof {
            use_type_invariant(self);
        }
        match self.position(user) {
            Some(i) => {
                proof {
                    lemma_shows_in_unique(self@, i as int);
                }
                Some(&self.shows[i].1)
            },
            None => {
                proof {
                    lemma_shows_in_absent(self@, user@);
                }
                None
            },
        }
    }
}

impl ShowMappings {
    /// The catalog with the users in ascending order, each with their shows
    /// in ascending order.
    pub fn sorted_shows(&self) -> (r: Vec<(String, Vec<String>)>)
        ensures
            self.is_sorted_view(r@),
    {
        proof {
            use_type_invariant(self);
        }
        let mut users: Vec<String> = Vec::new();
        let mut k: usize = 0;
        while k < self.shows.len()
            invariant
                k <= self.shows@.len(),
                self@.len() == self.shows@.len(),
                texts(users@) == users_of(self@).subrange(0, k as int),
            decreases self.shows@.len() - k,
        {
            let ghost before = users@;
            users.push(self.shows[k].0.clone());
            assert(self@[k as int] == entry_view(self.shows@[k as int]));
            assert(texts(users@) =~= texts(before).push(self.shows@[k as int].0@));
            assert(users_of(self@).subrange(0, k + 1) =~= users_of(self@).subrange(0, k as int).push(
                self.shows@[k as int].0@,
            ));
            k = k + 1;
        }
        assert(users_of(self@).subrange(0, self@.len() as int) == users_of(self@));
        sort_texts(&mut users);
        let mut out: Vec<(String, Vec<String>)> = Vec::new();
        let mut i: usize = 0;
        while i < users.len()
            invariant
                keys_unique(self@),
                i <= users@.len(),
                is_sorted_texts(texts(users@)),
                texts(users@).to_multiset() == users_of(self@).to_multiset(),
                out@.len() == i,
                forall|j: int| 0 <= j < i ==> (#[trigger] out@[j]).0@ == users@[j]@,
                forall|j: int|
                    0 <= j < i ==> (#[trigger] self.shows_for(out@[j].0@) matches Some(s)
                        && is_sorted_listing(texts(out@[j].1@), s)),
            decreases users@.len() - i,
        {
            let user = &users[i];
            assert(texts(users@)[i as int] == user@);
            assert(texts(users@).contains(user@));
            proof {
                texts(users@).to_multiset_ensures();
                users_of(self@).to_multiset_ensures();
            }
            assert(texts(users@).to_multiset().count(user@) > 0);
            assert(users_of(self@).to_multiset().count(user@) > 0);
            assert(users_of(self@).contains(user@));
            let ghost kk = choose|kk: int| 0 <= kk < users_of(self@).len() && users_of(self@)[kk] == user@;
            proof {
                lemma_shows_in_unique(self@, kk);
            }
            let shows = self.get(user).unwrap();
            let mut listed = copy_texts(shows);
            sort_texts(&mut listed);
            out.push((user.clone(), listed));
            i = i + 1;
        }
        let ghost view = out@.map_values(|e: (String, Vec<String>)| entry_view(e));
        assert(users_of(view) =~= texts(users@));
        out
    }
}

proof fn lemma_shows_in_absent(entries: Seq<(Seq<char>, Seq<Seq<char>>)>, user: Seq<char>)
    requires
        forall|i: int| 0 <= i < entries.len() ==> #[trigger] entries[i].0 != user,
    ensures
        shows_in(entries, user) is None,
    decreases entries.len(),
{
    if entries.len() > 0 {
        assert(entries[0].0 != user);
        assert forall|i: int| 0 <= i < entries.drop_first().len() implies #[trigger] entries.drop_first()[i].0 != user by {
            assert(entries.drop_first()[i] == entries[i + 1]);
        }
        lemma_shows_in_absent(entries.drop_first(), user);
    }
}

proof fn lemma_shows_in_unique(entries: Seq<(Seq<char>, Seq<Seq<char>>)>, k: int)
    requires
        keys_unique(entries),
        0 <= k < entries.len(),
    ensures
        shows_in(entries, entries[k].0) == Some(entries[k].1),
    decreases entries.len(),
{
    if k > 0 {
        let rest = entries.drop_first();
        assert(entries[0].0 != entries[k].0);
        assert(rest[k - 1] == entries[k]);
        assert forall|i: int, j: int| 0 <= i < j < rest.len() implies #[trigger] rest[i].0 != #[trigger] rest[j].0 by {
            assert(rest[i] == entries[i + 1] && rest[j] == entries[j + 1]);
        }
        lemma_shows_in_unique(rest, k - 1);
    }
}

proof fn lemma_shows_in_update(
    entries: Seq<(Seq<char>, Seq<Seq<char>>)>,
    k: int,
    e: (Seq<char>, Seq<Seq<char>>),
)
    requires
        keys_unique(entries),
        0 <= k < entries.len(),
        entries[k].0 == e.0,
    ensures
        keys_unique(entries.update(k, e)),
        shows_in(entries.update(k, e), e.0) == Some(e.1),
        forall|u: Seq<char>|
            u != e.0 ==> #[trigger] shows_in(entries.update(k, e), u) == shows_in(entries, u),
    decreases entries.len(),
{
    let updated = entries.update(k, e);
    assert forall|i: int, j: int| 0 <= i < j < updated.len() implies #[trigger] updated[i].0 != #[trigger] updated[j].0 by {
        assert(updated[i].0 == entries[i].0 && updated[j].0 == entries[j].0);
    }
    lemma_shows_in_unique(updated, k);
    assert forall|u: Seq<char>| u != e.0 implies #[trigger] shows_in(updated, u) == shows_in(entries, u) by {
        lemma_shows_in_same(entries, updated, u);
    }
}

proof fn lemma_shows_in_same(
    a: Seq<(Seq<char>, Seq<Seq<char>>)>,
    b: Seq<(Seq<char>, Seq<Seq<char>>)>,
    u: Seq<char>,
)
    requires
        a.len() == b.len(),
        forall|i: int| 0 <= i < a.len() ==> (#[trigger] a[i].0 == u) == (b[i].0 == u),
        forall|i: int| 0 <= i < a.len() && #[trigger] a[i].0 == u ==> a[i] == b[i],
    ensures
        shows_in(a, u) == shows_in(b, u),
    decreases a.len(),
{
    if a.len() > 0 {
        assert forall|i: int| 0 <= i < a.drop_first().len() implies (#[trigger] a.drop_first()[i].0 == u) == (b.drop_first()[i].0 == u) by {
            assert(a.drop_first()[i] == a[i + 1] && b.drop_first()[i] == b[i + 1]);
        }
        assert forall|i: int| 0 <= i < a.drop_first().len() && #[trigger] a.drop_first()[i].0 == u implies a.drop_first()[i] == b.drop_first()[i] by {
            assert(a.drop_first()[i] == a[i + 1] && b.drop_first()[i] == b[i + 1]);
        }
        lemma_shows_in_same(a.drop_first(), b.drop_first(), u);
    }
}

proof fn lemma_shows_in_push(entries: Seq<(Seq<char>, Seq<Seq<char>>)>, e: (Seq<char>, Seq<Seq<char>>))
    requires
        keys_unique(entries),
        forall|i: int| 0 <= i < entries.len() ==> #[trigger] entries[i].0 != e.0,
    ensures
        keys_unique(entries.push(e)),
        shows_in(entries.push(e), e.0) == Some(e.1),
        forall|u: Seq<char>| u != e.0 ==> #[trigger] shows_in(entries.push(e), u) == shows_in(entries, u),
    decreases entries.len(),
{
    let pushed = entries.push(e);
    assert forall|i: int, j: int| 0 <= i < j < pushed.len() implies #[trigger] pushed[i].0 != #[trigger] pushed[j].0 by {
        if j < entries.len() {
            assert(pushed[i] == entries[i] && pushed[j] == entries[j]);
        } else {
            assert(pushed[i] == entries[i]);
        }
    }
    lemma_shows_in_unique(pushed, entries.len() as int);
    assert forall|u: Seq<char>| u != e.0 implies #[trigger] shows_in(pushed, u) == shows_in(entries, u) by {
        lemma_shows_in_push_other(entries, e, u);
    }
}

proof fn lemma_shows_in_push_other(
    entries: Seq<(Seq<char>, Seq<Seq<char>>)>,
    e: (Seq<char>, Seq<Seq<char>>),
    u: Seq<char>,
)
    requires
        u != e.0,
    ensures
        shows_in(entries.push(e), u) == shows_in(entries, u),
    decreases entries.len(),
{
    if entries.len() == 0 {
        assert(entries.push(e).drop_first() =~= Seq::<(Seq<char>, Seq<Seq<char>>)>::empty());
    } else {
        assert(entries.push(e).drop_first() =~= entries.drop_first().push(e));
        lemma_shows_in_push_other(entries.drop_first(), e, u);
    }
}

} // verus!
