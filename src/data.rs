use vstd::prelude::*;

verus! {

/// A member of the roster.
#[derive(Debug, Clone)]
pub struct Person {
    pub id: String,
    pub name: String,
    pub position: String,
    pub about: String,
    pub links: Vec<Link>,
}

/// A way to reach a person: its kind ("email", "web", ...), its target and
/// the text shown for it.
#[derive(Debug, Clone)]
pub struct Link {
    pub link_type: String,
    pub href: String,
    pub text: String,
}

/// The roster: every person, in document order.
#[derive(Debug, Clone)]
pub struct PeopleData {
    pub members: Vec<Person>,
}

/// Interface copy for one language, by section.
#[derive(Debug, Clone)]
pub struct I18nData {
    pub meta: MetaI18n,
    pub home: HomeI18n,
    pub people: PeopleI18n,
    pub footer: FooterI18n,
    pub terminal: TerminalI18n,
}

#[derive(Debug, Clone)]
pub struct MetaI18n {
    pub title: String,
    pub title_people: String,
}

#[derive(Debug, Clone)]
pub struct HomeI18n {
    pub tag: String,
    pub title: String,
    pub cta: CtaI18n,
    pub nav: NavI18n,
}

#[derive(Debug, Clone)]
pub struct CtaI18n {
    pub title: String,
    pub subtitle1: String,
    pub subtitle2: String,
    pub slogan: String,
}

#[derive(Debug, Clone)]
pub struct NavI18n {
    pub contact: String,
    pub people: String,
    pub manifesto: String,
    pub status: String,
}

#[derive(Debug, Clone)]
pub struct PeopleI18n {
    pub title: String,
    pub breadcrumb: String,
    pub sections: PeopleSectionsI18n,
    pub not_found: String,
    pub no_links: String,
}

#[derive(Debug, Clone)]
pub struct PeopleSectionsI18n {
    pub about: String,
    pub contacts: String,
}

#[derive(Debug, Clone)]
pub struct FooterI18n {
    pub email: String,
    pub copyright: String,
}

#[derive(Debug, Clone)]
pub struct TerminalI18n {
    pub manifesto: TerminalCommand,
    pub magic: TerminalCommand,
    pub corvus_facts: Vec<TerminalCommand>,
}

/// A command line and the output shown under it in the terminal view.
#[derive(Debug, Clone)]
pub struct TerminalCommand {
    pub command: String,
    pub output: String,
}

/// The languages that have a copy document of their own.
#[derive(Debug, Clone, Copy, PartialEq, Eq, Structural)]
pub enum Language {
    Nl,
    En,
}

/// The identifiers of a roster, in roster order.
pub open spec fn roster_ids(members: Seq<Person>) -> Seq<Seq<char>> {
    members.map_values(|p: Person| p.id@)
}

/// Index of the first person whose identifier is `id`, if any.
pub open spec fn first_index_of(members: Seq<Person>, id: Seq<char>) -> Option<int> {
    if exists|i: int| 0 <= i < members.len() && members[i].id@ == id {
        Some(choose|i: int| 0 <= i < members.len() && members[i].id@ == id
            && forall|j: int| 0 <= j < i ==> members[j].id@ != id)
    } else {
        None
    }
}

proof fn lemma_first_match_exists(members: Seq<Person>, id: Seq<char>, i: int)
    requires
        0 <= i < members.len(),
        members[i].id@ == id,
    ensures
        exists|k: int|
            0 <= k < members.len() && members[k].id@ == id && forall|j: int|
                0 <= j < k ==> members[j].id@ != id,
    decreases i,
{
    if exists|j: int| 0 <= j < i && members[j].id@ == id {
        let j = choose|j: int| 0 <= j < i && members[j].id@ == id;
        lemma_first_match_exists(members, id, j);
    } else {
        assert(forall|j: int| 0 <= j < i ==> members[j].id@ != id);
    }
}

/// Lookup by identifier finds every identifier that the roster holds,
/// at the first person that carries it, and finds nothing for any other.
pub proof fn lemma_lookup_present_and_absent(members: Seq<Person>, id: Seq<char>)
    ensures
        roster_ids(members).contains(id) ==> (first_index_of(members, id) matches Some(k) && 0
            <= k < members.len() && members[k].id@ == id && forall|j: int|
            0 <= j < k ==> members[j].id@ != id),
        !roster_ids(members).contains(id) ==> first_index_of(members, id) is None,
{
    if roster_ids(members).contains(id) {
        let i = choose|i: int| 0 <= i < roster_ids(members).len() && roster_ids(members)[i] == id;
        lemma_first_match_exists(members, id, i);
    } else {
        assert forall|i: int| 0 <= i < members.len() implies members[i].id@ != id by {
            assert(roster_ids(members)[i] == members[i].id@);
        }
    }
}

/// The tag a copy document is chosen by; Dutch is the default.
pub open spec fn language_of_tag(tag: Seq<char>) -> Language {
    if tag == "en"@ {
        Language::En
    } else {
        Language::Nl
    }
}

/// Whether `a` and `b` hold the same characters.
pub fn same_text(a: &str, b: &str) -> (r: bool)
    ensures
        r == (a@ == b@),
{
    let n = a.unicode_len();
    if n != b.unicode_len() {
        return false;
    }
    let mut i: usize = 0;
    while i < n
        invariant
            n == a@.len(),
            n == b@.len(),
            i <= n,
            forall|j: int| 0 <= j < i ==> a@[j] == b@[j],
        decreases n - i,
    {
        if a.get_char(i) != b.get_char(i) {
            return false;
        }
        i = i + 1;
    }
    assert(a@ =~= b@);
    true
}

impl PeopleData {
    /// A roster that holds `members`, in the given order.
    pub fn new(members: Vec<Person>) -> (r: PeopleData)
        ensures
            r.members@ == members@,
    {
        PeopleData { members }
    }

    /// Number of people in the roster.
    pub fn len(&self) -> (r: usize)
        ensures
            r == self.members@.len(),
    {
        self.members.len()
    }

    /// The first person, in roster order, whose identifier is `id`.
    pub fn find_person(&self, id: &str) -> (r: Option<&Person>)
        ensures
            r matches Some(p) ==> p.id@ == id@,
            match first_index_of(self.members@, id@) {
                Some(i) => r == Some(&self.members@[i]),
                None => r is None,
            },
    {
        let mut i: usize = 0;
        while i < self.members.len()
            invariant
                i <= self.members@.len(),
                forall|j: int| 0 <= j < i ==> self.members@[j].id@ != id@,
            decreases self.members@.len() - i,
        {
            let p = &self.members[i];
            if same_text(p.id.as_str(), id) {
                proof {
                    let k = first_index_of(self.members@, id@);
                    assert(k is Some);
                    let c = k->Some_0;
                    assert(c == i as int) by {
                        if c < i as int {
                        } else if c > i as int {
                        }
                    }
                }
                return Some(p);
            }
            i = i + 1;
        }
        None
    }
}

impl I18nData {
    /// The language whose copy document serves `tag`: English for "en",
    /// Dutch for "nl" and, as a fallback, for every other tag.
    pub fn language_for(tag: &str) -> (r: Language)
        ensures
            r == language_of_tag(tag@),
    {
        if same_text(tag, "en") {
            Language::En
        } else {
            Language::Nl
        }
    }
}

} // verus!
