use vstd::prelude::*;

use crate::data::{first_index_of, lemma_lookup_present_and_absent, roster_ids, I18nData, Link, PeopleData, Person, TerminalCommand};
use crate::render::{decimal, html_escaped, lemma_occurs_in_concat, occurs_in, push_decimal, push_text};

verus! {

/// An HTML response: its status code and its body.
pub struct Page {
    pub status: u16,
    pub body: String,
}

pub open spec fn esc(s: Seq<char>) -> Seq<char> {
    html_escaped(s)
}

// ---- the shared frame ----

pub open spec fn footer_html(i18n: I18nData) -> Seq<char> {
    "<footer><a href=\"mailto:"@ + esc(i18n.footer.email@) + "\">"@ + esc(i18n.footer.email@)
        + "</a><p>"@ + esc(i18n.footer.copyright@) + "</p></footer>"@
}

/// A whole document: head with `title`, then `body`, then the footer.
pub open spec fn document_html(i18n: I18nData, title: Seq<char>, body: Seq<char>) -> Seq<char> {
    "<!DOCTYPE html><html><head><meta charset=\"utf-8\"><title>"@ + esc(title)
        + "</title><link rel=\"stylesheet\" href=\"/_assets/main.css\"><script src=\"/_assets/htmx.min.js\"></script></head><body>"@
        + body + footer_html(i18n) + "</body></html>"@
}

fn footer(i18n: &I18nData) -> (r: String)
    ensures
        r@ == footer_html(*i18n),
{
    let mut out = String::from_str("<footer><a href=\"mailto:");
    push_text(&mut out, i18n.footer.email.as_str());
    out.append("\">");
    push_text(&mut out, i18n.footer.email.as_str());
    out.append("</a><p>");
    push_text(&mut out, i18n.footer.copyright.as_str());
    out.append("</p></footer>");
    out
}

fn document(i18n: &I18nData, title: &str, body: &str) -> (r: String)
    ensures
        r@ == document_html(*i18n, title@, body@),
{
    let mut out = String::from_str("<!DOCTYPE html><html><head><meta charset=\"utf-8\"><title>");
    push_text(&mut out, title);
    out.append(
        "</title><link rel=\"stylesheet\" href=\"/_assets/main.css\"><script src=\"/_assets/htmx.min.js\"></script></head><body>",
    );
    out.append(body);
    let f = footer(i18n);
    out.append(f.as_str());
    out.append("</body></html>");
    out
}

// ---- home ----

pub open spec fn home_body_html(i18n: I18nData, people_count: nat) -> Seq<char> {
    "<main><p class=\"tag\">"@ + esc(i18n.home.tag@) + "</p><h1>"@ + esc(i18n.home.title@)
        + "</h1><section class=\"cta\"><h2>"@ + esc(i18n.home.cta.title@) + "</h2><p>"@
        + esc(i18n.home.cta.subtitle1@) + "</p><p>"@ + esc(i18n.home.cta.subtitle2@)
        + "</p><p class=\"slogan\">"@ + esc(i18n.home.cta.slogan@)
        + "</p></section><nav><a href=\"/people\">"@ + esc(i18n.home.nav.people@) + " ("@
        + decimal(people_count) + ")</a><a hx-get=\"/terminal/manifesto\" hx-target=\"#terminal\">"@
        + esc(i18n.home.nav.manifesto@)
        + "</a><a hx-get=\"/terminal/corvus-fact\" hx-target=\"#terminal\">"@
        + esc(i18n.home.nav.status@) + "</a><a href=\"mailto:"@ + esc(i18n.footer.email@)
        + "\">"@ + esc(i18n.home.nav.contact@) + "</a></nav><div id=\"terminal\"></div></main>"@
}

/// The home view: the site's copy and the size of the roster.
pub open spec fn home_html(i18n: I18nData, people_count: nat) -> Seq<char> {
    document_html(i18n, i18n.meta.title@, home_body_html(i18n, people_count))
}

fn home_body(i18n: &I18nData, people_count: usize) -> (r: String)
    ensures
        r@ == home_body_html(*i18n, people_count as nat),
{
    let mut out = String::from_str("<main><p class=\"tag\">");
    push_text(&mut out, i18n.home.tag.as_str());
    out.append("</p><h1>");
    push_text(&mut out, i18n.home.title.as_str());
    out.append("</h1><section class=\"cta\"><h2>");
    push_text(&mut out, i18n.home.cta.title.as_str());
    out.append("</h2><p>");
    push_text(&mut out, i18n.home.cta.subtitle1.as_str());
    out.append("</p><p>");
    push_text(&mut out, i18n.home.cta.subtitle2.as_str());
    out.append("</p><p class=\"slogan\">");
    push_text(&mut out, i18n.home.cta.slogan.as_str());
    out.append("</p></section><nav><a href=\"/people\">");
    push_text(&mut out, i18n.home.nav.people.as_str());
    out.append(" (");
    push_decimal(&mut out, people_count);
    out.append(")</a><a hx-get=\"/terminal/manifesto\" hx-target=\"#terminal\">");
    push_text(&mut out, i18n.home.nav.manifesto.as_str());
    out.append("</a><a hx-get=\"/terminal/corvus-fact\" hx-target=\"#terminal\">");
    push_text(&mut out, i18n.home.nav.status.as_str());
    out.append("</a><a href=\"mailto:");
    push_text(&mut out, i18n.footer.email.as_str());
    out.append("\">");
    push_text(&mut out, i18n.home.nav.contact.as_str());
    out.append("</a></nav><div id=\"terminal\"></div></main>");
    out
}

/// Renders the home view.
pub fn render_home(i18n: &I18nData, people_count: usize) -> (r: String)
    ensures
        r@ == home_html(*i18n, people_count as nat),
{
    let body = home_body(i18n, people_count);
    document(i18n, i18n.meta.title.as_str(), body.as_str())
}

// ---- people list ----

pub open spec fn person_card_html(p: Person) -> Seq<char> {
    "<li><a href=\"/people/"@ + esc(p.id@) + "\">"@ + esc(p.name@) + "</a> <span class=\"position\">"@
        + esc(p.position@) + "</span></li>"@
}

/// The cards of the first `n` people of `members`.
pub open spec fn person_cards_html(members: Seq<Person>, n: nat) -> Seq<char>
    decreases n,
{
    if n == 0 || n > members.len() {
        Seq::empty()
    } else {
        person_cards_html(members, (n - 1) as nat) + person_card_html(members[n - 1])
    }
}

pub open spec fn people_body_html(i18n: I18nData, members: Seq<Person>) -> Seq<char> {
    "<main><p class=\"breadcrumb\">"@ + esc(i18n.people.breadcrumb@) + "</p><h1>"@
        + esc(i18n.people.title@) + "</h1><ul class=\"people\">"@ + person_cards_html(
        members,
        members.len(),
    ) + "</ul></main>"@
}

/// The people-list view: a card for each person, in roster order.
pub open spec fn people_html(i18n: I18nData, members: Seq<Person>) -> Seq<char> {
    document_html(i18n, i18n.meta.title_people@, people_body_html(i18n, members))
}

fn person_card(p: &Person) -> (r: String)
    ensures
        r@ == person_card_html(*p),
{
    let mut out = String::from_str("<li><a href=\"/people/");
    push_text(&mut out, p.id.as_str());
    out.append("\">");
    push_text(&mut out, p.name.as_str());
    out.append("</a> <span class=\"position\">");
    push_text(&mut out, p.position.as_str());
    out.append("</span></li>");
    out
}

fn person_cards(members: &Vec<Person>) -> (r: String)
    ensures
        r@ == person_cards_html(members@, members@.len()),
{
    let mut out = String::new();
    let mut i: usize = 0;
    while i < members.len()
        invariant
            i <= members@.len(),
            out@ == person_cards_html(members@, i as nat),
        decreases members@.len() - i,
    {
        let card = person_card(&members[i]);
        out.append(card.as_str());
        i = i + 1;
    }
    out
}

/// Renders the people-list view.
pub fn render_people(i18n: &I18nData, people: &PeopleData) -> (r: String)
    ensures
        r@ == people_html(*i18n, people.members@),
{
    let mut body = String::from_str("<main><p class=\"breadcrumb\">");
    push_text(&mut body, i18n.people.breadcrumb.as_str());
    body.append("</p><h1>");
    push_text(&mut body, i18n.people.title.as_str());
    body.append("</h1><ul class=\"people\">");
    let cards = person_cards(&people.members);
    body.append(cards.as_str());
    body.append("</ul></main>");
    document(i18n, i18n.meta.title_people.as_str(), body.as_str())
}

// ---- person detail ----

pub open spec fn link_item_html(l: Link) -> Seq<char> {
    "<li><a class=\"link-"@ + esc(l.link_type@) + "\" href=\""@ + esc(l.href@) + "\">"@
        + esc(l.text@) + "</a></li>"@
}

/// The items of the first `n` links of `links`.
pub open spec fn link_items_html(links: Seq<Link>, n: nat) -> Seq<char>
    decreases n,
{
    if n == 0 || n > links.len() {
        Seq::empty()
    } else {
        link_items_html(links, (n - 1) as nat) + link_item_html(links[n - 1])
    }
}

/// The contact section: the links in order, or the "no links" copy when
/// there are none.
pub open spec fn links_html(i18n: I18nData, links: Seq<Link>) -> Seq<char> {
    if links.len() == 0 {
        "<p class=\"no-links\">"@ + esc(i18n.people.no_links@) + "</p>"@
    } else {
        "<ul class=\"links\">"@ + link_items_html(links, links.len()) + "</ul>"@
    }
}

pub open spec fn person_body_html(i18n: I18nData, p: Person) -> Seq<char> {
    "<main><p class=\"breadcrumb\"><a href=\"/people\">"@ + esc(i18n.people.breadcrumb@)
        + "</a></p><h1>"@ + esc(p.name@) + "</h1><p class=\"position\">"@ + esc(p.position@)
        + "</p><h2>"@ + esc(i18n.people.sections.about@) + "</h2><p>"@ + esc(p.about@)
        + "</p><h2>"@ + esc(i18n.people.sections.contacts@) + "</h2>"@ + links_html(i18n, p.links@)
        + "</main>"@
}

/// The person-detail view.
pub open spec fn person_html(i18n: I18nData, p: Person) -> Seq<char> {
    document_html(i18n, p.name@, person_body_html(i18n, p))
}

fn link_item(l: &Link) -> (r: String)
    ensures
        r@ == link_item_html(*l),
{
    let mut out = String::from_str("<li><a class=\"link-");
    push_text(&mut out, l.link_type.as_str());
    out.append("\" href=\"");
    push_text(&mut out, l.href.as_str());
    out.append("\">");
    push_text(&mut out, l.text.as_str());
    out.append("</a></li>");
    out
}

fn links_section(i18n: &I18nData, links: &Vec<Link>) -> (r: String)
    ensures
        r@ == links_html(*i18n, links@),
{
    if links.len() == 0 {
        let mut out = String::from_str("<p class=\"no-links\">");
        push_text(&mut out, i18n.people.no_links.as_str());
        out.append("</p>");
        return out;
    }
    let mut items = String::new();
    let mut i: usize = 0;
    while i < links.len()
        invariant
            i <= links@.len(),
            items@ == link_items_html(links@, i as nat),
        decreases links@.len() - i,
    {
        let item = link_item(&links[i]);
        items.append(item.as_str());
        i = i + 1;
    }
    let mut out = String::from_str("<ul class=\"links\">");
    out.append(items.as_str());
    out.append("</ul>");
    out
}

/// Renders the person-detail view of `p`.
pub fn render_person(i18n: &I18nData, p: &Person) -> (r: String)
    ensures
        r@ == person_html(*i18n, *p),
{
    let mut body = String::from_str("<main><p class=\"breadcrumb\"><a href=\"/people\">");
    push_text(&mut body, i18n.people.breadcrumb.as_str());
    body.append("</a></p><h1>");
    push_text(&mut body, p.name.as_str());
    body.append("</h1><p class=\"position\">");
    push_text(&mut body, p.position.as_str());
    body.append("</p><h2>");
    push_text(&mut body, i18n.people.sections.about.as_str());
    body.append("</h2><p>");
    push_text(&mut body, p.about.as_str());
    body.append("</p><h2>");
    push_text(&mut body, i18n.people.sections.contacts.as_str());
    body.append("</h2>");
    let links = links_section(i18n, &p.links);
    body.append(links.as_str());
    body.append("</main>");
    document(i18n, p.name.as_str(), body.as_str())
}

/// The fragment sent when no person has the requested identifier: the
/// localized "not found" copy as a heading, then a link back to the people
/// list. The copy is site text, not roster data, and goes in as written,
/// so the fragment holds it verbatim.
pub open spec fn not_found_html(i18n: I18nData) -> Seq<char> {
    "<h1>"@ + i18n.people.not_found@ + "</h1><p><a href=\"/people\">\u{2190} Back to people</a></p>"@
}

/// Renders the "person not found" fragment.
pub fn render_not_found(i18n: &I18nData) -> (r: String)
    ensures
        r@ == not_found_html(*i18n),
{
    let mut out = String::from_str("<h1>");
    out.append(i18n.people.not_found.as_str());
    out.append("</h1><p><a href=\"/people\">\u{2190} Back to people</a></p>");
    out
}

// ---- terminal ----

/// The terminal fragment: a prompt with `command`, then its `output`.
pub open spec fn terminal_html(command: Seq<char>, output: Seq<char>) -> Seq<char> {
    "<div class=\"terminal\"><p class=\"terminal-line\"><span class=\"prompt\">$</span> "@
        + esc(command) + "</p><pre class=\"terminal-output\">"@ + esc(output) + "</pre></div>"@
}

/// Renders the terminal fragment.
pub fn render_terminal(command: &str, output: &str) -> (r: String)
    ensures
        r@ == terminal_html(command@, output@),
{
    let mut out = String::from_str(
        "<div class=\"terminal\"><p class=\"terminal-line\"><span class=\"prompt\">$</span> ",
    );
    push_text(&mut out, command);
    out.append("</p><pre class=\"terminal-output\">");
    push_text(&mut out, output);
    out.append("</pre></div>");
    out
}

// ---- laws of rendering ----

/// Rendering a view twice from the same data gives the same text: each
/// renderer's output is a function of its inputs alone.
pub proof fn lemma_rendering_is_repeatable(
    i18n: I18nData,
    people: PeopleData,
    p: Person,
    c: TerminalCommand,
    first: Seq<Seq<char>>,
    second: Seq<Seq<char>>,
)
    requires
        first.len() == 4,
        second.len() == 4,
        first[0] == home_html(i18n, people.members@.len()),
        second[0] == home_html(i18n, people.members@.len()),
        first[1] == people_html(i18n, people.members@),
        second[1] == people_html(i18n, people.members@),
        first[2] == person_html(i18n, p),
        second[2] == person_html(i18n, p),
        first[3] == terminal_html(c.command@, c.output@),
        second[3] == terminal_html(c.command@, c.output@),
    ensures
        first == second,
{
    assert(first =~= second);
}

/// A person's name reaches the person view only in escaped form: the view
/// holds the escaped name, and escaped text holds no `<`, `>` or quote.
pub proof fn lemma_person_name_escaped(i18n: I18nData, p: Person)
    ensures
        exists|k: int|
            0 <= k && k + esc(p.name@).len() <= person_html(i18n, p).len() && #[trigger] person_html(
                i18n,
                p,
            ).subrange(k, k + esc(p.name@).len()) == esc(p.name@),
        forall|i: int|
            0 <= i < esc(p.name@).len() ==> #[trigger] esc(p.name@)[i] != '<' && esc(p.name@)[i]
                != '>',
        (exists|j: int| 0 <= j < p.name@.len() && (p.name@[j] == '<' || p.name@[j] == '>'))
            ==> !occurs_in(esc(p.name@), p.name@),
{
    crate::render::lemma_escaped_has_no_markup(p.name@);
    if exists|j: int| 0 <= j < p.name@.len() && (p.name@[j] == '<' || p.name@[j] == '>') {
        crate::render::lemma_markup_never_survives_escaping(p.name@, p.name@);
    }
    let head = "<!DOCTYPE html><html><head><meta charset=\"utf-8\"><title>"@;
    let e = esc(p.name@);
    let d = person_html(i18n, p);
    let rest = "</title><link rel=\"stylesheet\" href=\"/_assets/main.css\"><script src=\"/_assets/htmx.min.js\"></script></head><body>"@
        + person_body_html(i18n, p) + footer_html(i18n) + "</body></html>"@;
    assert(d =~= head + e + rest);
    assert(d.subrange(head.len() as int, head.len() + e.len() as int) =~= e);
}

/// For an identifier that no person carries, the person route answers with
/// the "not found" fragment, which holds the localized copy and a link back
/// to the people list.
pub proof fn lemma_unknown_person_not_found(i18n: I18nData, members: Seq<Person>, id: Seq<char>)
    requires
        !roster_ids(members).contains(id),
    ensures
        first_index_of(members, id) is None,
        exists|k: int|
            0 <= k && k + i18n.people.not_found@.len() <= not_found_html(i18n).len()
                && #[trigger] not_found_html(i18n).subrange(
                k,
                k + i18n.people.not_found@.len(),
            ) == i18n.people.not_found@,
        exists|k: int|
            0 <= k && k + "<a href=\"/people\">"@.len() <= not_found_html(i18n).len()
                && #[trigger] not_found_html(i18n).subrange(k, k + "<a href=\"/people\">"@.len())
                == "<a href=\"/people\">"@,
{
    lemma_lookup_present_and_absent(members, id);
    reveal_strlit("<h1>");
    reveal_strlit("</h1><p><a href=\"/people\">\u{2190} Back to people</a></p>");
    reveal_strlit("<a href=\"/people\">");
    let h = "<h1>"@;
    let e = i18n.people.not_found@;
    let tail = "</h1><p><a href=\"/people\">\u{2190} Back to people</a></p>"@;
    let d = not_found_html(i18n);
    assert(d =~= h + e + tail);
    assert(d.subrange(h.len() as int, h.len() + e.len() as int) =~= e);
    let k: int = (h.len() + e.len() + 8) as int;
    assert(d.subrange(k, k + "<a href=\"/people\">"@.len() as int) =~= "<a href=\"/people\">"@);
}

proof fn lemma_cards_hold_names(members: Seq<Person>, n: nat, i: int)
    requires
        0 <= i < n <= members.len(),
    ensures
        occurs_in(person_cards_html(members, n), esc(members[i].name@)),
    decreases n,
{
    let p = members[n - 1];
    if i < n - 1 {
        lemma_cards_hold_names(members, (n - 1) as nat, i);
        lemma_occurs_in_concat(
            person_cards_html(members, (n - 1) as nat),
            person_card_html(p),
            esc(members[i].name@),
        );
    } else {
        let a = "<li><a href=\"/people/"@ + esc(p.id@) + "\">"@;
        let e = esc(p.name@);
        let c = person_card_html(p);
        assert(c.subrange(a.len() as int, a.len() + e.len() as int) =~= e);
        assert(crate::render::occurs_at(c, e, a.len() as int));
        lemma_occurs_in_concat(c, person_cards_html(members, (n - 1) as nat), e);
    }
}

/// Every member's name reaches the people list, and only in escaped form.
pub proof fn lemma_people_list_escapes_names(i18n: I18nData, members: Seq<Person>, i: int)
    requires
        0 <= i < members.len(),
    ensures
        occurs_in(people_html(i18n, members), esc(members[i].name@)),
        (exists|j: int|
            0 <= j < members[i].name@.len() && (members[i].name@[j] == '<' || members[i].name@[j]
                == '>')) ==> !occurs_in(esc(members[i].name@), members[i].name@),
{
    let e = esc(members[i].name@);
    let cards = person_cards_html(members, members.len());
    lemma_cards_hold_names(members, members.len(), i);
    let b1 = "<main><p class=\"breadcrumb\">"@ + esc(i18n.people.breadcrumb@) + "</p><h1>"@
        + esc(i18n.people.title@) + "</h1><ul class=\"people\">"@;
    lemma_occurs_in_concat(cards, b1, e);
    lemma_occurs_in_concat(b1 + cards, "</ul></main>"@, e);
    let body = people_body_html(i18n, members);
    assert(body =~= b1 + cards + "</ul></main>"@);
    let h = "<!DOCTYPE html><html><head><meta charset=\"utf-8\"><title>"@ + esc(
        i18n.meta.title_people@,
    )
        + "</title><link rel=\"stylesheet\" href=\"/_assets/main.css\"><script src=\"/_assets/htmx.min.js\"></script></head><body>"@;
    let t = footer_html(i18n) + "</body></html>"@;
    lemma_occurs_in_concat(body, h, e);
    lemma_occurs_in_concat(h + body, t, e);
    assert(people_html(i18n, members) =~= h + body + t);
    if exists|j: int|
        0 <= j < members[i].name@.len() && (members[i].name@[j] == '<' || members[i].name@[j]
            == '>') {
        crate::render::lemma_markup_never_survives_escaping(members[i].name@, members[i].name@);
    }
}

// ---- typed views ----

/// The home view's data: the site copy and the size of the roster.
pub struct HomeTemplate {
    pub i18n: I18nData,
    pub people_count: usize,
}

/// The people-list view's data.
pub struct PeopleTemplate {
    pub i18n: I18nData,
    pub people: PeopleData,
}

/// The person-detail view's data.
pub struct PersonTemplate {
    pub i18n: I18nData,
    pub person: Person,
}

/// The terminal view's data: one command and its output.
pub struct TerminalTemplate {
    pub command: String,
    pub output: String,
}

impl HomeTemplate {
    /// The home view of this data.
    pub fn render(&self) -> (r: String)
        ensures
            r@ == home_html(self.i18n, self.people_count as nat),
    {
        render_home(&self.i18n, self.people_count)
    }
}

impl PeopleTemplate {
    /// The people-list view of this data.
    pub fn render(&self) -> (r: String)
        ensures
            r@ == people_html(self.i18n, self.people.members@),
    {
        render_people(&self.i18n, &self.people)
    }
}

impl PersonTemplate {
    /// The person-detail view of this data.
    pub fn render(&self) -> (r: String)
        ensures
            r@ == person_html(self.i18n, self.person),
    {
        render_person(&self.i18n, &self.person)
    }
}

impl TerminalTemplate {
    /// The terminal view of this data.
    pub fn render(&self) -> (r: String)
        ensures
            r@ == terminal_html(self.command@, self.output@),
    {
        render_terminal(self.command.as_str(), self.output.as_str())
    }
}

// ---- handlers ----

/// `GET /`: the home view with the roster's size.
pub fn handle_home(i18n: &I18nData, people: &PeopleData) -> (r: Page)
    ensures
        r.status == 200,
        r.body@ == home_html(*i18n, people.members@.len()),
{
    Page { status: 200, body: render_home(i18n, people.len()) }
}

/// `GET /people`: the people-list view of the whole roster.
pub fn handle_people(i18n: &I18nData, people: &PeopleData) -> (r: Page)
    ensures
        r.status == 200,
        r.body@ == people_html(*i18n, people.members@),
{
    Page { status: 200, body: render_people(i18n, people) }
}

/// `GET /people/{id}`: the first person with identifier `id`, or 404 with
/// the localized "not found" fragment.
pub fn handle_person(i18n: &I18nData, people: &PeopleData, id: &str) -> (r: Page)
    ensures
        match first_index_of(people.members@, id@) {
            Some(i) => r.status == 200 && r.body@ == person_html(*i18n, people.members@[i]),
            None => r.status == 404 && r.body@ == not_found_html(*i18n),
        },
{
    match people.find_person(id) {
        Some(p) => Page { status: 200, body: render_person(i18n, p) },
        None => Page { status: 404, body: render_not_found(i18n) },
    }
}

fn terminal_page(c: &TerminalCommand) -> (r: Page)
    ensures
        r.status == 200,
        r.body@ == terminal_html(c.command@, c.output@),
{
    Page { status: 200, body: render_terminal(c.command.as_str(), c.output.as_str()) }
}

/// `GET /terminal/manifesto`: the fixed manifesto command.
pub fn handle_terminal_manifesto(i18n: &I18nData) -> (r: Page)
    ensures
        r.status == 200,
        r.body@ == terminal_html(
            i18n.terminal.manifesto.command@,
            i18n.terminal.manifesto.output@,
        ),
{
    terminal_page(&i18n.terminal.manifesto)
}

/// `GET /terminal/magic`: the fixed magic command.
pub fn handle_terminal_magic(i18n: &I18nData) -> (r: Page)
    ensures
        r.status == 200,
        r.body@ == terminal_html(i18n.terminal.magic.command@, i18n.terminal.magic.output@),
{
    terminal_page(&i18n.terminal.magic)
}

/// The corvus-fact view for the fact at `index`; 404 with an empty body
/// when there is no such fact.
pub fn corvus_fact_page(i18n: &I18nData, index: usize) -> (r: Page)
    ensures
        index < i18n.terminal.corvus_facts@.len() ==> r.status == 200 && r.body@ == terminal_html(
            i18n.terminal.corvus_facts@[index as int].command@,
            i18n.terminal.corvus_facts@[index as int].output@,
        ),
        index >= i18n.terminal.corvus_facts@.len() ==> r.status == 404 && r.body@.len() == 0,
{
    if index < i18n.terminal.corvus_facts.len() {
        terminal_page(&i18n.terminal.corvus_facts[index])
    } else {
        Page { status: 404, body: String::new() }
    }
}

/// Relies on rand's `thread_rng().gen_range(0..n)`: a value in `0..n`,
/// drawn afresh on every call (it panics on an empty range, hence `n > 0`).
#[verifier::external_body]
fn random_below(n: usize) -> (r: usize)
    requires
        n > 0,
    ensures
        r < n,
{
    rand::Rng::gen_range(&mut rand::thread_rng(), 0..n)
}

/// `GET /terminal/corvus-fact`: one of the configured facts, picked at
/// random; 404 with an empty body when none is configured.
pub fn handle_terminal_corvus_fact(i18n: &I18nData) -> (r: Page)
    ensures
        i18n.terminal.corvus_facts@.len() > 0 ==> r.status == 200 && exists|k: int|
            0 <= k < i18n.terminal.corvus_facts@.len() && r.body@ == terminal_html(
                #[trigger] i18n.terminal.corvus_facts@[k].command@,
                i18n.terminal.corvus_facts@[k].output@,
            ),
        i18n.terminal.corvus_facts@.len() == 0 ==> r.status == 404 && r.body@.len() == 0,
{
    let n = i18n.terminal.corvus_facts.len();
    if n == 0 {
        return Page { status: 404, body: String::new() };
    }
    let k = random_below(n);
    corvus_fact_page(i18n, k)
}

} // verus!
