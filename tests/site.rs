use corvus_site::assets::{asset_for_path, handle_assets, Asset, AssetBundle};
use corvus_site::data::{
    CtaI18n, FooterI18n, HomeI18n, I18nData, Language, Link, MetaI18n, NavI18n, PeopleData,
    PeopleI18n, PeopleSectionsI18n, Person, TerminalCommand, TerminalI18n,
};
use corvus_site::pages::{
    corvus_fact_page, HomeTemplate, PeopleTemplate, PersonTemplate, TerminalTemplate, handle_home, handle_people, handle_person, handle_terminal_corvus_fact,
    handle_terminal_magic, handle_terminal_manifesto, render_not_found, render_person,
    render_terminal,
};
use corvus_site::render::escaped;

fn s(x: &str) -> String {
    x.to_string()
}

fn cmd(c: &str, o: &str) -> TerminalCommand {
    TerminalCommand { command: s(c), output: s(o) }
}

fn person(id: &str, name: &str, links: Vec<Link>) -> Person {
    Person { id: s(id), name: s(name), position: s("Engineer"), about: s("Builds things."), links }
}

fn i18n_with_facts(facts: Vec<TerminalCommand>) -> I18nData {
    I18nData {
        meta: MetaI18n { title: s("Corvus"), title_people: s("Mensen") },
        home: HomeI18n {
            tag: s("tag"),
            title: s("Welkom"),
            cta: CtaI18n {
                title: s("cta"),
                subtitle1: s("one"),
                subtitle2: s("two"),
                slogan: s("slogan"),
            },
            nav: NavI18n {
                contact: s("Contact"),
                people: s("Mensen"),
                manifesto: s("Manifest"),
                status: s("Status"),
            },
        },
        people: PeopleI18n {
            title: s("Ons team"),
            breadcrumb: s("Terug naar mensen"),
            sections: PeopleSectionsI18n { about: s("Over"), contacts: s("Contact") },
            not_found: s("Persoon niet gevonden"),
            no_links: s("Geen links"),
        },
        footer: FooterI18n { email: s("hi@example.org"), copyright: s("(c) Corvus") },
        terminal: TerminalI18n {
            manifesto: cmd("cat manifesto.txt", "We build."),
            magic: cmd("sudo make magic", "*poof*"),
            corvus_facts: facts,
        },
    }
}

fn i18n() -> I18nData {
    i18n_with_facts(vec![
        cmd("fact 1", "Ravens play."),
        cmd("fact 2", "Crows use tools."),
        cmd("fact 3", "Jays cache food."),
        cmd("fact 4", "Magpies know mirrors."),
        cmd("fact 5", "Rooks cooperate."),
    ])
}

fn roster() -> PeopleData {
    PeopleData::new(vec![
        person("alice", "Alice", vec![Link { link_type: s("email"), href: s("mailto:a@x.org"), text: s("mail") }]),
        person("bob", "Bob", vec![]),
        person("alice", "Second Alice", vec![]),
    ])
}

fn bundle() -> AssetBundle {
    AssetBundle {
        main_css: b"body { color: black; }".to_vec(),
        theme_css: b":root {}".to_vec(),
        terminal_css: b".terminal {}".to_vec(),
        interactions_css: b".hover {}".to_vec(),
        htmx_js: b"var htmx;".to_vec(),
        favicon: b"<svg></svg>".to_vec(),
        logo_png: vec![137, 80, 78, 71],
    }
}

#[test]
fn roster_keeps_every_entry_in_order() {
    let r = roster();
    assert_eq!(r.len(), 3);
    let ids: Vec<&str> = r.members.iter().map(|p| p.id.as_str()).collect();
    assert_eq!(ids, vec!["alice", "bob", "alice"]);
}

#[test]
fn find_person_present_absent_and_first_of_duplicates() {
    let r = roster();
    assert_eq!(r.find_person("bob").unwrap().name, "Bob");
    assert_eq!(r.find_person("alice").unwrap().name, "Alice");
    assert!(r.find_person("carol").is_none());
    assert!(r.find_person("").is_none());
    assert!(PeopleData::new(vec![]).find_person("alice").is_none());
}

#[test]
fn language_falls_back_to_dutch() {
    assert_eq!(I18nData::language_for("en"), Language::En);
    assert_eq!(I18nData::language_for("nl"), Language::Nl);
    assert_eq!(I18nData::language_for("fr"), Language::Nl);
    assert_eq!(I18nData::language_for(""), Language::Nl);
    assert_eq!(I18nData::language_for("EN"), Language::Nl);
}

#[test]
fn escaping_replaces_markup_characters() {
    assert_eq!(escaped("<script>"), "&lt;script&gt;");
    assert_eq!(escaped("a & \"b\" 'c'"), "a &amp; &quot;b&quot; &#x27;c&#x27;");
    assert_eq!(escaped("plain é"), "plain é");
    assert_eq!(escaped(""), "");
}

#[test]
fn person_name_with_script_is_escaped() {
    let p = person("x", "<script>alert(1)</script>", vec![]);
    let html = render_person(&i18n(), &p);
    assert!(html.contains("&lt;script&gt;alert(1)&lt;/script&gt;"));
    assert!(!html.contains("<script>alert"));
}

#[test]
fn rendering_twice_is_identical() {
    let t = i18n();
    let r = roster();
    assert_eq!(handle_home(&t, &r).body, handle_home(&t, &r).body);
    assert_eq!(handle_people(&t, &r).body, handle_people(&t, &r).body);
    let p = &r.members[0];
    assert_eq!(render_person(&t, p), render_person(&t, p));
}

#[test]
fn home_shows_roster_size() {
    let r = handle_home(&i18n(), &roster());
    assert_eq!(r.status, 200);
    assert!(r.body.contains("Mensen (3)</a>"));
    assert!(r.body.starts_with("<!DOCTYPE html>"));
    assert!(r.body.contains("<title>Corvus</title>"));
    let many = PeopleData::new((0..12).map(|i| person(&format!("p{}", i), "P", vec![])).collect());
    assert!(handle_home(&i18n(), &many).body.contains("Mensen (12)</a>"));
}

#[test]
fn people_list_in_roster_order() {
    let r = handle_people(&i18n(), &roster());
    assert_eq!(r.status, 200);
    let a = r.body.find("href=\"/people/alice\">Alice<").unwrap();
    let b = r.body.find("href=\"/people/bob\">Bob<").unwrap();
    let c = r.body.find(">Second Alice<").unwrap();
    assert!(a < b && b < c);
    assert!(r.body.contains("<title>Mensen</title>"));
}

#[test]
fn person_page_shows_links_or_no_links() {
    let r = handle_person(&i18n(), &roster(), "alice");
    assert_eq!(r.status, 200);
    assert!(r.body.contains("<h1>Alice</h1>"));
    assert!(r.body.contains("<li><a class=\"link-email\" href=\"mailto:a@x.org\">mail</a></li>"));
    let b = handle_person(&i18n(), &roster(), "bob");
    assert!(b.body.contains("<p class=\"no-links\">Geen links</p>"));
}

#[test]
fn unknown_person_is_not_found() {
    let r = handle_person(&i18n(), &roster(), "nobody");
    assert_eq!(r.status, 404);
    assert!(r.body.contains("Persoon niet gevonden"));
    assert!(r.body.contains("<a href=\"/people\">"));
    assert_eq!(r.body, render_not_found(&i18n()));
    assert_eq!(
        r.body,
        "<h1>Persoon niet gevonden</h1><p><a href=\"/people\">\u{2190} Back to people</a></p>"
    );
}

#[test]
fn fixed_terminal_commands() {
    let m = handle_terminal_manifesto(&i18n());
    assert_eq!(m.status, 200);
    assert_eq!(
        m.body,
        "<div class=\"terminal\"><p class=\"terminal-line\"><span class=\"prompt\">$</span> cat manifesto.txt</p><pre class=\"terminal-output\">We build.</pre></div>"
    );
    let g = handle_terminal_magic(&i18n());
    assert_eq!(g.body, render_terminal("sudo make magic", "*poof*"));
}

#[test]
fn corvus_facts_come_from_the_collection_and_vary() {
    let t = i18n();
    let allowed: Vec<String> = t
        .terminal
        .corvus_facts
        .iter()
        .map(|c| render_terminal(&c.command, &c.output))
        .collect();
    let mut seen: Vec<String> = Vec::new();
    for _ in 0..100 {
        let r = handle_terminal_corvus_fact(&t);
        assert_eq!(r.status, 200);
        assert!(allowed.contains(&r.body));
        if !seen.contains(&r.body) {
            seen.push(r.body);
        }
    }
    assert!(seen.len() > 1);
}

#[test]
fn corvus_fact_by_index_and_empty_collection() {
    let t = i18n();
    let r = corvus_fact_page(&t, 1);
    assert_eq!(r.body, render_terminal("fact 2", "Crows use tools."));
    let out = corvus_fact_page(&t, 5);
    assert_eq!(out.status, 404);
    assert!(out.body.is_empty());
    let none = handle_terminal_corvus_fact(&i18n_with_facts(vec![]));
    assert_eq!(none.status, 404);
    assert!(none.body.is_empty());
}

#[test]
fn assets_allow_list() {
    let b = bundle();
    let r = handle_assets("main.css", &b);
    assert_eq!(r.status, 200);
    assert_eq!(r.content_type.as_deref(), Some("text/css"));
    assert_eq!(r.body, b.main_css);
    let u = handle_assets("unknown.file", &b);
    assert_eq!(u.status, 404);
    assert!(u.content_type.is_none());
    assert!(u.body.is_empty());
    assert_eq!(handle_assets("logo.png", &b).body, vec![137, 80, 78, 71]);
    assert_eq!(handle_assets("logo.png", &b).content_type.as_deref(), Some("image/png"));
    assert_eq!(handle_assets("htmx.min.js", &b).content_type.as_deref(), Some("application/javascript"));
    assert_eq!(handle_assets("favicon.svg", &b).content_type.as_deref(), Some("image/svg+xml"));
    assert_eq!(handle_assets("../main.css", &b).status, 404);
    assert_eq!(handle_assets("css/terminal.css", &b).body, b.terminal_css);
}

#[test]
fn asset_paths_and_types() {
    assert_eq!(asset_for_path("theme.css"), Some(Asset::ThemeCss));
    assert_eq!(asset_for_path("css/interactions.css"), Some(Asset::InteractionsCss));
    assert_eq!(asset_for_path("main.css/"), None);
    assert_eq!(Asset::TerminalCss.content_type(), "text/css");
}

#[test]
fn templates_render_their_views() {
    let t = i18n();
    let r = roster();
    let home = HomeTemplate { i18n: t.clone(), people_count: 0 };
    assert!(home.render().contains("Mensen (0)</a>"));
    let home = HomeTemplate { i18n: t.clone(), people_count: 105 };
    assert!(home.render().contains("Mensen (105)</a>"));
    assert_eq!(home.render(), handle_home(&t, &PeopleData::new((0..105).map(|i| person(&format!("p{}", i), "P", vec![])).collect())).body);
    let people = PeopleTemplate { i18n: t.clone(), people: r.clone() };
    assert_eq!(people.render(), handle_people(&t, &r).body);
    let one = PersonTemplate { i18n: t.clone(), person: r.members[1].clone() };
    assert_eq!(one.render(), handle_person(&t, &r, "bob").body);
    let term = TerminalTemplate { command: s("ls"), output: s("a<b") };
    assert_eq!(term.render(), render_terminal("ls", "a<b"));
    assert!(term.render().contains("a&lt;b"));
}

#[test]
fn people_list_escapes_names() {
    let r = PeopleData::new(vec![person("x", "<script>", vec![])]);
    let body = handle_people(&i18n(), &r).body;
    assert!(body.contains("&lt;script&gt;"));
    assert!(!body.contains("<script>"));
}
