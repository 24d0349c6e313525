use vstd::prelude::*;

verus! {

/// What HTML escaping writes for one character.
pub open spec fn escape_char(c: char) -> Seq<char> {
    if c == '<' {
        seq!['&', 'l', 't', ';']
    } else if c == '>' {
        seq!['&', 'g', 't', ';']
    } else if c == '&' {
        seq!['&', 'a', 'm', 'p', ';']
    } else if c == '"' {
        seq!['&', 'q', 'u', 'o', 't', ';']
    } else if c == '\'' {
        seq!['&', '#', 'x', '2', '7', ';']
    } else {
        seq![c]
    }
}

/// `s` with each character replaced by its escaped form.
pub open spec fn html_escaped(s: Seq<char>) -> Seq<char>
    decreases s.len(),
{
    if s.len() == 0 {
        Seq::empty()
    } else {
        html_escaped(s.drop_last()) + escape_char(s.last())
    }
}

/// The decimal digit for `d`, which is below ten.
pub open spec fn digit_char(d: nat) -> char {
    seq!['0', '1', '2', '3', '4', '5', '6', '7', '8', '9'][d as int]
}

/// The decimal numeral of `n`, without leading zeros.
pub open spec fn decimal(n: nat) -> Seq<char>
    decreases n,
{
    if n < 10 {
        seq![digit_char(n)]
    } else {
        decimal(n / 10) + seq![digit_char(n % 10)]
    }
}

/// Relies on askama's `Html` escaper, applied through `MarkupDisplay`: it
/// writes `&lt;`, `&gt;`, `&amp;`, `&quot;` and `&#x27;` for `<`, `>`, `&`,
/// `"` and `'`, and copies every other character unchanged.
#[verifier::external_body]
fn escape_html(s: &str) -> (r: String)
    ensures
        r@ == html_escaped(s@),
{
    askama::MarkupDisplay::new_unsafe(s, askama::Html).to_string()
}

/// `s`, HTML-escaped.
pub fn escaped(s: &str) -> (r: String)
    ensures
        r@ == html_escaped(s@),
{
    escape_html(s)
}

/// Appends `s`, HTML-escaped, to `out`.
pub fn push_text(out: &mut String, s: &str)
    ensures
        final(out)@ == old(out)@ + html_escaped(s@),
{
    let e = escape_html(s);
    out.append(e.as_str());
}

/// The one-character text of the digit `d`.
fn digit_text(d: usize) -> (r: &'static str)
    requires
        d < 10,
    ensures
        r@ == seq![digit_char(d as nat)],
{
    proof {
        reveal_strlit("0");
        reveal_strlit("1");
        reveal_strlit("2");
        reveal_strlit("3");
        reveal_strlit("4");
        reveal_strlit("5");
        reveal_strlit("6");
        reveal_strlit("7");
        reveal_strlit("8");
        reveal_strlit("9");
    }
    let r = if d == 0 {
        "0"
    } else if d == 1 {
        "1"
    } else if d == 2 {
        "2"
    } else if d == 3 {
        "3"
    } else if d == 4 {
        "4"
    } else if d == 5 {
        "5"
    } else if d == 6 {
        "6"
    } else if d == 7 {
        "7"
    } else if d == 8 {
        "8"
    } else {
        "9"
    };
    assert(r@ =~= seq![digit_char(d as nat)]);
    r
}

/// Appends the decimal numeral of `n` to `out`.
pub fn push_decimal(out: &mut String, n: usize)
    ensures
        final(out)@ == old(out)@ + decimal(n as nat),
    decreases n,
{
    if n >= 10 {
        push_decimal(out, n / 10);
    }
    out.append(digit_text(n % 10));
}

/// Escaped text never holds a markup delimiter or a quote.
pub proof fn lemma_escaped_has_no_markup(s: Seq<char>)
    ensures
        forall|i: int|
            0 <= i < html_escaped(s).len() ==> {
                let c = #[trigger] html_escaped(s)[i];
                c != '<' && c != '>' && c != '"' && c != '\''
            },
    decreases s.len(),
{
    if s.len() > 0 {
        lemma_escaped_has_no_markup(s.drop_last());
        let a = html_escaped(s.drop_last());
        let b = escape_char(s.last());
        assert forall|i: int| 0 <= i < b.len() implies b[i] != '<' && b[i] != '>' && b[i] != '"'
            && b[i] != '\'' by {}
        assert forall|i: int| 0 <= i < html_escaped(s).len() implies {
            let c = #[trigger] html_escaped(s)[i];
            c != '<' && c != '>' && c != '"' && c != '\''
        } by {
            if i < a.len() {
                assert(html_escaped(s)[i] == a[i]);
            } else {
                assert(html_escaped(s)[i] == b[i - a.len()]);
            }
        }
    }
}

/// `b` stands in `a` starting at position `k`.
pub open spec fn occurs_at(a: Seq<char>, b: Seq<char>, k: int) -> bool {
    0 <= k && k + b.len() <= a.len() && a.subrange(k, k + b.len()) == b
}

/// `b` stands somewhere in `a`.
pub open spec fn occurs_in(a: Seq<char>, b: Seq<char>) -> bool {
    exists|k: int| occurs_at(a, b, k)
}

/// What stands in `x` still stands in `x + y`, and in `y + x`.
pub proof fn lemma_occurs_in_concat(x: Seq<char>, y: Seq<char>, b: Seq<char>)
    requires
        occurs_in(x, b),
    ensures
        occurs_in(x + y, b),
        occurs_in(y + x, b),
{
    let k = choose|k: int| occurs_at(x, b, k);
    assert((x + y).subrange(k, k + b.len()) =~= b);
    assert(occurs_at(x + y, b, k));
    assert((y + x).subrange(y.len() + k, y.len() + k + b.len()) =~= b);
    assert(occurs_at(y + x, b, y.len() + k));
}

/// Text that holds a `<` or a `>` never stands inside escaped text: the raw
/// form of markup cannot survive escaping.
pub proof fn lemma_markup_never_survives_escaping(s: Seq<char>, t: Seq<char>)
    requires
        exists|i: int| 0 <= i < t.len() && (t[i] == '<' || t[i] == '>'),
    ensures
        !occurs_in(html_escaped(s), t),
{
    lemma_escaped_has_no_markup(s);
    let i = choose|i: int| 0 <= i < t.len() && (t[i] == '<' || t[i] == '>');
    if occurs_in(html_escaped(s), t) {
        let k = choose|k: int| occurs_at(html_escaped(s), t, k);
        assert(html_escaped(s).subrange(k, k + t.len())[i] == html_escaped(s)[k + i]);
    }
}

} // verus!
