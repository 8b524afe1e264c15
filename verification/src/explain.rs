//! `josephine explain`: what each check watches, why it matters, and how to
//! act, as the lines the command prints.

use vstd::prelude::*;

use crate::i18n::{t, tr, Lang};
use crate::remedy::{advice, advice_for, advice_in, advice_table, all, pick, Advice};
use crate::style::{check_label, label};
use crate::text::{chars_of, lemma_string_views_push, owned, push_str, string_of, string_views};

verus! {

pub open spec fn list_header(lang: Lang) -> Seq<char> {
    tr(
        lang,
        "What Joséphine watches — one line each. Detail: `josephine explain <check>`."@,
        "Ce que Joséphine surveille — une ligne chacun. Détail : `josephine explain <check>`."@,
    )
}

/// One check in the list: its label, its name, and what it watches.
pub open spec fn list_entry(lang: Lang, a: Advice) -> Seq<char> {
    "  "@ + label(lang, a.name@) + " ("@ + a.name@ + ") — "@ + pick(lang, a.what)@
}

/// The list: a header, a blank line, then one line per check in table order.
pub open spec fn list_text(lang: Lang) -> Seq<Seq<char>> {
    seq![list_header(lang), seq![]] + Seq::new(
        advice_table().len(),
        |i: int| list_entry(lang, advice_table()[i]),
    )
}

fn entry_line(lang: Lang, entry: &Advice) -> (r: String)
    ensures
        r@ == list_entry(lang, *entry),
{
    let mut v: Vec<char> = Vec::new();
    push_str(&mut v, "  ");
    let l = check_label(lang, entry.name);
    push_str(&mut v, l.as_str());
    push_str(&mut v, " (");
    push_str(&mut v, entry.name);
    push_str(&mut v, ") — ");
    push_str(&mut v, entry.what(lang));
    string_of(&v)
}

/// The lines of `josephine explain` without a check.
pub fn list_lines(lang: Lang) -> (r: Vec<String>)
    ensures
        string_views(r@) == list_text(lang),
{
    let mut out: Vec<String> = Vec::new();
    let header = t(
        lang,
        "What Joséphine watches — one line each. Detail: `josephine explain <check>`.",
        "Ce que Joséphine surveille — une ligne chacun. Détail : `josephine explain <check>`.",
    );
    assert(string_views(out@) =~= Seq::<Seq<char>>::empty());
    let h = owned(header);
    proof {
        lemma_string_views_push(out@, h);
    }
    out.push(h);
    let blank = owned("");
    proof {
        lemma_string_views_push(out@, blank);
        reveal_strlit("");
    }
    out.push(blank);
    assert(h@ == list_header(lang));
    assert(blank@ =~= Seq::<char>::empty());
    let table = all();
    let mut i: usize = 0;
    assert(string_views(out@) =~= seq![list_header(lang), seq![]] + Seq::new(
        0,
        |k: int| list_entry(lang, advice_table()[k]),
    ));
    while i < table.len()
        invariant
            i <= table.len(),
            table@ == advice_table(),
            string_views(out@) == seq![list_header(lang), seq![]] + Seq::new(
                i as nat,
                |k: int| list_entry(lang, advice_table()[k]),
            ),
        decreases table.len() - i,
    {
        let line = entry_line(lang, &table[i]);
        proof {
            lemma_string_views_push(out@, line);
        }
        out.push(line);
        i = i + 1;
        assert(string_views(out@) =~= seq![list_header(lang), seq![]] + Seq::new(
            i as nat,
            |k: int| list_entry(lang, advice_table()[k]),
        ));
    }
    out
}

/// The detail of one check: its label and name, a blank line, then what it
/// watches, why it matters, and the remedy.
pub open spec fn detail_text(lang: Lang, a: Advice) -> Seq<Seq<char>> {
    seq![
        label(lang, a.name@) + " ("@ + a.name@ + ")"@,
        seq![],
        tr(lang, "What:"@, "Quoi :"@) + " "@ + pick(lang, a.what)@,
        tr(lang, "Why:"@, "Pourquoi :"@) + " "@ + pick(lang, a.why)@,
        tr(lang, "Remedy:"@, "Remède :"@) + " "@ + pick(lang, a.remedy)@,
    ]
}

fn joined(a: &str, b: &str) -> (r: String)
    ensures
        r@ == a@ + " "@ + b@,
{
    let mut v = chars_of(a);
    push_str(&mut v, " ");
    push_str(&mut v, b);
    string_of(&v)
}

/// The lines of `josephine explain <check>` for a known check.
pub fn detail_lines(lang: Lang, entry: &Advice) -> (r: Vec<String>)
    ensures
        string_views(r@) == detail_text(lang, *entry),
{
    let mut head: Vec<char> = Vec::new();
    let l = check_label(lang, entry.name);
    push_str(&mut head, l.as_str());
    push_str(&mut head, " (");
    push_str(&mut head, entry.name);
    push_str(&mut head, ")");
    let a = string_of(&head);
    let b = owned("");
    let c = joined(t(lang, "What:", "Quoi :"), entry.what(lang));
    let d = joined(t(lang, "Why:", "Pourquoi :"), entry.why(lang));
    let e = joined(t(lang, "Remedy:", "Remède :"), entry.remedy(lang));
    proof {
        reveal_strlit("");
    }
    let out: Vec<String> = vec![a, b, c, d, e];
    assert(out@ == seq![a, b, c, d, e]);
    let ghost want = detail_text(lang, *entry);
    assert(a@ == want[0]);
    assert(b@ =~= want[1]);
    assert(c@ == want[2]);
    assert(d@ == want[3]);
    assert(e@ == want[4]);
    assert(string_views(out@) =~= want);
    out
}

/// The names of all checks, in table order.
pub open spec fn known_names() -> Seq<Seq<char>> {
    Seq::new(advice_table().len(), |i: int| advice_table()[i].name@)
}

/// For a name no check has: say so, then list the known checks, indented.
pub open spec fn unknown_text(lang: Lang, name: Seq<char>) -> Seq<Seq<char>> {
    seq![
        match lang {
            Lang::En => "Unknown check \""@ + name + "\". Known checks:"@,
            Lang::Fr => "Check inconnu « "@ + name + " ». Checks connus :"@,
        },
    ] + Seq::new(known_names().len(), |i: int| "  "@ + known_names()[i])
}

/// The lines of `josephine explain <name>` for a name no check has.
pub fn unknown_lines(lang: Lang, name: &str) -> (r: Vec<String>)
    ensures
        string_views(r@) == unknown_text(lang, name@),
{
    let mut first: Vec<char> = Vec::new();
    match lang {
        Lang::En => {
            push_str(&mut first, "Unknown check \"");
            push_str(&mut first, name);
            push_str(&mut first, "\". Known checks:");
        },
        Lang::Fr => {
            push_str(&mut first, "Check inconnu « ");
            push_str(&mut first, name);
            push_str(&mut first, " ». Checks connus :");
        },
    }
    let mut out: Vec<String> = Vec::new();
    let f = string_of(&first);
    proof {
        lemma_string_views_push(out@, f);
    }
    out.push(f);
    let table = all();
    let ghost names = known_names();
    let mut i: usize = 0;
    assert(string_views(out@) =~= seq![unknown_text(lang, name@)[0]] + Seq::new(
        0,
        |k: int| "  "@ + names[k],
    ));
    while i < table.len()
        invariant
            i <= table.len(),
            table@ == advice_table(),
            names == known_names(),
            string_views(out@) == seq![unknown_text(lang, name@)[0]] + Seq::new(
                i as nat,
                |k: int| "  "@ + names[k],
            ),
        decreases table.len() - i,
    {
        let mut line: Vec<char> = Vec::new();
        push_str(&mut line, "  ");
        push_str(&mut line, table[i].name);
        let s = string_of(&line);
        proof {
            lemma_string_views_push(out@, s);
        }
        out.push(s);
        i = i + 1;
        assert(string_views(out@) =~= seq![unknown_text(lang, name@)[0]] + Seq::new(
            i as nat,
            |k: int| "  "@ + names[k],
        ));
    }
    assert(string_views(out@) =~= unknown_text(lang, name@));
    out
}

/// What `josephine explain` prints: the list without a check, the detail for
/// a known one, and the known names for an unknown one.
pub open spec fn explain_text(lang: Lang, check: Option<Seq<char>>) -> Seq<Seq<char>> {
    match check {
        None => list_text(lang),
        Some(name) => match advice_for(name) {
            Some(a) => detail_text(lang, a),
            None => unknown_text(lang, name),
        },
    }
}

pub fn run(lang: Lang, check: Option<&str>) -> (r: Vec<String>)
    ensures
        string_views(r@) == explain_text(
            lang,
            match check {
                Some(c) => Some(c@),
                None => None,
            },
        ),
{
    match check {
        None => list_lines(lang),
        Some(name) => match advice(name) {
            Some(entry) => detail_lines(lang, &entry),
            None => unknown_lines(lang, name),
        },
    }
}

proof fn lemma_found_at(table: Seq<Advice>, name: Seq<char>, i: int)
    requires
        0 <= i < table.len(),
        table[i].name@ == name,
        forall|j: int| 0 <= j < i ==> (#[trigger] table[j]).name@ != name,
    ensures
        advice_in(table, name) == Some(table[i]),
    decreases i,
{
    if i > 0 {
        assert forall|j: int| 0 <= j < i - 1 implies (#[trigger] table.drop_first()[j]).name@
            != name by {
            assert(table.drop_first()[j] == table[j + 1]);
        }
        lemma_found_at(table.drop_first(), name, i - 1);
    }
}

/// Every check that the list shows can be explained: `explain <name>` on a
/// listed name gives that check's detail.
pub proof fn lemma_every_listed_check_is_explained(lang: Lang, i: int)
    requires
        0 <= i < advice_table().len(),
    ensures
        explain_text(lang, Some(advice_table()[i].name@)) == detail_text(lang, advice_table()[i]),
{
    let table = advice_table();
    reveal_strlit("cpu");
    reveal_strlit("memory");
    reveal_strlit("disk");
    reveal_strlit("temperature");
    reveal_strlit("systemd");
    reveal_strlit("updates");
    reveal_strlit("network");
    reveal_strlit("battery");
    reveal_strlit("inode");
    reveal_strlit("smart");
    reveal_strlit("kernel");
    reveal_strlit("filesystem");
    reveal_strlit("timesync");
    reveal_strlit("security");
    reveal_strlit("reboot");
    reveal_strlit("pressure");
    assert forall|j: int| 0 <= j < i implies (#[trigger] table[j]).name@ != table[i].name@ by {
        assert(table[j].name@.len() != table[i].name@.len() || table[j].name@[0]
            != table[i].name@[0]);
    }
    lemma_found_at(table, table[i].name@, i);
}

} // verus!
