//! launchd agent definitions and the property list that describes one.
use crate::text::{lemma_text_lt_total, lemma_text_lt_transitive, str_eq, string_views, text_less, text_lt};
use vstd::prelude::*;

verus! {

/// A launch agent.  `environment_variables` are its environment settings
/// as a map from name to value: a later entry for a name replaces an
/// earlier one, and a property list lists them by name in ascending order.
#[derive(Debug, Clone)]
pub struct Definition {
    pub label: String,
    pub program_arguments: Vec<String>,
    pub environment_variables: Vec<(String, String)>,
    pub run_at_load: bool,
    pub keep_alive: bool,
}

/// What one character becomes in XML text.
pub open spec fn xml_char(c: char) -> Seq<char> {
    if c == '&' {
        "&amp;"@
    } else if c == '<' {
        "&lt;"@
    } else if c == '>' {
        "&gt;"@
    } else if c == '"' {
        "&quot;"@
    } else if c == '\'' {
        "&apos;"@
    } else {
        seq![c]
    }
}

/// `s` with the five XML special characters written as entities.
pub open spec fn xml_escape(s: Seq<char>) -> Seq<char>
    decreases s.len(),
{
    if s.len() == 0 {
        Seq::empty()
    } else {
        xml_escape(s.drop_last()) + xml_char(s.last())
    }
}

/// Appends `s`, escaped for XML text, to `out`.
pub fn push_escaped(out: &mut String, s: &str)
    ensures
        final(out)@ == old(out)@ + xml_escape(s@),
{
    let ghost start = old(out)@;
    for c in it: s.chars()
        invariant
            it.seq() == s@,
            out@ == start + xml_escape(it.seq().take(it.index() as int)),
    {
        assert(it.seq().take(it.index() + 1).drop_last() =~= it.seq().take(it.index() as int));
        if c == '&' {
            out.append("&amp;");
        } else if c == '<' {
            out.append("&lt;");
        } else if c == '>' {
            out.append("&gt;");
        } else if c == '"' {
            out.append("&quot;");
        } else if c == '\'' {
            out.append("&apos;");
        } else {
            out.push(c);
        }
        assert(out@ =~= start + xml_escape(it.seq().take(it.index() + 1)));
    }
    assert(s@.take(s@.len() as int) =~= s@);
}

pub fn escape_xml(value: &str) -> (r: String)
    ensures
        r@ == xml_escape(value@),
{
    let mut r = String::new();
    push_escaped(&mut r, value);
    r
}

/// Law: escaped text holds no character that XML reads as markup or as the
/// end of an attribute value.  (That each of its ampersands begins an
/// entity is `lemma_escaped_ampersands_start_entities`, and that it reads
/// back as the original text is `lemma_xml_unescape_escape`.)
pub proof fn lemma_escaped_has_no_markup(s: Seq<char>)
    ensures
        forall|i: int|
            0 <= i < xml_escape(s).len() ==> {
                let c = #[trigger] xml_escape(s)[i];
                c != '<' && c != '>' && c != '"' && c != '\''
            },
    decreases s.len(),
{
    reveal_strlit("&amp;");
    reveal_strlit("&lt;");
    reveal_strlit("&gt;");
    reveal_strlit("&quot;");
    reveal_strlit("&apos;");
    if s.len() > 0 {
        lemma_escaped_has_no_markup(s.drop_last());
        let prev = xml_escape(s.drop_last());
        let tail = xml_char(s.last());
        assert forall|i: int| 0 <= i < xml_escape(s).len() implies {
            let c = #[trigger] xml_escape(s)[i];
            c != '<' && c != '>' && c != '"' && c != '\''
        } by {
            if i < prev.len() {
                assert(xml_escape(s)[i] == prev[i]);
            } else {
                assert(xml_escape(s)[i] == tail[i - prev.len()]);
            }
        }
    }
}

/// One of the five entities starts at index `i` of `t`.
pub open spec fn entity_at(t: Seq<char>, i: int) -> bool {
    ||| i + 5 <= t.len() && t.subrange(i, i + 5) == "&amp;"@
    ||| i + 4 <= t.len() && t.subrange(i, i + 4) == "&lt;"@
    ||| i + 4 <= t.len() && t.subrange(i, i + 4) == "&gt;"@
    ||| i + 6 <= t.len() && t.subrange(i, i + 6) == "&quot;"@
    ||| i + 6 <= t.len() && t.subrange(i, i + 6) == "&apos;"@
}

/// An entity found in `a` is still there in `a + b`.
proof fn lemma_entity_at_prefix(a: Seq<char>, b: Seq<char>, i: int)
    requires
        0 <= i,
        entity_at(a, i),
    ensures
        entity_at(a + b, i),
{
    let t = a + b;
    assert forall|k: int| 0 <= k && i + k <= a.len() implies #[trigger] t.subrange(i, i + k) == a.subrange(i, i + k) by {
        assert(t.subrange(i, i + k) =~= a.subrange(i, i + k));
    }
    if i + 5 <= a.len() {
        assert(t.subrange(i, i + 5) == a.subrange(i, i + 5));
    }
    if i + 4 <= a.len() {
        assert(t.subrange(i, i + 4) == a.subrange(i, i + 4));
    }
    if i + 6 <= a.len() {
        assert(t.subrange(i, i + 6) == a.subrange(i, i + 6));
    }
}

/// Law: every ampersand in escaped text begins one of the five entities.
pub proof fn lemma_escaped_ampersands_start_entities(s: Seq<char>)
    ensures
        forall|i: int| 0 <= i < xml_escape(s).len() && #[trigger] xml_escape(s)[i] == '&' ==> entity_at(xml_escape(s), i),
    decreases s.len(),
{
    reveal_strlit("&amp;");
    reveal_strlit("&lt;");
    reveal_strlit("&gt;");
    reveal_strlit("&quot;");
    reveal_strlit("&apos;");
    if s.len() > 0 {
        lemma_escaped_ampersands_start_entities(s.drop_last());
        let prev = xml_escape(s.drop_last());
        let tail = xml_char(s.last());
        let t = xml_escape(s);
        assert(t == prev + tail);
        assert forall|i: int| 0 <= i < t.len() && #[trigger] t[i] == '&' implies entity_at(t, i) by {
            if i < prev.len() {
                assert(prev[i] == t[i]);
                lemma_entity_at_prefix(prev, tail, i);
            } else {
                let j = i - prev.len();
                assert(tail[j] == '&');
                assert(j == 0);
                assert(t.subrange(i, i + tail.len()) =~= tail);
            }
        }
    }
}

/// Reads XML text: each of the five entities becomes the character it
/// stands for, and every other character stands for itself.
pub open spec fn xml_unescape(s: Seq<char>) -> Seq<char>
    decreases s.len(),
{
    if s.len() == 0 {
        Seq::empty()
    } else if s[0] != '&' {
        seq![s[0]] + xml_unescape(s.drop_first())
    } else if s.len() >= 5 && s.take(5) == "&amp;"@ {
        seq!['&'] + xml_unescape(s.skip(5))
    } else if s.len() >= 4 && s.take(4) == "&lt;"@ {
        seq!['<'] + xml_unescape(s.skip(4))
    } else if s.len() >= 4 && s.take(4) == "&gt;"@ {
        seq!['>'] + xml_unescape(s.skip(4))
    } else if s.len() >= 6 && s.take(6) == "&quot;"@ {
        seq!['"'] + xml_unescape(s.skip(6))
    } else if s.len() >= 6 && s.take(6) == "&apos;"@ {
        seq!['\''] + xml_unescape(s.skip(6))
    } else {
        seq![s[0]] + xml_unescape(s.drop_first())
    }
}

/// Escaping distributes over concatenation.
proof fn lemma_xml_escape_append(a: Seq<char>, b: Seq<char>)
    ensures
        xml_escape(a + b) == xml_escape(a) + xml_escape(b),
    decreases b.len(),
{
    if b.len() == 0 {
        assert(a + b =~= a);
        assert(xml_escape(a) + xml_escape(b) =~= xml_escape(a));
    } else {
        lemma_xml_escape_append(a, b.drop_last());
        assert((a + b).drop_last() =~= a + b.drop_last());
        assert(xml_escape(a) + xml_escape(b) =~= xml_escape(a) + xml_escape(b.drop_last()) + xml_char(b.last()));
    }
}

/// Reading the escaped form of `c` in front of `t` gives `c` back and
/// goes on with `t`.
proof fn lemma_xml_unescape_char(c: char, t: Seq<char>)
    ensures
        xml_unescape(xml_char(c) + t) == seq![c] + xml_unescape(t),
{
    reveal_strlit("&amp;");
    reveal_strlit("&lt;");
    reveal_strlit("&gt;");
    reveal_strlit("&quot;");
    reveal_strlit("&apos;");
    let s = xml_char(c) + t;
    let k = xml_char(c).len() as int;
    assert(s.take(k) =~= xml_char(c));
    assert(s.skip(k) =~= t);
    if c != '&' && c != '<' && c != '>' && c != '"' && c != '\'' {
        assert(s.drop_first() =~= t);
    } else {
        assert(s[0] == '&');
        assert(s[1] == xml_char(c)[1]);
        assert(s[2] == xml_char(c)[2]);
    }
}

/// Law: reading escaped text gives back exactly the original text.
pub proof fn lemma_xml_unescape_escape(s: Seq<char>)
    ensures
        xml_unescape(xml_escape(s)) == s,
    decreases s.len(),
{
    if s.len() > 0 {
        let rest = s.drop_first();
        assert(s =~= seq![s[0]] + rest);
        lemma_xml_escape_append(seq![s[0]], rest);
        let one = seq![s[0]];
        assert(one.drop_last() =~= Seq::<char>::empty());
        assert(one.last() == s[0]);
        assert(xml_escape(Seq::<char>::empty()) == Seq::<char>::empty());
        assert(Seq::<char>::empty() + xml_char(s[0]) =~= xml_char(s[0]));
        assert(xml_escape(one) == xml_char(s[0]));
        lemma_xml_unescape_char(s[0], xml_escape(rest));
        lemma_xml_unescape_escape(rest);
    }
}

pub const PLIST_HEAD: &'static str = "<?xml version=\"1.0\" encoding=\"UTF-8\"?>\n<!DOCTYPE plist PUBLIC \"-//Apple//DTD PLIST 1.0//EN\" \"http://www.apple.com/DTDs/PropertyList-1.0.dtd\">\n<plist version=\"1.0\"><dict>\n<key>Label</key><string>";

pub const PLIST_AFTER_LABEL: &'static str = "</string>\n<key>ProgramArguments</key><array>";

pub const PLIST_AFTER_ARGUMENTS: &'static str = "</array>\n";

pub const PLIST_BEFORE_RUN_AT_LOAD: &'static str = "\n<key>RunAtLoad</key><";

pub const PLIST_BEFORE_KEEP_ALIVE: &'static str = "/>\n<key>KeepAlive</key><";

pub const PLIST_TAIL: &'static str = "/>\n</dict></plist>";

/// The `<string>` elements of the program arguments.
pub open spec fn argument_elements(args: Seq<Seq<char>>) -> Seq<char>
    decreases args.len(),
{
    if args.len() == 0 {
        Seq::empty()
    } else {
        argument_elements(args.drop_last()) + "<string>"@ + xml_escape(args.last()) + "</string>"@
    }
}

/// The key and string elements of the environment entries.
pub open spec fn environment_entries(env: Seq<(Seq<char>, Seq<char>)>) -> Seq<char>
    decreases env.len(),
{
    if env.len() == 0 {
        Seq::empty()
    } else {
        environment_entries(env.drop_last()) + "<key>"@ + xml_escape(env.last().0) + "</key><string>"@
            + xml_escape(env.last().1) + "</string>"@
    }
}

/// `m` with the entry `e` put in: in place of the entry of the same name,
/// or before the first entry whose name comes after it.
pub open spec fn env_insert(m: Seq<(Seq<char>, Seq<char>)>, e: (Seq<char>, Seq<char>)) -> Seq<(Seq<char>, Seq<char>)>
    decreases m.len(),
{
    if m.len() == 0 {
        seq![e]
    } else if m[0].0 == e.0 {
        seq![e] + m.drop_first()
    } else if text_lt(e.0, m[0].0) {
        seq![e] + m
    } else {
        seq![m[0]] + env_insert(m.drop_first(), e)
    }
}

/// The environment as a map keeps it: each name once with the value given
/// last, in ascending order of names.
pub open spec fn env_map_order(env: Seq<(Seq<char>, Seq<char>)>) -> Seq<(Seq<char>, Seq<char>)>
    decreases env.len(),
{
    if env.len() == 0 {
        Seq::empty()
    } else {
        env_insert(env_map_order(env.drop_last()), env.last())
    }
}

/// The names of `m` strictly ascend.
pub open spec fn names_ascend(m: Seq<(Seq<char>, Seq<char>)>) -> bool {
    forall|i: int, j: int| 0 <= i < j < m.len() ==> text_lt(#[trigger] m[i].0, #[trigger] m[j].0)
}

/// The value given last for `name` among `env`.
pub open spec fn last_value(env: Seq<(Seq<char>, Seq<char>)>, name: Seq<char>) -> Option<Seq<char>>
    decreases env.len(),
{
    if env.len() == 0 {
        None
    } else if env.last().0 == name {
        Some(env.last().1)
    } else {
        last_value(env.drop_last(), name)
    }
}

/// The value of the first entry named `name` in `m`.
pub open spec fn entry_value(m: Seq<(Seq<char>, Seq<char>)>, name: Seq<char>) -> Option<Seq<char>>
    decreases m.len(),
{
    if m.len() == 0 {
        None
    } else if m[0].0 == name {
        Some(m[0].1)
    } else {
        entry_value(m.drop_first(), name)
    }
}

proof fn lemma_env_insert_value(m: Seq<(Seq<char>, Seq<char>)>, e: (Seq<char>, Seq<char>), name: Seq<char>)
    ensures
        entry_value(env_insert(m, e), name) == (if name == e.0 { Some(e.1) } else { entry_value(m, name) }),
    decreases m.len(),
{
    let r = env_insert(m, e);
    if m.len() == 0 {
        assert(r =~= seq![e]);
        assert(r.drop_first() =~= Seq::<(Seq<char>, Seq<char>)>::empty());
        assert(entry_value(r.drop_first(), name) == None::<Seq<char>>);
    } else {
        if m[0].0 == e.0 {
            assert(r =~= seq![e] + m.drop_first());
            assert(r[0] == e);
            assert(r.drop_first() =~= m.drop_first());
        } else if text_lt(e.0, m[0].0) {
            assert(r =~= seq![e] + m);
            assert(r[0] == e);
            assert(r.drop_first() =~= m);
        } else {
            lemma_env_insert_value(m.drop_first(), e, name);
            assert(r =~= seq![m[0]] + env_insert(m.drop_first(), e));
            assert(r[0] == m[0]);
            assert(r.drop_first() =~= env_insert(m.drop_first(), e));
        }
        assert(entry_value(r, name) == if r[0].0 == name { Some(r[0].1) } else { entry_value(r.drop_first(), name) });
        assert(entry_value(m, name) == if m[0].0 == name { Some(m[0].1) } else { entry_value(m.drop_first(), name) });
    }
}

proof fn lemma_env_insert_bound(m: Seq<(Seq<char>, Seq<char>)>, e: (Seq<char>, Seq<char>), x: Seq<char>)
    requires
        text_lt(x, e.0),
        forall|i: int| 0 <= i < m.len() ==> text_lt(x, #[trigger] m[i].0),
    ensures
        forall|j: int| 0 <= j < env_insert(m, e).len() ==> text_lt(x, #[trigger] env_insert(m, e)[j].0),
    decreases m.len(),
{
    if m.len() > 0 {
        let r = env_insert(m, e);
        if m[0].0 == e.0 {
            assert forall|j: int| 0 <= j < r.len() implies text_lt(x, #[trigger] r[j].0) by {
                if j > 0 {
                    assert(r[j] == m[j]);
                }
            }
        } else if text_lt(e.0, m[0].0) {
            assert forall|j: int| 0 <= j < r.len() implies text_lt(x, #[trigger] r[j].0) by {
                if j > 0 {
                    assert(r[j] == m[j - 1]);
                }
            }
        } else {
            let rest = m.drop_first();
            assert forall|i: int| 0 <= i < rest.len() implies text_lt(x, #[trigger] rest[i].0) by {
                assert(rest[i] == m[i + 1]);
            }
            lemma_env_insert_bound(rest, e, x);
            assert forall|j: int| 0 <= j < r.len() implies text_lt(x, #[trigger] r[j].0) by {
                if j > 0 {
                    assert(r[j] == env_insert(rest, e)[j - 1]);
                }
            }
        }
    }
}

proof fn lemma_env_insert_ascends(m: Seq<(Seq<char>, Seq<char>)>, e: (Seq<char>, Seq<char>))
    requires
        names_ascend(m),
    ensures
        names_ascend(env_insert(m, e)),
    decreases m.len(),
{
    if m.len() > 0 {
        let r = env_insert(m, e);
        if m[0].0 == e.0 {
            assert forall|i: int, j: int| 0 <= i < j < r.len() implies text_lt(#[trigger] r[i].0, #[trigger] r[j].0) by {
                assert(r[j] == m[j]);
                if i > 0 {
                    assert(r[i] == m[i]);
                } else {
                    assert(text_lt(m[0].0, m[j].0));
                }
            }
        } else if text_lt(e.0, m[0].0) {
            assert forall|i: int, j: int| 0 <= i < j < r.len() implies text_lt(#[trigger] r[i].0, #[trigger] r[j].0) by {
                assert(r[j] == m[j - 1]);
                if i > 0 {
                    assert(r[i] == m[i - 1]);
                } else if j > 1 {
                    assert(text_lt(m[0].0, m[j - 1].0));
                    lemma_text_lt_transitive(e.0, m[0].0, m[j - 1].0);
                }
            }
        } else {
            let rest = m.drop_first();
            lemma_text_lt_total(m[0].0, e.0);
            assert(names_ascend(rest)) by {
                assert forall|i: int, j: int| 0 <= i < j < rest.len() implies text_lt(#[trigger] rest[i].0, #[trigger] rest[j].0) by {
                    assert(rest[i] == m[i + 1] && rest[j] == m[j + 1]);
                }
            }
            lemma_env_insert_ascends(rest, e);
            assert forall|i: int| 0 <= i < rest.len() implies text_lt(m[0].0, #[trigger] rest[i].0) by {
                assert(rest[i] == m[i + 1]);
            }
            lemma_env_insert_bound(rest, e, m[0].0);
            let tail = env_insert(rest, e);
            assert forall|i: int, j: int| 0 <= i < j < r.len() implies text_lt(#[trigger] r[i].0, #[trigger] r[j].0) by {
                assert(r[j] == tail[j - 1]);
                if i > 0 {
                    assert(r[i] == tail[i - 1]);
                }
            }
        }
    }
}

/// Law: the environment a property list shows is the environment as a map:
/// names strictly ascend, and each name has the value given last for it,
/// no other name appearing.
pub proof fn lemma_env_map_order(env: Seq<(Seq<char>, Seq<char>)>)
    ensures
        names_ascend(env_map_order(env)),
        forall|name: Seq<char>| #[trigger] entry_value(env_map_order(env), name) == last_value(env, name),
    decreases env.len(),
{
    if env.len() > 0 {
        lemma_env_map_order(env.drop_last());
        lemma_env_insert_ascends(env_map_order(env.drop_last()), env.last());
        assert forall|name: Seq<char>| #[trigger] entry_value(env_map_order(env), name) == last_value(env, name) by {
            lemma_env_insert_value(env_map_order(env.drop_last()), env.last(), name);
        }
    }
}

proof fn lemma_env_insert_at(m: Seq<(Seq<char>, Seq<char>)>, e: (Seq<char>, Seq<char>), i: int)
    requires
        0 <= i <= m.len(),
        forall|j: int| 0 <= j < i ==> text_lt(#[trigger] m[j].0, e.0),
        i < m.len() ==> !text_lt(m[i].0, e.0),
    ensures
        env_insert(m, e) == if i < m.len() && m[i].0 == e.0 {
            m.take(i) + seq![e] + m.skip(i + 1)
        } else {
            m.take(i) + seq![e] + m.skip(i)
        },
    decreases i,
{
    if i == 0 {
        assert(m.take(0) =~= Seq::<(Seq<char>, Seq<char>)>::empty());
        assert(m.skip(0) =~= m);
        assert(m.skip(1) =~= m.drop_first());
        if m.len() > 0 && m[0].0 != e.0 {
            lemma_text_lt_total(m[0].0, e.0);
        }
        if m.len() == 0 {
            assert(seq![e] + m =~= seq![e]);
        }
    } else {
        lemma_text_lt_total(m[0].0, e.0);
        let rest = m.drop_first();
        assert forall|j: int| 0 <= j < i - 1 implies text_lt(#[trigger] rest[j].0, e.0) by {
            assert(rest[j] == m[j + 1]);
        }
        lemma_env_insert_at(rest, e, i - 1);
        assert(m.take(i) =~= seq![m[0]] + rest.take(i - 1));
        if i < m.len() {
            assert(rest.skip(i) =~= m.skip(i + 1));
        }
        assert(rest.skip(i - 1) =~= m.skip(i));
    }
}

fn insert_entry(sorted: &mut Vec<(String, String)>, name: String, value: String)
    ensures
        env_views(final(sorted)@) == env_insert(env_views(old(sorted)@), (name@, value@)),
{
    let ghost m = env_views(sorted@);
    let ghost e = (name@, value@);
    let mut i: usize = 0;
    while i < sorted.len() && text_less(sorted[i].0.as_str(), name.as_str())
        invariant
            i <= sorted.len(),
            m == env_views(sorted@),
            e == (name@, value@),
            forall|j: int| 0 <= j < i ==> text_lt(#[trigger] m[j].0, e.0),
        decreases sorted.len() - i,
    {
        assert(m[i as int] == (sorted@[i as int].0@, sorted@[i as int].1@));
        i = i + 1;
    }
    if i < sorted.len() {
        assert(m[i as int] == (sorted@[i as int].0@, sorted@[i as int].1@));
    }
    proof {
        lemma_env_insert_at(m, e, i as int);
    }
    if i < sorted.len() && str_eq(sorted[i].0.as_str(), name.as_str()) {
        sorted.set(i, (name, value));
        assert(env_views(sorted@) =~= m.take(i as int) + seq![e] + m.skip(i + 1));
    } else {
        sorted.insert(i, (name, value));
        assert(env_views(sorted@) =~= m.take(i as int) + seq![e] + m.skip(i as int));
    }
}

/// The environment in the order a property list lists it: each name once
/// with the value given last, names ascending.
pub fn environment_in_order(env: &Vec<(String, String)>) -> (r: Vec<(String, String)>)
    ensures
        env_views(r@) == env_map_order(env_views(env@)),
{
    let ghost all = env_views(env@);
    let mut sorted: Vec<(String, String)> = Vec::new();
    assert(env_views(sorted@) =~= Seq::<(Seq<char>, Seq<char>)>::empty());
    let mut k: usize = 0;
    while k < env.len()
        invariant
            k <= env.len(),
            all == env_views(env@),
            env_views(sorted@) == env_map_order(all.take(k as int)),
        decreases env.len() - k,
    {
        assert(all.take(k + 1).drop_last() =~= all.take(k as int));
        assert(all[k as int] == (env@[k as int].0@, env@[k as int].1@));
        let entry = &env[k];
        insert_entry(&mut sorted, entry.0.clone(), entry.1.clone());
        k = k + 1;
    }
    assert(all.take(env.len() as int) =~= all);
    sorted
}

/// The environment block: absent for an empty environment.
pub open spec fn environment_block(env: Seq<(Seq<char>, Seq<char>)>) -> Seq<char> {
    if env.len() == 0 {
        Seq::empty()
    } else {
        "<key>EnvironmentVariables</key><dict>"@ + environment_entries(env) + "</dict>"@
    }
}

pub open spec fn plist_bool(b: bool) -> Seq<char> {
    if b {
        "true"@
    } else {
        "false"@
    }
}

pub open spec fn env_views(env: Seq<(String, String)>) -> Seq<(Seq<char>, Seq<char>)> {
    env.map_values(|e: (String, String)| (e.0@, e.1@))
}

/// The property list of a launch agent.
pub open spec fn plist(def: Definition) -> Seq<char> {
    PLIST_HEAD@ + xml_escape(def.label@) + PLIST_AFTER_LABEL@ + argument_elements(
        string_views(def.program_arguments@),
    ) + PLIST_AFTER_ARGUMENTS@ + environment_block(env_map_order(env_views(def.environment_variables@)))
        + PLIST_BEFORE_RUN_AT_LOAD@ + plist_bool(def.run_at_load) + PLIST_BEFORE_KEEP_ALIVE@
        + plist_bool(def.keep_alive) + PLIST_TAIL@
}

fn push_bool(out: &mut String, b: bool)
    ensures
        final(out)@ == old(out)@ + plist_bool(b),
{
    if b {
        out.append("true");
    } else {
        out.append("false");
    }
}

pub fn render(definition: &Definition) -> (r: String)
    ensures
        r@ == plist(*definition),
{
    let mut out = PLIST_HEAD.to_string();
    push_escaped(&mut out, definition.label.as_str());
    out.append(PLIST_AFTER_LABEL);
    let ghost args = string_views(definition.program_arguments@);
    let ghost before_args = out@;
    let mut i: usize = 0;
    while i < definition.program_arguments.len()
        invariant
            i <= definition.program_arguments.len(),
            args == string_views(definition.program_arguments@),
            out@ == before_args + argument_elements(args.take(i as int)),
        decreases definition.program_arguments.len() - i,
    {
        assert(args.take(i + 1).drop_last() =~= args.take(i as int));
        assert(args[i as int] == definition.program_arguments@[i as int]@);
        out.append("<string>");
        push_escaped(&mut out, definition.program_arguments[i].as_str());
        out.append("</string>");
        i = i + 1;
        assert(out@ =~= before_args + argument_elements(args.take(i as int)));
    }
    assert(args.take(definition.program_arguments.len() as int) =~= args);
    out.append(PLIST_AFTER_ARGUMENTS);
    let environment = environment_in_order(&definition.environment_variables);
    let ghost env = env_views(environment@);
    let ghost before_env = out@;
    if environment.len() > 0 {
        out.append("<key>EnvironmentVariables</key><dict>");
        let ghost before_entries = out@;
        let mut k: usize = 0;
        while k < environment.len()
            invariant
                k <= environment.len(),
                env == env_views(environment@),
                out@ == before_entries + environment_entries(env.take(k as int)),
            decreases environment.len() - k,
        {
            assert(env.take(k + 1).drop_last() =~= env.take(k as int));
            let entry = &environment[k];
            assert(env[k as int] == (entry.0@, entry.1@));
            out.append("<key>");
            push_escaped(&mut out, entry.0.as_str());
            out.append("</key><string>");
            push_escaped(&mut out, entry.1.as_str());
            out.append("</string>");
            k = k + 1;
            assert(out@ =~= before_entries + environment_entries(env.take(k as int)));
        }
        assert(env.take(environment.len() as int) =~= env);
        out.append("</dict>");
    }
    assert(out@ =~= before_env + environment_block(env));
    out.append(PLIST_BEFORE_RUN_AT_LOAD);
    push_bool(&mut out, definition.run_at_load);
    out.append(PLIST_BEFORE_KEEP_ALIVE);
    push_bool(&mut out, definition.keep_alive);
    out.append(PLIST_TAIL);
    assert(out@ =~= plist(*definition));
    out
}

} // verus!
