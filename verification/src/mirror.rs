use vstd::prelude::*;

use crate::config::SharePointConfig;
use crate::text::{
    clamp_parse, is_space_char, lemma_ltrimmed_determined, lemma_rtrimmed_determined,
    parse_clamped, strip_quotes, trim_str, trimmed, unquoted,
};

verus! {

// ---------------------------------------------------------------------------
// The mirror file format
//
// The mirror is the plain-text rendering of the entity consumed by the
// backend process: one `KEY=VALUE` line per field, blank lines as
// separators, `#`-prefixed lines as comments.  Parsing is
// line-oriented: a line is ignored when blank after trimming, when it
// is a comment, when it has no `=`, or when its key trims to nothing;
// otherwise it is split on the first `=`, the value is trimmed and has
// one matching pair of surrounding quotes stripped.
// ---------------------------------------------------------------------------

/// Length of the first line of `s` (the run of characters before the
/// first newline).
pub open spec fn nl_run(s: Seq<char>) -> int
    decreases s.len(),
{
    if s.len() == 0 || s[0] == '\n' {
        0
    } else {
        1 + nl_run(s.skip(1))
    }
}

pub proof fn lemma_nl_run_determined(s: Seq<char>, k: int)
    requires
        0 <= k <= s.len(),
        forall|i: int| 0 <= i < k ==> s[i] != '\n',
        k == s.len() || s[k] == '\n',
    ensures
        nl_run(s) == k,
    decreases s.len(),
{
    if k == 0 {
    } else {
        assert forall|i: int| 0 <= i < k - 1 implies s.skip(1)[i] != '\n' by {
            assert(s.skip(1)[i] == s[i + 1]);
        }
        if k < s.len() {
            assert(s.skip(1)[k - 1] == s[k]);
        }
        lemma_nl_run_determined(s.skip(1), k - 1);
    }
}

/// The lines of `s`, split on newlines.  The empty text is one empty
/// line; a trailing newline produces a final empty line.
pub open spec fn split_lines(s: Seq<char>) -> Seq<Seq<char>>
    decreases s.len(),
{
    let k = nl_run(s);
    if 0 <= k < s.len() {
        seq![s.take(k)] + split_lines(s.skip(k + 1))
    } else {
        seq![s]
    }
}

/// Position of the first `=` in `s` (or the length if there is none).
pub open spec fn eq_run(s: Seq<char>) -> int
    decreases s.len(),
{
    if s.len() == 0 || s[0] == '=' {
        0
    } else {
        1 + eq_run(s.skip(1))
    }
}

pub proof fn lemma_eq_run_determined(s: Seq<char>, k: int)
    requires
        0 <= k <= s.len(),
        forall|i: int| 0 <= i < k ==> s[i] != '=',
        k == s.len() || s[k] == '=',
    ensures
        eq_run(s) == k,
    decreases s.len(),
{
    if k == 0 {
    } else {
        assert forall|i: int| 0 <= i < k - 1 implies s.skip(1)[i] != '=' by {
            assert(s.skip(1)[i] == s[i + 1]);
        }
        if k < s.len() {
            assert(s.skip(1)[k - 1] == s[k]);
        }
        lemma_eq_run_determined(s.skip(1), k - 1);
    }
}

/// The key/value pair of one line, if the line carries one.
pub open spec fn parse_line(line: Seq<char>) -> Option<(Seq<char>, Seq<char>)> {
    let t = trimmed(line);
    if t.len() == 0 || t[0] == '#' {
        Option::None
    } else {
        let e = eq_run(t);
        if e == t.len() {
            Option::None
        } else {
            let key = trimmed(t.take(e));
            if key.len() == 0 {
                Option::None
            } else {
                Option::Some((key, unquoted(trimmed(t.skip(e + 1)))))
            }
        }
    }
}

/// The pairs carried by a sequence of lines, in order.
pub open spec fn parse_env_lines(lines: Seq<Seq<char>>) -> Seq<(Seq<char>, Seq<char>)>
    decreases lines.len(),
{
    if lines.len() == 0 {
        Seq::<(Seq<char>, Seq<char>)>::empty()
    } else {
        match parse_line(lines[0]) {
            Option::Some(p) => seq![p] + parse_env_lines(lines.skip(1)),
            Option::None => parse_env_lines(lines.skip(1)),
        }
    }
}

/// The key/value pairs of a mirror text, in line order.
pub open spec fn spec_parse_env(s: Seq<char>) -> Seq<(Seq<char>, Seq<char>)> {
    parse_env_lines(split_lines(s))
}

/// The character sequences of a vector of string pairs.
pub open spec fn pair_views(v: Seq<(String, String)>) -> Seq<(Seq<char>, Seq<char>)> {
    v.map_values(|p: (String, String)| (p.0@, p.1@))
}

/// One parsing step: the first line's contribution followed by the
/// rest of the text.
proof fn lemma_parse_env_step(u: Seq<char>)
    ensures
        ({
            let k = nl_run(u);
            let head = match parse_line(u.take(k)) {
                Option::Some(p) => seq![p],
                Option::None => Seq::<(Seq<char>, Seq<char>)>::empty(),
            };
            if k < u.len() {
                spec_parse_env(u) == head + spec_parse_env(u.skip(k + 1))
            } else {
                spec_parse_env(u) == head
            }
        }),
{
    let k = nl_run(u);
    lemma_nl_run_bounds(u);
    if k < u.len() {
        let ls = split_lines(u);
        assert(ls == seq![u.take(k)] + split_lines(u.skip(k + 1)));
        assert(ls.len() > 0);
        assert(ls[0] == u.take(k));
        assert(ls.skip(1) =~= split_lines(u.skip(k + 1)));
        assert(parse_env_lines(ls.skip(1)) == spec_parse_env(u.skip(k + 1)));
        match parse_line(u.take(k)) {
            Option::Some(p) => {
                assert(parse_env_lines(ls) == seq![p] + parse_env_lines(ls.skip(1)));
                assert(spec_parse_env(u) == seq![p] + spec_parse_env(u.skip(k + 1)));
            },
            Option::None => {
                assert(parse_env_lines(ls) == parse_env_lines(ls.skip(1)));
                assert(Seq::<(Seq<char>, Seq<char>)>::empty() + spec_parse_env(u.skip(k + 1))
                    =~= spec_parse_env(u.skip(k + 1)));
            },
        }
    } else {
        assert(split_lines(u) == seq![u]);
        assert(u.take(k) =~= u);
        let ls = seq![u];
        assert(ls[0] == u);
        assert(ls.skip(1) =~= Seq::<Seq<char>>::empty());
        assert(parse_env_lines(Seq::<Seq<char>>::empty()) == Seq::<(Seq<char>, Seq<char>)>::empty());
        match parse_line(u) {
            Option::Some(p) => {
                assert(parse_env_lines(ls) == seq![p] + parse_env_lines(ls.skip(1)));
                assert(seq![p] + Seq::<(Seq<char>, Seq<char>)>::empty() =~= seq![p]);
            },
            Option::None => {
                assert(parse_env_lines(ls) == parse_env_lines(ls.skip(1)));
            },
        }
    }
}

proof fn lemma_nl_run_bounds(s: Seq<char>)
    ensures
        0 <= nl_run(s) <= s.len(),
    decreases s.len(),
{
    if s.len() == 0 || s[0] == '\n' {
    } else {
        lemma_nl_run_bounds(s.skip(1));
    }
}

/// The empty text carries no pairs.
proof fn lemma_parse_env_empty()
    ensures
        spec_parse_env(Seq::<char>::empty()) == Seq::<(Seq<char>, Seq<char>)>::empty(),
{
    let e = Seq::<char>::empty();
    assert(nl_run(e) == 0);
    assert(split_lines(e) == seq![e]);
    assert(crate::text::ltrimmed(e) == e);
    assert(crate::text::rtrimmed(e) == e);
    assert(trimmed(e) == e);
    assert(parse_line(e) is None);
    let ls = seq![e];
    assert(ls[0] == e);
    assert(ls.skip(1) =~= Seq::<Seq<char>>::empty());
    assert(parse_env_lines(Seq::<Seq<char>>::empty()) == Seq::<(Seq<char>, Seq<char>)>::empty());
    assert(parse_env_lines(ls) == parse_env_lines(ls.skip(1)));
}

/// Extracts the key/value pair of one line, if it carries one:
/// comments, blank lines, lines without `=` and lines with an empty
/// key are ignored.
pub fn parse_line_str(line: &str) -> (r: Option<(String, String)>)
    ensures
        match parse_line(line@) {
            Option::Some(p) => r matches Option::Some(q) && q.0@ == p.0 && q.1@ == p.1,
            Option::None => r is None,
        },
{
    let t = trim_str(line);
    let tn = t.as_str().unicode_len();
    if tn == 0 {
        return Option::None;
    }
    if t.as_str().get_char(0) == '#' {
        return Option::None;
    }
    let mut e: usize = 0;
    while e < tn && t.as_str().get_char(e) != '='
        invariant
            0 <= e <= tn,
            tn == t@.len(),
            forall|i: int| 0 <= i < e ==> t@[i] != '=',
        decreases tn - e,
    {
        e = e + 1;
    }
    proof {
        lemma_eq_run_determined(t@, e as int);
    }
    if e == tn {
        return Option::None;
    }
    let key = trim_str(t.as_str().substring_char(0, e));
    if key.as_str().unicode_len() == 0 {
        proof {
            assert(t@.subrange(0, e as int) =~= t@.take(e as int));
        }
        return Option::None;
    }
    let raw_value = trim_str(t.as_str().substring_char(e + 1, tn));
    let value = strip_quotes(raw_value.as_str());
    proof {
        assert(t@.subrange(0, e as int) =~= t@.take(e as int));
        assert(t@.subrange(e + 1, tn as int) =~= t@.skip(e + 1));
    }
    Option::Some((key, value))
}

/// Parses a whole mirror text into its key/value pairs, in line
/// order.
pub fn parse_env(contents: &str) -> (r: Vec<(String, String)>)
    ensures
        pair_views(r@) == spec_parse_env(contents@),
{
    let n = contents.unicode_len();
    let mut out: Vec<(String, String)> = Vec::new();
    let mut cursor: usize = 0;
    proof {
        assert(pair_views(out@) =~= Seq::<(Seq<char>, Seq<char>)>::empty());
        assert(contents@.skip(0) =~= contents@);
        assert(Seq::<(Seq<char>, Seq<char>)>::empty() + spec_parse_env(contents@) =~= spec_parse_env(
            contents@,
        ));
    }
    while cursor < n
        invariant
            0 <= cursor <= n,
            n == contents@.len(),
            pair_views(out@) + spec_parse_env(contents@.skip(cursor as int)) == spec_parse_env(
                contents@,
            ),
        decreases n - cursor,
    {
        let ghost u = contents@.skip(cursor as int);
        let mut j: usize = cursor;
        while j < n && contents.get_char(j) != '\n'
            invariant
                cursor <= j <= n,
                n == contents@.len(),
                forall|i: int| cursor <= i < j ==> contents@[i] != '\n',
            decreases n - j,
        {
            j = j + 1;
        }
        proof {
            assert forall|i: int| 0 <= i < j - cursor implies u[i] != '\n' by {
                assert(u[i] == contents@[i + cursor]);
            }
            if j < n {
                assert(u[j - cursor] == contents@[j as int]);
            }
            lemma_nl_run_determined(u, j - cursor);
            lemma_parse_env_step(u);
            assert(contents@.subrange(cursor as int, j as int) =~= u.take(j - cursor));
        }
        let line = contents.substring_char(cursor, j);
        let ghost before = pair_views(out@);
        match parse_line_str(line) {
            Option::Some(kv) => {
                out.push(kv);
                proof {
                    let p = parse_line(u.take(j - cursor))->Some_0;
                    assert(pair_views(out@) =~= before.push(p));
                    assert(before.push(p) =~= before + seq![p]);
                }
            },
            Option::None => {
                proof {
                    assert(pair_views(out@) + Seq::<(Seq<char>, Seq<char>)>::empty()
                        =~= pair_views(out@));
                }
            },
        }
        if j < n {
            proof {
                let head = match parse_line(u.take(j - cursor)) {
                    Option::Some(p) => seq![p],
                    Option::None => Seq::<(Seq<char>, Seq<char>)>::empty(),
                };
                assert(u.skip(j - cursor + 1) =~= contents@.skip(j + 1));
                assert((before + head) + spec_parse_env(contents@.skip(j + 1)) =~= before + (head
                    + spec_parse_env(contents@.skip(j + 1))));
            }
            cursor = j + 1;
        } else {
            proof {
                let head = match parse_line(u.take(j - cursor)) {
                    Option::Some(p) => seq![p],
                    Option::None => Seq::<(Seq<char>, Seq<char>)>::empty(),
                };
                assert(u.take(j - cursor) =~= u);
                assert(contents@.skip(n as int) =~= Seq::<char>::empty());
                lemma_parse_env_empty();
                assert((before + head) + spec_parse_env(contents@.skip(n as int)) =~= before
                    + head);
            }
            cursor = n;
        }
    }
    proof {
        assert(contents@.skip(n as int) =~= Seq::<char>::empty());
        lemma_parse_env_empty();
        assert(pair_views(out@) + Seq::<(Seq<char>, Seq<char>)>::empty() =~= pair_views(out@));
    }
    out
}

// ---------------------------------------------------------------------------
// Lookup and field application
// ---------------------------------------------------------------------------

/// The value stored under `key`, the last occurrence winning (a later
/// line overwrites an earlier one).
pub open spec fn env_lookup(pairs: Seq<(Seq<char>, Seq<char>)>, key: Seq<char>) -> Option<
    Seq<char>,
>
    decreases pairs.len(),
{
    if pairs.len() == 0 {
        Option::None
    } else if pairs.last().0 == key {
        Option::Some(pairs.last().1)
    } else {
        env_lookup(pairs.drop_last(), key)
    }
}

/// A string field after applying the pairs: overwritten only when the
/// key is present with a non-empty value.
pub open spec fn env_update(
    pairs: Seq<(Seq<char>, Seq<char>)>,
    key: Seq<char>,
    default: Seq<char>,
) -> Seq<char> {
    match env_lookup(pairs, key) {
        Option::Some(v) => if v.len() > 0 {
            v
        } else {
            default
        },
        Option::None => default,
    }
}

/// A numeric field after applying the pairs: overwritten only when the
/// key is present and its value parses as a plain decimal number,
/// rounded and clamped.
pub open spec fn env_num(
    pairs: Seq<(Seq<char>, Seq<char>)>,
    key: Seq<char>,
    default: u32,
) -> u32 {
    match env_lookup(pairs, key) {
        Option::Some(v) => match clamp_parse(v) {
            Option::Some(x) => x,
            Option::None => default,
        },
        Option::None => default,
    }
}

/// Looks `key` up among the parsed pairs, the last occurrence
/// winning.
pub fn get_env(values: &Vec<(String, String)>, key: &str) -> (r: Option<String>)
    ensures
        match env_lookup(pair_views(values@), key@) {
            Option::Some(v) => r matches Option::Some(x) && x@ == v,
            Option::None => r is None,
        },
{
    let ks = String::from_str(key);
    let ghost pairs = pair_views(values@);
    let mut i: usize = values.len();
    proof {
        assert(pairs.take(i as int) =~= pairs);
    }
    while i > 0
        invariant
            0 <= i <= values.len(),
            pairs == pair_views(values@),
            ks@ == key@,
            env_lookup(pairs, key@) == env_lookup(pairs.take(i as int), key@),
        decreases i,
    {
        let p = &values[i - 1];
        proof {
            assert(pairs[i - 1] == (values@[i - 1].0@, values@[i - 1].1@));
            assert(pairs.take(i as int).last() == pairs[i - 1]);
            assert(pairs.take(i as int).drop_last() =~= pairs.take(i - 1));
        }
        if p.0 == ks {
            return Option::Some(p.1.clone());
        }
        i = i - 1;
    }
    proof {
        assert(pairs.take(0) =~= Seq::<(Seq<char>, Seq<char>)>::empty());
    }
    Option::None
}

/// Overwrites `target` with the value stored under `key`, if that
/// value exists and is non-empty; otherwise leaves `target` alone.
pub fn set_value(target: &mut String, values: &Vec<(String, String)>, key: &str)
    ensures
        final(target)@ == env_update(pair_views(values@), key@, old(target)@),
{
    match get_env(values, key) {
        Option::Some(v) => {
            if !v.as_str().is_empty() {
                *target = v;
            }
        },
        Option::None => {},
    }
}

/// The entity obtained by applying the pairs to the default entity.
pub open spec fn env_applied(c: SharePointConfig, pairs: Seq<(Seq<char>, Seq<char>)>) -> bool {
    &&& c.user_name@ == env_update(pairs, "USER_NAME"@, Seq::<char>::empty())
    &&& c.tenant_id@ == env_update(pairs, "SP_TENANT_ID"@, Seq::<char>::empty())
    &&& c.client_id@ == env_update(pairs, "SP_CLIENT_ID"@, Seq::<char>::empty())
    &&& c.client_secret@ == env_update(pairs, "SP_CLIENT_SECRET"@, Seq::<char>::empty())
    &&& c.site_id@ == env_update(pairs, "SP_SITE_ID"@, Seq::<char>::empty())
    &&& c.site_hostname@ == env_update(
        pairs,
        "SP_SITE_HOSTNAME"@,
        "your-hostname-here.sharepoint.com"@,
    )
    &&& c.site_path@ == env_update(pairs, "SP_SITE_PATH"@, "/sites/your-site-name"@)
    &&& c.graph_base@ == env_update(pairs, "SP_GRAPH_BASE"@, "https://graph.microsoft.com/v1.0"@)
    &&& c.graph_scope@ == env_update(
        pairs,
        "SP_GRAPH_SCOPE"@,
        "https://graph.microsoft.com/.default"@,
    )
    &&& c.events_list_id@ == env_update(pairs, "SP_EVENTS_LIST_ID"@, Seq::<char>::empty())
    &&& c.events_list_name@ == env_update(pairs, "SP_EVENTS_LIST_NAME"@, "eventsBLOCON"@)
    &&& c.events_field_kind@ == env_update(pairs, "SP_EVENTS_FIELD_KIND"@, "kind"@)
    &&& c.events_field_ts@ == env_update(pairs, "SP_EVENTS_FIELD_TS"@, "timestamp"@)
    &&& c.events_field_actor@ == env_update(pairs, "SP_EVENTS_FIELD_ACTOR"@, "actor"@)
    &&& c.events_field_version@ == env_update(pairs, "SP_EVENTS_FIELD_VERSION"@, "version"@)
    &&& c.events_field_payload@ == env_update(pairs, "SP_EVENTS_FIELD_PAYLOAD"@, "payload"@)
    &&& c.events_field_snapshot_file@ == env_update(
        pairs,
        "SP_EVENTS_FIELD_SNAPSHOT_FILE"@,
        "snapshot_file"@,
    )
    &&& c.snapshots_library_id@ == env_update(
        pairs,
        "SP_SNAPSHOTS_LIBRARY_ID"@,
        Seq::<char>::empty(),
    )
    &&& c.snapshots_library_name@ == env_update(
        pairs,
        "SP_SNAPSHOTS_LIBRARY_NAME"@,
        "snapshotsBLOCON"@,
    )
    &&& c.failures_list_id@ == env_update(pairs, "SP_FAILURES_LIST_ID"@, Seq::<char>::empty())
    &&& c.failures_list_name@ == env_update(pairs, "SP_FAILURES_LIST_NAME"@, "KKS_Failures"@)
    &&& c.failures_field_component@ == env_update(
        pairs,
        "SP_FAILURES_FIELD_COMPONENT"@,
        "Component_ID"@,
    )
    &&& c.failures_field_date@ == env_update(pairs, "SP_FAILURES_FIELD_DATE"@, "failure_date"@)
    &&& c.failures_field_type@ == env_update(pairs, "SP_FAILURES_FIELD_TYPE"@, "type_failure"@)
    &&& c.components_list_id@ == env_update(pairs, "SP_COMPONENTS_LIST_ID"@, Seq::<char>::empty())
    &&& c.components_list_name@ == env_update(pairs, "SP_COMPONENTS_LIST_NAME"@, "Unit"@)
    &&& c.components_field_id@ == env_update(pairs, "SP_COMPONENTS_FIELD_ID"@, "kks"@)
    &&& c.components_field_name@ == env_update(pairs, "SP_COMPONENTS_FIELD_NAME"@, "kks_name"@)
    &&& c.components_field_subtype@ == env_update(
        pairs,
        "SP_COMPONENTS_FIELD_SUBTYPE"@,
        "Subtype_Text"@,
    )
    &&& c.components_field_type@ == env_update(pairs, "SP_COMPONENTS_FIELD_TYPE"@, "Type_text"@)
    &&& c.components_field_insid@ == env_update(pairs, "SP_COMPONENTS_FIELD_INSID"@, "insID"@)
    &&& c.events_snapshot_threshold_kb == env_num(pairs, "SP_EVENTS_SNAPSHOT_THRESHOLD_KB"@, 100)
    &&& c.timeout_s == env_num(pairs, "SP_TIMEOUT_S"@, 30)
}

/// Builds the entity from parsed pairs: every known key with a
/// non-empty value overwrites the default-initialized field, unknown
/// keys are ignored, and the two numeric keys are parsed, rounded and
/// clamped.
pub fn config_from_env(values: &Vec<(String, String)>) -> (r: SharePointConfig)
    ensures
        env_applied(r, pair_views(values@)),
        r.wf(),
{
    let mut config = SharePointConfig::default();
    set_value(&mut config.user_name, values, "USER_NAME");
    set_value(&mut config.tenant_id, values, "SP_TENANT_ID");
    set_value(&mut config.client_id, values, "SP_CLIENT_ID");
    set_value(&mut config.client_secret, values, "SP_CLIENT_SECRET");
    set_value(&mut config.site_id, values, "SP_SITE_ID");
    set_value(&mut config.site_hostname, values, "SP_SITE_HOSTNAME");
    set_value(&mut config.site_path, values, "SP_SITE_PATH");
    set_value(&mut config.graph_base, values, "SP_GRAPH_BASE");
    set_value(&mut config.graph_scope, values, "SP_GRAPH_SCOPE");
    set_value(&mut config.events_list_id, values, "SP_EVENTS_LIST_ID");
    set_value(&mut config.events_list_name, values, "SP_EVENTS_LIST_NAME");
    set_value(&mut config.events_field_kind, values, "SP_EVENTS_FIELD_KIND");
    set_value(&mut config.events_field_ts, values, "SP_EVENTS_FIELD_TS");
    set_value(&mut config.events_field_actor, values, "SP_EVENTS_FIELD_ACTOR");
    set_value(&mut config.events_field_version, values, "SP_EVENTS_FIELD_VERSION");
    set_value(&mut config.events_field_payload, values, "SP_EVENTS_FIELD_PAYLOAD");
    set_value(&mut config.events_field_snapshot_file, values, "SP_EVENTS_FIELD_SNAPSHOT_FILE");
    set_value(&mut config.snapshots_library_id, values, "SP_SNAPSHOTS_LIBRARY_ID");
    set_value(&mut config.snapshots_library_name, values, "SP_SNAPSHOTS_LIBRARY_NAME");
    set_value(&mut config.failures_list_id, values, "SP_FAILURES_LIST_ID");
    set_value(&mut config.failures_list_name, values, "SP_FAILURES_LIST_NAME");
    set_value(&mut config.failures_field_component, values, "SP_FAILURES_FIELD_COMPONENT");
    set_value(&mut config.failures_field_date, values, "SP_FAILURES_FIELD_DATE");
    set_value(&mut config.failures_field_type, values, "SP_FAILURES_FIELD_TYPE");
    set_value(&mut config.components_list_id, values, "SP_COMPONENTS_LIST_ID");
    set_value(&mut config.components_list_name, values, "SP_COMPONENTS_LIST_NAME");
    set_value(&mut config.components_field_id, values, "SP_COMPONENTS_FIELD_ID");
    set_value(&mut config.components_field_name, values, "SP_COMPONENTS_FIELD_NAME");
    set_value(&mut config.components_field_subtype, values, "SP_COMPONENTS_FIELD_SUBTYPE");
    set_value(&mut config.components_field_type, values, "SP_COMPONENTS_FIELD_TYPE");
    set_value(&mut config.components_field_insid, values, "SP_COMPONENTS_FIELD_INSID");
    match get_env(values, "SP_TIMEOUT_S") {
        Option::Some(v) => {
            match parse_clamped(v.as_str()) {
                Option::Some(x) => {
                    config.timeout_s = x;
                },
                Option::None => {},
            }
        },
        Option::None => {},
    }
    match get_env(values, "SP_EVENTS_SNAPSHOT_THRESHOLD_KB") {
        Option::Some(v) => {
            match parse_clamped(v.as_str()) {
                Option::Some(x) => {
                    config.events_snapshot_threshold_kb = x;
                },
                Option::None => {},
            }
        },
        Option::None => {},
    }
    config
}

/// Rebuilds an entity from a whole mirror text: the composition of
/// `parse_env` and `config_from_env`.
pub fn config_from_mirror_text(contents: &str) -> (r: SharePointConfig)
    ensures
        env_applied(r, spec_parse_env(contents@)),
        r.wf(),
{
    let values = parse_env(contents);
    config_from_env(&values)
}

// ---------------------------------------------------------------------------
// Rendering
// ---------------------------------------------------------------------------

/// One `KEY=VALUE` line.
pub open spec fn kv(key: Seq<char>, value: Seq<char>) -> Seq<char> {
    key + seq!['='] + value
}

/// The lines of the rendered mirror text, in order, with blank
/// separator lines between the field groups.
pub open spec fn mirror_lines(c: SharePointConfig) -> Seq<Seq<char>> {
    seq![
        kv("USER_NAME"@, c.user_name@),
        Seq::<char>::empty(),
        kv("SP_TENANT_ID"@, c.tenant_id@),
        kv("SP_CLIENT_ID"@, c.client_id@),
        kv("SP_CLIENT_SECRET"@, c.client_secret@),
        Seq::<char>::empty(),
        kv("SP_SITE_ID"@, c.site_id@),
        kv("SP_SITE_HOSTNAME"@, c.site_hostname@),
        kv("SP_SITE_PATH"@, c.site_path@),
        Seq::<char>::empty(),
        kv("SP_GRAPH_BASE"@, c.graph_base@),
        kv("SP_GRAPH_SCOPE"@, c.graph_scope@),
        kv("SP_TIMEOUT_S"@, crate::text::dec_rep(c.timeout_s as nat)),
        Seq::<char>::empty(),
        kv("SP_EVENTS_LIST_ID"@, c.events_list_id@),
        kv("SP_EVENTS_LIST_NAME"@, c.events_list_name@),
        kv(
            "SP_EVENTS_SNAPSHOT_THRESHOLD_KB"@,
            crate::text::dec_rep(c.events_snapshot_threshold_kb as nat),
        ),
        kv("SP_EVENTS_FIELD_KIND"@, c.events_field_kind@),
        kv("SP_EVENTS_FIELD_TS"@, c.events_field_ts@),
        kv("SP_EVENTS_FIELD_ACTOR"@, c.events_field_actor@),
        kv("SP_EVENTS_FIELD_VERSION"@, c.events_field_version@),
        kv("SP_EVENTS_FIELD_PAYLOAD"@, c.events_field_payload@),
        kv("SP_EVENTS_FIELD_SNAPSHOT_FILE"@, c.events_field_snapshot_file@),
        kv("SP_SNAPSHOTS_LIBRARY_ID"@, c.snapshots_library_id@),
        kv("SP_SNAPSHOTS_LIBRARY_NAME"@, c.snapshots_library_name@),
        Seq::<char>::empty(),
        kv("SP_FAILURES_LIST_ID"@, c.failures_list_id@),
        kv("SP_FAILURES_LIST_NAME"@, c.failures_list_name@),
        kv("SP_FAILURES_FIELD_COMPONENT"@, c.failures_field_component@),
        kv("SP_FAILURES_FIELD_DATE"@, c.failures_field_date@),
        kv("SP_FAILURES_FIELD_TYPE"@, c.failures_field_type@),
        Seq::<char>::empty(),
        kv("SP_COMPONENTS_LIST_ID"@, c.components_list_id@),
        kv("SP_COMPONENTS_LIST_NAME"@, c.components_list_name@),
        kv("SP_COMPONENTS_FIELD_ID"@, c.components_field_id@),
        kv("SP_COMPONENTS_FIELD_NAME"@, c.components_field_name@),
        kv("SP_COMPONENTS_FIELD_SUBTYPE"@, c.components_field_subtype@),
        kv("SP_COMPONENTS_FIELD_TYPE"@, c.components_field_type@),
        kv("SP_COMPONENTS_FIELD_INSID"@, c.components_field_insid@),
        Seq::<char>::empty(),
    ]
}

/// Lines joined with single newlines (no trailing newline beyond the
/// final blank line).
pub open spec fn join_nl(ls: Seq<Seq<char>>) -> Seq<char>
    decreases ls.len(),
{
    if ls.len() == 0 {
        Seq::<char>::empty()
    } else if ls.len() == 1 {
        ls[0]
    } else {
        ls[0] + seq!['\n'] + join_nl(ls.skip(1))
    }
}

/// The rendered mirror text of an entity.
pub open spec fn mirror_text(c: SharePointConfig) -> Seq<char> {
    join_nl(mirror_lines(c))
}

proof fn lemma_join_snoc(ls: Seq<Seq<char>>, i: int)
    requires
        1 <= i < ls.len(),
    ensures
        join_nl(ls.take(i + 1)) == join_nl(ls.take(i)) + seq!['\n'] + ls[i],
    decreases i,
{
    if i == 1 {
        let two = ls.take(2);
        assert(two.skip(1) =~= seq![ls[1]]);
        assert(join_nl(seq![ls[1]]) == ls[1]);
        assert(two[0] == ls[0]);
        assert(ls.take(1) =~= seq![ls[0]]);
        assert(join_nl(ls.take(1)) == ls[0]);
    } else {
        lemma_join_snoc(ls.skip(1), i - 1);
        assert(ls.take(i + 1).skip(1) =~= ls.skip(1).take(i));
        assert(ls.take(i).skip(1) =~= ls.skip(1).take(i - 1));
        assert(ls.take(i + 1)[0] == ls[0]);
        assert(ls.take(i)[0] == ls[0]);
        assert(ls.skip(1)[i - 1] == ls[i]);
        assert(join_nl(ls.take(i + 1)) == ls[0] + seq!['\n'] + join_nl(ls.skip(1).take(i)));
        assert(join_nl(ls.take(i)) == ls[0] + seq!['\n'] + join_nl(ls.skip(1).take(i - 1)));
        assert((ls[0] + seq!['\n']) + (join_nl(ls.skip(1).take(i - 1)) + seq!['\n'] + ls[i])
            =~= ((ls[0] + seq!['\n']) + join_nl(ls.skip(1).take(i - 1))) + seq!['\n'] + ls[i]);
    }
}

/// Joins lines with single newlines.
pub fn join_lines(lines: &Vec<String>) -> (r: String)
    ensures
        r@ == join_nl(crate::codec::str_views(lines@)),
{
    let ghost vs = crate::codec::str_views(lines@);
    if lines.len() == 0 {
        return String::new();
    }
    let mut out = lines[0].clone();
    let mut i: usize = 1;
    proof {
        assert(vs.take(1) =~= seq![vs[0]]);
        assert(join_nl(seq![vs[0]]) == vs[0]);
    }
    while i < lines.len()
        invariant
            1 <= i <= lines.len(),
            vs == crate::codec::str_views(lines@),
            vs.len() == lines@.len(),
            out@ == join_nl(vs.take(i as int)),
        decreases lines@.len() - i,
    {
        out.append("\n");
        out.append(lines[i].as_str());
        proof {
            reveal_strlit("\n");
            assert("\n"@ =~= seq!['\n']);
            lemma_join_snoc(vs, i as int);
            assert(out@ =~= join_nl(vs.take(i as int)) + seq!['\n'] + vs[i as int]);
        }
        i = i + 1;
    }
    proof {
        assert(vs.take(vs.len() as int) =~= vs);
    }
    out
}

/// One `KEY=VALUE` line.
pub fn kv_line(key: &str, value: &str) -> (r: String)
    ensures
        r@ == kv(key@, value@),
{
    let mut s = String::from_str(key);
    s.append("=");
    s.append(value);
    proof {
        reveal_strlit("=");
        assert("="@ =~= seq!['=']);
        assert(s@ =~= kv(key@, value@));
    }
    s
}

impl SharePointConfig {
    /// Renders the entity as its mirror text: every field as a
    /// `KEY=VALUE` line (an empty field still emits `KEY=`), with
    /// blank separator lines between groups.
    pub fn to_env_format(&self) -> (r: String)
        ensures
            r@ == mirror_text(*self),
    {
        let mut lines: Vec<String> = Vec::new();
        lines.push(kv_line("USER_NAME", self.user_name.as_str()));
        lines.push(String::new());
        lines.push(kv_line("SP_TENANT_ID", self.tenant_id.as_str()));
        lines.push(kv_line("SP_CLIENT_ID", self.client_id.as_str()));
        lines.push(kv_line("SP_CLIENT_SECRET", self.client_secret.as_str()));
        lines.push(String::new());
        lines.push(kv_line("SP_SITE_ID", self.site_id.as_str()));
        lines.push(kv_line("SP_SITE_HOSTNAME", self.site_hostname.as_str()));
        lines.push(kv_line("SP_SITE_PATH", self.site_path.as_str()));
        lines.push(String::new());
        lines.push(kv_line("SP_GRAPH_BASE", self.graph_base.as_str()));
        lines.push(kv_line("SP_GRAPH_SCOPE", self.graph_scope.as_str()));
        let timeout_text = crate::text::u32_to_dec(self.timeout_s);
        lines.push(kv_line("SP_TIMEOUT_S", timeout_text.as_str()));
        lines.push(String::new());
        lines.push(kv_line("SP_EVENTS_LIST_ID", self.events_list_id.as_str()));
        lines.push(kv_line("SP_EVENTS_LIST_NAME", self.events_list_name.as_str()));
        let threshold_text = crate::text::u32_to_dec(self.events_snapshot_threshold_kb);
        lines.push(kv_line("SP_EVENTS_SNAPSHOT_THRESHOLD_KB", threshold_text.as_str()));
        lines.push(kv_line("SP_EVENTS_FIELD_KIND", self.events_field_kind.as_str()));
        lines.push(kv_line("SP_EVENTS_FIELD_TS", self.events_field_ts.as_str()));
        lines.push(kv_line("SP_EVENTS_FIELD_ACTOR", self.events_field_actor.as_str()));
        lines.push(kv_line("SP_EVENTS_FIELD_VERSION", self.events_field_version.as_str()));
        lines.push(kv_line("SP_EVENTS_FIELD_PAYLOAD", self.events_field_payload.as_str()));
        lines.push(
            kv_line("SP_EVENTS_FIELD_SNAPSHOT_FILE", self.events_field_snapshot_file.as_str()),
        );
        lines.push(kv_line("SP_SNAPSHOTS_LIBRARY_ID", self.snapshots_library_id.as_str()));
        lines.push(kv_line("SP_SNAPSHOTS_LIBRARY_NAME", self.snapshots_library_name.as_str()));
        lines.push(String::new());
        lines.push(kv_line("SP_FAILURES_LIST_ID", self.failures_list_id.as_str()));
        lines.push(kv_line("SP_FAILURES_LIST_NAME", self.failures_list_name.as_str()));
        lines.push(
            kv_line("SP_FAILURES_FIELD_COMPONENT", self.failures_field_component.as_str()),
        );
        lines.push(kv_line("SP_FAILURES_FIELD_DATE", self.failures_field_date.as_str()));
        lines.push(kv_line("SP_FAILURES_FIELD_TYPE", self.failures_field_type.as_str()));
        lines.push(String::new());
        lines.push(kv_line("SP_COMPONENTS_LIST_ID", self.components_list_id.as_str()));
        lines.push(kv_line("SP_COMPONENTS_LIST_NAME", self.components_list_name.as_str()));
        lines.push(kv_line("SP_COMPONENTS_FIELD_ID", self.components_field_id.as_str()));
        lines.push(kv_line("SP_COMPONENTS_FIELD_NAME", self.components_field_name.as_str()));
        lines.push(
            kv_line("SP_COMPONENTS_FIELD_SUBTYPE", self.components_field_subtype.as_str()),
        );
        lines.push(kv_line("SP_COMPONENTS_FIELD_TYPE", self.components_field_type.as_str()));
        lines.push(kv_line("SP_COMPONENTS_FIELD_INSID", self.components_field_insid.as_str()));
        lines.push(String::new());
        proof {
            assert(crate::codec::str_views(lines@) =~= mirror_lines(*self));
        }
        join_lines(&lines)
    }
}

} // verus!
