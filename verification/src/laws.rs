use vstd::prelude::*;

use crate::config::SharePointConfig;
use crate::mirror::{
    env_applied, env_lookup, eq_run, join_nl, kv, lemma_eq_run_determined,
    lemma_nl_run_determined, mirror_lines, mirror_text, nl_run, parse_env_lines, parse_line,
    spec_parse_env, split_lines,
};
use crate::text::{
    clamp_parse, dec_parse, dec_rep, digit_run, is_digit_char, is_space_char,
    lemma_dec_rep, lemma_digit_run_determined, lemma_trim_stable, trimmed, unquoted,
};

verus! {

// ---------------------------------------------------------------------------
// Round-trip law for the mirror text
//
// Rendering an entity as mirror text and parsing that text back
// reproduces every non-empty string field and both numeric fields.
// The law asks the string fields to be written the way the mirror can
// carry them: single-line, with no surrounding whitespace and no
// surrounding quote pair, since parsing trims values and strips one
// quote pair.
// ---------------------------------------------------------------------------

/// A value the mirror text carries verbatim: single-line, no leading
/// or trailing whitespace, not wrapped in a quote pair.
pub open spec fn mirror_value(v: Seq<char>) -> bool {
    &&& forall|j: int| 0 <= j < v.len() ==> v[j] != '\n'
    &&& (v.len() > 0 ==> !is_space_char(v[0]) && !is_space_char(v.last()))
    &&& !(v.len() >= 2 && v[0] == v.last() && (v[0] == '"' || v[0] == '\''))
}

/// Shape of the mirror keys: non-empty, no `=`, single-line, not a
/// comment starter, no surrounding whitespace.
pub open spec fn good_key(k: Seq<char>) -> bool {
    &&& k.len() > 0
    &&& k[0] != '#'
    &&& !is_space_char(k[0])
    &&& !is_space_char(k.last())
    &&& forall|j: int| 0 <= j < k.len() ==> k[j] != '=' && k[j] != '\n'
}

/// A line free of newlines.
pub open spec fn line_ok(u: Seq<char>) -> bool {
    forall|j: int| 0 <= j < u.len() ==> u[j] != '\n'
}

/// Every string field of the entity is a value the mirror carries
/// verbatim.
pub open spec fn mirror_safe(c: SharePointConfig) -> bool {
    &&& mirror_value(c.user_name@)
    &&& mirror_value(c.tenant_id@)
    &&& mirror_value(c.client_id@)
    &&& mirror_value(c.client_secret@)
    &&& mirror_value(c.site_id@)
    &&& mirror_value(c.site_hostname@)
    &&& mirror_value(c.site_path@)
    &&& mirror_value(c.events_list_id@)
    &&& mirror_value(c.events_list_name@)
    &&& mirror_value(c.events_field_kind@)
    &&& mirror_value(c.events_field_ts@)
    &&& mirror_value(c.events_field_actor@)
    &&& mirror_value(c.events_field_version@)
    &&& mirror_value(c.events_field_payload@)
    &&& mirror_value(c.events_field_snapshot_file@)
    &&& mirror_value(c.snapshots_library_id@)
    &&& mirror_value(c.snapshots_library_name@)
    &&& mirror_value(c.failures_list_id@)
    &&& mirror_value(c.failures_list_name@)
    &&& mirror_value(c.failures_field_component@)
    &&& mirror_value(c.failures_field_date@)
    &&& mirror_value(c.failures_field_type@)
    &&& mirror_value(c.components_list_id@)
    &&& mirror_value(c.components_list_name@)
    &&& mirror_value(c.components_field_id@)
    &&& mirror_value(c.components_field_name@)
    &&& mirror_value(c.components_field_subtype@)
    &&& mirror_value(c.components_field_type@)
    &&& mirror_value(c.components_field_insid@)
    &&& mirror_value(c.graph_base@)
    &&& mirror_value(c.graph_scope@)
}

/// The canonical decimal notation of a positive number is a value the
/// mirror carries verbatim.
pub proof fn lemma_dec_rep_mirror_value(n: nat)
    ensures
        mirror_value(dec_rep(n)),
{
    lemma_dec_rep(n);
    let s = dec_rep(n);
    assert forall|j: int| 0 <= j < s.len() implies s[j] != '\n' by {
        assert(is_digit_char(s[j]));
    }
    assert(is_digit_char(s[0]));
    assert(is_digit_char(s.last()));
}

/// A blank line carries no pair.
pub proof fn lemma_parse_line_empty()
    ensures
        parse_line(Seq::<char>::empty()) is None,
{
    let e = Seq::<char>::empty();
    assert(crate::text::ltrimmed(e) == e);
    assert(crate::text::rtrimmed(e) == e);
    assert(trimmed(e) == e);
}

/// Parsing inverts rendering at the line level: a `KEY=VALUE` line
/// built from a well-shaped key and a mirror-safe value parses back
/// to exactly that pair.
pub proof fn lemma_parse_line_kv(key: Seq<char>, v: Seq<char>)
    requires
        good_key(key),
        mirror_value(v),
    ensures
        parse_line(kv(key, v)) == Option::Some((key, v)),
{
    let line = kv(key, v);
    assert(line.len() == key.len() + 1 + v.len());
    assert(line[0] == key[0]);
    assert(!is_space_char(line[0]));
    if v.len() > 0 {
        assert(line.last() == v.last());
    } else {
        assert(line.last() == '=');
        assert(!is_space_char('='));
    }
    lemma_trim_stable(line);
    let t = trimmed(line);
    assert(t == line);
    assert(t[0] != '#');
    assert forall|i: int| 0 <= i < key.len() implies t[i] != '=' by {
        assert(t[i] == key[i]);
    }
    assert(t[key.len() as int] == '=');
    lemma_eq_run_determined(t, key.len() as int);
    let e = eq_run(t);
    assert(e == key.len());
    assert(e < t.len());
    assert(t.take(e) =~= key);
    lemma_trim_stable(key);
    assert(trimmed(t.take(e)) == key);
    assert(t.skip(e + 1) =~= v);
    lemma_trim_stable(v);
    assert(trimmed(t.skip(e + 1)) == v);
    assert(unquoted(v) == v);
}

/// Splitting inverts joining: newline-free lines joined with newlines
/// split back to exactly those lines.
pub proof fn lemma_split_join(ls: Seq<Seq<char>>)
    requires
        ls.len() >= 1,
        forall|i: int| 0 <= i < ls.len() ==> line_ok(#[trigger] ls[i]),
    ensures
        split_lines(join_nl(ls)) == ls,
    decreases ls.len(),
{
    if ls.len() == 1 {
        let u = ls[0];
        assert(join_nl(ls) == u);
        assert(line_ok(u));
        lemma_nl_run_determined(u, u.len() as int);
        assert(split_lines(u) == seq![u]);
        assert(seq![u] =~= ls);
    } else {
        let u = ls[0];
        let rest = join_nl(ls.skip(1));
        let s = u + seq!['\n'] + rest;
        assert(join_nl(ls) == s);
        assert(line_ok(u));
        assert forall|j: int| 0 <= j < u.len() implies s[j] != '\n' by {
            assert(s[j] == u[j]);
        }
        assert(s[u.len() as int] == '\n');
        lemma_nl_run_determined(s, u.len() as int);
        let k = nl_run(s);
        assert(k == u.len());
        assert(k < s.len());
        assert(s.take(k) =~= u);
        assert(s.skip(k + 1) =~= rest);
        assert forall|i: int| 0 <= i < ls.skip(1).len() implies line_ok(
            #[trigger] ls.skip(1)[i],
        ) by {
            assert(ls.skip(1)[i] == ls[i + 1]);
        }
        lemma_split_join(ls.skip(1));
        assert(split_lines(s) == seq![u] + split_lines(rest));
        assert(seq![u] + ls.skip(1) =~= ls);
    }
}

/// Parsing inverts rendering for the numeric fields: the canonical
/// decimal notation of a value already in range parses and clamps
/// back to that value.
pub proof fn lemma_clamp_parse_dec_rep(n: u32)
    requires
        n >= 1,
    ensures
        clamp_parse(dec_rep(n as nat)) == Option::Some(n),
{
    lemma_dec_rep(n as nat);
    let s = dec_rep(n as nat);
    assert(is_digit_char(s[0]));
    assert(s[0] != '+' && s[0] != '-');
    lemma_digit_run_determined(s, s.len() as int);
    assert(digit_run(s) == s.len());
    assert(s.take(s.len() as int) =~= s);
    assert(dec_parse(s) == n);
}

/// Round-trip law for the mirror text: rendering an entity and
/// parsing the rendered text back reproduces every non-empty string
/// field and both numeric fields exactly.
#[verifier::rlimit(100)]
pub proof fn lemma_mirror_round_trip(c: SharePointConfig, c2: SharePointConfig)
    requires
        c.wf(),
        mirror_safe(c),
        env_applied(c2, spec_parse_env(mirror_text(c))),
    ensures
        c.user_name@.len() > 0 ==> c2.user_name@ == c.user_name@,
        c.tenant_id@.len() > 0 ==> c2.tenant_id@ == c.tenant_id@,
        c.client_id@.len() > 0 ==> c2.client_id@ == c.client_id@,
        c.client_secret@.len() > 0 ==> c2.client_secret@ == c.client_secret@,
        c.site_id@.len() > 0 ==> c2.site_id@ == c.site_id@,
        c.site_hostname@.len() > 0 ==> c2.site_hostname@ == c.site_hostname@,
        c.site_path@.len() > 0 ==> c2.site_path@ == c.site_path@,
        c.graph_base@.len() > 0 ==> c2.graph_base@ == c.graph_base@,
        c.graph_scope@.len() > 0 ==> c2.graph_scope@ == c.graph_scope@,
        c.events_list_id@.len() > 0 ==> c2.events_list_id@ == c.events_list_id@,
        c.events_list_name@.len() > 0 ==> c2.events_list_name@ == c.events_list_name@,
        c.events_field_kind@.len() > 0 ==> c2.events_field_kind@ == c.events_field_kind@,
        c.events_field_ts@.len() > 0 ==> c2.events_field_ts@ == c.events_field_ts@,
        c.events_field_actor@.len() > 0 ==> c2.events_field_actor@ == c.events_field_actor@,
        c.events_field_version@.len() > 0 ==> c2.events_field_version@ == c.events_field_version@,
        c.events_field_payload@.len() > 0 ==> c2.events_field_payload@ == c.events_field_payload@,
        c.events_field_snapshot_file@.len() > 0 ==> c2.events_field_snapshot_file@ == c.events_field_snapshot_file@,
        c.snapshots_library_id@.len() > 0 ==> c2.snapshots_library_id@ == c.snapshots_library_id@,
        c.snapshots_library_name@.len() > 0 ==> c2.snapshots_library_name@ == c.snapshots_library_name@,
        c.failures_list_id@.len() > 0 ==> c2.failures_list_id@ == c.failures_list_id@,
        c.failures_list_name@.len() > 0 ==> c2.failures_list_name@ == c.failures_list_name@,
        c.failures_field_component@.len() > 0 ==> c2.failures_field_component@ == c.failures_field_component@,
        c.failures_field_date@.len() > 0 ==> c2.failures_field_date@ == c.failures_field_date@,
        c.failures_field_type@.len() > 0 ==> c2.failures_field_type@ == c.failures_field_type@,
        c.components_list_id@.len() > 0 ==> c2.components_list_id@ == c.components_list_id@,
        c.components_list_name@.len() > 0 ==> c2.components_list_name@ == c.components_list_name@,
        c.components_field_id@.len() > 0 ==> c2.components_field_id@ == c.components_field_id@,
        c.components_field_name@.len() > 0 ==> c2.components_field_name@ == c.components_field_name@,
        c.components_field_subtype@.len() > 0 ==> c2.components_field_subtype@ == c.components_field_subtype@,
        c.components_field_type@.len() > 0 ==> c2.components_field_type@ == c.components_field_type@,
        c.components_field_insid@.len() > 0 ==> c2.components_field_insid@ == c.components_field_insid@,
        c2.timeout_s == c.timeout_s,
        c2.events_snapshot_threshold_kb == c.events_snapshot_threshold_kb,
{
    reveal_strlit("USER_NAME");
    reveal_strlit("SP_TENANT_ID");
    reveal_strlit("SP_CLIENT_ID");
    reveal_strlit("SP_CLIENT_SECRET");
    reveal_strlit("SP_SITE_ID");
    reveal_strlit("SP_SITE_HOSTNAME");
    reveal_strlit("SP_SITE_PATH");
    reveal_strlit("SP_GRAPH_BASE");
    reveal_strlit("SP_GRAPH_SCOPE");
    reveal_strlit("SP_TIMEOUT_S");
    reveal_strlit("SP_EVENTS_LIST_ID");
    reveal_strlit("SP_EVENTS_LIST_NAME");
    reveal_strlit("SP_EVENTS_SNAPSHOT_THRESHOLD_KB");
    reveal_strlit("SP_EVENTS_FIELD_KIND");
    reveal_strlit("SP_EVENTS_FIELD_TS");
    reveal_strlit("SP_EVENTS_FIELD_ACTOR");
    reveal_strlit("SP_EVENTS_FIELD_VERSION");
    reveal_strlit("SP_EVENTS_FIELD_PAYLOAD");
    reveal_strlit("SP_EVENTS_FIELD_SNAPSHOT_FILE");
    reveal_strlit("SP_SNAPSHOTS_LIBRARY_ID");
    reveal_strlit("SP_SNAPSHOTS_LIBRARY_NAME");
    reveal_strlit("SP_FAILURES_LIST_ID");
    reveal_strlit("SP_FAILURES_LIST_NAME");
    reveal_strlit("SP_FAILURES_FIELD_COMPONENT");
    reveal_strlit("SP_FAILURES_FIELD_DATE");
    reveal_strlit("SP_FAILURES_FIELD_TYPE");
    reveal_strlit("SP_COMPONENTS_LIST_ID");
    reveal_strlit("SP_COMPONENTS_LIST_NAME");
    reveal_strlit("SP_COMPONENTS_FIELD_ID");
    reveal_strlit("SP_COMPONENTS_FIELD_NAME");
    reveal_strlit("SP_COMPONENTS_FIELD_SUBTYPE");
    reveal_strlit("SP_COMPONENTS_FIELD_TYPE");
    reveal_strlit("SP_COMPONENTS_FIELD_INSID");
    assert(good_key("USER_NAME"@));
    assert(good_key("SP_TENANT_ID"@));
    assert(good_key("SP_CLIENT_ID"@));
    assert(good_key("SP_CLIENT_SECRET"@));
    assert(good_key("SP_SITE_ID"@));
    assert(good_key("SP_SITE_HOSTNAME"@));
    assert(good_key("SP_SITE_PATH"@));
    assert(good_key("SP_GRAPH_BASE"@));
    assert(good_key("SP_GRAPH_SCOPE"@));
    assert(good_key("SP_TIMEOUT_S"@));
    assert(good_key("SP_EVENTS_LIST_ID"@));
    assert(good_key("SP_EVENTS_LIST_NAME"@));
    assert(good_key("SP_EVENTS_SNAPSHOT_THRESHOLD_KB"@));
    assert(good_key("SP_EVENTS_FIELD_KIND"@));
    assert(good_key("SP_EVENTS_FIELD_TS"@));
    assert(good_key("SP_EVENTS_FIELD_ACTOR"@));
    assert(good_key("SP_EVENTS_FIELD_VERSION"@));
    assert(good_key("SP_EVENTS_FIELD_PAYLOAD"@));
    assert(good_key("SP_EVENTS_FIELD_SNAPSHOT_FILE"@));
    assert(good_key("SP_SNAPSHOTS_LIBRARY_ID"@));
    assert(good_key("SP_SNAPSHOTS_LIBRARY_NAME"@));
    assert(good_key("SP_FAILURES_LIST_ID"@));
    assert(good_key("SP_FAILURES_LIST_NAME"@));
    assert(good_key("SP_FAILURES_FIELD_COMPONENT"@));
    assert(good_key("SP_FAILURES_FIELD_DATE"@));
    assert(good_key("SP_FAILURES_FIELD_TYPE"@));
    assert(good_key("SP_COMPONENTS_LIST_ID"@));
    assert(good_key("SP_COMPONENTS_LIST_NAME"@));
    assert(good_key("SP_COMPONENTS_FIELD_ID"@));
    assert(good_key("SP_COMPONENTS_FIELD_NAME"@));
    assert(good_key("SP_COMPONENTS_FIELD_SUBTYPE"@));
    assert(good_key("SP_COMPONENTS_FIELD_TYPE"@));
    assert(good_key("SP_COMPONENTS_FIELD_INSID"@));
    lemma_dec_rep_mirror_value(c.timeout_s as nat);
    lemma_dec_rep_mirror_value(c.events_snapshot_threshold_kb as nat);
    lemma_parse_line_kv("USER_NAME"@, c.user_name@);
    lemma_parse_line_kv("SP_TENANT_ID"@, c.tenant_id@);
    lemma_parse_line_kv("SP_CLIENT_ID"@, c.client_id@);
    lemma_parse_line_kv("SP_CLIENT_SECRET"@, c.client_secret@);
    lemma_parse_line_kv("SP_SITE_ID"@, c.site_id@);
    lemma_parse_line_kv("SP_SITE_HOSTNAME"@, c.site_hostname@);
    lemma_parse_line_kv("SP_SITE_PATH"@, c.site_path@);
    lemma_parse_line_kv("SP_GRAPH_BASE"@, c.graph_base@);
    lemma_parse_line_kv("SP_GRAPH_SCOPE"@, c.graph_scope@);
    lemma_parse_line_kv("SP_TIMEOUT_S"@, dec_rep(c.timeout_s as nat));
    lemma_parse_line_kv("SP_EVENTS_LIST_ID"@, c.events_list_id@);
    lemma_parse_line_kv("SP_EVENTS_LIST_NAME"@, c.events_list_name@);
    lemma_parse_line_kv("SP_EVENTS_SNAPSHOT_THRESHOLD_KB"@, dec_rep(c.events_snapshot_threshold_kb as nat));
    lemma_parse_line_kv("SP_EVENTS_FIELD_KIND"@, c.events_field_kind@);
    lemma_parse_line_kv("SP_EVENTS_FIELD_TS"@, c.events_field_ts@);
    lemma_parse_line_kv("SP_EVENTS_FIELD_ACTOR"@, c.events_field_actor@);
    lemma_parse_line_kv("SP_EVENTS_FIELD_VERSION"@, c.events_field_version@);
    lemma_parse_line_kv("SP_EVENTS_FIELD_PAYLOAD"@, c.events_field_payload@);
    lemma_parse_line_kv("SP_EVENTS_FIELD_SNAPSHOT_FILE"@, c.events_field_snapshot_file@);
    lemma_parse_line_kv("SP_SNAPSHOTS_LIBRARY_ID"@, c.snapshots_library_id@);
    lemma_parse_line_kv("SP_SNAPSHOTS_LIBRARY_NAME"@, c.snapshots_library_name@);
    lemma_parse_line_kv("SP_FAILURES_LIST_ID"@, c.failures_list_id@);
    lemma_parse_line_kv("SP_FAILURES_LIST_NAME"@, c.failures_list_name@);
    lemma_parse_line_kv("SP_FAILURES_FIELD_COMPONENT"@, c.failures_field_component@);
    lemma_parse_line_kv("SP_FAILURES_FIELD_DATE"@, c.failures_field_date@);
    lemma_parse_line_kv("SP_FAILURES_FIELD_TYPE"@, c.failures_field_type@);
    lemma_parse_line_kv("SP_COMPONENTS_LIST_ID"@, c.components_list_id@);
    lemma_parse_line_kv("SP_COMPONENTS_LIST_NAME"@, c.components_list_name@);
    lemma_parse_line_kv("SP_COMPONENTS_FIELD_ID"@, c.components_field_id@);
    lemma_parse_line_kv("SP_COMPONENTS_FIELD_NAME"@, c.components_field_name@);
    lemma_parse_line_kv("SP_COMPONENTS_FIELD_SUBTYPE"@, c.components_field_subtype@);
    lemma_parse_line_kv("SP_COMPONENTS_FIELD_TYPE"@, c.components_field_type@);
    lemma_parse_line_kv("SP_COMPONENTS_FIELD_INSID"@, c.components_field_insid@);
    lemma_parse_line_empty();
    let L = mirror_lines(c);
    assert(L.len() == 40);
    assert forall|i: int| 0 <= i < L.len() implies line_ok(#[trigger] L[i]) by {
        if exists|k: Seq<char>, v: Seq<char>| L[i] == kv(k, v) && good_key(k) && mirror_value(v) {
            let (k, v) = choose|k: Seq<char>, v: Seq<char>|
                L[i] == kv(k, v) && good_key(k) && mirror_value(v);
            assert forall|j: int| 0 <= j < L[i].len() implies L[i][j] != '\n' by {
                if j < k.len() {
                    assert(L[i][j] == k[j]);
                } else if j == k.len() {
                    assert(L[i][j] == '=');
                } else {
                    assert(L[i][j] == v[j - k.len() - 1]);
                }
            }
        } else {
            assert(L[i] =~= Seq::<char>::empty());
        }
    }
    lemma_split_join(L);
    assert(split_lines(mirror_text(c)) == L);
    let P = seq![
        ("USER_NAME"@, c.user_name@),
        ("SP_TENANT_ID"@, c.tenant_id@),
        ("SP_CLIENT_ID"@, c.client_id@),
        ("SP_CLIENT_SECRET"@, c.client_secret@),
        ("SP_SITE_ID"@, c.site_id@),
        ("SP_SITE_HOSTNAME"@, c.site_hostname@),
        ("SP_SITE_PATH"@, c.site_path@),
        ("SP_GRAPH_BASE"@, c.graph_base@),
        ("SP_GRAPH_SCOPE"@, c.graph_scope@),
        ("SP_TIMEOUT_S"@, dec_rep(c.timeout_s as nat)),
        ("SP_EVENTS_LIST_ID"@, c.events_list_id@),
        ("SP_EVENTS_LIST_NAME"@, c.events_list_name@),
        ("SP_EVENTS_SNAPSHOT_THRESHOLD_KB"@, dec_rep(c.events_snapshot_threshold_kb as nat)),
        ("SP_EVENTS_FIELD_KIND"@, c.events_field_kind@),
        ("SP_EVENTS_FIELD_TS"@, c.events_field_ts@),
        ("SP_EVENTS_FIELD_ACTOR"@, c.events_field_actor@),
        ("SP_EVENTS_FIELD_VERSION"@, c.events_field_version@),
        ("SP_EVENTS_FIELD_PAYLOAD"@, c.events_field_payload@),
        ("SP_EVENTS_FIELD_SNAPSHOT_FILE"@, c.events_field_snapshot_file@),
        ("SP_SNAPSHOTS_LIBRARY_ID"@, c.snapshots_library_id@),
        ("SP_SNAPSHOTS_LIBRARY_NAME"@, c.snapshots_library_name@),
        ("SP_FAILURES_LIST_ID"@, c.failures_list_id@),
        ("SP_FAILURES_LIST_NAME"@, c.failures_list_name@),
        ("SP_FAILURES_FIELD_COMPONENT"@, c.failures_field_component@),
        ("SP_FAILURES_FIELD_DATE"@, c.failures_field_date@),
        ("SP_FAILURES_FIELD_TYPE"@, c.failures_field_type@),
        ("SP_COMPONENTS_LIST_ID"@, c.components_list_id@),
        ("SP_COMPONENTS_LIST_NAME"@, c.components_list_name@),
        ("SP_COMPONENTS_FIELD_ID"@, c.components_field_id@),
        ("SP_COMPONENTS_FIELD_NAME"@, c.components_field_name@),
        ("SP_COMPONENTS_FIELD_SUBTYPE"@, c.components_field_subtype@),
        ("SP_COMPONENTS_FIELD_TYPE"@, c.components_field_type@),
        ("SP_COMPONENTS_FIELD_INSID"@, c.components_field_insid@),
    ];
    assert(P.len() == 33);
    assert(L.skip(40) =~= Seq::<Seq<char>>::empty());
    assert(parse_env_lines(Seq::<Seq<char>>::empty()) == Seq::<(Seq<char>, Seq<char>)>::empty());
    assert(P.skip(33) =~= Seq::<(Seq<char>, Seq<char>)>::empty());
    assert(parse_env_lines(L.skip(40)) =~= P.skip(33));
    assert(L.skip(39)[0] == L[39]);
    assert(L.skip(39).skip(1) =~= L.skip(40));
    assert(parse_line(L[39]) is None);
    assert(parse_env_lines(L.skip(39)) =~= P.skip(33));
    assert(L.skip(38)[0] == L[38]);
    assert(L.skip(38).skip(1) =~= L.skip(39));
    assert(L[38] == kv("SP_COMPONENTS_FIELD_INSID"@, c.components_field_insid@));
    assert(parse_line(L[38]) == Option::Some(P[32]));
    assert(P.skip(32) =~= seq![P[32]] + P.skip(33));
    assert(parse_env_lines(L.skip(38)) =~= P.skip(32));
    assert(L.skip(37)[0] == L[37]);
    assert(L.skip(37).skip(1) =~= L.skip(38));
    assert(L[37] == kv("SP_COMPONENTS_FIELD_TYPE"@, c.components_field_type@));
    assert(parse_line(L[37]) == Option::Some(P[31]));
    assert(P.skip(31) =~= seq![P[31]] + P.skip(32));
    assert(parse_env_lines(L.skip(37)) =~= P.skip(31));
    assert(L.skip(36)[0] == L[36]);
    assert(L.skip(36).skip(1) =~= L.skip(37));
    assert(L[36] == kv("SP_COMPONENTS_FIELD_SUBTYPE"@, c.components_field_subtype@));
    assert(parse_line(L[36]) == Option::Some(P[30]));
    assert(P.skip(30) =~= seq![P[30]] + P.skip(31));
    assert(parse_env_lines(L.skip(36)) =~= P.skip(30));
    assert(L.skip(35)[0] == L[35]);
    assert(L.skip(35).skip(1) =~= L.skip(36));
    assert(L[35] == kv("SP_COMPONENTS_FIELD_NAME"@, c.components_field_name@));
    assert(parse_line(L[35]) == Option::Some(P[29]));
    assert(P.skip(29) =~= seq![P[29]] + P.skip(30));
    assert(parse_env_lines(L.skip(35)) =~= P.skip(29));
    assert(L.skip(34)[0] == L[34]);
    assert(L.skip(34).skip(1) =~= L.skip(35));
    assert(L[34] == kv("SP_COMPONENTS_FIELD_ID"@, c.components_field_id@));
    assert(parse_line(L[34]) == Option::Some(P[28]));
    assert(P.skip(28) =~= seq![P[28]] + P.skip(29));
    assert(parse_env_lines(L.skip(34)) =~= P.skip(28));
    assert(L.skip(33)[0] == L[33]);
    assert(L.skip(33).skip(1) =~= L.skip(34));
    assert(L[33] == kv("SP_COMPONENTS_LIST_NAME"@, c.components_list_name@));
    assert(parse_line(L[33]) == Option::Some(P[27]));
    assert(P.skip(27) =~= seq![P[27]] + P.skip(28));
    assert(parse_env_lines(L.skip(33)) =~= P.skip(27));
    assert(L.skip(32)[0] == L[32]);
    assert(L.skip(32).skip(1) =~= L.skip(33));
    assert(L[32] == kv("SP_COMPONENTS_LIST_ID"@, c.components_list_id@));
    assert(parse_line(L[32]) == Option::Some(P[26]));
    assert(P.skip(26) =~= seq![P[26]] + P.skip(27));
    assert(parse_env_lines(L.skip(32)) =~= P.skip(26));
    assert(L.skip(31)[0] == L[31]);
    assert(L.skip(31).skip(1) =~= L.skip(32));
    assert(parse_line(L[31]) is None);
    assert(parse_env_lines(L.skip(31)) =~= P.skip(26));
    assert(L.skip(30)[0] == L[30]);
    assert(L.skip(30).skip(1) =~= L.skip(31));
    assert(L[30] == kv("SP_FAILURES_FIELD_TYPE"@, c.failures_field_type@));
    assert(parse_line(L[30]) == Option::Some(P[25]));
    assert(P.skip(25) =~= seq![P[25]] + P.skip(26));
    assert(parse_env_lines(L.skip(30)) =~= P.skip(25));
    assert(L.skip(29)[0] == L[29]);
    assert(L.skip(29).skip(1) =~= L.skip(30));
    assert(L[29] == kv("SP_FAILURES_FIELD_DATE"@, c.failures_field_date@));
    assert(parse_line(L[29]) == Option::Some(P[24]));
    assert(P.skip(24) =~= seq![P[24]] + P.skip(25));
    assert(parse_env_lines(L.skip(29)) =~= P.skip(24));
    assert(L.skip(28)[0] == L[28]);
    assert(L.skip(28).skip(1) =~= L.skip(29));
    assert(L[28] == kv("SP_FAILURES_FIELD_COMPONENT"@, c.failures_field_component@));
    assert(parse_line(L[28]) == Option::Some(P[23]));
    assert(P.skip(23) =~= seq![P[23]] + P.skip(24));
    assert(parse_env_lines(L.skip(28)) =~= P.skip(23));
    assert(L.skip(27)[0] == L[27]);
    assert(L.skip(27).skip(1) =~= L.skip(28));
    assert(L[27] == kv("SP_FAILURES_LIST_NAME"@, c.failures_list_name@));
    assert(parse_line(L[27]) == Option::Some(P[22]));
    assert(P.skip(22) =~= seq![P[22]] + P.skip(23));
    assert(parse_env_lines(L.skip(27)) =~= P.skip(22));
    assert(L.skip(26)[0] == L[26]);
    assert(L.skip(26).skip(1) =~= L.skip(27));
    assert(L[26] == kv("SP_FAILURES_LIST_ID"@, c.failures_list_id@));
    assert(parse_line(L[26]) == Option::Some(P[21]));
    assert(P.skip(21) =~= seq![P[21]] + P.skip(22));
    assert(parse_env_lines(L.skip(26)) =~= P.skip(21));
    assert(L.skip(25)[0] == L[25]);
    assert(L.skip(25).skip(1) =~= L.skip(26));
    assert(parse_line(L[25]) is None);
    assert(parse_env_lines(L.skip(25)) =~= P.skip(21));
    assert(L.skip(24)[0] == L[24]);
    assert(L.skip(24).skip(1) =~= L.skip(25));
    assert(L[24] == kv("SP_SNAPSHOTS_LIBRARY_NAME"@, c.snapshots_library_name@));
    assert(parse_line(L[24]) == Option::Some(P[20]));
    assert(P.skip(20) =~= seq![P[20]] + P.skip(21));
    assert(parse_env_lines(L.skip(24)) =~= P.skip(20));
    assert(L.skip(23)[0] == L[23]);
    assert(L.skip(23).skip(1) =~= L.skip(24));
    assert(L[23] == kv("SP_SNAPSHOTS_LIBRARY_ID"@, c.snapshots_library_id@));
    assert(parse_line(L[23]) == Option::Some(P[19]));
    assert(P.skip(19) =~= seq![P[19]] + P.skip(20));
    assert(parse_env_lines(L.skip(23)) =~= P.skip(19));
    assert(L.skip(22)[0] == L[22]);
    assert(L.skip(22).skip(1) =~= L.skip(23));
    assert(L[22] == kv("SP_EVENTS_FIELD_SNAPSHOT_FILE"@, c.events_field_snapshot_file@));
    assert(parse_line(L[22]) == Option::Some(P[18]));
    assert(P.skip(18) =~= seq![P[18]] + P.skip(19));
    assert(parse_env_lines(L.skip(22)) =~= P.skip(18));
    assert(L.skip(21)[0] == L[21]);
    assert(L.skip(21).skip(1) =~= L.skip(22));
    assert(L[21] == kv("SP_EVENTS_FIELD_PAYLOAD"@, c.events_field_payload@));
    assert(parse_line(L[21]) == Option::Some(P[17]));
    assert(P.skip(17) =~= seq![P[17]] + P.skip(18));
    assert(parse_env_lines(L.skip(21)) =~= P.skip(17));
    assert(L.skip(20)[0] == L[20]);
    assert(L.skip(20).skip(1) =~= L.skip(21));
    assert(L[20] == kv("SP_EVENTS_FIELD_VERSION"@, c.events_field_version@));
    assert(parse_line(L[20]) == Option::Some(P[16]));
    assert(P.skip(16) =~= seq![P[16]] + P.skip(17));
    assert(parse_env_lines(L.skip(20)) =~= P.skip(16));
    assert(L.skip(19)[0] == L[19]);
    assert(L.skip(19).skip(1) =~= L.skip(20));
    assert(L[19] == kv("SP_EVENTS_FIELD_ACTOR"@, c.events_field_actor@));
    assert(parse_line(L[19]) == Option::Some(P[15]));
    assert(P.skip(15) =~= seq![P[15]] + P.skip(16));
    assert(parse_env_lines(L.skip(19)) =~= P.skip(15));
    assert(L.skip(18)[0] == L[18]);
    assert(L.skip(18).skip(1) =~= L.skip(19));
    assert(L[18] == kv("SP_EVENTS_FIELD_TS"@, c.events_field_ts@));
    assert(parse_line(L[18]) == Option::Some(P[14]));
    assert(P.skip(14) =~= seq![P[14]] + P.skip(15));
    assert(parse_env_lines(L.skip(18)) =~= P.skip(14));
    assert(L.skip(17)[0] == L[17]);
    assert(L.skip(17).skip(1) =~= L.skip(18));
    assert(L[17] == kv("SP_EVENTS_FIELD_KIND"@, c.events_field_kind@));
    assert(parse_line(L[17]) == Option::Some(P[13]));
    assert(P.skip(13) =~= seq![P[13]] + P.skip(14));
    assert(parse_env_lines(L.skip(17)) =~= P.skip(13));
    assert(L.skip(16)[0] == L[16]);
    assert(L.skip(16).skip(1) =~= L.skip(17));
    assert(L[16] == kv("SP_EVENTS_SNAPSHOT_THRESHOLD_KB"@, dec_rep(c.events_snapshot_threshold_kb as nat)));
    assert(parse_line(L[16]) == Option::Some(P[12]));
    assert(P.skip(12) =~= seq![P[12]] + P.skip(13));
    assert(parse_env_lines(L.skip(16)) =~= P.skip(12));
    assert(L.skip(15)[0] == L[15]);
    assert(L.skip(15).skip(1) =~= L.skip(16));
    assert(L[15] == kv("SP_EVENTS_LIST_NAME"@, c.events_list_name@));
    assert(parse_line(L[15]) == Option::Some(P[11]));
    assert(P.skip(11) =~= seq![P[11]] + P.skip(12));
    assert(parse_env_lines(L.skip(15)) =~= P.skip(11));
    assert(L.skip(14)[0] == L[14]);
    assert(L.skip(14).skip(1) =~= L.skip(15));
    assert(L[14] == kv("SP_EVENTS_LIST_ID"@, c.events_list_id@));
    assert(parse_line(L[14]) == Option::Some(P[10]));
    assert(P.skip(10) =~= seq![P[10]] + P.skip(11));
    assert(parse_env_lines(L.skip(14)) =~= P.skip(10));
    assert(L.skip(13)[0] == L[13]);
    assert(L.skip(13).skip(1) =~= L.skip(14));
    assert(parse_line(L[13]) is None);
    assert(parse_env_lines(L.skip(13)) =~= P.skip(10));
    assert(L.skip(12)[0] == L[12]);
    assert(L.skip(12).skip(1) =~= L.skip(13));
    assert(L[12] == kv("SP_TIMEOUT_S"@, dec_rep(c.timeout_s as nat)));
    assert(parse_line(L[12]) == Option::Some(P[9]));
    assert(P.skip(9) =~= seq![P[9]] + P.skip(10));
    assert(parse_env_lines(L.skip(12)) =~= P.skip(9));
    assert(L.skip(11)[0] == L[11]);
    assert(L.skip(11).skip(1) =~= L.skip(12));
    assert(L[11] == kv("SP_GRAPH_SCOPE"@, c.graph_scope@));
    assert(parse_line(L[11]) == Option::Some(P[8]));
    assert(P.skip(8) =~= seq![P[8]] + P.skip(9));
    assert(parse_env_lines(L.skip(11)) =~= P.skip(8));
    assert(L.skip(10)[0] == L[10]);
    assert(L.skip(10).skip(1) =~= L.skip(11));
    assert(L[10] == kv("SP_GRAPH_BASE"@, c.graph_base@));
    assert(parse_line(L[10]) == Option::Some(P[7]));
    assert(P.skip(7) =~= seq![P[7]] + P.skip(8));
    assert(parse_env_lines(L.skip(10)) =~= P.skip(7));
    assert(L.skip(9)[0] == L[9]);
    assert(L.skip(9).skip(1) =~= L.skip(10));
    assert(parse_line(L[9]) is None);
    assert(parse_env_lines(L.skip(9)) =~= P.skip(7));
    assert(L.skip(8)[0] == L[8]);
    assert(L.skip(8).skip(1) =~= L.skip(9));
    assert(L[8] == kv("SP_SITE_PATH"@, c.site_path@));
    assert(parse_line(L[8]) == Option::Some(P[6]));
    assert(P.skip(6) =~= seq![P[6]] + P.skip(7));
    assert(parse_env_lines(L.skip(8)) =~= P.skip(6));
    assert(L.skip(7)[0] == L[7]);
    assert(L.skip(7).skip(1) =~= L.skip(8));
    assert(L[7] == kv("SP_SITE_HOSTNAME"@, c.site_hostname@));
    assert(parse_line(L[7]) == Option::Some(P[5]));
    assert(P.skip(5) =~= seq![P[5]] + P.skip(6));
    assert(parse_env_lines(L.skip(7)) =~= P.skip(5));
    assert(L.skip(6)[0] == L[6]);
    assert(L.skip(6).skip(1) =~= L.skip(7));
    assert(L[6] == kv("SP_SITE_ID"@, c.site_id@));
    assert(parse_line(L[6]) == Option::Some(P[4]));
    assert(P.skip(4) =~= seq![P[4]] + P.skip(5));
    assert(parse_env_lines(L.skip(6)) =~= P.skip(4));
    assert(L.skip(5)[0] == L[5]);
    assert(L.skip(5).skip(1) =~= L.skip(6));
    assert(parse_line(L[5]) is None);
    assert(parse_env_lines(L.skip(5)) =~= P.skip(4));
    assert(L.skip(4)[0] == L[4]);
    assert(L.skip(4).skip(1) =~= L.skip(5));
    assert(L[4] == kv("SP_CLIENT_SECRET"@, c.client_secret@));
    assert(parse_line(L[4]) == Option::Some(P[3]));
    assert(P.skip(3) =~= seq![P[3]] + P.skip(4));
    assert(parse_env_lines(L.skip(4)) =~= P.skip(3));
    assert(L.skip(3)[0] == L[3]);
    assert(L.skip(3).skip(1) =~= L.skip(4));
    assert(L[3] == kv("SP_CLIENT_ID"@, c.client_id@));
    assert(parse_line(L[3]) == Option::Some(P[2]));
    assert(P.skip(2) =~= seq![P[2]] + P.skip(3));
    assert(parse_env_lines(L.skip(3)) =~= P.skip(2));
    assert(L.skip(2)[0] == L[2]);
    assert(L.skip(2).skip(1) =~= L.skip(3));
    assert(L[2] == kv("SP_TENANT_ID"@, c.tenant_id@));
    assert(parse_line(L[2]) == Option::Some(P[1]));
    assert(P.skip(1) =~= seq![P[1]] + P.skip(2));
    assert(parse_env_lines(L.skip(2)) =~= P.skip(1));
    assert(L.skip(1)[0] == L[1]);
    assert(L.skip(1).skip(1) =~= L.skip(2));
    assert(parse_line(L[1]) is None);
    assert(parse_env_lines(L.skip(1)) =~= P.skip(1));
    assert(L.skip(0)[0] == L[0]);
    assert(L.skip(0).skip(1) =~= L.skip(1));
    assert(L[0] == kv("USER_NAME"@, c.user_name@));
    assert(parse_line(L[0]) == Option::Some(P[0]));
    assert(P.skip(0) =~= seq![P[0]] + P.skip(1));
    assert(parse_env_lines(L.skip(0)) =~= P.skip(0));
    assert(L.skip(0) =~= L);
    assert(P.skip(0) =~= P);
    assert(spec_parse_env(mirror_text(c)) == P);
    assert(("SP_TENANT_ID"@)[3] != ("SP_CLIENT_ID"@)[3]);
    assert(("SP_TENANT_ID"@)[3] != ("SP_SITE_PATH"@)[3]);
    assert(("SP_TENANT_ID"@)[4] != ("SP_TIMEOUT_S"@)[4]);
    assert(("SP_CLIENT_ID"@)[3] != ("SP_SITE_PATH"@)[3]);
    assert(("SP_CLIENT_ID"@)[3] != ("SP_TIMEOUT_S"@)[3]);
    assert(("SP_CLIENT_SECRET"@)[3] != ("SP_SITE_HOSTNAME"@)[3]);
    assert(("SP_SITE_PATH"@)[3] != ("SP_TIMEOUT_S"@)[3]);
    assert(("SP_EVENTS_LIST_NAME"@)[3] != ("SP_FAILURES_LIST_ID"@)[3]);
    assert(("SP_EVENTS_FIELD_ACTOR"@)[3] != ("SP_FAILURES_LIST_NAME"@)[3]);
    assert(("SP_EVENTS_FIELD_ACTOR"@)[3] != ("SP_COMPONENTS_LIST_ID"@)[3]);
    assert(("SP_EVENTS_FIELD_VERSION"@)[16] != ("SP_EVENTS_FIELD_PAYLOAD"@)[16]);
    assert(("SP_EVENTS_FIELD_VERSION"@)[3] != ("SP_SNAPSHOTS_LIBRARY_ID"@)[3]);
    assert(("SP_EVENTS_FIELD_VERSION"@)[3] != ("SP_COMPONENTS_LIST_NAME"@)[3]);
    assert(("SP_EVENTS_FIELD_PAYLOAD"@)[3] != ("SP_SNAPSHOTS_LIBRARY_ID"@)[3]);
    assert(("SP_EVENTS_FIELD_PAYLOAD"@)[3] != ("SP_COMPONENTS_LIST_NAME"@)[3]);
    assert(("SP_SNAPSHOTS_LIBRARY_ID"@)[3] != ("SP_COMPONENTS_LIST_NAME"@)[3]);
    assert(("SP_SNAPSHOTS_LIBRARY_NAME"@)[3] != ("SP_COMPONENTS_FIELD_INSID"@)[3]);
    assert(("SP_FAILURES_LIST_NAME"@)[3] != ("SP_COMPONENTS_LIST_ID"@)[3]);
    assert(("SP_FAILURES_FIELD_COMPONENT"@)[3] != ("SP_COMPONENTS_FIELD_SUBTYPE"@)[3]);
    assert(("SP_FAILURES_FIELD_DATE"@)[18] != ("SP_FAILURES_FIELD_TYPE"@)[18]);
    assert(("SP_FAILURES_FIELD_DATE"@)[3] != ("SP_COMPONENTS_FIELD_ID"@)[3]);
    assert(("SP_FAILURES_FIELD_TYPE"@)[3] != ("SP_COMPONENTS_FIELD_ID"@)[3]);
    assert(("SP_COMPONENTS_FIELD_NAME"@)[20] != ("SP_COMPONENTS_FIELD_TYPE"@)[20]);
    assert(env_lookup(P, "USER_NAME"@) == Option::Some(c.user_name@)) by {
        reveal_with_fuel(env_lookup, 34);
    }
    assert(env_lookup(P, "SP_TENANT_ID"@) == Option::Some(c.tenant_id@)) by {
        reveal_with_fuel(env_lookup, 34);
    }
    assert(env_lookup(P, "SP_CLIENT_ID"@) == Option::Some(c.client_id@)) by {
        reveal_with_fuel(env_lookup, 34);
    }
    assert(env_lookup(P, "SP_CLIENT_SECRET"@) == Option::Some(c.client_secret@)) by {
        reveal_with_fuel(env_lookup, 34);
    }
    assert(env_lookup(P, "SP_SITE_ID"@) == Option::Some(c.site_id@)) by {
        reveal_with_fuel(env_lookup, 34);
    }
    assert(env_lookup(P, "SP_SITE_HOSTNAME"@) == Option::Some(c.site_hostname@)) by {
        reveal_with_fuel(env_lookup, 34);
    }
    assert(env_lookup(P, "SP_SITE_PATH"@) == Option::Some(c.site_path@)) by {
        reveal_with_fuel(env_lookup, 34);
    }
    assert(env_lookup(P, "SP_GRAPH_BASE"@) == Option::Some(c.graph_base@)) by {
        reveal_with_fuel(env_lookup, 34);
    }
    assert(env_lookup(P, "SP_GRAPH_SCOPE"@) == Option::Some(c.graph_scope@)) by {
        reveal_with_fuel(env_lookup, 34);
    }
    assert(env_lookup(P, "SP_TIMEOUT_S"@) == Option::Some(dec_rep(c.timeout_s as nat))) by {
        reveal_with_fuel(env_lookup, 34);
    }
    assert(env_lookup(P, "SP_EVENTS_LIST_ID"@) == Option::Some(c.events_list_id@)) by {
        reveal_with_fuel(env_lookup, 34);
    }
    assert(env_lookup(P, "SP_EVENTS_LIST_NAME"@) == Option::Some(c.events_list_name@)) by {
        reveal_with_fuel(env_lookup, 34);
    }
    assert(env_lookup(P, "SP_EVENTS_SNAPSHOT_THRESHOLD_KB"@) == Option::Some(dec_rep(c.events_snapshot_threshold_kb as nat))) by {
        reveal_with_fuel(env_lookup, 34);
    }
    assert(env_lookup(P, "SP_EVENTS_FIELD_KIND"@) == Option::Some(c.events_field_kind@)) by {
        reveal_with_fuel(env_lookup, 34);
    }
    assert(env_lookup(P, "SP_EVENTS_FIELD_TS"@) == Option::Some(c.events_field_ts@)) by {
        reveal_with_fuel(env_lookup, 34);
    }
    assert(env_lookup(P, "SP_EVENTS_FIELD_ACTOR"@) == Option::Some(c.events_field_actor@)) by {
        reveal_with_fuel(env_lookup, 34);
    }
    assert(env_lookup(P, "SP_EVENTS_FIELD_VERSION"@) == Option::Some(c.events_field_version@)) by {
        reveal_with_fuel(env_lookup, 34);
    }
    assert(env_lookup(P, "SP_EVENTS_FIELD_PAYLOAD"@) == Option::Some(c.events_field_payload@)) by {
        reveal_with_fuel(env_lookup, 34);
    }
    assert(env_lookup(P, "SP_EVENTS_FIELD_SNAPSHOT_FILE"@) == Option::Some(c.events_field_snapshot_file@)) by {
        reveal_with_fuel(env_lookup, 34);
    }
    assert(env_lookup(P, "SP_SNAPSHOTS_LIBRARY_ID"@) == Option::Some(c.snapshots_library_id@)) by {
        reveal_with_fuel(env_lookup, 34);
    }
    assert(env_lookup(P, "SP_SNAPSHOTS_LIBRARY_NAME"@) == Option::Some(c.snapshots_library_name@)) by {
        reveal_with_fuel(env_lookup, 34);
    }
    assert(env_lookup(P, "SP_FAILURES_LIST_ID"@) == Option::Some(c.failures_list_id@)) by {
        reveal_with_fuel(env_lookup, 34);
    }
    assert(env_lookup(P, "SP_FAILURES_LIST_NAME"@) == Option::Some(c.failures_list_name@)) by {
        reveal_with_fuel(env_lookup, 34);
    }
    assert(env_lookup(P, "SP_FAILURES_FIELD_COMPONENT"@) == Option::Some(c.failures_field_component@)) by {
        reveal_with_fuel(env_lookup, 34);
    }
    assert(env_lookup(P, "SP_FAILURES_FIELD_DATE"@) == Option::Some(c.failures_field_date@)) by {
        reveal_with_fuel(env_lookup, 34);
    }
    assert(env_lookup(P, "SP_FAILURES_FIELD_TYPE"@) == Option::Some(c.failures_field_type@)) by {
        reveal_with_fuel(env_lookup, 34);
    }
    assert(env_lookup(P, "SP_COMPONENTS_LIST_ID"@) == Option::Some(c.components_list_id@)) by {
        reveal_with_fuel(env_lookup, 34);
    }
    assert(env_lookup(P, "SP_COMPONENTS_LIST_NAME"@) == Option::Some(c.components_list_name@)) by {
        reveal_with_fuel(env_lookup, 34);
    }
    assert(env_lookup(P, "SP_COMPONENTS_FIELD_ID"@) == Option::Some(c.components_field_id@)) by {
        reveal_with_fuel(env_lookup, 34);
    }
    assert(env_lookup(P, "SP_COMPONENTS_FIELD_NAME"@) == Option::Some(c.components_field_name@)) by {
        reveal_with_fuel(env_lookup, 34);
    }
    assert(env_lookup(P, "SP_COMPONENTS_FIELD_SUBTYPE"@) == Option::Some(c.components_field_subtype@)) by {
        reveal_with_fuel(env_lookup, 34);
    }
    assert(env_lookup(P, "SP_COMPONENTS_FIELD_TYPE"@) == Option::Some(c.components_field_type@)) by {
        reveal_with_fuel(env_lookup, 34);
    }
    assert(env_lookup(P, "SP_COMPONENTS_FIELD_INSID"@) == Option::Some(c.components_field_insid@)) by {
        reveal_with_fuel(env_lookup, 34);
    }
    lemma_clamp_parse_dec_rep(c.timeout_s);
    lemma_clamp_parse_dec_rep(c.events_snapshot_threshold_kb);
}

} // verus!
