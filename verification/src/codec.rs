use vstd::prelude::*;

use crate::config::{cfg_eq, SharePointConfig};
use crate::errors::ConfigError;
use crate::text::{
    all_digits, dec_parse, dec_rep, digit_run, is_digit, is_digit_char, lemma_dec_parse_nonneg,
    lemma_dec_rep, lemma_dec_rep_injective, lemma_digit_run_determined, u64_to_dec,
};

verus! {

// ---------------------------------------------------------------------------
// The blob format
//
// The persisted blob is a private detail of this crate: the entity's
// fields in declaration order, each framed as `<length>:<contents>`
// with the length in canonical decimal notation, and the two numeric
// fields rendered in canonical decimal notation themselves.  The
// framing is self-delimiting, so decoding is deterministic and
// `decode` inverts `encode` exactly.
// ---------------------------------------------------------------------------

/// One framed field: its length in canonical decimal, a colon, then
/// its characters.
pub open spec fn enc_field(f: Seq<char>) -> Seq<char> {
    dec_rep(f.len()) + seq![':'] + f
}

/// A sequence of framed fields, in order.
pub open spec fn enc_fields(fs: Seq<Seq<char>>) -> Seq<char>
    decreases fs.len(),
{
    if fs.len() == 0 {
        Seq::<char>::empty()
    } else {
        enc_field(fs[0]) + enc_fields(fs.skip(1))
    }
}

/// The entity's fields in declaration order, numeric fields rendered
/// in canonical decimal notation.
pub open spec fn spec_fields_of(c: SharePointConfig) -> Seq<Seq<char>> {
    seq![
        c.user_name@,
        c.tenant_id@,
        c.client_id@,
        c.client_secret@,
        c.site_id@,
        c.site_hostname@,
        c.site_path@,
        c.events_list_id@,
        c.events_list_name@,
        c.events_field_kind@,
        c.events_field_ts@,
        c.events_field_actor@,
        c.events_field_version@,
        c.events_field_payload@,
        c.events_field_snapshot_file@,
        c.snapshots_library_id@,
        c.snapshots_library_name@,
        dec_rep(c.events_snapshot_threshold_kb as nat),
        c.failures_list_id@,
        c.failures_list_name@,
        c.failures_field_component@,
        c.failures_field_date@,
        c.failures_field_type@,
        c.components_list_id@,
        c.components_list_name@,
        c.components_field_id@,
        c.components_field_name@,
        c.components_field_subtype@,
        c.components_field_type@,
        c.components_field_insid@,
        c.graph_base@,
        c.graph_scope@,
        dec_rep(c.timeout_s as nat),
    ]
}

/// The serialized form of an entity.
pub open spec fn blob_of(c: SharePointConfig) -> Seq<char> {
    enc_fields(spec_fields_of(c))
}

/// The character sequences of a vector of strings.
pub open spec fn str_views(v: Seq<String>) -> Seq<Seq<char>> {
    v.map_values(|x: String| x@)
}

// ---------------------------------------------------------------------------
// Framing lemmas
// ---------------------------------------------------------------------------

pub proof fn lemma_enc_fields_concat(a: Seq<Seq<char>>, b: Seq<Seq<char>>)
    ensures
        enc_fields(a + b) == enc_fields(a) + enc_fields(b),
    decreases a.len(),
{
    if a.len() == 0 {
        assert(a + b =~= b);
        assert(enc_fields(a) + enc_fields(b) =~= enc_fields(b));
    } else {
        assert((a + b)[0] == a[0]);
        assert((a + b).skip(1) =~= a.skip(1) + b);
        lemma_enc_fields_concat(a.skip(1), b);
        assert(enc_field(a[0]) + (enc_fields(a.skip(1)) + enc_fields(b)) =~= (enc_field(a[0])
            + enc_fields(a.skip(1))) + enc_fields(b));
    }
}

pub proof fn lemma_enc_fields_single(f: Seq<char>)
    ensures
        enc_fields(seq![f]) == enc_field(f),
{
    let single = seq![f];
    assert(single.skip(1) =~= Seq::<Seq<char>>::empty());
    assert(enc_fields(Seq::<Seq<char>>::empty()) == Seq::<char>::empty());
    assert(enc_fields(single) == enc_field(f) + Seq::<char>::empty());
    assert(enc_field(f) + Seq::<char>::empty() =~= enc_field(f));
}

pub proof fn lemma_enc_fields_snoc(fs: Seq<Seq<char>>, i: int)
    requires
        0 <= i < fs.len(),
    ensures
        enc_fields(fs.take(i + 1)) == enc_fields(fs.take(i)) + enc_field(fs[i]),
{
    assert(fs.take(i + 1) =~= fs.take(i) + seq![fs[i]]);
    lemma_enc_fields_concat(fs.take(i), seq![fs[i]]);
    lemma_enc_fields_single(fs[i]);
}

// ---------------------------------------------------------------------------
// Canonical decimal strings
// ---------------------------------------------------------------------------

/// A canonical decimal string: non-empty digits with no superfluous
/// leading zero.
pub open spec fn canonical_digits(s: Seq<char>) -> bool {
    all_digits(s) && s.len() >= 1 && (s.len() == 1 || s[0] != '0')
}

/// A canonical decimal string denotes a unique value: it is the
/// canonical representation of what it parses to.
pub proof fn lemma_canonical_value(s: Seq<char>)
    requires
        canonical_digits(s),
    ensures
        dec_parse(s) >= 0,
        s[0] != '0' ==> dec_parse(s) >= 1,
        dec_rep(dec_parse(s) as nat) == s,
    decreases s.len(),
{
    lemma_dec_parse_nonneg(s);
    if s.len() == 1 {
        let c = s[0];
        assert(s.drop_last() =~= Seq::<char>::empty());
        assert(dec_parse(s.drop_last()) == 0);
        assert(s.last() == c);
        assert(dec_parse(s) == crate::text::digit_val(c));
        crate::text::lemma_digit_char_of_val(c);
        assert(dec_rep(dec_parse(s) as nat) =~= s);
    } else {
        let prefix = s.drop_last();
        let d = crate::text::digit_val(s.last());
        assert(all_digits(prefix));
        assert(prefix[0] == s[0]);
        lemma_canonical_value(prefix);
        let p = dec_parse(prefix);
        let m = dec_parse(s);
        assert(m == p * 10 + d);
        assert(p >= 1);
        assert(m >= 10);
        vstd::arithmetic::div_mod::lemma_fundamental_div_mod_converse(m, 10, p, d);
        assert(m / 10 == p && m % 10 == d);
        assert(dec_rep(m as nat) == dec_rep(p as nat).push(crate::text::digit_char(d)));
        crate::text::lemma_digit_char_of_val(s.last());
        assert(crate::text::digit_char(d) == s.last());
        assert(dec_rep(p as nat).push(s.last()) =~= s);
    }
}

// ---------------------------------------------------------------------------
// Field parsing
// ---------------------------------------------------------------------------

/// Splits one framed field off the front of `s`: the field's
/// characters and the remainder.  Fails on a missing or non-canonical
/// length, a missing colon, or a truncated field.
pub open spec fn parse_field(s: Seq<char>) -> Option<(Seq<char>, Seq<char>)> {
    let k = digit_run(s);
    if k == 0 {
        Option::None
    } else if k > 1 && s[0] == '0' {
        Option::None
    } else if k == s.len() || s[k] != ':' {
        Option::None
    } else {
        let m = dec_parse(s.take(k));
        if s.len() - k - 1 < m {
            Option::None
        } else {
            Option::Some((s.subrange(k + 1, k + 1 + m), s.skip(k + 1 + m)))
        }
    }
}

/// Parsing inverts framing: a framed field followed by anything parses
/// back to exactly that field and that remainder.
pub proof fn lemma_parse_enc_field(f: Seq<char>, rest: Seq<char>)
    ensures
        parse_field(enc_field(f) + rest) == Option::Some((f, rest)),
{
    let d = dec_rep(f.len());
    let s = enc_field(f) + rest;
    lemma_dec_rep(f.len());
    assert forall|i: int| 0 <= i < d.len() implies is_digit_char(#[trigger] s[i]) by {
        assert(s[i] == d[i]);
    }
    assert(s[d.len() as int] == ':');
    assert(!is_digit_char(':')) by {
        assert(':' as u32 == 58);
    }
    lemma_digit_run_determined(s, d.len() as int);
    let k = digit_run(s);
    assert(k == d.len());
    assert(s[0] == d[0]);
    if k > 1 {
        assert(f.len() >= 10) by {
            if f.len() < 10 {
                assert(d.len() == 1);
            }
        }
        assert(s[0] != '0');
    }
    assert(s.take(k) =~= d);
    let m = dec_parse(s.take(k));
    assert(m == f.len());
    assert(s.len() - k - 1 == f.len() + rest.len());
    assert(s.subrange(k + 1, k + 1 + m) =~= f);
    assert(s.skip(k + 1 + m) =~= rest);
}

/// Parsing is sound: a successful parse means the input really is the
/// parsed field, framed, followed by the parsed remainder.
pub proof fn lemma_parse_field_sound(s: Seq<char>)
    requires
        parse_field(s) is Some,
    ensures
        ({
            let (f, rest) = parse_field(s)->Some_0;
            &&& s == enc_field(f) + rest
            &&& enc_field(f).len() == s.len() - rest.len()
        }),
{
    let k = digit_run(s);
    crate::text::lemma_digit_run_bounds(s);
    let digits = s.take(k);
    assert(canonical_digits(digits)) by {
        assert forall|i: int| 0 <= i < digits.len() implies is_digit_char(
            #[trigger] digits[i],
        ) by {
            assert(digits[i] == s[i]);
        }
        assert(digits[0] == s[0]);
    }
    lemma_canonical_value(digits);
    let m = dec_parse(digits);
    let f = s.subrange(k + 1, k + 1 + m);
    let rest = s.skip(k + 1 + m);
    assert(dec_rep(f.len()) == digits);
    assert(s =~= digits + seq![':'] + f + rest);
    assert(enc_field(f) + rest =~= digits + seq![':'] + f + rest);
}

// ---------------------------------------------------------------------------
// Canonical u32 parsing (for the two numeric fields)
// ---------------------------------------------------------------------------

/// The value of a canonical decimal string, accepted only in
/// `1..=u32::MAX`.
pub open spec fn canon_u32(s: Seq<char>) -> Option<u32> {
    if canonical_digits(s) && 1 <= dec_parse(s) <= u32::MAX {
        Option::Some(dec_parse(s) as u32)
    } else {
        Option::None
    }
}

pub proof fn lemma_canon_of_rep(v: u32)
    requires
        v >= 1,
    ensures
        canon_u32(dec_rep(v as nat)) == Option::Some(v),
{
    lemma_dec_rep(v as nat);
}

pub proof fn lemma_canon_sound(s: Seq<char>, v: u32)
    requires
        canon_u32(s) == Option::Some(v),
    ensures
        s == dec_rep(v as nat),
        v >= 1,
{
    lemma_canonical_value(s);
}

/// Parses a canonical decimal string in `1..=u32::MAX`; rejects
/// anything else.
pub fn parse_canon_u32(x: &str) -> (r: Option<u32>)
    ensures
        r == canon_u32(x@),
{
    let n = x.unicode_len();
    if n == 0 {
        return Option::None;
    }
    if n > 1 && x.get_char(0) == '0' {
        return Option::None;
    }
    let mut i: usize = 0;
    let mut acc: u64 = 0;
    let mut over: bool = false;
    while i < n
        invariant
            0 <= i <= n,
            n == x@.len(),
            all_digits(x@.take(i as int)),
            !over ==> acc == dec_parse(x@.take(i as int)) && acc <= u32::MAX,
            over ==> dec_parse(x@.take(i as int)) > u32::MAX,
        decreases n - i,
    {
        let c = x.get_char(i);
        if !is_digit(c) {
            return Option::None;
        }
        let d = (c as u32 - 48) as u64;
        proof {
            let prev = x@.take(i as int);
            let cur = x@.take(i + 1);
            assert(cur.drop_last() =~= prev);
            assert(cur.last() == x@[i as int]);
            lemma_dec_parse_nonneg(prev);
        }
        if !over {
            let y = acc * 10 + d;
            if y > u32::MAX as u64 {
                over = true;
            } else {
                acc = y;
            }
        }
        i = i + 1;
    }
    proof {
        assert(x@.take(n as int) =~= x@);
    }
    if over {
        return Option::None;
    }
    if acc == 0 {
        return Option::None;
    }
    Option::Some(acc as u32)
}

// ---------------------------------------------------------------------------
// Encoding
// ---------------------------------------------------------------------------

/// The entity's fields as strings, in declaration order.
pub fn fields_of(config: &SharePointConfig) -> (r: Vec<String>)
    ensures
        str_views(r@) =~= spec_fields_of(*config),
{
    let mut r: Vec<String> = Vec::new();
    r.push(config.user_name.clone());
    r.push(config.tenant_id.clone());
    r.push(config.client_id.clone());
    r.push(config.client_secret.clone());
    r.push(config.site_id.clone());
    r.push(config.site_hostname.clone());
    r.push(config.site_path.clone());
    r.push(config.events_list_id.clone());
    r.push(config.events_list_name.clone());
    r.push(config.events_field_kind.clone());
    r.push(config.events_field_ts.clone());
    r.push(config.events_field_actor.clone());
    r.push(config.events_field_version.clone());
    r.push(config.events_field_payload.clone());
    r.push(config.events_field_snapshot_file.clone());
    r.push(config.snapshots_library_id.clone());
    r.push(config.snapshots_library_name.clone());
    r.push(u64_to_dec(config.events_snapshot_threshold_kb as u64));
    r.push(config.failures_list_id.clone());
    r.push(config.failures_list_name.clone());
    r.push(config.failures_field_component.clone());
    r.push(config.failures_field_date.clone());
    r.push(config.failures_field_type.clone());
    r.push(config.components_list_id.clone());
    r.push(config.components_list_name.clone());
    r.push(config.components_field_id.clone());
    r.push(config.components_field_name.clone());
    r.push(config.components_field_subtype.clone());
    r.push(config.components_field_type.clone());
    r.push(config.components_field_insid.clone());
    r.push(config.graph_base.clone());
    r.push(config.graph_scope.clone());
    r.push(u64_to_dec(config.timeout_s as u64));
    r
}

/// Serializes the entity to its blob text.  Deterministic: the result
/// is exactly `blob_of(config)`.
pub fn encode(config: &SharePointConfig) -> (r: String)
    ensures
        r@ == blob_of(*config),
{
    let fields = fields_of(config);
    let ghost fs = spec_fields_of(*config);
    proof {
        assert(str_views(fields@).len() == fields@.len());
        assert(fields@.len() == 33);
        assert(enc_fields(fs.take(0)) == Seq::<char>::empty()) by {
            assert(fs.take(0) =~= Seq::<Seq<char>>::empty());
        }
    }
    let mut out = String::new();
    let mut i: usize = 0;
    while i < fields.len()
        invariant
            fields@.len() == 33,
            str_views(fields@) =~= fs,
            fs == spec_fields_of(*config),
            0 <= i <= 33,
            out@ == enc_fields(fs.take(i as int)),
        decreases 33 - i,
    {
        let f = &fields[i];
        let len_str = u64_to_dec(f.as_str().unicode_len() as u64);
        out.append(len_str.as_str());
        out.append(":");
        out.append(f.as_str());
        proof {
            reveal_strlit(":");
            assert(":"@ =~= seq![':']);
            assert(f@ == fs[i as int]);
            lemma_enc_fields_snoc(fs, i as int);
            assert(out@ =~= enc_fields(fs.take(i as int)) + enc_field(fs[i as int]));
        }
        i = i + 1;
    }
    proof {
        assert(fs.take(33) =~= fs);
    }
    out
}

// ---------------------------------------------------------------------------
// Decoding
// ---------------------------------------------------------------------------

/// Splits one framed field off `s` at `pos`, returning the field and
/// the position after it; mirrors `parse_field` on the suffix.
pub fn take_field(s: &str, pos: usize) -> (r: Option<(String, usize)>)
    requires
        pos <= s@.len(),
    ensures
        ({
            let t = s@.skip(pos as int);
            match parse_field(t) {
                Option::Some(p) => {
                    &&& r matches Option::Some(q) && q.0@ == p.0 && pos < q.1 <= s@.len()
                    &&& s@.skip(r->Some_0.1 as int) == p.1
                    &&& s@.subrange(pos as int, r->Some_0.1 as int) == enc_field(p.0)
                },
                Option::None => r is None,
            }
        }),
{
    let n = s.unicode_len();
    let ghost t = s@.skip(pos as int);
    let mut i: usize = pos;
    let mut acc: u64 = 0;
    let mut over: bool = false;
    while i < n && is_digit(s.get_char(i))
        invariant
            pos <= i <= n,
            n == s@.len(),
            t == s@.skip(pos as int),
            all_digits(t.take(i - pos)),
            !over ==> acc == dec_parse(t.take(i - pos)),
            over ==> dec_parse(t.take(i - pos)) > u64::MAX,
        decreases n - i,
    {
        let c = s.get_char(i);
        let d = (c as u32 - 48) as u64;
        proof {
            let prev = t.take(i - pos);
            let cur = t.take(i + 1 - pos);
            assert(cur.drop_last() =~= prev);
            assert(cur.last() == s@[i as int]);
            lemma_dec_parse_nonneg(prev);
        }
        if !over {
            match acc.checked_mul(10) {
                Option::Some(x) => match x.checked_add(d) {
                    Option::Some(y) => {
                        acc = y;
                    },
                    Option::None => {
                        over = true;
                    },
                },
                Option::None => {
                    over = true;
                },
            }
        }
        i = i + 1;
    }
    let k = i - pos;
    proof {
        if i < n {
            assert(t[k as int] == s@[i as int]);
        }
        assert forall|q: int| 0 <= q < k implies is_digit_char(#[trigger] t[q]) by {
            assert(is_digit_char(t.take(k as int)[q]));
        }
        lemma_digit_run_determined(t, k as int);
    }
    if k == 0 {
        return Option::None;
    }
    if k > 1 && s.get_char(pos) == '0' {
        proof {
            assert(t[0] == s@[pos as int]);
        }
        return Option::None;
    }
    proof {
        assert(t[0] == s@[pos as int]);
    }
    if i == n {
        return Option::None;
    }
    if s.get_char(i) != ':' {
        return Option::None;
    }
    if over {
        // the announced length exceeds any possible string length
        return Option::None;
    }
    let remaining = n - i - 1;
    if (remaining as u64) < acc {
        return Option::None;
    }
    let mu = acc as usize;
    let endpos = i + 1 + mu;
    let field = String::from_str(s.substring_char(i + 1, endpos));
    proof {
        let p = parse_field(t)->Some_0;
        assert(p.0 =~= s@.subrange(i + 1, endpos as int));
        assert(p.1 =~= s@.skip(endpos as int));
        lemma_parse_field_sound(t);
        assert(t.take(k + 1 + acc) =~= s@.subrange(pos as int, endpos as int));
        assert(t =~= t.take(k + 1 + acc) + t.skip(k + 1 + acc));
        assert(enc_field(p.0).len() == t.len() - p.1.len());
        assert(enc_field(p.0) =~= t.take(k + 1 + acc)) by {
            assert(t == enc_field(p.0) + p.1);
            assert forall|j: int| 0 <= j < enc_field(p.0).len() implies enc_field(p.0)[j]
                == t.take(k + 1 + acc)[j] by {
                assert(t[j] == (enc_field(p.0) + p.1)[j]);
            }
        }
    }
    Option::Some((field, endpos))
}

/// Deserializes a blob produced by `encode`.
///
/// Exact in both directions: a successful decode returns an entity
/// whose serialization is the input, and every well-formed entity's
/// serialization decodes back to an entity equal to it field by field.
/// Anything that is not the serialization of a well-formed entity is
/// rejected with `Decode`.
pub fn decode(s: &str) -> (r: Result<SharePointConfig, ConfigError>)
    ensures
        r matches Ok(c0) ==> s@ == blob_of(c0) && c0.wf(),
        r is Err ==> r == Result::<SharePointConfig, ConfigError>::Err(ConfigError::Decode),
        forall|c: SharePointConfig|
            c.wf() && s@ == blob_of(c) ==> r is Ok && cfg_eq(r->Ok_0, c),
{
    let n = s.unicode_len();
    let mut fields: Vec<String> = Vec::new();
    let mut pos: usize = 0;
    let mut j: usize = 0;
    while j < 33
        invariant
            0 <= j <= 33,
            pos <= n,
            n == s@.len(),
            fields@.len() == j,
            s@.subrange(0, pos as int) == enc_fields(str_views(fields@)),
            forall|c: SharePointConfig|
                s@ == blob_of(c) ==> str_views(fields@) =~= spec_fields_of(c).take(j as int),
        decreases 33 - j,
    {
        proof {
            assert forall|c: SharePointConfig| s@ == blob_of(c) implies parse_field(
                s@.skip(pos as int),
            ) == Option::Some(
                (spec_fields_of(c)[j as int], enc_fields(spec_fields_of(c).skip(j + 1))),
            ) by {
                let fs = spec_fields_of(c);
                assert(fs.take(j as int) + fs.skip(j as int) =~= fs);
                lemma_enc_fields_concat(fs.take(j as int), fs.skip(j as int));
                assert(str_views(fields@) =~= fs.take(j as int));
                assert(enc_fields(str_views(fields@)) == enc_fields(fs.take(j as int)));
                assert(pos as int == enc_fields(fs.take(j as int)).len());
                assert(s@.skip(pos as int) =~= enc_fields(fs.skip(j as int)));
                assert(fs.skip(j as int)[0] == fs[j as int]);
                assert(fs.skip(j as int).skip(1) =~= fs.skip(j + 1));
                assert(enc_fields(fs.skip(j as int)) == enc_field(fs[j as int]) + enc_fields(
                    fs.skip(j + 1),
                ));
                lemma_parse_enc_field(fs[j as int], enc_fields(fs.skip(j + 1)));
            }
        }
        match take_field(s, pos) {
            Option::Some(fp) => {
                let (f, np) = fp;
                proof {
                    let vs = str_views(fields@);
                    assert(str_views(fields@.push(f)) =~= vs.push(f@));
                    lemma_enc_fields_concat(vs, seq![f@]);
                    lemma_enc_fields_single(f@);
                    assert(s@.subrange(0, np as int) =~= s@.subrange(0, pos as int) + s@.subrange(
                        pos as int,
                        np as int,
                    ));
                    assert(vs.push(f@) =~= vs + seq![f@]);
                    assert(enc_fields(vs.push(f@)) == enc_fields(vs + seq![f@]));
                    assert forall|c: SharePointConfig| s@ == blob_of(c) implies str_views(
                        fields@.push(f),
                    ) =~= spec_fields_of(c).take(j + 1) by {
                        let fs = spec_fields_of(c);
                        assert(f@ == fs[j as int]);
                        assert(fs.take(j + 1) =~= fs.take(j as int).push(fs[j as int]));
                    }
                }
                fields.push(f);
                pos = np;
                j = j + 1;
            },
            Option::None => {
                proof {
                    assert forall|c: SharePointConfig| c.wf() implies s@ != blob_of(c) by {}
                }
                return Err(ConfigError::Decode);
            },
        }
    }
    if pos != n {
        proof {
            assert forall|c: SharePointConfig| c.wf() implies s@ != blob_of(c) by {
                if s@ == blob_of(c) {
                    let fs = spec_fields_of(c);
                    assert(str_views(fields@) =~= fs.take(33));
                    assert(fs.take(33) =~= fs);
                    assert(s@.subrange(0, pos as int) =~= s@);
                }
            }
        }
        return Err(ConfigError::Decode);
    }
    proof {
        assert(s@.subrange(0, pos as int) =~= s@);
    }
    let threshold = match parse_canon_u32(fields[17].as_str()) {
        Option::Some(v) => v,
        Option::None => {
            proof {
                assert forall|c: SharePointConfig| c.wf() implies s@ != blob_of(c) by {
                    if s@ == blob_of(c) {
                        let fs = spec_fields_of(c);
                        assert(str_views(fields@) =~= fs.take(33));
                        assert(fs.take(33) =~= fs);
                        assert(fields@[17]@ == fs[17]);
                        lemma_canon_of_rep(c.events_snapshot_threshold_kb);
                    }
                }
            }
            return Err(ConfigError::Decode);
        },
    };
    let timeout = match parse_canon_u32(fields[32].as_str()) {
        Option::Some(v) => v,
        Option::None => {
            proof {
                assert forall|c: SharePointConfig| c.wf() implies s@ != blob_of(c) by {
                    if s@ == blob_of(c) {
                        let fs = spec_fields_of(c);
                        assert(str_views(fields@) =~= fs.take(33));
                        assert(fs.take(33) =~= fs);
                        assert(fields@[32]@ == fs[32]);
                        lemma_canon_of_rep(c.timeout_s);
                    }
                }
            }
            return Err(ConfigError::Decode);
        },
    };
    let c0 = SharePointConfig {
        user_name: fields[0].clone(),
        tenant_id: fields[1].clone(),
        client_id: fields[2].clone(),
        client_secret: fields[3].clone(),
        site_id: fields[4].clone(),
        site_hostname: fields[5].clone(),
        site_path: fields[6].clone(),
        events_list_id: fields[7].clone(),
        events_list_name: fields[8].clone(),
        events_field_kind: fields[9].clone(),
        events_field_ts: fields[10].clone(),
        events_field_actor: fields[11].clone(),
        events_field_version: fields[12].clone(),
        events_field_payload: fields[13].clone(),
        events_field_snapshot_file: fields[14].clone(),
        snapshots_library_id: fields[15].clone(),
        snapshots_library_name: fields[16].clone(),
        events_snapshot_threshold_kb: threshold,
        failures_list_id: fields[18].clone(),
        failures_list_name: fields[19].clone(),
        failures_field_component: fields[20].clone(),
        failures_field_date: fields[21].clone(),
        failures_field_type: fields[22].clone(),
        components_list_id: fields[23].clone(),
        components_list_name: fields[24].clone(),
        components_field_id: fields[25].clone(),
        components_field_name: fields[26].clone(),
        components_field_subtype: fields[27].clone(),
        components_field_type: fields[28].clone(),
        components_field_insid: fields[29].clone(),
        graph_base: fields[30].clone(),
        graph_scope: fields[31].clone(),
        timeout_s: timeout,
    };
    proof {
        lemma_canon_sound(fields@[17]@, threshold);
        lemma_canon_sound(fields@[32]@, timeout);
        assert(spec_fields_of(c0) =~= str_views(fields@));
        assert(s@.subrange(0, pos as int) =~= s@);
        assert(s@ == blob_of(c0));
        assert forall|c: SharePointConfig|
            c.wf() && s@ == blob_of(c) implies cfg_eq(c0, c) by {
            let fs = spec_fields_of(c);
            assert(str_views(fields@) =~= fs.take(33));
            assert(fs.take(33) =~= fs);
            assert(dec_rep(threshold as nat) == dec_rep(c.events_snapshot_threshold_kb as nat));
            lemma_dec_rep_injective(threshold as nat, c.events_snapshot_threshold_kb as nat);
            assert(dec_rep(timeout as nat) == dec_rep(c.timeout_s as nat));
            lemma_dec_rep_injective(timeout as nat, c.timeout_s as nat);
        }
    }
    Ok(c0)
}

/// Serialization is injective: two well-formed entities with the same
/// blob are equal field by field.
pub proof fn lemma_encode_injective(a: SharePointConfig, b: SharePointConfig)
    requires
        a.wf(),
        b.wf(),
        blob_of(a) == blob_of(b),
    ensures
        cfg_eq(a, b),
    decreases 0int,
{
    lemma_enc_fields_injective(spec_fields_of(a), spec_fields_of(b));
    let fa = spec_fields_of(a);
    let fb = spec_fields_of(b);
    assert(fa[17] == fb[17]);
    lemma_dec_rep_injective(a.events_snapshot_threshold_kb as nat, b.events_snapshot_threshold_kb as nat);
    lemma_dec_rep_injective(a.timeout_s as nat, b.timeout_s as nat);
}

/// Framing is injective on field sequences of equal length.
pub proof fn lemma_enc_fields_injective(a: Seq<Seq<char>>, b: Seq<Seq<char>>)
    requires
        a.len() == b.len(),
        enc_fields(a) == enc_fields(b),
    ensures
        a =~= b,
    decreases a.len(),
{
    if a.len() > 0 {
        lemma_parse_enc_field(a[0], enc_fields(a.skip(1)));
        lemma_parse_enc_field(b[0], enc_fields(b.skip(1)));
        assert(enc_fields(a) == enc_field(a[0]) + enc_fields(a.skip(1)));
        assert(enc_fields(b) == enc_field(b[0]) + enc_fields(b.skip(1)));
        assert(a[0] == b[0] && enc_fields(a.skip(1)) == enc_fields(b.skip(1)));
        lemma_enc_fields_injective(a.skip(1), b.skip(1));
        assert(a =~= seq![a[0]] + a.skip(1));
        assert(b =~= seq![b[0]] + b.skip(1));
    }
}

} // verus!
