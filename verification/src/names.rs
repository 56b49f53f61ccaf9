//! The metric-name grammar and the fully-qualified name builder.
//!
//! An exposed series name must match `[a-zA-Z_:][a-zA-Z0-9_:]*`; a registry
//! rejects a descriptor whose name falls outside that set. Every name this
//! crate offers is `<namespace>_<short_name>`, and the lemmas here show that
//! such a name is valid whenever the namespace is, and that distinct short
//! names give distinct fully-qualified names.

use vstd::prelude::*;

verus! {

broadcast use vstd::seq::group_seq_axioms;

/// A character allowed anywhere in a metric name except the digits:
/// letters, underscore and colon. These are the only characters allowed
/// in first position.
pub open spec fn name_start_char(c: char) -> bool {
    ('a' as u32 <= c as u32 && c as u32 <= 'z' as u32)
        || ('A' as u32 <= c as u32 && c as u32 <= 'Z' as u32)
        || c == '_'
        || c == ':'
}

/// A character allowed after the first position: a start character or a digit.
pub open spec fn name_char(c: char) -> bool {
    name_start_char(c) || ('0' as u32 <= c as u32 && c as u32 <= '9' as u32)
}

/// The metric-name grammar `[a-zA-Z_:][a-zA-Z0-9_:]*`: non-empty, a start
/// character first, name characters after.
pub open spec fn valid_metric_name(s: Seq<char>) -> bool {
    &&& s.len() > 0
    &&& name_start_char(s[0])
    &&& forall|i: int| 1 <= i < s.len() ==> name_char(#[trigger] s[i])
}

/// Every character of `s` is a name character.
pub open spec fn all_name_chars(s: Seq<char>) -> bool {
    forall|i: int| 0 <= i < s.len() ==> name_char(#[trigger] s[i])
}

/// The fully-qualified name of a series: the namespace, an underscore, the
/// short name.
pub open spec fn spec_fq_name(ns: Seq<char>, short: Seq<char>) -> Seq<char> {
    (ns + "_"@) + short
}

fn is_name_start_char(c: char) -> (r: bool)
    ensures
        r == name_start_char(c),
{
    let u = c as u32;
    ('a' as u32 <= u && u <= 'z' as u32) || ('A' as u32 <= u && u <= 'Z' as u32) || c == '_'
        || c == ':'
}

fn is_name_char(c: char) -> (r: bool)
    ensures
        r == name_char(c),
{
    let u = c as u32;
    is_name_start_char(c) || ('0' as u32 <= u && u <= '9' as u32)
}

/// Decides membership in the metric-name grammar.
pub fn is_valid_metric_name(s: &str) -> (r: bool)
    ensures
        r == valid_metric_name(s@),
{
    let n = s.unicode_len();
    if n == 0 {
        return false;
    }
    if !is_name_start_char(s.get_char(0)) {
        return false;
    }
    let mut i: usize = 1;
    while i < n
        invariant
            1 <= i <= n,
            n == s@.len(),
            name_start_char(s@[0]),
            forall|j: int| 1 <= j < i ==> name_char(#[trigger] s@[j]),
        decreases n - i,
    {
        if !is_name_char(s.get_char(i)) {
            return false;
        }
        i += 1;
    }
    true
}

/// Builds `<namespace>_<short>`.
pub fn fq_name(namespace: &str, short: &str) -> (r: String)
    ensures
        r@ == spec_fq_name(namespace@, short@),
{
    let mut s = namespace.to_owned();
    s.append("_");
    s.append(short);
    s
}

/// Appending to a common prefix is injective: equal concatenations with the
/// same left part have equal right parts.
pub proof fn lemma_concat_injective(a: Seq<char>, b: Seq<char>, c: Seq<char>)
    requires
        a + b == a + c,
    ensures
        b == c,
{
    assert((a + b).len() == a.len() + b.len());
    assert((a + c).len() == a.len() + c.len());
    assert(b.len() == c.len());
    assert forall|i: int| 0 <= i < b.len() implies b[i] == c[i] by {
        assert((a + b)[a.len() + i] == b[i]);
        assert((a + c)[a.len() + i] == c[i]);
    }
    assert(b =~= c);
}

/// Two fully-qualified names under the same namespace agree only if their
/// short names do.
pub proof fn lemma_fq_name_injective(ns: Seq<char>, s1: Seq<char>, s2: Seq<char>)
    requires
        spec_fq_name(ns, s1) == spec_fq_name(ns, s2),
    ensures
        s1 == s2,
{
    lemma_concat_injective(ns + "_"@, s1, s2);
}

/// A fully-qualified name is valid whenever the namespace is valid and the
/// short name consists of name characters.
pub proof fn lemma_fq_name_valid(ns: Seq<char>, short: Seq<char>)
    requires
        valid_metric_name(ns),
        all_name_chars(short),
    ensures
        valid_metric_name(spec_fq_name(ns, short)),
{
    reveal_strlit("_");
    let f = spec_fq_name(ns, short);
    assert(name_char('_'));
    assert(f[0] == ns[0]);
    assert forall|i: int| 1 <= i < f.len() implies name_char(#[trigger] f[i]) by {
        if i < ns.len() {
            assert(f[i] == ns[i]);
        } else if i == ns.len() {
            assert(f[i] == '_');
        } else {
            assert(f[i] == short[i - ns.len() - 1]);
        }
    }
}

} // verus!
