//! The pattern matcher and policy evaluator.
//!
//! A rule pattern matches a command string if one of three checks holds:
//! exact equality, glob matching where `*` (the only wildcard) matches any
//! sequence of characters, or — for patterns without `*` — a prefix match
//! that ends on a token boundary (the next character of the command is a
//! space).

use vstd::prelude::*;
use vstd::string::{StrSliceExecFns, StringExecFns};

use crate::config::Rules;

verus! {

/// The outcome of evaluating one command against one rule set.
#[derive(Debug, Clone, Copy, PartialEq, Eq, Structural)]
pub enum Decision {
    Allow,
    Confirm,
    Deny,
    DefaultDeny,
}

/// The name under which a decision is reported and logged.
pub open spec fn decision_label(d: Decision) -> Seq<char> {
    match d {
        Decision::Allow => "ALLOW"@,
        Decision::Confirm => "CONFIRM"@,
        Decision::Deny => "DENY"@,
        Decision::DefaultDeny => "DEFAULT_DENY"@,
    }
}

impl Decision {
    /// The name under which this decision is reported and logged.
    pub fn label(&self) -> (r: String)
        ensures
            r@ == decision_label(*self),
    {
        match self {
            Decision::Allow => String::from_str("ALLOW"),
            Decision::Confirm => String::from_str("CONFIRM"),
            Decision::Deny => String::from_str("DENY"),
            Decision::DefaultDeny => String::from_str("DEFAULT_DENY"),
        }
    }
}

/// True if the pattern holds a `*` wildcard anywhere.
pub open spec fn has_star(p: Seq<char>) -> bool {
    exists|i: int| 0 <= i < p.len() && p[i] == '*'
}

/// Glob semantics of this domain: `*` matches any sequence of characters,
/// spaces and separators included; every other character matches itself.
pub open spec fn glob_matches(p: Seq<char>, c: Seq<char>) -> bool
    decreases p.len() + c.len(),
{
    if p.len() == 0 {
        c.len() == 0
    } else if p[0] == '*' {
        glob_matches(p.skip(1), c) || (c.len() > 0 && glob_matches(p, c.skip(1)))
    } else {
        c.len() > 0 && c[0] == p[0] && glob_matches(p.skip(1), c.skip(1))
    }
}

/// A starless pattern that is a whole leading token sequence of the command:
/// the command starts with the pattern and continues with a space.
pub open spec fn prefix_boundary_matches(p: Seq<char>, c: Seq<char>) -> bool {
    &&& !has_star(p)
    &&& p.len() < c.len()
    &&& c.subrange(0, p.len() as int) == p
    &&& c[p.len() as int] == ' '
}

/// Whether one rule pattern matches a command string.
pub open spec fn pattern_matches(p: Seq<char>, c: Seq<char>) -> bool {
    ||| p == c
    ||| glob_matches(p, c)
    ||| prefix_boundary_matches(p, c)
}

/// Character-for-character string equality.
pub(crate) fn str_eq(a: &str, b: &str) -> (r: bool)
    ensures
        r == (a@ == b@),
{
    let a_len = a.unicode_len();
    let b_len = b.unicode_len();
    if a_len != b_len {
        return false;
    }
    let mut i: usize = 0;
    while i < a_len
        invariant
            i <= a_len,
            a_len == a@.len(),
            b_len == b@.len(),
            a_len == b_len,
            forall|k: int| 0 <= k < i ==> a@[k] == b@[k],
        decreases a_len - i,
    {
        if a.get_char(i) != b.get_char(i) {
            return false;
        }
        i += 1;
    }
    proof {
        assert(a@ =~= b@);
    }
    true
}

/// Whether the pattern holds a `*` wildcard.
fn contains_star(p: &str) -> (r: bool)
    ensures
        r == has_star(p@),
{
    let len = p.unicode_len();
    let mut i: usize = 0;
    while i < len
        invariant
            i <= len,
            len == p@.len(),
            forall|k: int| 0 <= k < i ==> p@[k] != '*',
        decreases len - i,
    {
        if p.get_char(i) == '*' {
            return true;
        }
        i += 1;
    }
    false
}

/// Glob matching of `p[i..]` against `c[j..]`, by direct recursion on the
/// definition of `glob_matches`.
fn glob_match_at(p: &str, c: &str, i: usize, j: usize) -> (r: bool)
    requires
        i <= p@.len(),
        j <= c@.len(),
    ensures
        r == glob_matches(p@.skip(i as int), c@.skip(j as int)),
    decreases p@.len() - i + c@.len() - j,
{
    let p_len = p.unicode_len();
    let c_len = c.unicode_len();
    if i == p_len {
        return j == c_len;
    }
    proof {
        assert(p@.skip(i as int)[0] == p@[i as int]);
        assert(p@.skip(i as int).skip(1) =~= p@.skip(i as int + 1));
    }
    let pc = p.get_char(i);
    if pc == '*' {
        if glob_match_at(p, c, i + 1, j) {
            return true;
        }
        if j < c_len {
            proof {
                assert(c@.skip(j as int).skip(1) =~= c@.skip(j as int + 1));
            }
            if glob_match_at(p, c, i, j + 1) {
                return true;
            }
        }
        return false;
    }
    if j == c_len {
        return false;
    }
    proof {
        assert(c@.skip(j as int)[0] == c@[j as int]);
        assert(c@.skip(j as int).skip(1) =~= c@.skip(j as int + 1));
    }
    let cc = c.get_char(j);
    if cc == pc {
        glob_match_at(p, c, i + 1, j + 1)
    } else {
        false
    }
}

/// Whether the command starts with the (starless) pattern and continues with
/// a space.
fn starts_with_token_boundary(p: &str, c: &str) -> (r: bool)
    ensures
        r == (p@.len() < c@.len() && c@.subrange(0, p@.len() as int) == p@ && c@[p@.len() as int]
            == ' '),
{
    let p_len = p.unicode_len();
    let c_len = c.unicode_len();
    if p_len >= c_len {
        return false;
    }
    let mut i: usize = 0;
    while i < p_len
        invariant
            i <= p_len,
            p_len == p@.len(),
            c_len == c@.len(),
            p_len < c_len,
            forall|k: int| 0 <= k < i ==> c@[k] == p@[k],
        decreases p_len - i,
    {
        if c.get_char(i) != p.get_char(i) {
            proof {
                assert(c@.subrange(0, p@.len() as int)[i as int] == c@[i as int]);
            }
            return false;
        }
        i += 1;
    }
    proof {
        assert(c@.subrange(0, p@.len() as int) =~= p@);
    }
    c.get_char(p_len) == ' '
}

/// Decides whether a single rule pattern matches a command string: exact
/// equality, then glob matching with `*` as the only wildcard, then the
/// starless prefix-with-boundary rule. First true check wins; the three are
/// tried in that order.
pub fn matches_pattern(pattern: &str, command: &str) -> (r: bool)
    ensures
        r == pattern_matches(pattern@, command@),
{
    if str_eq(pattern, command) {
        return true;
    }
    proof {
        assert(pattern@.skip(0) =~= pattern@);
        assert(command@.skip(0) =~= command@);
    }
    if glob_match_at(pattern, command, 0, 0) {
        return true;
    }
    if !contains_star(pattern) && starts_with_token_boundary(pattern, command) {
        return true;
    }
    false
}

/// A pattern without `*` glob-matches a command exactly when the two are
/// equal.
proof fn lemma_glob_no_star(p: Seq<char>, c: Seq<char>)
    requires
        !has_star(p),
    ensures
        glob_matches(p, c) <==> p == c,
    decreases p.len() + c.len(),
{
    if p.len() == 0 {
        if c.len() == 0 {
            assert(p =~= c);
        }
    } else {
        assert(p[0] != '*');
        assert forall|i: int| 0 <= i < p.skip(1).len() implies p.skip(1)[i] != '*' by {
            assert(p.skip(1)[i] == p[i + 1]);
        }
        if c.len() > 0 && c[0] == p[0] {
            lemma_glob_no_star(p.skip(1), c.skip(1));
            if p.skip(1) == c.skip(1) {
                assert forall|i: int| 0 <= i < p.len() implies p[i] == c[i] by {
                    if i > 0 {
                        assert(p.skip(1)[i - 1] == p[i]);
                        assert(c.skip(1)[i - 1] == c[i]);
                    }
                }
                assert(p =~= c);
            }
            if p == c {
                assert(p.skip(1) =~= c.skip(1));
            }
        }
    }
}

/// Law: for a pattern without `*`, matching is exactly equality or a prefix
/// whose next command character is a space.
pub proof fn lemma_starless_pattern_matches(p: Seq<char>, c: Seq<char>)
    requires
        !has_star(p),
    ensures
        pattern_matches(p, c) <==> (c == p || (p.len() < c.len() && c.subrange(
            0,
            p.len() as int,
        ) == p && c[p.len() as int] == ' ')),
{
    lemma_glob_no_star(p, c);
}

/// A pattern glob-matches the empty command exactly when it is made of
/// wildcards alone.
proof fn lemma_glob_empty_command(p: Seq<char>)
    ensures
        glob_matches(p, Seq::<char>::empty()) <==> (forall|i: int|
            0 <= i < p.len() ==> p[i] == '*'),
    decreases p.len(),
{
    if p.len() == 0 {
    } else if p[0] == '*' {
        lemma_glob_empty_command(p.skip(1));
        if forall|i: int| 0 <= i < p.skip(1).len() ==> p.skip(1)[i] == '*' {
            assert forall|i: int| 0 <= i < p.len() implies p[i] == '*' by {
                if i > 0 {
                    assert(p.skip(1)[i - 1] == p[i]);
                }
            }
        } else {
            let i = choose|i: int| 0 <= i < p.skip(1).len() && p.skip(1)[i] != '*';
            assert(p[i + 1] == p.skip(1)[i]);
        }
    }
}

/// An empty command string matches only an empty pattern or one made of
/// wildcards alone.
pub proof fn lemma_empty_command_matches_only_wildcards(p: Seq<char>)
    ensures
        pattern_matches(p, Seq::<char>::empty()) <==> (forall|i: int|
            0 <= i < p.len() ==> p[i] == '*'),
{
    let e = Seq::<char>::empty();
    lemma_glob_empty_command(p);
    if p == e {
        assert(glob_matches(p, e));
    }
}

/// The argument vector joined into one command string with single spaces.
pub open spec fn join_with_spaces(args: Seq<Seq<char>>) -> Seq<char>
    decreases args.len(),
{
    if args.len() == 0 {
        Seq::empty()
    } else if args.len() == 1 {
        args[0]
    } else {
        join_with_spaces(args.drop_last()) + seq![' '] + args.last()
    }
}

/// Joins the argument vector into the command string that the pattern rules
/// are matched against.
pub fn join_args(args: &[String]) -> (r: String)
    ensures
        r@ == join_with_spaces(args.deep_view()),
{
    let mut out = String::new();
    let mut i: usize = 0;
    while i < args.len()
        invariant
            i <= args.len(),
            out@ == join_with_spaces(args.deep_view().take(i as int)),
        decreases args.len() - i,
    {
        proof {
            reveal_strlit(" ");
            assert(" "@ =~= seq![' ']);
            assert(args.deep_view()[i as int] == args@[i as int]@);
            assert(args.deep_view().take(i as int + 1).drop_last() =~= args.deep_view().take(
                i as int,
            ));
            assert(args.deep_view().take(i as int + 1).last() == args.deep_view()[i as int]);
        }
        if i > 0 {
            out.append(" ");
        }
        out.append(args[i].as_str());
        i += 1;
    }
    proof {
        assert(args.deep_view().take(args.len() as int) =~= args.deep_view());
    }
    out
}

/// Some pattern of the list matches the command.
pub open spec fn any_match(patterns: Seq<Seq<char>>, c: Seq<char>) -> bool {
    exists|i: int| 0 <= i < patterns.len() && pattern_matches(patterns[i], c)
}

/// Some pattern of any of the rule set's three lists matches the command.
pub open spec fn rules_have_match(rules: Rules, c: Seq<char>) -> bool {
    ||| any_match(rules.allow.deep_view(), c)
    ||| any_match(rules.confirm.deep_view(), c)
    ||| any_match(rules.deny.deep_view(), c)
}

/// The decision for a command under one rule set. The precedence is fixed:
/// deny beats confirm beats allow beats the default, and the default is
/// `DefaultDeny` or `Allow` as `deny_by_default` says.
pub open spec fn evaluate_rules(rules: Rules, c: Seq<char>, deny_by_default: bool) -> Decision {
    if any_match(rules.deny.deep_view(), c) {
        Decision::Deny
    } else if any_match(rules.confirm.deep_view(), c) {
        Decision::Confirm
    } else if any_match(rules.allow.deep_view(), c) {
        Decision::Allow
    } else if deny_by_default {
        Decision::DefaultDeny
    } else {
        Decision::Allow
    }
}

/// Law: a command that matches some deny pattern evaluates to `Deny`,
/// whatever the confirm and allow lists hold and whatever the default is.
pub proof fn lemma_deny_precedence(rules: Rules, c: Seq<char>, deny_by_default: bool)
    requires
        any_match(rules.deny.deep_view(), c),
    ensures
        evaluate_rules(rules, c, deny_by_default) == Decision::Deny,
{
}

/// Law: under a rule set whose three lists are all empty, every command
/// evaluates to `DefaultDeny` when `deny_by_default` is set, and to `Allow`
/// otherwise.
pub proof fn lemma_empty_rules_default(rules: Rules, c: Seq<char>, deny_by_default: bool)
    requires
        rules.allow@.len() == 0,
        rules.confirm@.len() == 0,
        rules.deny@.len() == 0,
    ensures
        evaluate_rules(rules, c, deny_by_default) == (if deny_by_default {
            Decision::DefaultDeny
        } else {
            Decision::Allow
        }),
{
    assert(rules.allow.deep_view().len() == 0);
    assert(rules.confirm.deep_view().len() == 0);
    assert(rules.deny.deep_view().len() == 0);
}

/// Law: a rule set has a match exactly when the command matches some pattern
/// of its three lists laid end to end — the categories matter for the
/// decision, not for whether anything matches.
pub proof fn lemma_match_across_combined(rules: Rules, c: Seq<char>)
    ensures
        rules_have_match(rules, c) <==> any_match(
            rules.allow.deep_view() + rules.confirm.deep_view() + rules.deny.deep_view(),
            c,
        ),
{
    let a = rules.allow.deep_view();
    let m = rules.confirm.deep_view();
    let d = rules.deny.deep_view();
    let all = a + m + d;
    if rules_have_match(rules, c) {
        if any_match(a, c) {
            let i = choose|i: int| 0 <= i < a.len() && pattern_matches(a[i], c);
            assert(all[i] == a[i]);
            assert(pattern_matches(all[i], c));
        } else if any_match(m, c) {
            let i = choose|i: int| 0 <= i < m.len() && pattern_matches(m[i], c);
            assert(all[a.len() + i] == m[i]);
            assert(pattern_matches(all[a.len() + i], c));
        } else {
            let i = choose|i: int| 0 <= i < d.len() && pattern_matches(d[i], c);
            assert(all[a.len() + m.len() + i] == d[i]);
            assert(pattern_matches(all[a.len() + m.len() + i], c));
        }
    }
    if any_match(all, c) {
        let i = choose|i: int| 0 <= i < all.len() && pattern_matches(all[i], c);
        if i < a.len() {
            assert(all[i] == a[i]);
        } else if i < a.len() + m.len() {
            assert(all[i] == m[i - a.len()]);
        } else {
            assert(all[i] == d[i - a.len() - m.len()]);
        }
    }
}

/// First-match scan of one pattern list against the command string.
fn any_pattern_matches(patterns: &Vec<String>, command: &str) -> (r: bool)
    ensures
        r == any_match(patterns.deep_view(), command@),
{
    let mut i: usize = 0;
    while i < patterns.len()
        invariant
            i <= patterns.len(),
            forall|k: int| 0 <= k < i ==> !pattern_matches(patterns.deep_view()[k], command@),
        decreases patterns.len() - i,
    {
        proof {
            assert(patterns.deep_view()[i as int] == patterns@[i as int]@);
        }
        if matches_pattern(patterns[i].as_str(), command) {
            return true;
        }
        i += 1;
    }
    false
}

/// True if the command built from `args` matches at least one pattern across
/// the rule set's three lists combined.
pub fn has_any_match(rules: &Rules, args: &[String]) -> (r: bool)
    ensures
        r == rules_have_match(*rules, join_with_spaces(args.deep_view())),
{
    let command = join_args(args);
    if any_pattern_matches(&rules.allow, command.as_str()) {
        return true;
    }
    if any_pattern_matches(&rules.confirm, command.as_str()) {
        return true;
    }
    any_pattern_matches(&rules.deny, command.as_str())
}

/// Evaluates the command built from `args` against one tool's rule set:
/// `Deny` on a deny match, else `Confirm` on a confirm match, else `Allow`
/// on an allow match, else `DefaultDeny` or `Allow` as `deny_by_default`
/// says.
pub fn evaluate(rules: &Rules, args: &[String], deny_by_default: bool) -> (d: Decision)
    ensures
        d == evaluate_rules(*rules, join_with_spaces(args.deep_view()), deny_by_default),
{
    let command = join_args(args);
    if any_pattern_matches(&rules.deny, command.as_str()) {
        return Decision::Deny;
    }
    if any_pattern_matches(&rules.confirm, command.as_str()) {
        return Decision::Confirm;
    }
    if any_pattern_matches(&rules.allow, command.as_str()) {
        return Decision::Allow;
    }
    if deny_by_default {
        Decision::DefaultDeny
    } else {
        Decision::Allow
    }
}

} // verus!


