//! Permission rules for tool execution: an ordered rule list checked first
//! match first, with default deny.
//!
//! Tool-name patterns are globs of the library's own small language: `*`
//! matches any run of characters except `/`, `**` matches any run of any
//! characters, every other character stands for itself, and the whole
//! pattern must cover the whole name.

use vstd::prelude::*;
use vstd::string::StrSliceExecFns;
use crate::json::JsonData;
use crate::json::JsonValue;

verus! {

/// What a matching rule decides.
#[derive(Debug, Clone, Copy, PartialEq, Eq, Structural)]
pub enum PermissionAction {
    /// Allow the call.
    Allow,
    /// Deny the call.
    Deny,
    /// Ask the user.
    Ask,
}

/// One permission rule.
#[derive(Debug)]
pub struct Permission {
    /// Tool name pattern; `*` and `**` are wildcards.
    pub tool: String,
    /// What a match decides.
    pub action: PermissionAction,
    /// Substring patterns over the call's arguments, if any; a rule with
    /// patterns matches only when some pattern occurs in the arguments.
    pub patterns: Option<Vec<String>>,
}

/// What a permission check looks at.
#[derive(Debug)]
pub struct PermissionContext {
    /// The tool being called.
    pub tool: String,
    /// The arguments being passed.
    pub args: JsonValue,
    /// The session the call belongs to.
    pub session_id: String,
}

/// The outcome of a permission check.
#[derive(Debug, Clone, Copy, PartialEq, Eq, Structural)]
pub enum PermissionResult {
    /// The call may proceed.
    Allow,
    /// The call is denied.
    Deny,
    /// The user must be asked.
    Ask,
}

/// Whether glob `pat` matches all of `text`: `*` matches any run of
/// non-`/` characters, `**` any run of any characters, other characters
/// themselves.
pub open spec fn glob_matches(pat: Seq<char>, text: Seq<char>) -> bool
    decreases pat.len(), text.len(),
{
    if pat.len() == 0 {
        text.len() == 0
    } else if pat.len() >= 2 && pat[0] == '*' && pat[1] == '*' {
        glob_matches(pat.skip(2), text) || (text.len() > 0 && glob_matches(pat, text.skip(1)))
    } else if pat[0] == '*' {
        glob_matches(pat.skip(1), text) || (text.len() > 0 && text[0] != '/' && glob_matches(
            pat,
            text.skip(1),
        ))
    } else {
        text.len() > 0 && pat[0] == text[0] && glob_matches(pat.skip(1), text.skip(1))
    }
}

/// Whether a tool-name pattern accepts a tool name; the bare pattern `*`
/// accepts every name.
pub open spec fn spec_tool_matches(pat: Seq<char>, tool: Seq<char>) -> bool {
    pat == seq!['*'] || glob_matches(pat, tool)
}

/// Whether `sub` occurs as a contiguous run inside `s`.
pub open spec fn string_contains(s: Seq<char>, sub: Seq<char>) -> bool {
    exists|i: int| 0 <= i <= s.len() - sub.len() && #[trigger] s.subrange(i, i + sub.len()) == sub
}

/// The character content of a JSON string value; empty for anything else.
pub open spec fn str_content(d: JsonData) -> Seq<char> {
    match d {
        JsonData::Str(s) => s,
        _ => Seq::empty(),
    }
}

/// Whether `pat` occurs in the arguments: in the argument itself when it is
/// a string, or in some top-level string value when it is an object.
pub open spec fn value_matches_pattern(args: JsonData, pat: Seq<char>) -> bool {
    match args {
        JsonData::Str(s) => string_contains(s, pat),
        JsonData::Obj(entries) => exists|i: int|
            0 <= i < entries.len() && (#[trigger] entries[i]).1 is Str && string_contains(
                str_content(entries[i].1),
                pat,
            ),
        _ => false,
    }
}

/// Whether the argument patterns accept the arguments: an empty pattern list
/// accepts everything, a non-empty one needs at least one occurring pattern.
pub open spec fn args_match_spec(patterns: Seq<String>, args: JsonData) -> bool {
    patterns.len() == 0 || exists|k: int|
        0 <= k < patterns.len() && value_matches_pattern(args, (#[trigger] patterns[k])@)
}

/// Whether one rule matches a check context.
pub open spec fn rule_matches(rule: Permission, ctx: PermissionContext) -> bool {
    &&& spec_tool_matches(rule.tool@, ctx.tool@)
    &&& match rule.patterns {
        Some(ps) => args_match_spec(ps@, ctx.args@),
        None => true,
    }
}

/// The decision of the rule list from rule `i` on: the first matching rule
/// decides, and no match means deny. A matching `Ask` rule also denies,
/// since no way of asking the user is wired in yet.
pub open spec fn check_from(rules: Seq<Permission>, ctx: PermissionContext, i: int)
    -> PermissionResult
    decreases rules.len() - i,
{
    if i < 0 || i >= rules.len() {
        PermissionResult::Deny
    } else if rule_matches(rules[i], ctx) {
        match rules[i].action {
            PermissionAction::Allow => PermissionResult::Allow,
            PermissionAction::Deny => PermissionResult::Deny,
            PermissionAction::Ask => PermissionResult::Deny,
        }
    } else {
        check_from(rules, ctx, i + 1)
    }
}

/// The characters of a string, as a vector.
#[verifier::loop_isolation(false)]
fn str_chars(s: &str) -> (r: Vec<char>)
    ensures
        r@ == s@,
{
    let len = s.unicode_len();
    let mut out: Vec<char> = Vec::new();
    let mut i: usize = 0;
    while i < len
        invariant
            i <= len,
            len == s@.len(),
            out@.len() == i,
            forall|j: int| 0 <= j < i ==> out@[j] == s@[j],
        decreases len - i,
    {
        out.push(s.get_char(i));
        i += 1;
    }
    proof {
        assert(out@ =~= s@);
    }
    out
}

/// Glob matching over the suffixes `pat[pi..]` and `text[ti..]`.
#[verifier::loop_isolation(false)]
fn glob_match_at(pat: &Vec<char>, pi: usize, text: &Vec<char>, ti: usize) -> (r: bool)
    requires
        pi <= pat@.len(),
        ti <= text@.len(),
    ensures
        r == glob_matches(pat@.skip(pi as int), text@.skip(ti as int)),
    decreases pat@.len() - pi, text@.len() - ti,
{
    proof {
        assert(pat@.skip(pi as int).len() == pat@.len() - pi);
        assert(text@.skip(ti as int).len() == text@.len() - ti);
    }
    if pi == pat.len() {
        return ti == text.len();
    }
    proof {
        assert(pat@.skip(pi as int)[0] == pat@[pi as int]);
        assert(pat@.skip(pi as int).skip(1) =~= pat@.skip(pi + 1 as int));
        if ti < text@.len() {
            assert(text@.skip(ti as int)[0] == text@[ti as int]);
            assert(text@.skip(ti as int).skip(1) =~= text@.skip(ti + 1 as int));
        }
    }
    if pat[pi] == '*' {
        if pi + 1 < pat.len() && pat[pi + 1] == '*' {
            proof {
                assert(pat@.skip(pi as int)[1] == pat@[pi + 1 as int]);
                assert(pat@.skip(pi as int).skip(2) =~= pat@.skip(pi + 2 as int));
            }
            if glob_match_at(pat, pi + 2, text, ti) {
                return true;
            }
            if ti < text.len() {
                return glob_match_at(pat, pi, text, ti + 1);
            }
            return false;
        }
        proof {
            if pat@.skip(pi as int).len() >= 2 {
                assert(pat@.skip(pi as int)[1] == pat@[pi + 1 as int]);
            }
        }
        if glob_match_at(pat, pi + 1, text, ti) {
            return true;
        }
        if ti < text.len() && text[ti] != '/' {
            return glob_match_at(pat, pi, text, ti + 1);
        }
        return false;
    }
    if ti < text.len() && pat[pi] == text[ti] {
        return glob_match_at(pat, pi + 1, text, ti + 1);
    }
    false
}

/// Whether `pv` occurs in `sv` starting exactly at `i`.
#[verifier::loop_isolation(false)]
fn match_at(sv: &Vec<char>, pv: &Vec<char>, i: usize) -> (r: bool)
    requires
        i + pv@.len() <= sv@.len(),
    ensures
        r == (sv@.subrange(i as int, i + pv@.len()) == pv@),
{
    let sv_len = sv.len();
    let mut j: usize = 0;
    while j < pv.len()
        invariant
            j <= pv@.len(),
            sv_len == sv@.len(),
            i + pv@.len() <= sv@.len(),
            forall|x: int| 0 <= x < j ==> sv@[i + x] == pv@[x],
        decreases pv@.len() - j,
    {
        if sv[i + j] != pv[j] {
            proof {
                assert(sv@.subrange(i as int, i + pv@.len())[j as int] != pv@[j as int]);
            }
            return false;
        }
        j += 1;
    }
    proof {
        assert(sv@.subrange(i as int, i + pv@.len()) =~= pv@);
    }
    true
}

/// Whether `sub` occurs anywhere inside `s`.
#[verifier::loop_isolation(false)]
pub fn str_contains_sub(s: &str, sub: &str) -> (r: bool)
    ensures
        r == string_contains(s@, sub@),
{
    let sv = str_chars(s);
    let pv = str_chars(sub);
    if pv.len() > sv.len() {
        return false;
    }
    if pv.len() == 0 {
        proof {
            let w: int = 0;
            assert(s@.subrange(w, w + sub@.len()) =~= sub@);
            assert(string_contains(s@, sub@));
        }
        return true;
    }
    let bound = sv.len() - pv.len();
    let mut i: usize = 0;
    while i <= bound
        invariant
            i <= bound + 1,
            bound == sv@.len() - pv@.len(),
            forall|x: int| 0 <= x < i ==> #[trigger] sv@.subrange(x, x + pv@.len()) != pv@,
        decreases bound + 1 - i,
    {
        if match_at(&sv, &pv, i) {
            return true;
        }
        i += 1;
    }
    false
}

/// Manages permission rules for tool execution.
#[derive(Debug)]
pub struct PermissionManager {
    rules: Vec<Permission>,
}

impl PermissionManager {
    /// The rules held, in the order they were added.
    pub closed spec fn spec_rules(self) -> Seq<Permission> {
        self.rules@
    }

    /// The decision this manager makes on a context.
    pub open spec fn spec_check(self, ctx: PermissionContext) -> PermissionResult {
        check_from(self.spec_rules(), ctx, 0)
    }

    /// A fresh manager with no rules.
    pub fn new() -> (r: PermissionManager)
        ensures
            r.spec_rules().len() == 0,
    {
        PermissionManager { rules: Vec::new() }
    }

    /// Appends one rule; later rules lose against earlier ones.
    pub fn add_rule(&mut self, rule: Permission)
        ensures
            final(self).spec_rules() == old(self).spec_rules().push(rule),
    {
        self.rules.push(rule);
    }

    /// Whether a tool-name pattern accepts a tool name.
    pub fn tool_matches(&self, pattern: &str, tool: &str) -> (r: bool)
        ensures
            r == spec_tool_matches(pattern@, tool@),
    {
        proof {
            reveal_strlit("*");
            assert("*"@ =~= seq!['*']);
        }
        if crate::json::str_eq(pattern, "*") {
            return true;
        }
        let pv = str_chars(pattern);
        let tv = str_chars(tool);
        proof {
            assert(pv@.skip(0) =~= pattern@);
            assert(tv@.skip(0) =~= tool@);
        }
        glob_match_at(&pv, 0, &tv, 0)
    }

    /// Whether some pattern occurs in the arguments.
    #[verifier::loop_isolation(false)]
    pub fn args_match(&self, patterns: &Vec<String>, args: &JsonValue) -> (r: bool)
        ensures
            r == args_match_spec(patterns@, args@),
    {
        if patterns.len() == 0 {
            return true;
        }
        let mut k: usize = 0;
        while k < patterns.len()
            invariant
                k <= patterns@.len(),
                forall|x: int|
                    0 <= x < k ==> !value_matches_pattern(args@, (#[trigger] patterns@[x])@),
            decreases patterns@.len() - k,
        {
            if Self::value_matches(args, patterns[k].as_str()) {
                return true;
            }
            k += 1;
        }
        false
    }

    /// Whether one pattern occurs in the arguments.
    #[verifier::loop_isolation(false)]
    fn value_matches(args: &JsonValue, pat: &str) -> (r: bool)
        ensures
            r == value_matches_pattern(args@, pat@),
    {
        match args {
            JsonValue::Str(s) => str_contains_sub(s.as_str(), pat),
            JsonValue::Obj(entries) => {
                proof {
                    crate::json::lemma_json_obj_view(entries@);
                }
                let mut i: usize = 0;
                while i < entries.len()
                    invariant
                        i <= entries@.len(),
                        forall|x: int|
                            0 <= x < i ==> !((#[trigger] crate::json::json_obj_view(
                                entries@,
                            )[x]).1 is Str && string_contains(
                                str_content(crate::json::json_obj_view(entries@)[x].1),
                                pat@,
                            )),
                    decreases entries@.len() - i,
                {
                    let hit = match &entries[i].1 {
                        JsonValue::Str(s) => str_contains_sub(s.as_str(), pat),
                        _ => false,
                    };
                    if hit {
                        proof {
                            let witness = crate::json::json_obj_view(entries@)[i as int];
                            assert(witness.1 == entries@[i as int].1@);
                            assert(witness.1 is Str);
                            assert(string_contains(str_content(witness.1), pat@));
                        }
                        return true;
                    }
                    i += 1;
                }
                false
            }
            _ => false,
        }
    }

    /// Whether a rule matches a check context.
    fn matches(&self, rule: &Permission, ctx: &PermissionContext) -> (r: bool)
        ensures
            r == rule_matches(*rule, *ctx),
    {
        if !self.tool_matches(rule.tool.as_str(), ctx.tool.as_str()) {
            return false;
        }
        match &rule.patterns {
            Some(ps) => self.args_match(ps, &ctx.args),
            None => true,
        }
    }

    /// Decides whether the call described by `ctx` is permitted: the first
    /// matching rule decides, and no matching rule means deny.
    #[verifier::loop_isolation(false)]
    pub fn check(&self, ctx: &PermissionContext) -> (r: PermissionResult)
        ensures
            r == self.spec_check(*ctx),
    {
        let mut i: usize = 0;
        while i < self.rules.len()
            invariant
                i <= self.spec_rules().len(),
                check_from(self.spec_rules(), *ctx, 0) == check_from(
                    self.spec_rules(),
                    *ctx,
                    i as int,
                ),
            decreases self.spec_rules().len() - i,
        {
            if self.matches(&self.rules[i], ctx) {
                return match self.rules[i].action {
                    PermissionAction::Allow => PermissionResult::Allow,
                    PermissionAction::Deny => PermissionResult::Deny,
                    PermissionAction::Ask => self.ask_user(ctx),
                };
            }
            i += 1;
        }
        PermissionResult::Deny
    }

    /// What an `Ask` rule decides while no way of asking the user is wired
    /// in: deny.
    fn ask_user(&self, _ctx: &PermissionContext) -> (r: PermissionResult)
        ensures
            r == PermissionResult::Deny,
    {
        PermissionResult::Deny
    }
}

/// Default deny: whatever the context, a manager whose rule list matches
/// nothing — in particular an empty one — denies.
pub proof fn lemma_unmatched_denies(
    rules: Seq<Permission>,
    ctx: PermissionContext,
    i: int,
)
    requires
        forall|k: int| 0 <= k < rules.len() ==> !rule_matches(#[trigger] rules[k], ctx),
    ensures
        check_from(rules, ctx, i) == PermissionResult::Deny,
    decreases rules.len() - i,
{
    if 0 <= i < rules.len() {
        lemma_unmatched_denies(rules, ctx, i + 1);
    }
}

} // verus!
