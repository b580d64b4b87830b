//! The validation rule engine: declarative per-field constraints (presence,
//! minimum length, email shape, equality with another field) evaluated in
//! declaration order against a request payload. Evaluation reports at most
//! one violation per field — the first failing rule wins — and collects the
//! failing fields of the whole payload in one pass, in field order.

use vstd::prelude::*;
use vstd::string::StrSliceExecFns;

verus! {

/// The mathematical form of one field rule: the constraint together with the
/// message reported when it fails.
#[verifier::ext_equal]
pub enum SpecRule {
    Required { message: Seq<char> },
    MinLength { min: int, message: Seq<char> },
    Email { message: Seq<char> },
    EqualsValue { other: Seq<char>, message: Seq<char> },
}

/// One executable field rule.
pub enum StrRule {
    /// The field must hold at least one non-whitespace character.
    Required { message: String },
    /// The field must hold at least `min` characters.
    MinLength { min: usize, message: String },
    /// The field must look like an email address.
    Email { message: String },
    /// The field must equal `other` character for character (used for
    /// password confirmation pairs, with `other` the value of the named
    /// partner field).
    EqualsValue { other: String, message: String },
}

impl View for StrRule {
    type V = SpecRule;

    open spec fn view(&self) -> SpecRule {
        match self {
            StrRule::Required { message } => SpecRule::Required { message: message@ },
            StrRule::MinLength { min, message } => SpecRule::MinLength {
                min: *min as int,
                message: message@,
            },
            StrRule::Email { message } => SpecRule::Email { message: message@ },
            StrRule::EqualsValue { other, message } => SpecRule::EqualsValue {
                other: other@,
                message: message@,
            },
        }
    }
}

/// ASCII whitespace: space, tab, line feed, carriage return, form feed.
pub open spec fn is_space_char(c: char) -> bool {
    c == ' ' || c == '\t' || c == '\n' || c == '\r' || c == '\u{c}'
}

/// A string that a `required` rule rejects: empty, or made of whitespace
/// alone.
pub open spec fn is_blank(s: Seq<char>) -> bool {
    forall|i: int| 0 <= i < s.len() ==> is_space_char(#[trigger] s[i])
}

/// `i` splits `s` into an email's parts: a non-empty local part before the
/// first '@', which sits at `i`, and a domain after it holding at least one
/// dot. This is a shape check, not an exhaustive address grammar.
pub open spec fn email_split_at(s: Seq<char>, i: int) -> bool {
    &&& 0 < i < s.len()
    &&& s[i] == '@'
    &&& (forall|k: int| 0 <= k < i ==> #[trigger] s[k] != '@')
    &&& (exists|j: int| i < j < s.len() && #[trigger] s[j] == '.')
}

/// The email shape check: some position splits the string as
/// `email_split_at` asks.
pub open spec fn is_email(s: Seq<char>) -> bool {
    exists|i: int| #[trigger] email_split_at(s, i)
}

/// Whether `r` rejects the field value `value`.
pub open spec fn rule_fails(value: Seq<char>, r: SpecRule) -> bool {
    match r {
        SpecRule::Required { .. } => is_blank(value),
        SpecRule::MinLength { min, .. } => value.len() < min,
        SpecRule::Email { .. } => !is_email(value),
        SpecRule::EqualsValue { other, .. } => value != other,
    }
}

/// The message a rule reports when it fails.
pub open spec fn rule_message(r: SpecRule) -> Seq<char> {
    match r {
        SpecRule::Required { message } => message,
        SpecRule::MinLength { message, .. } => message,
        SpecRule::Email { message } => message,
        SpecRule::EqualsValue { message, .. } => message,
    }
}

/// The message of the first rule in `rules` that rejects `value`, if any:
/// rule evaluation for one field short-circuits at its first failure.
pub open spec fn first_failure(value: Seq<char>, rules: Seq<SpecRule>) -> Option<Seq<char>>
    decreases rules.len(),
{
    if rules.len() == 0 {
        None
    } else if rule_fails(value, rules[0]) {
        Some(rule_message(rules[0]))
    } else {
        first_failure(value, rules.drop_first())
    }
}

/// One reported violation: the field's wire name and the failing rule's
/// message.
#[derive(Clone, Debug)]
pub struct Violation {
    pub field: String,
    pub message: String,
}

impl View for Violation {
    type V = (Seq<char>, Seq<char>);

    open spec fn view(&self) -> (Seq<char>, Seq<char>) {
        (self.field@, self.message@)
    }
}

/// The mathematical form of one declared field: its wire name, its value in
/// the payload under check, and its rules in declaration order.
#[verifier::ext_equal]
pub struct SpecField {
    pub name: Seq<char>,
    pub value: Seq<char>,
    pub rules: Seq<SpecRule>,
}

/// One field of a payload's validation table: the field's wire name, its
/// value, and its rules in declaration order.
pub struct FieldRules {
    pub field: String,
    pub value: String,
    pub rules: Vec<StrRule>,
}

/// The view of a rule list.
pub open spec fn rules_view(rules: Seq<StrRule>) -> Seq<SpecRule> {
    rules.map_values(|r: StrRule| r@)
}

impl View for FieldRules {
    type V = SpecField;

    open spec fn view(&self) -> SpecField {
        SpecField { name: self.field@, value: self.value@, rules: rules_view(self.rules@) }
    }
}

/// The view of a validation table.
pub open spec fn fields_view(fs: Seq<FieldRules>) -> Seq<SpecField> {
    fs.map_values(|f: FieldRules| f@)
}

/// What one field contributes to the violation list: nothing, or its first
/// failure.
pub open spec fn field_violations(f: SpecField) -> Seq<(Seq<char>, Seq<char>)> {
    match first_failure(f.value, f.rules) {
        Some(m) => seq![(f.name, m)],
        None => Seq::<(Seq<char>, Seq<char>)>::empty(),
    }
}

/// The ordered violation list of a whole table: each field's contribution in
/// field declaration order, so the output is deterministic.
pub open spec fn violations_of(fs: Seq<SpecField>) -> Seq<(Seq<char>, Seq<char>)>
    decreases fs.len(),
{
    if fs.len() == 0 {
        Seq::<(Seq<char>, Seq<char>)>::empty()
    } else {
        violations_of(fs.drop_last()) + field_violations(fs.last())
    }
}

/// Decides `is_blank` for a string.
fn is_blank_exec(s: &String) -> (b: bool)
    ensures
        b == is_blank(s@),
{
    let n = s.as_str().unicode_len();
    let mut i: usize = 0;
    while i < n
        invariant
            n == s@.len(),
            i <= n,
            forall|k: int| 0 <= k < i ==> is_space_char(#[trigger] s@[k]),
        decreases n - i,
    {
        let c = s.as_str().get_char(i);
        if !(c == ' ' || c == '\t' || c == '\n' || c == '\r' || c == '\u{c}') {
            proof {
                assert(!is_space_char(s@[i as int]));
            }
            return false;
        }
        i = i + 1;
    }
    true
}

/// Decides `is_email` for a string: looks for the first '@', checks that it
/// is not the first character, and looks for a dot after it.
fn is_email_exec(s: &String) -> (b: bool)
    ensures
        b == is_email(s@),
{
    let n = s.as_str().unicode_len();
    let mut at: usize = 0;
    let mut found_at = false;
    while at < n && !found_at
        invariant
            n == s@.len(),
            at <= n,
            !found_at ==> forall|k: int| 0 <= k < at ==> #[trigger] s@[k] != '@',
            found_at ==> at < n && s@[at as int] == '@' && forall|k: int|
                0 <= k < at ==> #[trigger] s@[k] != '@',
        decreases n - at, (if found_at { 0int } else { 1int }),
    {
        if s.as_str().get_char(at) == '@' {
            found_at = true;
        } else {
            at = at + 1;
        }
    }
    if !found_at {
        proof {
            assert forall|i: int| !email_split_at(s@, i) by {
                if 0 < i < s@.len() {
                    assert(s@[i] != '@');
                }
            }
        }
        return false;
    }
    if at == 0 {
        proof {
            assert forall|i: int| !email_split_at(s@, i) by {
                if email_split_at(s@, i) {
                    assert(s@[0] != '@');
                    assert(false);
                }
            }
        }
        return false;
    }
    let mut j: usize = at + 1;
    while j < n
        invariant
            n == s@.len(),
            0 < at,
            at < j,
            j <= n,
            s@[at as int] == '@',
            forall|k: int| 0 <= k < at ==> #[trigger] s@[k] != '@',
            forall|k: int| at < k < j ==> #[trigger] s@[k] != '.',
        decreases n - j,
    {
        if s.as_str().get_char(j) == '.' {
            proof {
                assert((at as int) < (j as int) && (j as int) < s@.len() && s@[j as int] == '.');
                assert(email_split_at(s@, at as int));
            }
            return true;
        }
        j = j + 1;
    }
    proof {
        assert forall|i: int| !email_split_at(s@, i) by {
            if email_split_at(s@, i) {
                if i < at as int {
                    assert(s@[i] == '@');
                    assert(false);
                }
                if i > at as int {
                    assert(s@[at as int] != '@');
                    assert(false);
                }
                let jj = choose|jj: int| i < jj < s@.len() && #[trigger] s@[jj] == '.';
                assert(s@[jj] != '.');
                assert(false);
            }
        }
    }
    false
}

/// Decides whether one rule rejects the value.
fn rule_fails_exec(value: &String, rule: &StrRule) -> (b: bool)
    ensures
        b == rule_fails(value@, rule@),
{
    match rule {
        StrRule::Required { .. } => is_blank_exec(value),
        StrRule::MinLength { min, .. } => value.as_str().unicode_len() < *min,
        StrRule::Email { .. } => !is_email_exec(value),
        StrRule::EqualsValue { other, .. } => !(*value == *other),
    }
}

/// Hands out the message of a rule.
fn rule_message_exec(rule: &StrRule) -> (m: String)
    ensures
        m@ == rule_message(rule@),
{
    match rule {
        StrRule::Required { message } => message.clone(),
        StrRule::MinLength { message, .. } => message.clone(),
        StrRule::Email { message } => message.clone(),
        StrRule::EqualsValue { message, .. } => message.clone(),
    }
}

/// Evaluates one field's rules in order and reports the first failure, if
/// any.
fn check_rules(value: &String, rules: &Vec<StrRule>) -> (r: Option<String>)
    ensures
        (first_failure(value@, rules_view(rules@)) is Some <==> r is Some),
        (r matches Some(m) ==> first_failure(value@, rules_view(rules@)) == Some(m@)),
{
    let n = rules.len();
    let mut idx: usize = 0;
    proof {
        assert(rules_view(rules@).subrange(0, n as int) =~= rules_view(rules@));
    }
    while idx < n
        invariant
            n == rules.len(),
            idx <= n,
            first_failure(value@, rules_view(rules@)) == first_failure(
                value@,
                rules_view(rules@).subrange(idx as int, n as int),
            ),
        decreases n - idx,
    {
        let rule = &rules[idx];
        proof {
            assert(rules_view(rules@).subrange(idx as int, n as int)[0] == rule@);
        }
        if rule_fails_exec(value, rule) {
            let m = rule_message_exec(rule);
            return Some(m);
        }
        proof {
            assert(rules_view(rules@).subrange(idx as int, n as int).drop_first() =~= rules_view(
                rules@,
            ).subrange(idx + 1 as int, n as int));
        }
        idx = idx + 1;
    }
    proof {
        assert(rules_view(rules@).subrange(n as int, n as int) =~= Seq::<SpecRule>::empty());
    }
    None
}

/// The engine: evaluates every declared field of a payload in declaration
/// order, reporting at most one violation per field (its first failing rule)
/// and all failing fields at once. Returns `Ok` exactly when no rule fails.
pub fn evaluate(fields: &Vec<FieldRules>) -> (r: Result<(), Vec<Violation>>)
    ensures
        (r is Ok <==> violations_of(fields_view(fields@)).len() == 0),
        (r matches Err(es) ==> es@.map_values(|v: Violation| v@) == violations_of(
            fields_view(fields@),
        ) && es@.len() > 0),
{
    let mut out: Vec<Violation> = Vec::new();
    let n = fields.len();
    let mut i: usize = 0;
    while i < n
        invariant
            n == fields.len(),
            i <= n,
            out@.map_values(|v: Violation| v@) == violations_of(
                fields_view(fields@).subrange(0, i as int),
            ),
        decreases n - i,
    {
        let f = &fields[i];
        let res = check_rules(&f.value, &f.rules);
        match res {
            Some(m) => {
                out.push(Violation { field: f.field.clone(), message: m });
            },
            None => {},
        }
        proof {
            assert(fields_view(fields@).subrange(0, i + 1 as int).drop_last() =~= fields_view(
                fields@,
            ).subrange(0, i as int));
            assert(fields_view(fields@).subrange(0, i + 1 as int).last() == fields@[i as int]@);
            assert(out@.map_values(|v: Violation| v@) =~= violations_of(
                fields_view(fields@).subrange(0, i + 1 as int),
            ));
        }
        i = i + 1;
    }
    proof {
        assert(fields_view(fields@).subrange(0, n as int) =~= fields_view(fields@));
    }
    if out.len() == 0 {
        proof {
            assert(out@.map_values(|v: Violation| v@).len() == 0);
        }
        Ok(())
    } else {
        Err(out)
    }
}

/// Law: a payload whose required fields are all empty yields exactly one
/// violation per field, in declaration order, each carrying that field's own
/// required message — no cross-field contamination. Stated for any table
/// whose every field leads with a `required` rule and holds an empty value.
pub proof fn lemma_empty_required_fields(fs: Seq<SpecField>)
    requires
        forall|i: int|
            0 <= i < fs.len() ==> (#[trigger] fs[i].rules).len() >= 1 && fs[i].rules[0] is Required
                && fs[i].value.len() == 0,
    ensures
        violations_of(fs).len() == fs.len(),
        forall|i: int|
            0 <= i < fs.len() ==> #[trigger] violations_of(fs)[i] == (
                fs[i].name,
                rule_message(fs[i].rules[0]),
            ),
    decreases fs.len(),
{
    if fs.len() > 0 {
        let prefix = fs.drop_last();
        lemma_empty_required_fields(prefix);
        let f = fs.last();
        assert(is_blank(f.value));
        assert(rule_fails(f.value, f.rules[0]));
        assert(first_failure(f.value, f.rules) == Some(rule_message(f.rules[0])));
        assert(field_violations(f) == seq![(f.name, rule_message(f.rules[0]))]);
        assert forall|i: int| 0 <= i < fs.len() implies #[trigger] violations_of(fs)[i] == (
            fs[i].name,
            rule_message(fs[i].rules[0]),
        ) by {
            if i < fs.len() - 1 {
                assert(violations_of(fs)[i] == violations_of(prefix)[i]);
                assert(prefix[i] == fs[i]);
            } else {
                assert(violations_of(fs)[i] == field_violations(f)[0]);
            }
        }
    }
}

} // verus!
