//! Keyword replies: rules that match incoming chat messages.

use vstd::prelude::*;

verus! {

/// Whether the regular expression `pattern` compiles.
pub uninterp spec fn pattern_compiles(pattern: Seq<char>) -> bool;

/// Whether the compiled `pattern` matches somewhere in `text`.
pub uninterp spec fn pattern_found(pattern: Seq<char>, text: Seq<char>) -> bool;

/// Relies on regex's `Regex::new`, which fails exactly on patterns it cannot
/// compile, and `Regex::is_match`, which tells whether the pattern matches
/// anywhere in the text.
#[verifier::external_body]
fn search_pattern(pattern: &str, text: &str) -> (r: Option<bool>)
    ensures
        r is Some == pattern_compiles(pattern@),
        r is Some ==> r->0 == pattern_found(pattern@, text@),
{
    match regex::Regex::new(pattern) {
        Ok(re) => Some(re.is_match(text)),
        Err(_) => None,
    }
}

/// The kind of a rule, as named in the configuration.
pub enum RuleKind {
    ContentRegex,
    AuthorName,
    AuthorId,
}

/// The kind that a configured rule type names, if any.
pub open spec fn rule_kind(rule_type: Seq<char>) -> Option<RuleKind> {
    if rule_type == "content_regex"@ {
        Some(RuleKind::ContentRegex)
    } else if rule_type == "author_name"@ {
        Some(RuleKind::AuthorName)
    } else if rule_type == "author_id"@ {
        Some(RuleKind::AuthorId)
    } else {
        None
    }
}

/// A rule and the reply sent to a message it matches.
#[derive(Clone, Debug)]
pub struct ReplyRule {
    pub rule_type: String,
    pub rule: String,
    pub reply: String,
}

/// Whether `rule` matches a message with this content and author; a rule
/// of an unknown type, or with a pattern that does not compile, matches
/// nothing.
pub open spec fn rule_matches(
    rule: ReplyRule,
    content: Seq<char>,
    author_name: Seq<char>,
    author_id: Seq<char>,
) -> bool {
    match rule_kind(rule.rule_type@) {
        Some(RuleKind::ContentRegex) => pattern_compiles(rule.rule@) && pattern_found(
            rule.rule@,
            content,
        ),
        Some(RuleKind::AuthorName) => author_name == rule.rule@,
        Some(RuleKind::AuthorId) => author_id == rule.rule@,
        None => false,
    }
}

/// The replies owed to a message, in rule order: none to a bot.
pub open spec fn replies(
    rules: Seq<ReplyRule>,
    content: Seq<char>,
    author_name: Seq<char>,
    author_id: Seq<char>,
    author_is_bot: bool,
) -> Seq<Seq<char>>
    decreases rules.len(),
{
    if author_is_bot || rules.len() == 0 {
        Seq::empty()
    } else {
        let rest = replies(rules.drop_last(), content, author_name, author_id, author_is_bot);
        if rule_matches(rules.last(), content, author_name, author_id) {
            rest.push(rules.last().reply@)
        } else {
            rest
        }
    }
}

impl ReplyRule {
    /// Whether this rule matches a message with this content, written by the
    /// author of this name and id (the id in decimal).
    pub fn check(&self, content: &str, author_name: &str, author_id: &str) -> (r: bool)
        ensures
            r == rule_matches(*self, content@, author_name@, author_id@),
    {
        let rule_type = self.rule_type.as_str();
        if string_eq(rule_type, "content_regex") {
            match search_pattern(self.rule.as_str(), content) {
                Some(found) => found,
                None => false,
            }
        } else if string_eq(rule_type, "author_name") {
            string_eq(author_name, self.rule.as_str())
        } else if string_eq(rule_type, "author_id") {
            string_eq(author_id, self.rule.as_str())
        } else {
            false
        }
    }
}

/// Whether two texts are equal.
fn string_eq(a: &str, b: &str) -> (r: bool)
    ensures
        r == (a@ == b@),
{
    let x = String::from_str(a);
    let y = String::from_str(b);
    x == y
}

/// The replies owed to a message: the reply of every rule that matches it,
/// in rule order, and none when the author is a bot.
pub fn replies_for(
    rules: &Vec<ReplyRule>,
    content: &str,
    author_name: &str,
    author_id: &str,
    author_is_bot: bool,
) -> (r: Vec<String>)
    ensures
        r@.map_values(|s: String| s@) == replies(
            rules@,
            content@,
            author_name@,
            author_id@,
            author_is_bot,
        ),
{
    let mut out: Vec<String> = Vec::new();
    if author_is_bot {
        assert(out@.map_values(|s: String| s@) =~= Seq::<Seq<char>>::empty());
        return out;
    }
    let mut i: usize = 0;
    while i < rules.len()
        invariant
            i <= rules@.len(),
            !author_is_bot,
            out@.map_values(|s: String| s@) == replies(
                rules@.take(i as int),
                content@,
                author_name@,
                author_id@,
                author_is_bot,
            ),
        decreases rules@.len() - i,
    {
        let ghost before = out@;
        assert(rules@.take(i + 1).drop_last() =~= rules@.take(i as int));
        if rules[i].check(content, author_name, author_id) {
            out.push(rules[i].reply.clone());
            assert(out@.map_values(|s: String| s@) =~= before.map_values(|s: String| s@).push(
                rules@[i as int].reply@,
            ));
        }
        i = i + 1;
    }
    assert(rules@.take(rules@.len() as int) =~= rules@);
    out
}

} // verus!
