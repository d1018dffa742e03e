//! The greeting formatter.

use vstd::prelude::*;
use vstd::string::StringExecFns;

verus! {

/// The fixed text in front of the name.
pub open spec fn greeting_prefix() -> Seq<char> {
    "Hello, "@
}

/// The fixed text behind the name.
pub open spec fn greeting_suffix() -> Seq<char> {
    "! You've been greeted from Rust!"@
}

/// The greeting for `name`: the prefix, the name as it is, the suffix.
pub open spec fn greeting(name: Seq<char>) -> Seq<char> {
    greeting_prefix() + name + greeting_suffix()
}

/// Formats the greeting for `name`. Every name is accepted, the empty one
/// too; nothing is read or changed beyond the returned string.
pub fn greet(name: &str) -> (out: String)
    ensures
        out@ == greeting(name@),
{
    let mut out = String::from_str("Hello, ");
    out.append(name);
    out.append("! You've been greeted from Rust!");
    out
}

/// The lengths of the two fixed parts of the template.
pub proof fn lemma_template_lengths()
    ensures
        greeting_prefix().len() == 7,
        greeting_suffix().len() == 32,
{
    reveal_strlit("Hello, ");
    reveal_strlit("! You've been greeted from Rust!");
}

/// A greeting holds the name verbatim between the two fixed parts: it is
/// exactly as long as the three together, it starts with the prefix, ends
/// with the suffix, and each character of the name stands unchanged at its
/// place behind the prefix.
pub proof fn lemma_greeting_holds_name(name: Seq<char>)
    ensures
        greeting(name).len() == greeting_prefix().len() + name.len() + greeting_suffix().len(),
        greeting(name).len() == name.len() + 39,
        greeting(name).subrange(0, 7) == greeting_prefix(),
        greeting(name).subrange(7, 7 + name.len() as int) == name,
        greeting(name).subrange(7 + name.len() as int, greeting(name).len() as int) == greeting_suffix(),
        forall|i: int| 0 <= i < name.len() ==> #[trigger] greeting(name)[7 + i] == name[i],
{
    lemma_template_lengths();
    let g = greeting(name);
    assert(g.subrange(0, 7) =~= greeting_prefix());
    assert(g.subrange(7, 7 + name.len() as int) =~= name);
    assert(g.subrange(7 + name.len() as int, g.len() as int) =~= greeting_suffix());
}

/// The greeting for the empty name is the template with nothing in between.
pub proof fn lemma_greeting_of_empty_name()
    ensures
        greeting(Seq::<char>::empty()) == greeting_prefix() + greeting_suffix(),
        greeting(Seq::<char>::empty()).len() == 39,
{
    lemma_template_lengths();
    assert(greeting(Seq::<char>::empty()) =~= greeting_prefix() + greeting_suffix());
}

/// The greeting is a function of the name alone: equal names give equal
/// greetings, however often and in whatever order they are asked for.
pub proof fn lemma_greeting_is_repeatable(first: Seq<char>, second: Seq<char>)
    requires
        first == second,
    ensures
        greeting(first) == greeting(second),
{
}

/// Nothing of the name is lost: two names with the same greeting are the
/// same name.
pub proof fn lemma_greeting_is_injective(first: Seq<char>, second: Seq<char>)
    requires
        greeting(first) == greeting(second),
    ensures
        first == second,
{
    lemma_greeting_holds_name(first);
    lemma_greeting_holds_name(second);
}

} // verus!
