//! The greeting command: a fixed template around the caller's name.
use vstd::prelude::*;

verus! {

/// Text that opens every greeting, before the name.
pub open spec fn greeting_head() -> Seq<char> {
    "Hello, "@
}

/// Text that closes every greeting, after the name.
pub open spec fn greeting_tail() -> Seq<char> {
    "! You've been greeted from Rust!"@
}

/// The greeting for `name`: the name set between the fixed head and tail.
pub open spec fn greeting(name: Seq<char>) -> Seq<char> {
    greeting_head() + name + greeting_tail()
}

/// Builds the greeting for `name`.
pub fn greet(name: &str) -> (r: String)
    ensures
        r@ == greeting(name@),
{
    let mut r = String::from_str("Hello, ");
    r.append(name);
    r.append("! You've been greeted from Rust!");
    r
}

/// Every greeting is the fixed head, then the name unchanged, then the fixed
/// tail, and nothing else.
pub proof fn lemma_greeting_template(name: Seq<char>)
    ensures
        greeting(name).len() == greeting_head().len() + name.len() + greeting_tail().len(),
        greeting(name).subrange(0, greeting_head().len() as int) == greeting_head(),
        greeting(name).subrange(
            greeting_head().len() as int,
            (greeting_head().len() + name.len()) as int,
        ) == name,
        greeting(name).subrange(
            (greeting_head().len() + name.len()) as int,
            greeting(name).len() as int,
        ) == greeting_tail(),
{
    let g = greeting(name);
    let h = greeting_head().len() as int;
    let n = name.len() as int;
    assert(g.subrange(0, h) =~= greeting_head());
    assert(g.subrange(h, h + n) =~= name);
    assert(g.subrange(h + n, g.len() as int) =~= greeting_tail());
}

/// Two names get the same greeting only if they are the same name.
pub proof fn lemma_greeting_injective(a: Seq<char>, b: Seq<char>)
    requires
        greeting(a) == greeting(b),
    ensures
        a == b,
{
    lemma_greeting_template(a);
    lemma_greeting_template(b);
}

} // verus!
