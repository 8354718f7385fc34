//! Building greeting strings.

use vstd::prelude::*;
use vstd::string::StringExecFns;

verus! {

/// The text that `foo` puts before its argument.
pub open spec fn foo_prefix() -> Seq<char> {
    seq!['h', 'e', 'l', 'l', 'o', ',', ' ']
}

/// The text that `hello` puts before the name.
pub open spec fn hello_prefix() -> Seq<char> {
    seq!['H', 'e', 'l', 'l', 'o', ' ']
}

/// The text of the string that `gen_static_str` hands out.
pub open spec fn static_text() -> Seq<char> {
    seq!['h', 'e', 'l', 'l', 'o', ' ', 'w', 'o', 'r', 'l', 'd']
}

/// Returns `"hello, "` followed by `x`.
pub fn foo(x: &str) -> (res: String)
    ensures
        res@ == foo_prefix() + x@,
{
    proof {
        reveal_strlit("hello, ");
    }
    String::from_str("hello, ").concat(x)
}

/// Returns the greeting for `name`: `"Hello "` followed by the name.
/// The caller shows it.
pub fn hello(name: &str) -> (res: String)
    ensures
        res@ == hello_prefix() + name@,
{
    proof {
        reveal_strlit("Hello ");
    }
    String::from_str("Hello ").concat(name)
}

/// Gives up ownership of `s` for the rest of the program and returns its
/// contents as a string slice that lives as long as the program.
///
/// Trusted: calls `String::leak`, whose documentation says that it consumes
/// the string and returns a reference to its contents, which are left as
/// they were.
#[verifier::external_body]
fn leak_string(s: String) -> (res: &'static str)
    ensures
        res@ == s@,
{
    s.leak()
}

/// Builds the string `"hello world"` at run time and leaks it, so that it
/// can be handed out as a `&'static str`.
pub fn gen_static_str() -> (res: &'static str)
    ensures
        res@ == static_text(),
{
    let mut s = String::new();
    proof {
        reveal_strlit("hello world");
    }
    s.append("hello world");
    leak_string(s)
}

} // verus!
