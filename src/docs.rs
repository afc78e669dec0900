use vstd::prelude::*;

verus! {

/// What textwrap's `indent` makes of `s` with `prefix`.
pub uninterp spec fn indented_of(s: Seq<char>, prefix: Seq<char>) -> Seq<char>;

/// What textwrap's `dedent` makes of `s`.
pub uninterp spec fn dedented_of(s: Seq<char>) -> Seq<char>;

/// Relies on `textwrap::indent`: the result depends on `s` and `prefix`
/// alone.
#[verifier::external_body]
fn indent(s: &str, prefix: &str) -> (r: String)
    ensures
        r@ == indented_of(s@, prefix@),
{
    textwrap::indent(s, prefix)
}

/// Relies on `textwrap::dedent`: the result depends on `s` alone.
#[verifier::external_body]
fn dedent(s: &str) -> (r: String)
    ensures
        r@ == dedented_of(s@),
{
    textwrap::dedent(s)
}

/// `n` spaces.
pub open spec fn spaces(n: nat) -> Seq<char> {
    Seq::new(n, |i: int| ' ')
}

/// A documentation comment holding `s`, indented by `level` spaces.
pub open spec fn docstring_of(s: Seq<char>, level: nat) -> Seq<char> {
    indented_of(
        "/**\n"@ + indented_of(dedented_of(s), " * "@) + "\n */"@,
        spaces(level),
    )
}

fn spaces_string(n: usize) -> (r: String)
    ensures
        r@ == spaces(n as nat),
{
    let mut r = String::new();
    for i in 0..n
        invariant
            r@ == spaces(i as nat),
    {
        r.append(" ");
        proof {
            reveal_strlit(" ");
        }
        assert(r@ =~= spaces((i + 1) as nat));
    }
    r
}

pub fn typescript_docstring(s: &str, level: &i32) -> (r: String)
    requires
        *level >= 0,
    ensures
        r@ == docstring_of(s@, *level as nat),
{
    let contents = indent(dedent(s).as_str(), " * ");
    let mut comment = String::from_str("/**\n");
    comment.append(contents.as_str());
    comment.append("\n */");
    let pad = spaces_string(*level as usize);
    indent(comment.as_str(), pad.as_str())
}

} // verus!
