use vstd::prelude::*;

verus! {

/// `s` where `present` holds, nothing otherwise.
pub open spec fn line_if(present: bool, s: Seq<char>) -> Seq<char> {
    if present {
        s
    } else {
        Seq::empty()
    }
}

/// Appends `s` to `out` where `present` holds.
pub fn append_if(out: &mut String, present: bool, s: &str)
    ensures
        final(out)@ == old(out)@ + line_if(present, s@),
{
    if present {
        out.append(s);
    } else {
        assert(out@ =~= out@ + line_if(present, s@));
    }
}

} // verus!
