use vstd::prelude::*;
use vstd::string::*;

verus! {

/// The file name under which a session's script is staged: its label with
/// the script extension appended.
pub open spec fn script_name_of(label: Seq<char>) -> Seq<char> {
    label + ".kts"@
}

/// Name of the staged script for the session `label`. Repeated runs of one
/// session reuse the same name.
pub fn script_name(label: &str) -> (r: String)
    ensures
        r@ == script_name_of(label@),
{
    let mut name = String::from_str(label);
    name.append(".kts");
    name
}

/// Sessions with different labels stage their scripts under different names,
/// so concurrent sessions never write to the same file.
pub proof fn lemma_sessions_never_collide(a: Seq<char>, b: Seq<char>)
    requires
        a != b,
    ensures
        script_name_of(a) != script_name_of(b),
{
    let ext = ".kts"@;
    if script_name_of(a) == script_name_of(b) {
        assert((a + ext).len() == a.len() + ext.len());
        assert((b + ext).len() == b.len() + ext.len());
        assert(a.len() == b.len());
        assert(script_name_of(a).subrange(0, a.len() as int) =~= a);
        assert(script_name_of(b).subrange(0, b.len() as int) =~= b);
    }
}

} // verus!
