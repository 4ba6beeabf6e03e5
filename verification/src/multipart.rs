//! Forms that carry files.
use vstd::prelude::*;

verus! {

/// What `multer::parse_boundary` returns: the boundary, or its error in words.
pub uninterp spec fn boundary_of(content_type: Seq<char>) -> Result<Seq<char>, Seq<char>>;

/// `multer::parse_boundary`: the boundary that the content type of a form names,
/// or an error when it is no content type, not that of a form, or names none.
/// The result is named and not stated, as it rests on the grammar of content
/// types.
#[verifier::external_body]
fn parse_boundary(content_type: &str) -> (r: Result<String, String>)
    ensures
        match r {
            Ok(b) => boundary_of(content_type@) == Ok::<Seq<char>, Seq<char>>(b@),
            Err(e) => boundary_of(content_type@) == Err::<Seq<char>, Seq<char>>(e@),
        },
{
    multer::parse_boundary(content_type).map_err(|e| e.to_string())
}

/// What is said of a form whose boundary cannot be read.
pub open spec fn boundary_error(hint: Seq<char>, error: Seq<char>) -> Seq<char> {
    hint + ": "@ + error
}

/// Says what is wrong with a form whose boundary could not be read.
pub fn explain_boundary(parsed: Result<String, String>, hint: &str) -> (r: Result<String, String>)
    ensures
        match parsed {
            Ok(b) => r == Ok::<String, String>(b),
            Err(e) => r is Err && r->Err_0@ == boundary_error(hint@, e@),
        },
{
    match parsed {
        Ok(b) => Ok(b),
        Err(e) => {
            let mut out = hint.to_owned();
            out.append(": ");
            out.append(&e);
            Err(out)
        },
    }
}

/// Reads the boundary that the content type of a form names.
pub fn read_boundary(content_type: &str, hint: &str) -> (r: Result<String, String>)
    ensures
        match boundary_of(content_type@) {
            Ok(b) => r is Ok && r->Ok_0@ == b,
            Err(e) => r is Err && r->Err_0@ == boundary_error(hint@, e),
        },
{
    explain_boundary(parse_boundary(content_type), hint)
}

/// What is no form with files is told, with what was expected; a boundary is handed on as
/// it was read.
pub proof fn a_missing_boundary_is_told(
    parsed: Result<String, String>,
    hint: &str,
    r: Result<String, String>,
)
    requires
        call_ensures(explain_boundary, (parsed, hint), r),
    ensures
        parsed matches Ok(b) ==> r == Ok::<String, String>(b),
        parsed matches Err(e) ==> r is Err && r->Err_0@ == hint@ + ": "@ + e@,
{
}

/// The boundary of a form is the one that its content type names; else it is told what was
/// expected.
pub proof fn a_boundary_is_read_from_the_content_type(
    content_type: &str,
    hint: &str,
    r: Result<String, String>,
)
    requires
        call_ensures(read_boundary, (content_type, hint), r),
    ensures
        r is Ok <==> boundary_of(content_type@) is Ok,
        r is Ok ==> r->Ok_0@ == boundary_of(content_type@)->Ok_0,
        r is Err ==> r->Err_0@ == hint@ + ": "@ + boundary_of(content_type@)->Err_0,
{
}

} // verus!
